use chrome_host::cli::client::verbose_line;
use std::time::Duration;

fn ms(d: Duration) -> u64 {
    d.as_millis() as u64
}

#[test]
fn verbose_line_formats_method_path_and_elapsed() {
    let line = verbose_line("GET", "/api/v1/instances", ms(Duration::from_millis(23)));
    assert_eq!(line, "→ GET /api/v1/instances (23ms)");
}

#[test]
fn verbose_line_zero_elapsed_renders_zero_ms() {
    let line = verbose_line("POST", "/api/v1/instances/ins_x/start", ms(Duration::from_micros(400)));
    assert_eq!(line, "→ POST /api/v1/instances/ins_x/start (0ms)");
}

#[test]
fn verbose_line_strips_query_string() {
    let line = verbose_line(
        "GET",
        "/api/v1/environments/env_1/activity?limit=5",
        ms(Duration::from_millis(12)),
    );
    assert_eq!(line, "→ GET /api/v1/environments/env_1/activity (12ms)");
}

#[test]
fn verbose_line_keeps_text_before_first_question_mark_only() {
    assert_eq!(verbose_line("GET", "/a?b?c", 1), "→ GET /a (1ms)");
    assert_eq!(verbose_line("DELETE", "", 1234567), "→ DELETE  (1234567ms)");
}
