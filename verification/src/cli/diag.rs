//! `status` and `doctor`: renderings of the health report, and the doctor's
//! exit code.
use vstd::prelude::*;
use vstd::string::StringExecFns;
use crate::cli::exit::ExitCode;
use crate::cli::model::{HealthCheck, HealthReport};
use crate::text::{
    bool_text, bool_to_string, chars_of, chars_eq, dec, dec_int, i64_to_string, join, join_chars,
    kv, kv_view, push_str, push_u64, string_from_chars, views,
};

verus! {

/// Detail of the first check named `name`, or `-` when there is none.
pub open spec fn find_detail(checks: Seq<HealthCheck>, name: Seq<char>) -> Seq<char>
    decreases checks.len(),
{
    if checks.len() == 0 {
        "-"@
    } else if checks[0].name@ == name {
        checks[0].detail@
    } else {
        find_detail(checks.drop_first(), name)
    }
}

/// Detail of the check named `name`, `-` if the report has none.
pub fn check_detail<'a>(report: &'a HealthReport, name: &str) -> (r: &'a str)
    ensures
        r@ == find_detail(report.checks@, name@),
{
    let n = chars_of(name);
    let mut i: usize = 0;
    assert(report.checks@.skip(0) =~= report.checks@);
    while i < report.checks.len()
        invariant
            0 <= i <= report.checks.len(),
            n@ == name@,
            find_detail(report.checks@, name@) == find_detail(report.checks@.skip(i as int), name@),
        decreases report.checks.len() - i,
    {
        let c = chars_of(report.checks[i].name.as_str());
        if chars_eq(&c, &n) {
            return report.checks[i].detail.as_str();
        }
        assert(report.checks@.skip(i as int).drop_first() =~= report.checks@.skip(i + 1));
        i = i + 1;
    }
    "-"
}

/// The `status` summary pairs.
pub open spec fn status_kv(r: HealthReport) -> Seq<(Seq<char>, Seq<char>)> {
    seq![
        ("version"@, r.version@),
        ("ok"@, bool_text(r.ok)),
        ("kernel"@, find_detail(r.checks@, "kernel"@)),
        ("environments"@, dec_int(r.counts.environments as int)),
        ("instances"@, dec_int(r.counts.instances as int)),
        ("running"@, dec_int(r.counts.running as int)),
        ("extensions"@, dec_int(r.counts.extensions as int)),
    ]
}

/// `status` as key/value pairs: version, overall result, the kernel check's
/// detail and the resource counts.
pub fn status_kv_pairs(report: &HealthReport) -> (r: Vec<(String, String)>)
    ensures
        kv_view(r@) == status_kv(*report),
{
    let kernel = String::from_str(check_detail(report, "kernel"));
    let r = vec![
        kv("version", report.version.clone()),
        kv("ok", bool_to_string(report.ok)),
        kv("kernel", kernel),
        kv("environments", i64_to_string(report.counts.environments)),
        kv("instances", i64_to_string(report.counts.instances)),
        kv("running", i64_to_string(report.counts.running)),
        kv("extensions", i64_to_string(report.counts.extensions)),
    ];
    assert(kv_view(r@) =~= status_kv(*report));
    r
}

/// The lines of one check: `✓`/`✗`, name and detail; a failed check with a
/// suggestion adds an indented suggestion line.
pub open spec fn check_lines(c: HealthCheck) -> Seq<Seq<char>> {
    if c.ok {
        seq!["✓ "@ + c.name@ + " — "@ + c.detail@]
    } else {
        seq!["✗ "@ + c.name@ + " — "@ + c.detail@] + match c.suggestion {
            Some(s) => seq!["  suggestion: "@ + s@],
            None => Seq::empty(),
        }
    }
}

/// The lines of all checks, in order.
pub open spec fn checks_lines(cs: Seq<HealthCheck>) -> Seq<Seq<char>>
    decreases cs.len(),
{
    if cs.len() == 0 {
        Seq::empty()
    } else {
        checks_lines(cs.drop_last()) + check_lines(cs.last())
    }
}

/// Number of failed checks.
pub open spec fn failures(cs: Seq<HealthCheck>) -> nat
    decreases cs.len(),
{
    if cs.len() == 0 {
        0
    } else {
        failures(cs.drop_last()) + if cs.last().ok {
            0nat
        } else {
            1nat
        }
    }
}

/// The closing line of the doctor report.
pub open spec fn doctor_summary(n: nat) -> Seq<char> {
    if n == 0 {
        "No problems found."@
    } else {
        dec(n) + " problem(s) found."@
    }
}

/// The doctor report: one block per check, then the summary line.
pub open spec fn doctor_text(r: HealthReport) -> Seq<char> {
    join(checks_lines(r.checks@).push(doctor_summary(failures(r.checks@))), "\n"@)
}

proof fn lemma_failures_bound(cs: Seq<HealthCheck>)
    ensures
        failures(cs) <= cs.len(),
    decreases cs.len(),
{
    if cs.len() > 0 {
        lemma_failures_bound(cs.drop_last());
    }
}

/// The doctor checklist as text.
pub fn doctor_report_string(report: &HealthReport) -> (s: String)
    ensures
        s@ == doctor_text(*report),
{
    let ghost cs = report.checks@;
    let mut lines: Vec<Vec<char>> = Vec::new();
    let mut failed: usize = 0;
    let mut i: usize = 0;
    assert(cs.take(0) =~= Seq::<HealthCheck>::empty());
    assert(views(lines@) =~= checks_lines(cs.take(0)));
    while i < report.checks.len()
        invariant
            0 <= i <= report.checks.len(),
            cs == report.checks@,
            views(lines@) == checks_lines(cs.take(i as int)),
            failed == failures(cs.take(i as int)),
            failed <= i,
        decreases report.checks.len() - i,
    {
        let check = &report.checks[i];
        let ghost prev = views(lines@);
        let mut first: Vec<char> = Vec::new();
        if check.ok {
            push_str(&mut first, "✓ ");
        } else {
            push_str(&mut first, "✗ ");
        }
        push_str(&mut first, check.name.as_str());
        push_str(&mut first, " — ");
        push_str(&mut first, check.detail.as_str());
        lines.push(first);
        if !check.ok {
            failed = failed + 1;
            match &check.suggestion {
                Some(sg) => {
                    let mut second: Vec<char> = Vec::new();
                    push_str(&mut second, "  suggestion: ");
                    push_str(&mut second, sg.as_str());
                    lines.push(second);
                },
                None => {},
            }
        }
        proof {
            let t = cs.take(i + 1);
            assert(t.drop_last() =~= cs.take(i as int));
            assert(t.last() == cs[i as int]);
            assert(views(lines@) =~= prev + check_lines(cs[i as int]));
        }
        i = i + 1;
    }
    assert(cs.take(report.checks.len() as int) =~= cs);
    let mut last: Vec<char> = Vec::new();
    if failed == 0 {
        push_str(&mut last, "No problems found.");
    } else {
        push_u64(&mut last, failed as u64);
        push_str(&mut last, " problem(s) found.");
    }
    let ghost prev = views(lines@);
    lines.push(last);
    assert(views(lines@) =~= prev.push(doctor_summary(failures(cs))));
    let out = join_chars(&lines, "\n");
    string_from_chars(&out)
}

/// The doctor's exit code: success when the report passed, else general
/// failure.
pub fn doctor_exit_code(report: &HealthReport) -> (x: ExitCode)
    ensures
        x == (if report.ok {
            ExitCode::SUCCESS
        } else {
            ExitCode::GENERAL
        }),
{
    if report.ok {
        ExitCode::SUCCESS
    } else {
        ExitCode::GENERAL
    }
}

} // verus!
