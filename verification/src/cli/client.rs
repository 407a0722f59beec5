//! The request-side rules of the API client: its base address, the
//! verbose summary line, and the unpacking of responses into errors.
use vstd::prelude::*;
use crate::cli::error::CliError;
use crate::text::{
    before, before_char, chars_of, dec, lemma_index_of_bounds, push_chars, push_str, push_u64,
    string_from_chars,
};

verus! {

/// `→ METHOD PATH (Nms)` with any query string left out of the path.
pub open spec fn verbose_text(method: Seq<char>, path: Seq<char>, elapsed_ms: nat) -> Seq<char> {
    "→ "@ + method + " "@ + before(path, '?') + " ("@ + dec(elapsed_ms) + "ms)"@
}

/// The verbose summary of one request: method, path without its query,
/// and the whole milliseconds it took.
pub fn verbose_line(method: &str, path: &str, elapsed_ms: u64) -> (s: String)
    ensures
        s@ == verbose_text(method@, path@, elapsed_ms as nat),
{
    let p = chars_of(path);
    let bare = before_char(&p, '?');
    let mut buf: Vec<char> = Vec::new();
    push_str(&mut buf, "→ ");
    push_str(&mut buf, method);
    push_str(&mut buf, " ");
    push_chars(&mut buf, &bare);
    push_str(&mut buf, " (");
    push_u64(&mut buf, elapsed_ms);
    push_str(&mut buf, "ms)");
    string_from_chars(&buf)
}


/// The verbose line never carries a query string: the path it prints is
/// the requested path up to its first `?`, and holds no `?` itself.
pub proof fn lemma_verbose_path_has_no_query(path: Seq<char>)
    ensures
        path.take(before(path, '?').len() as int) == before(path, '?'),
        !before(path, '?').contains('?'),
{
    lemma_index_of_bounds(path, '?');
    assert(path.take(before(path, '?').len() as int) =~= before(path, '?'));
    assert forall|j: int| 0 <= j < before(path, '?').len() implies before(path, '?')[j] != '?' by {
        assert(before(path, '?')[j] == path[j]);
    }
}

/// `s` without its trailing slashes.
pub open spec fn trim_trailing_slashes(s: Seq<char>) -> Seq<char>
    decreases s.len(),
{
    if s.len() > 0 && s.last() == '/' {
        trim_trailing_slashes(s.drop_last())
    } else {
        s
    }
}

/// The base address with its trailing slashes removed, so that appending a
/// path that starts with `/` is always safe.
pub fn normalize_base_url(base: &str) -> (r: String)
    ensures
        r@ == trim_trailing_slashes(base@),
{
    let v = chars_of(base);
    let mut n: usize = v.len();
    assert(v@.take(n as int) =~= v@);
    while n > 0 && v[n - 1] == '/'
        invariant
            0 <= n <= v.len(),
            v@ == base@,
            trim_trailing_slashes(base@) == trim_trailing_slashes(v@.take(n as int)),
        decreases n,
    {
        assert(v@.take(n as int).drop_last() =~= v@.take(n - 1));
        n = n - 1;
    }
    let mut out: Vec<char> = Vec::new();
    let mut i: usize = 0;
    while i < n
        invariant
            0 <= i <= n <= v.len(),
            out@ == v@.take(i as int),
        decreases n - i,
    {
        out.push(v[i]);
        assert(v@.take(i + 1) =~= v@.take(i as int).push(v@[i as int]));
        i = i + 1;
    }
    proof {
        assert(trim_trailing_slashes(v@.take(n as int)) == v@.take(n as int));
    }
    string_from_chars(&out)
}

/// How a response body reads for error unpacking: not JSON (with the
/// parser's message), the standard error shape `{"error":{"code","message"}}`
/// with string code and message, or any other JSON.
#[derive(Debug, Clone, PartialEq, Eq)]
pub enum ResponseShape {
    NotJson(String),
    ApiError { code: String, message: String },
    Other,
}

/// The message of a non-2xx response without the standard error shape.
pub open spec fn missing_shape_message(status: u16) -> Seq<char> {
    "HTTP "@ + dec(status as nat) + " 响应缺少 {\"error\":{\"code\",\"message\"}} 形状"@
}

/// Unpacks a response: a body that is not JSON is a protocol error; the
/// standard error shape is a server error carrying the HTTP status,
/// whatever the status; any other body passes on a 2xx status and is a
/// protocol error otherwise.
pub fn unpack_response(status: u16, shape: &ResponseShape) -> (r: Result<(), CliError>)
    ensures
        match shape {
            ResponseShape::NotJson(e) => r matches Err(CliError::Protocol(m)) && m@
                == "响应不是合法 JSON: "@ + e@,
            ResponseShape::ApiError { code, message } => r matches Err(
                CliError::Api { status: s, code: c, message: m },
            ) && s == status && c@ == code@ && m@ == message@,
            ResponseShape::Other => if 200 <= status < 300 {
                r is Ok
            } else {
                r matches Err(CliError::Protocol(m)) && m@ == missing_shape_message(status)
            },
        },
{
    match shape {
        ResponseShape::NotJson(e) => {
            let mut buf: Vec<char> = Vec::new();
            push_str(&mut buf, "响应不是合法 JSON: ");
            push_str(&mut buf, e.as_str());
            Err(CliError::Protocol(string_from_chars(&buf)))
        },
        ResponseShape::ApiError { code, message } => Err(
            CliError::Api { status, code: code.clone(), message: message.clone() },
        ),
        ResponseShape::Other => {
            if 200 <= status && status < 300 {
                Ok(())
            } else {
                let mut buf: Vec<char> = Vec::new();
                push_str(&mut buf, "HTTP ");
                push_u64(&mut buf, status as u64);
                push_str(&mut buf, " 响应缺少 {\"error\":{\"code\",\"message\"}} 形状");
                Err(CliError::Protocol(string_from_chars(&buf)))
            }
        },
    }
}

/// A failure to read the response body: a protocol error.
pub fn body_read_error(detail: &str) -> (e: CliError)
    ensures
        e matches CliError::Protocol(m) && m@ == "读取响应体失败: "@ + detail@,
{
    let mut buf: Vec<char> = Vec::new();
    push_str(&mut buf, "读取响应体失败: ");
    push_str(&mut buf, detail);
    CliError::Protocol(string_from_chars(&buf))
}

/// A response that does not decode into the expected payload: a protocol
/// error naming the contract drift.
pub fn contract_drift_error(detail: &str) -> (e: CliError)
    ensures
        e matches CliError::Protocol(m) && m@ == "响应与 DTO 契约不符（服务端可能已改字段）: "@
            + detail@,
{
    let mut buf: Vec<char> = Vec::new();
    push_str(&mut buf, "响应与 DTO 契约不符（服务端可能已改字段）: ");
    push_str(&mut buf, detail);
    CliError::Protocol(string_from_chars(&buf))
}

/// A failure to build the HTTP client: a local error.
pub fn client_build_error(detail: &str) -> (e: CliError)
    ensures
        e matches CliError::Local(m) && m@ == "HTTP 客户端构造失败: "@ + detail@,
{
    let mut buf: Vec<char> = Vec::new();
    push_str(&mut buf, "HTTP 客户端构造失败: ");
    push_str(&mut buf, detail);
    CliError::Local(string_from_chars(&buf))
}

} // verus!
