//! Rendering of command results in the three output modes (table, JSON,
//! quiet).  Everything here turns values into text; printing is left to the
//! caller.
use vstd::prelude::*;
use vstd::string::StringExecFns;
use crate::cli::error::{error_text, CliError};
use crate::json::{json_view, members_view, pretty_json, pretty_json_text, serde_value, Json, JsonV};
use crate::text::{
    chars_of, ends_with, join, join_chars, kv_view, push_str, starts_with, str_to_string,
    string_from_chars, string_views, views,
};

verus! {

/// Output mode switches (`--json` and `--quiet` exclude each other).
#[derive(Debug, Clone, Copy, PartialEq, Eq, Structural)]
pub struct OutputCtx {
    pub json: bool,
    pub quiet: bool,
}

/// One row of a list, in the form each mode needs.
#[derive(Debug)]
pub struct TableRow {
    /// Main entity id (quiet mode).
    pub id: String,
    /// Table cells, one per column.
    pub cells: Vec<String>,
    /// The row's full JSON (JSON mode).
    pub json: Json,
}

/// Shown instead of an empty table.
pub const EMPTY_PLACEHOLDER: &'static str = "(empty)";

/// The text `comfy_table` renders for these headers and rows with its
/// default preset and content arrangement.
pub uninterp spec fn table_text(headers: Seq<Seq<char>>, rows: Seq<Seq<Seq<char>>>) -> Seq<char>;

/// The cells of each row as character sequences.
pub open spec fn rows_cells(rows: Seq<TableRow>) -> Seq<Seq<Seq<char>>> {
    rows.map_values(|r: TableRow| string_views(r.cells@))
}

/// The views of string slices.
pub open spec fn str_views(v: Seq<&str>) -> Seq<Seq<char>> {
    v.map_values(|s: &str| s@)
}

/// `comfy_table::Table` with `headers` as header and one row per entry of
/// `rows`, rendered with `to_string`.  Cells carry no styles and the
/// arrangement is the default one, which does not consult the terminal, so
/// the text depends on the headers and cells alone.
#[verifier::external_body]
fn render_table(headers: &[&str], rows: &[TableRow]) -> (s: String)
    ensures
        s@ == table_text(str_views(headers@), rows_cells(rows@)),
{
    let mut table = comfy_table::Table::new();
    table.set_header(headers);
    table.add_rows(rows.iter().map(|r| r.cells.iter().map(String::as_str)));
    table.to_string()
}

/// The table text of a list: a placeholder for no rows, else the table.
pub open spec fn list_table_text(headers: Seq<Seq<char>>, rows: Seq<TableRow>) -> Seq<char> {
    if rows.len() == 0 {
        "(empty)"@
    } else {
        table_text(headers, rows_cells(rows))
    }
}

/// Table mode: the rows as a table, or `(empty)` for no rows.
pub fn list_table_string(headers: &[&str], rows: &[TableRow]) -> (s: String)
    ensures
        s@ == list_table_text(str_views(headers@), rows@),
{
    if rows.len() == 0 {
        return String::from_str(EMPTY_PLACEHOLDER);
    }
    render_table(headers, rows)
}

/// Quiet mode text: one id per line.
pub open spec fn list_quiet_text(rows: Seq<TableRow>) -> Seq<char> {
    join(rows.map_values(|r: TableRow| r.id@), "\n"@)
}

/// Quiet mode: one id per line; empty for no rows.
pub fn list_quiet_string(rows: &[TableRow]) -> (s: String)
    ensures
        s@ == list_quiet_text(rows@),
{
    let ghost ids = rows@.map_values(|r: TableRow| r.id@);
    let mut items: Vec<Vec<char>> = Vec::new();
    let mut i: usize = 0;
    assert(views(items@) =~= ids.take(0));
    while i < rows.len()
        invariant
            0 <= i <= rows.len(),
            ids == rows@.map_values(|r: TableRow| r.id@),
            views(items@) == ids.take(i as int),
        decreases rows.len() - i,
    {
        let item = chars_of(rows[i].id.as_str());
        let ghost prev = items@;
        items.push(item);
        assert(views(items@) =~= views(prev).push(ids[i as int]));
        assert(ids.take(i + 1) =~= ids.take(i as int).push(ids[i as int]));
        i = i + 1;
    }
    assert(ids.take(rows.len() as int) =~= ids);
    let out = join_chars(&items, "\n");
    string_from_chars(&out)
}

/// The frame of a pretty-printed JSON array of `n` values: `[]` when empty,
/// else the text opens with `[`, a line break and a two-space indent before
/// the first value, and closes with a line break and `]`.
pub open spec fn pretty_array_frame(n: nat, s: Seq<char>) -> bool {
    if n == 0 {
        s == "[]"@
    } else {
        starts_with(s, "[\n  "@) && ends_with(s, "\n]"@)
    }
}

/// The models of the rows' JSON.
pub open spec fn rows_json(rows: Seq<TableRow>) -> Seq<JsonV> {
    rows.map_values(|r: TableRow| r.json@)
}

/// `serde_json::to_string_pretty` of a JSON array of the rows' values,
/// each converted as [`pretty_json`] converts a value.  Serialising a
/// `serde_json::Value` into memory cannot fail; the error arm is never
/// taken.  The text is the pretty text of the array of the rows' models;
/// the pretty formatter writes `[]` for an empty array and otherwise `[`,
/// each value on its own line indented by two spaces, then a line break
/// and `]`.
#[verifier::external_body]
fn pretty_json_array(rows: &[TableRow]) -> (s: String)
    ensures
        s@ == pretty_json_text(JsonV::Array(rows_json(rows@))),
        pretty_array_frame(rows@.len(), s@),
{
    let array = serde_json::Value::Array(rows.iter().map(|r| serde_value(&r.json)).collect());
    serde_json::to_string_pretty(&array).unwrap_or_default()
}

/// JSON mode: the rows' JSON collected into one pretty-printed array
/// (`[]` for no rows).
pub fn list_json_string(rows: &[TableRow]) -> (s: String)
    ensures
        s@ == pretty_json_text(JsonV::Array(rows_json(rows@))),
        pretty_array_frame(rows@.len(), s@),
{
    pretty_json_array(rows)
}

/// One `key: value` line.
pub open spec fn kv_line(p: (Seq<char>, Seq<char>)) -> Seq<char> {
    p.0 + ": "@ + p.1
}

/// Table mode for one object: `key: value` lines.
pub open spec fn kv_table_text(pairs: Seq<(Seq<char>, Seq<char>)>) -> Seq<char> {
    join(pairs.map_values(|p: (Seq<char>, Seq<char>)| kv_line(p)), "\n"@)
}

/// Table mode for one object: one `key: value` line per pair; empty for no
/// pairs.
pub fn kv_table_string(pairs: &[(String, String)]) -> (s: String)
    ensures
        s@ == kv_table_text(kv_view(pairs@)),
{
    let ghost lines = kv_view(pairs@).map_values(|p: (Seq<char>, Seq<char>)| kv_line(p));
    let mut items: Vec<Vec<char>> = Vec::new();
    let mut i: usize = 0;
    assert(views(items@) =~= lines.take(0));
    while i < pairs.len()
        invariant
            0 <= i <= pairs.len(),
            lines == kv_view(pairs@).map_values(|p: (Seq<char>, Seq<char>)| kv_line(p)),
            views(items@) == lines.take(i as int),
        decreases pairs.len() - i,
    {
        let mut item: Vec<char> = Vec::new();
        push_str(&mut item, pairs[i].0.as_str());
        push_str(&mut item, ": ");
        push_str(&mut item, pairs[i].1.as_str());
        let ghost prev = items@;
        items.push(item);
        assert(views(items@) =~= views(prev).push(lines[i as int]));
        assert(lines.take(i + 1) =~= lines.take(i as int).push(lines[i as int]));
        i = i + 1;
    }
    assert(lines.take(pairs.len() as int) =~= lines);
    let out = join_chars(&items, "\n");
    string_from_chars(&out)
}

/// The machine code and message of an error.  Server errors keep their own
/// code; the others get names of their own that no server code uses.
pub open spec fn error_code_message(e: CliError) -> (Seq<char>, Seq<char>) {
    match e {
        CliError::Api { code, message, .. } => (code@, message@),
        CliError::Unreachable(m) => ("UNREACHABLE"@, m@),
        CliError::Protocol(m) => ("PROTOCOL_ERROR"@, m@),
        CliError::Local(m) => ("CLI_ERROR"@, m@),
    }
}

/// `(code, message)` of an error.
pub fn error_parts(err: &CliError) -> (r: (String, String))
    ensures
        (r.0@, r.1@) == error_code_message(*err),
{
    match err {
        CliError::Api { code, message, .. } => (code.clone(), message.clone()),
        CliError::Unreachable(m) => (String::from_str("UNREACHABLE"), m.clone()),
        CliError::Protocol(m) => (String::from_str("PROTOCOL_ERROR"), m.clone()),
        CliError::Local(m) => (String::from_str("CLI_ERROR"), m.clone()),
    }
}

/// The model of the error body `{"error": {"code": code, "message":
/// message}}`.
pub open spec fn error_body_view(code: Seq<char>, message: Seq<char>) -> JsonV {
    JsonV::Object(
        seq![
            (
                "error"@,
                JsonV::Object(seq![("code"@, JsonV::Str(code)), ("message"@, JsonV::Str(message))]),
            ),
        ],
    )
}

/// The error body for `code` and `message`.
pub fn error_body(code: String, message: String) -> (j: Json)
    ensures
        j@ == error_body_view(code@, message@),
{
    let ghost c = code@;
    let ghost m = message@;
    let inner: Vec<(String, Json)> = vec![
        (str_to_string("code"), Json::Str(code)),
        (str_to_string("message"), Json::Str(message)),
    ];
    let ghost iv = inner@;
    let outer: Vec<(String, Json)> = vec![(str_to_string("error"), Json::Object(inner))];
    let ghost ov = outer@;
    proof {
        assert(iv.len() == 2);
        assert(iv[0].0@ == "code"@ && iv[1].0@ == "message"@);
        assert(json_view(iv[0].1) == JsonV::Str(c));
        assert(json_view(iv[1].1) == JsonV::Str(m));
        assert(iv.drop_last().drop_last() =~= Seq::<(String, Json)>::empty());
        assert(members_view(iv.drop_last().drop_last()) =~= Seq::<(Seq<char>, JsonV)>::empty());
        assert(iv.drop_last().last() == iv[0]);
        assert(members_view(iv.drop_last()) =~= seq![("code"@, JsonV::Str(c))]);
        assert(iv.last() == iv[1]);
        assert(members_view(iv) =~= seq![("code"@, JsonV::Str(c)), ("message"@, JsonV::Str(m))]);
        assert(ov.len() == 1 && ov[0].0@ == "error"@);
        assert(ov.drop_last() =~= Seq::<(String, Json)>::empty());
        assert(members_view(ov.drop_last()) =~= Seq::<(Seq<char>, JsonV)>::empty());
        assert(ov.last() == ov[0]);
        assert(json_view(ov[0].1) == JsonV::Object(members_view(iv)));
        assert(members_view(ov) =~= seq![
            (
                "error"@,
                JsonV::Object(seq![("code"@, JsonV::Str(c)), ("message"@, JsonV::Str(m))]),
            ),
        ]);
    }
    Json::Object(outer)
}

/// JSON mode error body, shaped like the server's: `{"error":{"code","message"}}`.
pub fn error_json_string(err: &CliError) -> (s: String)
    ensures
        s@ == pretty_json_text(
            error_body_view(error_code_message(*err).0, error_code_message(*err).1),
        ),
{
    let (code, message) = error_parts(err);
    let body = error_body(code, message);
    pretty_json(&body)
}

/// Text mode error line: `Error: ` and the error's description.
pub fn error_text_string(err: &CliError) -> (s: String)
    ensures
        s@ == "Error: "@ + error_text(*err),
{
    let mut buf: Vec<char> = Vec::new();
    push_str(&mut buf, "Error: ");
    let t = err.to_text();
    push_str(&mut buf, t.as_str());
    string_from_chars(&buf)
}

/// Where a rendered error goes.
#[derive(Debug, Clone, PartialEq, Eq)]
pub struct ErrorOutput {
    /// `true` for stdout (JSON mode, so a pipe always gets JSON), else stderr.
    pub to_stdout: bool,
    pub text: String,
}

impl OutputCtx {
    /// The text of a list in this mode; `None` when nothing is printed
    /// (quiet mode with no rows).
    pub fn list_output(&self, headers: &[&str], rows: &[TableRow]) -> (r: Option<String>)
        ensures
            self.quiet ==> (match r {
                Some(s) => rows@.len() > 0 && s@ == list_quiet_text(rows@),
                None => rows@.len() == 0,
            }),
            !self.quiet && !self.json ==> (r matches Some(s) && s@ == list_table_text(
                str_views(headers@),
                rows@,
            )),
            !self.quiet && self.json ==> (r matches Some(s) && s@ == pretty_json_text(
                JsonV::Array(rows_json(rows@)),
            ) && pretty_array_frame(rows@.len(), s@)),
    {
        if self.quiet {
            let text = list_quiet_string(rows);
            if rows.len() == 0 {
                return None;
            }
            proof {
                assert(rows@.map_values(|r: TableRow| r.id@).len() > 0);
            }
            return Some(text);
        }
        if self.json {
            Some(list_json_string(rows))
        } else {
            Some(list_table_string(headers, rows))
        }
    }

    /// The text of one object in this mode: its JSON when `json`, else its
    /// `key: value` lines; `None` when there are no pairs to print.
    pub fn kv_output(&self, pairs: &[(String, String)], json: &Json) -> (r: Option<String>)
        ensures
            self.json ==> (r matches Some(s) && s@ == pretty_json_text(json@)),
            !self.json ==> (match r {
                Some(s) => pairs@.len() > 0 && s@ == kv_table_text(kv_view(pairs@)),
                None => pairs@.len() == 0,
            }),
    {
        if self.json {
            return Some(pretty_json(json));
        }
        if pairs.len() == 0 {
            return None;
        }
        Some(kv_table_string(pairs))
    }

    /// The rendering of a failed command: JSON body on stdout in JSON mode,
    /// else an `Error: ` line on stderr.
    pub fn error_output(&self, err: &CliError) -> (r: ErrorOutput)
        ensures
            r.to_stdout == self.json,
            self.json ==> r.text@ == pretty_json_text(
                error_body_view(error_code_message(*err).0, error_code_message(*err).1),
            ),
            !self.json ==> r.text@ == "Error: "@ + error_text(*err),
    {
        if self.json {
            ErrorOutput { to_stdout: true, text: error_json_string(err) }
        } else {
            ErrorOutput { to_stdout: false, text: error_text_string(err) }
        }
    }
}

} // verus!
