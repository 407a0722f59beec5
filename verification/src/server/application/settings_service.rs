//! Application settings (developer mode, environment label, default start
//! page, remote access), kept as a key/value table.
use vstd::prelude::*;
use vstd::string::StringExecFns;
use crate::server::domain::hosts::{lemma_pairs_map_facts, pairs_map};
use crate::server::clock::new_uuid;
use crate::server::error::{is_business, AppError};
use crate::text::{
    bool_text, bool_to_string, chars_eq, chars_of, eq_str, is_ws, is_ws_char, push_str, starts_with,
    starts_with_str, str_to_string, string_from_chars, trim, trim_chars, utf8_len, utf8_longer_than,
};

verus! {

/// Longest SSH target accepted, in bytes.
pub const SSH_TARGET_MAX_LEN: usize = 255;

/// Page opened when no default start page is set.
pub const FALLBACK_START_PAGE: &'static str = "about:blank";

/// Settings as the API returns them.
#[derive(Debug, Clone, PartialEq, Eq)]
pub struct AppSettingsView {
    pub developer_mode: bool,
    pub env_label_position: String,
    pub env_label_color: String,
    /// Empty means `about:blank`.
    pub default_start_url: String,
    /// Remote access: the application keeps an SSH reverse tunnel up.
    pub remote_access_enabled: bool,
    /// SSH target; never empty while remote access is enabled.
    pub remote_access_ssh_target: String,
    /// Bearer token of the remote listener; generated on first enable.
    pub remote_access_token: String,
}

/// The table rows as plain pairs.
pub open spec fn rows_view(v: Seq<(String, String)>) -> Seq<(Seq<char>, Seq<char>)> {
    v.map_values(|e: (String, String)| (e.0@, e.1@))
}

/// No key occurs twice.
pub open spec fn keys_unique(p: Seq<(Seq<char>, Seq<char>)>) -> bool {
    forall|i: int, j: int| 0 <= i < j < p.len() ==> #[trigger] p[i].0 != #[trigger] p[j].0
}

/// A stored string, or `default` when the key is absent.
pub open spec fn str_or(t: Map<Seq<char>, Seq<char>>, key: Seq<char>, default: Seq<char>) -> Seq<
    char,
> {
    if t.contains_key(key) {
        t[key]
    } else {
        default
    }
}

/// A stored flag: true exactly when the value is `true`.
pub open spec fn flag(t: Map<Seq<char>, Seq<char>>, key: Seq<char>) -> bool {
    t.contains_key(key) && t[key] == "true"@
}

/// The settings a table holds, with their defaults.
pub open spec fn view_matches(v: AppSettingsView, t: Map<Seq<char>, Seq<char>>) -> bool {
    &&& v.developer_mode == flag(t, "developer_mode"@)
    &&& v.env_label_position@ == str_or(t, "env_label_position"@, "bottom-left"@)
    &&& v.env_label_color@ == str_or(t, "env_label_color"@, "red"@)
    &&& v.default_start_url@ == str_or(t, "default_start_url"@, Seq::empty())
    &&& v.remote_access_enabled == flag(t, "remote_access_enabled"@)
    &&& v.remote_access_ssh_target@ == str_or(t, "remote_access_ssh_target"@, Seq::empty())
    &&& v.remote_access_token@ == str_or(t, "remote_access_token"@, Seq::empty())
}

/// Allowed label positions.
pub open spec fn valid_position(p: Seq<char>) -> bool {
    p == "top-left"@ || p == "top-right"@ || p == "bottom-left"@ || p == "bottom-right"@
}

/// Allowed label colours.
pub open spec fn valid_color(c: Seq<char>) -> bool {
    c == "red"@ || c == "blue"@ || c == "green"@ || c == "purple"@
}

/// Outcome of a validation: the accepted value or `(status, code, message)`.
pub type Checked = Result<Seq<char>, (u16, Seq<char>, Seq<char>)>;

/// The default start page rule: blanks trimmed; empty is allowed (no page
/// set); otherwise it must start with `http://` or `https://`.
pub open spec fn start_url_check(value: Seq<char>) -> Checked {
    let v = trim(value);
    if v.len() == 0 {
        Ok(Seq::empty())
    } else if !starts_with(v, "http://"@) && !starts_with(v, "https://"@) {
        Err((400, "INVALID_REQUEST"@, "默认起始页必须为 http(s):// 开头的合法 URL"@))
    } else {
        Ok(v)
    }
}

/// The SSH target rule: blanks trimmed; empty is allowed; otherwise at most
/// 255 bytes, not starting with `-` and without whitespace.
pub open spec fn ssh_target_check(value: Seq<char>) -> Checked {
    let v = trim(value);
    if v.len() == 0 {
        Ok(Seq::empty())
    } else if utf8_len(v) > 255 {
        Err((400, "REMOTE_ACCESS_TARGET_INVALID"@, "SSH 目标过长（>255 字符）"@))
    } else if v[0] == '-' || exists|i: int| 0 <= i < v.len() && is_ws(#[trigger] v[i]) {
        Err(
            (
                400,
                "REMOTE_ACCESS_TARGET_INVALID"@,
                "SSH 目标不能以 - 开头或包含空白字符（形如 user@host 或 ~/.ssh/config 别名）"@,
            ),
        )
    } else {
        Ok(v)
    }
}

/// Refusal of a label position.
pub open spec fn bad_position_message(p: Seq<char>) -> Seq<char> {
    "envLabelPosition 非法: "@ + p
        + "（允许 [\"top-left\", \"top-right\", \"bottom-left\", \"bottom-right\"]）"@
}

/// Refusal of a label colour.
pub open spec fn bad_color_message(c: Seq<char>) -> Seq<char> {
    "envLabelColor 非法: "@ + c + "（允许 [\"red\", \"blue\", \"green\", \"purple\"]）"@
}

/// Refusal of remote access without a target.
pub open spec fn target_required_message() -> Seq<char> {
    "开启远程接入前必须配置 SSH 目标（user@host 或 ~/.ssh/config 别名），已开启时不可置空"@
}

/// The table after an optional write.
pub open spec fn write_opt(t: Map<Seq<char>, Seq<char>>, key: Seq<char>, v: Option<Seq<char>>) -> Map<
    Seq<char>,
    Seq<char>,
> {
    match v {
        Some(x) => t.insert(key, x),
        None => t,
    }
}

/// An optional flag as stored text.
pub open spec fn opt_bool_text(b: Option<bool>) -> Option<Seq<char>> {
    match b {
        Some(x) => Some(bool_text(x)),
        None => None,
    }
}

/// What an update writes, in order, and where it stops: the table after
/// the writes made, and the refusal if one came.  Writes before a refusal
/// stay (each field is stored as soon as it is checked).  The remote-access
/// token is not part of the plan (see [`SettingsService::update`]).
pub open spec fn update_plan(
    t: Map<Seq<char>, Seq<char>>,
    developer_mode: Option<bool>,
    position: Option<Seq<char>>,
    color: Option<Seq<char>>,
    start_url: Option<Seq<char>>,
    enabled: Option<bool>,
    target: Option<Seq<char>>,
) -> (Map<Seq<char>, Seq<char>>, Option<(u16, Seq<char>, Seq<char>)>) {
    let t1 = write_opt(t, "developer_mode"@, opt_bool_text(developer_mode));
    if position is Some && !valid_position(position->0) {
        (t1, Some((400, "INVALID_REQUEST"@, bad_position_message(position->0))))
    } else {
        let t2 = write_opt(t1, "env_label_position"@, position);
        if color is Some && !valid_color(color->0) {
            (t2, Some((400, "INVALID_REQUEST"@, bad_color_message(color->0))))
        } else {
            let t3 = write_opt(t2, "env_label_color"@, color);
            if start_url is Some && start_url_check(start_url->0) is Err {
                (t3, Some(start_url_check(start_url->0)->Err_0))
            } else {
                let t4 = write_opt(
                    t3,
                    "default_start_url"@,
                    match start_url {
                        Some(u) => Some(start_url_check(u)->Ok_0),
                        None => None,
                    },
                );
                if target is Some && ssh_target_check(target->0) is Err {
                    (t4, Some(ssh_target_check(target->0)->Err_0))
                } else {
                    let incoming = match target {
                        Some(g) => Some(ssh_target_check(g)->Ok_0),
                        None => None,
                    };
                    let enabled_after = match enabled {
                        Some(b) => b,
                        None => flag(t4, "remote_access_enabled"@),
                    };
                    let final_target = match incoming {
                        Some(g) => g,
                        None => str_or(t4, "remote_access_ssh_target"@, Seq::empty()),
                    };
                    if (enabled == Some(true) || enabled_after) && final_target.len() == 0 {
                        (t4, Some((400, "REMOTE_ACCESS_TARGET_INVALID"@, target_required_message())))
                    } else {
                        let t5 = write_opt(t4, "remote_access_ssh_target"@, incoming);
                        (write_opt(t5, "remote_access_enabled"@, opt_bool_text(enabled)), None)
                    }
                }
            }
        }
    }
}

/// Position of `key` among the rows, or their number when absent.
fn find_key(rows: &Vec<(String, String)>, key: &str) -> (i: usize)
    ensures
        i <= rows.len(),
        i < rows.len() ==> rows_view(rows@)[i as int].0 == key@,
        forall|j: int| 0 <= j < i ==> rows_view(rows@)[j].0 != key@,
{
    let k = chars_of(key);
    let mut i: usize = 0;
    while i < rows.len() && !chars_eq(&chars_of(rows[i].0.as_str()), &k)
        invariant
            0 <= i <= rows.len(),
            k@ == key@,
            forall|j: int| 0 <= j < i ==> rows_view(rows@)[j].0 != key@,
        decreases rows.len() - i,
    {
        i = i + 1;
    }
    i
}

/// Settings store over the `key -> value` table of the database.
#[derive(Debug)]
pub struct SettingsService {
    rows: Vec<(String, String)>,
}

impl SettingsService {
    #[verifier::type_invariant]
    spec fn inv(self) -> bool {
        keys_unique(rows_view(self.rows@))
    }

    /// The stored `key -> value` table.
    pub closed spec fn table(self) -> Map<Seq<char>, Seq<char>> {
        pairs_map(rows_view(self.rows@))
    }

    /// A store over the rows read from the database; a later row wins over
    /// an earlier one with the same key.
    pub fn new(rows: Vec<(String, String)>) -> (s: SettingsService)
        ensures
            s.table() == pairs_map(rows_view(rows@)),
    {
        let mut s = SettingsService { rows: Vec::new() };
        assert(rows_view(s.rows@) =~= Seq::<(Seq<char>, Seq<char>)>::empty());
        let mut i: usize = 0;
        assert(rows_view(rows@).take(0) =~= Seq::<(Seq<char>, Seq<char>)>::empty());
        while i < rows.len()
            invariant
                0 <= i <= rows.len(),
                s.table() == pairs_map(rows_view(rows@).take(i as int)),
            decreases rows.len() - i,
        {
            proof {
                let t = rows_view(rows@).take(i + 1);
                assert(t.drop_last() =~= rows_view(rows@).take(i as int));
            }
            let key = rows[i].0.clone();
            let value = rows[i].1.clone();
            s.set_str(key.as_str(), value.as_str());
            i = i + 1;
        }
        assert(rows_view(rows@).take(rows.len() as int) =~= rows_view(rows@));
        s
    }

    /// The rows to persist; they hold exactly the table.
    pub fn rows(&self) -> (r: &Vec<(String, String)>)
        ensures
            pairs_map(rows_view(r@)) == self.table(),
    {
        &self.rows
    }

    /// The value stored under `key`, if any.
    fn lookup(&self, key: &str) -> (r: Option<String>)
        ensures
            self.table().contains_key(key@) ==> (r matches Some(v) && v@ == self.table()[key@]),
            !self.table().contains_key(key@) ==> r is None,
    {
        proof {
            use_type_invariant(self);
            lemma_pairs_map_facts(rows_view(self.rows@));
        }
        let i = find_key(&self.rows, key);
        if i < self.rows.len() {
            proof {
                let p = rows_view(self.rows@);
                assert forall|j: int| i < j < p.len() implies p[j].0 != p[i as int].0 by {}
                assert(pairs_map(p)[p[i as int].0] == p[i as int].1);
            }
            return Some(self.rows[i].1.clone());
        }
        proof {
            let p = rows_view(self.rows@);
            if pairs_map(p).contains_key(key@) {
                let j = choose|j: int| 0 <= j < p.len() && p[j].0 == key@;
                assert(p[j].0 != key@);
            }
        }
        None
    }

    /// Stores `value` under `key`.
    fn set_str(&mut self, key: &str, value: &str)
        ensures
            final(self).table() == old(self).table().insert(key@, value@),
    {
        proof {
            use_type_invariant(&*self);
        }
        let mut rows: Vec<(String, String)> = Vec::new();
        std::mem::swap(&mut rows, &mut self.rows);
        let ghost p = rows_view(rows@);
        let i = find_key(&rows, key);
        proof {
            lemma_pairs_map_facts(p);
        }
        if i < rows.len() {
            assert(p[i as int].0 == key@);
            rows.set(i, (str_to_string(key), str_to_string(value)));
            proof {
                let q = rows_view(rows@);
                assert(q =~= p.update(i as int, (key@, value@)));
                assert(keys_unique(q)) by {
                    assert forall|a: int, b: int| 0 <= a < b < q.len() implies #[trigger] q[a].0
                        != #[trigger] q[b].0 by {
                        assert(q[a].0 == p[a].0);
                        assert(q[b].0 == p[b].0);
                    }
                }
                lemma_pairs_map_facts(q);
                assert(pairs_map(q) =~= pairs_map(p).insert(key@, value@)) by {
                    assert forall|kk: Seq<char>| #[trigger]
                        pairs_map(q).contains_key(kk) == pairs_map(p).insert(
                            key@,
                            value@,
                        ).contains_key(kk) by {
                        if pairs_map(p).contains_key(kk) {
                            let j = choose|j: int| 0 <= j < p.len() && p[j].0 == kk;
                            assert(q[j].0 == kk);
                        }
                        if kk == key@ {
                            assert(q[i as int].0 == kk);
                        }
                        if pairs_map(q).contains_key(kk) {
                            let j = choose|j: int| 0 <= j < q.len() && q[j].0 == kk;
                            assert(p[j].0 == kk);
                        }
                    }
                    assert forall|kk: Seq<char>| #[trigger] pairs_map(q).contains_key(kk) implies
                        pairs_map(q)[kk] == pairs_map(p).insert(key@, value@)[kk] by {
                        let j = choose|j: int| 0 <= j < q.len() && q[j].0 == kk;
                        assert forall|m: int| j < m < q.len() implies q[m].0 != q[j].0 by {}
                        assert(pairs_map(q)[q[j].0] == q[j].1);
                        if j != i {
                            assert forall|m: int| j < m < p.len() implies p[m].0 != p[j].0 by {}
                            assert(pairs_map(p)[p[j].0] == p[j].1);
                        }
                    }
                }
            }
        } else {
            rows.push((str_to_string(key), str_to_string(value)));
            proof {
                let q = rows_view(rows@);
                assert(q =~= p.push((key@, value@)));
                assert(q.drop_last() =~= p);
                assert(keys_unique(q)) by {
                    assert forall|a: int, b: int| 0 <= a < b < q.len() implies #[trigger] q[a].0
                        != #[trigger] q[b].0 by {
                        if b == q.len() - 1 {
                            assert(q[a].0 == p[a].0);
                        } else {
                            assert(q[a].0 == p[a].0 && q[b].0 == p[b].0);
                        }
                    }
                }
            }
        }
        self.rows = rows;
    }

    fn get_str_with_default(&self, key: &str, default: &str) -> (r: String)
        ensures
            r@ == str_or(self.table(), key@, default@),
    {
        match self.lookup(key) {
            Some(v) => v,
            None => str_to_string(default),
        }
    }

    fn get_bool(&self, key: &str) -> (r: bool)
        ensures
            r == flag(self.table(), key@),
    {
        match self.lookup(key) {
            Some(v) => {
                let c = chars_of(v.as_str());
                eq_str(&c, "true")
            },
            None => false,
        }
    }

    fn set_bool(&mut self, key: &str, value: bool)
        ensures
            final(self).table() == old(self).table().insert(key@, bool_text(value)),
    {
        let s = bool_to_string(value);
        self.set_str(key, s.as_str());
    }

    /// The current settings, with defaults for what was never set.
    pub fn get(&self) -> (v: AppSettingsView)
        ensures
            view_matches(v, self.table()),
    {
        proof {
            reveal_strlit("");
        }
        let developer_mode = self.get_bool("developer_mode");
        let env_label_position = self.get_str_with_default("env_label_position", "bottom-left");
        let env_label_color = self.get_str_with_default("env_label_color", "red");
        let default_start_url = self.get_str_with_default("default_start_url", "");
        let remote_access_enabled = self.get_bool("remote_access_enabled");
        let remote_access_ssh_target = self.get_str_with_default("remote_access_ssh_target", "");
        let remote_access_token = self.get_str_with_default("remote_access_token", "");
        assert(developer_mode == flag(self.table(), "developer_mode"@));
        assert(env_label_position@ == str_or(self.table(), "env_label_position"@, "bottom-left"@));
        assert(env_label_color@ == str_or(self.table(), "env_label_color"@, "red"@));
        assert(default_start_url@ == str_or(self.table(), "default_start_url"@, Seq::empty()));
        assert(remote_access_enabled == flag(self.table(), "remote_access_enabled"@));
        assert(remote_access_ssh_target@ == str_or(self.table(), "remote_access_ssh_target"@, Seq::empty()));
        assert(remote_access_token@ == str_or(self.table(), "remote_access_token"@, Seq::empty()));
        let v = AppSettingsView {
            developer_mode,
            env_label_position,
            env_label_color,
            default_start_url,
            remote_access_enabled,
            remote_access_ssh_target,
            remote_access_token,
        };
        assert(v.developer_mode == developer_mode);
        v
    }

    /// The page a new instance or login browser opens: the default start
    /// page when set, else `about:blank`.
    pub fn resolve_start_url(&self) -> (r: String)
        ensures
            r@ == (if str_or(self.table(), "default_start_url"@, Seq::empty()).len() == 0 {
                "about:blank"@
            } else {
                str_or(self.table(), "default_start_url"@, Seq::empty())
            }),
    {
        let url = self.get().default_start_url;
        if url.as_str().unicode_len() == 0 {
            proof {
                reveal_strlit("about:blank");
            }
            str_to_string(FALLBACK_START_PAGE)
        } else {
            url
        }
    }

    /// The remote-access token (empty when never generated: every remote
    /// request is then refused).
    pub fn remote_token(&self) -> (r: String)
        ensures
            r@ == str_or(self.table(), "remote_access_token"@, Seq::empty()),
    {
        proof {
            reveal_strlit("");
        }
        self.get_str_with_default("remote_access_token", "")
    }

    /// Replaces the remote-access token with a fresh one; the old one stops
    /// working at once.
    pub fn rotate_remote_token(&mut self) -> (token: String)
        ensures
            token@.len() == 36,
            final(self).table() == old(self).table().insert("remote_access_token"@, token@),
            remote_consistent(final(self).table()) == remote_consistent(old(self).table()),
    {
        let ghost t0 = self.table();
        let token = new_uuid();
        proof {
            lemma_token_write_keeps_consistent(t0, token@);
        }
        self.set_str("remote_access_token", token.as_str());
        token
    }
}

/// An optional string as plain data.
pub open spec fn opt_string(o: Option<String>) -> Option<Seq<char>> {
    match o {
        Some(s) => Some(s@),
        None => None,
    }
}

/// Error of a failed check.
pub open spec fn err_matches(e: AppError, c: (u16, Seq<char>, Seq<char>)) -> bool {
    is_business(e, c.0, c.1, c.2)
}

/// Checks the default start page: trimmed; empty allowed; otherwise
/// `http(s)://` is required (`400 INVALID_REQUEST`).
pub fn validate_start_url(value: &str) -> (r: Result<String, AppError>)
    ensures
        match start_url_check(value@) {
            Ok(v) => r matches Ok(s) && s@ == v,
            Err(c) => r matches Err(e) && err_matches(e, c),
        },
{
    let c = chars_of(value);
    let v = trim_chars(&c);
    if v.len() == 0 {
        proof {
            reveal_strlit("");
        }
        return Ok(String::new());
    }
    if !starts_with_str(&v, "http://") && !starts_with_str(&v, "https://") {
        return Err(AppError::invalid_request(String::from_str("默认起始页必须为 http(s):// 开头的合法 URL")));
    }
    Ok(string_from_chars(&v))
}

fn has_whitespace(v: &[char]) -> (r: bool)
    ensures
        r == exists|i: int| 0 <= i < v@.len() && is_ws(#[trigger] v@[i]),
{
    let mut i: usize = 0;
    while i < v.len()
        invariant
            0 <= i <= v.len(),
            forall|j: int| 0 <= j < i ==> !is_ws(#[trigger] v@[j]),
        decreases v.len() - i,
    {
        if is_ws_char(v[i]) {
            assert(is_ws(v@[i as int]));
            return true;
        }
        i = i + 1;
    }
    false
}

/// Checks an SSH target: trimmed; empty allowed; otherwise at most 255
/// bytes, no leading `-` (it would read as an option) and no whitespace (it
/// would split into arguments); refusals are `400 REMOTE_ACCESS_TARGET_INVALID`.
pub fn validate_ssh_target(value: &str) -> (r: Result<String, AppError>)
    ensures
        match ssh_target_check(value@) {
            Ok(v) => r matches Ok(s) && s@ == v,
            Err(c) => r matches Err(e) && err_matches(e, c),
        },
{
    let c = chars_of(value);
    let v = trim_chars(&c);
    if v.len() == 0 {
        proof {
            reveal_strlit("");
        }
        return Ok(String::new());
    }
    if utf8_longer_than(&v, SSH_TARGET_MAX_LEN) {
        return Err(AppError::business(400, "REMOTE_ACCESS_TARGET_INVALID", String::from_str("SSH 目标过长（>255 字符）")));
    }
    if v[0] == '-' || has_whitespace(&v) {
        return Err(
            AppError::business(
                400,
                "REMOTE_ACCESS_TARGET_INVALID",
                String::from_str(
                    "SSH 目标不能以 - 开头或包含空白字符（形如 user@host 或 ~/.ssh/config 别名）",
                ),
            ),
        );
    }
    Ok(string_from_chars(&v))
}

fn position_ok(p: &str) -> (b: bool)
    ensures
        b == valid_position(p@),
{
    let c = chars_of(p);
    eq_str(&c, "top-left") || eq_str(&c, "top-right") || eq_str(&c, "bottom-left") || eq_str(
        &c,
        "bottom-right",
    )
}

fn color_ok(p: &str) -> (b: bool)
    ensures
        b == valid_color(p@),
{
    let c = chars_of(p);
    eq_str(&c, "red") || eq_str(&c, "blue") || eq_str(&c, "green") || eq_str(&c, "purple")
}

impl SettingsService {
    /// Partial update: only the given fields change, each checked and
    /// stored in turn (label position and colour from fixed lists, the
    /// start page by [`validate_start_url`], the SSH target by
    /// [`validate_ssh_target`]).  Remote access keeps `enabled ⇒ target
    /// non-empty`: enabling, or any update while enabled, needs a non-empty
    /// final target (the submitted one if any, else the stored one).  The
    /// first enable generates a token; an existing token is kept.  Fields
    /// stored before a refusal stay stored.
    pub fn update(
        &mut self,
        developer_mode: Option<bool>,
        env_label_position: Option<String>,
        env_label_color: Option<String>,
        default_start_url: Option<String>,
        remote_access_enabled: Option<bool>,
        remote_access_ssh_target: Option<String>,
    ) -> (r: Result<AppSettingsView, AppError>)
        ensures
            ({
                let plan = update_plan(
                    old(self).table(),
                    developer_mode,
                    opt_string(env_label_position),
                    opt_string(env_label_color),
                    opt_string(default_start_url),
                    remote_access_enabled,
                    opt_string(remote_access_ssh_target),
                );
                match r {
                    Err(e) => plan.1 matches Some(c) && err_matches(e, c) && final(self).table()
                        == plan.0,
                    Ok(v) => {
                        &&& plan.1 is None
                        &&& view_matches(v, final(self).table())
                        &&& if remote_access_enabled == Some(true) && str_or(
                            plan.0,
                            "remote_access_token"@,
                            Seq::empty(),
                        ).len() == 0 {
                            exists|tok: Seq<char>|
                                tok.len() == 36 && final(self).table() == plan.0.insert(
                                    "remote_access_token"@,
                                    tok,
                                )
                        } else {
                            final(self).table() == plan.0
                        }
                    },
                }
            }),
            r is Ok && remote_access_enabled == Some(true) ==> str_or(
                final(self).table(),
                "remote_access_token"@,
                Seq::empty(),
            ).len() > 0,
            remote_consistent(old(self).table()) ==> remote_consistent(final(self).table()),
            str_or(old(self).table(), "remote_access_token"@, Seq::empty()).len() > 0 ==> str_or(
                final(self).table(),
                "remote_access_token"@,
                Seq::empty(),
            ) == str_or(old(self).table(), "remote_access_token"@, Seq::empty()),
    {
        let ghost t0 = self.table();
        proof {
            if remote_consistent(t0) {
                lemma_update_keeps_remote_consistent(
                    t0,
                    developer_mode,
                    opt_string(env_label_position),
                    opt_string(env_label_color),
                    opt_string(default_start_url),
                    remote_access_enabled,
                    opt_string(remote_access_ssh_target),
                );
                let p = update_plan(
                    t0,
                    developer_mode,
                    opt_string(env_label_position),
                    opt_string(env_label_color),
                    opt_string(default_start_url),
                    remote_access_enabled,
                    opt_string(remote_access_ssh_target),
                );
                assert forall|k: Seq<char>| remote_consistent(
                    #[trigger] p.0.insert("remote_access_token"@, k),
                ) by {
                    lemma_token_write_keeps_consistent(p.0, k);
                }
            }
            lemma_update_plan_keeps_token(
                t0,
                developer_mode,
                opt_string(env_label_position),
                opt_string(env_label_color),
                opt_string(default_start_url),
                remote_access_enabled,
                opt_string(remote_access_ssh_target),
            );
        }
        if let Some(on) = developer_mode {
            self.set_bool("developer_mode", on);
        }
        let ghost t1 = write_opt(t0, "developer_mode"@, opt_bool_text(developer_mode));
        assert(self.table() == t1);
        if let Some(pos) = &env_label_position {
            if !position_ok(pos.as_str()) {
                let mut buf: Vec<char> = Vec::new();
                push_str(&mut buf, "envLabelPosition 非法: ");
                push_str(&mut buf, pos.as_str());
                push_str(
                    &mut buf,
                    "（允许 [\"top-left\", \"top-right\", \"bottom-left\", \"bottom-right\"]）",
                );
                return Err(AppError::invalid_request(string_from_chars(&buf)));
            }
            self.set_str("env_label_position", pos.as_str());
        }
        let ghost t2 = write_opt(t1, "env_label_position"@, opt_string(env_label_position));
        assert(self.table() == t2);
        if let Some(color) = &env_label_color {
            if !color_ok(color.as_str()) {
                let mut buf: Vec<char> = Vec::new();
                push_str(&mut buf, "envLabelColor 非法: ");
                push_str(&mut buf, color.as_str());
                push_str(&mut buf, "（允许 [\"red\", \"blue\", \"green\", \"purple\"]）");
                return Err(AppError::invalid_request(string_from_chars(&buf)));
            }
            self.set_str("env_label_color", color.as_str());
        }
        let ghost t3 = write_opt(t2, "env_label_color"@, opt_string(env_label_color));
        assert(self.table() == t3);
        if let Some(url) = &default_start_url {
            match validate_start_url(url.as_str()) {
                Err(e) => {
                    return Err(e);
                },
                Ok(u) => {
                    self.set_str("default_start_url", u.as_str());
                },
            }
        }
        let ghost t4 = write_opt(
            t3,
            "default_start_url"@,
            match opt_string(default_start_url) {
                Some(u) => Some(start_url_check(u)->Ok_0),
                None => None,
            },
        );
        assert(self.table() == t4);
        let incoming: Option<String> = match &remote_access_ssh_target {
            Some(t) => match validate_ssh_target(t.as_str()) {
                Err(e) => {
                    return Err(e);
                },
                Ok(v) => Some(v),
            },
            None => None,
        };
        let enabling = match remote_access_enabled {
            Some(b) => b,
            None => false,
        };
        let enabled_after = match remote_access_enabled {
            Some(b) => b,
            None => self.get_bool("remote_access_enabled"),
        };
        if enabling || enabled_after {
            let final_target = match &incoming {
                Some(t) => t.clone(),
                None => self.get_str_with_default("remote_access_ssh_target", ""),
            };
            proof {
                reveal_strlit("");
            }
            if final_target.as_str().unicode_len() == 0 {
                return Err(
                    AppError::business(
                        400,
                        "REMOTE_ACCESS_TARGET_INVALID",
                        String::from_str(
                            "开启远程接入前必须配置 SSH 目标（user@host 或 ~/.ssh/config 别名），已开启时不可置空",
                        ),
                    ),
                );
            }
        }
        if let Some(t) = &incoming {
            self.set_str("remote_access_ssh_target", t.as_str());
        }
        if let Some(on) = remote_access_enabled {
            self.set_bool("remote_access_enabled", on);
            let ghost plan_t = self.table();
            if on {
                let current = self.get_str_with_default("remote_access_token", "");
                proof {
                    reveal_strlit("");
                }
                if current.as_str().unicode_len() == 0 {
                    let token = new_uuid();
                    self.set_str("remote_access_token", token.as_str());
                    assert(self.table() == plan_t.insert("remote_access_token"@, token@));
                }
            }
        }
        proof {
            reveal_strlit("");
        }
        Ok(self.get())
    }
}

/// An update's writes never touch the remote-access token: whatever the
/// fields and whether or not a refusal stops it, the token the plan leaves
/// is the one the table held.
pub proof fn lemma_update_plan_keeps_token(
    t: Map<Seq<char>, Seq<char>>,
    developer_mode: Option<bool>,
    position: Option<Seq<char>>,
    color: Option<Seq<char>>,
    start_url: Option<Seq<char>>,
    enabled: Option<bool>,
    target: Option<Seq<char>>,
)
    ensures
        ({
            let plan = update_plan(t, developer_mode, position, color, start_url, enabled, target);
            str_or(plan.0, "remote_access_token"@, Seq::empty()) == str_or(
                t,
                "remote_access_token"@,
                Seq::empty(),
            )
        }),
{
    reveal_strlit("remote_access_token");
    reveal_strlit("developer_mode");
    reveal_strlit("env_label_position");
    reveal_strlit("env_label_color");
    reveal_strlit("default_start_url");
    reveal_strlit("remote_access_ssh_target");
    reveal_strlit("remote_access_enabled");
    let k = "remote_access_token"@;
    assert(k.len() != "developer_mode"@.len());
    assert(k.len() != "env_label_position"@.len());
    assert(k.len() != "env_label_color"@.len());
    assert(k.len() != "default_start_url"@.len());
    assert(k.len() != "remote_access_ssh_target"@.len());
    assert(k.len() != "remote_access_enabled"@.len());
}

/// After a successful update remote access is never on without a target,
/// whatever the stored state was: the enabled flag and the target the
/// update leaves behind satisfy `enabled ⇒ target non-empty`.
pub proof fn lemma_update_keeps_target_invariant(
    t: Map<Seq<char>, Seq<char>>,
    developer_mode: Option<bool>,
    position: Option<Seq<char>>,
    color: Option<Seq<char>>,
    start_url: Option<Seq<char>>,
    enabled: Option<bool>,
    target: Option<Seq<char>>,
)
    ensures
        ({
            let plan = update_plan(t, developer_mode, position, color, start_url, enabled, target);
            plan.1 is None && flag(plan.0, "remote_access_enabled"@) ==> str_or(
                plan.0,
                "remote_access_ssh_target"@,
                Seq::empty(),
            ).len() > 0
        }),
{
    reveal_strlit("true");
    reveal_strlit("false");
    reveal_strlit("remote_access_enabled");
    reveal_strlit("remote_access_ssh_target");
    assert("remote_access_enabled"@.len() != "remote_access_ssh_target"@.len());
    assert("true"@[0] != "false"@[0]);
}

/// Remote access is never on without a target.
pub open spec fn remote_consistent(t: Map<Seq<char>, Seq<char>>) -> bool {
    flag(t, "remote_access_enabled"@) ==> str_or(t, "remote_access_ssh_target"@, Seq::empty()).len()
        > 0
}

/// A fresh store (no rows) has remote access off.
pub proof fn lemma_fresh_store_consistent()
    ensures
        remote_consistent(pairs_map(Seq::<(Seq<char>, Seq<char>)>::empty())),
{
    assert(pairs_map(Seq::<(Seq<char>, Seq<char>)>::empty()) == Map::<Seq<char>, Seq<char>>::empty());
}

/// Writing the token leaves remote access and its target as they were.
pub proof fn lemma_token_write_keeps_consistent(t: Map<Seq<char>, Seq<char>>, token: Seq<char>)
    ensures
        remote_consistent(t) == remote_consistent(t.insert("remote_access_token"@, token)),
{
    reveal_strlit("remote_access_token");
    reveal_strlit("remote_access_enabled");
    reveal_strlit("remote_access_ssh_target");
    assert("remote_access_token"@.len() != "remote_access_enabled"@.len());
    assert("remote_access_token"@.len() != "remote_access_ssh_target"@.len());
}

/// Every update, refused or not, keeps remote access consistent: a refusal
/// leaves only writes of other settings behind, and a success ends with a
/// target whenever remote access is on.  With
/// [`lemma_fresh_store_consistent`], no sequence of updates from a fresh
/// store ever leaves remote access on without a target.
pub proof fn lemma_update_keeps_remote_consistent(
    t: Map<Seq<char>, Seq<char>>,
    developer_mode: Option<bool>,
    position: Option<Seq<char>>,
    color: Option<Seq<char>>,
    start_url: Option<Seq<char>>,
    enabled: Option<bool>,
    target: Option<Seq<char>>,
)
    requires
        remote_consistent(t),
    ensures
        ({
            let plan = update_plan(t, developer_mode, position, color, start_url, enabled, target);
            remote_consistent(plan.0)
        }),
{
    lemma_update_keeps_target_invariant(t, developer_mode, position, color, start_url, enabled, target);
    reveal_strlit("remote_access_enabled");
    reveal_strlit("remote_access_ssh_target");
    reveal_strlit("developer_mode");
    reveal_strlit("env_label_position");
    reveal_strlit("env_label_color");
    reveal_strlit("default_start_url");
    let e = "remote_access_enabled"@;
    let g = "remote_access_ssh_target"@;
    assert(e.len() != "developer_mode"@.len() && g.len() != "developer_mode"@.len());
    assert(e.len() != "env_label_position"@.len() && g.len() != "env_label_position"@.len());
    assert(e.len() != "env_label_color"@.len() && g.len() != "env_label_color"@.len());
    assert(e.len() != "default_start_url"@.len() && g.len() != "default_start_url"@.len());
}

} // verus!
