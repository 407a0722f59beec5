//! Extension rules: the lock on built-in extensions, the status computed
//! from the source directory, the synchronisation plan of the built-in
//! extensions, and how each extension is loaded into an instance.  The
//! registry rows and the file-system probes are read by the caller.
use vstd::prelude::*;
use vstd::string::StringExecFns;
use crate::server::clock::{new_uuid, now_ms};
use crate::server::domain::environment::Environment;
use crate::server::domain::extension::{Extension, ExtensionStatus, ExtensionType};
use crate::server::error::{is_business, AppError};
use crate::text::{
    chars_eq, chars_of, dec, eq_str, push_str, push_u64, string_from_chars, string_views,
};

verus! {

/// What the file system says of an extension's source directory.
#[derive(Debug, Clone, Copy, PartialEq, Eq, Structural)]
pub struct SourceProbe {
    /// The directory exists.
    pub dir_exists: bool,
    /// Its extension manifest file reads.
    pub manifest_ok: bool,
}

/// The status of a source: gone → missing, unreadable manifest → invalid,
/// else ready.
pub open spec fn fresh_status(p: SourceProbe) -> ExtensionStatus {
    if !p.dir_exists {
        ExtensionStatus::Missing
    } else if !p.manifest_ok {
        ExtensionStatus::Invalid
    } else {
        ExtensionStatus::Ready
    }
}

/// How a load attempt is decided.
#[derive(Debug, Clone, Copy, PartialEq, Eq, Structural)]
pub enum LoadMode {
    /// Load the source directory as it is.
    Static,
    /// Generate a per-instance copy.
    Materialize,
}

/// One extension in the load plan of an instance.
#[derive(Debug, Clone, PartialEq, Eq)]
pub enum LoadStep {
    /// Load this source directory directly.
    Direct(String),
    /// Generate the environment label into a copy of this directory, with
    /// this label text.
    EnvironmentLabel { source: String, label: String },
    /// Leave this extension out, with the reason logged.
    Skip(String),
}

/// The metadata read from an extension's manifest file.
#[derive(Debug, Clone, PartialEq, Eq)]
pub struct ManifestInfo {
    pub name: String,
    pub description: Option<String>,
    pub version: Option<String>,
    pub manifest_version: Option<i64>,
}

/// Extension rules bound to nothing but their inputs.
#[derive(Debug, Clone, Copy, PartialEq, Eq, Structural)]
pub struct ExtensionService {}

/// Built-in extensions cannot be switched on or off, nor removed.
pub open spec fn locked(e: Extension) -> bool {
    e.extension_type == ExtensionType::System
}

/// The label text of the environment-label extension.
pub open spec fn label_text(env_name: Seq<char>, chrome_index: nat) -> Seq<char> {
    env_name + " · Chrome #"@ + dec(chrome_index)
}

/// The final component of a path as `std::path::Path::file_name` gives it
/// (empty when there is none, such as for a path ending in `..`).
pub uninterp spec fn file_name_of(path: Seq<char>) -> Seq<char>;

/// `Path::new(path).file_name()`, lossily as a string, or empty when the
/// path has no final normal component; a function of the path alone.
#[verifier::external_body]
fn file_name(path: &str) -> (r: String)
    ensures
        r@ == file_name_of(path@),
{
    match std::path::Path::new(path).file_name() {
        Some(n) => n.to_string_lossy().to_string(),
        None => String::new(),
    }
}

/// A load step as plain data.
pub ghost enum StepSpec {
    Direct(Seq<char>),
    EnvironmentLabel(Seq<char>, Seq<char>),
    Skip(Seq<char>),
}

/// The plain data of a load step.
pub open spec fn step_view(s: LoadStep) -> StepSpec {
    match s {
        LoadStep::Direct(d) => StepSpec::Direct(d@),
        LoadStep::EnvironmentLabel { source, label } => StepSpec::EnvironmentLabel(source@, label@),
        LoadStep::Skip(m) => StepSpec::Skip(m@),
    }
}

/// The plain data of an optional load step.
pub open spec fn opt_step_view(s: Option<LoadStep>) -> Option<StepSpec> {
    match s {
        Some(x) => Some(step_view(x)),
        None => None,
    }
}

/// How one registered extension is loaded: disabled ones are left out;
/// user extensions load their directory (their manifest must read);
/// built-in ones follow their declared mode, and the only generated kind
/// is the environment label.
pub open spec fn step_spec(
    e: Extension,
    mode: Option<LoadMode>,
    manifest_ok: bool,
    env_name: Seq<char>,
    chrome_index: nat,
) -> Option<StepSpec> {
    if !e.enabled {
        None
    } else if e.extension_type == ExtensionType::System && mode is None {
        Some(StepSpec::Skip("扩展 "@ + e.name@ + " 元数据不可读（跳过）"@))
    } else if e.extension_type == ExtensionType::User || mode == Some(LoadMode::Static) {
        if manifest_ok {
            Some(StepSpec::Direct(e.source_path@))
        } else {
            Some(StepSpec::Skip("扩展 "@ + e.name@ + " 不可加载（跳过）"@))
        }
    } else if file_name_of(e.source_path@) == "environment-label"@ {
        Some(StepSpec::EnvironmentLabel(e.source_path@, label_text(env_name, chrome_index)))
    } else {
        Some(StepSpec::Skip("物化型扩展「"@ + file_name_of(e.source_path@) + "」未实现物化器"@))
    }
}

/// The load plan: the steps of the extensions in registry order, the
/// disabled ones left out.
pub open spec fn plan_spec(
    rows: Seq<Extension>,
    modes: Seq<Option<LoadMode>>,
    manifests_ok: Seq<bool>,
    env_name: Seq<char>,
    chrome_index: nat,
) -> Seq<StepSpec>
    decreases rows.len(),
{
    if rows.len() == 0 {
        Seq::empty()
    } else {
        let prev = plan_spec(rows.drop_last(), modes, manifests_ok, env_name, chrome_index);
        let i = rows.len() - 1;
        match step_spec(rows[i], modes[i], manifests_ok[i], env_name, chrome_index) {
            Some(st) => prev.push(st),
            None => prev,
        }
    }
}

impl ExtensionService {
    /// The rules.
    pub fn new() -> (s: Self) {
        ExtensionService {  }
    }

    /// An extension with its status recomputed from its source directory.
    pub fn with_fresh_status(&self, ext: Extension, probe: SourceProbe) -> (r: Extension)
        ensures
            r == (Extension { status: fresh_status(probe), ..ext }),
    {
        let mut ext = ext;
        ext.status = if !probe.dir_exists {
            ExtensionStatus::Missing
        } else if !probe.manifest_ok {
            ExtensionStatus::Invalid
        } else {
            ExtensionStatus::Ready
        };
        ext
    }

    /// The registry rows, each with its status recomputed.
    pub fn list(&self, rows: Vec<Extension>, probes: &[SourceProbe]) -> (r: Vec<Extension>)
        requires
            probes@.len() == rows@.len(),
        ensures
            r@.len() == rows@.len(),
            forall|i: int|
                0 <= i < r@.len() ==> #[trigger] r@[i] == (Extension {
                    status: fresh_status(probes@[i]),
                    ..rows@[i]
                }),
    {
        let mut out: Vec<Extension> = Vec::new();
        let mut rows = rows;
        let ghost original = rows@;
        let mut i: usize = 0;
        while i < probes.len()
            invariant
                0 <= i <= probes.len(),
                probes@.len() == original.len(),
                rows@ == original.skip(i as int),
                out@.len() == i,
                forall|j: int|
                    0 <= j < i ==> #[trigger] out@[j] == (Extension {
                        status: fresh_status(probes@[j]),
                        ..original[j]
                    }),
            decreases probes.len() - i,
        {
            let e = rows.remove(0);
            assert(e == original[i as int]);
            assert(rows@ =~= original.skip(i + 1));
            let fresh = self.with_fresh_status(e, probes[i]);
            out.push(fresh);
            i = i + 1;
        }
        out
    }

    /// An extension with its status recomputed.
    pub fn get(&self, row: Extension, probe: SourceProbe) -> (r: Extension)
        ensures
            r == (Extension { status: fresh_status(probe), ..row }),
    {
        self.with_fresh_status(row, probe)
    }

    /// The registry row of a user extension registered from `path` with the
    /// metadata of its manifest, id `ext_<suffix>`, at time `now`: enabled
    /// and ready.
    pub fn register_with(&self, manifest: ManifestInfo, path: &str, id_suffix: &str, now: i64) -> (r: Extension)
        ensures
            r.id@ == "ext_"@ + id_suffix@,
            r.name == manifest.name,
            r.description == manifest.description,
            r.version == manifest.version,
            r.manifest_version == manifest.manifest_version,
            r.extension_type == ExtensionType::User,
            r.source_path@ == path@,
            r.enabled,
            r.status == ExtensionStatus::Ready,
            r.created_at == now && r.updated_at == now,
    {
        let mut id: Vec<char> = Vec::new();
        push_str(&mut id, "ext_");
        push_str(&mut id, id_suffix);
        Extension {
            id: string_from_chars(&id),
            name: manifest.name,
            description: manifest.description,
            version: manifest.version,
            manifest_version: manifest.manifest_version,
            extension_type: ExtensionType::User,
            source_path: crate::text::str_to_string(path),
            enabled: true,
            status: ExtensionStatus::Ready,
            created_at: now,
            updated_at: now,
        }
    }

    /// A user extension registered now from `path` (whose manifest read as
    /// `manifest`), with a fresh UUID in its id.
    pub fn register(&self, manifest: ManifestInfo, path: &str) -> (r: Extension)
        ensures
            r.id@.len() == 40,
            r.id@.take(4) == "ext_"@,
            r.name == manifest.name,
            r.description == manifest.description,
            r.version == manifest.version,
            r.manifest_version == manifest.manifest_version,
            r.extension_type == ExtensionType::User,
            r.source_path@ == path@,
            r.enabled,
            r.status == ExtensionStatus::Ready,
            r.created_at == r.updated_at,
    {
        let suffix = new_uuid();
        let now = now_ms();
        let r = self.register_with(manifest, path, suffix.as_str(), now);
        proof {
            reveal_strlit("ext_");
            assert(("ext_"@ + suffix@).take(4) =~= "ext_"@);
        }
        r
    }

    /// Whether `ext` may be switched on or off: built-in extensions are
    /// locked (`403 EXTENSION_SYSTEM_LOCKED`).
    pub fn set_enabled(&self, ext: &Extension, enabled: bool) -> (r: Result<(), AppError>)
        ensures
            locked(*ext) <==> r is Err,
            r matches Err(e) ==> is_business(
                e,
                403,
                "EXTENSION_SYSTEM_LOCKED"@,
                "系统扩展不可禁用"@,
            ),
    {
        if ext.extension_type == ExtensionType::System {
            return Err(
                AppError::business(403, "EXTENSION_SYSTEM_LOCKED", String::from_str("系统扩展不可禁用")),
            );
        }
        Ok(())
    }

    /// Whether `ext` may be removed from the registry (its files are never
    /// touched): built-in extensions are locked.
    pub fn delete(&self, ext: &Extension) -> (r: Result<(), AppError>)
        ensures
            locked(*ext) <==> r is Err,
            r matches Err(e) ==> is_business(
                e,
                403,
                "EXTENSION_SYSTEM_LOCKED"@,
                "系统扩展不可移除"@,
            ),
    {
        if ext.extension_type == ExtensionType::System {
            return Err(
                AppError::business(403, "EXTENSION_SYSTEM_LOCKED", String::from_str("系统扩展不可移除")),
            );
        }
        Ok(())
    }

    /// The label of an instance: `<environment name> · Chrome #<index>`.
    pub fn materialize_env_label(&self, env: &Environment, chrome_index: usize) -> (s: String)
        ensures
            s@ == label_text(env.name@, chrome_index as nat),
    {
        let mut buf: Vec<char> = Vec::new();
        push_str(&mut buf, env.name.as_str());
        push_str(&mut buf, " · Chrome #");
        push_u64(&mut buf, chrome_index as u64);
        string_from_chars(&buf)
    }

    /// How one registered extension is loaded into an instance.  Disabled
    /// extensions are left out; user extensions load their directory as it
    /// is (their manifest must read); built-in ones follow their declared
    /// mode (`mode` is `None` when it could not be read), and the only
    /// generated kind is the environment label.
    pub fn load_step(
        &self,
        ext: &Extension,
        mode: Option<LoadMode>,
        manifest_ok: bool,
        env: &Environment,
        chrome_index: usize,
    ) -> (s: Option<LoadStep>)
        ensures
            opt_step_view(s) == step_spec(*ext, mode, manifest_ok, env.name@, chrome_index as nat),
    {
        if !ext.enabled {
            return None;
        }
        let effective = if ext.extension_type == ExtensionType::System {
            match mode {
                Some(m) => m,
                None => {
                    let mut buf: Vec<char> = Vec::new();
                    push_str(&mut buf, "扩展 ");
                    push_str(&mut buf, ext.name.as_str());
                    push_str(&mut buf, " 元数据不可读（跳过）");
                    return Some(LoadStep::Skip(string_from_chars(&buf)));
                },
            }
        } else {
            LoadMode::Static
        };
        match effective {
            LoadMode::Static => {
                if manifest_ok {
                    Some(LoadStep::Direct(ext.source_path.clone()))
                } else {
                    let mut buf: Vec<char> = Vec::new();
                    push_str(&mut buf, "扩展 ");
                    push_str(&mut buf, ext.name.as_str());
                    push_str(&mut buf, " 不可加载（跳过）");
                    Some(LoadStep::Skip(string_from_chars(&buf)))
                }
            },
            LoadMode::Materialize => {
                let leaf = file_name(ext.source_path.as_str());
                Some(self.materialize_step(ext, leaf.as_str(), env, chrome_index))
            },
        }
    }

    /// The load plan of an instance, which the caller joins into
    /// `--load-extension`: one step per enabled extension in registry order.
    /// `modes[i]` is the declared mode of built-in extension `i` (`None` when
    /// it could not be read) and `manifests_ok[i]` whether its manifest reads;
    /// a failure skips that extension only.
    pub fn resolve_for_runtime(
        &self,
        rows: &[Extension],
        modes: &[Option<LoadMode>],
        manifests_ok: &[bool],
        env: &Environment,
        chrome_index: usize,
    ) -> (r: Vec<LoadStep>)
        requires
            modes@.len() == rows@.len(),
            manifests_ok@.len() == rows@.len(),
        ensures
            r@.map_values(|x: LoadStep| step_view(x)) == plan_spec(
                rows@,
                modes@,
                manifests_ok@,
                env.name@,
                chrome_index as nat,
            ),
    {
        let mut out: Vec<LoadStep> = Vec::new();
        let mut i: usize = 0;
        assert(rows@.take(0) =~= Seq::<Extension>::empty());
        while i < rows.len()
            invariant
                0 <= i <= rows.len(),
                modes@.len() == rows@.len(),
                manifests_ok@.len() == rows@.len(),
                out@.map_values(|x: LoadStep| step_view(x)) == plan_spec(
                    rows@.take(i as int),
                    modes@,
                    manifests_ok@,
                    env.name@,
                    chrome_index as nat,
                ),
            decreases rows.len() - i,
        {
            proof {
                let t = rows@.take(i + 1);
                assert(t.drop_last() =~= rows@.take(i as int));
                assert(t[i as int] == rows@[i as int]);
            }
            let step = self.load_step(&rows[i], modes[i], manifests_ok[i], env, chrome_index);
            let ghost prev = out@.map_values(|x: LoadStep| step_view(x));
            match step {
                Some(st) => {
                    out.push(st);
                    assert(out@.map_values(|x: LoadStep| step_view(x)) =~= prev.push(
                        step_view(out@.last()),
                    ));
                },
                None => {},
            }
            i = i + 1;
        }
        assert(rows@.take(rows.len() as int) =~= rows@);
        out
    }

    /// The step of a generated extension whose directory is named `leaf`:
    /// the environment label is the one kind with a generator; any other
    /// is left out.
    pub fn materialize_step(&self, ext: &Extension, leaf: &str, env: &Environment, chrome_index: usize) -> (s: LoadStep)
        ensures
            leaf@ == "environment-label"@ ==> (s matches LoadStep::EnvironmentLabel { source, label }
                && source@ == ext.source_path@ && label@ == label_text(env.name@, chrome_index as nat)),
            leaf@ != "environment-label"@ ==> (s matches LoadStep::Skip(m) && m@ == "物化型扩展「"@
                + leaf@ + "」未实现物化器"@),
    {
        let l = chars_of(leaf);
        if eq_str(&l, "environment-label") {
            LoadStep::EnvironmentLabel {
                source: ext.source_path.clone(),
                label: self.materialize_env_label(env, chrome_index),
            }
        } else {
            let mut buf: Vec<char> = Vec::new();
            push_str(&mut buf, "物化型扩展「");
            push_str(&mut buf, leaf);
            push_str(&mut buf, "」未实现物化器");
            LoadStep::Skip(string_from_chars(&buf))
        }
    }
}

/// The plan of a built-in synchronisation.
#[derive(Debug, Clone, PartialEq, Eq)]
pub struct SyncPlan {
    /// Bundled directories to register (their manifests are read then; a
    /// directory whose manifest does not read is skipped).
    pub register: Vec<String>,
    /// Ids of built-in rows whose directory is gone.
    pub prune: Vec<String>,
}

/// Registry rows as `(id, source, built-in)`.
pub open spec fn rows_view(rows: Seq<Extension>) -> Seq<(Seq<char>, Seq<char>, bool)> {
    rows.map_values(|e: Extension| (e.id@, e.source_path@, e.extension_type == ExtensionType::System))
}

/// Bundled directories not registered yet (by any row, built-in or user),
/// in order.
pub open spec fn to_register(dirs: Seq<Seq<char>>, sources: Seq<Seq<char>>) -> Seq<Seq<char>>
    decreases dirs.len(),
{
    if dirs.len() == 0 {
        Seq::empty()
    } else if sources.contains(dirs.last()) {
        to_register(dirs.drop_last(), sources)
    } else {
        to_register(dirs.drop_last(), sources).push(dirs.last())
    }
}

/// Built-in rows whose directory is not among the bundled ones; user rows
/// are never touched.
pub open spec fn to_prune(rows: Seq<(Seq<char>, Seq<char>, bool)>, dirs: Seq<Seq<char>>) -> Seq<Seq<char>>
    decreases rows.len(),
{
    if rows.len() == 0 {
        Seq::empty()
    } else if rows.last().2 && !dirs.contains(rows.last().1) {
        to_prune(rows.drop_last(), dirs).push(rows.last().0)
    } else {
        to_prune(rows.drop_last(), dirs)
    }
}

fn seq_contains_string(v: &[String], s: &str) -> (b: bool)
    ensures
        b == string_views(v@).contains(s@),
{
    let k = chars_of(s);
    let mut i: usize = 0;
    while i < v.len()
        invariant
            0 <= i <= v.len(),
            k@ == s@,
            forall|j: int| 0 <= j < i ==> v@[j]@ != s@,
        decreases v.len() - i,
    {
        let c = chars_of(v[i].as_str());
        if chars_eq(&c, &k) {
            assert(string_views(v@)[i as int] == s@);
            return true;
        }
        i = i + 1;
    }
    proof {
        if string_views(v@).contains(s@) {
            let j = choose|j: int| 0 <= j < string_views(v@).len() && string_views(v@)[j] == s@;
            assert(v@[j]@ == s@);
        }
    }
    false
}

/// The synchronisation of the built-in extensions with the bundled
/// directories (`dirs`, sorted, each holding an extension manifest file): register
/// the directories no row refers to yet, prune the built-in rows whose
/// directory is gone.
pub fn sync_plan(dirs: &[String], rows: &[Extension]) -> (p: SyncPlan)
    ensures
        string_views(p.register@) == to_register(
            string_views(dirs@),
            rows_view(rows@).map_values(|r: (Seq<char>, Seq<char>, bool)| r.1),
        ),
        string_views(p.prune@) == to_prune(rows_view(rows@), string_views(dirs@)),
{
    let ghost sources = rows_view(rows@).map_values(|r: (Seq<char>, Seq<char>, bool)| r.1);
    let mut src: Vec<String> = Vec::new();
    let mut i: usize = 0;
    assert(string_views(src@) =~= sources.take(0));
    while i < rows.len()
        invariant
            0 <= i <= rows.len(),
            sources == rows_view(rows@).map_values(|r: (Seq<char>, Seq<char>, bool)| r.1),
            string_views(src@) == sources.take(i as int),
        decreases rows.len() - i,
    {
        let ghost prev = string_views(src@);
        src.push(rows[i].source_path.clone());
        assert(string_views(src@) =~= prev.push(sources[i as int]));
        assert(sources.take(i + 1) =~= sources.take(i as int).push(sources[i as int]));
        i = i + 1;
    }
    assert(sources.take(rows.len() as int) =~= sources);
    let mut register: Vec<String> = Vec::new();
    let mut d: usize = 0;
    assert(string_views(dirs@).take(0) =~= Seq::<Seq<char>>::empty());
    while d < dirs.len()
        invariant
            0 <= d <= dirs.len(),
            string_views(src@) == sources,
            string_views(register@) == to_register(string_views(dirs@).take(d as int), sources),
        decreases dirs.len() - d,
    {
        proof {
            let t = string_views(dirs@).take(d + 1);
            assert(t.drop_last() =~= string_views(dirs@).take(d as int));
            assert(t.last() == dirs@[d as int]@);
        }
        if !seq_contains_string(&src, dirs[d].as_str()) {
            let ghost prev = string_views(register@);
            register.push(dirs[d].clone());
            assert(string_views(register@) =~= prev.push(dirs@[d as int]@));
        }
        d = d + 1;
    }
    assert(string_views(dirs@).take(dirs.len() as int) =~= string_views(dirs@));
    let mut prune: Vec<String> = Vec::new();
    let mut r: usize = 0;
    assert(rows_view(rows@).take(0) =~= Seq::<(Seq<char>, Seq<char>, bool)>::empty());
    while r < rows.len()
        invariant
            0 <= r <= rows.len(),
            string_views(prune@) == to_prune(rows_view(rows@).take(r as int), string_views(dirs@)),
        decreases rows.len() - r,
    {
        proof {
            let t = rows_view(rows@).take(r + 1);
            assert(t.drop_last() =~= rows_view(rows@).take(r as int));
            assert(t.last() == rows_view(rows@)[r as int]);
        }
        if rows[r].extension_type == ExtensionType::System && !seq_contains_string(
            dirs,
            rows[r].source_path.as_str(),
        ) {
            let ghost prev = string_views(prune@);
            prune.push(rows[r].id.clone());
            assert(string_views(prune@) =~= prev.push(rows@[r as int].id@));
        }
        r = r + 1;
    }
    assert(rows_view(rows@).take(rows.len() as int) =~= rows_view(rows@));
    SyncPlan { register, prune }
}

proof fn lemma_to_register_empty(dirs: Seq<Seq<char>>, sources: Seq<Seq<char>>)
    requires
        forall|i: int| 0 <= i < dirs.len() ==> sources.contains(#[trigger] dirs[i]),
    ensures
        to_register(dirs, sources).len() == 0,
    decreases dirs.len(),
{
    if dirs.len() > 0 {
        assert(sources.contains(dirs[dirs.len() - 1]));
        assert forall|i: int| 0 <= i < dirs.drop_last().len() implies sources.contains(
            #[trigger] dirs.drop_last()[i],
        ) by {
            assert(dirs.drop_last()[i] == dirs[i]);
        }
        lemma_to_register_empty(dirs.drop_last(), sources);
    }
}

proof fn lemma_to_prune_empty(rows: Seq<(Seq<char>, Seq<char>, bool)>, dirs: Seq<Seq<char>>)
    requires
        forall|i: int| 0 <= i < rows.len() && (#[trigger] rows[i]).2 ==> dirs.contains(rows[i].1),
    ensures
        to_prune(rows, dirs).len() == 0,
    decreases rows.len(),
{
    if rows.len() > 0 {
        assert(rows[rows.len() - 1] == rows.last());
        assert forall|i: int| 0 <= i < rows.drop_last().len() && (#[trigger] rows.drop_last()[i]).2
            implies dirs.contains(rows.drop_last()[i].1) by {
            assert(rows.drop_last()[i] == rows[i]);
        }
        lemma_to_prune_empty(rows.drop_last(), dirs);
    }
}

/// Synchronisation settles: once every bundled directory is registered and
/// every built-in row points at a bundled directory, the plan is empty.
pub proof fn lemma_sync_settles(rows: Seq<(Seq<char>, Seq<char>, bool)>, dirs: Seq<Seq<char>>)
    requires
        forall|i: int|
            0 <= i < dirs.len() ==> rows.map_values(|r: (Seq<char>, Seq<char>, bool)| r.1).contains(
                #[trigger] dirs[i],
            ),
        forall|i: int| 0 <= i < rows.len() && (#[trigger] rows[i]).2 ==> dirs.contains(rows[i].1),
    ensures
        to_register(dirs, rows.map_values(|r: (Seq<char>, Seq<char>, bool)| r.1)).len() == 0,
        to_prune(rows, dirs).len() == 0,
{
    lemma_to_register_empty(dirs, rows.map_values(|r: (Seq<char>, Seq<char>, bool)| r.1));
    lemma_to_prune_empty(rows, dirs);
}

/// A registry row as `(id, source, built-in)`.
pub type RowV = (Seq<char>, Seq<char>, bool);

/// The sources of the rows.
pub open spec fn sources_of(rows: Seq<RowV>) -> Seq<Seq<char>> {
    rows.map_values(|r: RowV| r.1)
}

/// The rows a synchronisation keeps: all but the pruned built-in ones, in
/// order.
pub open spec fn kept_rows(rows: Seq<RowV>, dirs: Seq<Seq<char>>) -> Seq<RowV>
    decreases rows.len(),
{
    if rows.len() == 0 {
        Seq::empty()
    } else if rows.last().2 && !dirs.contains(rows.last().1) {
        kept_rows(rows.drop_last(), dirs)
    } else {
        kept_rows(rows.drop_last(), dirs).push(rows.last())
    }
}

/// Built-in rows for the registered directories, with the ids given.
pub open spec fn added_rows(regs: Seq<Seq<char>>, ids: Seq<Seq<char>>) -> Seq<RowV> {
    Seq::new(regs.len(), |i: int| (ids[i], regs[i], true))
}

/// The registry after a synchronisation in which every bundled directory
/// to register was registered (under the ids `ids`).
pub open spec fn synced(rows: Seq<RowV>, dirs: Seq<Seq<char>>, ids: Seq<Seq<char>>) -> Seq<RowV> {
    kept_rows(rows, dirs) + added_rows(to_register(dirs, sources_of(rows)), ids)
}

/// The user rows, in order.
pub open spec fn user_rows(rows: Seq<RowV>) -> Seq<RowV>
    decreases rows.len(),
{
    if rows.len() == 0 {
        Seq::empty()
    } else if rows.last().2 {
        user_rows(rows.drop_last())
    } else {
        user_rows(rows.drop_last()).push(rows.last())
    }
}

proof fn lemma_kept_rows(rows: Seq<RowV>, dirs: Seq<Seq<char>>)
    ensures
        forall|i: int|
            0 <= i < kept_rows(rows, dirs).len() && (#[trigger] kept_rows(rows, dirs)[i]).2
                ==> dirs.contains(kept_rows(rows, dirs)[i].1),
        forall|d: Seq<char>|
            sources_of(rows).contains(d) && dirs.contains(d) ==> #[trigger] sources_of(
                kept_rows(rows, dirs),
            ).contains(d),
        user_rows(kept_rows(rows, dirs)) == user_rows(rows),
    decreases rows.len(),
{
    if rows.len() > 0 {
        let prev = rows.drop_last();
        lemma_kept_rows(prev, dirs);
        let k = kept_rows(prev, dirs);
        let last = rows.last();
        assert forall|d: Seq<char>|
            sources_of(rows).contains(d) && dirs.contains(d) implies #[trigger] sources_of(
                kept_rows(rows, dirs),
            ).contains(d) by {
            let j = choose|j: int| 0 <= j < sources_of(rows).len() && sources_of(rows)[j] == d;
            let pruned = last.2 && !dirs.contains(last.1);
            if j < rows.len() - 1 {
                assert(sources_of(prev)[j] == d);
                assert(sources_of(prev).contains(d));
                assert(sources_of(k).contains(d));
                let m = choose|m: int| 0 <= m < sources_of(k).len() && sources_of(k)[m] == d;
                if !pruned {
                    assert(kept_rows(rows, dirs) == k.push(last));
                    assert(sources_of(k.push(last))[m] == d);
                } else {
                    assert(kept_rows(rows, dirs) == k);
                }
            } else {
                assert(rows[j] == last);
                assert(last.1 == d);
                assert(!pruned);
                assert(kept_rows(rows, dirs) == k.push(last));
                assert(sources_of(k.push(last))[k.len() as int] == d);
            }
        }
        if !(last.2 && !dirs.contains(last.1)) {
            assert(k.push(last).drop_last() =~= k);
            assert forall|i: int|
                0 <= i < k.push(last).len() && (#[trigger] k.push(last)[i]).2 implies dirs.contains(
                k.push(last)[i].1,
            ) by {
                if i < k.len() {
                    assert(k.push(last)[i] == k[i]);
                }
            }
        }
    }
}

proof fn lemma_to_register_facts(dirs: Seq<Seq<char>>, srcs: Seq<Seq<char>>)
    ensures
        forall|i: int|
            0 <= i < to_register(dirs, srcs).len() ==> dirs.contains(
                #[trigger] to_register(dirs, srcs)[i],
            ) && !srcs.contains(to_register(dirs, srcs)[i]),
        forall|d: Seq<char>|
            dirs.contains(d) && !srcs.contains(d) ==> #[trigger] to_register(dirs, srcs).contains(d),
    decreases dirs.len(),
{
    if dirs.len() > 0 {
        let prev = dirs.drop_last();
        lemma_to_register_facts(prev, srcs);
        let r = to_register(prev, srcs);
        assert forall|i: int| 0 <= i < to_register(dirs, srcs).len() implies dirs.contains(
            #[trigger] to_register(dirs, srcs)[i],
        ) && !srcs.contains(to_register(dirs, srcs)[i]) by {
            if i < r.len() {
                assert(to_register(dirs, srcs)[i] == r[i]);
                let j = choose|j: int| 0 <= j < prev.len() && prev[j] == r[i];
                assert(dirs[j] == prev[j]);
            } else {
                assert(dirs[dirs.len() - 1] == dirs.last());
            }
        }
        assert forall|d: Seq<char>| dirs.contains(d) && !srcs.contains(d) implies #[trigger] to_register(
            dirs,
            srcs,
        ).contains(d) by {
            let j = choose|j: int| 0 <= j < dirs.len() && dirs[j] == d;
            let skip = srcs.contains(dirs.last());
            if j < dirs.len() - 1 {
                assert(prev[j] == d);
                assert(prev.contains(d));
                assert(r.contains(d));
                let m = choose|m: int| 0 <= m < r.len() && r[m] == d;
                if skip {
                    assert(to_register(dirs, srcs) == r);
                } else {
                    assert(to_register(dirs, srcs) == r.push(dirs.last()));
                    assert(r.push(dirs.last())[m] == d);
                }
            } else {
                assert(dirs.last() == d);
                assert(to_register(dirs, srcs) == r.push(d));
                assert(r.push(d)[r.len() as int] == d);
            }
        }
    }
}

proof fn lemma_user_rows_concat(a: Seq<RowV>, b: Seq<RowV>)
    ensures
        user_rows(a + b) == user_rows(a) + user_rows(b),
    decreases b.len(),
{
    if b.len() == 0 {
        assert(a + b =~= a);
        assert(user_rows(a) + user_rows(b) =~= user_rows(a));
    } else {
        lemma_user_rows_concat(a, b.drop_last());
        assert((a + b).drop_last() =~= a + b.drop_last());
        assert((a + b).last() == b.last());
        if !b.last().2 {
            assert(user_rows(a) + user_rows(b.drop_last()).push(b.last()) =~= (user_rows(a)
                + user_rows(b.drop_last())).push(b.last()));
        }
    }
}

proof fn lemma_user_rows_of_builtin(rows: Seq<RowV>)
    requires
        forall|i: int| 0 <= i < rows.len() ==> (#[trigger] rows[i]).2,
    ensures
        user_rows(rows) == Seq::<RowV>::empty(),
    decreases rows.len(),
{
    if rows.len() > 0 {
        assert(rows[rows.len() - 1] == rows.last());
        assert forall|i: int| 0 <= i < rows.drop_last().len() implies (#[trigger] rows.drop_last()[i]).2 by {
            assert(rows.drop_last()[i] == rows[i]);
        }
        lemma_user_rows_of_builtin(rows.drop_last());
    }
}

/// Synchronising twice changes nothing.  After a synchronisation that
/// registered every bundled directory it meant to, every built-in row
/// points at a bundled directory, the user rows are exactly those before,
/// each registered directory had no row yet, and a second plan over the
/// same directories registers and prunes nothing.
pub proof fn lemma_sync_idempotent(rows: Seq<RowV>, dirs: Seq<Seq<char>>, ids: Seq<Seq<char>>)
    requires
        ids.len() == to_register(dirs, sources_of(rows)).len(),
    ensures
        forall|i: int|
            0 <= i < synced(rows, dirs, ids).len() && (#[trigger] synced(rows, dirs, ids)[i]).2
                ==> dirs.contains(synced(rows, dirs, ids)[i].1),
        user_rows(synced(rows, dirs, ids)) == user_rows(rows),
        forall|i: int|
            0 <= i < to_register(dirs, sources_of(rows)).len() ==> !sources_of(rows).contains(
                #[trigger] to_register(dirs, sources_of(rows))[i],
            ),
        to_register(dirs, sources_of(synced(rows, dirs, ids))).len() == 0,
        to_prune(synced(rows, dirs, ids), dirs).len() == 0,
{
    let srcs = sources_of(rows);
    let regs = to_register(dirs, srcs);
    let k = kept_rows(rows, dirs);
    let add = added_rows(regs, ids);
    let out = synced(rows, dirs, ids);
    lemma_kept_rows(rows, dirs);
    lemma_to_register_facts(dirs, srcs);
    assert forall|i: int| 0 <= i < out.len() && (#[trigger] out[i]).2 implies dirs.contains(out[i].1) by {
        if i >= k.len() {
            assert(out[i] == add[i - k.len()]);
            assert(regs[i - k.len()] == add[i - k.len()].1);
        } else {
            assert(out[i] == k[i]);
        }
    }
    lemma_user_rows_concat(k, add);
    lemma_user_rows_of_builtin(add);
    assert(user_rows(k) + Seq::<RowV>::empty() =~= user_rows(k));
    assert(sources_of(out) =~= sources_of(k) + sources_of(add));
    assert forall|i: int| 0 <= i < dirs.len() implies sources_of(out).contains(#[trigger] dirs[i]) by {
        let d = dirs[i];
        assert(dirs.contains(d));
        if srcs.contains(d) {
            assert(sources_of(k).contains(d));
            let m = choose|m: int| 0 <= m < sources_of(k).len() && sources_of(k)[m] == d;
            assert(sources_of(out)[m] == d);
        } else {
            assert(regs.contains(d));
            let m = choose|m: int| 0 <= m < regs.len() && regs[m] == d;
            assert(sources_of(out)[k.len() + m] == add[m].1);
        }
    }
    lemma_to_register_empty(dirs, sources_of(out));
    lemma_to_prune_empty(out, dirs);
}

} // verus!
