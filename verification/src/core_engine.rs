//! Core engine: the module registry with dependency-ordered loading, and
//! the polyglot compiler's target validation.

use vstd::prelude::*;
use crate::clock::{now_millis, start_timer, elapsed_millis};
use crate::history::{first_index, lemma_first_index, lemma_first_index_bound, lemma_same_index, duplicate_all, keep, lemma_keep_step, lemma_keep_update_len};
use crate::text::str_eq;

verus! {

/// Identity of a registered plugin or module.
#[derive(Debug, Clone)]
pub struct ModuleDescriptor {
    pub id: String,
    pub name: String,
    pub version: String,
    pub category: ModuleCategory,
    pub lazy: bool,
    pub dependencies: Vec<String>,
    pub permissions: Vec<String>,
    pub loaded: bool,
    /// Milliseconds since the Unix epoch.
    pub loaded_at: Option<i64>,
}

#[derive(Debug, Clone, Copy, PartialEq, Eq, Structural)]
pub enum ModuleCategory {
    CoreEngine,
    Repair,
    Build,
    Ai,
    Media,
    Cloud,
    Plugin,
    Docs,
}

/// The characters of each string.
pub open spec fn chars_of(s: Seq<String>) -> Seq<Seq<char>> {
    s.map_values(|x: String| x@)
}

/// A module descriptor as characters and sequences.
pub struct ModuleView {
    pub id: Seq<char>,
    pub name: Seq<char>,
    pub version: Seq<char>,
    pub category: ModuleCategory,
    pub lazy: bool,
    pub dependencies: Seq<Seq<char>>,
    pub permissions: Seq<Seq<char>>,
    pub loaded: bool,
    pub loaded_at: Option<i64>,
}

impl View for ModuleDescriptor {
    type V = ModuleView;

    open spec fn view(&self) -> ModuleView {
        ModuleView {
            id: self.id@,
            name: self.name@,
            version: self.version@,
            category: self.category,
            lazy: self.lazy,
            dependencies: chars_of(self.dependencies@),
            permissions: chars_of(self.permissions@),
            loaded: self.loaded,
            loaded_at: self.loaded_at,
        }
    }
}

impl ModuleDescriptor {
    pub fn duplicate(&self) -> (r: Self)
        ensures
            r@ == self@,
    {
        let dependencies = duplicate_all(&self.dependencies);
        let permissions = duplicate_all(&self.permissions);
        ModuleDescriptor {
            id: self.id.clone(),
            name: self.name.clone(),
            version: self.version.clone(),
            category: self.category,
            lazy: self.lazy,
            dependencies,
            permissions,
            loaded: self.loaded,
            loaded_at: self.loaded_at,
        }
    }
}

/// The views of a sequence of module descriptors.
pub open spec fn module_views(s: Seq<ModuleDescriptor>) -> Seq<ModuleView> {
    s.map_values(|m: ModuleDescriptor| m@)
}

/// A built-in module: version 0.1.0, not yet loaded.
pub open spec fn builtin(
    id: Seq<char>,
    name: Seq<char>,
    category: ModuleCategory,
    lazy: bool,
    dependencies: Seq<Seq<char>>,
    permissions: Seq<Seq<char>>,
) -> ModuleView {
    ModuleView {
        id,
        name,
        version: "0.1.0"@,
        category,
        lazy,
        dependencies,
        permissions,
        loaded: false,
        loaded_at: None,
    }
}

/// The modules every registry starts with, all lazy but the core engine
/// and the plugin system.
pub open spec fn builtin_modules() -> Seq<ModuleView> {
    seq![
        builtin("core_engine"@, "Core Engine Architecture"@, ModuleCategory::CoreEngine, false,
            seq![], seq!["all"@]),
        builtin("app_repair"@, "App Repair Engine"@, ModuleCategory::Repair, true,
            seq!["core_engine"@], seq!["fs:read"@, "fs:write"@, "shell:execute"@]),
        builtin("xplatform_forge"@, "XPlatform Forge"@, ModuleCategory::Build, true,
            seq!["core_engine"@], seq!["fs:read"@, "fs:write"@, "shell:execute"@]),
        builtin("boot_forge"@, "BootForge"@, ModuleCategory::Media, true,
            seq!["core_engine"@], seq!["fs:read"@, "fs:write"@, "disk:write"@]),
        builtin("ai_logo_studio"@, "AI Logo Studio"@, ModuleCategory::Ai, true,
            seq!["core_engine"@, "ai_assistant"@], seq!["fs:write"@, "network:fetch"@]),
        builtin("ai_assistant"@, "AI Assistant Engine"@, ModuleCategory::Ai, true,
            seq!["core_engine"@], seq!["network:fetch"@]),
        builtin("cloud_sync"@, "Cloud Sync / Profiles"@, ModuleCategory::Cloud, true,
            seq!["core_engine"@], seq!["network:fetch"@, "fs:read"@, "fs:write"@]),
        builtin("plugin_system"@, "Sandboxed Plugin System"@, ModuleCategory::Plugin, false,
            seq!["core_engine"@], seq!["fs:read"@]),
        builtin("live_docs"@, "Live Docs Generator"@, ModuleCategory::Docs, true,
            seq!["core_engine"@], seq!["fs:read"@, "fs:write"@]),
    ]
}

fn no_names() -> (r: Vec<String>)
    ensures
        chars_of(r@) == Seq::<Seq<char>>::empty(),
{
    let r: Vec<String> = Vec::new();
    assert(chars_of(r@) =~= Seq::<Seq<char>>::empty());
    r
}

fn one_name(a: &str) -> (r: Vec<String>)
    ensures
        chars_of(r@) == seq![a@],
{
    let mut r: Vec<String> = Vec::new();
    r.push(String::from_str(a));
    assert(chars_of(r@) =~= seq![a@]);
    r
}

fn two_names(a: &str, b: &str) -> (r: Vec<String>)
    ensures
        chars_of(r@) == seq![a@, b@],
{
    let mut r: Vec<String> = Vec::new();
    r.push(String::from_str(a));
    r.push(String::from_str(b));
    assert(chars_of(r@) =~= seq![a@, b@]);
    r
}

fn three_names(a: &str, b: &str, c: &str) -> (r: Vec<String>)
    ensures
        chars_of(r@) == seq![a@, b@, c@],
{
    let mut r: Vec<String> = Vec::new();
    r.push(String::from_str(a));
    r.push(String::from_str(b));
    r.push(String::from_str(c));
    assert(chars_of(r@) =~= seq![a@, b@, c@]);
    r
}

fn make_builtin(
    id: &str,
    name: &str,
    category: ModuleCategory,
    lazy: bool,
    dependencies: Vec<String>,
    permissions: Vec<String>,
) -> (m: ModuleDescriptor)
    ensures
        m@ == builtin(id@, name@, category, lazy, chars_of(dependencies@), chars_of(permissions@)),
{
    ModuleDescriptor {
        id: String::from_str(id),
        name: String::from_str(name),
        version: String::from_str("0.1.0"),
        category,
        lazy,
        dependencies,
        permissions,
        loaded: false,
        loaded_at: None,
    }
}

/// A module whose id is `id`.
pub open spec fn module_id_is(id: Seq<char>) -> spec_fn(ModuleView) -> bool {
    |m: ModuleView| m.id == id
}

/// The position of the module with this id, or -1.
pub open spec fn module_index(mods: Seq<ModuleView>, id: Seq<char>) -> int {
    first_index(mods, module_id_is(id))
}

/// A dependency that is registered and loaded.
pub open spec fn dependency_ready(mods: Seq<ModuleView>) -> spec_fn(Seq<char>) -> bool {
    |d: Seq<char>| module_index(mods, d) >= 0 && mods[module_index(mods, d)].loaded
}

/// The first dependency of `deps` that blocks loading, or -1.
pub open spec fn blocking_dependency(mods: Seq<ModuleView>, deps: Seq<Seq<char>>) -> int {
    first_index(deps, |d: Seq<char>| !dependency_ready(mods)(d))
}

/// No two modules share an id.
pub open spec fn module_ids_unique(mods: Seq<ModuleView>) -> bool {
    forall|i: int, j: int| 0 <= i < j < mods.len() ==> mods[i].id != mods[j].id
}

/// Every loaded module has every dependency registered and loaded.
pub open spec fn loaded_closed(mods: Seq<ModuleView>) -> bool {
    forall|i: int, k: int| 0 <= i < mods.len() && mods[i].loaded && 0 <= k < mods[i].dependencies.len()
        ==> #[trigger] dependency_ready(mods)(mods[i].dependencies[k])
}

/// Why a module could not be loaded.
#[derive(Debug, Clone)]
pub enum RegistryError {
    /// No module has this id.
    NotFound(String),
    /// A dependency of the module is not a registered module.
    DependencyNotRegistered { dependency: String, module: String },
    /// A dependency of the module is registered but not loaded.
    DependencyNotLoaded { dependency: String, module: String },
}

impl RegistryError {
    pub open spec fn spec_message(&self) -> Seq<char> {
        match self {
            RegistryError::NotFound(id) => "Module '"@ + id@ + "' not found"@,
            RegistryError::DependencyNotRegistered { dependency, module } =>
                "Dependency '"@ + dependency@ + "' of module '"@ + module@ + "' is not registered"@,
            RegistryError::DependencyNotLoaded { dependency, module } =>
                "Dependency '"@ + dependency@ + "' of module '"@ + module@
                    + "' is not loaded. Load dependencies first."@,
        }
    }

    /// The error as text.
    pub fn message(&self) -> (s: String)
        ensures
            s@ == self.spec_message(),
    {
        match self {
            RegistryError::NotFound(id) => {
                let mut s = String::from_str("Module '");
                s.append(id.as_str());
                s.append("' not found");
                s
            },
            RegistryError::DependencyNotRegistered { dependency, module } => {
                let mut s = String::from_str("Dependency '");
                s.append(dependency.as_str());
                s.append("' of module '");
                s.append(module.as_str());
                s.append("' is not registered");
                s
            },
            RegistryError::DependencyNotLoaded { dependency, module } => {
                let mut s = String::from_str("Dependency '");
                s.append(dependency.as_str());
                s.append("' of module '");
                s.append(module.as_str());
                s.append("' is not loaded. Load dependencies first.");
                s
            },
        }
    }
}

/// Why a load is refused, as the registry state decides it.
pub enum LoadRefusal {
    /// No module has the id.
    Unknown,
    /// This dependency is not a registered module.
    Unregistered(Seq<char>),
    /// This dependency is registered but not loaded.
    Unloaded(Seq<char>),
}

/// The error a load answers with for a refusal of module `id`.
pub open spec fn refused_with(e: RegistryError, id: Seq<char>, why: LoadRefusal) -> bool {
    match (e, why) {
        (RegistryError::NotFound(x), LoadRefusal::Unknown) => x@ == id,
        (RegistryError::DependencyNotRegistered { dependency, module }, LoadRefusal::Unregistered(d)) =>
            dependency@ == d && module@ == id,
        (RegistryError::DependencyNotLoaded { dependency, module }, LoadRefusal::Unloaded(d)) =>
            dependency@ == d && module@ == id,
        _ => false,
    }
}

/// The text of the error a refused load of module `id` answers with.
pub open spec fn refusal_message(id: Seq<char>, why: LoadRefusal) -> Seq<char> {
    match why {
        LoadRefusal::Unknown => "Module '"@ + id + "' not found"@,
        LoadRefusal::Unregistered(d) =>
            "Dependency '"@ + d + "' of module '"@ + id + "' is not registered"@,
        LoadRefusal::Unloaded(d) =>
            "Dependency '"@ + d + "' of module '"@ + id + "' is not loaded. Load dependencies first."@,
    }
}

/// The outcome of loading module `id` at `now`: why it is refused, or the
/// loaded module.
pub open spec fn load_outcome(mods: Seq<ModuleView>, id: Seq<char>, now: i64) -> Result<ModuleView, LoadRefusal> {
    let i = module_index(mods, id);
    if i < 0 {
        Err(LoadRefusal::Unknown)
    } else {
        let deps = mods[i].dependencies;
        let k = blocking_dependency(mods, deps);
        if k >= 0 {
            if module_index(mods, deps[k]) < 0 {
                Err(LoadRefusal::Unregistered(deps[k]))
            } else {
                Err(LoadRefusal::Unloaded(deps[k]))
            }
        } else {
            Ok(ModuleView { loaded: true, loaded_at: Some(now), ..mods[i] })
        }
    }
}

/// Loading marks the module loaded and leaves every other module as it
/// was, so a successful load of a module that was not loaded raises the
/// number of loaded modules by one, and reloading a loaded module leaves it.
pub proof fn law_load_counts(mods: Seq<ModuleView>, id: Seq<char>, now: i64)
    requires
        load_outcome(mods, id, now) is Ok,
    ensures
        ({
            let i = module_index(mods, id);
            let after = mods.update(i, load_outcome(mods, id, now)->Ok_0);
            &&& 0 <= i < mods.len()
            &&& after[i].loaded
            &&& after[i].loaded_at == Some(now)
            &&& keep(after, |m: ModuleView| m.loaded).len()
                == keep(mods, |m: ModuleView| m.loaded).len() + (if mods[i].loaded { 0int } else { 1int })
        }),
{
    let i = module_index(mods, id);
    lemma_first_index_bound(mods, module_id_is(id));
    let v = load_outcome(mods, id, now)->Ok_0;
    lemma_keep_update_len(mods, |m: ModuleView| m.loaded, i, v);
}

/// Thread-safe module registry with lazy-load support.
pub struct ModuleRegistry {
    modules: Vec<ModuleDescriptor>,
}

impl ModuleRegistry {
    /// The registered modules.
    pub closed spec fn modules(&self) -> Seq<ModuleView> {
        module_views(self.modules@)
    }

    /// Ids are unique and loaded modules have their dependencies loaded.
    pub closed spec fn wf(&self) -> bool {
        &&& module_ids_unique(self.modules())
        &&& loaded_closed(self.modules())
    }

    /// What `wf` promises, in terms a caller can read.
    pub proof fn lemma_wf(&self)
        requires
            self.wf(),
        ensures
            module_ids_unique(self.modules()),
            loaded_closed(self.modules()),
    {
    }

    /// A registry holding the built-in modules, none loaded.
    pub fn new() -> (r: Self)
        ensures
            r.wf(),
            r.modules() == builtin_modules(),
    {
        let mut modules: Vec<ModuleDescriptor> = Vec::new();
        modules.push(make_builtin("core_engine", "Core Engine Architecture", ModuleCategory::CoreEngine, false,
            no_names(), one_name("all")));
        modules.push(make_builtin("app_repair", "App Repair Engine", ModuleCategory::Repair, true,
            one_name("core_engine"), three_names("fs:read", "fs:write", "shell:execute")));
        modules.push(make_builtin("xplatform_forge", "XPlatform Forge", ModuleCategory::Build, true,
            one_name("core_engine"), three_names("fs:read", "fs:write", "shell:execute")));
        modules.push(make_builtin("boot_forge", "BootForge", ModuleCategory::Media, true,
            one_name("core_engine"), three_names("fs:read", "fs:write", "disk:write")));
        modules.push(make_builtin("ai_logo_studio", "AI Logo Studio", ModuleCategory::Ai, true,
            two_names("core_engine", "ai_assistant"), two_names("fs:write", "network:fetch")));
        modules.push(make_builtin("ai_assistant", "AI Assistant Engine", ModuleCategory::Ai, true,
            one_name("core_engine"), one_name("network:fetch")));
        modules.push(make_builtin("cloud_sync", "Cloud Sync / Profiles", ModuleCategory::Cloud, true,
            one_name("core_engine"), three_names("network:fetch", "fs:read", "fs:write")));
        modules.push(make_builtin("plugin_system", "Sandboxed Plugin System", ModuleCategory::Plugin, false,
            one_name("core_engine"), one_name("fs:read")));
        modules.push(make_builtin("live_docs", "Live Docs Generator", ModuleCategory::Docs, true,
            one_name("core_engine"), two_names("fs:read", "fs:write")));
        let r = ModuleRegistry { modules };
        proof {
            reveal_strlit("core_engine");
            reveal_strlit("app_repair");
            reveal_strlit("xplatform_forge");
            reveal_strlit("boot_forge");
            reveal_strlit("ai_logo_studio");
            reveal_strlit("ai_assistant");
            reveal_strlit("cloud_sync");
            reveal_strlit("plugin_system");
            reveal_strlit("live_docs");
            assert(r.modules() =~= builtin_modules());
            let m = r.modules();
            assert forall|i: int, j: int| 0 <= i < j < m.len() implies m[i].id != m[j].id by {
                if m[i].id == m[j].id {
                    assert(m[i].id.len() == m[j].id.len());
                    assert(m[i].id[0] == m[j].id[0]);
                    assert(m[i].id[1] == m[j].id[1]);
                    assert(m[i].id[2] == m[j].id[2]);
                }
            }
        }
        r
    }

    fn find(&self, id: &str) -> (r: usize)
        ensures
            r <= self.modules@.len(),
            module_index(self.modules(), id@) == (if r == self.modules@.len() { -1 } else { r as int }),
            r < self.modules@.len() ==> self.modules()[r as int].id == id@,
    {
        let ghost s = self.modules();
        let mut i: usize = 0;
        while i < self.modules.len()
            invariant
                s == module_views(self.modules@),
                i <= self.modules@.len(),
                forall|k: int| 0 <= k < i ==> !(#[trigger] module_id_is(id@)(s[k])),
            decreases self.modules@.len() - i,
        {
            if str_eq(self.modules[i].id.as_str(), id) {
                proof { lemma_first_index(s, module_id_is(id@), i as int); }
                return i;
            }
            i = i + 1;
        }
        proof { lemma_first_index(s, module_id_is(id@), i as int); }
        i
    }

    /// Loads the module with this id at `now`, once every dependency is
    /// registered and loaded; the first dependency that is not stops it.
    pub fn load_at(&mut self, id: &str, now: i64) -> (r: Result<ModuleDescriptor, RegistryError>)
        requires
            old(self).wf(),
        ensures
            final(self).wf(),
            match (r, load_outcome(old(self).modules(), id@, now)) {
                (Ok(m), Ok(v)) => {
                    &&& m@ == v
                    &&& final(self).modules() == old(self).modules().update(module_index(old(self).modules(), id@), v)
                },
                (Err(e), Err(why)) => refused_with(e, id@, why) && final(self).modules() == old(self).modules(),
                _ => false,
            },
    {
        let ghost mods = self.modules();
        let i = self.find(id);
        if i == self.modules.len() {
            return Err(RegistryError::NotFound(String::from_str(id)));
        }
        let ghost deps = mods[i as int].dependencies;
        let ghost bad = |d: Seq<char>| !dependency_ready(mods)(d);
        let n = self.modules[i].dependencies.len();
        let mut k: usize = 0;
        while k < n
            invariant
                *self == *old(self),
                old(self).wf(),
                mods == module_views(self.modules@),
                i < self.modules@.len(),
                module_index(mods, id@) == i as int,
                deps == mods[i as int].dependencies,
                bad == (|d: Seq<char>| !dependency_ready(mods)(d)),
                n == deps.len(),
                k <= n,
                forall|j: int| 0 <= j < k ==> !(#[trigger] bad(deps[j])),
            decreases n - k,
        {
            let dep = &self.modules[i].dependencies[k];
            assert(dep@ == deps[k as int]);
            let j = self.find(dep.as_str());
            if j == self.modules.len() {
                assert(bad(deps[k as int]));
                proof { lemma_first_index(deps, bad, k as int); }
                return Err(RegistryError::DependencyNotRegistered {
                    dependency: dep.clone(),
                    module: String::from_str(id),
                });
            }
            if !self.modules[j].loaded {
                assert(bad(deps[k as int]));
                proof { lemma_first_index(deps, bad, k as int); }
                return Err(RegistryError::DependencyNotLoaded {
                    dependency: dep.clone(),
                    module: String::from_str(id),
                });
            }
            k = k + 1;
        }
        proof { lemma_first_index(deps, bad, n as int); }
        let mut m = self.modules[i].duplicate();
        m.loaded = true;
        m.loaded_at = Some(now);
        self.modules.set(i, m.duplicate());
        proof {
            let after = self.modules();
            assert(after =~= mods.update(i as int, m@));
            assert forall|a: int, b: int| 0 <= a < b < after.len() implies after[a].id != after[b].id by {
                assert(mods[a].id != mods[b].id);
            }
            assert forall|d: Seq<char>| #[trigger] module_index(after, d) == module_index(mods, d) by {
                assert forall|x: int| 0 <= x < after.len() implies
                    (#[trigger] module_id_is(d)(after[x])) == module_id_is(d)(mods[x]) by {}
                lemma_same_index(mods, after, module_id_is(d));
            }
            assert forall|a: int, q: int| 0 <= a < after.len() && after[a].loaded && 0 <= q < after[a].dependencies.len()
                implies #[trigger] dependency_ready(after)(after[a].dependencies[q]) by {
                let d = after[a].dependencies[q];
                if a == i {
                    assert(d == deps[q]);
                    assert(!bad(deps[q]));
                } else {
                    assert(after[a] == mods[a]);
                    assert(dependency_ready(mods)(mods[a].dependencies[q]));
                }
                assert(dependency_ready(mods)(d));
                lemma_first_index_bound(mods, module_id_is(d));
                let x = module_index(mods, d);
                assert(module_index(after, d) == x);
                if x == i {
                } else {
                    assert(after[x] == mods[x]);
                }
            }
        }
        Ok(m)
    }

    /// Loads a module by id, ensuring dependencies are loaded first.
    pub fn load(&mut self, id: &str) -> (r: Result<ModuleDescriptor, RegistryError>)
        requires
            old(self).wf(),
        ensures
            final(self).wf(),
            match r {
                Ok(m) => {
                    &&& m@.loaded_at is Some
                    &&& load_outcome(old(self).modules(), id@, m@.loaded_at.unwrap()) == Ok::<ModuleView, LoadRefusal>(m@)
                    &&& final(self).modules() == old(self).modules().update(module_index(old(self).modules(), id@), m@)
                },
                Err(e) => {
                    &&& final(self).modules() == old(self).modules()
                    &&& load_outcome(old(self).modules(), id@, 0) matches Err(why)
                    &&& refused_with(e, id@, why)
                },
            },
    {
        let now = now_millis();
        self.load_at(id, now)
    }

    /// All registered modules.
    pub fn list(&self) -> (r: Vec<ModuleDescriptor>)
        ensures
            module_views(r@) == self.modules(),
    {
        let ghost s = self.modules();
        let mut r: Vec<ModuleDescriptor> = Vec::new();
        let mut i: usize = 0;
        while i < self.modules.len()
            invariant
                s == module_views(self.modules@),
                i <= self.modules@.len(),
                module_views(r@) == s.subrange(0, i as int),
            decreases self.modules@.len() - i,
        {
            let ghost before = r@;
            r.push(self.modules[i].duplicate());
            proof {
                assert(module_views(r@) =~= module_views(before).push(s[i as int]));
                assert(s.subrange(0, i + 1) =~= s.subrange(0, i as int).push(s[i as int]));
            }
            i = i + 1;
        }
        assert(s.subrange(0, s.len() as int) =~= s);
        r
    }

    /// The module with this id, if registered.
    pub fn get(&self, id: &str) -> (r: Option<ModuleDescriptor>)
        ensures
            match r {
                Some(m) => module_index(self.modules(), id@) >= 0
                    && m@ == self.modules()[module_index(self.modules(), id@)],
                None => module_index(self.modules(), id@) < 0,
            },
    {
        let i = self.find(id);
        if i == self.modules.len() {
            None
        } else {
            Some(self.modules[i].duplicate())
        }
    }

    /// How many modules are loaded.
    pub fn loaded_count(&self) -> (n: usize)
        ensures
            n == keep(self.modules(), |m: ModuleView| m.loaded).len(),
    {
        let ghost s = self.modules();
        let ghost f = |m: ModuleView| m.loaded;
        let mut n: usize = 0;
        let mut i: usize = 0;
        while i < self.modules.len()
            invariant
                s == module_views(self.modules@),
                f == (|m: ModuleView| m.loaded),
                i <= self.modules@.len(),
                n <= i,
                n == keep(s.subrange(0, i as int), f).len(),
            decreases self.modules@.len() - i,
        {
            proof { lemma_keep_step(s, f, i as int); }
            if self.modules[i].loaded {
                n = n + 1;
            }
            i = i + 1;
        }
        assert(s.subrange(0, s.len() as int) =~= s);
        n
    }
}

impl Default for ModuleRegistry {
    fn default() -> (r: Self)
        ensures
            r.wf(),
            r.modules() == builtin_modules(),
    {
        Self::new()
    }
}


// ── Polyglot compiler ────────────────────────────────────────────────────────

#[derive(Debug, Clone, Copy, PartialEq, Eq, Structural)]
pub enum SupportedLanguage {
    Rust,
    TypeScript,
    JavaScript,
    Python,
    Go,
    C,
    Cpp,
    Swift,
    Kotlin,
    Java,
}

#[derive(Debug, Clone, Copy, PartialEq, Eq, Structural)]
pub enum TargetPlatform {
    Windows,
    MacOs,
    Linux,
    Android,
    Ios,
    Wasm,
}

/// One build target of the polyglot compiler.
#[derive(Debug, Clone)]
pub struct CompilerTarget {
    pub id: String,
    pub language: SupportedLanguage,
    pub source_path: String,
    pub output_path: String,
    pub optimisation_level: u8,
    pub target_platforms: Vec<TargetPlatform>,
}

/// The outcome of compiling one target.
#[derive(Debug, Clone)]
pub struct CompileResult {
    pub target_id: String,
    pub success: bool,
    pub output_path: Option<String>,
    pub duration_ms: u64,
    pub warnings: Vec<String>,
    pub errors: Vec<String>,
}

/// A target compiles when it names both a source and an output path.
pub open spec fn compiles(target: CompilerTarget) -> bool {
    target.source_path@.len() > 0 && target.output_path@.len() > 0
}

/// What compiling `target` in `duration_ms` milliseconds reports.
pub open spec fn compile_report(target: CompilerTarget, duration_ms: u64, r: CompileResult) -> bool {
    &&& r.target_id@ == target.id@
    &&& r.success == compiles(target)
    &&& r.output_path == (if compiles(target) { Some(target.output_path) } else { None::<String> })
    &&& r.duration_ms == duration_ms
    &&& r.warnings@.len() == 0
    &&& r.errors@.len() == 0
}

/// The languages the compiler accepts, in the order it lists them.
pub open spec fn all_languages() -> Seq<SupportedLanguage> {
    seq![
        SupportedLanguage::Rust,
        SupportedLanguage::TypeScript,
        SupportedLanguage::JavaScript,
        SupportedLanguage::Python,
        SupportedLanguage::Go,
        SupportedLanguage::C,
        SupportedLanguage::Cpp,
        SupportedLanguage::Swift,
        SupportedLanguage::Kotlin,
        SupportedLanguage::Java,
    ]
}

/// Orchestrates multi-language build pipelines.
pub struct PolyglotCompiler;

impl PolyglotCompiler {
    /// The result of compiling `target`, given how long it took.
    pub fn compile_measured(target: CompilerTarget, duration_ms: u64) -> (r: CompileResult)
        ensures
            compile_report(target, duration_ms, r),
    {
        let success = !target.source_path.as_str().is_empty() && !target.output_path.as_str().is_empty();
        CompileResult {
            target_id: target.id,
            success,
            output_path: if success { Some(target.output_path) } else { None },
            duration_ms,
            warnings: Vec::new(),
            errors: Vec::new(),
        }
    }

    /// Compiles a target, timing the work; it never fails.
    pub fn compile(target: CompilerTarget) -> (r: Result<CompileResult, String>)
        ensures
            r is Ok,
            compile_report(target, r->Ok_0.duration_ms, r->Ok_0),
    {
        let start = start_timer();
        let duration = elapsed_millis(&start);
        Ok(Self::compile_measured(target, duration))
    }

    /// The languages the compiler supports.
    pub fn supported_languages() -> (r: Vec<SupportedLanguage>)
        ensures
            r@ == all_languages(),
    {
        let r = vec![
            SupportedLanguage::Rust,
            SupportedLanguage::TypeScript,
            SupportedLanguage::JavaScript,
            SupportedLanguage::Python,
            SupportedLanguage::Go,
            SupportedLanguage::C,
            SupportedLanguage::Cpp,
            SupportedLanguage::Swift,
            SupportedLanguage::Kotlin,
            SupportedLanguage::Java,
        ];
        assert(r@ =~= all_languages());
        r
    }
}

} // verus!
