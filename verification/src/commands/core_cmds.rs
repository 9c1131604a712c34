//! Core engine commands: the module registry and the polyglot compiler.

use vstd::prelude::*;
use crate::core_engine::{
    chars_of, compile_report, load_outcome, module_index, module_views, refusal_message, refused_with,
    CompilerTarget, CompileResult, LoadRefusal, ModuleDescriptor, ModuleRegistry, ModuleView,
    PolyglotCompiler, SupportedLanguage,
};

verus! {

/// All registered modules.
pub fn core_list_modules(registry: &ModuleRegistry) -> (r: Result<Vec<ModuleDescriptor>, String>)
    ensures
        r matches Ok(v) && module_views(v@) == registry.modules(),
{
    Ok(registry.list())
}

/// Loads a module by id; an empty id is refused before the registry is asked.
pub fn core_load_module(registry: &mut ModuleRegistry, module_id: String) -> (r: Result<ModuleDescriptor, String>)
    requires
        old(registry).wf(),
    ensures
        final(registry).wf(),
        module_id@.len() == 0 ==> {
            &&& r matches Err(e) && e@ == "Module ID cannot be empty"@
            &&& final(registry).modules() == old(registry).modules()
        },
        module_id@.len() > 0 ==> match r {
            Ok(m) => {
                &&& m@.loaded_at is Some
                &&& load_outcome(old(registry).modules(), module_id@, m@.loaded_at.unwrap())
                    == Ok::<ModuleView, LoadRefusal>(m@)
                &&& final(registry).modules()
                    == old(registry).modules().update(module_index(old(registry).modules(), module_id@), m@)
            },
            Err(e) => {
                &&& final(registry).modules() == old(registry).modules()
                &&& load_outcome(old(registry).modules(), module_id@, 0) matches Err(why)
                &&& e@ == refusal_message(module_id@, why)
            },
        },
{
    if module_id.as_str().is_empty() {
        return Err(String::from_str("Module ID cannot be empty"));
    }
    match registry.load(module_id.as_str()) {
        Ok(m) => Ok(m),
        Err(e) => {
            let ghost why = load_outcome(old(registry).modules(), module_id@, 0)->Err_0;
            assert(refused_with(e, module_id@, why));
            Err(e.message())
        },
    }
}

/// The module with this id, if registered; an empty id is refused.
pub fn core_get_module(registry: &ModuleRegistry, module_id: String) -> (r: Result<Option<ModuleDescriptor>, String>)
    ensures
        module_id@.len() == 0 ==> (r matches Err(e) && e@ == "Module ID cannot be empty"@),
        module_id@.len() > 0 ==> (r matches Ok(o) && match o {
            Some(m) => module_index(registry.modules(), module_id@) >= 0
                && m@ == registry.modules()[module_index(registry.modules(), module_id@)],
            None => module_index(registry.modules(), module_id@) < 0,
        }),
{
    if module_id.as_str().is_empty() {
        return Err(String::from_str("Module ID cannot be empty"));
    }
    Ok(registry.get(module_id.as_str()))
}

/// Compiles a target with the polyglot compiler.
pub fn core_compile(target: CompilerTarget) -> (r: Result<CompileResult, String>)
    ensures
        r matches Ok(c) && compile_report(target, c.duration_ms, c),
{
    PolyglotCompiler::compile(target)
}

/// The lower-case name of a language.
pub open spec fn language_name(l: SupportedLanguage) -> Seq<char> {
    match l {
        SupportedLanguage::Rust => "rust"@,
        SupportedLanguage::TypeScript => "typescript"@,
        SupportedLanguage::JavaScript => "javascript"@,
        SupportedLanguage::Python => "python"@,
        SupportedLanguage::Go => "go"@,
        SupportedLanguage::C => "c"@,
        SupportedLanguage::Cpp => "cpp"@,
        SupportedLanguage::Swift => "swift"@,
        SupportedLanguage::Kotlin => "kotlin"@,
        SupportedLanguage::Java => "java"@,
    }
}

/// The lower-case name of a language, as the compiler's variant is spelt.
pub fn language_label(l: SupportedLanguage) -> (r: &'static str)
    ensures
        r@ == language_name(l),
{
    match l {
        SupportedLanguage::Rust => "rust",
        SupportedLanguage::TypeScript => "typescript",
        SupportedLanguage::JavaScript => "javascript",
        SupportedLanguage::Python => "python",
        SupportedLanguage::Go => "go",
        SupportedLanguage::C => "c",
        SupportedLanguage::Cpp => "cpp",
        SupportedLanguage::Swift => "swift",
        SupportedLanguage::Kotlin => "kotlin",
        SupportedLanguage::Java => "java",
    }
}

/// The names of the languages the compiler supports, in its order.
pub fn core_supported_languages() -> (r: Result<Vec<String>, String>)
    ensures
        r matches Ok(v) && chars_of(v@)
            == crate::core_engine::all_languages().map_values(|l: SupportedLanguage| language_name(l)),
{
    let langs = PolyglotCompiler::supported_languages();
    let mut names: Vec<String> = Vec::new();
    let mut i: usize = 0;
    while i < langs.len()
        invariant
            i <= langs@.len(),
            langs@ == crate::core_engine::all_languages(),
            chars_of(names@) == langs@.subrange(0, i as int).map_values(|l: SupportedLanguage| language_name(l)),
        decreases langs@.len() - i,
    {
        let ghost before = names@;
        names.push(String::from_str(language_label(langs[i])));
        assert(chars_of(names@) =~= chars_of(before).push(language_name(langs@[i as int])));
        assert(langs@.subrange(0, i + 1).map_values(|l: SupportedLanguage| language_name(l))
            =~= langs@.subrange(0, i as int).map_values(|l: SupportedLanguage| language_name(l)).push(language_name(langs@[i as int])));
        i = i + 1;
    }
    assert(langs@.subrange(0, langs@.len() as int) =~= langs@);
    Ok(names)
}

} // verus!
