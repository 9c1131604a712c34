use natlab_buildr26::core_engine::{
    CompilerTarget, ModuleCategory, ModuleRegistry, PolyglotCompiler, RegistryError, SupportedLanguage,
    TargetPlatform,
};

#[test]
fn registry_contains_all_builtin_modules() {
    let registry = ModuleRegistry::new();
    let modules = registry.list();
    let ids: Vec<&str> = modules.iter().map(|m| m.id.as_str()).collect();
    assert!(ids.contains(&"core_engine"));
    assert!(ids.contains(&"app_repair"));
    assert!(ids.contains(&"xplatform_forge"));
    assert!(ids.contains(&"boot_forge"));
    assert!(ids.contains(&"ai_logo_studio"));
    assert!(ids.contains(&"ai_assistant"));
    assert!(ids.contains(&"cloud_sync"));
    assert!(ids.contains(&"plugin_system"));
    assert!(ids.contains(&"live_docs"));
    assert_eq!(modules.len(), 9);
}

#[test]
fn loading_a_module_marks_it_loaded() {
    let mut registry = ModuleRegistry::new();
    registry.load("core_engine").unwrap();
    let module = registry.load("app_repair").unwrap();
    assert!(module.loaded);
    assert!(module.loaded_at.is_some());
}

#[test]
fn loading_module_without_dependency_fails() {
    let mut registry = ModuleRegistry::new();
    let result = registry.load("app_repair");
    assert!(result.is_err());
}

#[test]
fn loading_nonexistent_module_returns_error() {
    let mut registry = ModuleRegistry::new();
    let result = registry.load("nonexistent");
    assert!(result.is_err());
}

#[test]
fn polyglot_compiler_returns_success_for_valid_target() {
    let target = CompilerTarget {
        id: "test-compile".to_string(),
        language: SupportedLanguage::Rust,
        source_path: "/some/path".to_string(),
        output_path: "/some/out".to_string(),
        optimisation_level: 2,
        target_platforms: vec![TargetPlatform::Linux],
    };
    let result = PolyglotCompiler::compile(target).unwrap();
    assert!(result.success);
    assert_eq!(result.output_path, Some("/some/out".to_string()));
}

#[test]
fn polyglot_compiler_fails_for_empty_paths() {
    let target = CompilerTarget {
        id: "test-empty".to_string(),
        language: SupportedLanguage::TypeScript,
        source_path: String::new(),
        output_path: String::new(),
        optimisation_level: 0,
        target_platforms: vec![TargetPlatform::Wasm],
    };
    let result = PolyglotCompiler::compile(target).unwrap();
    assert!(!result.success);
}

#[test]
fn supported_languages_contains_rust_and_typescript() {
    let langs = PolyglotCompiler::supported_languages();
    assert!(langs.contains(&SupportedLanguage::Rust));
    assert!(langs.contains(&SupportedLanguage::TypeScript));
}

#[test]
fn load_errors_name_the_missing_piece() {
    let mut registry = ModuleRegistry::new();
    match registry.load("nonexistent") {
        Err(e) => assert_eq!(e.message(), "Module 'nonexistent' not found"),
        Ok(_) => panic!("expected an error"),
    }
    match registry.load("app_repair") {
        Err(e) => {
            assert!(matches!(e, RegistryError::DependencyNotLoaded { .. }));
            assert_eq!(
                e.message(),
                "Dependency 'core_engine' of module 'app_repair' is not loaded. Load dependencies first."
            );
        },
        Ok(_) => panic!("expected an error"),
    }
    let unregistered = RegistryError::DependencyNotRegistered {
        dependency: "x".to_string(),
        module: "y".to_string(),
    };
    assert_eq!(unregistered.message(), "Dependency 'x' of module 'y' is not registered");
}

#[test]
fn ai_logo_studio_needs_both_of_its_dependencies() {
    let mut registry = ModuleRegistry::new();
    registry.load("core_engine").unwrap();
    match registry.load("ai_logo_studio") {
        Err(e) => assert_eq!(
            e.message(),
            "Dependency 'ai_assistant' of module 'ai_logo_studio' is not loaded. Load dependencies first."
        ),
        Ok(_) => panic!("expected an error"),
    }
    registry.load("ai_assistant").unwrap();
    assert!(registry.load("ai_logo_studio").unwrap().loaded);
}

#[test]
fn loaded_count_rises_by_one_per_new_load() {
    let mut registry = ModuleRegistry::new();
    assert_eq!(registry.loaded_count(), 0);
    registry.load("core_engine").unwrap();
    assert_eq!(registry.loaded_count(), 1);
    registry.load("core_engine").unwrap();
    assert_eq!(registry.loaded_count(), 1);
    registry.load("live_docs").unwrap();
    assert_eq!(registry.loaded_count(), 2);
    let _ = registry.load("ai_logo_studio");
    assert_eq!(registry.loaded_count(), 2);
}

#[test]
fn get_returns_the_builtin_descriptor() {
    let registry = ModuleRegistry::new();
    let m = registry.get("ai_logo_studio").unwrap();
    assert_eq!(m.name, "AI Logo Studio");
    assert_eq!(m.version, "0.1.0");
    assert_eq!(m.category, ModuleCategory::Ai);
    assert!(m.lazy);
    assert_eq!(m.dependencies, vec!["core_engine".to_string(), "ai_assistant".to_string()]);
    assert_eq!(m.permissions, vec!["fs:write".to_string(), "network:fetch".to_string()]);
    assert!(!m.loaded);
    assert!(registry.get("missing").is_none());
    let core = registry.get("core_engine").unwrap();
    assert!(!core.lazy);
    assert_eq!(core.permissions, vec!["all".to_string()]);
}

#[test]
fn compile_measured_reports_the_duration_and_target() {
    let target = CompilerTarget {
        id: "t1".to_string(),
        language: SupportedLanguage::Go,
        source_path: "src".to_string(),
        output_path: String::new(),
        optimisation_level: 1,
        target_platforms: vec![],
    };
    let r = PolyglotCompiler::compile_measured(target, 42);
    assert_eq!(r.target_id, "t1");
    assert!(!r.success);
    assert_eq!(r.output_path, None);
    assert_eq!(r.duration_ms, 42);
    assert!(r.warnings.is_empty() && r.errors.is_empty());
}

#[test]
fn supported_languages_in_order() {
    let langs = PolyglotCompiler::supported_languages();
    assert_eq!(
        langs,
        vec![
            SupportedLanguage::Rust,
            SupportedLanguage::TypeScript,
            SupportedLanguage::JavaScript,
            SupportedLanguage::Python,
            SupportedLanguage::Go,
            SupportedLanguage::C,
            SupportedLanguage::Cpp,
            SupportedLanguage::Swift,
            SupportedLanguage::Kotlin,
            SupportedLanguage::Java,
        ]
    );
}
