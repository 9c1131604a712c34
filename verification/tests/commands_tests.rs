use natlab_buildr26::commands::ai_assistant::{ai_chat, ai_chat_at, ai_complete, ChatMessage, CompletionRequest, MessageRole};
use natlab_buildr26::commands::ai_logo_studio::{export_format_supported, logo_export, logo_generate, LogoPrompt};
use natlab_buildr26::commands::app_repair::{repair_apply_fixes, repair_scan, RepairTarget};
use natlab_buildr26::commands::boot_forge::{bootforge_create, bootforge_verify, BootForgeRequest, MediaFormat};
use natlab_buildr26::commands::cloud_sync::{
    cloud_sync_now, cloud_sync_status, cloud_update_preferences, preferences_update_answer,
};
use natlab_buildr26::commands::core_cmds::{core_get_module, core_load_module, core_supported_languages};
use natlab_buildr26::commands::live_docs::{docs_generate, docs_watch_start, docs_watch_stop, DocFormat, DocGenRequest};
use natlab_buildr26::commands::overseer_cmds::{overseer_evaluate, overseer_rolling_score, EvaluateRequest};
use natlab_buildr26::commands::plugin_system::{plugin_disable, plugin_enable, plugin_install, plugin_list, plugin_uninstall};
use natlab_buildr26::commands::xplatform_forge::{
    forge_build, forge_list_platforms, forge_targets, parse_platform, platform_from_lowercase, ForgeRequest,
};
use natlab_buildr26::core_engine::{ModuleRegistry, TargetPlatform};
use natlab_buildr26::overseer::{BuildGrade, BuildMetrics, BuildOverseer, BuildStage};

fn forge_request(path: &str, platforms: &[&str]) -> ForgeRequest {
    ForgeRequest {
        project_path: path.to_string(),
        platforms: platforms.iter().map(|p| p.to_string()).collect(),
        optimisation: 2,
        sign: false,
        notarise: false,
    }
}

#[test]
fn parse_platform_accepts_aliases_in_any_case() {
    assert_eq!(parse_platform("windows"), Ok(TargetPlatform::Windows));
    assert_eq!(parse_platform("MacOS"), Ok(TargetPlatform::MacOs));
    assert_eq!(parse_platform("mac"), Ok(TargetPlatform::MacOs));
    assert_eq!(parse_platform("Linux"), Ok(TargetPlatform::Linux));
    assert_eq!(parse_platform("ANDROID"), Ok(TargetPlatform::Android));
    assert_eq!(parse_platform("iOS"), Ok(TargetPlatform::Ios));
    assert_eq!(parse_platform("Web"), Ok(TargetPlatform::Wasm));
    assert_eq!(parse_platform("wasm"), Ok(TargetPlatform::Wasm));
}

#[test]
fn parse_platform_rejects_unknown_names() {
    assert_eq!(
        parse_platform("BeOS"),
        Err("Unknown platform: 'BeOS'. Supported: windows, macos, linux, android, ios, wasm".to_string())
    );
    assert_eq!(platform_from_lowercase("Windows"), None);
    assert_eq!(platform_from_lowercase("windows"), Some(TargetPlatform::Windows));
}

#[test]
fn forge_refuses_bad_requests() {
    assert_eq!(forge_build(forge_request("", &["linux"])).unwrap_err(), "Project path cannot be empty");
    assert_eq!(forge_build(forge_request("/p", &[])).unwrap_err(), "At least one target platform is required");
    assert_eq!(
        forge_build(forge_request("/p", &["linux", "amiga", "dos"])).unwrap_err(),
        "Unknown platform: 'amiga'. Supported: windows, macos, linux, android, ios, wasm"
    );
    assert_eq!(
        forge_targets(&forge_request("/p", &["Linux", "web"])).unwrap(),
        vec![TargetPlatform::Linux, TargetPlatform::Wasm]
    );
}

#[test]
fn forge_builds_every_platform() {
    let mut req = forge_request("/proj", &["Linux", "wasm"]);
    req.sign = true;
    req.notarise = true;
    let r = forge_build(req).unwrap();
    assert_eq!(r.request_id.len(), 36);
    for (i, c) in r.request_id.chars().enumerate() {
        if i == 8 || i == 13 || i == 18 || i == 23 {
            assert_eq!(c, '-');
        } else {
            assert!(c.is_ascii_digit() || ('a'..='f').contains(&c));
        }
    }
    assert_eq!(r.request_id.as_bytes()[14], b'4');
    assert!(b"89ab".contains(&r.request_id.as_bytes()[19]));
    assert!(r.overall_success);
    assert_eq!(r.platform_results.len(), 2);
    assert_eq!(r.platform_results[0].platform, "Linux");
    assert_eq!(r.platform_results[1].platform, "wasm");
    for p in &r.platform_results {
        assert!(p.success);
        assert!(p.errors.is_empty());
        assert_eq!(
            p.warnings,
            vec![
                "Signing requested but not yet implemented".to_string(),
                "Notarisation requested but not yet implemented".to_string()
            ]
        );
    }
    let artifact = r.platform_results[0].artifact_path.clone().unwrap();
    assert_eq!(artifact, format!("/proj{}dist{}Linux", std::path::MAIN_SEPARATOR, std::path::MAIN_SEPARATOR));
    let r3 = forge_build(forge_request("/tmp/a?b", &["linux"])).unwrap();
    assert_eq!(
        r3.platform_results[0].artifact_path.clone().unwrap(),
        format!("/tmp/a?b{}dist{}linux", std::path::MAIN_SEPARATOR, std::path::MAIN_SEPARATOR)
    );
    let r4 = forge_build(forge_request("\\\\?", &["wasm"])).unwrap();
    assert_eq!(
        r4.platform_results[0].artifact_path.clone().unwrap(),
        format!("\\\\?{}dist{}wasm", std::path::MAIN_SEPARATOR, std::path::MAIN_SEPARATOR)
    );
    let r2 = forge_build(forge_request("/proj/", &["ios"])).unwrap();
    assert_eq!(
        r2.platform_results[0].artifact_path.clone().unwrap(),
        format!("/proj/dist{}ios", std::path::MAIN_SEPARATOR)
    );
}

#[test]
fn forge_lists_platforms() {
    assert_eq!(forge_list_platforms(), vec!["windows", "macos", "linux", "android", "ios", "wasm"]);
}

#[test]
fn core_commands_check_the_module_id() {
    let mut registry = ModuleRegistry::new();
    assert_eq!(core_load_module(&mut registry, String::new()).unwrap_err(), "Module ID cannot be empty");
    assert_eq!(core_get_module(&registry, String::new()).unwrap_err(), "Module ID cannot be empty");
    assert_eq!(
        core_load_module(&mut registry, "boot_forge".to_string()).unwrap_err(),
        "Dependency 'core_engine' of module 'boot_forge' is not loaded. Load dependencies first."
    );
    assert!(core_load_module(&mut registry, "core_engine".to_string()).unwrap().loaded);
    assert!(core_get_module(&registry, "nope".to_string()).unwrap().is_none());
    assert_eq!(
        core_supported_languages().unwrap(),
        vec!["rust", "typescript", "javascript", "python", "go", "c", "cpp", "swift", "kotlin", "java"]
    );
}

#[test]
fn overseer_commands() {
    let mut overseer = BuildOverseer::default();
    assert_eq!(overseer_rolling_score(&overseer, 0).unwrap_err(), "Window must be greater than 0");
    let mut metrics = BuildMetrics::default();
    metrics.coverage_pct = 8000;
    let req = EvaluateRequest { build_id: "b1".to_string(), project: "p".to_string(), metrics };
    let rec = overseer_evaluate(&mut overseer, req).unwrap();
    assert_eq!(rec.grade, Some(BuildGrade::A));
    assert_eq!(rec.stage, BuildStage::Complete);
    assert_eq!(rec.build_id, "b1");
    let score = overseer_rolling_score(&overseer, 5).unwrap();
    assert_eq!((score.numerator, score.denominator), (100, 1));
}

#[test]
fn chat_checks_history_then_temperature() {
    let msg = ChatMessage { role: MessageRole::User, content: "hi".to_string(), timestamp_ms: 1 };
    assert_eq!(ai_chat("s".to_string(), &vec![], true).unwrap_err(), "Message history cannot be empty");
    assert_eq!(ai_chat("s".to_string(), &vec![], false).unwrap_err(), "Message history cannot be empty");
    assert_eq!(
        ai_chat("s".to_string(), &vec![msg.clone()], false).unwrap_err(),
        "Temperature must be between 0.0 and 2.0"
    );
    let r = ai_chat_at("s".to_string(), &vec![msg.clone()], true, 77, 3).unwrap();
    assert_eq!(r.session_id, "s");
    assert_eq!(r.reply.role, MessageRole::Assistant);
    assert_eq!(r.reply.content, "I'm the NATLaB BUILDR26 AI assistant. How can I help?");
    assert_eq!(r.reply.timestamp_ms, 77);
    assert_eq!(r.duration_ms, 3);
    assert_eq!(r.model, "natlab-assistant-v1");
}

#[test]
fn completion_needs_a_prefix() {
    let mut req = CompletionRequest { language: "rust".to_string(), prefix: String::new(), suffix: None, max_tokens: None };
    assert_eq!(ai_complete(&req).unwrap_err(), "Code prefix cannot be empty");
    req.prefix = "fn ".to_string();
    let r = ai_complete(&req).unwrap();
    assert!(r.completions.is_empty());
    assert_eq!(r.model, "natlab-codegen-v1");
}

#[test]
fn logo_generation() {
    let mut prompt = LogoPrompt {
        brand_name: String::new(),
        style: "flat".to_string(),
        colour_palette: vec![],
        aspect_ratio: "1:1".to_string(),
        negative_prompt: None,
        seed: Some(10),
    };
    assert_eq!(logo_generate(&prompt, 2).unwrap_err(), "Brand name cannot be empty");
    prompt.brand_name = "Acme".to_string();
    assert_eq!(logo_generate(&prompt, 0).unwrap_err(), "Variant count must be between 1 and 8");
    assert_eq!(logo_generate(&prompt, 9).unwrap_err(), "Variant count must be between 1 and 8");
    let r = logo_generate(&prompt, 3).unwrap();
    assert_eq!(r.variants.len(), 3);
    let seeds: Vec<u64> = r.variants.iter().map(|v| v.seed).collect();
    assert_eq!(seeds, vec![10, 11, 12]);
    assert!(r.variants.iter().all(|v| v.width == 512 && v.height == 512 && v.variant_id.len() == 36));
    assert_ne!(r.variants[0].variant_id, r.variants[1].variant_id);
    assert_eq!(r.model_used, "stable-diffusion-xl");
    prompt.seed = None;
    assert_eq!(logo_generate(&prompt, 1).unwrap().variants[0].seed, 0);
}

#[test]
fn logo_export_formats() {
    assert_eq!(logo_export(String::new(), "o".to_string(), "png".to_string()).unwrap_err(), "Variant ID cannot be empty");
    assert_eq!(logo_export("v".to_string(), String::new(), "png".to_string()).unwrap_err(), "Output path cannot be empty");
    assert_eq!(
        logo_export("v".to_string(), "o".to_string(), "GIF".to_string()).unwrap_err(),
        "Unsupported format 'GIF'. Supported: [\"png\", \"svg\", \"ico\", \"webp\"]"
    );
    assert_eq!(logo_export("v".to_string(), "/out/logo".to_string(), "SVG".to_string()).unwrap(), "/out/logo");
    assert!(export_format_supported("webp"));
    assert!(!export_format_supported("WEBP"));
}

#[test]
fn repair_commands() {
    let t = RepairTarget { path: String::new(), project_type: "rust".to_string(), deep_scan: false };
    assert_eq!(repair_scan(t).unwrap_err(), "Target path cannot be empty");
    let t = RepairTarget { path: "/p".to_string(), project_type: "rust".to_string(), deep_scan: true };
    let r = repair_scan(t).unwrap();
    assert_eq!(r.target_path, "/p");
    assert_eq!(r.status, "complete");
    assert_eq!(r.issues_found, 0);
    let ids = vec!["a".to_string(), "b".to_string()];
    assert_eq!(repair_apply_fixes(String::new(), &ids).unwrap_err(), "Target path cannot be empty");
    let f = repair_apply_fixes("/p".to_string(), &ids).unwrap();
    assert_eq!((f.issues_found, f.issues_fixed), (2, 2));
    assert_eq!(f.status, "fixed");
}

#[test]
fn bootforge_is_not_available_yet() {
    let mut req = BootForgeRequest {
        source_path: String::new(),
        output_path: "o".to_string(),
        format: MediaFormat::Iso,
        label: "L".to_string(),
        compression: false,
        verify_checksum: false,
    };
    assert_eq!(bootforge_create(&req).unwrap_err(), "Source path cannot be empty");
    req.source_path = "s".to_string();
    req.label = String::new();
    assert_eq!(bootforge_create(&req).unwrap_err(), "Media label cannot be empty");
    req.label = "L".to_string();
    assert_eq!(
        bootforge_create(&req).unwrap_err(),
        "BootForge media creation is not yet implemented. This is a stub endpoint."
    );
    assert_eq!(bootforge_verify(String::new(), None).unwrap_err(), "Image path cannot be empty");
    assert_eq!(
        bootforge_verify("img".to_string(), Some("abc".to_string())).unwrap_err(),
        "BootForge image verification is not yet implemented. This is a stub endpoint."
    );
}

#[test]
fn cloud_commands() {
    assert_eq!(preferences_update_answer(false).unwrap_err(), "Preferences must be a JSON object");
    assert!(preferences_update_answer(true).is_ok());
    assert_eq!(
        cloud_update_preferences(serde_json::Value::Bool(true)).unwrap_err(),
        "Preferences must be a JSON object"
    );
    assert!(cloud_update_preferences(serde_json::Value::Object(serde_json::Map::new())).is_ok());
    assert_eq!(
        cloud_update_preferences(serde_json::Value::Array(Vec::new())).unwrap_err(),
        "Preferences must be a JSON object"
    );
    assert!(cloud_update_preferences(serde_json::Value::Null).is_err());
    let s = cloud_sync_now().unwrap();
    assert!(s.success && s.pushed == 0 && s.pulled == 0 && s.conflicts == 0);
    let st = cloud_sync_status().unwrap();
    assert!(st.last_sync.is_none() && !st.in_progress && st.pending_changes == 0);
}

#[test]
fn docs_commands() {
    let mut req = DocGenRequest {
        project_path: String::new(),
        format: DocFormat::Markdown,
        include_private: false,
        include_examples: true,
        output_path: "docs".to_string(),
        template: None,
    };
    assert_eq!(docs_generate(req.clone()).unwrap_err(), "Project path cannot be empty");
    req.project_path = "/p".to_string();
    req.output_path = String::new();
    assert_eq!(docs_generate(req.clone()).unwrap_err(), "Output path cannot be empty");
    req.output_path = "docs".to_string();
    let r = docs_generate(req).unwrap();
    assert!(r.success);
    assert_eq!(r.output_path, "docs");
    assert_eq!(r.job_id.len(), 36);
    assert_eq!(docs_watch_start(String::new(), "o".to_string()).unwrap_err(), "Project path cannot be empty");
    assert_eq!(docs_watch_start("/p".to_string(), "o".to_string()).unwrap().len(), 36);
    assert_eq!(docs_watch_stop(String::new()).unwrap_err(), "Watcher ID cannot be empty");
    assert!(docs_watch_stop("w".to_string()).is_ok());
}

#[test]
fn plugin_commands() {
    assert!(plugin_list().unwrap().is_empty());
    assert_eq!(plugin_install(String::new()).unwrap_err(), "Manifest path cannot be empty");
    assert_eq!(plugin_install("m.json".to_string()).unwrap_err(), "Plugin installation not yet implemented");
    assert_eq!(plugin_enable(String::new()).unwrap_err(), "Plugin ID cannot be empty");
    assert!(plugin_enable("p".to_string()).is_ok());
    assert_eq!(plugin_disable(String::new()).unwrap_err(), "Plugin ID cannot be empty");
    assert!(plugin_disable("p".to_string()).is_ok());
    assert_eq!(plugin_uninstall(String::new()).unwrap_err(), "Plugin ID cannot be empty");
    assert!(plugin_uninstall("p".to_string()).is_ok());
}
