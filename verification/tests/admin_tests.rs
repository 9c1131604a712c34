use natlab_buildr26::fixed::Ratio;
use natlab_buildr26::admin_audit::{
    diagnose_error, AdminAuditEngine, AdminError, AuditCategory, DependencyStatus, KernelEventType,
    ProcessStatus, ResolutionAction, TaskPriority,
};
use natlab_buildr26::admin_audit::integrations::{
    default_capabilities, AuthMethod, ConnectionStatus, IntegrationEngine, IntegrationPlatform, PlatformCapability,
    PlatformCategory, PlatformConfig, SyncEventType,
};
use natlab_buildr26::admin_audit::runtime_monitor::{
    AiNodeRole, DataSection, MeshTopology, NodeConfig, NodePerformance, NodeStatus, RuntimeMonitor, SectionHealth,
    TuningType,
};
use natlab_buildr26::commands::admin_cmds::{
    admin_get_kernel_events, admin_list_supported_platforms, admin_resolve_audit, admin_update_process,
    ResolveAuditRequest, UpdateProcessRequest,
};

fn dep(name: &str, current: &str, latest: Option<&str>, advisory: bool) -> DependencyStatus {
    DependencyStatus {
        name: name.to_string(),
        current_version: current.to_string(),
        latest_version: latest.map(|s| s.to_string()),
        ecosystem: "cargo".to_string(),
        priority: TaskPriority::Yellow,
        has_security_advisory: advisory,
        last_checked: 0,
        auto_updatable: false,
        update_scheduled: false,
    }
}

fn config() -> NodeConfig {
    NodeConfig {
        max_throughput_ops: 1000,
        memory_budget_mb: 512,
        cpu_affinity: vec![0, 1],
        auto_scale: true,
        tuning_interval_ms: 5000,
        priority: TaskPriority::Yellow,
    }
}

#[test]
fn priority_labels_and_urgency() {
    assert_eq!(TaskPriority::Red.label(), "URGENT");
    assert_eq!(TaskPriority::Orange.label(), "HIGH");
    assert_eq!(TaskPriority::Yellow.label(), "MEDIUM");
    assert_eq!(TaskPriority::Green.label(), "MONITOR");
    assert!(TaskPriority::Red.is_urgent());
    assert!(TaskPriority::Orange.is_urgent());
    assert!(!TaskPriority::Yellow.is_urgent());
    assert!(!TaskPriority::Green.is_urgent());
}

#[test]
fn todo_list_holds_open_entries_red_first() {
    let mut e = AdminAuditEngine::new();
    let g = e.log_audit(AuditCategory::ResearchNote, TaskPriority::Green, "m", "green", None);
    let r = e.log_audit(AuditCategory::SecurityPatch, TaskPriority::Red, "m", "red", None);
    let y = e.log_audit(AuditCategory::SystemHealth, TaskPriority::Yellow, "m", "yellow", Some("d".to_string()));
    let todo: Vec<String> = e.get_todo_list().iter().map(|x| x.message.clone()).collect();
    assert_eq!(todo, vec!["red", "yellow", "green"]);
    let resolved = e.resolve_audit(&r.id, false).unwrap();
    assert!(resolved.resolved && resolved.resolved_at.is_some() && !resolved.auto_resolved);
    let todo: Vec<String> = e.get_todo_list().iter().map(|x| x.message.clone()).collect();
    assert_eq!(todo, vec!["yellow", "green"]);
    let log: Vec<String> = e.get_audit_log(None).iter().map(|x| x.id.clone()).collect();
    assert_eq!(log, vec![y.id.clone(), r.id.clone(), g.id.clone()]);
    assert_eq!(e.get_audit_log(Some(TaskPriority::Green)).len(), 1);
}

#[test]
fn resolving_an_unknown_entry_fails() {
    let mut e = AdminAuditEngine::new();
    match e.resolve_audit("missing", true) {
        Err(err) => {
            assert!(matches!(err, AdminError::AuditNotFound(_)));
            assert_eq!(err.message(), "Audit entry 'missing' not found");
        },
        Ok(_) => panic!("expected an error"),
    }
    let req = ResolveAuditRequest { id: "missing".to_string(), auto_resolved: false };
    assert_eq!(admin_resolve_audit(&mut e, req).unwrap_err(), "Audit entry 'missing' not found");
}

#[test]
fn protected_processes_cannot_be_terminated() {
    let mut e = AdminAuditEngine::new();
    let p = e.allocate_process("kernel-guard", TaskPriority::Red, 256, 2550, true);
    assert_eq!(p.status, ProcessStatus::Running);
    assert_eq!(p.cpu_quota_pct, 2550);
    match e.update_process_status(&p.process_id, ProcessStatus::Terminated) {
        Err(err) => assert_eq!(
            err.message(),
            "Cannot terminate protected process 'kernel-guard'. Remove protection first."
        ),
        Ok(_) => panic!("expected an error"),
    }
    assert_eq!(e.list_processes()[0].status, ProcessStatus::Running);
    assert_eq!(e.update_process_status(&p.process_id, ProcessStatus::Suspended).unwrap().status, ProcessStatus::Suspended);
    let req = UpdateProcessRequest { process_id: "nope".to_string(), status: ProcessStatus::Idle };
    assert_eq!(admin_update_process(&mut e, req).unwrap_err(), "Process 'nope' not found");
    let q = e.allocate_process("worker", TaskPriority::Green, 64, 500, false);
    assert_eq!(e.update_process_status(&q.process_id, ProcessStatus::Terminated).unwrap().status, ProcessStatus::Terminated);
}

#[test]
fn dependencies_are_upserted_by_name() {
    let mut e = AdminAuditEngine::new();
    e.update_dependency(dep("serde", "1.0.0", Some("1.0.1"), false));
    e.update_dependency(dep("tokio", "1.0.0", None, true));
    e.update_dependency(dep("serde", "1.0.1", Some("1.0.1"), false));
    let deps = e.get_dependencies();
    assert_eq!(deps.len(), 2);
    let serde = deps.iter().find(|d| d.name == "serde").unwrap();
    assert_eq!(serde.current_version, "1.0.1");
}

#[test]
fn daily_summary_scores_health() {
    let mut e = AdminAuditEngine::new();
    e.update_dependency(dep("a", "1", Some("2"), true));
    e.update_dependency(dep("b", "1", Some("1"), false));
    e.log_audit(AuditCategory::BuildFailure, TaskPriority::Red, "m", "x", None);
    e.log_audit(AuditCategory::BuildFailure, TaskPriority::Orange, "m", "y", None);
    let s = e.generate_daily_summary();
    assert_eq!(s.total_dependencies, 2);
    assert_eq!(s.outdated_count, 1);
    assert_eq!(s.security_alerts, 1);
    assert_eq!(s.tasks_by_priority.red, 1);
    assert_eq!(s.tasks_by_priority.orange, 1);
    assert_eq!(s.system_health_score, 5000);
    assert_eq!(e.get_daily_summaries(30).len(), 1);
}

#[test]
fn kernel_events_are_audited() {
    let mut e = AdminAuditEngine::new();
    let ev = e.log_kernel_event(KernelEventType::UnauthorizedAccess, "net", TaskPriority::Red, "probe", "blocked", true);
    assert!(ev.blocked);
    let log = e.get_audit_log(None);
    assert_eq!(log.len(), 1);
    assert_eq!(log[0].category, AuditCategory::KernelProtection);
    assert_eq!(log[0].severity, TaskPriority::Red);
    assert_eq!(admin_get_kernel_events(&e, None).len(), 1);
}

#[test]
fn errors_are_diagnosed() {
    assert_eq!(diagnose_error("x", "Package is OUTDATED").1, ResolutionAction::AutoFixed);
    assert_eq!(diagnose_error("network", "boom").1, ResolutionAction::Retry);
    assert_eq!(diagnose_error("x", "Permission denied").1, ResolutionAction::Escalated);
    assert_eq!(diagnose_error("x", "compile failed").1, ResolutionAction::Researching);
    assert_eq!(diagnose_error("x", "weird").0, "Unknown error pattern. Deferred for manual analysis.");
    let mut e = AdminAuditEngine::new();
    let fixed = e.handle_error("deps", "dependency", "old crate");
    assert!(fixed.resolved);
    assert!(e.get_audit_log(None).is_empty());
    let escalated = e.handle_error("api", "x", "Unauthorized call");
    assert!(!escalated.resolved);
    let log = e.get_audit_log(None);
    assert_eq!(log.len(), 1);
    assert_eq!(log[0].severity, TaskPriority::Red);
    assert_eq!(log[0].message, "Auto-error response: Unauthorized call");
    assert_eq!(e.get_error_responses(10).len(), 2);
}

#[test]
fn node_heartbeats_classify_load() {
    let mut m = RuntimeMonitor::new();
    let n = m.deploy_node("router", AiNodeRole::DataRouter, DataSection::BuildPipeline, config());
    assert_eq!(n.status, NodeStatus::Active);
    assert_eq!(m.get_deployment().total_nodes, 1);
    let mut perf = NodePerformance::default();
    perf.cpu_usage_pct = 9500;
    assert_eq!(m.update_node_performance(&n.node_id, perf).unwrap().status, NodeStatus::Overloaded);
    perf.cpu_usage_pct = 100;
    assert_eq!(m.update_node_performance(&n.node_id, perf).unwrap().status, NodeStatus::Idle);
    perf.queue_depth = 3;
    assert_eq!(m.update_node_performance(&n.node_id, perf).unwrap().status, NodeStatus::Active);
    assert!(m.update_node_performance("missing", perf).is_none());
}

#[test]
fn deploy_then_remove_restores_the_mesh() {
    let mut m = RuntimeMonitor::new();
    let a = m.deploy_node("a", AiNodeRole::HealthMonitor, DataSection::AuditTrail, config());
    let before: Vec<String> = m.get_nodes().iter().map(|n| n.node_id.clone()).collect();
    let b = m.deploy_node("b", AiNodeRole::SecurityScanner, DataSection::SecurityInfra, config());
    assert_eq!(m.get_nodes().len(), 2);
    assert!(m.remove_node(&b.node_id));
    let after: Vec<String> = m.get_nodes().iter().map(|n| n.node_id.clone()).collect();
    assert_eq!(before, after);
    assert!(!m.remove_node(&b.node_id));
    assert!(m.remove_node(&a.node_id));
    assert_eq!(m.get_deployment().total_nodes, 0);
}

#[test]
fn mesh_health_weights_availability() {
    let mut m = RuntimeMonitor::new();
    assert_eq!(m.compute_mesh_health(), Ratio { numerator: 100, denominator: 1 });
    let n = m.deploy_node("a", AiNodeRole::DataRouter, DataSection::BuildPipeline, config());
    assert_eq!(m.compute_mesh_health(), Ratio { numerator: 1_000_000, denominator: 10_000 });
    let mut perf = NodePerformance::default();
    perf.cpu_usage_pct = 9500;
    m.update_node_performance(&n.node_id, perf);
    assert_eq!(m.compute_mesh_health(), Ratio { numerator: 200_000, denominator: 10_000 });
    assert_eq!(m.get_deployment().health_score, Ratio { numerator: 200_000, denominator: 10_000 });
    let mut idle = NodePerformance::default();
    idle.error_rate_pct = 1;
    m.update_node_performance(&n.node_id, idle);
    let h = m.compute_mesh_health();
    assert_eq!(h, Ratio { numerator: 999_980, denominator: 10_000 });
    assert_eq!(h.numerator as f64 / h.denominator as f64, 99.998);
}

#[test]
fn auto_tune_scales_slow_nodes() {
    let mut m = RuntimeMonitor::new();
    let n = m.deploy_node("a", AiNodeRole::PerformanceTuner, DataSection::PerformanceMetrics, config());
    let mut perf = NodePerformance::default();
    perf.avg_latency_ms = 15000;
    perf.queue_depth = 1;
    m.update_node_performance(&n.node_id, perf);
    let actions = m.auto_tune();
    assert_eq!(actions.len(), 1);
    assert_eq!(actions[0].action_type, TuningType::ScaleUp);
    assert_eq!(actions[0].old_value, "1000");
    assert_eq!(actions[0].new_value, "2000");
    assert_eq!(actions[0].reason, "Avg latency 150.0ms exceeds 100ms threshold");
    assert_eq!(actions[0].impact_score, Ratio { numerator: 15000, denominator: 10000 });
    assert_eq!(m.get_tuning_history(10).len(), 1);
}

#[test]
fn integration_platform_names_and_categories() {
    assert_eq!(IntegrationPlatform::all().len(), 12);
    assert_eq!(IntegrationPlatform::PyCharm.display_name(), "JetBrains PyCharm");
    assert_eq!(IntegrationPlatform::Qodana.category(), PlatformCategory::QualityAnalysis);
    assert_eq!(IntegrationPlatform::GoogleAiStudio.category(), PlatformCategory::AiPlatform);
    assert_eq!(IntegrationPlatform::VsCode.category(), PlatformCategory::Ide);
    assert!(default_capabilities(&IntegrationPlatform::Qodana).contains(&PlatformCapability::CodeAnalysis));
}

#[test]
fn sync_needs_a_connected_platform() {
    let mut e = IntegrationEngine::new();
    let cfg = PlatformConfig {
        auto_sync: true,
        sync_interval_secs: 60,
        max_retries: 3,
        timeout_ms: 1000,
        priority: TaskPriority::Green,
        enabled_features: vec![],
    };
    let c = e.register_platform(IntegrationPlatform::VsCode, "http://localhost", AuthMethod::Token, cfg);
    assert_eq!(c.status, ConnectionStatus::Disconnected);
    assert!(e.sync_platform(&c.connection_id, SyncEventType::Push).is_err());
    assert_eq!(e.connect(&c.connection_id).unwrap().status, ConnectionStatus::Connected);
    let ev = e.sync_platform(&c.connection_id, SyncEventType::Push).unwrap();
    assert!(ev.success);
    assert_eq!(ev.platform, IntegrationPlatform::VsCode);
    e.disconnect(&c.connection_id).unwrap();
    assert!(e.sync_platform(&c.connection_id, SyncEventType::Pull).is_err());
    assert_eq!(e.connect("missing").unwrap_err(), "Connection 'missing' not found");
    assert_eq!(e.get_sync_history(None, 50).len(), 1);
    assert!(e.remove_platform(&c.connection_id));
    assert!(e.list_connections().is_empty());
}

#[test]
fn sections_keep_their_flows_and_health() {
    let mut m = RuntimeMonitor::new();
    m.deploy_node("a", AiNodeRole::DataRouter, DataSection::AuditTrail, config());
    m.deploy_node("b", AiNodeRole::DataRouter, DataSection::SystemConfig, config());
    assert_eq!(m.get_nodes_by_section(&DataSection::AuditTrail).len(), 1);
    let f1 = m.record_data_flow(DataSection::AuditTrail, DataSection::SystemConfig, 10, 1250, true, "a");
    assert_eq!(f1.latency_ms, 1250);
    m.record_data_flow(DataSection::UserProfiles, DataSection::PluginRegistry, 20, 100, false, "b");
    m.record_data_flow(DataSection::SystemConfig, DataSection::AuditTrail, 30, 100, true, "c");
    let flows = m.get_section_flows(&DataSection::AuditTrail, 10);
    let sizes: Vec<u64> = flows.iter().map(|f| f.payload_size_bytes).collect();
    assert_eq!(sizes, vec![30, 10]);
    assert_eq!(m.get_section_flows(&DataSection::AuditTrail, 1).len(), 1);
    let h = SectionHealth {
        section: DataSection::AuditTrail,
        throughput_ops: 100,
        avg_latency_ms: 200,
        error_rate_pct: 0,
        storage_used_mb: 300,
        assigned_nodes: vec![],
        last_updated: 0,
    };
    m.update_section_health(h.clone());
    let mut h2 = h;
    h2.throughput_ops = 999;
    m.update_section_health(h2);
    let all = m.get_all_section_health();
    assert_eq!(all.len(), 1);
    assert_eq!(all[0].throughput_ops, 999);
    m.set_topology(MeshTopology::Ring);
    assert_eq!(m.get_deployment().topology, MeshTopology::Ring);
}

#[test]
fn auto_tune_is_refused_only_on_overflowing_budgets() {
    let mut m = RuntimeMonitor::new();
    assert!(m.can_auto_tune());
    let mut cfg = config();
    cfg.max_throughput_ops = u64::MAX;
    let n = m.deploy_node("a", AiNodeRole::DataRouter, DataSection::AuditTrail, cfg);
    assert!(m.can_auto_tune());
    let mut perf = NodePerformance::default();
    perf.avg_latency_ms = 20000;
    m.update_node_performance(&n.node_id, perf);
    assert!(!m.can_auto_tune());
}

#[test]
fn connection_health_follows_recent_syncs() {
    let mut e = IntegrationEngine::new();
    let cfg = PlatformConfig {
        auto_sync: false,
        sync_interval_secs: 60,
        max_retries: 3,
        timeout_ms: 1000,
        priority: TaskPriority::Green,
        enabled_features: vec![],
    };
    let c = e.register_platform(IntegrationPlatform::Qodana, "https://q", AuthMethod::ApiKey, cfg);
    assert_eq!(e.update_health(&c.connection_id), Some(Ratio { numerator: 100, denominator: 1 }));
    e.connect(&c.connection_id).unwrap();
    e.sync_platform(&c.connection_id, SyncEventType::FullSync).unwrap();
    assert_eq!(e.update_health(&c.connection_id), Some(Ratio { numerator: 100, denominator: 1 }));
    assert_eq!(e.update_health("missing"), None);
    assert_eq!(e.get_by_category(PlatformCategory::QualityAnalysis).len(), 1);
    assert_eq!(e.get_by_category(PlatformCategory::Ide).len(), 0);
}

#[test]
fn supported_platforms_are_listed_with_names() {
    let all = admin_list_supported_platforms();
    assert_eq!(all.len(), 12);
    assert_eq!(all[0].0, IntegrationPlatform::PyCharm);
    assert_eq!(all[0].1, "JetBrains PyCharm");
    assert_eq!(all[0].2, PlatformCategory::Ide);
}

#[test]
fn memory_reason_prints_as_the_float_does() {
    let mut m = RuntimeMonitor::new();
    let mut cfg = config();
    cfg.memory_budget_mb = 200;
    cfg.auto_scale = false;
    let n = m.deploy_node("a", AiNodeRole::DataRouter, DataSection::AuditTrail, cfg);
    let mut perf = NodePerformance::default();
    perf.memory_used_mb = 17300;
    perf.queue_depth = 1;
    m.update_node_performance(&n.node_id, perf);
    let actions = m.auto_tune();
    assert_eq!(actions.len(), 1);
    assert_eq!(actions[0].action_type, TuningType::MemoryRealloc);
    assert_eq!(actions[0].reason, "Memory usage 173.0MB at 86% of budget");
    assert_eq!(actions[0].new_value, "300");
}
