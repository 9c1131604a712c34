//! Admin commands: the requests of the internal audit, process, kernel,
//! mesh and integration consoles, and the defaults they apply.

use vstd::prelude::*;
use crate::clock::uuid_v4_text;
use crate::fixed::{Centi, Ratio};
use crate::history::{first_index, keep, latest};
use crate::text::lowercase_of;
use crate::admin_audit::{
    audit_id_is, error_audit_follows, is_error_response, is_kernel_event, is_new_entry, is_new_process,
    kernel_audit_follows, opt_chars, process_id_is, AdminAuditEngine, AuditCategory, AuditEntry,
    DailySummary, ErrorResponse, KernelEventType, KernelProtectionEvent, ProcessAllocation, ProcessStatus,
    TaskPriority, MAX_AUDIT_ENTRIES, MAX_ERROR_RESPONSES, MAX_KERNEL_EVENTS,
};
use crate::admin_audit::runtime_monitor::{
    is_flow, is_new_node, node_id_is, recounted, status_for, upsert_node, AiNode, AiNodeRole, AiNodeView,
    DataFlowRecord, DataSection, NodeConfig, NodePerformance, NodeStatus, RuntimeMonitor, TuningAction,
    TuningType, MAX_DATA_FLOWS, MAX_TUNING_HISTORY,
};
use crate::admin_audit::integrations::{
    all_platforms, connection_id_is, event_filter, is_new_connection, is_sync_event, not_connected_message,
    not_found_message, upsert_connection, AuthMethod, ConnectionStatus, ConnectionView, IntegrationEngine,
    IntegrationPlatform, PlatformCategory, PlatformConfig, PlatformConnection, SyncEvent, SyncEventType,
    MAX_SYNC_HISTORY,
};

verus! {

// ── Requests ─────────────────────────────────────────────────────────────────

pub struct LogAuditRequest {
    pub category: AuditCategory,
    pub severity: TaskPriority,
    pub source_module: String,
    pub message: String,
    pub details: Option<String>,
}

pub struct ResolveAuditRequest {
    pub id: String,
    pub auto_resolved: bool,
}

pub struct HandleErrorRequest {
    pub error_source: String,
    pub error_type: String,
    pub message: String,
}

pub struct AllocateProcessRequest {
    pub name: String,
    pub priority: TaskPriority,
    pub memory_limit_mb: u64,
    /// CPU quota in hundredths of a percent.
    pub cpu_quota_pct: Centi,
    pub protected: bool,
}

pub struct UpdateProcessRequest {
    pub process_id: String,
    pub status: ProcessStatus,
}

pub struct KernelEventRequest {
    pub event_type: KernelEventType,
    pub source: String,
    pub threat_level: TaskPriority,
    pub description: String,
    pub action_taken: String,
    pub blocked: bool,
}

pub struct DeployNodeRequest {
    pub name: String,
    pub role: AiNodeRole,
    pub section: DataSection,
    pub config: NodeConfig,
}

pub struct UpdateNodePerfRequest {
    pub node_id: String,
    pub performance: NodePerformance,
}

pub struct ApplyTuningRequest {
    pub target_node: String,
    pub action_type: TuningType,
    pub parameter: String,
    pub old_value: String,
    pub new_value: String,
    pub reason: String,
}

pub struct RecordDataFlowRequest {
    pub source: DataSection,
    pub target: DataSection,
    pub payload_size_bytes: u64,
    /// Latency in hundredths of a millisecond.
    pub latency_ms: Centi,
    pub success: bool,
    pub routed_via: String,
}

pub struct RegisterPlatformRequest {
    pub platform: IntegrationPlatform,
    pub endpoint: String,
    pub auth_method: AuthMethod,
    pub config: PlatformConfig,
}

pub struct SyncPlatformRequest {
    pub connection_id: String,
    pub event_type: SyncEventType,
}

/// How many daily summaries are listed when no count is given.
pub const DEFAULT_SUMMARY_COUNT: usize = 30;

/// How many recent records are listed when no limit is given.
pub const DEFAULT_LIST_LIMIT: usize = 50;

/// A requested count, or the default.
pub open spec fn count_or(o: Option<usize>, default: usize) -> nat {
    match o {
        Some(n) => n as nat,
        None => default as nat,
    }
}

fn unwrap_count(o: Option<usize>, default: usize) -> (n: usize)
    ensures
        n == count_or(o, default),
{
    match o {
        Some(n) => n,
        None => default,
    }
}

// ── Audit trail ──────────────────────────────────────────────────────────────

/// Logs an audit entry from a request.
pub fn admin_log_audit(engine: &mut AdminAuditEngine, request: LogAuditRequest) -> (e: AuditEntry)
    requires
        old(engine).wf(),
    ensures
        final(engine).wf(),
        is_new_entry(e, e.id@, e.timestamp, request.category, request.severity, request.source_module@,
            request.message@, opt_chars(request.details)),
        uuid_v4_text(e.id@),
        final(engine).audit_log() == crate::history::bounded_push(old(engine).audit_log(), e, MAX_AUDIT_ENTRIES as nat),
        final(engine).dependencies() == old(engine).dependencies(),
        final(engine).daily_summaries() == old(engine).daily_summaries(),
        final(engine).processes() == old(engine).processes(),
        final(engine).kernel_events() == old(engine).kernel_events(),
        final(engine).error_responses() == old(engine).error_responses(),
{
    engine.log_audit(request.category, request.severity, request.source_module.as_str(), request.message.as_str(),
        request.details)
}

/// Resolves an audit entry; an unknown id is answered with its message.
pub fn admin_resolve_audit(engine: &mut AdminAuditEngine, request: ResolveAuditRequest) -> (r: Result<AuditEntry, String>)
    requires
        old(engine).wf(),
    ensures
        final(engine).wf(),
        ({
            let i = first_index(old(engine).audit_log(), audit_id_is(request.id@));
            match r {
                Ok(e) => {
                    &&& i >= 0
                    &&& e.resolved_at is Some
                    &&& e == (AuditEntry {
                        resolved: true,
                        resolved_at: e.resolved_at,
                        auto_resolved: request.auto_resolved,
                        ..old(engine).audit_log()[i]
                    })
                    &&& final(engine).audit_log() == old(engine).audit_log().update(i, e)
                },
                Err(m) => {
                    &&& i < 0
                    &&& m@ == "Audit entry '"@ + request.id@ + "' not found"@
                    &&& final(engine).audit_log() == old(engine).audit_log()
                },
            }
        }),
        final(engine).dependencies() == old(engine).dependencies(),
        final(engine).daily_summaries() == old(engine).daily_summaries(),
        final(engine).processes() == old(engine).processes(),
        final(engine).kernel_events() == old(engine).kernel_events(),
        final(engine).error_responses() == old(engine).error_responses(),
{
    match engine.resolve_audit(request.id.as_str(), request.auto_resolved) {
        Ok(e) => Ok(e),
        Err(err) => Err(err.message()),
    }
}

/// The most recent daily summaries, newest first: `count` of them, 30 by default.
pub fn admin_get_daily_summaries(engine: &AdminAuditEngine, count: Option<usize>) -> (r: Vec<DailySummary>)
    ensures
        r@ == latest(engine.daily_summaries(), count_or(count, DEFAULT_SUMMARY_COUNT)),
{
    engine.get_daily_summaries(unwrap_count(count, DEFAULT_SUMMARY_COUNT))
}

/// Answers an error through the automated response engine.
pub fn admin_handle_error(engine: &mut AdminAuditEngine, request: HandleErrorRequest) -> (r: ErrorResponse)
    requires
        old(engine).wf(),
    ensures
        final(engine).wf(),
        is_error_response(r, r.id@, r.timestamp, r.resolution_duration_ms, request.error_source@,
            request.error_type@, request.message@, lowercase_of(request.message@)),
        uuid_v4_text(r.id@),
        r.timestamp >= 0,
        final(engine).error_responses() == crate::history::bounded_push(old(engine).error_responses(), r,
            MAX_ERROR_RESPONSES as nat),
        exists|audit_id: Seq<char>, audit_at: i64|
            error_audit_follows(old(engine).audit_log(), final(engine).audit_log(), r, audit_id, audit_at),
        final(engine).dependencies() == old(engine).dependencies(),
        final(engine).daily_summaries() == old(engine).daily_summaries(),
        final(engine).processes() == old(engine).processes(),
        final(engine).kernel_events() == old(engine).kernel_events(),
{
    engine.handle_error(request.error_source.as_str(), request.error_type.as_str(), request.message.as_str())
}

/// The most recent error responses, newest first: `limit` of them, 50 by default.
pub fn admin_get_error_responses(engine: &AdminAuditEngine, limit: Option<usize>) -> (r: Vec<ErrorResponse>)
    ensures
        r@ == latest(engine.error_responses(), count_or(limit, DEFAULT_LIST_LIMIT)),
{
    engine.get_error_responses(unwrap_count(limit, DEFAULT_LIST_LIMIT))
}

// ── Processes ────────────────────────────────────────────────────────────────

/// Allocates a process from a request.
pub fn admin_allocate_process(engine: &mut AdminAuditEngine, request: AllocateProcessRequest) -> (p: ProcessAllocation)
    requires
        old(engine).wf(),
    ensures
        final(engine).wf(),
        is_new_process(p, p.process_id@, p.allocated_at, request.name@, request.priority, request.memory_limit_mb,
            request.cpu_quota_pct, request.protected),
        uuid_v4_text(p.process_id@),
        final(engine).processes() == old(engine).processes().push(p),
        final(engine).audit_log() == old(engine).audit_log(),
        final(engine).dependencies() == old(engine).dependencies(),
        final(engine).daily_summaries() == old(engine).daily_summaries(),
        final(engine).kernel_events() == old(engine).kernel_events(),
        final(engine).error_responses() == old(engine).error_responses(),
{
    engine.allocate_process(request.name.as_str(), request.priority, request.memory_limit_mb, request.cpu_quota_pct,
        request.protected)
}

/// Changes a process's status; a refusal is answered with its message.
pub fn admin_update_process(engine: &mut AdminAuditEngine, request: UpdateProcessRequest) -> (r: Result<ProcessAllocation, String>)
    requires
        old(engine).wf(),
    ensures
        final(engine).wf(),
        ({
            let i = first_index(old(engine).processes(), process_id_is(request.process_id@));
            match r {
                Ok(p) => {
                    &&& i >= 0
                    &&& !(old(engine).processes()[i].protected && request.status == ProcessStatus::Terminated)
                    &&& p == (ProcessAllocation { status: request.status, ..old(engine).processes()[i] })
                    &&& final(engine).processes() == old(engine).processes().update(i, p)
                },
                Err(m) => {
                    &&& final(engine).processes() == old(engine).processes()
                    &&& if i < 0 {
                        m@ == "Process '"@ + request.process_id@ + "' not found"@
                    } else {
                        &&& old(engine).processes()[i].protected
                        &&& request.status == ProcessStatus::Terminated
                        &&& m@ == "Cannot terminate protected process '"@ + old(engine).processes()[i].name@
                            + "'. Remove protection first."@
                    }
                },
            }
        }),
        final(engine).audit_log() == old(engine).audit_log(),
        final(engine).dependencies() == old(engine).dependencies(),
        final(engine).daily_summaries() == old(engine).daily_summaries(),
        final(engine).kernel_events() == old(engine).kernel_events(),
        final(engine).error_responses() == old(engine).error_responses(),
{
    match engine.update_process_status(request.process_id.as_str(), request.status) {
        Ok(p) => Ok(p),
        Err(err) => Err(err.message()),
    }
}

// ── Kernel protection ────────────────────────────────────────────────────────

/// Logs a kernel protection event from a request.
pub fn admin_log_kernel_event(engine: &mut AdminAuditEngine, request: KernelEventRequest) -> (e: KernelProtectionEvent)
    requires
        old(engine).wf(),
    ensures
        final(engine).wf(),
        is_kernel_event(e, e.id@, e.timestamp, request.event_type, request.source@, request.threat_level,
            request.description@, request.action_taken@, request.blocked),
        final(engine).kernel_events() == crate::history::bounded_push(old(engine).kernel_events(), e,
            MAX_KERNEL_EVENTS as nat),
        exists|audit_id: Seq<char>, audit_at: i64|
            kernel_audit_follows(old(engine).audit_log(), final(engine).audit_log(), e, audit_id, audit_at),
        final(engine).dependencies() == old(engine).dependencies(),
        final(engine).daily_summaries() == old(engine).daily_summaries(),
        final(engine).processes() == old(engine).processes(),
        final(engine).error_responses() == old(engine).error_responses(),
{
    engine.log_kernel_event(request.event_type, request.source.as_str(), request.threat_level,
        request.description.as_str(), request.action_taken.as_str(), request.blocked)
}

/// The most recent kernel events, newest first: `limit` of them, 50 by default.
pub fn admin_get_kernel_events(engine: &AdminAuditEngine, limit: Option<usize>) -> (r: Vec<KernelProtectionEvent>)
    ensures
        r@ == latest(engine.kernel_events(), count_or(limit, DEFAULT_LIST_LIMIT)),
{
    engine.get_kernel_events(unwrap_count(limit, DEFAULT_LIST_LIMIT))
}

// ── Runtime mesh ─────────────────────────────────────────────────────────────

/// Deploys a node from a request.
pub fn admin_deploy_node(monitor: &mut RuntimeMonitor, request: DeployNodeRequest) -> (n: AiNode)
    requires
        old(monitor).wf(),
    ensures
        final(monitor).wf(),
        is_new_node(n@, n.node_id@, n.deployed_at, request.name@, request.role, request.section, request.config@),
        uuid_v4_text(n.node_id@),
        final(monitor).nodes() == upsert_node(old(monitor).nodes(), n@),
        final(monitor).deployment() == recounted(old(monitor).deployment(), final(monitor).nodes(), n.deployed_at),
        final(monitor).tuning_history() == old(monitor).tuning_history(),
        final(monitor).data_flows() == old(monitor).data_flows(),
        final(monitor).section_health() == old(monitor).section_health(),
{
    monitor.deploy_node(request.name.as_str(), request.role, request.section, request.config)
}

/// Records a node's heartbeat from a request.
pub fn admin_update_node_perf(monitor: &mut RuntimeMonitor, request: UpdateNodePerfRequest) -> (r: Option<AiNode>)
    requires
        old(monitor).wf(),
    ensures
        final(monitor).wf(),
        ({
            let i = first_index(old(monitor).nodes(), node_id_is(request.node_id@));
            match r {
                Some(n) => {
                    &&& i >= 0
                    &&& n@ == (AiNodeView {
                        performance: request.performance,
                        last_heartbeat: n.last_heartbeat,
                        status: status_for(request.performance),
                        ..old(monitor).nodes()[i]
                    })
                    &&& final(monitor).nodes() == old(monitor).nodes().update(i, n@)
                },
                None => i < 0 && final(monitor).nodes() == old(monitor).nodes(),
            }
        }),
        final(monitor).deployment() == old(monitor).deployment(),
        final(monitor).tuning_history() == old(monitor).tuning_history(),
        final(monitor).data_flows() == old(monitor).data_flows(),
        final(monitor).section_health() == old(monitor).section_health(),
{
    monitor.update_node_performance(request.node_id.as_str(), request.performance)
}

/// Applies a tuning action from a request.
pub fn admin_apply_tuning(monitor: &mut RuntimeMonitor, request: ApplyTuningRequest) -> (a: TuningAction)
    requires
        old(monitor).wf(),
    ensures
        final(monitor).wf(),
        uuid_v4_text(a.id@),
        a.target_node@ == request.target_node@,
        a.action_type == request.action_type,
        a.parameter@ == request.parameter@,
        a.old_value@ == request.old_value@,
        a.new_value@ == request.new_value@,
        a.reason@ == request.reason@,
        a.impact_score == (Ratio { numerator: 0, denominator: 1 }),
        ({
            let i = first_index(old(monitor).nodes(), node_id_is(request.target_node@));
            let n = old(monitor).nodes()[i];
            if i >= 0 {
                exists|tuned_at: i64| final(monitor).nodes() == old(monitor).nodes().update(i, AiNodeView {
                    status: NodeStatus::Tuning,
                    performance: NodePerformance { last_tuned: Some(tuned_at), ..n.performance },
                    ..n
                })
            } else {
                final(monitor).nodes() == old(monitor).nodes()
            }
        }),
        final(monitor).tuning_history() == crate::history::bounded_push(old(monitor).tuning_history(), a,
            MAX_TUNING_HISTORY as nat),
        final(monitor).deployment() == old(monitor).deployment(),
        final(monitor).data_flows() == old(monitor).data_flows(),
        final(monitor).section_health() == old(monitor).section_health(),
{
    monitor.apply_tuning(request.target_node.as_str(), request.action_type, request.parameter.as_str(),
        request.old_value.as_str(), request.new_value.as_str(), request.reason.as_str())
}

/// The most recent tuning actions, newest first: `limit` of them, 50 by default.
pub fn admin_get_tuning_history(monitor: &RuntimeMonitor, limit: Option<usize>) -> (r: Vec<TuningAction>)
    ensures
        r@ == latest(monitor.tuning_history(), count_or(limit, DEFAULT_LIST_LIMIT)),
{
    monitor.get_tuning_history(unwrap_count(limit, DEFAULT_LIST_LIMIT))
}

/// Records a data flow from a request.
pub fn admin_record_data_flow(monitor: &mut RuntimeMonitor, request: RecordDataFlowRequest) -> (r: DataFlowRecord)
    requires
        old(monitor).wf(),
    ensures
        final(monitor).wf(),
        is_flow(r, r.id@, r.timestamp, request.source, request.target, request.payload_size_bytes,
            request.latency_ms, request.success, request.routed_via@),
        uuid_v4_text(r.id@),
        final(monitor).data_flows() == crate::history::bounded_push(old(monitor).data_flows(), r,
            MAX_DATA_FLOWS as nat),
        final(monitor).nodes() == old(monitor).nodes(),
        final(monitor).deployment() == old(monitor).deployment(),
        final(monitor).tuning_history() == old(monitor).tuning_history(),
        final(monitor).section_health() == old(monitor).section_health(),
{
    monitor.record_data_flow(request.source, request.target, request.payload_size_bytes, request.latency_ms,
        request.success, request.routed_via.as_str())
}

// ── Integrations ─────────────────────────────────────────────────────────────

/// Registers a platform integration from a request.
pub fn admin_register_platform(engine: &mut IntegrationEngine, request: RegisterPlatformRequest) -> (c: PlatformConnection)
    requires
        old(engine).wf(),
    ensures
        final(engine).wf(),
        is_new_connection(c@, c.connection_id@, request.platform, request.endpoint@, request.auth_method,
            request.config@),
        uuid_v4_text(c.connection_id@),
        final(engine).connections() == upsert_connection(old(engine).connections(), c@),
        final(engine).sync_history() == old(engine).sync_history(),
{
    engine.register_platform(request.platform, request.endpoint.as_str(), request.auth_method, request.config)
}

/// Syncs a connected platform from a request.
pub fn admin_sync_platform(engine: &mut IntegrationEngine, request: SyncPlatformRequest) -> (r: Result<SyncEvent, String>)
    requires
        old(engine).wf(),
    ensures
        final(engine).wf(),
        ({
            let i = first_index(old(engine).connections(), connection_id_is(request.connection_id@));
            let c = old(engine).connections()[i];
            match r {
                Ok(e) => {
                    &&& i >= 0
                    &&& c.status == ConnectionStatus::Connected
                    &&& is_sync_event(e, e.id@, e.timestamp, c.platform, request.event_type, e.duration_ms)
                    &&& uuid_v4_text(e.id@)
                    &&& exists|synced_at: i64| final(engine).connections() == old(engine).connections().update(i,
                        ConnectionView { status: ConnectionStatus::Connected, last_sync: Some(synced_at), ..c })
                    &&& final(engine).sync_history() == crate::history::bounded_push(old(engine).sync_history(), e,
                        MAX_SYNC_HISTORY as nat)
                },
                Err(m) => {
                    &&& final(engine).connections() == old(engine).connections()
                    &&& final(engine).sync_history() == old(engine).sync_history()
                    &&& if i < 0 {
                        m@ == not_found_message(request.connection_id@)
                    } else {
                        c.status != ConnectionStatus::Connected && m@ == not_connected_message(c)
                    }
                },
            }
        }),
{
    engine.sync_platform(request.connection_id.as_str(), request.event_type)
}

/// The most recent sync events, of one platform or of all, newest first:
/// `limit` of them, 50 by default.
pub fn admin_get_sync_history(
    engine: &IntegrationEngine,
    platform: Option<IntegrationPlatform>,
    limit: Option<usize>,
) -> (r: Vec<SyncEvent>)
    ensures
        r@ == latest(keep(engine.sync_history(), event_filter(platform)), count_or(limit, DEFAULT_LIST_LIMIT)),
{
    engine.get_sync_history(platform, unwrap_count(limit, DEFAULT_LIST_LIMIT))
}

/// Every supported platform with its display name and category, in the
/// order `IntegrationPlatform::all` lists them.
pub fn admin_list_supported_platforms() -> (r: Vec<(IntegrationPlatform, &'static str, PlatformCategory)>)
    ensures
        r@.len() == all_platforms().len(),
        forall|i: int| 0 <= i < r@.len() ==> {
            let (p, name, category) = #[trigger] r@[i];
            &&& p == all_platforms()[i]
            &&& name@ == p.spec_display_name()
            &&& category == p.spec_category()
        },
{
    let all = IntegrationPlatform::all();
    let mut r: Vec<(IntegrationPlatform, &'static str, PlatformCategory)> = Vec::new();
    let mut i: usize = 0;
    while i < all.len()
        invariant
            all@ == all_platforms(),
            i <= all@.len(),
            r@.len() == i,
            forall|k: int| 0 <= k < i ==> {
                let (p, name, category) = #[trigger] r@[k];
                &&& p == all_platforms()[k]
                &&& name@ == p.spec_display_name()
                &&& category == p.spec_category()
            },
        decreases all@.len() - i,
    {
        let p = all[i];
        r.push((p, p.display_name(), p.category()));
        i = i + 1;
    }
    r
}

} // verus!
