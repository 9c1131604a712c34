//! Runtime monitoring of the AI agent mesh: node deployment, heartbeat
//! classification, performance tuning, sectional data flows and scaling
//! advice.

use vstd::prelude::*;
use crate::clock::{new_id, now_millis, uuid_v4_text};
use crate::fixed::{
    Centi, Ratio, decimal, centi_one, centi_two, decimal_string, decimal_string_wide, push_decimal,
    push_centi_one, push_centi_two, printed_percent, printed_percent_exec,
};
use crate::history::{
    Duplicate, bounded_push, bounded_push_all, latest, push_back_bounded, latest_first, latest_first_of,
    keep, first_index,
    lemma_keep_step, lemma_keep_len, lemma_first_index, lemma_first_index_found, lemma_first_index_bound,
    lemma_bounded_push_len, lemma_bounded_push_all_keeps_last, lemma_latest_last_n, duplicate_all,
};
use crate::text::str_eq;
use std::collections::VecDeque;
use super::TaskPriority;

verus! {

// ── AI node identity ─────────────────────────────────────────────────────────

#[derive(Debug, Clone, Copy, PartialEq, Eq, Structural)]
pub enum AiNodeRole {
    /// Monitors system health metrics
    HealthMonitor,
    /// Tunes performance parameters in real-time
    PerformanceTuner,
    /// Manages dependency updates and validation
    DependencyManager,
    /// Handles security scanning and threat detection
    SecurityScanner,
    /// Orchestrates build pipeline stages
    BuildOrchestrator,
    /// Manages data flow between sections
    DataRouter,
    /// Coordinates other AI nodes
    MeshCoordinator,
}

#[derive(Debug, Clone, Copy, PartialEq, Eq, Structural)]
pub enum NodeStatus {
    Active,
    Idle,
    Tuning,
    Overloaded,
    Recovering,
    Offline,
}

#[derive(Debug, Clone)]
pub struct NodeConfig {
    pub max_throughput_ops: u64,
    pub memory_budget_mb: u64,
    pub cpu_affinity: Vec<u32>,
    pub auto_scale: bool,
    pub tuning_interval_ms: u64,
    pub priority: TaskPriority,
}

pub struct NodeConfigView {
    pub max_throughput_ops: u64,
    pub memory_budget_mb: u64,
    pub cpu_affinity: Seq<u32>,
    pub auto_scale: bool,
    pub tuning_interval_ms: u64,
    pub priority: TaskPriority,
}

impl View for NodeConfig {
    type V = NodeConfigView;

    open spec fn view(&self) -> NodeConfigView {
        NodeConfigView {
            max_throughput_ops: self.max_throughput_ops,
            memory_budget_mb: self.memory_budget_mb,
            cpu_affinity: self.cpu_affinity@,
            auto_scale: self.auto_scale,
            tuning_interval_ms: self.tuning_interval_ms,
            priority: self.priority,
        }
    }
}

impl NodeConfig {
    pub fn duplicate(&self) -> (r: Self)
        ensures
            r@ == self@,
    {
        NodeConfig {
            max_throughput_ops: self.max_throughput_ops,
            memory_budget_mb: self.memory_budget_mb,
            cpu_affinity: duplicate_all(&self.cpu_affinity),
            auto_scale: self.auto_scale,
            tuning_interval_ms: self.tuning_interval_ms,
            priority: self.priority,
        }
    }
}

// ── Performance metrics ──────────────────────────────────────────────────────

/// Real-time performance snapshot for a single AI node. Fractional
/// measurements are in hundredths of their unit.
#[derive(Debug, Clone, Copy)]
pub struct NodePerformance {
    pub ops_per_second: Centi,
    pub avg_latency_ms: Centi,
    pub p99_latency_ms: Centi,
    pub error_rate_pct: Centi,
    pub memory_used_mb: Centi,
    pub cpu_usage_pct: Centi,
    pub queue_depth: u32,
    pub uptime_secs: u64,
    /// Milliseconds since the Unix epoch.
    pub last_tuned: Option<i64>,
}

/// A performance snapshot with nothing measured yet.
pub open spec fn zero_performance() -> NodePerformance {
    NodePerformance {
        ops_per_second: 0,
        avg_latency_ms: 0,
        p99_latency_ms: 0,
        error_rate_pct: 0,
        memory_used_mb: 0,
        cpu_usage_pct: 0,
        queue_depth: 0,
        uptime_secs: 0,
        last_tuned: None,
    }
}

impl Default for NodePerformance {
    fn default() -> (r: Self)
        ensures
            r == zero_performance(),
    {
        NodePerformance {
            ops_per_second: 0,
            avg_latency_ms: 0,
            p99_latency_ms: 0,
            error_rate_pct: 0,
            memory_used_mb: 0,
            cpu_usage_pct: 0,
            queue_depth: 0,
            uptime_secs: 0,
            last_tuned: None,
        }
    }
}

/// The status a heartbeat with performance `p` puts a node in: above 90 %
/// CPU or 5 % errors it is overloaded, below 5 % CPU with an empty queue it
/// is idle, otherwise active.
pub open spec fn status_for(p: NodePerformance) -> NodeStatus {
    if p.cpu_usage_pct > 9000 || p.error_rate_pct > 500 {
        NodeStatus::Overloaded
    } else if p.cpu_usage_pct < 500 && p.queue_depth == 0 {
        NodeStatus::Idle
    } else {
        NodeStatus::Active
    }
}

/// Represents a single AI agent node in the mesh network.
#[derive(Debug, Clone)]
pub struct AiNode {
    pub node_id: String,
    pub name: String,
    pub role: AiNodeRole,
    pub section: DataSection,
    pub status: NodeStatus,
    pub performance: NodePerformance,
    /// Milliseconds since the Unix epoch.
    pub last_heartbeat: i64,
    /// Milliseconds since the Unix epoch.
    pub deployed_at: i64,
    pub config: NodeConfig,
}

pub struct AiNodeView {
    pub node_id: String,
    pub name: String,
    pub role: AiNodeRole,
    pub section: DataSection,
    pub status: NodeStatus,
    pub performance: NodePerformance,
    pub last_heartbeat: i64,
    pub deployed_at: i64,
    pub config: NodeConfigView,
}

impl View for AiNode {
    type V = AiNodeView;

    open spec fn view(&self) -> AiNodeView {
        AiNodeView {
            node_id: self.node_id,
            name: self.name,
            role: self.role,
            section: self.section,
            status: self.status,
            performance: self.performance,
            last_heartbeat: self.last_heartbeat,
            deployed_at: self.deployed_at,
            config: self.config@,
        }
    }
}

impl AiNode {
    pub fn duplicate(&self) -> (r: Self)
        ensures
            r@ == self@,
    {
        AiNode {
            node_id: self.node_id.clone(),
            name: self.name.clone(),
            role: self.role,
            section: self.section,
            status: self.status,
            performance: self.performance,
            last_heartbeat: self.last_heartbeat,
            deployed_at: self.deployed_at,
            config: self.config.duplicate(),
        }
    }
}

/// The views of a sequence of nodes.
pub open spec fn node_views(s: Seq<AiNode>) -> Seq<AiNodeView> {
    s.map_values(|n: AiNode| n@)
}

/// A tuning action applied by the performance management system.
#[derive(Debug, Clone)]
pub struct TuningAction {
    pub id: String,
    /// Milliseconds since the Unix epoch.
    pub timestamp: i64,
    pub target_node: String,
    pub action_type: TuningType,
    pub parameter: String,
    pub old_value: String,
    pub new_value: String,
    pub reason: String,
    /// Estimated impact (1 = proportional to the threshold).
    pub impact_score: Ratio,
}

impl Duplicate for TuningAction {
    fn duplicate(&self) -> (r: Self) {
        TuningAction {
            id: self.id.clone(),
            timestamp: self.timestamp,
            target_node: self.target_node.clone(),
            action_type: self.action_type,
            parameter: self.parameter.clone(),
            old_value: self.old_value.clone(),
            new_value: self.new_value.clone(),
            reason: self.reason.clone(),
            impact_score: self.impact_score,
        }
    }
}

#[derive(Debug, Clone, Copy, PartialEq, Eq, Structural)]
pub enum TuningType {
    ScaleUp,
    ScaleDown,
    ThrottleAdjust,
    MemoryRealloc,
    PriorityShift,
    RouteOptimize,
    CacheResize,
    BatchSizeAdjust,
}

// ── Sectional data management ────────────────────────────────────────────────

/// Defines a logical data section managed by the mesh.
#[derive(Debug, Clone, Copy, PartialEq, Eq, Structural, Hash)]
pub enum DataSection {
    BuildPipeline,
    SecurityInfra,
    DependencyGraph,
    PerformanceMetrics,
    AuditTrail,
    UserProfiles,
    PluginRegistry,
    SystemConfig,
}

/// Data flow record between sections.
#[derive(Debug, Clone)]
pub struct DataFlowRecord {
    pub id: String,
    /// Milliseconds since the Unix epoch.
    pub timestamp: i64,
    pub source_section: DataSection,
    pub target_section: DataSection,
    pub payload_size_bytes: u64,
    /// Latency in hundredths of a millisecond.
    pub latency_ms: Centi,
    pub success: bool,
    pub routed_via: String,
}

impl Duplicate for DataFlowRecord {
    fn duplicate(&self) -> (r: Self) {
        DataFlowRecord {
            id: self.id.clone(),
            timestamp: self.timestamp,
            source_section: self.source_section,
            target_section: self.target_section,
            payload_size_bytes: self.payload_size_bytes,
            latency_ms: self.latency_ms,
            success: self.success,
            routed_via: self.routed_via.clone(),
        }
    }
}

/// Section health metrics for data management. Fractional measurements are
/// in hundredths of their unit.
#[derive(Debug, Clone)]
pub struct SectionHealth {
    pub section: DataSection,
    pub throughput_ops: Centi,
    pub avg_latency_ms: Centi,
    pub error_rate_pct: Centi,
    pub storage_used_mb: Centi,
    pub assigned_nodes: Vec<String>,
    /// Milliseconds since the Unix epoch.
    pub last_updated: i64,
}

pub struct SectionHealthView {
    pub section: DataSection,
    pub throughput_ops: Centi,
    pub avg_latency_ms: Centi,
    pub error_rate_pct: Centi,
    pub storage_used_mb: Centi,
    pub assigned_nodes: Seq<String>,
    pub last_updated: i64,
}

impl View for SectionHealth {
    type V = SectionHealthView;

    open spec fn view(&self) -> SectionHealthView {
        SectionHealthView {
            section: self.section,
            throughput_ops: self.throughput_ops,
            avg_latency_ms: self.avg_latency_ms,
            error_rate_pct: self.error_rate_pct,
            storage_used_mb: self.storage_used_mb,
            assigned_nodes: self.assigned_nodes@,
            last_updated: self.last_updated,
        }
    }
}

impl SectionHealth {
    pub fn duplicate(&self) -> (r: Self)
        ensures
            r@ == self@,
    {
        SectionHealth {
            section: self.section,
            throughput_ops: self.throughput_ops,
            avg_latency_ms: self.avg_latency_ms,
            error_rate_pct: self.error_rate_pct,
            storage_used_mb: self.storage_used_mb,
            assigned_nodes: duplicate_all(&self.assigned_nodes),
            last_updated: self.last_updated,
        }
    }
}

/// The views of a sequence of section health records.
pub open spec fn section_views(s: Seq<SectionHealth>) -> Seq<SectionHealthView> {
    s.map_values(|h: SectionHealth| h@)
}

// ── Mesh deployment ──────────────────────────────────────────────────────────

/// Deployment configuration for the AI mesh network.
#[derive(Debug, Clone)]
pub struct MeshDeployment {
    pub deployment_id: String,
    /// Milliseconds since the Unix epoch.
    pub created_at: i64,
    /// Milliseconds since the Unix epoch.
    pub updated_at: i64,
    pub total_nodes: u32,
    pub active_nodes: u32,
    pub topology: MeshTopology,
    /// Health in points, between 0 and 100.
    pub health_score: Ratio,
    pub auto_scaling_enabled: bool,
    pub min_nodes: u32,
    pub max_nodes: u32,
}

impl Duplicate for MeshDeployment {
    fn duplicate(&self) -> (r: Self) {
        MeshDeployment {
            deployment_id: self.deployment_id.clone(),
            created_at: self.created_at,
            updated_at: self.updated_at,
            total_nodes: self.total_nodes,
            active_nodes: self.active_nodes,
            topology: self.topology,
            health_score: self.health_score,
            auto_scaling_enabled: self.auto_scaling_enabled,
            min_nodes: self.min_nodes,
            max_nodes: self.max_nodes,
        }
    }
}

#[derive(Debug, Clone, Copy, PartialEq, Eq, Structural)]
pub enum MeshTopology {
    /// All nodes connected to all others
    FullMesh,
    /// Hub-and-spoke with coordinator at center
    Star,
    /// Hierarchical tree structure
    Hierarchical,
    /// Ring topology for sequential processing
    Ring,
}

// ── Tuning rules ─────────────────────────────────────────────────────────────

/// A tuning action the rules call for, before it is stamped and recorded.
#[derive(Debug, Clone)]
pub struct TuningProposal {
    pub target_node: String,
    pub action_type: TuningType,
    pub parameter: String,
    pub old_value: String,
    pub new_value: String,
    pub reason: String,
    pub impact_score: Ratio,
}

pub struct ProposalView {
    pub target_node: Seq<char>,
    pub action_type: TuningType,
    pub parameter: Seq<char>,
    pub old_value: Seq<char>,
    pub new_value: Seq<char>,
    pub reason: Seq<char>,
    pub impact_score: Ratio,
}

impl View for TuningProposal {
    type V = ProposalView;

    open spec fn view(&self) -> ProposalView {
        ProposalView {
            target_node: self.target_node@,
            action_type: self.action_type,
            parameter: self.parameter@,
            old_value: self.old_value@,
            new_value: self.new_value@,
            reason: self.reason@,
            impact_score: self.impact_score,
        }
    }
}

/// The views of a sequence of proposals.
pub open spec fn proposal_views(s: Seq<TuningProposal>) -> Seq<ProposalView> {
    s.map_values(|p: TuningProposal| p@)
}

/// Average latency above 100 ms on an auto-scaling node.
pub open spec fn is_slow(n: AiNodeView) -> bool {
    n.performance.avg_latency_ms > 10000 && n.config.auto_scale
}

/// Memory use above 85 % of the node's budget.
pub open spec fn is_memory_pressed(n: AiNodeView) -> bool {
    n.performance.memory_used_mb > n.config.memory_budget_mb * 85
}

/// An error rate above 2 %.
pub open spec fn is_erroring(n: AiNodeView) -> bool {
    n.performance.error_rate_pct > 200
}

/// The budget after a reallocation: one and a half times the old one,
/// capped at the largest `u64`.
pub open spec fn grown_budget(b: u64) -> nat {
    if b + b / 2 > u64::MAX { u64::MAX as nat } else { (b + b / 2) as nat }
}

/// Memory use as a whole percentage of the budget, as `{:.0}` prints the
/// floating-point quotient times 100: `inf` for an empty budget.
pub open spec fn budget_percent(used: Centi, budget: u64) -> Seq<char> {
    if budget == 0 {
        "inf"@
    } else if used == 0 {
        "0"@
    } else {
        decimal(printed_percent(used as nat, budget as nat))
    }
}

pub open spec fn latency_proposal(n: AiNodeView) -> ProposalView {
    ProposalView {
        target_node: n.node_id@,
        action_type: TuningType::ScaleUp,
        parameter: "throughput_limit"@,
        old_value: decimal(n.config.max_throughput_ops as nat),
        new_value: decimal((n.config.max_throughput_ops * 2) as nat),
        reason: "Avg latency "@ + centi_one(n.performance.avg_latency_ms as nat) + "ms exceeds 100ms threshold"@,
        impact_score: Ratio { numerator: n.performance.avg_latency_ms as u128, denominator: 10000 },
    }
}

pub open spec fn memory_proposal(n: AiNodeView) -> ProposalView {
    let b = n.config.memory_budget_mb;
    let used = n.performance.memory_used_mb;
    ProposalView {
        target_node: n.node_id@,
        action_type: TuningType::MemoryRealloc,
        parameter: "memory_budget_mb"@,
        old_value: decimal(b as nat),
        new_value: decimal(grown_budget(b)),
        reason: "Memory usage "@ + centi_one(used as nat) + "MB at "@ + budget_percent(used, b) + "% of budget"@,
        impact_score: Ratio { numerator: used as u128, denominator: (100 * b) as u128 },
    }
}

pub open spec fn error_proposal(n: AiNodeView) -> ProposalView {
    ProposalView {
        target_node: n.node_id@,
        action_type: TuningType::ThrottleAdjust,
        parameter: "max_throughput_ops"@,
        old_value: decimal(n.config.max_throughput_ops as nat),
        new_value: decimal((n.config.max_throughput_ops / 2) as nat),
        reason: "Error rate "@ + centi_two(n.performance.error_rate_pct as nat)
            + "% exceeds 2% threshold — throttling to recover"@,
        impact_score: Ratio { numerator: n.performance.error_rate_pct as u128, denominator: 200 },
    }
}

/// The actions the rules call for on one node, in rule order.
pub open spec fn node_proposals(n: AiNodeView) -> Seq<ProposalView> {
    (if is_slow(n) { seq![latency_proposal(n)] } else { seq![] })
        + (if is_memory_pressed(n) { seq![memory_proposal(n)] } else { seq![] })
        + (if is_erroring(n) { seq![error_proposal(n)] } else { seq![] })
}

/// The actions the rules call for on every node, node by node.
pub open spec fn tuning_plan_of(s: Seq<AiNodeView>) -> Seq<ProposalView>
    decreases s.len(),
{
    if s.len() == 0 {
        seq![]
    } else {
        tuning_plan_of(s.drop_last()) + node_proposals(s.last())
    }
}

/// Doubling the throughput of a slow node fits in a `u64`.
pub open spec fn can_scale_up(n: AiNodeView) -> bool {
    is_slow(n) ==> n.config.max_throughput_ops <= u64::MAX / 2
}

fn latency_rule(n: &AiNode) -> (p: TuningProposal)
    requires
        is_slow(n@),
        can_scale_up(n@),
    ensures
        p@ == latency_proposal(n@),
{
    let mut reason = String::from_str("Avg latency ");
    push_centi_one(&mut reason, n.performance.avg_latency_ms);
    reason.append("ms exceeds 100ms threshold");
    TuningProposal {
        target_node: n.node_id.clone(),
        action_type: TuningType::ScaleUp,
        parameter: String::from_str("throughput_limit"),
        old_value: decimal_string(n.config.max_throughput_ops),
        new_value: decimal_string(n.config.max_throughput_ops * 2),
        reason,
        impact_score: Ratio { numerator: n.performance.avg_latency_ms as u128, denominator: 10000 },
    }
}

fn memory_rule(n: &AiNode) -> (p: TuningProposal)
    ensures
        p@ == memory_proposal(n@),
{
    let b = n.config.memory_budget_mb;
    let used = n.performance.memory_used_mb;
    let grown: u128 = (b as u128) + (b as u128) / 2;
    let new_budget: u64 = if grown > u64::MAX as u128 { u64::MAX } else { grown as u64 };
    let mut reason = String::from_str("Memory usage ");
    push_centi_one(&mut reason, used);
    reason.append("MB at ");
    if b == 0 {
        reason.append("inf");
    } else if used == 0 {
        reason.append("0");
    } else {
        let pct = decimal_string_wide(printed_percent_exec(used, b));
        reason.append(pct.as_str());
    }
    reason.append("% of budget");
    TuningProposal {
        target_node: n.node_id.clone(),
        action_type: TuningType::MemoryRealloc,
        parameter: String::from_str("memory_budget_mb"),
        old_value: decimal_string(b),
        new_value: decimal_string(new_budget),
        reason,
        impact_score: Ratio { numerator: used as u128, denominator: 100 * (b as u128) },
    }
}

fn error_rule(n: &AiNode) -> (p: TuningProposal)
    ensures
        p@ == error_proposal(n@),
{
    let mut reason = String::from_str("Error rate ");
    push_centi_two(&mut reason, n.performance.error_rate_pct);
    reason.append("% exceeds 2% threshold — throttling to recover");
    TuningProposal {
        target_node: n.node_id.clone(),
        action_type: TuningType::ThrottleAdjust,
        parameter: String::from_str("max_throughput_ops"),
        old_value: decimal_string(n.config.max_throughput_ops),
        new_value: decimal_string(n.config.max_throughput_ops / 2),
        reason,
        impact_score: Ratio { numerator: n.performance.error_rate_pct as u128, denominator: 200 },
    }
}

/// The tuning actions the rules call for on one node.
pub fn node_tuning(n: &AiNode) -> (r: Vec<TuningProposal>)
    requires
        can_scale_up(n@),
    ensures
        proposal_views(r@) == node_proposals(n@),
{
    let mut r: Vec<TuningProposal> = Vec::new();
    if n.performance.avg_latency_ms > 10000 && n.config.auto_scale {
        r.push(latency_rule(n));
    }
    let ghost a = r@;
    if (n.performance.memory_used_mb as u128) > (n.config.memory_budget_mb as u128) * 85 {
        r.push(memory_rule(n));
    }
    let ghost b = r@;
    if n.performance.error_rate_pct > 200 {
        r.push(error_rule(n));
    }
    proof {
        assert(proposal_views(a) =~= (if is_slow(n@) { seq![latency_proposal(n@)] } else { seq![] }));
        assert(proposal_views(b) =~= proposal_views(a)
            + (if is_memory_pressed(n@) { seq![memory_proposal(n@)] } else { seq![] }));
        assert(proposal_views(r@) =~= proposal_views(b)
            + (if is_erroring(n@) { seq![error_proposal(n@)] } else { seq![] }));
    }
    r
}

/// `a` is proposal `p`, stamped with an id and a time.
pub open spec fn is_stamped(a: TuningAction, p: ProposalView) -> bool {
    &&& a.target_node@ == p.target_node
    &&& a.action_type == p.action_type
    &&& a.parameter@ == p.parameter
    &&& a.old_value@ == p.old_value
    &&& a.new_value@ == p.new_value
    &&& a.reason@ == p.reason
    &&& a.impact_score == p.impact_score
}

// ── Runtime monitor ──────────────────────────────────────────────────────────

pub const MAX_TUNING_HISTORY: usize = 1000;
pub const MAX_DATA_FLOWS: usize = 2000;

/// The status classes the monitor counts.
#[derive(Debug, Clone, Copy, PartialEq, Eq, Structural)]
pub enum StatusClass {
    /// Active or tuning: counted as active in the deployment.
    Working,
    /// Active, tuning or idle: counted as healthy in the mesh score.
    Available,
    /// Overloaded.
    Overloaded,
    /// Anything but offline.
    Online,
    /// Idle.
    Idle,
}

/// Nodes in a status class.
pub open spec fn in_class(c: StatusClass) -> spec_fn(AiNodeView) -> bool {
    |n: AiNodeView| match c {
        StatusClass::Working => n.status == NodeStatus::Active || n.status == NodeStatus::Tuning,
        StatusClass::Available => n.status == NodeStatus::Active || n.status == NodeStatus::Tuning
            || n.status == NodeStatus::Idle,
        StatusClass::Overloaded => n.status == NodeStatus::Overloaded,
        StatusClass::Online => n.status != NodeStatus::Offline,
        StatusClass::Idle => n.status == NodeStatus::Idle,
    }
}

/// How many nodes are in a status class.
pub open spec fn count_class(s: Seq<AiNodeView>, c: StatusClass) -> nat {
    keep(s, in_class(c)).len()
}

/// A node whose id is `id`.
pub open spec fn node_id_is(id: Seq<char>) -> spec_fn(AiNodeView) -> bool {
    |n: AiNodeView| n.node_id@ == id
}

/// No two nodes share an id.
pub open spec fn node_ids_unique(s: Seq<AiNodeView>) -> bool {
    forall|i: int, j: int| 0 <= i < j < s.len() ==> s[i].node_id@ != s[j].node_id@
}

/// No two health records are for the same section.
pub open spec fn sections_unique(s: Seq<SectionHealthView>) -> bool {
    forall|i: int, j: int| 0 <= i < j < s.len() ==> s[i].section != s[j].section
}

/// The nodes after deploying `n`: a node with the same id is replaced,
/// otherwise `n` is added.
pub open spec fn upsert_node(s: Seq<AiNodeView>, n: AiNodeView) -> Seq<AiNodeView> {
    let i = first_index(s, node_id_is(n.node_id@));
    if i >= 0 { s.update(i, n) } else { s.push(n) }
}

/// Deploying a node under an id no node has, then removing the node with
/// that id, gives back the nodes there were.
pub proof fn law_deploy_then_remove(nodes: Seq<AiNodeView>, n: AiNodeView)
    requires
        first_index(nodes, node_id_is(n.node_id@)) < 0,
    ensures
        ({
            let after = upsert_node(nodes, n);
            let i = first_index(after, node_id_is(n.node_id@));
            &&& 0 <= i < after.len()
            &&& after.remove(i) == nodes
        }),
{
    let p = node_id_is(n.node_id@);
    let after = upsert_node(nodes, n);
    assert(after == nodes.push(n));
    lemma_first_index_bound(nodes, p);
    assert forall|k: int| 0 <= k < nodes.len() implies !p(#[trigger] after[k]) by {
        assert(after[k] == nodes[k]);
        if p(nodes[k]) {
            lemma_first_index_found(nodes, p, k);
        }
    }
    lemma_first_index(after, p, nodes.len() as int);
    assert(after.remove(nodes.len() as int) =~= nodes);
}

/// The section records after storing `h`: the record of the same section
/// is replaced, otherwise `h` is added.
pub open spec fn upsert_section(s: Seq<SectionHealthView>, h: SectionHealthView) -> Seq<SectionHealthView> {
    let i = first_index(s, |x: SectionHealthView| x.section == h.section);
    if i >= 0 { s.update(i, h) } else { s.push(h) }
}

/// The deployment with its node counts recomputed for `nodes` at `now`.
pub open spec fn recounted(d: MeshDeployment, nodes: Seq<AiNodeView>, now: i64) -> MeshDeployment {
    MeshDeployment {
        total_nodes: nodes.len() as u32,
        active_nodes: count_class(nodes, StatusClass::Working) as u32,
        updated_at: now,
        ..d
    }
}

/// `n` is a freshly deployed, active node with these contents.
pub open spec fn is_new_node(
    n: AiNodeView,
    id: Seq<char>,
    now: i64,
    name: Seq<char>,
    role: AiNodeRole,
    section: DataSection,
    config: NodeConfigView,
) -> bool {
    &&& n.node_id@ == id
    &&& n.name@ == name
    &&& n.role == role
    &&& n.section == section
    &&& n.status == NodeStatus::Active
    &&& n.performance == zero_performance()
    &&& n.last_heartbeat == now
    &&& n.deployed_at == now
    &&& n.config == config
}

/// A data flow that leaves or enters `section`.
pub open spec fn touches(section: DataSection) -> spec_fn(DataFlowRecord) -> bool {
    |f: DataFlowRecord| f.source_section == section || f.target_section == section
}

/// The sum of the nodes' error rates.
pub open spec fn error_sum(s: Seq<AiNodeView>) -> nat
    decreases s.len(),
{
    if s.len() == 0 {
        0
    } else {
        error_sum(s.drop_last()) + s.last().performance.error_rate_pct as nat
    }
}

/// The mesh health in points, exactly: 70 points for the share of
/// available nodes, 20 for the error rate (the average error percentage,
/// capped at 100 %, taken off) and 10 for the share of nodes that are not
/// overloaded; 100 points for an empty mesh. Error rates are held in
/// hundredths, so the quotient is taken over `10000` times the node count.
pub open spec fn mesh_health_of(s: Seq<AiNodeView>) -> Ratio {
    let total = s.len();
    if total == 0 {
        Ratio { numerator: 100, denominator: 1 }
    } else {
        let cap = 10000 * total;
        let errs = if error_sum(s) < cap { error_sum(s) } else { cap };
        Ratio {
            numerator: (70 * count_class(s, StatusClass::Available) * 10000
                + 20 * (cap - errs)
                + 10 * (total - count_class(s, StatusClass::Overloaded)) * 10000) as u128,
            denominator: cap as u128,
        }
    }
}

/// The mesh health is a score between 0 and 100 points, so clamping it to
/// that range never changes it.
pub proof fn law_mesh_health_range(s: Seq<AiNodeView>)
    requires
        s.len() <= u64::MAX,
    ensures
        mesh_health_of(s).denominator > 0,
        mesh_health_of(s).numerator <= 100 * mesh_health_of(s).denominator,
{
    lemma_keep_len(s, in_class(StatusClass::Available));
    lemma_keep_len(s, in_class(StatusClass::Overloaded));
}

/// After `auto_tune` appends its actions, listing the tuning history newest
/// first gives the actions, newest first, then the earlier history newest
/// first: the listing of all of them, at most `MAX_TUNING_HISTORY` entries.
pub proof fn law_tuning_history_listing(history: Seq<TuningAction>, actions: Seq<TuningAction>, n: nat)
    requires
        history.len() <= MAX_TUNING_HISTORY,
    ensures
        latest(bounded_push_all(history, actions, MAX_TUNING_HISTORY as nat), n)
            == latest(history + actions, if n < MAX_TUNING_HISTORY { n } else { MAX_TUNING_HISTORY as nat }),
        forall|i: int| 0 <= i < actions.len() && i < n && i < MAX_TUNING_HISTORY ==>
            #[trigger] latest(bounded_push_all(history, actions, MAX_TUNING_HISTORY as nat), n)[i]
                == actions[actions.len() - 1 - i],
{
    lemma_bounded_push_all_keeps_last(history, actions, MAX_TUNING_HISTORY as nat);
    lemma_latest_last_n(history + actions, MAX_TUNING_HISTORY as nat, n);
    let s = history + actions;
    assert forall|i: int| 0 <= i < actions.len() && i < n && i < MAX_TUNING_HISTORY implies
        #[trigger] latest(bounded_push_all(history, actions, MAX_TUNING_HISTORY as nat), n)[i]
            == actions[actions.len() - 1 - i] by {
        assert(s[s.len() - 1 - i] == actions[actions.len() - 1 - i]);
    }
}

/// The smaller of two numbers.
pub open spec fn min_nat(a: nat, b: nat) -> nat {
    if a < b { a } else { b }
}

/// The scaling advice for `nodes` under deployment `d`.
pub open spec fn scale_advice(nodes: Seq<AiNodeView>, d: MeshDeployment) -> Option<Seq<char>> {
    let active = count_class(nodes, StatusClass::Online) as u32;
    let overloaded = count_class(nodes, StatusClass::Overloaded) as u32;
    let idle = count_class(nodes, StatusClass::Idle) as u32;
    if !d.auto_scaling_enabled {
        None
    } else if overloaded > active / 3 && active < d.max_nodes {
        Some("SCALE_UP: "@ + decimal(overloaded as nat) + "/"@ + decimal(active as nat)
            + " nodes overloaded. Recommend deploying "@
            + decimal(min_nat((overloaded + 1) as nat, (d.max_nodes - active) as nat)) + " additional nodes."@)
    } else if overloaded == 0 && active > d.min_nodes && idle > active / 2 {
        Some("SCALE_DOWN: "@ + decimal(idle as nat) + "/"@ + decimal(active as nat)
            + " nodes idle. Recommend removing "@
            + decimal(min_nat((idle / 2) as nat, (active - d.min_nodes) as nat)) + " idle nodes."@)
    } else {
        None
    }
}

/// `r` is the data flow record with these contents.
pub open spec fn is_flow(
    r: DataFlowRecord,
    id: Seq<char>,
    at: i64,
    source: DataSection,
    target: DataSection,
    payload_size_bytes: u64,
    latency_ms: Centi,
    success: bool,
    routed_via: Seq<char>,
) -> bool {
    &&& r.id@ == id
    &&& r.timestamp == at
    &&& r.source_section == source
    &&& r.target_section == target
    &&& r.payload_size_bytes == payload_size_bytes
    &&& r.latency_ms == latency_ms
    &&& r.success == success
    &&& r.routed_via@ == routed_via
}

/// The AI mesh runtime monitor: performance management with real-time
/// tuning and sectional data management.
pub struct RuntimeMonitor {
    nodes: Vec<AiNode>,
    tuning_history: VecDeque<TuningAction>,
    data_flows: VecDeque<DataFlowRecord>,
    section_health: Vec<SectionHealth>,
    deployment: MeshDeployment,
    max_tuning_history: usize,
    max_data_flows: usize,
}

impl RuntimeMonitor {
    /// The deployed nodes, in deployment order.
    pub closed spec fn nodes(&self) -> Seq<AiNodeView> {
        node_views(self.nodes@)
    }

    pub closed spec fn tuning_history(&self) -> Seq<TuningAction> {
        self.tuning_history@
    }

    pub closed spec fn data_flows(&self) -> Seq<DataFlowRecord> {
        self.data_flows@
    }

    pub closed spec fn section_health(&self) -> Seq<SectionHealthView> {
        section_views(self.section_health@)
    }

    pub closed spec fn deployment(&self) -> MeshDeployment {
        self.deployment
    }

    /// Records are within capacity; node ids and health sections are unique.
    pub closed spec fn wf(&self) -> bool {
        &&& self.max_tuning_history == MAX_TUNING_HISTORY
        &&& self.max_data_flows == MAX_DATA_FLOWS
        &&& self.tuning_history@.len() <= MAX_TUNING_HISTORY
        &&& self.data_flows@.len() <= MAX_DATA_FLOWS
        &&& node_ids_unique(node_views(self.nodes@))
        &&& sections_unique(section_views(self.section_health@))
    }

    /// What `wf` promises, in terms a caller can read.
    pub proof fn lemma_wf(&self)
        requires
            self.wf(),
        ensures
            self.tuning_history().len() <= MAX_TUNING_HISTORY,
            self.data_flows().len() <= MAX_DATA_FLOWS,
            node_ids_unique(self.nodes()),
            sections_unique(self.section_health()),
    {
    }

    /// A monitor with no nodes and a fresh star deployment.
    pub fn new_at(deployment_id: String, now: i64) -> (m: Self)
        ensures
            m.wf(),
            m.nodes() == Seq::<AiNodeView>::empty(),
            m.tuning_history() == Seq::<TuningAction>::empty(),
            m.data_flows() == Seq::<DataFlowRecord>::empty(),
            m.section_health() == Seq::<SectionHealthView>::empty(),
            m.deployment() == (MeshDeployment {
                deployment_id,
                created_at: now,
                updated_at: now,
                total_nodes: 0,
                active_nodes: 0,
                topology: MeshTopology::Star,
                health_score: Ratio { numerator: 100, denominator: 1 },
                auto_scaling_enabled: true,
                min_nodes: 3,
                max_nodes: 20,
            }),
    {
        let m = RuntimeMonitor {
            nodes: Vec::new(),
            tuning_history: VecDeque::new(),
            data_flows: VecDeque::new(),
            section_health: Vec::new(),
            deployment: MeshDeployment {
                deployment_id,
                created_at: now,
                updated_at: now,
                total_nodes: 0,
                active_nodes: 0,
                topology: MeshTopology::Star,
                health_score: Ratio { numerator: 100, denominator: 1 },
                auto_scaling_enabled: true,
                min_nodes: 3,
                max_nodes: 20,
            },
            max_tuning_history: MAX_TUNING_HISTORY,
            max_data_flows: MAX_DATA_FLOWS,
        };
        assert(m.nodes() =~= Seq::<AiNodeView>::empty());
        assert(m.section_health() =~= Seq::<SectionHealthView>::empty());
        m
    }

    pub fn new() -> (m: Self)
        ensures
            m.wf(),
            m.nodes() == Seq::<AiNodeView>::empty(),
            m.tuning_history() == Seq::<TuningAction>::empty(),
            m.data_flows() == Seq::<DataFlowRecord>::empty(),
            m.section_health() == Seq::<SectionHealthView>::empty(),
            uuid_v4_text(m.deployment().deployment_id@),
            m.deployment().created_at == m.deployment().updated_at,
            m.deployment() == (MeshDeployment {
                deployment_id: m.deployment().deployment_id,
                created_at: m.deployment().created_at,
                updated_at: m.deployment().updated_at,
                total_nodes: 0,
                active_nodes: 0,
                topology: MeshTopology::Star,
                health_score: Ratio { numerator: 100, denominator: 1 },
                auto_scaling_enabled: true,
                min_nodes: 3,
                max_nodes: 20,
            }),
    {
        let id = new_id();
        let now = now_millis();
        Self::new_at(id, now)
    }

    fn find_node(&self, id: &str) -> (r: usize)
        ensures
            r <= self.nodes@.len(),
            first_index(self.nodes(), node_id_is(id@))
                == (if r == self.nodes@.len() { -1 } else { r as int }),
            r < self.nodes@.len() ==> self.nodes()[r as int].node_id@ == id@,
    {
        let ghost s = self.nodes();
        let mut i: usize = 0;
        while i < self.nodes.len()
            invariant
                s == node_views(self.nodes@),
                i <= self.nodes@.len(),
                forall|k: int| 0 <= k < i ==> !(#[trigger] node_id_is(id@)(s[k])),
            decreases self.nodes@.len() - i,
        {
            if str_eq(self.nodes[i].node_id.as_str(), id) {
                proof { lemma_first_index(s, node_id_is(id@), i as int); }
                return i;
            }
            i = i + 1;
        }
        proof { lemma_first_index(s, node_id_is(id@), i as int); }
        i
    }

    fn count_nodes(&self, c: StatusClass) -> (n: usize)
        ensures
            n == count_class(self.nodes(), c),
            n <= self.nodes@.len(),
    {
        let ghost s = self.nodes();
        let ghost f = in_class(c);
        let mut n: usize = 0;
        let mut i: usize = 0;
        while i < self.nodes.len()
            invariant
                s == node_views(self.nodes@),
                f == in_class(c),
                i <= self.nodes@.len(),
                n <= i,
                n == keep(s.subrange(0, i as int), f).len(),
            decreases self.nodes@.len() - i,
        {
            proof { lemma_keep_step(s, f, i as int); }
            let st = self.nodes[i].status;
            let hit = match c {
                StatusClass::Working => st == NodeStatus::Active || st == NodeStatus::Tuning,
                StatusClass::Available => st == NodeStatus::Active || st == NodeStatus::Tuning
                    || st == NodeStatus::Idle,
                StatusClass::Overloaded => st == NodeStatus::Overloaded,
                StatusClass::Online => st != NodeStatus::Offline,
                StatusClass::Idle => st == NodeStatus::Idle,
            };
            if hit {
                n = n + 1;
            }
            i = i + 1;
        }
        assert(s.subrange(0, s.len() as int) =~= s);
        n
    }

    fn recount(&mut self, now: i64)
        ensures
            final(self).deployment() == recounted(old(self).deployment(), old(self).nodes(), now),
            final(self).nodes() == old(self).nodes(),
            final(self).tuning_history() == old(self).tuning_history(),
            final(self).data_flows() == old(self).data_flows(),
            final(self).section_health() == old(self).section_health(),
            final(self).wf() == old(self).wf(),
    {
        let total = self.nodes.len() as u32;
        let active = self.count_nodes(StatusClass::Working) as u32;
        self.deployment.total_nodes = total;
        self.deployment.active_nodes = active;
        self.deployment.updated_at = now;
    }

    fn replace_node(&mut self, i: usize, n: AiNode)
        requires
            i < old(self).nodes@.len(),
            old(self).wf(),
            n.node_id@ == old(self).nodes()[i as int].node_id@,
        ensures
            final(self).wf(),
            final(self).nodes() == old(self).nodes().update(i as int, n@),
            final(self).tuning_history() == old(self).tuning_history(),
            final(self).data_flows() == old(self).data_flows(),
            final(self).section_health() == old(self).section_health(),
            final(self).deployment() == old(self).deployment(),
    {
        self.nodes.set(i, n);
        proof {
            let s = old(self).nodes();
            assert(self.nodes() =~= s.update(i as int, n@));
            assert forall|a: int, b: int| 0 <= a < b < self.nodes().len()
                implies self.nodes()[a].node_id@ != self.nodes()[b].node_id@ by {
                assert(s[a].node_id@ != s[b].node_id@);
            }
        }
    }

    // ── Node management ──────────────────────────────────────────────────────

    /// Deploys a node with the given id at `now`.
    pub fn deploy_node_at(
        &mut self,
        id: String,
        now: i64,
        name: &str,
        role: AiNodeRole,
        section: DataSection,
        config: NodeConfig,
    ) -> (n: AiNode)
        requires
            old(self).wf(),
        ensures
            final(self).wf(),
            is_new_node(n@, id@, now, name@, role, section, config@),
            final(self).nodes() == upsert_node(old(self).nodes(), n@),
            final(self).deployment() == recounted(old(self).deployment(), final(self).nodes(), now),
            final(self).tuning_history() == old(self).tuning_history(),
            final(self).data_flows() == old(self).data_flows(),
            final(self).section_health() == old(self).section_health(),
    {
        let node = AiNode {
            node_id: id,
            name: String::from_str(name),
            role,
            section,
            status: NodeStatus::Active,
            performance: NodePerformance::default(),
            last_heartbeat: now,
            deployed_at: now,
            config,
        };
        let i = self.find_node(node.node_id.as_str());
        if i < self.nodes.len() {
            self.replace_node(i, node.duplicate());
        } else {
            let ghost s = self.nodes();
            self.nodes.push(node.duplicate());
            proof {
                assert(self.nodes() =~= s.push(node@));
                assert forall|a: int, b: int| 0 <= a < b < self.nodes().len()
                    implies self.nodes()[a].node_id@ != self.nodes()[b].node_id@ by {
                    if b == s.len() {
                        if node_id_is(node.node_id@)(s[a]) {
                            lemma_first_index_found(s, node_id_is(node.node_id@), a);
                        }
                    }
                }
            }
        }
        self.recount(now);
        node
    }

    /// Deploys a new AI node into the mesh.
    pub fn deploy_node(&mut self, name: &str, role: AiNodeRole, section: DataSection, config: NodeConfig) -> (n: AiNode)
        requires
            old(self).wf(),
        ensures
            final(self).wf(),
            is_new_node(n@, n.node_id@, n.deployed_at, name@, role, section, config@),
            uuid_v4_text(n.node_id@),
            final(self).nodes() == upsert_node(old(self).nodes(), n@),
            final(self).deployment() == recounted(old(self).deployment(), final(self).nodes(), n.deployed_at),
            final(self).tuning_history() == old(self).tuning_history(),
            final(self).data_flows() == old(self).data_flows(),
            final(self).section_health() == old(self).section_health(),
    {
        let id = new_id();
        let now = now_millis();
        self.deploy_node_at(id, now, name, role, section, config)
    }

    /// Records a heartbeat of the node with this id at `now` and classifies
    /// its load.
    pub fn update_node_performance_at(&mut self, node_id: &str, performance: NodePerformance, now: i64) -> (r: Option<AiNode>)
        requires
            old(self).wf(),
        ensures
            final(self).wf(),
            ({
                let i = first_index(old(self).nodes(), node_id_is(node_id@));
                match r {
                    Some(n) => {
                        &&& i >= 0
                        &&& n@ == (AiNodeView {
                            performance,
                            last_heartbeat: now,
                            status: status_for(performance),
                            ..old(self).nodes()[i]
                        })
                        &&& final(self).nodes() == old(self).nodes().update(i, n@)
                    },
                    None => i < 0 && final(self).nodes() == old(self).nodes(),
                }
            }),
            final(self).deployment() == old(self).deployment(),
            final(self).tuning_history() == old(self).tuning_history(),
            final(self).data_flows() == old(self).data_flows(),
            final(self).section_health() == old(self).section_health(),
    {
        let i = self.find_node(node_id);
        if i == self.nodes.len() {
            return None;
        }
        let mut n = self.nodes[i].duplicate();
        n.performance = performance;
        n.last_heartbeat = now;
        if n.performance.cpu_usage_pct > 9000 || n.performance.error_rate_pct > 500 {
            n.status = NodeStatus::Overloaded;
        } else if n.performance.cpu_usage_pct < 500 && n.performance.queue_depth == 0 {
            n.status = NodeStatus::Idle;
        } else {
            n.status = NodeStatus::Active;
        }
        self.replace_node(i, n.duplicate());
        Some(n)
    }

    /// Updates node performance metrics (heartbeat) now.
    pub fn update_node_performance(&mut self, node_id: &str, performance: NodePerformance) -> (r: Option<AiNode>)
        requires
            old(self).wf(),
        ensures
            final(self).wf(),
            ({
                let i = first_index(old(self).nodes(), node_id_is(node_id@));
                match r {
                    Some(n) => {
                        &&& i >= 0
                        &&& n@ == (AiNodeView {
                            performance,
                            last_heartbeat: n.last_heartbeat,
                            status: status_for(performance),
                            ..old(self).nodes()[i]
                        })
                        &&& final(self).nodes() == old(self).nodes().update(i, n@)
                    },
                    None => i < 0 && final(self).nodes() == old(self).nodes(),
                }
            }),
            final(self).deployment() == old(self).deployment(),
            final(self).tuning_history() == old(self).tuning_history(),
            final(self).data_flows() == old(self).data_flows(),
            final(self).section_health() == old(self).section_health(),
    {
        let now = now_millis();
        self.update_node_performance_at(node_id, performance, now)
    }

    /// All mesh nodes.
    pub fn get_nodes(&self) -> (r: Vec<AiNode>)
        ensures
            node_views(r@) == self.nodes(),
    {
        let ghost s = self.nodes();
        let mut r: Vec<AiNode> = Vec::new();
        let mut i: usize = 0;
        while i < self.nodes.len()
            invariant
                s == node_views(self.nodes@),
                i <= self.nodes@.len(),
                node_views(r@) == s.subrange(0, i as int),
            decreases self.nodes@.len() - i,
        {
            let ghost before = r@;
            r.push(self.nodes[i].duplicate());
            proof {
                assert(node_views(r@) =~= node_views(before).push(s[i as int]));
                assert(s.subrange(0, i + 1) =~= s.subrange(0, i as int).push(s[i as int]));
            }
            i = i + 1;
        }
        assert(s.subrange(0, s.len() as int) =~= s);
        r
    }

    /// The nodes assigned to `section`.
    pub fn get_nodes_by_section(&self, section: &DataSection) -> (r: Vec<AiNode>)
        ensures
            node_views(r@) == keep(self.nodes(), |n: AiNodeView| n.section == *section),
    {
        let ghost s = self.nodes();
        let ghost f = |n: AiNodeView| n.section == *section;
        let mut r: Vec<AiNode> = Vec::new();
        let mut i: usize = 0;
        while i < self.nodes.len()
            invariant
                s == node_views(self.nodes@),
                f == (|n: AiNodeView| n.section == *section),
                i <= self.nodes@.len(),
                node_views(r@) == keep(s.subrange(0, i as int), f),
            decreases self.nodes@.len() - i,
        {
            proof { lemma_keep_step(s, f, i as int); }
            if self.nodes[i].section == *section {
                let ghost before = r@;
                r.push(self.nodes[i].duplicate());
                assert(node_views(r@) =~= node_views(before).push(s[i as int]));
            }
            i = i + 1;
        }
        assert(s.subrange(0, s.len() as int) =~= s);
        r
    }

    /// Removes the node with this id at `now`; whether one was removed.
    pub fn remove_node_at(&mut self, node_id: &str, now: i64) -> (removed: bool)
        requires
            old(self).wf(),
        ensures
            final(self).wf(),
            ({
                let i = first_index(old(self).nodes(), node_id_is(node_id@));
                &&& removed == (i >= 0)
                &&& if i >= 0 {
                    &&& final(self).nodes() == old(self).nodes().remove(i)
                    &&& final(self).deployment() == recounted(old(self).deployment(), final(self).nodes(), now)
                } else {
                    &&& final(self).nodes() == old(self).nodes()
                    &&& final(self).deployment() == old(self).deployment()
                }
            }),
            final(self).tuning_history() == old(self).tuning_history(),
            final(self).data_flows() == old(self).data_flows(),
            final(self).section_health() == old(self).section_health(),
    {
        let i = self.find_node(node_id);
        if i == self.nodes.len() {
            return false;
        }
        let ghost s = self.nodes();
        self.nodes.remove(i);
        proof {
            assert(self.nodes() =~= s.remove(i as int));
            assert forall|a: int, b: int| 0 <= a < b < self.nodes().len()
                implies self.nodes()[a].node_id@ != self.nodes()[b].node_id@ by {
                let a0 = if a < i { a } else { a + 1 };
                let b0 = if b < i { b } else { b + 1 };
                assert(self.nodes()[a] == s[a0]);
                assert(self.nodes()[b] == s[b0]);
            }
        }
        self.recount(now);
        true
    }

    /// Removes a node from the mesh.
    pub fn remove_node(&mut self, node_id: &str) -> (removed: bool)
        requires
            old(self).wf(),
        ensures
            final(self).wf(),
            ({
                let i = first_index(old(self).nodes(), node_id_is(node_id@));
                &&& removed == (i >= 0)
                &&& if i >= 0 {
                    &&& final(self).nodes() == old(self).nodes().remove(i)
                    &&& final(self).deployment() == recounted(old(self).deployment(), final(self).nodes(),
                        final(self).deployment().updated_at)
                } else {
                    &&& final(self).nodes() == old(self).nodes()
                    &&& final(self).deployment() == old(self).deployment()
                }
            }),
            final(self).tuning_history() == old(self).tuning_history(),
            final(self).data_flows() == old(self).data_flows(),
            final(self).section_health() == old(self).section_health(),
    {
        let now = now_millis();
        self.remove_node_at(node_id, now)
    }
}

/// The plan over the first `i + 1` nodes extends the plan over the first `i`.
proof fn lemma_plan_step(s: Seq<AiNodeView>, i: int)
    requires
        0 <= i < s.len(),
    ensures
        tuning_plan_of(s.subrange(0, i + 1)) == tuning_plan_of(s.subrange(0, i)) + node_proposals(s[i]),
{
    assert(s.subrange(0, i + 1).drop_last() =~= s.subrange(0, i));
}

/// Appending a prefix of `xs` one more element at a time.
proof fn lemma_push_all_step<T>(s: Seq<T>, xs: Seq<T>, cap: nat, k: int)
    requires
        0 <= k < xs.len(),
    ensures
        bounded_push_all(s, xs.subrange(0, k + 1), cap) == bounded_push(bounded_push_all(s, xs.subrange(0, k), cap), xs[k], cap),
{
    assert(xs.subrange(0, k + 1).drop_last() =~= xs.subrange(0, k));
}

impl RuntimeMonitor {
    // ── Real-time tuning ─────────────────────────────────────────────────────

    /// Records a tuning action with the given id and time; a known target
    /// node is put into tuning, marked tuned at `tuned_at`.
    pub fn apply_tuning_at(
        &mut self,
        id: String,
        at: i64,
        tuned_at: i64,
        target_node: &str,
        action_type: TuningType,
        parameter: &str,
        old_value: &str,
        new_value: &str,
        reason: &str,
    ) -> (a: TuningAction)
        requires
            old(self).wf(),
        ensures
            final(self).wf(),
            a.id@ == id@,
            a.timestamp == at,
            a.target_node@ == target_node@,
            a.action_type == action_type,
            a.parameter@ == parameter@,
            a.old_value@ == old_value@,
            a.new_value@ == new_value@,
            a.reason@ == reason@,
            a.impact_score == (Ratio { numerator: 0, denominator: 1 }),
            ({
                let i = first_index(old(self).nodes(), node_id_is(target_node@));
                let n = old(self).nodes()[i];
                if i >= 0 {
                    final(self).nodes() == old(self).nodes().update(i, AiNodeView {
                        status: NodeStatus::Tuning,
                        performance: NodePerformance { last_tuned: Some(tuned_at), ..n.performance },
                        ..n
                    })
                } else {
                    final(self).nodes() == old(self).nodes()
                }
            }),
            final(self).tuning_history() == bounded_push(old(self).tuning_history(), a, MAX_TUNING_HISTORY as nat),
            final(self).deployment() == old(self).deployment(),
            final(self).data_flows() == old(self).data_flows(),
            final(self).section_health() == old(self).section_health(),
    {
        let action = TuningAction {
            id,
            timestamp: at,
            target_node: String::from_str(target_node),
            action_type,
            parameter: String::from_str(parameter),
            old_value: String::from_str(old_value),
            new_value: String::from_str(new_value),
            reason: String::from_str(reason),
            impact_score: Ratio { numerator: 0, denominator: 1 },
        };
        let i = self.find_node(target_node);
        if i < self.nodes.len() {
            let mut n = self.nodes[i].duplicate();
            n.status = NodeStatus::Tuning;
            n.performance.last_tuned = Some(tuned_at);
            self.replace_node(i, n);
        }
        let kept = action.duplicate();
        proof { lemma_bounded_push_len(self.tuning_history@, kept, MAX_TUNING_HISTORY as nat); }
        push_back_bounded(&mut self.tuning_history, kept, self.max_tuning_history);
        action
    }

    /// Applies a tuning action to a node, now.
    pub fn apply_tuning(
        &mut self,
        target_node: &str,
        action_type: TuningType,
        parameter: &str,
        old_value: &str,
        new_value: &str,
        reason: &str,
    ) -> (a: TuningAction)
        requires
            old(self).wf(),
        ensures
            final(self).wf(),
            uuid_v4_text(a.id@),
            a.target_node@ == target_node@,
            a.action_type == action_type,
            a.parameter@ == parameter@,
            a.old_value@ == old_value@,
            a.new_value@ == new_value@,
            a.reason@ == reason@,
            a.impact_score == (Ratio { numerator: 0, denominator: 1 }),
            ({
                let i = first_index(old(self).nodes(), node_id_is(target_node@));
                let n = old(self).nodes()[i];
                if i >= 0 {
                    exists|tuned_at: i64| final(self).nodes() == old(self).nodes().update(i, AiNodeView {
                        status: NodeStatus::Tuning,
                        performance: NodePerformance { last_tuned: Some(tuned_at), ..n.performance },
                        ..n
                    })
                } else {
                    final(self).nodes() == old(self).nodes()
                }
            }),
            final(self).tuning_history() == bounded_push(old(self).tuning_history(), a, MAX_TUNING_HISTORY as nat),
            final(self).deployment() == old(self).deployment(),
            final(self).data_flows() == old(self).data_flows(),
            final(self).section_health() == old(self).section_health(),
    {
        let id = new_id();
        let at = now_millis();
        let tuned_at = now_millis();
        self.apply_tuning_at(id, at, tuned_at, target_node, action_type, parameter, old_value, new_value, reason)
    }

    /// Whether every slow node's throughput can be doubled within a `u64`.
    pub closed spec fn can_tune(&self) -> bool {
        forall|i: int| 0 <= i < self.nodes().len() ==> can_scale_up(#[trigger] self.nodes()[i])
    }

    /// Whether `auto_tune` may run: every slow node's throughput can be
    /// doubled within a `u64`.
    pub fn can_auto_tune(&self) -> (r: bool)
        ensures
            r == self.can_tune(),
    {
        let mut i: usize = 0;
        while i < self.nodes.len()
            invariant
                i <= self.nodes@.len(),
                forall|k: int| 0 <= k < i ==> can_scale_up(#[trigger] self.nodes()[k]),
            decreases self.nodes@.len() - i,
        {
            let n = &self.nodes[i];
            assert(self.nodes()[i as int] == n@);
            if n.performance.avg_latency_ms > 10000 && n.config.auto_scale
                && n.config.max_throughput_ops > u64::MAX / 2 {
                return false;
            }
            i = i + 1;
        }
        true
    }

    /// The tuning actions the rules call for on every node, node by node.
    pub fn tuning_plan(&self) -> (r: Vec<TuningProposal>)
        requires
            self.can_tune(),
        ensures
            proposal_views(r@) == tuning_plan_of(self.nodes()),
    {
        let ghost s = self.nodes();
        let mut r: Vec<TuningProposal> = Vec::new();
        let mut i: usize = 0;
        while i < self.nodes.len()
            invariant
                s == node_views(self.nodes@),
                self.can_tune(),
                i <= self.nodes@.len(),
                proposal_views(r@) == tuning_plan_of(s.subrange(0, i as int)),
            decreases self.nodes@.len() - i,
        {
            proof { lemma_plan_step(s, i as int); }
            assert(s[i as int] == self.nodes()[i as int]);
            assert(can_scale_up(s[i as int]));
            let mut more = node_tuning(&self.nodes[i]);
            let ghost before = r@;
            let ghost added = more@;
            r.append(&mut more);
            assert(proposal_views(r@) =~= proposal_views(before) + proposal_views(added));
            i = i + 1;
        }
        assert(s.subrange(0, s.len() as int) =~= s);
        r
    }

    /// Analyses every node, records the tuning actions the rules call for
    /// and returns them.
    pub fn auto_tune(&mut self) -> (r: Vec<TuningAction>)
        requires
            old(self).wf(),
            old(self).can_tune(),
        ensures
            final(self).wf(),
            r@.len() == tuning_plan_of(old(self).nodes()).len(),
            forall|i: int| 0 <= i < r@.len() ==> is_stamped(#[trigger] r@[i], tuning_plan_of(old(self).nodes())[i]),
            forall|i: int| 0 <= i < r@.len() ==> uuid_v4_text((#[trigger] r@[i]).id@),
            final(self).tuning_history() == bounded_push_all(old(self).tuning_history(), r@, MAX_TUNING_HISTORY as nat),
            final(self).nodes() == old(self).nodes(),
            final(self).deployment() == old(self).deployment(),
            final(self).data_flows() == old(self).data_flows(),
            final(self).section_health() == old(self).section_health(),
    {
        let plan = self.tuning_plan();
        let ghost pv = proposal_views(plan@);
        let mut actions: Vec<TuningAction> = Vec::new();
        let mut k: usize = 0;
        while k < plan.len()
            invariant
                pv == proposal_views(plan@),
                k <= plan@.len(),
                actions@.len() == k,
                forall|j: int| 0 <= j < k ==> is_stamped(#[trigger] actions@[j], pv[j]),
                forall|j: int| 0 <= j < k ==> uuid_v4_text((#[trigger] actions@[j]).id@),
            decreases plan@.len() - k,
        {
            let p = &plan[k];
            let id = new_id();
            let at = now_millis();
            let a = TuningAction {
                id,
                timestamp: at,
                target_node: p.target_node.clone(),
                action_type: p.action_type,
                parameter: p.parameter.clone(),
                old_value: p.old_value.clone(),
                new_value: p.new_value.clone(),
                reason: p.reason.clone(),
                impact_score: p.impact_score,
            };
            actions.push(a);
            k = k + 1;
        }
        let ghost hist = self.tuning_history@;
        let mut j: usize = 0;
        while j < actions.len()
            invariant
                self.wf(),
                self.nodes() == old(self).nodes(),
                self.deployment() == old(self).deployment(),
                self.data_flows() == old(self).data_flows(),
                self.section_health() == old(self).section_health(),
                hist == old(self).tuning_history(),
                j <= actions@.len(),
                self.tuning_history@ == bounded_push_all(hist, actions@.subrange(0, j as int), MAX_TUNING_HISTORY as nat),
            decreases actions@.len() - j,
        {
            proof { lemma_push_all_step(hist, actions@, MAX_TUNING_HISTORY as nat, j as int); }
            let kept = actions[j].duplicate();
            proof { lemma_bounded_push_len(self.tuning_history@, kept, MAX_TUNING_HISTORY as nat); }
            push_back_bounded(&mut self.tuning_history, kept, self.max_tuning_history);
            j = j + 1;
        }
        assert(actions@.subrange(0, actions@.len() as int) =~= actions@);
        actions
    }

    /// The most recent `limit` tuning actions, newest first.
    pub fn get_tuning_history(&self, limit: usize) -> (r: Vec<TuningAction>)
        ensures
            r@ == latest(self.tuning_history(), limit as nat),
    {
        latest_first_of(&self.tuning_history, limit)
    }

    // ── Sectional data management ────────────────────────────────────────────

    /// Records a data flow between sections with the given id and time.
    pub fn record_data_flow_at(
        &mut self,
        id: String,
        at: i64,
        source: DataSection,
        target: DataSection,
        payload_size_bytes: u64,
        latency_ms: Centi,
        success: bool,
        routed_via: &str,
    ) -> (r: DataFlowRecord)
        requires
            old(self).wf(),
        ensures
            final(self).wf(),
            is_flow(r, id@, at, source, target, payload_size_bytes, latency_ms, success, routed_via@),
            final(self).data_flows() == bounded_push(old(self).data_flows(), r, MAX_DATA_FLOWS as nat),
            final(self).nodes() == old(self).nodes(),
            final(self).deployment() == old(self).deployment(),
            final(self).tuning_history() == old(self).tuning_history(),
            final(self).section_health() == old(self).section_health(),
    {
        let record = DataFlowRecord {
            id,
            timestamp: at,
            source_section: source,
            target_section: target,
            payload_size_bytes,
            latency_ms,
            success,
            routed_via: String::from_str(routed_via),
        };
        let kept = record.duplicate();
        proof { lemma_bounded_push_len(self.data_flows@, kept, MAX_DATA_FLOWS as nat); }
        push_back_bounded(&mut self.data_flows, kept, self.max_data_flows);
        record
    }

    /// Records a data flow between sections now.
    pub fn record_data_flow(
        &mut self,
        source: DataSection,
        target: DataSection,
        payload_size_bytes: u64,
        latency_ms: Centi,
        success: bool,
        routed_via: &str,
    ) -> (r: DataFlowRecord)
        requires
            old(self).wf(),
        ensures
            final(self).wf(),
            is_flow(r, r.id@, r.timestamp, source, target, payload_size_bytes, latency_ms, success, routed_via@),
            uuid_v4_text(r.id@),
            final(self).data_flows() == bounded_push(old(self).data_flows(), r, MAX_DATA_FLOWS as nat),
            final(self).nodes() == old(self).nodes(),
            final(self).deployment() == old(self).deployment(),
            final(self).tuning_history() == old(self).tuning_history(),
            final(self).section_health() == old(self).section_health(),
    {
        let id = new_id();
        let at = now_millis();
        self.record_data_flow_at(id, at, source, target, payload_size_bytes, latency_ms, success, routed_via)
    }

    /// Stores the health of a section, replacing its previous record.
    pub fn update_section_health(&mut self, health: SectionHealth)
        requires
            old(self).wf(),
        ensures
            final(self).wf(),
            final(self).section_health() == upsert_section(old(self).section_health(), health@),
            final(self).nodes() == old(self).nodes(),
            final(self).deployment() == old(self).deployment(),
            final(self).tuning_history() == old(self).tuning_history(),
            final(self).data_flows() == old(self).data_flows(),
    {
        let ghost s = self.section_health();
        let ghost f = |x: SectionHealthView| x.section == health.section;
        let mut i: usize = 0;
        while i < self.section_health.len()
            invariant
                *self == *old(self),
                self.wf(),
                s == section_views(self.section_health@),
                f == (|x: SectionHealthView| x.section == health.section),
                i <= self.section_health@.len(),
                forall|k: int| 0 <= k < i ==> !(#[trigger] f(s[k])),
            decreases self.section_health@.len() - i,
        {
            if self.section_health[i].section == health.section {
                proof { lemma_first_index(s, f, i as int); }
                self.section_health.set(i, health);
                proof {
                    assert(self.section_health() =~= s.update(i as int, health@));
                    assert forall|a: int, b: int| 0 <= a < b < self.section_health().len()
                        implies self.section_health()[a].section != self.section_health()[b].section by {
                        assert(s[a].section != s[b].section);
                    }
                }
                return;
            }
            i = i + 1;
        }
        proof { lemma_first_index(s, f, i as int); }
        self.section_health.push(health);
        proof {
            assert(self.section_health() =~= s.push(health@));
            assert forall|a: int, b: int| 0 <= a < b < self.section_health().len()
                implies self.section_health()[a].section != self.section_health()[b].section by {
                if b == s.len() {
                    assert(!f(s[a]));
                }
            }
        }
    }

    /// The health records of all sections.
    pub fn get_all_section_health(&self) -> (r: Vec<SectionHealth>)
        ensures
            section_views(r@) == self.section_health(),
    {
        let ghost s = self.section_health();
        let mut r: Vec<SectionHealth> = Vec::new();
        let mut i: usize = 0;
        while i < self.section_health.len()
            invariant
                s == section_views(self.section_health@),
                i <= self.section_health@.len(),
                section_views(r@) == s.subrange(0, i as int),
            decreases self.section_health@.len() - i,
        {
            let ghost before = r@;
            r.push(self.section_health[i].duplicate());
            proof {
                assert(section_views(r@) =~= section_views(before).push(s[i as int]));
                assert(s.subrange(0, i + 1) =~= s.subrange(0, i as int).push(s[i as int]));
            }
            i = i + 1;
        }
        assert(s.subrange(0, s.len() as int) =~= s);
        r
    }

    /// The most recent `limit` flows that leave or enter `section`, newest first.
    pub fn get_section_flows(&self, section: &DataSection, limit: usize) -> (r: Vec<DataFlowRecord>)
        ensures
            r@ == latest(keep(self.data_flows(), touches(*section)), limit as nat),
    {
        let ghost f = touches(*section);
        let mut matching: Vec<DataFlowRecord> = Vec::new();
        let mut i: usize = 0;
        while i < self.data_flows.len()
            invariant
                f == touches(*section),
                i <= self.data_flows@.len(),
                matching@ == keep(self.data_flows@.subrange(0, i as int), f),
            decreases self.data_flows@.len() - i,
        {
            proof { lemma_keep_step(self.data_flows@, f, i as int); }
            let fl = &self.data_flows[i];
            if fl.source_section == *section || fl.target_section == *section {
                matching.push(fl.duplicate());
            }
            i = i + 1;
        }
        assert(self.data_flows@.subrange(0, self.data_flows@.len() as int) =~= self.data_flows@);
        latest_first(&matching, limit)
    }

    // ── Mesh deployment ──────────────────────────────────────────────────────

    /// The current mesh deployment status.
    pub fn get_deployment(&self) -> (d: MeshDeployment)
        ensures
            d == self.deployment(),
    {
        self.deployment.duplicate()
    }

    /// Changes the mesh topology at `now`.
    pub fn set_topology_at(&mut self, topology: MeshTopology, now: i64)
        requires
            old(self).wf(),
        ensures
            final(self).wf(),
            final(self).deployment() == (MeshDeployment { topology, updated_at: now, ..old(self).deployment() }),
            final(self).nodes() == old(self).nodes(),
            final(self).tuning_history() == old(self).tuning_history(),
            final(self).data_flows() == old(self).data_flows(),
            final(self).section_health() == old(self).section_health(),
    {
        self.deployment.topology = topology;
        self.deployment.updated_at = now;
    }

    /// Changes the mesh topology.
    pub fn set_topology(&mut self, topology: MeshTopology)
        requires
            old(self).wf(),
        ensures
            final(self).wf(),
            final(self).deployment() == (MeshDeployment {
                topology,
                updated_at: final(self).deployment().updated_at,
                ..old(self).deployment()
            }),
            final(self).nodes() == old(self).nodes(),
            final(self).tuning_history() == old(self).tuning_history(),
            final(self).data_flows() == old(self).data_flows(),
            final(self).section_health() == old(self).section_health(),
    {
        let now = now_millis();
        self.set_topology_at(topology, now);
    }
}

impl RuntimeMonitor {
    /// Computes the mesh health score from all nodes and, for a non-empty
    /// mesh, records it in the deployment.
    pub fn compute_mesh_health(&mut self) -> (h: Ratio)
        requires
            old(self).wf(),
        ensures
            final(self).wf(),
            h == mesh_health_of(old(self).nodes()),
            final(self).deployment() == (if old(self).nodes().len() == 0 {
                old(self).deployment()
            } else {
                MeshDeployment { health_score: h, ..old(self).deployment() }
            }),
            final(self).nodes() == old(self).nodes(),
            final(self).tuning_history() == old(self).tuning_history(),
            final(self).data_flows() == old(self).data_flows(),
            final(self).section_health() == old(self).section_health(),
    {
        let total = self.nodes.len();
        if total == 0 {
            return Ratio { numerator: 100, denominator: 1 };
        }
        let ghost s = self.nodes();
        let available = self.count_nodes(StatusClass::Available);
        let overloaded = self.count_nodes(StatusClass::Overloaded);
        let cap: u128 = 10000 * (total as u128);
        let mut errs: u128 = 0;
        let mut i: usize = 0;
        while i < total
            invariant
                s == node_views(self.nodes@),
                total == s.len(),
                cap == 10000 * total,
                i <= total,
                errs == (if error_sum(s.subrange(0, i as int)) < cap { error_sum(s.subrange(0, i as int)) } else { cap as nat }),
            decreases total - i,
        {
            proof {
                assert(s.subrange(0, i + 1).drop_last() =~= s.subrange(0, i as int));
                assert(s[i as int].performance.error_rate_pct == self.nodes@[i as int].performance.error_rate_pct);
            }
            let e = self.nodes[i].performance.error_rate_pct as u128;
            let next: u128 = errs + e;
            errs = if next < cap { next } else { cap };
            i = i + 1;
        }
        assert(s.subrange(0, total as int) =~= s);
        let num: u128 = 70 * (available as u128) * 10000 + 20 * (cap - errs)
            + 10 * ((total - overloaded) as u128) * 10000;
        let h = Ratio { numerator: num, denominator: cap };
        self.deployment.health_score = h;
        h
    }

    /// Advice on scaling the mesh: scale up when more than a third of the
    /// online nodes are overloaded and there is room, scale down when none
    /// is overloaded, the mesh is above its minimum and more than half idle.
    pub fn auto_scale_check(&self) -> (r: Option<String>)
        ensures
            match r {
                Some(s) => scale_advice(self.nodes(), self.deployment()) == Some(s@),
                None => scale_advice(self.nodes(), self.deployment()) == None::<Seq<char>>,
            },
    {
        if !self.deployment.auto_scaling_enabled {
            return None;
        }
        let active = self.count_nodes(StatusClass::Online) as u32;
        let overloaded = self.count_nodes(StatusClass::Overloaded) as u32;
        let idle = self.count_nodes(StatusClass::Idle) as u32;
        let max_nodes = self.deployment.max_nodes;
        let min_nodes = self.deployment.min_nodes;
        if overloaded > active / 3 && active < max_nodes {
            let wanted: u64 = overloaded as u64 + 1;
            let room: u64 = (max_nodes - active) as u64;
            let add: u64 = if wanted < room { wanted } else { room };
            let mut m = String::from_str("SCALE_UP: ");
            push_decimal(&mut m, overloaded as u64);
            m.append("/");
            push_decimal(&mut m, active as u64);
            m.append(" nodes overloaded. Recommend deploying ");
            push_decimal(&mut m, add);
            m.append(" additional nodes.");
            Some(m)
        } else if overloaded == 0 && active > min_nodes {
            if idle > active / 2 {
                let half: u64 = (idle / 2) as u64;
                let spare: u64 = (active - min_nodes) as u64;
                let remove: u64 = if half < spare { half } else { spare };
                let mut m = String::from_str("SCALE_DOWN: ");
                push_decimal(&mut m, idle as u64);
                m.append("/");
                push_decimal(&mut m, active as u64);
                m.append(" nodes idle. Recommend removing ");
                push_decimal(&mut m, remove);
                m.append(" idle nodes.");
                Some(m)
            } else {
                None
            }
        } else {
            None
        }
    }
}

impl Default for RuntimeMonitor {
    fn default() -> (m: Self)
        ensures
            m.wf(),
            m.nodes() == Seq::<AiNodeView>::empty(),
            m.tuning_history() == Seq::<TuningAction>::empty(),
            m.data_flows() == Seq::<DataFlowRecord>::empty(),
            m.section_health() == Seq::<SectionHealthView>::empty(),
    {
        Self::new()
    }
}

/// How a heartbeat classifies a node, for every performance reading (in
/// hundredths of a percent): above 90 % CPU or above 5 % errors it is
/// overloaded, whatever the other reading; otherwise below 5 % CPU with an
/// empty queue it is idle; otherwise active.
pub proof fn law_node_status(p: NodePerformance)
    ensures
        p.error_rate_pct > 500 ==> status_for(p) == NodeStatus::Overloaded,
        p.cpu_usage_pct > 9000 ==> status_for(p) == NodeStatus::Overloaded,
        p.cpu_usage_pct <= 9000 && p.error_rate_pct <= 500 && p.cpu_usage_pct < 500 && p.queue_depth == 0
            ==> status_for(p) == NodeStatus::Idle,
        p.cpu_usage_pct <= 9000 && p.error_rate_pct <= 500 && !(p.cpu_usage_pct < 500 && p.queue_depth == 0)
            ==> status_for(p) == NodeStatus::Active,
{
}

} // verus!
