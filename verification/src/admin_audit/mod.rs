//! Admin audit trail and process control: audit logging, dependency
//! monitoring, automated error response, process allocation and kernel
//! protection. A backend-only system with no user-facing behaviour.

pub mod runtime_monitor;
pub mod integrations;

use vstd::prelude::*;
use crate::clock::{new_id, now_millis, start_timer, elapsed_millis, uuid_v4_text};
use crate::fixed::Centi;
use crate::history::{
    Duplicate, bounded_push, latest, push_back_bounded, latest_first, latest_first_of, keep, count,
    first_index,
    lemma_keep_step, lemma_keep_keep, lemma_keep_len, lemma_keep_members, lemma_first_index,
    lemma_bounded_push_len, duplicate_opt_string, lemma_keep_is_filter, lemma_filter_none,
};
use crate::text::{has_substring, lowercase_of, to_lowercase, str_contains, str_eq};
use std::collections::VecDeque;

verus! {

// ── Priority hierarchy (red → green) ─────────────────────────────────────────

/// Priority level for admin tasks — red = urgent, green = monitor/research.
#[derive(Debug, Clone, Copy, PartialEq, Eq, Structural, PartialOrd, Ord, Hash)]
pub enum TaskPriority {
    /// Immediate action required — system critical
    Red,
    /// High priority — requires attention within 24h
    Orange,
    /// Medium priority — scheduled maintenance
    Yellow,
    /// Low priority — research and monitor
    Green,
}

impl TaskPriority {
    pub open spec fn spec_label(self) -> Seq<char> {
        match self {
            TaskPriority::Red => "URGENT"@,
            TaskPriority::Orange => "HIGH"@,
            TaskPriority::Yellow => "MEDIUM"@,
            TaskPriority::Green => "MONITOR"@,
        }
    }

    pub open spec fn spec_is_urgent(self) -> bool {
        self == TaskPriority::Red || self == TaskPriority::Orange
    }

    pub fn label(&self) -> (r: &'static str)
        ensures
            r@ == self.spec_label(),
    {
        match self {
            TaskPriority::Red => "URGENT",
            TaskPriority::Orange => "HIGH",
            TaskPriority::Yellow => "MEDIUM",
            TaskPriority::Green => "MONITOR",
        }
    }

    pub fn is_urgent(&self) -> (r: bool)
        ensures
            r == self.spec_is_urgent(),
    {
        match self {
            TaskPriority::Red | TaskPriority::Orange => true,
            _ => false,
        }
    }
}

/// A stable ordering of `s` by priority, red first: the red items in their
/// order, then the orange, the yellow and the green ones. This is what a
/// stable sort on the priority gives.
pub open spec fn by_priority<T>(s: Seq<T>, prio: spec_fn(T) -> TaskPriority) -> Seq<T> {
    keep(s, |x: T| prio(x) == TaskPriority::Red)
        + keep(s, |x: T| prio(x) == TaskPriority::Orange)
        + keep(s, |x: T| prio(x) == TaskPriority::Yellow)
        + keep(s, |x: T| prio(x) == TaskPriority::Green)
}

/// `s` reversed: most recent first.
pub open spec fn reversed<T>(s: Seq<T>) -> Seq<T> {
    latest(s, s.len())
}

// ── Audit trail ──────────────────────────────────────────────────────────────

#[derive(Debug, Clone, Copy, PartialEq, Eq, Structural)]
pub enum AuditCategory {
    DependencyUpdate,
    SecurityPatch,
    BuildFailure,
    TestRegression,
    PerformanceDegradation,
    SystemHealth,
    ProcessAllocation,
    KernelProtection,
    AutomationEvent,
    ResearchNote,
}

/// A single audit log entry for development trail tracking.
#[derive(Debug, Clone)]
pub struct AuditEntry {
    pub id: String,
    /// Milliseconds since the Unix epoch.
    pub timestamp: i64,
    pub category: AuditCategory,
    pub severity: TaskPriority,
    pub source_module: String,
    pub message: String,
    pub details: Option<String>,
    pub resolved: bool,
    /// Milliseconds since the Unix epoch.
    pub resolved_at: Option<i64>,
    pub auto_resolved: bool,
}

impl Duplicate for AuditEntry {
    fn duplicate(&self) -> (r: Self) {
        AuditEntry {
            id: self.id.clone(),
            timestamp: self.timestamp,
            category: self.category,
            severity: self.severity,
            source_module: self.source_module.clone(),
            message: self.message.clone(),
            details: duplicate_opt_string(&self.details),
            resolved: self.resolved,
            resolved_at: self.resolved_at,
            auto_resolved: self.auto_resolved,
        }
    }
}

/// The severity of an audit entry.
pub open spec fn audit_severity() -> spec_fn(AuditEntry) -> TaskPriority {
    |e: AuditEntry| e.severity
}

/// An audit entry that is still open.
pub open spec fn is_unresolved() -> spec_fn(AuditEntry) -> bool {
    |e: AuditEntry| !e.resolved
}

// ── Dependency monitor ───────────────────────────────────────────────────────

/// Tracks dependency health with priority-based update scheduling.
#[derive(Debug, Clone)]
pub struct DependencyStatus {
    pub name: String,
    pub current_version: String,
    pub latest_version: Option<String>,
    pub ecosystem: String,
    pub priority: TaskPriority,
    pub has_security_advisory: bool,
    /// Milliseconds since the Unix epoch.
    pub last_checked: i64,
    pub auto_updatable: bool,
    pub update_scheduled: bool,
}

impl Duplicate for DependencyStatus {
    fn duplicate(&self) -> (r: Self) {
        DependencyStatus {
            name: self.name.clone(),
            current_version: self.current_version.clone(),
            latest_version: duplicate_opt_string(&self.latest_version),
            ecosystem: self.ecosystem.clone(),
            priority: self.priority,
            has_security_advisory: self.has_security_advisory,
            last_checked: self.last_checked,
            auto_updatable: self.auto_updatable,
            update_scheduled: self.update_scheduled,
        }
    }
}

/// A dependency whose latest known version differs from the current one.
pub open spec fn is_outdated() -> spec_fn(DependencyStatus) -> bool {
    |d: DependencyStatus| match d.latest_version {
        Some(l) => l@ != d.current_version@,
        None => false,
    }
}

/// A dependency with a security advisory.
pub open spec fn has_advisory() -> spec_fn(DependencyStatus) -> bool {
    |d: DependencyStatus| d.has_security_advisory
}

/// A dependency scheduled for an automatic update.
pub open spec fn is_auto_updated() -> spec_fn(DependencyStatus) -> bool {
    |d: DependencyStatus| d.auto_updatable && d.update_scheduled
}

/// The priority of a dependency.
pub open spec fn dependency_priority() -> spec_fn(DependencyStatus) -> TaskPriority {
    |d: DependencyStatus| d.priority
}

/// Daily dependency summary report.
#[derive(Debug, Clone, Copy)]
pub struct DailySummary {
    /// Milliseconds since the Unix epoch.
    pub date: i64,
    pub total_dependencies: u32,
    pub outdated_count: u32,
    pub security_alerts: u32,
    pub auto_updated: u32,
    pub pending_review: u32,
    /// Health score in hundredths of a point, between 0 and 10000.
    pub system_health_score: Centi,
    pub tasks_by_priority: PriorityBreakdown,
}

impl Duplicate for DailySummary {
    fn duplicate(&self) -> (r: Self) {
        *self
    }
}

#[derive(Debug, Clone, Copy)]
pub struct PriorityBreakdown {
    pub red: u32,
    pub orange: u32,
    pub yellow: u32,
    pub green: u32,
}

// ── Process allocator & kernel protection ────────────────────────────────────

/// Root process allocation record for admin-level system management.
#[derive(Debug, Clone)]
pub struct ProcessAllocation {
    pub process_id: String,
    pub name: String,
    /// Milliseconds since the Unix epoch.
    pub allocated_at: i64,
    pub priority: TaskPriority,
    pub memory_limit_mb: u64,
    /// CPU quota in hundredths of a percent.
    pub cpu_quota_pct: Centi,
    pub status: ProcessStatus,
    pub protected: bool,
}

impl Duplicate for ProcessAllocation {
    fn duplicate(&self) -> (r: Self) {
        ProcessAllocation {
            process_id: self.process_id.clone(),
            name: self.name.clone(),
            allocated_at: self.allocated_at,
            priority: self.priority,
            memory_limit_mb: self.memory_limit_mb,
            cpu_quota_pct: self.cpu_quota_pct,
            status: self.status,
            protected: self.protected,
        }
    }
}

#[derive(Debug, Clone, Copy, PartialEq, Eq, Structural)]
pub enum ProcessStatus {
    Running,
    Idle,
    Suspended,
    Terminated,
    Protected,
}

/// A process that has not been terminated.
pub open spec fn is_live() -> spec_fn(ProcessAllocation) -> bool {
    |p: ProcessAllocation| p.status != ProcessStatus::Terminated
}

/// The priority of a process.
pub open spec fn process_priority() -> spec_fn(ProcessAllocation) -> TaskPriority {
    |p: ProcessAllocation| p.priority
}

/// Security infrastructure kernel protection record.
#[derive(Debug, Clone)]
pub struct KernelProtectionEvent {
    pub id: String,
    /// Milliseconds since the Unix epoch.
    pub timestamp: i64,
    pub event_type: KernelEventType,
    pub source: String,
    pub threat_level: TaskPriority,
    pub description: String,
    pub action_taken: String,
    pub blocked: bool,
}

impl Duplicate for KernelProtectionEvent {
    fn duplicate(&self) -> (r: Self) {
        KernelProtectionEvent {
            id: self.id.clone(),
            timestamp: self.timestamp,
            event_type: self.event_type,
            source: self.source.clone(),
            threat_level: self.threat_level,
            description: self.description.clone(),
            action_taken: self.action_taken.clone(),
            blocked: self.blocked,
        }
    }
}

#[derive(Debug, Clone, Copy, PartialEq, Eq, Structural)]
pub enum KernelEventType {
    UnauthorizedAccess,
    PrivilegeEscalation,
    IntegrityViolation,
    ResourceExhaustion,
    AnomalousPattern,
    RoutineCheck,
}

// ── Automated error response ─────────────────────────────────────────────────

/// Internal error response record.
#[derive(Debug, Clone)]
pub struct ErrorResponse {
    pub id: String,
    /// Milliseconds since the Unix epoch.
    pub timestamp: i64,
    pub error_source: String,
    pub error_type: String,
    pub original_message: String,
    pub auto_diagnosis: String,
    pub resolution_action: ResolutionAction,
    pub resolved: bool,
    pub resolution_duration_ms: u64,
}

impl Duplicate for ErrorResponse {
    fn duplicate(&self) -> (r: Self) {
        ErrorResponse {
            id: self.id.clone(),
            timestamp: self.timestamp,
            error_source: self.error_source.clone(),
            error_type: self.error_type.clone(),
            original_message: self.original_message.clone(),
            auto_diagnosis: self.auto_diagnosis.clone(),
            resolution_action: self.resolution_action,
            resolved: self.resolved,
            resolution_duration_ms: self.resolution_duration_ms,
        }
    }
}

#[derive(Debug, Clone, Copy, PartialEq, Eq, Structural)]
pub enum ResolutionAction {
    AutoFixed,
    Retry,
    Escalated,
    Deferred,
    RequiresManual,
    Researching,
}

/// The diagnosis and resolution strategy for an error of type `error_type`
/// whose message, lower-cased, is `lower`: the first matching rule wins.
pub open spec fn diagnosis_of(error_type: Seq<char>, lower: Seq<char>) -> (Seq<char>, ResolutionAction) {
    if has_substring(lower, "outdated"@) || has_substring(lower, "deprecated"@)
        || error_type == "dependency"@ {
        ("Outdated dependency detected. Scheduling automatic update."@, ResolutionAction::AutoFixed)
    } else if has_substring(lower, "timeout"@) || has_substring(lower, "connection"@)
        || error_type == "network"@ {
        ("Transient network error. Retry scheduled with exponential backoff."@, ResolutionAction::Retry)
    } else if has_substring(lower, "unauthorized"@) || has_substring(lower, "permission"@)
        || error_type == "security"@ {
        ("Security-related error detected. Escalating to kernel protection."@, ResolutionAction::Escalated)
    } else if has_substring(lower, "compile"@) || has_substring(lower, "build"@)
        || error_type == "build"@ {
        ("Build system error. Researching root cause and collecting diagnostics."@, ResolutionAction::Researching)
    } else {
        ("Unknown error pattern. Deferred for manual analysis."@, ResolutionAction::Deferred)
    }
}

/// The audit severity an unresolved error response is escalated with.
pub open spec fn escalation_severity(action: ResolutionAction) -> TaskPriority {
    match action {
        ResolutionAction::Escalated => TaskPriority::Red,
        ResolutionAction::RequiresManual => TaskPriority::Orange,
        ResolutionAction::Retry => TaskPriority::Yellow,
        _ => TaskPriority::Green,
    }
}

/// Classifies an error whose message has already been lower-cased, and
/// selects the resolution strategy.
pub fn diagnose_lowered(error_type: &str, lower: &str) -> (r: (String, ResolutionAction))
    ensures
        (r.0@, r.1) == diagnosis_of(error_type@, lower@),
{
    if str_contains(lower, "outdated") || str_contains(lower, "deprecated")
        || str_eq(error_type, "dependency") {
        return (String::from_str("Outdated dependency detected. Scheduling automatic update."),
            ResolutionAction::AutoFixed);
    }
    if str_contains(lower, "timeout") || str_contains(lower, "connection")
        || str_eq(error_type, "network") {
        return (String::from_str("Transient network error. Retry scheduled with exponential backoff."),
            ResolutionAction::Retry);
    }
    if str_contains(lower, "unauthorized") || str_contains(lower, "permission")
        || str_eq(error_type, "security") {
        return (String::from_str("Security-related error detected. Escalating to kernel protection."),
            ResolutionAction::Escalated);
    }
    if str_contains(lower, "compile") || str_contains(lower, "build")
        || str_eq(error_type, "build") {
        return (String::from_str("Build system error. Researching root cause and collecting diagnostics."),
            ResolutionAction::Researching);
    }
    (String::from_str("Unknown error pattern. Deferred for manual analysis."), ResolutionAction::Deferred)
}

/// Classifies an error and selects its resolution strategy.
pub fn diagnose_error(error_type: &str, message: &str) -> (r: (String, ResolutionAction))
    ensures
        (r.0@, r.1) == diagnosis_of(error_type@, lowercase_of(message@)),
{
    let lower = to_lowercase(message);
    diagnose_lowered(error_type, lower.as_str())
}

// ── Errors ───────────────────────────────────────────────────────────────────

/// Why an admin request was refused.
#[derive(Debug, Clone)]
pub enum AdminError {
    /// No audit entry has this id.
    AuditNotFound(String),
    /// No process has this id.
    ProcessNotFound(String),
    /// The named process is protected and cannot be terminated.
    ProtectedProcess(String),
}

impl AdminError {
    pub open spec fn spec_message(&self) -> Seq<char> {
        match self {
            AdminError::AuditNotFound(id) => "Audit entry '"@ + id@ + "' not found"@,
            AdminError::ProcessNotFound(id) => "Process '"@ + id@ + "' not found"@,
            AdminError::ProtectedProcess(name) => "Cannot terminate protected process '"@ + name@
                + "'. Remove protection first."@,
        }
    }

    /// The error as text.
    pub fn message(&self) -> (s: String)
        ensures
            s@ == self.spec_message(),
    {
        match self {
            AdminError::AuditNotFound(id) => {
                let mut s = String::from_str("Audit entry '");
                s.append(id.as_str());
                s.append("' not found");
                s
            },
            AdminError::ProcessNotFound(id) => {
                let mut s = String::from_str("Process '");
                s.append(id.as_str());
                s.append("' not found");
                s
            },
            AdminError::ProtectedProcess(name) => {
                let mut s = String::from_str("Cannot terminate protected process '");
                s.append(name.as_str());
                s.append("'. Remove protection first.");
                s
            },
        }
    }
}

// ── Spec helpers for the engine ──────────────────────────────────────────────

/// Audit entries matching an optional severity, and only open ones when asked.
pub open spec fn entry_filter(sev: Option<TaskPriority>, unresolved_only: bool) -> spec_fn(AuditEntry) -> bool {
    |e: AuditEntry| (!unresolved_only || !e.resolved) && match sev {
        Some(p) => e.severity == p,
        None => true,
    }
}

/// The audit entries `get_audit_log` returns: those of the given severity
/// (all when none is given), most recent first.
pub open spec fn audit_log_view(log: Seq<AuditEntry>, filter: Option<TaskPriority>) -> Seq<AuditEntry> {
    reversed(keep(log, entry_filter(filter, false)))
}

/// The open audit entries, red first, each priority in logging order.
pub open spec fn todo_list_of(log: Seq<AuditEntry>) -> Seq<AuditEntry> {
    by_priority(keep(log, is_unresolved()), audit_severity())
}

/// Every item has exactly one priority, so ordering by priority keeps them all.
pub proof fn lemma_by_priority_len<T>(s: Seq<T>, prio: spec_fn(T) -> TaskPriority)
    ensures
        by_priority(s, prio).len() == s.len(),
    decreases s.len(),
{
    if s.len() > 0 {
        lemma_by_priority_len(s.drop_last(), prio);
    }
}

/// The place of a priority in the red-to-green order.
pub open spec fn priority_rank(p: TaskPriority) -> int {
    match p {
        TaskPriority::Red => 0,
        TaskPriority::Orange => 1,
        TaskPriority::Yellow => 2,
        TaskPriority::Green => 3,
    }
}

/// Ordering by priority keeps every item and puts them red first: no item
/// comes after one of a lower priority.
pub proof fn law_by_priority_sorted<T>(s: Seq<T>, prio: spec_fn(T) -> TaskPriority)
    ensures
        by_priority(s, prio).len() == s.len(),
        forall|i: int, j: int| 0 <= i < j < by_priority(s, prio).len() ==>
            priority_rank(prio(#[trigger] by_priority(s, prio)[i])) <= priority_rank(prio(#[trigger] by_priority(s, prio)[j])),
{
    lemma_by_priority_len(s, prio);
    let pr = |x: T| prio(x) == TaskPriority::Red;
    let po = |x: T| prio(x) == TaskPriority::Orange;
    let py = |x: T| prio(x) == TaskPriority::Yellow;
    let pg = |x: T| prio(x) == TaskPriority::Green;
    lemma_keep_members(s, pr);
    lemma_keep_members(s, po);
    lemma_keep_members(s, py);
    lemma_keep_members(s, pg);
    let a = keep(s, pr);
    let b = keep(s, po);
    let c = keep(s, py);
    let d = keep(s, pg);
    let t = by_priority(s, prio);
    assert(t == a + b + c + d);
    assert forall|k: int| 0 <= k < t.len() implies
        priority_rank(prio(#[trigger] t[k])) == (if k < a.len() { 0int } else if k < a.len() + b.len() { 1int }
            else if k < a.len() + b.len() + c.len() { 2int } else { 3int }) by {
        if k < a.len() {
            assert(t[k] == a[k]);
            assert(pr(a[k]));
        } else if k < a.len() + b.len() {
            assert(t[k] == b[k - a.len()]);
            assert(po(b[k - a.len()]));
        } else if k < a.len() + b.len() + c.len() {
            assert(t[k] == c[k - a.len() - b.len()]);
            assert(py(c[k - a.len() - b.len()]));
        } else {
            assert(t[k] == d[k - a.len() - b.len() - c.len()]);
            assert(pg(d[k - a.len() - b.len() - c.len()]));
        }
    }
}

/// The to-do list holds the open audit entries and nothing else: each open
/// entry once, taken from the log, and no resolved entry; so an entry that
/// is resolved leaves the list.
pub proof fn law_todo_lists_open_entries(log: Seq<AuditEntry>)
    ensures
        todo_list_of(log).len() == count(log, is_unresolved()),
        forall|k: int| 0 <= k < todo_list_of(log).len() ==>
            !(#[trigger] todo_list_of(log)[k]).resolved && log.contains(todo_list_of(log)[k]),
{
    let open = keep(log, is_unresolved());
    let sev = audit_severity();
    lemma_by_priority_len(open, sev);
    lemma_keep_members(log, is_unresolved());
    let pr = |x: AuditEntry| sev(x) == TaskPriority::Red;
    let po = |x: AuditEntry| sev(x) == TaskPriority::Orange;
    let py = |x: AuditEntry| sev(x) == TaskPriority::Yellow;
    let pg = |x: AuditEntry| sev(x) == TaskPriority::Green;
    lemma_keep_members(open, pr);
    lemma_keep_members(open, po);
    lemma_keep_members(open, py);
    lemma_keep_members(open, pg);
    let a = keep(open, pr);
    let b = keep(open, po);
    let c = keep(open, py);
    let d = keep(open, pg);
    let t = todo_list_of(log);
    assert(t == a + b + c + d);
    assert forall|k: int| 0 <= k < t.len() implies
        !(#[trigger] t[k]).resolved && log.contains(t[k]) by {
        let x = t[k];
        if k < a.len() {
            assert(x == a[k]);
        } else if k < a.len() + b.len() {
            assert(x == b[k - a.len()]);
        } else if k < a.len() + b.len() + c.len() {
            assert(x == c[k - a.len() - b.len()]);
        } else {
            assert(x == d[k - a.len() - b.len() - c.len()]);
        }
        assert(open.contains(x));
        let j = choose|j: int| 0 <= j < open.len() && open[j] == x;
        assert(is_unresolved()(open[j]) && log.contains(open[j]));
    }
}

/// `e` is a newly logged, unresolved entry with exactly these contents.
pub open spec fn is_new_entry(
    e: AuditEntry,
    id: Seq<char>,
    at: i64,
    category: AuditCategory,
    severity: TaskPriority,
    source_module: Seq<char>,
    message: Seq<char>,
    details: Option<Seq<char>>,
) -> bool {
    &&& e.id@ == id
    &&& e.timestamp == at
    &&& e.category == category
    &&& e.severity == severity
    &&& e.source_module@ == source_module
    &&& e.message@ == message
    &&& match (e.details, details) {
        (Some(d), Some(x)) => d@ == x,
        (None, None) => true,
        _ => false,
    }
    &&& !e.resolved
    &&& e.resolved_at == None::<i64>
    &&& !e.auto_resolved
}

/// The characters of an optional string.
pub open spec fn opt_chars(o: Option<String>) -> Option<Seq<char>> {
    match o {
        Some(s) => Some(s@),
        None => None,
    }
}

/// An audit entry whose id is `id`.
pub open spec fn audit_id_is(id: Seq<char>) -> spec_fn(AuditEntry) -> bool {
    |e: AuditEntry| e.id@ == id
}

/// A dependency named `name`.
pub open spec fn dependency_named(name: Seq<char>) -> spec_fn(DependencyStatus) -> bool {
    |d: DependencyStatus| d.name@ == name
}

/// A process whose id is `id`.
pub open spec fn process_id_is(id: Seq<char>) -> spec_fn(ProcessAllocation) -> bool {
    |p: ProcessAllocation| p.process_id@ == id
}

/// The dependency list after registering or replacing `status`: the first
/// dependency with the same name is replaced, otherwise `status` is added.
pub open spec fn upsert_dependency(deps: Seq<DependencyStatus>, status: DependencyStatus) -> Seq<DependencyStatus> {
    let i = first_index(deps, dependency_named(status.name@));
    if i >= 0 {
        deps.update(i, status)
    } else {
        deps.push(status)
    }
}

/// No two dependencies share a name.
pub open spec fn names_unique(deps: Seq<DependencyStatus>) -> bool {
    forall|i: int, j: int| 0 <= i < j < deps.len() ==> deps[i].name@ != deps[j].name@
}

/// The health score, in whole points, for these open-entry counts.
pub open spec fn health_points(red: u32, orange: u32, yellow: u32, security: u32) -> nat {
    let penalty = 25 * red + 10 * orange + 3 * yellow + 15 * security;
    if penalty >= 100 { 0 } else { (100 - penalty) as nat }
}

/// Milliseconds in 24 hours.
pub const DAY_MILLIS: i64 = 86400000;

/// An open entry logged after `since`.
pub open spec fn pending_since(since: int) -> spec_fn(AuditEntry) -> bool {
    |e: AuditEntry| !e.resolved && e.timestamp > since
}

/// The summary of the state at `now`.
pub open spec fn summary_of(deps: Seq<DependencyStatus>, log: Seq<AuditEntry>, now: i64) -> DailySummary {
    let red = count(log, entry_filter(Some(TaskPriority::Red), true)) as u32;
    let orange = count(log, entry_filter(Some(TaskPriority::Orange), true)) as u32;
    let yellow = count(log, entry_filter(Some(TaskPriority::Yellow), true)) as u32;
    let green = count(log, entry_filter(Some(TaskPriority::Green), true)) as u32;
    let security = count(deps, has_advisory()) as u32;
    DailySummary {
        date: now,
        total_dependencies: deps.len() as u32,
        outdated_count: count(deps, is_outdated()) as u32,
        security_alerts: security,
        auto_updated: count(deps, is_auto_updated()) as u32,
        pending_review: count(log, pending_since(now - DAY_MILLIS)) as u32,
        system_health_score: (health_points(red, orange, yellow, security) * 100) as u64,
        tasks_by_priority: PriorityBreakdown { red, orange, yellow, green },
    }
}

/// The character form of a boolean, as `{}` prints it.
pub open spec fn bool_chars(b: bool) -> Seq<char> {
    if b { "true"@ } else { "false"@ }
}

fn bool_str(b: bool) -> (s: &'static str)
    ensures
        s@ == bool_chars(b),
{
    if b { "true" } else { "false" }
}

// ── Admin audit engine ───────────────────────────────────────────────────────

pub const MAX_AUDIT_ENTRIES: usize = 1000;
pub const MAX_DAILY_SUMMARIES: usize = 365;
pub const MAX_KERNEL_EVENTS: usize = 500;
pub const MAX_ERROR_RESPONSES: usize = 500;

/// The root Admin Audit Engine: manages audit trails, dependency monitoring,
/// process allocation, kernel protection, and automated error response.
pub struct AdminAuditEngine {
    audit_log: VecDeque<AuditEntry>,
    dependencies: Vec<DependencyStatus>,
    daily_summaries: VecDeque<DailySummary>,
    processes: Vec<ProcessAllocation>,
    kernel_events: VecDeque<KernelProtectionEvent>,
    error_responses: VecDeque<ErrorResponse>,
    max_audit_entries: usize,
    max_daily_summaries: usize,
    max_kernel_events: usize,
    max_error_responses: usize,
}

impl AdminAuditEngine {
    pub closed spec fn audit_log(&self) -> Seq<AuditEntry> {
        self.audit_log@
    }

    pub closed spec fn dependencies(&self) -> Seq<DependencyStatus> {
        self.dependencies@
    }

    pub closed spec fn daily_summaries(&self) -> Seq<DailySummary> {
        self.daily_summaries@
    }

    pub closed spec fn processes(&self) -> Seq<ProcessAllocation> {
        self.processes@
    }

    pub closed spec fn kernel_events(&self) -> Seq<KernelProtectionEvent> {
        self.kernel_events@
    }

    pub closed spec fn error_responses(&self) -> Seq<ErrorResponse> {
        self.error_responses@
    }

    /// Every bounded record is within its capacity and dependency names are unique.
    pub closed spec fn wf(&self) -> bool {
        &&& self.max_audit_entries == MAX_AUDIT_ENTRIES
        &&& self.max_daily_summaries == MAX_DAILY_SUMMARIES
        &&& self.max_kernel_events == MAX_KERNEL_EVENTS
        &&& self.max_error_responses == MAX_ERROR_RESPONSES
        &&& self.audit_log@.len() <= MAX_AUDIT_ENTRIES
        &&& self.daily_summaries@.len() <= MAX_DAILY_SUMMARIES
        &&& self.kernel_events@.len() <= MAX_KERNEL_EVENTS
        &&& self.error_responses@.len() <= MAX_ERROR_RESPONSES
        &&& names_unique(self.dependencies@)
    }

    /// What `wf` promises, in terms a caller can read.
    pub proof fn lemma_wf(&self)
        requires
            self.wf(),
        ensures
            self.audit_log().len() <= MAX_AUDIT_ENTRIES,
            self.daily_summaries().len() <= MAX_DAILY_SUMMARIES,
            self.kernel_events().len() <= MAX_KERNEL_EVENTS,
            self.error_responses().len() <= MAX_ERROR_RESPONSES,
            names_unique(self.dependencies()),
    {
    }

    pub fn new() -> (e: Self)
        ensures
            e.wf(),
            e.audit_log() == Seq::<AuditEntry>::empty(),
            e.dependencies() == Seq::<DependencyStatus>::empty(),
            e.daily_summaries() == Seq::<DailySummary>::empty(),
            e.processes() == Seq::<ProcessAllocation>::empty(),
            e.kernel_events() == Seq::<KernelProtectionEvent>::empty(),
            e.error_responses() == Seq::<ErrorResponse>::empty(),
    {
        AdminAuditEngine {
            audit_log: VecDeque::new(),
            dependencies: Vec::new(),
            daily_summaries: VecDeque::new(),
            processes: Vec::new(),
            kernel_events: VecDeque::new(),
            error_responses: VecDeque::new(),
            max_audit_entries: MAX_AUDIT_ENTRIES,
            max_daily_summaries: MAX_DAILY_SUMMARIES,
            max_kernel_events: MAX_KERNEL_EVENTS,
            max_error_responses: MAX_ERROR_RESPONSES,
        }
    }

    // ── Audit trail logging ──────────────────────────────────────────────────

    /// Logs a new, unresolved audit entry with the given id and time.
    pub fn log_audit_at(
        &mut self,
        id: String,
        at: i64,
        category: AuditCategory,
        severity: TaskPriority,
        source_module: &str,
        message: &str,
        details: Option<String>,
    ) -> (e: AuditEntry)
        requires
            old(self).wf(),
        ensures
            final(self).wf(),
            is_new_entry(e, id@, at, category, severity, source_module@, message@, opt_chars(details)),
            final(self).audit_log() == bounded_push(old(self).audit_log(), e, MAX_AUDIT_ENTRIES as nat),
            final(self).dependencies() == old(self).dependencies(),
            final(self).daily_summaries() == old(self).daily_summaries(),
            final(self).processes() == old(self).processes(),
            final(self).kernel_events() == old(self).kernel_events(),
            final(self).error_responses() == old(self).error_responses(),
    {
        let entry = AuditEntry {
            id,
            timestamp: at,
            category,
            severity,
            source_module: String::from_str(source_module),
            message: String::from_str(message),
            details,
            resolved: false,
            resolved_at: None,
            auto_resolved: false,
        };
        let kept = entry.duplicate();
        proof { lemma_bounded_push_len(self.audit_log@, kept, MAX_AUDIT_ENTRIES as nat); }
        push_back_bounded(&mut self.audit_log, kept, self.max_audit_entries);
        entry
    }

    /// Logs a new audit entry to the development trail, stamped now.
    pub fn log_audit(
        &mut self,
        category: AuditCategory,
        severity: TaskPriority,
        source_module: &str,
        message: &str,
        details: Option<String>,
    ) -> (e: AuditEntry)
        requires
            old(self).wf(),
        ensures
            final(self).wf(),
            is_new_entry(e, e.id@, e.timestamp, category, severity, source_module@, message@, opt_chars(details)),
            uuid_v4_text(e.id@),
            e.timestamp >= 0,
            final(self).audit_log() == bounded_push(old(self).audit_log(), e, MAX_AUDIT_ENTRIES as nat),
            final(self).dependencies() == old(self).dependencies(),
            final(self).daily_summaries() == old(self).daily_summaries(),
            final(self).processes() == old(self).processes(),
            final(self).kernel_events() == old(self).kernel_events(),
            final(self).error_responses() == old(self).error_responses(),
    {
        let id = new_id();
        let at = now_millis();
        self.log_audit_at(id, at, category, severity, source_module, message, details)
    }

    fn find_audit(&self, id: &str) -> (r: usize)
        ensures
            r <= self.audit_log@.len(),
            r as int == self.audit_log@.len() || self.audit_log@[r as int].id@ == id@,
            forall|k: int| 0 <= k < r ==> #[trigger] self.audit_log@[k].id@ != id@,
    {
        let mut i: usize = 0;
        while i < self.audit_log.len()
            invariant
                i <= self.audit_log@.len(),
                forall|k: int| 0 <= k < i ==> #[trigger] self.audit_log@[k].id@ != id@,
            decreases self.audit_log@.len() - i,
        {
            if str_eq(self.audit_log[i].id.as_str(), id) {
                return i;
            }
            i = i + 1;
        }
        i
    }

    /// Marks the first audit entry with this id as resolved at `now`.
    pub fn resolve_audit_at(&mut self, id: &str, auto: bool, now: i64) -> (r: Result<AuditEntry, AdminError>)
        requires
            old(self).wf(),
        ensures
            final(self).wf(),
            ({
                let i = first_index(old(self).audit_log(), audit_id_is(id@));
                match r {
                    Ok(e) => {
                        &&& i >= 0
                        &&& e == (AuditEntry {
                            resolved: true,
                            resolved_at: Some(now),
                            auto_resolved: auto,
                            ..old(self).audit_log()[i]
                        })
                        &&& final(self).audit_log() == old(self).audit_log().update(i, e)
                    },
                    Err(err) => {
                        &&& i < 0
                        &&& err == AdminError::AuditNotFound(err->AuditNotFound_0)
                        &&& err->AuditNotFound_0@ == id@
                        &&& final(self).audit_log() == old(self).audit_log()
                    },
                }
            }),
            final(self).dependencies() == old(self).dependencies(),
            final(self).daily_summaries() == old(self).daily_summaries(),
            final(self).processes() == old(self).processes(),
            final(self).kernel_events() == old(self).kernel_events(),
            final(self).error_responses() == old(self).error_responses(),
    {
        let i = self.find_audit(id);
        proof {
            assert forall|k: int| 0 <= k < i implies !(#[trigger] audit_id_is(id@)(self.audit_log@[k])) by {}
            lemma_first_index(self.audit_log@, audit_id_is(id@), i as int);
        }
        if i == self.audit_log.len() {
            return Err(AdminError::AuditNotFound(String::from_str(id)));
        }
        let mut entry = self.audit_log[i].duplicate();
        entry.resolved = true;
        entry.resolved_at = Some(now);
        entry.auto_resolved = auto;
        let kept = entry.duplicate();
        let ghost before = self.audit_log@;
        let _ = self.audit_log.remove(i);
        self.audit_log.insert(i, kept);
        assert(self.audit_log@ =~= before.update(i as int, kept));
        Ok(entry)
    }

    /// Marks an audit entry as resolved, now.
    pub fn resolve_audit(&mut self, id: &str, auto: bool) -> (r: Result<AuditEntry, AdminError>)
        requires
            old(self).wf(),
        ensures
            final(self).wf(),
            ({
                let i = first_index(old(self).audit_log(), audit_id_is(id@));
                match r {
                    Ok(e) => {
                        &&& i >= 0
                        &&& e.resolved_at is Some
                        &&& e == (AuditEntry {
                            resolved: true,
                            resolved_at: e.resolved_at,
                            auto_resolved: auto,
                            ..old(self).audit_log()[i]
                        })
                        &&& final(self).audit_log() == old(self).audit_log().update(i, e)
                    },
                    Err(err) => {
                        &&& i < 0
                        &&& err->AuditNotFound_0@ == id@
                        &&& err is AuditNotFound
                        &&& final(self).audit_log() == old(self).audit_log()
                    },
                }
            }),
            final(self).dependencies() == old(self).dependencies(),
            final(self).daily_summaries() == old(self).daily_summaries(),
            final(self).processes() == old(self).processes(),
            final(self).kernel_events() == old(self).kernel_events(),
            final(self).error_responses() == old(self).error_responses(),
    {
        let now = now_millis();
        self.resolve_audit_at(id, auto, now)
    }

    fn collect_entries(&self, sev: Option<TaskPriority>, unresolved_only: bool) -> (r: Vec<AuditEntry>)
        ensures
            r@ == keep(self.audit_log@, entry_filter(sev, unresolved_only)),
    {
        let ghost f = entry_filter(sev, unresolved_only);
        let mut r: Vec<AuditEntry> = Vec::new();
        let mut i: usize = 0;
        while i < self.audit_log.len()
            invariant
                i <= self.audit_log@.len(),
                f == entry_filter(sev, unresolved_only),
                r@ == keep(self.audit_log@.subrange(0, i as int), f),
            decreases self.audit_log@.len() - i,
        {
            proof { lemma_keep_step(self.audit_log@, f, i as int); }
            let e = &self.audit_log[i];
            let matches = (!unresolved_only || !e.resolved) && match sev {
                Some(p) => e.severity == p,
                None => true,
            };
            if matches {
                r.push(e.duplicate());
            }
            i = i + 1;
        }
        assert(self.audit_log@.subrange(0, self.audit_log@.len() as int) =~= self.audit_log@);
        r
    }

    /// All audit entries, or those of one priority, most recent first.
    pub fn get_audit_log(&self, priority_filter: Option<TaskPriority>) -> (r: Vec<AuditEntry>)
        ensures
            r@ == audit_log_view(self.audit_log(), priority_filter),
    {
        let matching = self.collect_entries(priority_filter, false);
        latest_first(&matching, matching.len())
    }

    /// The unresolved entries ordered by priority (red first).
    pub fn get_todo_list(&self) -> (r: Vec<AuditEntry>)
        ensures
            r@ == todo_list_of(self.audit_log()),
    {
        let mut r = self.collect_entries(Some(TaskPriority::Red), true);
        let mut orange = self.collect_entries(Some(TaskPriority::Orange), true);
        let mut yellow = self.collect_entries(Some(TaskPriority::Yellow), true);
        let mut green = self.collect_entries(Some(TaskPriority::Green), true);
        r.append(&mut orange);
        r.append(&mut yellow);
        r.append(&mut green);
        proof {
            let log = self.audit_log@;
            let u = is_unresolved();
            let sev = audit_severity();
            let pr = |x: AuditEntry| sev(x) == TaskPriority::Red;
            let po = |x: AuditEntry| sev(x) == TaskPriority::Orange;
            let py = |x: AuditEntry| sev(x) == TaskPriority::Yellow;
            let pg = |x: AuditEntry| sev(x) == TaskPriority::Green;
            lemma_keep_keep(log, u, pr);
            lemma_keep_keep(log, u, po);
            lemma_keep_keep(log, u, py);
            lemma_keep_keep(log, u, pg);
            assert((|x: AuditEntry| u(x) && pr(x)) =~= entry_filter(Some(TaskPriority::Red), true));
            assert((|x: AuditEntry| u(x) && po(x)) =~= entry_filter(Some(TaskPriority::Orange), true));
            assert((|x: AuditEntry| u(x) && py(x)) =~= entry_filter(Some(TaskPriority::Yellow), true));
            assert((|x: AuditEntry| u(x) && pg(x)) =~= entry_filter(Some(TaskPriority::Green), true));
        }
        r
    }
}

impl AdminAuditEngine {
    // ── Dependency monitoring ────────────────────────────────────────────────

    /// Registers `status`, or replaces the dependency of the same name.
    pub fn update_dependency(&mut self, status: DependencyStatus)
        requires
            old(self).wf(),
        ensures
            final(self).wf(),
            final(self).dependencies() == upsert_dependency(old(self).dependencies(), status),
            final(self).audit_log() == old(self).audit_log(),
            final(self).daily_summaries() == old(self).daily_summaries(),
            final(self).processes() == old(self).processes(),
            final(self).kernel_events() == old(self).kernel_events(),
            final(self).error_responses() == old(self).error_responses(),
    {
        let ghost deps = self.dependencies@;
        let mut i: usize = 0;
        while i < self.dependencies.len()
            invariant
                *self == *old(self),
                self.wf(),
                self.dependencies@ == deps,
                i <= deps.len(),
                forall|k: int| 0 <= k < i ==> #[trigger] deps[k].name@ != status.name@,
            decreases deps.len() - i,
        {
            if self.dependencies[i].name == status.name {
                proof {
                    assert forall|k: int| 0 <= k < i implies !(#[trigger] dependency_named(status.name@)(deps[k])) by {}
                    lemma_first_index(deps, dependency_named(status.name@), i as int);
                }
                self.dependencies.set(i, status);
                proof {
                    assert forall|a: int, b: int| 0 <= a < b < self.dependencies@.len()
                        implies self.dependencies@[a].name@ != self.dependencies@[b].name@ by {
                        if a == i {
                            assert(deps[b].name@ != deps[i as int].name@);
                        } else if b == i {
                            assert(deps[a].name@ != deps[i as int].name@);
                        }
                    }
                }
                return;
            }
            i = i + 1;
        }
        proof {
            assert forall|k: int| 0 <= k < i implies !(#[trigger] dependency_named(status.name@)(deps[k])) by {}
            lemma_first_index(deps, dependency_named(status.name@), i as int);
        }
        self.dependencies.push(status);
        proof {
            assert forall|a: int, b: int| 0 <= a < b < self.dependencies@.len()
                implies self.dependencies@[a].name@ != self.dependencies@[b].name@ by {
                if b == deps.len() {
                    assert(deps[a].name@ != status.name@);
                }
            }
        }
    }

    fn collect_dependencies(&self, p: TaskPriority) -> (r: Vec<DependencyStatus>)
        ensures
            r@ == keep(self.dependencies@, |x: DependencyStatus| dependency_priority()(x) == p),
    {
        let ghost f = |x: DependencyStatus| dependency_priority()(x) == p;
        let mut r: Vec<DependencyStatus> = Vec::new();
        let mut i: usize = 0;
        while i < self.dependencies.len()
            invariant
                i <= self.dependencies@.len(),
                f == (|x: DependencyStatus| dependency_priority()(x) == p),
                r@ == keep(self.dependencies@.subrange(0, i as int), f),
            decreases self.dependencies@.len() - i,
        {
            proof { lemma_keep_step(self.dependencies@, f, i as int); }
            if self.dependencies[i].priority == p {
                r.push(self.dependencies[i].duplicate());
            }
            i = i + 1;
        }
        assert(self.dependencies@.subrange(0, self.dependencies@.len() as int) =~= self.dependencies@);
        r
    }

    /// All dependencies ordered by priority (urgent first).
    pub fn get_dependencies(&self) -> (r: Vec<DependencyStatus>)
        ensures
            r@ == by_priority(self.dependencies(), dependency_priority()),
    {
        let mut r = self.collect_dependencies(TaskPriority::Red);
        let mut orange = self.collect_dependencies(TaskPriority::Orange);
        let mut yellow = self.collect_dependencies(TaskPriority::Yellow);
        let mut green = self.collect_dependencies(TaskPriority::Green);
        r.append(&mut orange);
        r.append(&mut yellow);
        r.append(&mut green);
        r
    }

    fn count_dependencies(&self, which: u8) -> (n: usize)
        requires
            which < 3,
        ensures
            n == count(self.dependencies@, if which == 0 { is_outdated() } else if which == 1 {
                has_advisory() } else { is_auto_updated() }),
            n <= self.dependencies@.len(),
    {
        let ghost f = if which == 0 { is_outdated() } else if which == 1 { has_advisory() } else { is_auto_updated() };
        let mut n: usize = 0;
        let mut i: usize = 0;
        while i < self.dependencies.len()
            invariant
                i <= self.dependencies@.len(),
                f == (if which == 0 { is_outdated() } else if which == 1 { has_advisory() } else { is_auto_updated() }),
                n == keep(self.dependencies@.subrange(0, i as int), f).len(),
                n <= i,
            decreases self.dependencies@.len() - i,
        {
            proof { lemma_keep_step(self.dependencies@, f, i as int); }
            let d = &self.dependencies[i];
            let hit = if which == 0 {
                match &d.latest_version {
                    Some(l) => !(*l == d.current_version),
                    None => false,
                }
            } else if which == 1 {
                d.has_security_advisory
            } else {
                d.auto_updatable && d.update_scheduled
            };
            if hit {
                n = n + 1;
            }
            i = i + 1;
        }
        assert(self.dependencies@.subrange(0, self.dependencies@.len() as int) =~= self.dependencies@);
        n
    }

    fn count_entries(&self, f: Ghost<spec_fn(AuditEntry) -> bool>, sev: Option<TaskPriority>, since: Option<i64>) -> (n: usize)
        requires
            f@ == (match since {
                Some(t) => pending_since(t as int),
                None => entry_filter(sev, true),
            }),
        ensures
            n == count(self.audit_log@, f@),
            n <= self.audit_log@.len(),
    {
        let mut n: usize = 0;
        let mut i: usize = 0;
        while i < self.audit_log.len()
            invariant
                i <= self.audit_log@.len(),
                f@ == (match since {
                    Some(t) => pending_since(t as int),
                    None => entry_filter(sev, true),
                }),
                n == keep(self.audit_log@.subrange(0, i as int), f@).len(),
                n <= i,
            decreases self.audit_log@.len() - i,
        {
            proof { lemma_keep_step(self.audit_log@, f@, i as int); }
            let e = &self.audit_log[i];
            let hit = match since {
                Some(t) => !e.resolved && e.timestamp > t,
                None => !e.resolved && match sev {
                    Some(p) => e.severity == p,
                    None => true,
                },
            };
            if hit {
                n = n + 1;
            }
            i = i + 1;
        }
        assert(self.audit_log@.subrange(0, self.audit_log@.len() as int) =~= self.audit_log@);
        n
    }

    /// Summarises the state at `now` and retains the summary.
    pub fn generate_daily_summary_at(&mut self, now: i64) -> (d: DailySummary)
        requires
            old(self).wf(),
            now >= i64::MIN + DAY_MILLIS,
        ensures
            final(self).wf(),
            d == summary_of(old(self).dependencies(), old(self).audit_log(), now),
            final(self).daily_summaries() == bounded_push(old(self).daily_summaries(), d, MAX_DAILY_SUMMARIES as nat),
            final(self).audit_log() == old(self).audit_log(),
            final(self).dependencies() == old(self).dependencies(),
            final(self).processes() == old(self).processes(),
            final(self).kernel_events() == old(self).kernel_events(),
            final(self).error_responses() == old(self).error_responses(),
    {
        let total_dependencies = self.dependencies.len() as u32;
        let outdated_count = self.count_dependencies(0) as u32;
        let security_alerts = self.count_dependencies(1) as u32;
        let auto_updated = self.count_dependencies(2) as u32;
        let since = now - DAY_MILLIS;
        let pending_review = self.count_entries(Ghost(pending_since(since as int)), None, Some(since)) as u32;
        let red = self.count_entries(Ghost(entry_filter(Some(TaskPriority::Red), true)), Some(TaskPriority::Red), None) as u32;
        let orange = self.count_entries(Ghost(entry_filter(Some(TaskPriority::Orange), true)), Some(TaskPriority::Orange), None) as u32;
        let yellow = self.count_entries(Ghost(entry_filter(Some(TaskPriority::Yellow), true)), Some(TaskPriority::Yellow), None) as u32;
        let green = self.count_entries(Ghost(entry_filter(Some(TaskPriority::Green), true)), Some(TaskPriority::Green), None) as u32;
        let penalty: u64 = 25 * (red as u64) + 10 * (orange as u64) + 3 * (yellow as u64) + 15 * (security_alerts as u64);
        let points: u64 = if penalty >= 100 { 0 } else { 100 - penalty };
        let summary = DailySummary {
            date: now,
            total_dependencies,
            outdated_count,
            security_alerts,
            auto_updated,
            pending_review,
            system_health_score: points * 100,
            tasks_by_priority: PriorityBreakdown { red, orange, yellow, green },
        };
        proof { lemma_bounded_push_len(self.daily_summaries@, summary, MAX_DAILY_SUMMARIES as nat); }
        push_back_bounded(&mut self.daily_summaries, summary, self.max_daily_summaries);
        summary
    }

    /// Summarises the current system state and retains the summary.
    pub fn generate_daily_summary(&mut self) -> (d: DailySummary)
        requires
            old(self).wf(),
        ensures
            final(self).wf(),
            d == summary_of(old(self).dependencies(), old(self).audit_log(), d.date),
            d.date >= 0,
            final(self).daily_summaries() == bounded_push(old(self).daily_summaries(), d, MAX_DAILY_SUMMARIES as nat),
            final(self).audit_log() == old(self).audit_log(),
            final(self).dependencies() == old(self).dependencies(),
            final(self).processes() == old(self).processes(),
            final(self).kernel_events() == old(self).kernel_events(),
            final(self).error_responses() == old(self).error_responses(),
    {
        let now = now_millis();
        self.generate_daily_summary_at(now)
    }

    /// The most recent `count` daily summaries, newest first.
    pub fn get_daily_summaries(&self, count: usize) -> (r: Vec<DailySummary>)
        ensures
            r@ == latest(self.daily_summaries(), count as nat),
    {
        latest_first_of(&self.daily_summaries, count)
    }
}

/// `p` is a newly allocated, running process with these contents.
pub open spec fn is_new_process(
    p: ProcessAllocation,
    id: Seq<char>,
    at: i64,
    name: Seq<char>,
    priority: TaskPriority,
    memory_limit_mb: u64,
    cpu_quota_pct: Centi,
    protected: bool,
) -> bool {
    &&& p.process_id@ == id
    &&& p.name@ == name
    &&& p.allocated_at == at
    &&& p.priority == priority
    &&& p.memory_limit_mb == memory_limit_mb
    &&& p.cpu_quota_pct == cpu_quota_pct
    &&& p.status == ProcessStatus::Running
    &&& p.protected == protected
}

/// The live processes, red first, each priority in allocation order.
pub open spec fn process_list_of(procs: Seq<ProcessAllocation>) -> Seq<ProcessAllocation> {
    by_priority(keep(procs, is_live()), process_priority())
}

/// `e` is the kernel event with exactly these contents.
pub open spec fn is_kernel_event(
    e: KernelProtectionEvent,
    id: Seq<char>,
    at: i64,
    event_type: KernelEventType,
    source: Seq<char>,
    threat_level: TaskPriority,
    description: Seq<char>,
    action_taken: Seq<char>,
    blocked: bool,
) -> bool {
    &&& e.id@ == id
    &&& e.timestamp == at
    &&& e.event_type == event_type
    &&& e.source@ == source
    &&& e.threat_level == threat_level
    &&& e.description@ == description
    &&& e.action_taken@ == action_taken
    &&& e.blocked == blocked
}

/// The audit trail after a kernel event: urgent threats are logged as an
/// unresolved kernel-protection entry, others leave the trail unchanged.
pub open spec fn kernel_audit_follows(
    before: Seq<AuditEntry>,
    after: Seq<AuditEntry>,
    e: KernelProtectionEvent,
    audit_id: Seq<char>,
    audit_at: i64,
) -> bool {
    if e.threat_level.spec_is_urgent() {
        &&& after.len() > 0
        &&& after == bounded_push(before, after.last(), MAX_AUDIT_ENTRIES as nat)
        &&& is_new_entry(
            after.last(),
            audit_id,
            audit_at,
            AuditCategory::KernelProtection,
            e.threat_level,
            "kernel_protection"@,
            "Security event: "@ + e.description@,
            Some("Action: "@ + e.action_taken@ + " | Blocked: "@ + bool_chars(e.blocked)),
        )
    } else {
        after == before
    }
}

/// `r` is the response to an error, diagnosed from the lower-cased message.
pub open spec fn is_error_response(
    r: ErrorResponse,
    id: Seq<char>,
    at: i64,
    duration_ms: u64,
    error_source: Seq<char>,
    error_type: Seq<char>,
    message: Seq<char>,
    lower: Seq<char>,
) -> bool {
    let (diagnosis, action) = diagnosis_of(error_type, lower);
    &&& r.id@ == id
    &&& r.timestamp == at
    &&& r.error_source@ == error_source
    &&& r.error_type@ == error_type
    &&& r.original_message@ == message
    &&& r.auto_diagnosis@ == diagnosis
    &&& r.resolution_action == action
    &&& r.resolved == (action == ResolutionAction::AutoFixed)
    &&& r.resolution_duration_ms == duration_ms
}

/// The audit trail after an error response: an unresolved response is
/// escalated as an automation entry, a fixed one leaves the trail unchanged.
pub open spec fn error_audit_follows(
    before: Seq<AuditEntry>,
    after: Seq<AuditEntry>,
    r: ErrorResponse,
    audit_id: Seq<char>,
    audit_at: i64,
) -> bool {
    if !r.resolved {
        &&& after.len() > 0
        &&& after == bounded_push(before, after.last(), MAX_AUDIT_ENTRIES as nat)
        &&& is_new_entry(
            after.last(),
            audit_id,
            audit_at,
            AuditCategory::AutomationEvent,
            escalation_severity(r.resolution_action),
            r.error_source@,
            "Auto-error response: "@ + r.original_message@,
            Some("Diagnosis: "@ + r.auto_diagnosis@),
        )
    } else {
        after == before
    }
}

impl AdminAuditEngine {
    // ── Process allocation ───────────────────────────────────────────────────

    /// Allocates a running process with the given id and time.
    pub fn allocate_process_at(
        &mut self,
        id: String,
        at: i64,
        name: &str,
        priority: TaskPriority,
        memory_limit_mb: u64,
        cpu_quota_pct: Centi,
        protected: bool,
    ) -> (p: ProcessAllocation)
        requires
            old(self).wf(),
        ensures
            final(self).wf(),
            is_new_process(p, id@, at, name@, priority, memory_limit_mb, cpu_quota_pct, protected),
            final(self).processes() == old(self).processes().push(p),
            final(self).audit_log() == old(self).audit_log(),
            final(self).dependencies() == old(self).dependencies(),
            final(self).daily_summaries() == old(self).daily_summaries(),
            final(self).kernel_events() == old(self).kernel_events(),
            final(self).error_responses() == old(self).error_responses(),
    {
        let allocation = ProcessAllocation {
            process_id: id,
            name: String::from_str(name),
            allocated_at: at,
            priority,
            memory_limit_mb,
            cpu_quota_pct,
            status: ProcessStatus::Running,
            protected,
        };
        self.processes.push(allocation.duplicate());
        allocation
    }

    /// Allocates a new admin process with resource limits.
    pub fn allocate_process(
        &mut self,
        name: &str,
        priority: TaskPriority,
        memory_limit_mb: u64,
        cpu_quota_pct: Centi,
        protected: bool,
    ) -> (p: ProcessAllocation)
        requires
            old(self).wf(),
        ensures
            final(self).wf(),
            is_new_process(p, p.process_id@, p.allocated_at, name@, priority, memory_limit_mb, cpu_quota_pct, protected),
            uuid_v4_text(p.process_id@),
            final(self).processes() == old(self).processes().push(p),
            final(self).audit_log() == old(self).audit_log(),
            final(self).dependencies() == old(self).dependencies(),
            final(self).daily_summaries() == old(self).daily_summaries(),
            final(self).kernel_events() == old(self).kernel_events(),
            final(self).error_responses() == old(self).error_responses(),
    {
        let id = new_id();
        let at = now_millis();
        self.allocate_process_at(id, at, name, priority, memory_limit_mb, cpu_quota_pct, protected)
    }

    /// Changes the status of the first process with this id; a protected
    /// process cannot be terminated.
    pub fn update_process_status(&mut self, process_id: &str, status: ProcessStatus) -> (r: Result<ProcessAllocation, AdminError>)
        requires
            old(self).wf(),
        ensures
            final(self).wf(),
            ({
                let i = first_index(old(self).processes(), process_id_is(process_id@));
                match r {
                    Ok(p) => {
                        &&& i >= 0
                        &&& !(old(self).processes()[i].protected && status == ProcessStatus::Terminated)
                        &&& p == (ProcessAllocation { status, ..old(self).processes()[i] })
                        &&& final(self).processes() == old(self).processes().update(i, p)
                    },
                    Err(err) => {
                        &&& final(self).processes() == old(self).processes()
                        &&& if i < 0 {
                            err is ProcessNotFound && err->ProcessNotFound_0@ == process_id@
                        } else {
                            &&& old(self).processes()[i].protected
                            &&& status == ProcessStatus::Terminated
                            &&& err is ProtectedProcess
                            &&& err->ProtectedProcess_0@ == old(self).processes()[i].name@
                        }
                    },
                }
            }),
            final(self).audit_log() == old(self).audit_log(),
            final(self).dependencies() == old(self).dependencies(),
            final(self).daily_summaries() == old(self).daily_summaries(),
            final(self).kernel_events() == old(self).kernel_events(),
            final(self).error_responses() == old(self).error_responses(),
    {
        let mut i: usize = 0;
        while i < self.processes.len()
            invariant
                *self == *old(self),
                i <= self.processes@.len(),
                forall|k: int| 0 <= k < i ==> #[trigger] self.processes@[k].process_id@ != process_id@,
            ensures
                *self == *old(self),
                i <= self.processes@.len(),
                forall|k: int| 0 <= k < i ==> #[trigger] self.processes@[k].process_id@ != process_id@,
                i == self.processes@.len() || self.processes@[i as int].process_id@ == process_id@,
            decreases self.processes@.len() - i,
        {
            if str_eq(self.processes[i].process_id.as_str(), process_id) {
                break;
            }
            i = i + 1;
        }
        proof {
            assert forall|k: int| 0 <= k < i implies !(#[trigger] process_id_is(process_id@)(self.processes@[k])) by {}
            lemma_first_index(self.processes@, process_id_is(process_id@), i as int);
        }
        if i == self.processes.len() {
            return Err(AdminError::ProcessNotFound(String::from_str(process_id)));
        }
        if self.processes[i].protected && status == ProcessStatus::Terminated {
            return Err(AdminError::ProtectedProcess(self.processes[i].name.clone()));
        }
        let mut p = self.processes[i].duplicate();
        p.status = status;
        self.processes.set(i, p.duplicate());
        Ok(p)
    }

    fn collect_processes(&self, p: TaskPriority) -> (r: Vec<ProcessAllocation>)
        ensures
            r@ == keep(self.processes@, |x: ProcessAllocation| is_live()(x) && process_priority()(x) == p),
    {
        let ghost f = |x: ProcessAllocation| is_live()(x) && process_priority()(x) == p;
        let mut r: Vec<ProcessAllocation> = Vec::new();
        let mut i: usize = 0;
        while i < self.processes.len()
            invariant
                i <= self.processes@.len(),
                f == (|x: ProcessAllocation| is_live()(x) && process_priority()(x) == p),
                r@ == keep(self.processes@.subrange(0, i as int), f),
            decreases self.processes@.len() - i,
        {
            proof { lemma_keep_step(self.processes@, f, i as int); }
            if self.processes[i].status != ProcessStatus::Terminated && self.processes[i].priority == p {
                r.push(self.processes[i].duplicate());
            }
            i = i + 1;
        }
        assert(self.processes@.subrange(0, self.processes@.len() as int) =~= self.processes@);
        r
    }

    /// All processes that are not terminated, sorted by priority.
    pub fn list_processes(&self) -> (r: Vec<ProcessAllocation>)
        ensures
            r@ == process_list_of(self.processes()),
    {
        let mut r = self.collect_processes(TaskPriority::Red);
        let mut orange = self.collect_processes(TaskPriority::Orange);
        let mut yellow = self.collect_processes(TaskPriority::Yellow);
        let mut green = self.collect_processes(TaskPriority::Green);
        r.append(&mut orange);
        r.append(&mut yellow);
        r.append(&mut green);
        proof {
            let s = self.processes@;
            let pr = |x: ProcessAllocation| process_priority()(x) == TaskPriority::Red;
            let po = |x: ProcessAllocation| process_priority()(x) == TaskPriority::Orange;
            let py = |x: ProcessAllocation| process_priority()(x) == TaskPriority::Yellow;
            let pg = |x: ProcessAllocation| process_priority()(x) == TaskPriority::Green;
            lemma_keep_keep(s, is_live(), pr);
            lemma_keep_keep(s, is_live(), po);
            lemma_keep_keep(s, is_live(), py);
            lemma_keep_keep(s, is_live(), pg);
            assert((|x: ProcessAllocation| is_live()(x) && pr(x)) =~= (|x: ProcessAllocation| is_live()(x) && process_priority()(x) == TaskPriority::Red));
            assert((|x: ProcessAllocation| is_live()(x) && po(x)) =~= (|x: ProcessAllocation| is_live()(x) && process_priority()(x) == TaskPriority::Orange));
            assert((|x: ProcessAllocation| is_live()(x) && py(x)) =~= (|x: ProcessAllocation| is_live()(x) && process_priority()(x) == TaskPriority::Yellow));
            assert((|x: ProcessAllocation| is_live()(x) && pg(x)) =~= (|x: ProcessAllocation| is_live()(x) && process_priority()(x) == TaskPriority::Green));
        }
        r
    }

    // ── Kernel protection ────────────────────────────────────────────────────

    /// Logs a kernel protection event with the given ids and times; an
    /// urgent threat is also entered in the audit trail.
    pub fn log_kernel_event_at(
        &mut self,
        id: String,
        at: i64,
        audit_id: String,
        audit_at: i64,
        event_type: KernelEventType,
        source: &str,
        threat_level: TaskPriority,
        description: &str,
        action_taken: &str,
        blocked: bool,
    ) -> (e: KernelProtectionEvent)
        requires
            old(self).wf(),
        ensures
            final(self).wf(),
            is_kernel_event(e, id@, at, event_type, source@, threat_level, description@, action_taken@, blocked),
            final(self).kernel_events() == bounded_push(old(self).kernel_events(), e, MAX_KERNEL_EVENTS as nat),
            kernel_audit_follows(old(self).audit_log(), final(self).audit_log(), e, audit_id@, audit_at),
            final(self).dependencies() == old(self).dependencies(),
            final(self).daily_summaries() == old(self).daily_summaries(),
            final(self).processes() == old(self).processes(),
            final(self).error_responses() == old(self).error_responses(),
    {
        let event = KernelProtectionEvent {
            id,
            timestamp: at,
            event_type,
            source: String::from_str(source),
            threat_level,
            description: String::from_str(description),
            action_taken: String::from_str(action_taken),
            blocked,
        };
        let kept = event.duplicate();
        proof { lemma_bounded_push_len(self.kernel_events@, kept, MAX_KERNEL_EVENTS as nat); }
        push_back_bounded(&mut self.kernel_events, kept, self.max_kernel_events);
        if event.threat_level.is_urgent() {
            let mut message = String::from_str("Security event: ");
            message.append(event.description.as_str());
            let mut details = String::from_str("Action: ");
            details.append(event.action_taken.as_str());
            details.append(" | Blocked: ");
            details.append(bool_str(event.blocked));
            let entry = self.log_audit_at(
                audit_id,
                audit_at,
                AuditCategory::KernelProtection,
                event.threat_level,
                "kernel_protection",
                message.as_str(),
                Some(details),
            );
            assert(final(self).audit_log().last() == entry);
        }
        event
    }

    /// Logs a kernel protection event now.
    pub fn log_kernel_event(
        &mut self,
        event_type: KernelEventType,
        source: &str,
        threat_level: TaskPriority,
        description: &str,
        action_taken: &str,
        blocked: bool,
    ) -> (e: KernelProtectionEvent)
        requires
            old(self).wf(),
        ensures
            final(self).wf(),
            is_kernel_event(e, e.id@, e.timestamp, event_type, source@, threat_level, description@, action_taken@, blocked),
            final(self).kernel_events() == bounded_push(old(self).kernel_events(), e, MAX_KERNEL_EVENTS as nat),
            exists|audit_id: Seq<char>, audit_at: i64|
                kernel_audit_follows(old(self).audit_log(), final(self).audit_log(), e, audit_id, audit_at),
            final(self).dependencies() == old(self).dependencies(),
            final(self).daily_summaries() == old(self).daily_summaries(),
            final(self).processes() == old(self).processes(),
            final(self).error_responses() == old(self).error_responses(),
    {
        let id = new_id();
        let at = now_millis();
        let audit_id = new_id();
        let audit_at = now_millis();
        let ghost aid = audit_id@;
        let e = self.log_kernel_event_at(id, at, audit_id, audit_at, event_type, source, threat_level,
            description, action_taken, blocked);
        assert(kernel_audit_follows(old(self).audit_log(), final(self).audit_log(), e, aid, audit_at));
        e
    }

    /// The most recent `limit` kernel events, newest first.
    pub fn get_kernel_events(&self, limit: usize) -> (r: Vec<KernelProtectionEvent>)
        ensures
            r@ == latest(self.kernel_events(), limit as nat),
    {
        latest_first_of(&self.kernel_events, limit)
    }

    // ── Automated error response ─────────────────────────────────────────────

    /// Answers an error whose message, lower-cased, is `lower`, with the
    /// given ids, times and duration; an unresolved response is escalated
    /// to the audit trail.
    pub fn handle_error_at(
        &mut self,
        id: String,
        at: i64,
        duration_ms: u64,
        audit_id: String,
        audit_at: i64,
        error_source: &str,
        error_type: &str,
        message: &str,
        lower: &str,
    ) -> (r: ErrorResponse)
        requires
            old(self).wf(),
        ensures
            final(self).wf(),
            is_error_response(r, id@, at, duration_ms, error_source@, error_type@, message@, lower@),
            final(self).error_responses() == bounded_push(old(self).error_responses(), r, MAX_ERROR_RESPONSES as nat),
            error_audit_follows(old(self).audit_log(), final(self).audit_log(), r, audit_id@, audit_at),
            final(self).dependencies() == old(self).dependencies(),
            final(self).daily_summaries() == old(self).daily_summaries(),
            final(self).processes() == old(self).processes(),
            final(self).kernel_events() == old(self).kernel_events(),
    {
        let (diagnosis, action) = diagnose_lowered(error_type, lower);
        let response = ErrorResponse {
            id,
            timestamp: at,
            error_source: String::from_str(error_source),
            error_type: String::from_str(error_type),
            original_message: String::from_str(message),
            auto_diagnosis: diagnosis,
            resolution_action: action,
            resolved: action == ResolutionAction::AutoFixed,
            resolution_duration_ms: duration_ms,
        };
        let kept = response.duplicate();
        proof { lemma_bounded_push_len(self.error_responses@, kept, MAX_ERROR_RESPONSES as nat); }
        push_back_bounded(&mut self.error_responses, kept, self.max_error_responses);
        if !response.resolved {
            let severity = match action {
                ResolutionAction::Escalated => TaskPriority::Red,
                ResolutionAction::RequiresManual => TaskPriority::Orange,
                ResolutionAction::Retry => TaskPriority::Yellow,
                _ => TaskPriority::Green,
            };
            let mut text = String::from_str("Auto-error response: ");
            text.append(message);
            let mut details = String::from_str("Diagnosis: ");
            details.append(response.auto_diagnosis.as_str());
            let entry = self.log_audit_at(
                audit_id,
                audit_at,
                AuditCategory::AutomationEvent,
                severity,
                error_source,
                text.as_str(),
                Some(details),
            );
            assert(final(self).audit_log().last() == entry);
        }
        response
    }

    /// Processes an error through the internal response engine.
    pub fn handle_error(&mut self, error_source: &str, error_type: &str, message: &str) -> (r: ErrorResponse)
        requires
            old(self).wf(),
        ensures
            final(self).wf(),
            is_error_response(r, r.id@, r.timestamp, r.resolution_duration_ms, error_source@, error_type@,
                message@, lowercase_of(message@)),
            uuid_v4_text(r.id@),
            r.timestamp >= 0,
            final(self).error_responses() == bounded_push(old(self).error_responses(), r, MAX_ERROR_RESPONSES as nat),
            exists|audit_id: Seq<char>, audit_at: i64|
                error_audit_follows(old(self).audit_log(), final(self).audit_log(), r, audit_id, audit_at),
            final(self).dependencies() == old(self).dependencies(),
            final(self).daily_summaries() == old(self).daily_summaries(),
            final(self).processes() == old(self).processes(),
            final(self).kernel_events() == old(self).kernel_events(),
    {
        let timer = start_timer();
        let lower = to_lowercase(message);
        let id = new_id();
        let at = now_millis();
        let duration_ms = elapsed_millis(&timer);
        let audit_id = new_id();
        let audit_at = now_millis();
        let ghost aid = audit_id@;
        let r = self.handle_error_at(id, at, duration_ms, audit_id, audit_at, error_source, error_type,
            message, lower.as_str());
        assert(error_audit_follows(old(self).audit_log(), final(self).audit_log(), r, aid, audit_at));
        r
    }

    /// The most recent `limit` error responses, newest first.
    pub fn get_error_responses(&self, limit: usize) -> (r: Vec<ErrorResponse>)
        ensures
            r@ == latest(self.error_responses(), limit as nat),
    {
        latest_first_of(&self.error_responses, limit)
    }
}

impl Default for AdminAuditEngine {
    fn default() -> (e: Self)
        ensures
            e.wf(),
            e.audit_log() == Seq::<AuditEntry>::empty(),
            e.dependencies() == Seq::<DependencyStatus>::empty(),
            e.daily_summaries() == Seq::<DailySummary>::empty(),
            e.processes() == Seq::<ProcessAllocation>::empty(),
            e.kernel_events() == Seq::<KernelProtectionEvent>::empty(),
            e.error_responses() == Seq::<ErrorResponse>::empty(),
    {
        Self::new()
    }
}

/// How an error is diagnosed, for every error type and lower-cased
/// message. Rules are tried in order and the first that applies decides:
/// "outdated" or "deprecated" in the message, or the type "dependency",
/// schedule an automatic update; otherwise "timeout" or "connection", or
/// the type "network", mean a transient network error that is retried;
/// otherwise "unauthorized" or "permission", or the type "security", are
/// escalated; otherwise "compile" or "build", or the type "build", are
/// researched; anything else is deferred.
pub proof fn law_diagnosis_rules(error_type: Seq<char>, lower: Seq<char>)
    ensures
        ({
            let dependency = has_substring(lower, "outdated"@) || has_substring(lower, "deprecated"@)
                || error_type == "dependency"@;
            let network = has_substring(lower, "timeout"@) || has_substring(lower, "connection"@)
                || error_type == "network"@;
            let security = has_substring(lower, "unauthorized"@) || has_substring(lower, "permission"@)
                || error_type == "security"@;
            let build = has_substring(lower, "compile"@) || has_substring(lower, "build"@)
                || error_type == "build"@;
            let d = diagnosis_of(error_type, lower);
            &&& dependency ==> d == ("Outdated dependency detected. Scheduling automatic update."@,
                ResolutionAction::AutoFixed)
            &&& !dependency && network ==> d == ("Transient network error. Retry scheduled with exponential backoff."@,
                ResolutionAction::Retry)
            &&& !dependency && !network && security ==> d == ("Security-related error detected. Escalating to kernel protection."@,
                ResolutionAction::Escalated)
            &&& !dependency && !network && !security && build ==> d == ("Build system error. Researching root cause and collecting diagnostics."@,
                ResolutionAction::Researching)
            &&& !dependency && !network && !security && !build ==> d == ("Unknown error pattern. Deferred for manual analysis."@,
                ResolutionAction::Deferred)
        }),
{
}

/// The audit severity of an escalated error response follows its action:
/// red for an escalation, orange for manual work, yellow for a retry and
/// green for everything else.
pub proof fn law_escalation_levels(action: ResolutionAction)
    ensures
        action == ResolutionAction::Escalated ==> escalation_severity(action) == TaskPriority::Red,
        action == ResolutionAction::RequiresManual ==> escalation_severity(action) == TaskPriority::Orange,
        action == ResolutionAction::Retry ==> escalation_severity(action) == TaskPriority::Yellow,
        action != ResolutionAction::Escalated && action != ResolutionAction::RequiresManual
            && action != ResolutionAction::Retry ==> escalation_severity(action) == TaskPriority::Green,
{
}

/// A daily summary's pending-review count is the number of audit entries
/// that are unresolved and were logged in the 24 hours before it: never
/// more than the unresolved entries, and 0 when every entry is resolved.
pub proof fn law_pending_review(deps: Seq<DependencyStatus>, log: Seq<AuditEntry>, now: i64)
    requires
        log.len() <= MAX_AUDIT_ENTRIES,
    ensures
        ({
            let pending = log.filter(|e: AuditEntry| !e.resolved && e.timestamp > now - DAY_MILLIS).len();
            let open = log.filter(|e: AuditEntry| !e.resolved).len();
            &&& summary_of(deps, log, now).pending_review == pending
            &&& pending <= open
            &&& (forall|i: int| 0 <= i < log.len() ==> (#[trigger] log[i]).resolved)
                ==> summary_of(deps, log, now).pending_review == 0
        }),
{
    let since = now - DAY_MILLIS;
    let pend = |e: AuditEntry| !e.resolved && e.timestamp > since;
    let unres = |e: AuditEntry| !e.resolved;
    let recent = |e: AuditEntry| e.timestamp > since;
    assert(pending_since(since) =~= pend);
    lemma_keep_is_filter(log, pend);
    lemma_keep_is_filter(log, unres);
    lemma_keep_len(log, pend);
    lemma_keep_keep(log, unres, recent);
    assert((|x: AuditEntry| unres(x) && recent(x)) =~= pend);
    lemma_keep_len(keep(log, unres), recent);
    if forall|i: int| 0 <= i < log.len() ==> (#[trigger] log[i]).resolved {
        lemma_filter_none(log, pend);
    }
}

} // verus!
