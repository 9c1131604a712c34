//! The Build Overseer: scores every build against quality thresholds,
//! assigns an A–F grade and keeps a bounded history of graded builds.

use vstd::prelude::*;
use crate::clock::now_millis;
use crate::fixed::{Centi, Ratio, decimal, centi_one, decimal_string, push_decimal, push_centi_one};
use crate::history::{Duplicate, bounded_push, latest, push_back_bounded, duplicate_all, lemma_filter_all, lemma_filter_none};
use std::collections::VecDeque;

verus! {

// ── Quality thresholds ───────────────────────────────────────────────────────

/// Hard limits that a build must pass to be marked "premium quality".
#[derive(Debug, Clone, Copy)]
pub struct QualityThresholds {
    /// Maximum acceptable binary size in bytes (default 50 MB)
    pub max_binary_size_bytes: u64,
    /// Maximum cold-start time in milliseconds (default 800 ms)
    pub max_startup_ms: u64,
    /// Minimum test coverage, in hundredths of a percent (default 70.00 %)
    pub min_coverage_pct: Centi,
    /// Maximum number of high/critical security advisories (default 0)
    pub max_security_advisories: u32,
    /// Maximum compile time in seconds (default 120 s)
    pub max_compile_secs: u64,
    /// Maximum memory footprint at idle in MB (default 150 MB)
    pub max_idle_memory_mb: u64,
}

/// The thresholds a new overseer starts with.
pub open spec fn default_thresholds() -> QualityThresholds {
    QualityThresholds {
        max_binary_size_bytes: 52428800,
        max_startup_ms: 800,
        min_coverage_pct: 7000,
        max_security_advisories: 0,
        max_compile_secs: 120,
        max_idle_memory_mb: 150,
    }
}

impl Default for QualityThresholds {
    fn default() -> (r: Self)
        ensures
            r == default_thresholds(),
    {
        QualityThresholds {
            max_binary_size_bytes: 50 * 1024 * 1024,
            max_startup_ms: 800,
            min_coverage_pct: 7000,
            max_security_advisories: 0,
            max_compile_secs: 120,
            max_idle_memory_mb: 150,
        }
    }
}

// ── Performance sample ───────────────────────────────────────────────────────

/// One resource-usage sample taken during a build.
#[derive(Debug, Clone, Copy)]
pub struct PerfSample {
    /// Milliseconds since the Unix epoch.
    pub timestamp: i64,
    /// CPU usage in hundredths of a percent.
    pub cpu_percent: Centi,
    /// Memory in hundredths of a megabyte.
    pub memory_mb: Centi,
    pub thread_count: u32,
    pub io_read_kb: u64,
    pub io_write_kb: u64,
}

impl Duplicate for PerfSample {
    fn duplicate(&self) -> (r: Self) {
        *self
    }
}

// ── Build record ─────────────────────────────────────────────────────────────

#[derive(Debug, Clone, Copy, PartialEq, Eq, Structural)]
pub enum BuildStage {
    Init,
    Lint,
    Test,
    Compile,
    Bundle,
    SecurityScan,
    QualityGate,
    Package,
    Complete,
    Failed,
}

/// The measurements of one build.
#[derive(Debug, Clone, Copy)]
pub struct BuildMetrics {
    pub binary_size_bytes: u64,
    pub startup_ms: u64,
    /// Test coverage in hundredths of a percent.
    pub coverage_pct: Centi,
    pub security_advisories: u32,
    pub compile_secs: u64,
    pub idle_memory_mb: u64,
    pub lint_warnings: u32,
    pub test_count: u32,
    pub test_failures: u32,
    pub bundle_chunks: u32,
    pub total_dependencies: u32,
    pub outdated_dependencies: u32,
}

/// Metrics with every measurement at zero.
pub open spec fn zero_metrics() -> BuildMetrics {
    BuildMetrics {
        binary_size_bytes: 0,
        startup_ms: 0,
        coverage_pct: 0,
        security_advisories: 0,
        compile_secs: 0,
        idle_memory_mb: 0,
        lint_warnings: 0,
        test_count: 0,
        test_failures: 0,
        bundle_chunks: 0,
        total_dependencies: 0,
        outdated_dependencies: 0,
    }
}

impl Default for BuildMetrics {
    fn default() -> (r: Self)
        ensures
            r == zero_metrics(),
    {
        BuildMetrics {
            binary_size_bytes: 0,
            startup_ms: 0,
            coverage_pct: 0,
            security_advisories: 0,
            compile_secs: 0,
            idle_memory_mb: 0,
            lint_warnings: 0,
            test_count: 0,
            test_failures: 0,
            bundle_chunks: 0,
            total_dependencies: 0,
            outdated_dependencies: 0,
        }
    }
}

#[derive(Debug, Clone, Copy, PartialEq, Eq, Structural, PartialOrd, Ord)]
pub enum ViolationSeverity {
    Info,
    Warning,
    Error,
    Critical,
}

/// One breached threshold, with the code that names it.
#[derive(Debug, Clone)]
pub struct QualityViolation {
    pub code: String,
    pub severity: ViolationSeverity,
    pub message: String,
    pub suggestion: String,
}

/// A violation as characters.
pub struct ViolationView {
    pub code: Seq<char>,
    pub severity: ViolationSeverity,
    pub message: Seq<char>,
    pub suggestion: Seq<char>,
}

impl View for QualityViolation {
    type V = ViolationView;

    open spec fn view(&self) -> ViolationView {
        ViolationView {
            code: self.code@,
            severity: self.severity,
            message: self.message@,
            suggestion: self.suggestion@,
        }
    }
}

impl Duplicate for QualityViolation {
    fn duplicate(&self) -> (r: Self) {
        QualityViolation {
            code: self.code.clone(),
            severity: self.severity,
            message: self.message.clone(),
            suggestion: self.suggestion.clone(),
        }
    }
}

/// The views of a sequence of violations.
pub open spec fn violation_views(s: Seq<QualityViolation>) -> Seq<ViolationView> {
    s.map_values(|v: QualityViolation| v@)
}

/// A–F grade assigned to each build by the Overseer.
#[derive(Debug, Clone, Copy, PartialEq, Eq, Structural, PartialOrd, Ord)]
pub enum BuildGrade {
    /// All thresholds met, zero critical violations
    A,
    /// One or two warnings, no errors
    B,
    /// Minor threshold breaches, no critical violations
    C,
    /// Multiple threshold breaches or at least one error
    D,
    /// Critical violations — build should not be released
    F,
}

impl BuildGrade {
    pub open spec fn spec_label(self) -> Seq<char> {
        match self {
            BuildGrade::A => "Premium"@,
            BuildGrade::B => "Good"@,
            BuildGrade::C => "Acceptable"@,
            BuildGrade::D => "Needs Work"@,
            BuildGrade::F => "Failing"@,
        }
    }

    /// The human-readable name of the grade.
    pub fn label(&self) -> (r: &'static str)
        ensures
            r@ == self.spec_label(),
    {
        match self {
            BuildGrade::A => "Premium",
            BuildGrade::B => "Good",
            BuildGrade::C => "Acceptable",
            BuildGrade::D => "Needs Work",
            BuildGrade::F => "Failing",
        }
    }
}

/// One build as the overseer sees it.
#[derive(Debug, Clone)]
pub struct BuildRecord {
    pub build_id: String,
    pub project: String,
    /// Milliseconds since the Unix epoch.
    pub started_at: i64,
    /// Milliseconds since the Unix epoch.
    pub finished_at: Option<i64>,
    pub stage: BuildStage,
    pub metrics: BuildMetrics,
    pub violations: Vec<QualityViolation>,
    pub grade: Option<BuildGrade>,
    pub perf_samples: Vec<PerfSample>,
}

/// A build record as characters and sequences.
pub struct BuildRecordView {
    pub build_id: Seq<char>,
    pub project: Seq<char>,
    pub started_at: i64,
    pub finished_at: Option<i64>,
    pub stage: BuildStage,
    pub metrics: BuildMetrics,
    pub violations: Seq<ViolationView>,
    pub grade: Option<BuildGrade>,
    pub perf_samples: Seq<PerfSample>,
}

impl View for BuildRecord {
    type V = BuildRecordView;

    open spec fn view(&self) -> BuildRecordView {
        BuildRecordView {
            build_id: self.build_id@,
            project: self.project@,
            started_at: self.started_at,
            finished_at: self.finished_at,
            stage: self.stage,
            metrics: self.metrics,
            violations: violation_views(self.violations@),
            grade: self.grade,
            perf_samples: self.perf_samples@,
        }
    }
}

impl BuildRecord {
    /// A copy of the record.
    pub fn duplicate(&self) -> (r: Self)
        ensures
            r@ == self@,
    {
        let violations = duplicate_all(&self.violations);
        let perf_samples = duplicate_all(&self.perf_samples);
        BuildRecord {
            build_id: self.build_id.clone(),
            project: self.project.clone(),
            started_at: self.started_at,
            finished_at: self.finished_at,
            stage: self.stage,
            metrics: self.metrics,
            violations,
            grade: self.grade,
            perf_samples,
        }
    }
}

/// The views of a sequence of build records.
pub open spec fn record_views(s: Seq<BuildRecord>) -> Seq<BuildRecordView> {
    s.map_values(|r: BuildRecord| r@)
}

// ── Threshold checks ─────────────────────────────────────────────────────────

pub open spec fn mib(bytes: u64) -> nat {
    (bytes / 1048576) as nat
}

pub open spec fn violation(
    code: Seq<char>,
    severity: ViolationSeverity,
    message: Seq<char>,
    suggestion: Seq<char>,
) -> ViolationView {
    ViolationView { code, severity, message, suggestion }
}

/// The violation a check produces when its condition holds, else nothing.
pub open spec fn when(cond: bool, v: ViolationView) -> Seq<ViolationView> {
    if cond { seq![v] } else { seq![] }
}

pub open spec fn binary_size_violation(m: BuildMetrics, t: QualityThresholds) -> ViolationView {
    violation(
        "OVS-001"@,
        ViolationSeverity::Warning,
        "Binary size "@ + decimal(mib(m.binary_size_bytes)) + "MB exceeds limit "@
            + decimal(mib(t.max_binary_size_bytes)) + "MB"@,
        "Enable LTO + strip symbols in release profile"@,
    )
}

pub open spec fn startup_violation(m: BuildMetrics, t: QualityThresholds) -> ViolationView {
    violation(
        "OVS-002"@,
        ViolationSeverity::Error,
        "Startup time "@ + decimal(m.startup_ms as nat) + "ms exceeds threshold "@
            + decimal(t.max_startup_ms as nat) + "ms"@,
        "Increase lazy-loading; defer non-critical modules"@,
    )
}

pub open spec fn coverage_violation(m: BuildMetrics, t: QualityThresholds) -> ViolationView {
    violation(
        "OVS-003"@,
        ViolationSeverity::Error,
        "Coverage "@ + centi_one(m.coverage_pct as nat) + "% is below minimum "@
            + centi_one(t.min_coverage_pct as nat) + "%"@,
        "Add unit tests for uncovered branches and public APIs"@,
    )
}

pub open spec fn security_violation(m: BuildMetrics, t: QualityThresholds) -> ViolationView {
    violation(
        "OVS-004"@,
        ViolationSeverity::Critical,
        decimal(m.security_advisories as nat) + " security advisories found (limit "@
            + decimal(t.max_security_advisories as nat) + ")"@,
        "Run `cargo audit fix` / `npm audit fix` and update affected crates"@,
    )
}

pub open spec fn compile_violation(m: BuildMetrics, t: QualityThresholds) -> ViolationView {
    violation(
        "OVS-005"@,
        ViolationSeverity::Warning,
        "Compile time "@ + decimal(m.compile_secs as nat) + "s exceeds threshold "@
            + decimal(t.max_compile_secs as nat) + "s"@,
        "Enable incremental compilation; split crates; use sccache"@,
    )
}

pub open spec fn memory_violation(m: BuildMetrics, t: QualityThresholds) -> ViolationView {
    violation(
        "OVS-006"@,
        ViolationSeverity::Warning,
        "Idle memory "@ + decimal(m.idle_memory_mb as nat) + "MB exceeds threshold "@
            + decimal(t.max_idle_memory_mb as nat) + "MB"@,
        "Profile heap usage; reduce static allocations; shrink lazy bundles"@,
    )
}

pub open spec fn test_failure_violation(m: BuildMetrics) -> ViolationView {
    violation(
        "OVS-007"@,
        ViolationSeverity::Critical,
        decimal(m.test_failures as nat) + " test(s) failed"@,
        "All tests must pass before a build can be graded above F"@,
    )
}

pub open spec fn outdated_violation(m: BuildMetrics) -> ViolationView {
    violation(
        "OVS-008"@,
        ViolationSeverity::Info,
        decimal(m.outdated_dependencies as nat) + " outdated dependencies detected"@,
        "Run `npm outdated` / `cargo outdated` and update safe upgrades"@,
    )
}

/// Every violation a build with metrics `m` incurs under thresholds `t`, in
/// the order the checks run.
pub open spec fn violations_for(m: BuildMetrics, t: QualityThresholds) -> Seq<ViolationView> {
    when(m.binary_size_bytes > t.max_binary_size_bytes, binary_size_violation(m, t))
        + when(m.startup_ms > t.max_startup_ms, startup_violation(m, t))
        + when(m.coverage_pct < t.min_coverage_pct, coverage_violation(m, t))
        + when(m.security_advisories > t.max_security_advisories, security_violation(m, t))
        + when(m.compile_secs > t.max_compile_secs, compile_violation(m, t))
        + when(m.idle_memory_mb > t.max_idle_memory_mb, memory_violation(m, t))
        + when(m.test_failures > 0, test_failure_violation(m))
        + when(m.outdated_dependencies > 5, outdated_violation(m))
}

/// How many violations in `s` have severity `sev`.
pub open spec fn count_severity(s: Seq<ViolationView>, sev: ViolationSeverity) -> nat
    decreases s.len(),
{
    if s.len() == 0 {
        0
    } else {
        count_severity(s.drop_last(), sev) + (if s.last().severity == sev { 1nat } else { 0nat })
    }
}

/// The grade for a set of violations.
pub open spec fn grade_for(s: Seq<ViolationView>) -> BuildGrade {
    if count_severity(s, ViolationSeverity::Critical) > 0 {
        BuildGrade::F
    } else if count_severity(s, ViolationSeverity::Error) > 0 {
        BuildGrade::D
    } else if count_severity(s, ViolationSeverity::Warning) > 2 {
        BuildGrade::C
    } else if count_severity(s, ViolationSeverity::Warning) > 0 {
        BuildGrade::B
    } else {
        BuildGrade::A
    }
}

/// The stage a graded build ends in.
pub open spec fn final_stage(m: BuildMetrics, grade: BuildGrade) -> BuildStage {
    if m.test_failures == 0 && grade != BuildGrade::F {
        BuildStage::Complete
    } else {
        BuildStage::Failed
    }
}

/// The record `r` after grading, finished at `now`.
pub open spec fn graded(r: BuildRecordView, t: QualityThresholds, now: i64) -> BuildRecordView {
    let vs = violations_for(r.metrics, t);
    let g = grade_for(vs);
    BuildRecordView {
        violations: vs,
        grade: Some(g),
        stage: final_stage(r.metrics, g),
        finished_at: Some(now),
        ..r
    }
}

/// Counting by severity distributes over concatenation.
pub proof fn lemma_count_severity_append(a: Seq<ViolationView>, b: Seq<ViolationView>, sev: ViolationSeverity)
    ensures
        count_severity(a + b, sev) == count_severity(a, sev) + count_severity(b, sev),
    decreases b.len(),
{
    if b.len() == 0 {
        assert(a + b =~= a);
    } else {
        lemma_count_severity_append(a, b.drop_last(), sev);
        assert((a + b).drop_last() =~= a + b.drop_last());
    }
}

/// A build with a failing test, or with more security advisories than the
/// thresholds allow, is graded F and ends in the failed stage.
#[verifier::spinoff_prover]
pub proof fn law_critical_builds_fail(m: BuildMetrics, t: QualityThresholds)
    requires
        m.test_failures > 0 || m.security_advisories > t.max_security_advisories,
    ensures
        grade_for(violations_for(m, t)) == BuildGrade::F,
        final_stage(m, grade_for(violations_for(m, t))) == BuildStage::Failed,
{
    let c = ViolationSeverity::Critical;
    let w1 = when(m.binary_size_bytes > t.max_binary_size_bytes, binary_size_violation(m, t));
    let w2 = when(m.startup_ms > t.max_startup_ms, startup_violation(m, t));
    let w3 = when(m.coverage_pct < t.min_coverage_pct, coverage_violation(m, t));
    let w4 = when(m.security_advisories > t.max_security_advisories, security_violation(m, t));
    let w5 = when(m.compile_secs > t.max_compile_secs, compile_violation(m, t));
    let w6 = when(m.idle_memory_mb > t.max_idle_memory_mb, memory_violation(m, t));
    let w7 = when(m.test_failures > 0, test_failure_violation(m));
    let w8 = when(m.outdated_dependencies > 5, outdated_violation(m));
    lemma_count_severity_append(w1, w2, c);
    lemma_count_severity_append(w1 + w2, w3, c);
    lemma_count_severity_append(w1 + w2 + w3, w4, c);
    lemma_count_severity_append(w1 + w2 + w3 + w4, w5, c);
    lemma_count_severity_append(w1 + w2 + w3 + w4 + w5, w6, c);
    lemma_count_severity_append(w1 + w2 + w3 + w4 + w5 + w6, w7, c);
    lemma_count_severity_append(w1 + w2 + w3 + w4 + w5 + w6 + w7, w8, c);
    assert(count_severity(Seq::<ViolationView>::empty(), c) == 0);
    if m.security_advisories > t.max_security_advisories {
        assert(w4.drop_last() =~= Seq::<ViolationView>::empty());
        assert(count_severity(w4.drop_last(), c) == 0);
        assert(w4.last().severity == c);
        assert(count_severity(w4, c) == 1);
    } else {
        assert(w7.drop_last() =~= Seq::<ViolationView>::empty());
        assert(count_severity(w7.drop_last(), c) == 0);
        assert(w7.last().severity == c);
        assert(count_severity(w7, c) == 1);
    }
}

/// A build that breaks no threshold is graded A and completes.
pub proof fn law_clean_build_completes(m: BuildMetrics, t: QualityThresholds)
    requires
        violations_for(m, t).len() == 0,
    ensures
        grade_for(violations_for(m, t)) == BuildGrade::A,
        final_stage(m, grade_for(violations_for(m, t))) == BuildStage::Complete,
{
    if m.test_failures > 0 {
        let w7 = when(m.test_failures > 0, test_failure_violation(m));
        let pre = when(m.binary_size_bytes > t.max_binary_size_bytes, binary_size_violation(m, t))
            + when(m.startup_ms > t.max_startup_ms, startup_violation(m, t))
            + when(m.coverage_pct < t.min_coverage_pct, coverage_violation(m, t))
            + when(m.security_advisories > t.max_security_advisories, security_violation(m, t))
            + when(m.compile_secs > t.max_compile_secs, compile_violation(m, t))
            + when(m.idle_memory_mb > t.max_idle_memory_mb, memory_violation(m, t));
        assert((pre + w7).len() >= 1);
    }
}

/// `m2` is no better than `m1` on any measure the thresholds check.
pub open spec fn no_better(m1: BuildMetrics, m2: BuildMetrics) -> bool {
    &&& m2.binary_size_bytes >= m1.binary_size_bytes
    &&& m2.startup_ms >= m1.startup_ms
    &&& m2.coverage_pct <= m1.coverage_pct
    &&& m2.security_advisories >= m1.security_advisories
    &&& m2.compile_secs >= m1.compile_secs
    &&& m2.idle_memory_mb >= m1.idle_memory_mb
    &&& m2.test_failures >= m1.test_failures
    &&& m2.outdated_dependencies >= m1.outdated_dependencies
}

/// The place of a grade from best (`A`) to worst (`F`).
pub open spec fn grade_rank(g: BuildGrade) -> int {
    match g {
        BuildGrade::A => 0,
        BuildGrade::B => 1,
        BuildGrade::C => 2,
        BuildGrade::D => 3,
        BuildGrade::F => 4,
    }
}

/// Some violation in `s` has this code.
pub open spec fn has_code(s: Seq<ViolationView>, code: Seq<char>) -> bool {
    exists|j: int| 0 <= j < s.len() && s[j].code == code
}

/// Every code in `a` also occurs in `b`.
pub open spec fn codes_within(a: Seq<ViolationView>, b: Seq<ViolationView>) -> bool {
    forall|i: int| 0 <= i < a.len() ==> #[trigger] has_code(b, a[i].code)
}

proof fn lemma_when_within(c1: bool, x: ViolationView, c2: bool, y: ViolationView)
    requires
        c1 ==> c2,
        x.code == y.code,
    ensures
        codes_within(when(c1, x), when(c2, y)),
{
    if c1 {
        assert(when(c2, y)[0].code == x.code);
        assert(has_code(when(c2, y), when(c1, x)[0].code));
    }
}

proof fn lemma_within_append(a1: Seq<ViolationView>, b1: Seq<ViolationView>, a2: Seq<ViolationView>, b2: Seq<ViolationView>)
    requires
        codes_within(a1, b1),
        codes_within(a2, b2),
    ensures
        codes_within(a1 + a2, b1 + b2),
{
    let a = a1 + a2;
    let b = b1 + b2;
    assert forall|i: int| 0 <= i < a.len() implies #[trigger] has_code(b, a[i].code) by {
        if i < a1.len() {
            assert(a[i] == a1[i]);
            assert(has_code(b1, a1[i].code));
            let j = choose|j: int| 0 <= j < b1.len() && b1[j].code == a1[i].code;
            assert(b[j] == b1[j]);
        } else {
            let k = i - a1.len();
            assert(a[i] == a2[k]);
            assert(has_code(b2, a2[k].code));
            let j = choose|j: int| 0 <= j < b2.len() && b2[j].code == a2[k].code;
            assert(b[j + b1.len()] == b2[j]);
        }
    }
}

proof fn lemma_count_when(c: bool, x: ViolationView, sev: ViolationSeverity)
    ensures
        count_severity(when(c, x), sev) == (if c && x.severity == sev { 1int } else { 0int }),
{
    assert(count_severity(Seq::<ViolationView>::empty(), sev) == 0);
    if c {
        let w = when(c, x);
        assert(w.drop_last() =~= Seq::<ViolationView>::empty());
        assert(count_severity(w.drop_last(), sev) == 0);
        assert(w.last() == x);
    } else {
        assert(when(c, x) =~= Seq::<ViolationView>::empty());
    }
}

/// How many violations of each severity a build incurs, check by check.
proof fn lemma_count_violations(m: BuildMetrics, t: QualityThresholds, sev: ViolationSeverity)
    ensures
        count_severity(violations_for(m, t), sev)
            == (if m.binary_size_bytes > t.max_binary_size_bytes && sev == ViolationSeverity::Warning { 1int } else { 0 })
            + (if m.startup_ms > t.max_startup_ms && sev == ViolationSeverity::Error { 1int } else { 0 })
            + (if m.coverage_pct < t.min_coverage_pct && sev == ViolationSeverity::Error { 1int } else { 0 })
            + (if m.security_advisories > t.max_security_advisories && sev == ViolationSeverity::Critical { 1int } else { 0 })
            + (if m.compile_secs > t.max_compile_secs && sev == ViolationSeverity::Warning { 1int } else { 0 })
            + (if m.idle_memory_mb > t.max_idle_memory_mb && sev == ViolationSeverity::Warning { 1int } else { 0 })
            + (if m.test_failures > 0 && sev == ViolationSeverity::Critical { 1int } else { 0 })
            + (if m.outdated_dependencies > 5 && sev == ViolationSeverity::Info { 1int } else { 0 }),
{
    let w1 = when(m.binary_size_bytes > t.max_binary_size_bytes, binary_size_violation(m, t));
    let w2 = when(m.startup_ms > t.max_startup_ms, startup_violation(m, t));
    let w3 = when(m.coverage_pct < t.min_coverage_pct, coverage_violation(m, t));
    let w4 = when(m.security_advisories > t.max_security_advisories, security_violation(m, t));
    let w5 = when(m.compile_secs > t.max_compile_secs, compile_violation(m, t));
    let w6 = when(m.idle_memory_mb > t.max_idle_memory_mb, memory_violation(m, t));
    let w7 = when(m.test_failures > 0, test_failure_violation(m));
    let w8 = when(m.outdated_dependencies > 5, outdated_violation(m));
    lemma_count_severity_append(w1, w2, sev);
    lemma_count_severity_append(w1 + w2, w3, sev);
    lemma_count_severity_append(w1 + w2 + w3, w4, sev);
    lemma_count_severity_append(w1 + w2 + w3 + w4, w5, sev);
    lemma_count_severity_append(w1 + w2 + w3 + w4 + w5, w6, sev);
    lemma_count_severity_append(w1 + w2 + w3 + w4 + w5 + w6, w7, sev);
    lemma_count_severity_append(w1 + w2 + w3 + w4 + w5 + w6 + w7, w8, sev);
    lemma_count_when(m.binary_size_bytes > t.max_binary_size_bytes, binary_size_violation(m, t), sev);
    lemma_count_when(m.startup_ms > t.max_startup_ms, startup_violation(m, t), sev);
    lemma_count_when(m.coverage_pct < t.min_coverage_pct, coverage_violation(m, t), sev);
    lemma_count_when(m.security_advisories > t.max_security_advisories, security_violation(m, t), sev);
    lemma_count_when(m.compile_secs > t.max_compile_secs, compile_violation(m, t), sev);
    lemma_count_when(m.idle_memory_mb > t.max_idle_memory_mb, memory_violation(m, t), sev);
    lemma_count_when(m.test_failures > 0, test_failure_violation(m), sev);
    lemma_count_when(m.outdated_dependencies > 5, outdated_violation(m), sev);
}

proof fn lemma_grade_no_better(m1: BuildMetrics, m2: BuildMetrics, t: QualityThresholds)
    requires
        no_better(m1, m2),
    ensures
        grade_rank(grade_for(violations_for(m1, t))) <= grade_rank(grade_for(violations_for(m2, t))),
{
    lemma_count_violations(m1, t, ViolationSeverity::Critical);
    lemma_count_violations(m2, t, ViolationSeverity::Critical);
    lemma_count_violations(m1, t, ViolationSeverity::Error);
    lemma_count_violations(m2, t, ViolationSeverity::Error);
    lemma_count_violations(m1, t, ViolationSeverity::Warning);
    lemma_count_violations(m2, t, ViolationSeverity::Warning);
}

#[verifier::rlimit(30)]
proof fn lemma_codes_no_better(m1: BuildMetrics, m2: BuildMetrics, t: QualityThresholds)
    requires
        no_better(m1, m2),
    ensures
        codes_within(violations_for(m1, t), violations_for(m2, t)),
{
    let a1 = when(m1.binary_size_bytes > t.max_binary_size_bytes, binary_size_violation(m1, t));
    let a2 = when(m1.startup_ms > t.max_startup_ms, startup_violation(m1, t));
    let a3 = when(m1.coverage_pct < t.min_coverage_pct, coverage_violation(m1, t));
    let a4 = when(m1.security_advisories > t.max_security_advisories, security_violation(m1, t));
    let a5 = when(m1.compile_secs > t.max_compile_secs, compile_violation(m1, t));
    let a6 = when(m1.idle_memory_mb > t.max_idle_memory_mb, memory_violation(m1, t));
    let a7 = when(m1.test_failures > 0, test_failure_violation(m1));
    let a8 = when(m1.outdated_dependencies > 5, outdated_violation(m1));
    let b1 = when(m2.binary_size_bytes > t.max_binary_size_bytes, binary_size_violation(m2, t));
    let b2 = when(m2.startup_ms > t.max_startup_ms, startup_violation(m2, t));
    let b3 = when(m2.coverage_pct < t.min_coverage_pct, coverage_violation(m2, t));
    let b4 = when(m2.security_advisories > t.max_security_advisories, security_violation(m2, t));
    let b5 = when(m2.compile_secs > t.max_compile_secs, compile_violation(m2, t));
    let b6 = when(m2.idle_memory_mb > t.max_idle_memory_mb, memory_violation(m2, t));
    let b7 = when(m2.test_failures > 0, test_failure_violation(m2));
    let b8 = when(m2.outdated_dependencies > 5, outdated_violation(m2));
    lemma_when_within(m1.binary_size_bytes > t.max_binary_size_bytes, binary_size_violation(m1, t),
        m2.binary_size_bytes > t.max_binary_size_bytes, binary_size_violation(m2, t));
    lemma_when_within(m1.startup_ms > t.max_startup_ms, startup_violation(m1, t),
        m2.startup_ms > t.max_startup_ms, startup_violation(m2, t));
    lemma_when_within(m1.coverage_pct < t.min_coverage_pct, coverage_violation(m1, t),
        m2.coverage_pct < t.min_coverage_pct, coverage_violation(m2, t));
    lemma_when_within(m1.security_advisories > t.max_security_advisories, security_violation(m1, t),
        m2.security_advisories > t.max_security_advisories, security_violation(m2, t));
    lemma_when_within(m1.compile_secs > t.max_compile_secs, compile_violation(m1, t),
        m2.compile_secs > t.max_compile_secs, compile_violation(m2, t));
    lemma_when_within(m1.idle_memory_mb > t.max_idle_memory_mb, memory_violation(m1, t),
        m2.idle_memory_mb > t.max_idle_memory_mb, memory_violation(m2, t));
    lemma_when_within(m1.test_failures > 0, test_failure_violation(m1),
        m2.test_failures > 0, test_failure_violation(m2));
    lemma_when_within(m1.outdated_dependencies > 5, outdated_violation(m1),
        m2.outdated_dependencies > 5, outdated_violation(m2));
    lemma_within_append(a1, b1, a2, b2);
    lemma_within_append(a1 + a2, b1 + b2, a3, b3);
    lemma_within_append(a1 + a2 + a3, b1 + b2 + b3, a4, b4);
    lemma_within_append(a1 + a2 + a3 + a4, b1 + b2 + b3 + b4, a5, b5);
    lemma_within_append(a1 + a2 + a3 + a4 + a5, b1 + b2 + b3 + b4 + b5, a6, b6);
    lemma_within_append(a1 + a2 + a3 + a4 + a5 + a6, b1 + b2 + b3 + b4 + b5 + b6, a7, b7);
    lemma_within_append(a1 + a2 + a3 + a4 + a5 + a6 + a7, b1 + b2 + b3 + b4 + b5 + b6 + b7, a8, b8);
}

/// Worse metrics never earn a better grade: a build that is no better than
/// another on any checked measure incurs every violation code the other
/// does, and its grade is the same or worse.
pub proof fn law_worse_metrics_no_better_grade(m1: BuildMetrics, m2: BuildMetrics, t: QualityThresholds)
    requires
        no_better(m1, m2),
    ensures
        codes_within(violations_for(m1, t), violations_for(m2, t)),
        grade_rank(grade_for(violations_for(m1, t))) <= grade_rank(grade_for(violations_for(m2, t))),
{
    lemma_grade_no_better(m1, m2, t);
    lemma_codes_no_better(m1, m2, t);
}

/// Grade `A` or `B`: a build that counts as passing in the rolling score.
pub open spec fn is_passing(r: BuildRecordView) -> bool {
    r.grade == Some(BuildGrade::A) || r.grade == Some(BuildGrade::B)
}

/// How many records in `s` are passing.
pub open spec fn count_passing(s: Seq<BuildRecordView>) -> nat
    decreases s.len(),
{
    if s.len() == 0 {
        0
    } else {
        count_passing(s.drop_last()) + (if is_passing(s.last()) { 1nat } else { 0nat })
    }
}

/// The rolling score in percent, exactly: the share of passing builds
/// among the last `window` ones, times 100, or 100 when there are none.
pub open spec fn rolling_score_of(history: Seq<BuildRecordView>, window: nat) -> Ratio {
    let recent = latest(history, window);
    if recent.len() == 0 {
        Ratio { numerator: 100, denominator: 1 }
    } else {
        Ratio { numerator: (100 * count_passing(recent)) as u128, denominator: recent.len() as u128 }
    }
}

fn new_violation(code: &str, severity: ViolationSeverity, message: String, suggestion: &str) -> (v: QualityViolation)
    ensures
        v@ == violation(code@, severity, message@, suggestion@),
{
    QualityViolation {
        code: String::from_str(code),
        severity,
        message,
        suggestion: String::from_str(suggestion),
    }
}

/// `prefix`, the number, `middle`, the limit, `suffix`.
fn two_number_message(prefix: &str, value: u64, middle: &str, limit: u64, suffix: &str) -> (s: String)
    ensures
        s@ == prefix@ + decimal(value as nat) + middle@ + decimal(limit as nat) + suffix@,
{
    let mut s = String::from_str(prefix);
    push_decimal(&mut s, value);
    s.append(middle);
    push_decimal(&mut s, limit);
    s.append(suffix);
    s
}

/// Counts the violations of one severity.
fn count_of(vs: &Vec<QualityViolation>, sev: ViolationSeverity) -> (n: usize)
    ensures
        n == count_severity(violation_views(vs@), sev),
{
    let mut n: usize = 0;
    let mut i: usize = 0;
    while i < vs.len()
        invariant
            i <= vs@.len(),
            n <= i,
            n == count_severity(violation_views(vs@.subrange(0, i as int)), sev),
        decreases vs@.len() - i,
    {
        proof {
            assert(violation_views(vs@.subrange(0, i + 1)).drop_last()
                =~= violation_views(vs@.subrange(0, i as int)));
        }
        if vs[i].severity == sev {
            n = n + 1;
        }
        i = i + 1;
    }
    assert(vs@.subrange(0, vs@.len() as int) =~= vs@);
    n
}

/// The grade for a list of violations.
fn assign_grade(violations: &Vec<QualityViolation>) -> (g: BuildGrade)
    ensures
        g == grade_for(violation_views(violations@)),
{
    let critical = count_of(violations, ViolationSeverity::Critical);
    let errors = count_of(violations, ViolationSeverity::Error);
    let warnings = count_of(violations, ViolationSeverity::Warning);
    if critical > 0 {
        BuildGrade::F
    } else if errors > 0 {
        BuildGrade::D
    } else if warnings > 2 {
        BuildGrade::C
    } else if warnings > 0 {
        BuildGrade::B
    } else {
        BuildGrade::A
    }
}

/// The sequence holding the view of the violation, if any.
pub open spec fn opt_view(o: Option<QualityViolation>) -> Seq<ViolationView> {
    match o {
        Some(v) => seq![v@],
        None => seq![],
    }
}

/// Appends the violation, if any.
fn push_found(vs: &mut Vec<QualityViolation>, found: Option<QualityViolation>)
    ensures
        violation_views(final(vs)@) == violation_views(old(vs)@) + opt_view(found),
{
    match found {
        Some(v) => {
            vs.push(v);
        },
        None => {},
    }
    assert(violation_views(final(vs)@) =~= violation_views(old(vs)@) + opt_view(found));
}

fn check_binary_size(m: &BuildMetrics, t: &QualityThresholds) -> (o: Option<QualityViolation>)
    ensures
        opt_view(o) == when(m.binary_size_bytes > t.max_binary_size_bytes, binary_size_violation(*m, *t)),
{
    if m.binary_size_bytes > t.max_binary_size_bytes {
        let mb = m.binary_size_bytes / (1024 * 1024);
        let limit_mb = t.max_binary_size_bytes / (1024 * 1024);
        let msg = two_number_message("Binary size ", mb, "MB exceeds limit ", limit_mb, "MB");
        Some(new_violation("OVS-001", ViolationSeverity::Warning, msg,
            "Enable LTO + strip symbols in release profile"))
    } else {
        None
    }
}

fn check_startup(m: &BuildMetrics, t: &QualityThresholds) -> (o: Option<QualityViolation>)
    ensures
        opt_view(o) == when(m.startup_ms > t.max_startup_ms, startup_violation(*m, *t)),
{
    if m.startup_ms > t.max_startup_ms {
        let msg = two_number_message("Startup time ", m.startup_ms, "ms exceeds threshold ",
            t.max_startup_ms, "ms");
        Some(new_violation("OVS-002", ViolationSeverity::Error, msg,
            "Increase lazy-loading; defer non-critical modules"))
    } else {
        None
    }
}

fn check_coverage(m: &BuildMetrics, t: &QualityThresholds) -> (o: Option<QualityViolation>)
    ensures
        opt_view(o) == when(m.coverage_pct < t.min_coverage_pct, coverage_violation(*m, *t)),
{
    if m.coverage_pct < t.min_coverage_pct {
        let mut msg = String::from_str("Coverage ");
        push_centi_one(&mut msg, m.coverage_pct);
        msg.append("% is below minimum ");
        push_centi_one(&mut msg, t.min_coverage_pct);
        msg.append("%");
        Some(new_violation("OVS-003", ViolationSeverity::Error, msg,
            "Add unit tests for uncovered branches and public APIs"))
    } else {
        None
    }
}

fn check_security(m: &BuildMetrics, t: &QualityThresholds) -> (o: Option<QualityViolation>)
    ensures
        opt_view(o) == when(m.security_advisories > t.max_security_advisories, security_violation(*m, *t)),
{
    if m.security_advisories > t.max_security_advisories {
        let mut msg = decimal_string(m.security_advisories as u64);
        msg.append(" security advisories found (limit ");
        push_decimal(&mut msg, t.max_security_advisories as u64);
        msg.append(")");
        Some(new_violation("OVS-004", ViolationSeverity::Critical, msg,
            "Run `cargo audit fix` / `npm audit fix` and update affected crates"))
    } else {
        None
    }
}

fn check_compile(m: &BuildMetrics, t: &QualityThresholds) -> (o: Option<QualityViolation>)
    ensures
        opt_view(o) == when(m.compile_secs > t.max_compile_secs, compile_violation(*m, *t)),
{
    if m.compile_secs > t.max_compile_secs {
        let msg = two_number_message("Compile time ", m.compile_secs, "s exceeds threshold ",
            t.max_compile_secs, "s");
        Some(new_violation("OVS-005", ViolationSeverity::Warning, msg,
            "Enable incremental compilation; split crates; use sccache"))
    } else {
        None
    }
}

fn check_memory(m: &BuildMetrics, t: &QualityThresholds) -> (o: Option<QualityViolation>)
    ensures
        opt_view(o) == when(m.idle_memory_mb > t.max_idle_memory_mb, memory_violation(*m, *t)),
{
    if m.idle_memory_mb > t.max_idle_memory_mb {
        let msg = two_number_message("Idle memory ", m.idle_memory_mb, "MB exceeds threshold ",
            t.max_idle_memory_mb, "MB");
        Some(new_violation("OVS-006", ViolationSeverity::Warning, msg,
            "Profile heap usage; reduce static allocations; shrink lazy bundles"))
    } else {
        None
    }
}

fn check_test_failures(m: &BuildMetrics) -> (o: Option<QualityViolation>)
    ensures
        opt_view(o) == when(m.test_failures > 0, test_failure_violation(*m)),
{
    if m.test_failures > 0 {
        let mut msg = decimal_string(m.test_failures as u64);
        msg.append(" test(s) failed");
        Some(new_violation("OVS-007", ViolationSeverity::Critical, msg,
            "All tests must pass before a build can be graded above F"))
    } else {
        None
    }
}

fn check_outdated(m: &BuildMetrics) -> (o: Option<QualityViolation>)
    ensures
        opt_view(o) == when(m.outdated_dependencies > 5, outdated_violation(*m)),
{
    if m.outdated_dependencies > 5 {
        let mut msg = decimal_string(m.outdated_dependencies as u64);
        msg.append(" outdated dependencies detected");
        Some(new_violation("OVS-008", ViolationSeverity::Info, msg,
            "Run `npm outdated` / `cargo outdated` and update safe upgrades"))
    } else {
        None
    }
}

/// Runs every threshold check on `m`, in order.
pub fn check_thresholds(m: &BuildMetrics, t: &QualityThresholds) -> (vs: Vec<QualityViolation>)
    ensures
        violation_views(vs@) == violations_for(*m, *t),
{
    let mut vs: Vec<QualityViolation> = Vec::new();
    assert(violation_views(vs@) =~= Seq::<ViolationView>::empty());
    push_found(&mut vs, check_binary_size(m, t));
    push_found(&mut vs, check_startup(m, t));
    push_found(&mut vs, check_coverage(m, t));
    push_found(&mut vs, check_security(m, t));
    push_found(&mut vs, check_compile(m, t));
    push_found(&mut vs, check_memory(m, t));
    push_found(&mut vs, check_test_failures(m));
    push_found(&mut vs, check_outdated(m));
    assert(violation_views(vs@) =~= violations_for(*m, *t));
    vs
}

// ── Overseer ─────────────────────────────────────────────────────────────────

/// How many records in `s` are passing is at most how many there are.
pub proof fn lemma_count_passing_bound(s: Seq<BuildRecordView>)
    ensures
        count_passing(s) <= s.len(),
    decreases s.len(),
{
    if s.len() > 0 {
        lemma_count_passing_bound(s.drop_last());
    }
}

/// The rolling score is a percentage: between 0 and 100 %, and exactly
/// 100 % when there is no build to score.
pub proof fn law_rolling_score_range(history: Seq<BuildRecordView>, window: nat)
    requires
        history.len() <= MAX_HISTORY,
    ensures
        rolling_score_of(history, window).denominator > 0,
        rolling_score_of(history, window).numerator <= 100 * rolling_score_of(history, window).denominator,
        latest(history, window).len() == 0 ==> rolling_score_of(history, window)
            == (Ratio { numerator: 100, denominator: 1 }),
{
    let recent = latest(history, window);
    if recent.len() > 0 {
        lemma_count_passing_bound(recent);
    }
}

/// After a build is retained, it comes first when the history is listed
/// most recent first.
pub proof fn law_newest_first(history: Seq<BuildRecordView>, g: BuildRecordView, n: nat)
    requires
        history.len() <= MAX_HISTORY,
        n >= 1,
    ensures
        latest(bounded_push(history, g, MAX_HISTORY as nat), n).len() >= 1,
        latest(bounded_push(history, g, MAX_HISTORY as nat), n)[0] == g,
{
}

/// How many graded builds the overseer retains.
pub const MAX_HISTORY: usize = 200;

/// The Build Overseer: the authoritative quality gate for every build pipeline.
pub struct BuildOverseer {
    thresholds: QualityThresholds,
    history: VecDeque<BuildRecord>,
    max_history: usize,
}

impl BuildOverseer {
    /// The thresholds builds are graded against.
    pub closed spec fn spec_thresholds(&self) -> QualityThresholds {
        self.thresholds
    }

    /// The retained graded builds, oldest first.
    pub closed spec fn spec_history(&self) -> Seq<BuildRecordView> {
        record_views(self.history@)
    }

    /// The history never holds more than `MAX_HISTORY` builds.
    pub closed spec fn wf(&self) -> bool {
        &&& self.max_history == MAX_HISTORY
        &&& self.history@.len() <= self.max_history
    }

    /// The history never holds more than `MAX_HISTORY` builds.
    pub proof fn law_history_bounded(&self)
        requires
            self.wf(),
        ensures
            self.spec_history().len() <= MAX_HISTORY,
    {
    }

    pub fn new(thresholds: QualityThresholds) -> (o: Self)
        ensures
            o.wf(),
            o.spec_thresholds() == thresholds,
            o.spec_history() == Seq::<BuildRecordView>::empty(),
    {
        let o = BuildOverseer { thresholds, history: VecDeque::new(), max_history: MAX_HISTORY };
        assert(o.spec_history() =~= Seq::<BuildRecordView>::empty());
        o
    }

    /// Grades `record` as finished at `now` and retains it.
    pub fn evaluate_at(&mut self, record: BuildRecord, now: i64) -> (r: BuildRecord)
        requires
            old(self).wf(),
        ensures
            final(self).wf(),
            r@ == graded(record@, old(self).spec_thresholds(), now),
            final(self).spec_thresholds() == old(self).spec_thresholds(),
            final(self).spec_history() == bounded_push(old(self).spec_history(), r@, MAX_HISTORY as nat),
    {
        let mut record = record;
        let violations = check_thresholds(&record.metrics, &self.thresholds);
        let grade = assign_grade(&violations);
        record.violations = violations;
        record.grade = Some(grade);
        record.stage = if record.metrics.test_failures == 0 && grade != BuildGrade::F {
            BuildStage::Complete
        } else {
            BuildStage::Failed
        };
        record.finished_at = Some(now);
        let kept = record.duplicate();
        let ghost before = self.history@;
        push_back_bounded(&mut self.history, kept, self.max_history);
        proof {
            assert(record_views(bounded_push(before, kept, MAX_HISTORY as nat))
                =~= bounded_push(record_views(before), kept@, MAX_HISTORY as nat));
        }
        record
    }

    /// Evaluates a completed build record and assigns a grade, finishing it now.
    pub fn evaluate(&mut self, record: BuildRecord) -> (r: Result<BuildRecord, String>)
        requires
            old(self).wf(),
        ensures
            final(self).wf(),
            final(self).spec_thresholds() == old(self).spec_thresholds(),
            match r {
                Ok(g) => {
                    &&& g@.finished_at is Some
                    &&& g@.finished_at.unwrap() >= 0
                    &&& g@ == graded(record@, old(self).spec_thresholds(), g@.finished_at.unwrap())
                    &&& final(self).spec_history()
                        == bounded_push(old(self).spec_history(), g@, MAX_HISTORY as nat)
                },
                Err(_) => false,
            },
    {
        let now = now_millis();
        Ok(self.evaluate_at(record, now))
    }

    /// The build history, most recent first.
    pub fn history(&self) -> (h: Vec<BuildRecord>)
        ensures
            record_views(h@) == latest(self.spec_history(), self.spec_history().len()),
    {
        let len = self.history.len();
        let mut h: Vec<BuildRecord> = Vec::new();
        let mut i: usize = 0;
        while i < len
            invariant
                len == self.history@.len(),
                i <= len,
                h@.len() == i,
                forall|j: int| 0 <= j < i ==> #[trigger] h@[j]@ == self.history@[len - 1 - j]@,
            decreases len - i,
        {
            h.push(self.history[len - 1 - i].duplicate());
            i = i + 1;
        }
        assert(record_views(h@) =~= latest(self.spec_history(), self.spec_history().len()));
        h
    }

    /// The current quality thresholds.
    pub fn thresholds(&self) -> (t: &QualityThresholds)
        ensures
            *t == self.spec_thresholds(),
    {
        &self.thresholds
    }

    /// The rolling quality score over the last `window` builds, in percent
    /// (100 when there is no history).
    pub fn rolling_score(&self, window: usize) -> (score: Ratio)
        requires
            self.wf(),
        ensures
            score == rolling_score_of(self.spec_history(), window as nat),
    {
        let len = self.history.len();
        let k: usize = if window < len { window } else { len };
        if k == 0 {
            return Ratio { numerator: 100, denominator: 1 };
        }
        let ghost recent = latest(self.spec_history(), window as nat);
        let mut passing: usize = 0;
        let mut i: usize = 0;
        while i < k
            invariant
                len == self.history@.len(),
                len <= MAX_HISTORY,
                k <= len,
                k == recent.len(),
                recent == latest(self.spec_history(), window as nat),
                i <= k,
                passing <= i,
                passing == count_passing(recent.subrange(0, i as int)),
            decreases k - i,
        {
            proof {
                assert(recent.subrange(0, i + 1).drop_last() =~= recent.subrange(0, i as int));
                assert(recent[i as int] == self.history@[len - 1 - i]@);
            }
            let g = self.history[len - 1 - i].grade;
            if g == Some(BuildGrade::A) || g == Some(BuildGrade::B) {
                passing = passing + 1;
            }
            i = i + 1;
        }
        assert(recent.subrange(0, k as int) =~= recent);
        Ratio { numerator: 100 * (passing as u128), denominator: k as u128 }
    }
}

impl Default for BuildOverseer {
    fn default() -> (o: Self)
        ensures
            o.wf(),
            o.spec_thresholds() == default_thresholds(),
            o.spec_history() == Seq::<BuildRecordView>::empty(),
    {
        Self::new(QualityThresholds::default())
    }
}

/// How many violations of a given severity there are is the length of the
/// sub-list of violations with that severity.
proof fn lemma_count_severity_is_filter(s: Seq<ViolationView>, sev: ViolationSeverity, p: spec_fn(ViolationView) -> bool)
    requires
        forall|v: ViolationView| #[trigger] p(v) == (v.severity == sev),
    ensures
        count_severity(s, sev) == s.filter(p).len(),
    decreases s.len(),
{
    reveal(Seq::filter);
    if s.len() > 0 {
        lemma_count_severity_is_filter(s.drop_last(), sev, p);
    }
}

/// The grading scale, for every list of violations: any critical violation
/// gives F; otherwise any error gives D; otherwise three or more warnings
/// give C, one or two warnings give B, and no violation at all gives A.
pub proof fn law_grading_scale(vs: Seq<ViolationView>)
    ensures
        ({
            let critical = vs.filter(|v: ViolationView| v.severity == ViolationSeverity::Critical).len();
            let errors = vs.filter(|v: ViolationView| v.severity == ViolationSeverity::Error).len();
            let warnings = vs.filter(|v: ViolationView| v.severity == ViolationSeverity::Warning).len();
            &&& critical > 0 ==> grade_for(vs) == BuildGrade::F
            &&& critical == 0 && errors > 0 ==> grade_for(vs) == BuildGrade::D
            &&& critical == 0 && errors == 0 && warnings >= 3 ==> grade_for(vs) == BuildGrade::C
            &&& critical == 0 && errors == 0 && 1 <= warnings <= 2 ==> grade_for(vs) == BuildGrade::B
            &&& critical == 0 && errors == 0 && warnings == 0 ==> grade_for(vs) == BuildGrade::A
        }),
{
    lemma_count_severity_is_filter(vs, ViolationSeverity::Critical,
        |v: ViolationView| v.severity == ViolationSeverity::Critical);
    lemma_count_severity_is_filter(vs, ViolationSeverity::Error,
        |v: ViolationView| v.severity == ViolationSeverity::Error);
    lemma_count_severity_is_filter(vs, ViolationSeverity::Warning,
        |v: ViolationView| v.severity == ViolationSeverity::Warning);
}

/// Counting passing builds is counting the builds graded A or B.
proof fn lemma_count_passing_is_filter(s: Seq<BuildRecordView>, p: spec_fn(BuildRecordView) -> bool)
    requires
        forall|r: BuildRecordView| #[trigger] p(r)
            == (r.grade == Some(BuildGrade::A) || r.grade == Some(BuildGrade::B)),
    ensures
        count_passing(s) == s.filter(p).len(),
    decreases s.len(),
{
    reveal(Seq::filter);
    if s.len() > 0 {
        lemma_count_passing_is_filter(s.drop_last(), p);
    }
}

/// The rolling score counts, among the last `window` builds, exactly those
/// graded A or B: with k such builds among n it is 100·k/n. So a window of
/// builds all graded A or B scores 100, and one with none scores 0.
pub proof fn law_rolling_score_counts_a_and_b(history: Seq<BuildRecordView>, window: nat)
    requires
        history.len() <= MAX_HISTORY,
    ensures
        ({
            let recent = latest(history, window);
            let passing = recent.filter(|r: BuildRecordView|
                r.grade == Some(BuildGrade::A) || r.grade == Some(BuildGrade::B)).len();
            let score = rolling_score_of(history, window);
            &&& recent.len() > 0 ==> score.numerator == 100 * passing && score.denominator == recent.len()
            &&& (recent.len() > 0 && forall|i: int| 0 <= i < recent.len()
                ==> (#[trigger] recent[i]).grade == Some(BuildGrade::A) || recent[i].grade == Some(BuildGrade::B))
                ==> score.numerator == 100 * score.denominator
            &&& (forall|i: int| 0 <= i < recent.len()
                ==> (#[trigger] recent[i]).grade != Some(BuildGrade::A) && recent[i].grade != Some(BuildGrade::B))
                && recent.len() > 0 ==> score.numerator == 0
        }),
{
    let recent = latest(history, window);
    let p = |r: BuildRecordView| r.grade == Some(BuildGrade::A) || r.grade == Some(BuildGrade::B);
    lemma_count_passing_is_filter(recent, p);
    lemma_count_passing_bound(recent);
    assert(recent.len() <= MAX_HISTORY);
    if recent.len() > 0 && forall|i: int| 0 <= i < recent.len() ==> p(#[trigger] recent[i]) {
        lemma_filter_all(recent, p);
    }
    if recent.len() > 0 && forall|i: int| 0 <= i < recent.len() ==> !p(#[trigger] recent[i]) {
        lemma_filter_none(recent, p);
    }
}

} // verus!
