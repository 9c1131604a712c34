use natlab_buildr26::fixed::Ratio;
use natlab_buildr26::overseer::{
    check_thresholds, BuildGrade, BuildMetrics, BuildOverseer, BuildRecord, BuildStage, QualityThresholds,
    ViolationSeverity, MAX_HISTORY,
};

fn percent(r: Ratio) -> f64 {
    r.numerator as f64 / r.denominator as f64
}

fn default_record(id: &str, metrics: BuildMetrics) -> BuildRecord {
    BuildRecord {
        build_id: id.to_string(),
        project: "test-project".to_string(),
        started_at: 1_700_000_000_000,
        finished_at: None,
        stage: BuildStage::QualityGate,
        metrics,
        violations: vec![],
        grade: None,
        perf_samples: vec![],
    }
}

fn perfect_metrics() -> BuildMetrics {
    BuildMetrics {
        binary_size_bytes: 10 * 1024 * 1024,
        startup_ms: 300,
        coverage_pct: 9500,
        security_advisories: 0,
        compile_secs: 45,
        idle_memory_mb: 80,
        lint_warnings: 0,
        test_count: 200,
        test_failures: 0,
        bundle_chunks: 4,
        total_dependencies: 50,
        outdated_dependencies: 0,
    }
}

#[test]
fn grade_a_for_perfect_build() {
    let mut overseer = BuildOverseer::default();
    let record = default_record("build-001", perfect_metrics());
    let result = overseer.evaluate(record).unwrap();
    assert_eq!(result.grade, Some(BuildGrade::A));
    assert!(result.violations.is_empty());
    assert_eq!(result.stage, BuildStage::Complete);
}

#[test]
fn grade_f_for_security_advisory() {
    let mut overseer = BuildOverseer::default();
    let mut metrics = perfect_metrics();
    metrics.security_advisories = 1;
    let record = default_record("build-002", metrics);
    let result = overseer.evaluate(record).unwrap();
    assert_eq!(result.grade, Some(BuildGrade::F));
    assert!(result.violations.iter().any(|v| v.code == "OVS-004"));
}

#[test]
fn grade_f_for_test_failures() {
    let mut overseer = BuildOverseer::default();
    let mut metrics = perfect_metrics();
    metrics.test_failures = 3;
    let record = default_record("build-003", metrics);
    let result = overseer.evaluate(record).unwrap();
    assert_eq!(result.grade, Some(BuildGrade::F));
    assert_eq!(result.stage, BuildStage::Failed);
}

#[test]
fn grade_d_for_slow_startup() {
    let mut overseer = BuildOverseer::default();
    let mut metrics = perfect_metrics();
    metrics.startup_ms = 1500;
    let record = default_record("build-004", metrics);
    let result = overseer.evaluate(record).unwrap();
    assert_eq!(result.grade, Some(BuildGrade::D));
    assert!(result.violations.iter().any(|v| v.code == "OVS-002"));
}

#[test]
fn grade_b_for_single_warning() {
    let mut overseer = BuildOverseer::default();
    let mut metrics = perfect_metrics();
    metrics.binary_size_bytes = 60 * 1024 * 1024;
    let record = default_record("build-005", metrics);
    let result = overseer.evaluate(record).unwrap();
    assert_eq!(result.grade, Some(BuildGrade::B));
}

#[test]
fn rolling_score_100_with_no_history() {
    let overseer = BuildOverseer::default();
    let score = overseer.rolling_score(10);
    assert_eq!(percent(score), 100.0);
}

#[test]
fn history_grows_and_is_returned_most_recent_first() {
    let mut overseer = BuildOverseer::default();
    for i in 0..3 {
        let record = default_record(&format!("build-{:03}", i), perfect_metrics());
        overseer.evaluate(record).unwrap();
    }
    let hist = overseer.history();
    assert_eq!(hist.len(), 3);
    assert_eq!(hist[0].build_id, "build-002");
}

#[test]
fn rolling_score_reflects_failing_builds() {
    let mut overseer = BuildOverseer::default();
    for i in 0..5 {
        let record = default_record(&format!("good-{}", i), perfect_metrics());
        overseer.evaluate(record).unwrap();
    }
    for i in 0..5 {
        let mut m = perfect_metrics();
        m.test_failures = 1;
        let record = default_record(&format!("bad-{}", i), m);
        overseer.evaluate(record).unwrap();
    }
    let score = overseer.rolling_score(10);
    assert_eq!(percent(score), 50.0);
}

#[test]
fn grade_c_for_three_warnings() {
    let mut overseer = BuildOverseer::default();
    let mut metrics = perfect_metrics();
    metrics.binary_size_bytes = 60 * 1024 * 1024;
    metrics.compile_secs = 121;
    metrics.idle_memory_mb = 151;
    let result = overseer.evaluate(default_record("build-006", metrics)).unwrap();
    assert_eq!(result.grade, Some(BuildGrade::C));
    assert_eq!(result.stage, BuildStage::Complete);
    assert_eq!(result.violations.len(), 3);
}

#[test]
fn violation_messages_render_the_metrics() {
    let mut metrics = perfect_metrics();
    metrics.binary_size_bytes = 60 * 1024 * 1024;
    metrics.startup_ms = 1500;
    metrics.coverage_pct = 6524;
    metrics.security_advisories = 2;
    metrics.outdated_dependencies = 6;
    let vs = check_thresholds(&metrics, &QualityThresholds::default());
    let codes: Vec<&str> = vs.iter().map(|v| v.code.as_str()).collect();
    assert_eq!(codes, vec!["OVS-001", "OVS-002", "OVS-003", "OVS-004", "OVS-008"]);
    assert_eq!(vs[0].message, "Binary size 60MB exceeds limit 50MB");
    assert_eq!(vs[1].message, "Startup time 1500ms exceeds threshold 800ms");
    assert_eq!(vs[2].message, "Coverage 65.2% is below minimum 70.0%");
    assert_eq!(vs[3].message, "2 security advisories found (limit 0)");
    assert_eq!(vs[3].severity, ViolationSeverity::Critical);
    assert_eq!(vs[4].message, "6 outdated dependencies detected");
    assert_eq!(vs[4].severity, ViolationSeverity::Info);
}

#[test]
fn evaluated_build_is_finished_and_keeps_its_identity() {
    let mut overseer = BuildOverseer::default();
    let result = overseer.evaluate(default_record("build-007", perfect_metrics())).unwrap();
    assert_eq!(result.build_id, "build-007");
    assert_eq!(result.project, "test-project");
    assert_eq!(result.started_at, 1_700_000_000_000);
    assert!(result.finished_at.is_some());
}

#[test]
fn history_is_capped() {
    let mut overseer = BuildOverseer::default();
    for i in 0..(MAX_HISTORY + 5) {
        overseer.evaluate(default_record(&format!("b-{}", i), perfect_metrics())).unwrap();
    }
    let hist = overseer.history();
    assert_eq!(hist.len(), MAX_HISTORY);
    assert_eq!(hist[0].build_id, format!("b-{}", MAX_HISTORY + 4));
    assert_eq!(hist[MAX_HISTORY - 1].build_id, "b-5");
}

#[test]
fn rolling_score_uses_only_the_window() {
    let mut overseer = BuildOverseer::default();
    let mut bad = perfect_metrics();
    bad.test_failures = 1;
    overseer.evaluate(default_record("old-bad", bad)).unwrap();
    overseer.evaluate(default_record("new-good-1", perfect_metrics())).unwrap();
    overseer.evaluate(default_record("new-good-2", perfect_metrics())).unwrap();
    assert_eq!(overseer.rolling_score(2), Ratio { numerator: 200, denominator: 2 });
    assert_eq!(overseer.rolling_score(3), Ratio { numerator: 200, denominator: 3 });
    assert_eq!(overseer.rolling_score(100), Ratio { numerator: 200, denominator: 3 });
    assert_eq!(percent(overseer.rolling_score(3)), 200.0 / 3.0);
}

#[test]
fn grade_labels() {
    assert_eq!(BuildGrade::A.label(), "Premium");
    assert_eq!(BuildGrade::B.label(), "Good");
    assert_eq!(BuildGrade::C.label(), "Acceptable");
    assert_eq!(BuildGrade::D.label(), "Needs Work");
    assert_eq!(BuildGrade::F.label(), "Failing");
}

#[test]
fn custom_thresholds_are_used() {
    let mut t = QualityThresholds::default();
    t.max_startup_ms = 200;
    let mut overseer = BuildOverseer::new(t);
    assert_eq!(overseer.thresholds().max_startup_ms, 200);
    let result = overseer.evaluate(default_record("build-008", perfect_metrics())).unwrap();
    assert_eq!(result.grade, Some(BuildGrade::D));
}

#[test]
fn worse_metrics_never_grade_better() {
    let t = QualityThresholds::default();
    let good = perfect_metrics();
    let mut worse = perfect_metrics();
    worse.startup_ms = 900;
    worse.binary_size_bytes = 60 * 1024 * 1024;
    let mut worst = worse;
    worst.security_advisories = 1;
    let g = |m: &BuildMetrics| {
        let mut o = BuildOverseer::new(t);
        o.evaluate(default_record("x", *m)).unwrap().grade.unwrap()
    };
    assert_eq!(g(&good), BuildGrade::A);
    assert_eq!(g(&worse), BuildGrade::D);
    assert_eq!(g(&worst), BuildGrade::F);
    let codes = |m: &BuildMetrics| -> Vec<String> { check_thresholds(m, &t).iter().map(|v| v.code.clone()).collect() };
    assert!(codes(&worse).iter().all(|c| codes(&worst).contains(c)));
}
