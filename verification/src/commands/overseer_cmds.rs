//! Build overseer commands: evaluation, history, thresholds and the rolling score.

use vstd::prelude::*;
use crate::clock::now_millis;
use crate::fixed::Ratio;
use crate::history::{bounded_push, latest};
use crate::overseer::{
    graded, record_views, rolling_score_of, BuildMetrics, BuildOverseer, BuildRecord, BuildRecordView,
    BuildStage, QualityThresholds, MAX_HISTORY,
};

verus! {

/// A build submitted for evaluation.
#[derive(Debug, Clone)]
pub struct EvaluateRequest {
    pub build_id: String,
    pub project: String,
    pub metrics: BuildMetrics,
}

/// The record of a submitted build that started at `started_at`: at the
/// quality gate, with no violations, grade or samples yet.
pub open spec fn submitted(request: EvaluateRequest, started_at: i64) -> BuildRecordView {
    BuildRecordView {
        build_id: request.build_id@,
        project: request.project@,
        started_at,
        finished_at: None,
        stage: BuildStage::QualityGate,
        metrics: request.metrics,
        violations: Seq::empty(),
        grade: None,
        perf_samples: Seq::empty(),
    }
}

/// Evaluates a submitted build against the current thresholds.
pub fn overseer_evaluate(overseer: &mut BuildOverseer, request: EvaluateRequest) -> (r: Result<BuildRecord, String>)
    requires
        old(overseer).wf(),
    ensures
        final(overseer).wf(),
        final(overseer).spec_thresholds() == old(overseer).spec_thresholds(),
        r matches Ok(g) && {
            &&& g@.finished_at is Some
            &&& g@.finished_at.unwrap() >= 0
            &&& g@.started_at >= 0
            &&& g@ == graded(submitted(request, g@.started_at), old(overseer).spec_thresholds(), g@.finished_at.unwrap())
            &&& final(overseer).spec_history() == bounded_push(old(overseer).spec_history(), g@, MAX_HISTORY as nat)
        },
{
    let started_at = now_millis();
    let record = BuildRecord {
        build_id: request.build_id,
        project: request.project,
        started_at,
        finished_at: None,
        stage: BuildStage::QualityGate,
        metrics: request.metrics,
        violations: Vec::new(),
        grade: None,
        perf_samples: Vec::new(),
    };
    assert(record@.violations =~= submitted(request, started_at).violations);
    assert(record@.perf_samples =~= submitted(request, started_at).perf_samples);
    overseer.evaluate(record)
}

/// The build history, most recent first.
pub fn overseer_history(overseer: &BuildOverseer) -> (r: Result<Vec<BuildRecord>, String>)
    ensures
        r matches Ok(h) && record_views(h@) == latest(overseer.spec_history(), overseer.spec_history().len()),
{
    Ok(overseer.history())
}

/// The current quality thresholds.
pub fn overseer_thresholds(overseer: &BuildOverseer) -> (r: Result<QualityThresholds, String>)
    ensures
        r matches Ok(t) && t == overseer.spec_thresholds(),
{
    Ok(*overseer.thresholds())
}

/// The rolling quality score over the last `window` builds, in percent; a
/// window of zero is refused.
pub fn overseer_rolling_score(overseer: &BuildOverseer, window: usize) -> (r: Result<Ratio, String>)
    requires
        overseer.wf(),
    ensures
        window == 0 ==> (r matches Err(e) && e@ == "Window must be greater than 0"@),
        window > 0 ==> (r matches Ok(s) && s == rolling_score_of(overseer.spec_history(), window as nat)),
{
    if window == 0 {
        return Err(String::from_str("Window must be greater than 0"));
    }
    Ok(overseer.rolling_score(window))
}

} // verus!
