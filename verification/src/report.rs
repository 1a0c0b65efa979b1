//! Presentation records and the full evaluation pass: one structured line
//! per reading, in registry order, plus the final score.

use vstd::prelude::*;
use crate::aggregate::{aggregate, contribution, contribution_of, sum_contrib};
use crate::evaluate::{eval_error, spec_readings};
use crate::metrics::{code_label, code_to_string, MetricReading, ProviderSnapshot};
use crate::registry::{MetricError, MetricRegistry, MetricSource};

verus! {

/// One human-legible report record: the label of the code, the raw value
/// and weight in micro-units, and the contribution in pico-units.
pub struct ReportLine {
    pub label: String,
    pub value: u64,
    pub weight: u64,
    pub contribution: u128,
}

/// Whether a report line faithfully presents a reading.
pub open spec fn line_matches(line: ReportLine, r: MetricReading) -> bool {
    &&& line.label@ == code_label(r.code)
    &&& line.value == r.value
    &&& line.weight == r.weight
    &&& line.contribution == contribution_of(r)
}

/// Builds one report line per reading, in reading order. Presentation
/// only: the records carry exactly what the readings hold.
pub fn build_report(readings: &Vec<MetricReading>) -> (lines: Vec<ReportLine>)
    ensures
        lines@.len() == readings@.len(),
        forall|i: int| 0 <= i < readings@.len() ==> line_matches(lines@[i], readings@[i]),
{
    let mut lines: Vec<ReportLine> = Vec::new();
    let mut i: usize = 0;
    while i < readings.len()
        invariant
            0 <= i <= readings@.len(),
            lines@.len() == i,
            forall|j: int| 0 <= j < i ==> line_matches(lines@[j], readings@[j]),
        decreases readings@.len() - i,
    {
        let r = readings[i];
        let c = contribution(&r);
        let label = code_to_string(r.code);
        lines.push(ReportLine { label, value: r.value, weight: r.weight, contribution: c });
        i = i + 1;
    }
    lines
}

/// The error of a full pass, if any: the first evaluation failure, or an
/// out-of-range total.
pub open spec fn pass_error(sources: Seq<MetricSource>, snap: ProviderSnapshot) -> Option<
    MetricError,
> {
    match eval_error(sources, snap) {
        Some(e) => Some(e),
        None => if sum_contrib(spec_readings(sources, snap)) > u128::MAX {
            Some(MetricError::InvalidReading)
        } else {
            None
        },
    }
}

/// An empty registry yields an empty reading sequence and a zero
/// aggregate: the pass succeeds and its score is zero.
pub proof fn lemma_empty_registry(sources: Seq<MetricSource>, snap: ProviderSnapshot)
    requires
        sources.len() == 0,
    ensures
        pass_error(sources, snap) is None,
        spec_readings(sources, snap) == Seq::<MetricReading>::empty(),
        sum_contrib(spec_readings(sources, snap)) == 0,
{
    assert(spec_readings(sources, snap) =~= Seq::<MetricReading>::empty());
}

/// Fail-fast: when the facility behind any one source is unavailable, the
/// whole pass reports an error, so no partial aggregate is produced.
pub proof fn lemma_provider_failure(sources: Seq<MetricSource>, snap: ProviderSnapshot, i: int)
    requires
        0 <= i < sources.len(),
        !crate::evaluate::source_available(sources[i], snap),
    ensures
        pass_error(sources, snap) is Some,
{
    crate::evaluate::lemma_eval_error_none(sources, snap);
    assert(!crate::evaluate::source_ok(sources[i], snap));
}

/// Everything one successful pass produces: the readings in registry
/// order, one report line per reading, and the total score in pico-units.
pub struct PassReport {
    pub readings: Vec<MetricReading>,
    pub lines: Vec<ReportLine>,
    pub total: u128,
}

/// Runs one full evaluation pass: evaluates every source in registration
/// order, builds the report lines, and reduces the readings to the
/// weighted-sum quality metric. Fail-fast: any source failure, or a total
/// out of range, aborts the pass with no partial result.
pub fn get_quality_metric(registry: &MetricRegistry, snap: &ProviderSnapshot) -> (r: Result<
    PassReport,
    MetricError,
>)
    ensures
        match r {
            Ok(rep) => {
                &&& pass_error(registry.sources@, *snap) is None
                &&& rep.readings@ == spec_readings(registry.sources@, *snap)
                &&& rep.total == sum_contrib(rep.readings@)
                &&& rep.lines@.len() == rep.readings@.len()
                &&& forall|i: int|
                    0 <= i < rep.readings@.len() ==> line_matches(rep.lines@[i], rep.readings@[i])
            },
            Err(e) => pass_error(registry.sources@, *snap) == Some(e),
        },
{
    let readings = match registry.evaluate(snap) {
        Ok(rs) => rs,
        Err(e) => {
            return Err(e);
        },
    };
    let total = match aggregate(&readings) {
        Some(t) => t,
        None => {
            return Err(MetricError::InvalidReading);
        },
    };
    let lines = build_report(&readings);
    Ok(PassReport { readings, lines, total })
}

} // verus!
