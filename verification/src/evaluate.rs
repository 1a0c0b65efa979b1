//! Evaluation of a registry against one provider snapshot: the exact model
//! of every reading, the fail-fast error of a pass, and the verified
//! evaluation loop.

use vstd::prelude::*;
use vstd::arithmetic::mul::lemma_mul_inequality;
use crate::metrics::{
    CpuWindow, DiskCounters, LoadAverages, MetricReading, NetCounters, ProviderSnapshot, SCALE,
    window_of,
};
use crate::registry::{code_of, MetricError, MetricRegistry, MetricSource, SourceKind};

verus! {

/// Largest byte total whose micro-unit form still fits in a `u64` value.
pub const MAX_BYTE_TOTAL: u64 = 18_446_744_073_709;

/// Total bytes, received plus transmitted, over a sequence of interface
/// counters.
pub open spec fn net_total_bytes(s: Seq<NetCounters>) -> int
    decreases s.len(),
{
    if s.len() == 0 {
        0
    } else {
        net_total_bytes(s.drop_last()) + s.last().received + s.last().transmitted
    }
}

/// Total bytes, read plus written, over a sequence of per-process disk
/// counters.
pub open spec fn disk_total_bytes(s: Seq<DiskCounters>) -> int
    decreases s.len(),
{
    if s.len() == 0 {
        0
    } else {
        disk_total_bytes(s.drop_last()) + s.last().read_bytes + s.last().written_bytes
    }
}

/// Whether the snapshot holds the facility this source reads.
pub open spec fn source_available(src: MetricSource, snap: ProviderSnapshot) -> bool {
    match src.kind {
        SourceKind::Cpu(_) => snap.load is Some,
        SourceKind::Network => snap.network is Some,
        SourceKind::Disk => snap.disk is Some,
    }
}

/// The raw value of a source in micro-units, assuming its facility is
/// available. Byte totals are scaled from whole bytes to micro-units.
pub open spec fn source_raw(src: MetricSource, snap: ProviderSnapshot) -> int {
    match src.kind {
        SourceKind::Cpu(w) => window_of(snap.load.unwrap(), w) as int,
        SourceKind::Network => net_total_bytes(snap.network.unwrap()@) * SCALE,
        SourceKind::Disk => disk_total_bytes(snap.disk.unwrap()@) * SCALE,
    }
}

/// The error one source contributes, if any: an unavailable facility comes
/// first, then a value out of the fixed-point range.
pub open spec fn source_error(src: MetricSource, snap: ProviderSnapshot) -> Option<MetricError> {
    if !source_available(src, snap) {
        Some(MetricError::ProviderUnavailable)
    } else if source_raw(src, snap) > u64::MAX {
        Some(MetricError::InvalidReading)
    } else {
        None
    }
}

/// Whether a source yields a representable reading from this snapshot.
pub open spec fn source_ok(src: MetricSource, snap: ProviderSnapshot) -> bool {
    source_error(src, snap) is None
}

/// The error of the whole pass: that of the first failing source in
/// registration order, if any.
pub open spec fn eval_error(sources: Seq<MetricSource>, snap: ProviderSnapshot) -> Option<
    MetricError,
>
    decreases sources.len(),
{
    if sources.len() == 0 {
        None
    } else if source_error(sources[0], snap) is Some {
        source_error(sources[0], snap)
    } else {
        eval_error(sources.drop_first(), snap)
    }
}

/// The reading one source yields (meaningful when `source_ok` holds).
pub open spec fn spec_reading(src: MetricSource, snap: ProviderSnapshot) -> MetricReading {
    MetricReading {
        code: code_of(src.kind),
        value: source_raw(src, snap) as u64,
        weight: src.weight,
    }
}

/// The readings of a whole pass, in registration order (meaningful when
/// `eval_error` is `None`).
pub open spec fn spec_readings(sources: Seq<MetricSource>, snap: ProviderSnapshot) -> Seq<
    MetricReading,
> {
    Seq::new(sources.len(), |i: int| spec_reading(sources[i], snap))
}

/// A pass succeeds exactly when every source yields a representable
/// reading.
pub proof fn lemma_eval_error_none(sources: Seq<MetricSource>, snap: ProviderSnapshot)
    ensures
        eval_error(sources, snap) is None <==> (forall|i: int|
            0 <= i < sources.len() ==> source_ok(sources[i], snap)),
    decreases sources.len(),
{
    if sources.len() != 0 {
        let rest = sources.drop_first();
        lemma_eval_error_none(rest, snap);
        assert(forall|i: int| 0 <= i < rest.len() ==> rest[i] == sources[i + 1]);
        if eval_error(sources, snap) is None {
            assert forall|i: int| 0 <= i < sources.len() implies source_ok(
                sources[i],
                snap,
            ) by {
                if i > 0 {
                    assert(source_ok(rest[i - 1], snap));
                }
            }
        } else if source_ok(sources[0], snap) {
            let i = choose|i: int| 0 <= i < rest.len() && !source_ok(rest[i], snap);
            assert(!source_ok(sources[i + 1], snap));
        }
    }
}

/// The error of a pass is the error of its first failing source.
pub proof fn lemma_eval_error_first(sources: Seq<MetricSource>, snap: ProviderSnapshot, i: int)
    requires
        0 <= i < sources.len(),
        forall|j: int| 0 <= j < i ==> source_ok(sources[j], snap),
        !source_ok(sources[i], snap),
    ensures
        eval_error(sources, snap) == source_error(sources[i], snap),
    decreases i,
{
    if i > 0 {
        assert(forall|j: int|
            0 <= j < sources.drop_first().len() ==> sources.drop_first()[j] == sources[j + 1]);
        lemma_eval_error_first(sources.drop_first(), snap, i - 1);
    }
}

/// Codes are unique within one pass: the readings mirror the sources one
/// to one, so a registry whose sources bear pairwise distinct codes yields
/// readings whose codes are pairwise distinct.
pub proof fn lemma_codes_unique(sources: Seq<MetricSource>, snap: ProviderSnapshot)
    requires
        forall|i: int, j: int|
            0 <= i < j < sources.len() ==> code_of(sources[i].kind) != code_of(sources[j].kind),
    ensures
        forall|i: int, j: int|
            0 <= i < j < sources.len() ==> spec_readings(sources, snap)[i].code != spec_readings(
                sources,
                snap,
            )[j].code,
{
    assert forall|i: int, j: int| 0 <= i < j < sources.len() implies spec_readings(
        sources,
        snap,
    )[i].code != spec_readings(sources, snap)[j].code by {
        assert(spec_readings(sources, snap)[i] == spec_reading(sources[i], snap));
        assert(spec_readings(sources, snap)[j] == spec_reading(sources[j], snap));
    }
}

/// Under sustained load the CPU reading does not decrease: if the load
/// average a window reads is no smaller in a later snapshot, the CPU
/// source's value in the later pass is no smaller either.
pub proof fn lemma_cpu_monotone(
    w: CpuWindow,
    weight: u64,
    before: ProviderSnapshot,
    after: ProviderSnapshot,
)
    requires
        before.load is Some,
        after.load is Some,
        window_of(before.load.unwrap(), w) <= window_of(after.load.unwrap(), w),
    ensures
        spec_reading((MetricSource { kind: SourceKind::Cpu(w), weight }), before).value
            <= spec_reading((MetricSource { kind: SourceKind::Cpu(w), weight }), after).value,
{
}

/// A prefix of the interface counters never exceeds the whole total.
proof fn lemma_net_prefix(s: Seq<NetCounters>, i: int)
    requires
        0 <= i <= s.len(),
    ensures
        net_total_bytes(s.take(i)) <= net_total_bytes(s),
    decreases s.len() - i,
{
    if i == s.len() {
        assert(s.take(i) =~= s);
    } else {
        assert(s.take(i + 1).drop_last() =~= s.take(i));
        assert(s.take(i + 1).last() == s[i]);
        lemma_net_prefix(s, i + 1);
    }
}

/// A prefix of the process counters never exceeds the whole total.
proof fn lemma_disk_prefix(s: Seq<DiskCounters>, i: int)
    requires
        0 <= i <= s.len(),
    ensures
        disk_total_bytes(s.take(i)) <= disk_total_bytes(s),
    decreases s.len() - i,
{
    if i == s.len() {
        assert(s.take(i) =~= s);
    } else {
        assert(s.take(i + 1).drop_last() =~= s.take(i));
        assert(s.take(i + 1).last() == s[i]);
        lemma_disk_prefix(s, i + 1);
    }
}

/// A byte total fits the fixed-point range exactly when it is at most
/// `MAX_BYTE_TOTAL`.
proof fn lemma_scale_fits(total: int)
    requires
        total >= 0,
    ensures
        total <= MAX_BYTE_TOTAL <==> total * SCALE <= u64::MAX,
{
    if total <= MAX_BYTE_TOTAL {
        lemma_mul_inequality(total, MAX_BYTE_TOTAL as int, SCALE as int);
        assert((MAX_BYTE_TOTAL as int) * (SCALE as int) == 18_446_744_073_709_000_000);
    } else {
        lemma_mul_inequality(MAX_BYTE_TOTAL as int + 1, total, SCALE as int);
        assert((MAX_BYTE_TOTAL as int + 1) * (SCALE as int) == 18_446_744_073_710_000_000);
    }
}

/// Sums the cumulative interface counters and scales the total to
/// micro-units; `Err(InvalidReading)` exactly when the scaled total does
/// not fit the fixed-point range.
pub fn network_value(counters: &Vec<NetCounters>) -> (r: Result<u64, MetricError>)
    ensures
        match r {
            Ok(v) => net_total_bytes(counters@) * SCALE <= u64::MAX && v as int == net_total_bytes(
                counters@,
            ) * SCALE,
            Err(e) => e == MetricError::InvalidReading && net_total_bytes(counters@) * SCALE
                > u64::MAX,
        },
{
    let mut acc: u64 = 0;
    let mut i: usize = 0;
    while i < counters.len()
        invariant
            0 <= i <= counters@.len(),
            acc <= MAX_BYTE_TOTAL,
            acc as int == net_total_bytes(counters@.take(i as int)),
        decreases counters@.len() - i,
    {
        let c = counters[i];
        let next: u128 = acc as u128 + c.received as u128 + c.transmitted as u128;
        proof {
            assert(counters@.take(i as int + 1).drop_last() =~= counters@.take(i as int));
            assert(counters@.take(i as int + 1).last() == counters@[i as int]);
        }
        if next > MAX_BYTE_TOTAL as u128 {
            proof {
                lemma_net_prefix(counters@, i as int + 1);
                lemma_scale_fits(net_total_bytes(counters@));
            }
            return Err(MetricError::InvalidReading);
        }
        acc = next as u64;
        i = i + 1;
    }
    proof {
        assert(counters@.take(counters@.len() as int) =~= counters@);
        lemma_scale_fits(net_total_bytes(counters@));
        lemma_mul_inequality(acc as int, MAX_BYTE_TOTAL as int, SCALE as int);
        assert((MAX_BYTE_TOTAL as int) * (SCALE as int) == 18_446_744_073_709_000_000);
    }
    Ok(acc * SCALE)
}

/// Sums the cumulative per-process disk counters and scales the total to
/// micro-units; `Err(InvalidReading)` exactly when the scaled total does
/// not fit the fixed-point range.
pub fn disk_value(counters: &Vec<DiskCounters>) -> (r: Result<u64, MetricError>)
    ensures
        match r {
            Ok(v) => disk_total_bytes(counters@) * SCALE <= u64::MAX && v as int
                == disk_total_bytes(counters@) * SCALE,
            Err(e) => e == MetricError::InvalidReading && disk_total_bytes(counters@) * SCALE
                > u64::MAX,
        },
{
    let mut acc: u64 = 0;
    let mut i: usize = 0;
    while i < counters.len()
        invariant
            0 <= i <= counters@.len(),
            acc <= MAX_BYTE_TOTAL,
            acc as int == disk_total_bytes(counters@.take(i as int)),
        decreases counters@.len() - i,
    {
        let c = counters[i];
        let next: u128 = acc as u128 + c.read_bytes as u128 + c.written_bytes as u128;
        proof {
            assert(counters@.take(i as int + 1).drop_last() =~= counters@.take(i as int));
            assert(counters@.take(i as int + 1).last() == counters@[i as int]);
        }
        if next > MAX_BYTE_TOTAL as u128 {
            proof {
                lemma_disk_prefix(counters@, i as int + 1);
                lemma_scale_fits(disk_total_bytes(counters@));
            }
            return Err(MetricError::InvalidReading);
        }
        acc = next as u64;
        i = i + 1;
    }
    proof {
        assert(counters@.take(counters@.len() as int) =~= counters@);
        lemma_scale_fits(disk_total_bytes(counters@));
        lemma_mul_inequality(acc as int, MAX_BYTE_TOTAL as int, SCALE as int);
        assert((MAX_BYTE_TOTAL as int) * (SCALE as int) == 18_446_744_073_709_000_000);
    }
    Ok(acc * SCALE)
}

/// Reads the load average of the requested window.
pub fn cpu_value(l: &LoadAverages, w: CpuWindow) -> (v: u64)
    ensures
        v == window_of(*l, w),
{
    match w {
        CpuWindow::OneMinute => l.one,
        CpuWindow::FiveMinutes => l.five,
        CpuWindow::FifteenMinutes => l.fifteen,
    }
}

impl MetricRegistry {
    /// Evaluates every source against one snapshot, in registration order.
    /// On success the readings mirror the sources one to one; any source
    /// failure aborts the whole pass with the first failing source's error,
    /// and no partial sequence is returned.
    pub fn evaluate(&self, snap: &ProviderSnapshot) -> (r: Result<Vec<MetricReading>, MetricError>)
        ensures
            match r {
                Ok(rs) => eval_error(self.sources@, *snap) is None && rs@ == spec_readings(
                    self.sources@,
                    *snap,
                ),
                Err(e) => eval_error(self.sources@, *snap) == Some(e),
            },
    {
        let mut readings: Vec<MetricReading> = Vec::new();
        let mut i: usize = 0;
        while i < self.sources.len()
            invariant
                0 <= i <= self.sources@.len(),
                forall|j: int| 0 <= j < i ==> source_ok(self.sources@[j], *snap),
                readings@.len() == i,
                forall|j: int|
                    0 <= j < i ==> readings@[j] == spec_reading(self.sources@[j], *snap),
            decreases self.sources@.len() - i,
        {
            let src = self.sources[i];
            let outcome: Result<u64, MetricError> = match src.kind {
                SourceKind::Cpu(w) => match &snap.load {
                    None => Err(MetricError::ProviderUnavailable),
                    Some(l) => Ok(cpu_value(l, w)),
                },
                SourceKind::Network => match &snap.network {
                    None => Err(MetricError::ProviderUnavailable),
                    Some(v) => network_value(v),
                },
                SourceKind::Disk => match &snap.disk {
                    None => Err(MetricError::ProviderUnavailable),
                    Some(v) => disk_value(v),
                },
            };
            match outcome {
                Ok(value) => {
                    let code = src.code();
                    readings.push(MetricReading { code, value, weight: src.weight });
                }
                Err(e) => {
                    proof {
                        lemma_eval_error_first(self.sources@, *snap, i as int);
                    }
                    return Err(e);
                }
            }
            i = i + 1;
        }
        proof {
            lemma_eval_error_none(self.sources@, *snap);
            assert(readings@ =~= spec_readings(self.sources@, *snap));
        }
        Ok(readings)
    }
}

} // verus!
