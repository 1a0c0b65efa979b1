//! Core data model: metric codes, fixed-point values, readings, and the
//! provider snapshot that one evaluation pass consumes.

use vstd::prelude::*;
use vstd::string::StringExecFns;

verus! {

/// Number of micro-units in one unit of a measured value or weight.
///
/// Values and weights are fixed-point numbers held in micro-units: a load
/// average of one half is stored as 500_000, a weight of one thousandth as
/// 1_000.
pub const SCALE: u64 = 1_000_000;

/// Stable identifier of a metric kind. A closed set: adding a metric means
/// adding one variant here plus a registry entry.
#[derive(Clone, Copy, Debug, PartialEq, Eq, Structural)]
pub enum MetricCode {
    CpuStress,
    NetworkStress,
    DiskStress,
}

/// Which load-average window the CPU source reads. The window is an explicit
/// parameter of the source rather than a compiled-in choice.
#[derive(Clone, Copy, Debug, PartialEq, Eq, Structural)]
pub enum CpuWindow {
    OneMinute,
    FiveMinutes,
    FifteenMinutes,
}

/// One immutable measurement produced by an evaluation pass.
#[derive(Clone, Copy, Debug, PartialEq, Eq, Structural)]
pub struct MetricReading {
    /// Which metric this is.
    pub code: MetricCode,
    /// The raw measured value, in micro-units.
    pub value: u64,
    /// The weight fixed at registration time, in micro-units.
    pub weight: u64,
}

/// The three load averages, each in micro-units.
#[derive(Clone, Copy, Debug, PartialEq, Eq, Structural)]
pub struct LoadAverages {
    pub one: u64,
    pub five: u64,
    pub fifteen: u64,
}

/// Cumulative byte counters of one network interface since provider start.
#[derive(Clone, Copy, Debug, PartialEq, Eq, Structural)]
pub struct NetCounters {
    pub received: u64,
    pub transmitted: u64,
}

/// Cumulative disk I/O byte counters of one process.
#[derive(Clone, Copy, Debug, PartialEq, Eq, Structural)]
pub struct DiskCounters {
    pub read_bytes: u64,
    pub written_bytes: u64,
}

/// Everything one evaluation pass reads from the host-metrics provider,
/// as plain values. A `None` field means the corresponding facility could
/// not be queried on this host.
pub struct ProviderSnapshot {
    pub load: Option<LoadAverages>,
    pub network: Option<Vec<NetCounters>>,
    pub disk: Option<Vec<DiskCounters>>,
}

/// The load average that a given window selects.
pub open spec fn window_of(l: LoadAverages, w: CpuWindow) -> u64 {
    match w {
        CpuWindow::OneMinute => l.one,
        CpuWindow::FiveMinutes => l.five,
        CpuWindow::FifteenMinutes => l.fifteen,
    }
}

/// The report label of a metric code.
pub open spec fn code_label(c: MetricCode) -> Seq<char> {
    match c {
        MetricCode::CpuStress => "CPU_STRESS_CODE"@,
        MetricCode::NetworkStress => "NETWORK_STRESS_CODE"@,
        MetricCode::DiskStress => "DISK_STRESS_CODE"@,
    }
}

/// Converts a metric code to its report label.
pub fn code_to_string(code: MetricCode) -> (r: String)
    ensures
        r@ == code_label(code),
{
    match code {
        MetricCode::CpuStress => String::from_str("CPU_STRESS_CODE"),
        MetricCode::NetworkStress => String::from_str("NETWORK_STRESS_CODE"),
        MetricCode::DiskStress => String::from_str("DISK_STRESS_CODE"),
    }
}

} // verus!
