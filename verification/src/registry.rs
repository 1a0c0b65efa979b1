//! Metric sources, the weight/window configuration, the ordered registry,
//! and the error taxonomy of an evaluation pass.

use vstd::prelude::*;
use crate::metrics::{CpuWindow, MetricCode};

verus! {

/// Why an evaluation pass failed, or why a registry is degenerate.
#[derive(Clone, Copy, Debug, PartialEq, Eq, Structural)]
pub enum MetricError {
    /// The host facility backing a source could not be queried.
    ProviderUnavailable,
    /// A source produced a value outside the representable fixed-point
    /// range.
    InvalidReading,
    /// The registry holds no sources. Not an evaluation failure (an empty
    /// pass aggregates to zero), but callers can use it to tell an empty
    /// registry apart from one that ran and found everything at zero.
    RegistryEmpty,
}

/// What a source measures. The CPU variant carries its load-average window
/// as an explicit parameter.
#[derive(Clone, Copy, Debug, PartialEq, Eq, Structural)]
pub enum SourceKind {
    Cpu(CpuWindow),
    Network,
    Disk,
}

/// One registered metric source: what it measures and the weight fixed at
/// registration time (in micro-units).
#[derive(Clone, Copy, Debug, PartialEq, Eq, Structural)]
pub struct MetricSource {
    pub kind: SourceKind,
    pub weight: u64,
}

/// The metric code that a source kind reports under.
pub open spec fn code_of(k: SourceKind) -> MetricCode {
    match k {
        SourceKind::Cpu(_) => MetricCode::CpuStress,
        SourceKind::Network => MetricCode::NetworkStress,
        SourceKind::Disk => MetricCode::DiskStress,
    }
}

impl MetricSource {
    /// The code this source reports under.
    pub fn code(&self) -> (c: MetricCode)
        ensures
            c == code_of(self.kind),
    {
        match self.kind {
            SourceKind::Cpu(_) => MetricCode::CpuStress,
            SourceKind::Network => MetricCode::NetworkStress,
            SourceKind::Disk => MetricCode::DiskStress,
        }
    }
}

/// Default weight of the CPU source: 2.0 in micro-units.
pub const DEFAULT_CPU_WEIGHT: u64 = 2_000_000;

/// Default weight of the network source: 0.001 in micro-units.
pub const DEFAULT_NETWORK_WEIGHT: u64 = 1_000;

/// Default weight of the disk source: 0.001 in micro-units.
pub const DEFAULT_DISK_WEIGHT: u64 = 1_000;

/// The weight and window profile handed to the registry at construction,
/// in place of compiled-in globals.
#[derive(Clone, Copy, Debug, PartialEq, Eq, Structural)]
pub struct MetricConfig {
    pub cpu_weight: u64,
    pub network_weight: u64,
    pub disk_weight: u64,
    pub cpu_window: CpuWindow,
}

impl MetricConfig {
    /// The default weight profile, reading the one-minute load window.
    pub fn default_profile() -> (c: MetricConfig)
        ensures
            c.cpu_weight == DEFAULT_CPU_WEIGHT,
            c.network_weight == DEFAULT_NETWORK_WEIGHT,
            c.disk_weight == DEFAULT_DISK_WEIGHT,
            c.cpu_window == CpuWindow::OneMinute,
    {
        MetricConfig {
            cpu_weight: DEFAULT_CPU_WEIGHT,
            network_weight: DEFAULT_NETWORK_WEIGHT,
            disk_weight: DEFAULT_DISK_WEIGHT,
            cpu_window: CpuWindow::OneMinute,
        }
    }
}

/// An ordered collection of metric sources. Evaluation and report order is
/// the registration order.
pub struct MetricRegistry {
    pub sources: Vec<MetricSource>,
}

impl MetricRegistry {
    /// An empty registry.
    pub fn new() -> (r: MetricRegistry)
        ensures
            r.sources@ == Seq::<MetricSource>::empty(),
    {
        MetricRegistry { sources: Vec::new() }
    }

    /// Appends a source; it will be evaluated and reported after every
    /// source registered before it.
    pub fn register(&mut self, src: MetricSource)
        ensures
            final(self).sources@ == old(self).sources@.push(src),
    {
        self.sources.push(src);
    }

    /// The number of registered sources.
    pub fn len(&self) -> (n: usize)
        ensures
            n == self.sources@.len(),
    {
        self.sources.len()
    }

    /// The standard registry of a configuration: CPU, then network, then
    /// disk stress, each with its configured weight.
    pub fn standard(config: &MetricConfig) -> (r: MetricRegistry)
        ensures
            r.sources@.len() == 3,
            r.sources@[0] == (MetricSource {
                kind: SourceKind::Cpu(config.cpu_window),
                weight: config.cpu_weight,
            }),
            r.sources@[1] == (MetricSource { kind: SourceKind::Network, weight: config.network_weight }),
            r.sources@[2] == (MetricSource { kind: SourceKind::Disk, weight: config.disk_weight }),
    {
        let mut r = MetricRegistry::new();
        r.register(MetricSource { kind: SourceKind::Cpu(config.cpu_window), weight: config.cpu_weight });
        r.register(MetricSource { kind: SourceKind::Network, weight: config.network_weight });
        r.register(MetricSource { kind: SourceKind::Disk, weight: config.disk_weight });
        r
    }

    /// Checks that the registry is not degenerate: `Err(RegistryEmpty)`
    /// exactly when no source is registered.
    pub fn validate(&self) -> (r: Result<(), MetricError>)
        ensures
            r is Ok <==> self.sources@.len() > 0,
            r is Err ==> r->Err_0 == MetricError::RegistryEmpty,
    {
        if self.sources.len() == 0 {
            Err(MetricError::RegistryEmpty)
        } else {
            Ok(())
        }
    }
}

} // verus!
