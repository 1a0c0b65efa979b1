//! The host-metrics provider: trusted access to the system-information
//! crate, and assembly of a provider snapshot from what it hands out.
//!
//! Every value read here depends on the host at the moment of the call, so
//! the trusted items promise nothing of what comes back; the rest of the
//! library is verified for every value they could hand over.

use vstd::prelude::*;
use crate::metrics::{DiskCounters, LoadAverages, NetCounters, ProviderSnapshot};

verus! {

#[verifier::external_type_specification]
#[verifier::external_body]
pub struct ExSystem(sysinfo::System);

#[verifier::external_type_specification]
#[verifier::external_body]
pub struct ExNetworks(sysinfo::Networks);

#[verifier::external_type_specification]
#[verifier::external_body]
pub struct ExNetworkData(sysinfo::NetworkData);

/// Relies on sysinfo::System::new_all: builds a system handle with every
/// facility refreshed, processes included. What it observes depends on the
/// host, so nothing is promised of the value.
#[verifier::external_body]
fn probe_system() -> sysinfo::System {
    sysinfo::System::new_all()
}

/// Relies on sysinfo::Networks::new_with_refreshed_list: loads the network
/// interface list with current counters. Host-dependent; nothing is
/// promised of the value.
#[verifier::external_body]
fn probe_networks() -> sysinfo::Networks {
    sysinfo::Networks::new_with_refreshed_list()
}

/// Relies on sysinfo::Networks::list and NetworkData::total_received and
/// total_transmitted: hands out, one pair per interface, the cumulative
/// byte counters since the interface list was built. Host-dependent;
/// nothing is promised of the values.
#[verifier::external_body]
fn network_counters(nets: &sysinfo::Networks) -> Vec<NetCounters> {
    nets.list().iter().map(
        |(_, d)| NetCounters { received: d.total_received(), transmitted: d.total_transmitted() },
    ).collect()
}

/// Relies on sysinfo::System::processes and Process::disk_usage: hands
/// out, one pair per visible process, the cumulative read and written byte
/// counters (total_read_bytes and total_written_bytes). Host-dependent;
/// nothing is promised of the values.
#[verifier::external_body]
fn process_counters(sys: &sysinfo::System) -> Vec<DiskCounters> {
    sys.processes().values().map(|p| {
        let u = p.disk_usage();
        DiskCounters { read_bytes: u.total_read_bytes, written_bytes: u.total_written_bytes }
    }).collect()
}

/// Queries the host for the network and disk facilities and assembles one
/// provider snapshot around the load averages the caller already holds
/// (the load average reaches the library as plain micro-unit values).
pub fn collect_snapshot(load: Option<LoadAverages>) -> (s: ProviderSnapshot)
    ensures
        s.load == load,
        s.network is Some,
        s.disk is Some,
{
    let sys = probe_system();
    let nets = probe_networks();
    let network = network_counters(&nets);
    let disk = process_counters(&sys);
    ProviderSnapshot { load, network: Some(network), disk: Some(disk) }
}

} // verus!
