use quality_metric::aggregate::aggregate;
use quality_metric::evaluate::MAX_BYTE_TOTAL;
use quality_metric::metrics::{
    code_to_string, CpuWindow, DiskCounters, LoadAverages, MetricCode, MetricReading, NetCounters,
    ProviderSnapshot, SCALE,
};
use quality_metric::probe::collect_snapshot;
use quality_metric::registry::{
    MetricConfig, MetricError, MetricRegistry, MetricSource, SourceKind, DEFAULT_CPU_WEIGHT,
    DEFAULT_DISK_WEIGHT, DEFAULT_NETWORK_WEIGHT,
};
use quality_metric::report::get_quality_metric;

#[test]
fn example_scenario_two_sources() {
    // CpuStress(weight 2.0) over value 0.5 plus NetworkStress(weight 0.001)
    // over value 12000.0 must aggregate to exactly 13.0.
    let mut registry = MetricRegistry::new();
    registry.register(MetricSource {
        kind: SourceKind::Cpu(CpuWindow::OneMinute),
        weight: 2_000_000,
    });
    registry.register(MetricSource { kind: SourceKind::Network, weight: 1_000 });
    let snapshot = ProviderSnapshot {
        load: Some(LoadAverages { one: 500_000, five: 0, fifteen: 0 }),
        network: Some(vec![NetCounters { received: 7_000, transmitted: 5_000 }]),
        disk: None,
    };
    let readings = registry.evaluate(&snapshot).unwrap();
    assert_eq!(
        readings,
        vec![
            MetricReading { code: MetricCode::CpuStress, value: 500_000, weight: 2_000_000 },
            MetricReading {
                code: MetricCode::NetworkStress,
                value: 12_000_000_000,
                weight: 1_000,
            },
        ]
    );
    let total = aggregate(&readings).unwrap();
    assert_eq!(total, 13_000_000_000_000u128);
    let unit = SCALE as f64 * SCALE as f64;
    assert_eq!(total as f64 / unit, 13.0);
}

#[test]
fn example_scenario_empty_registry() {
    // An empty registry yields an aggregate of 0 and an empty sequence.
    let registry = MetricRegistry::new();
    let snapshot = ProviderSnapshot { load: None, network: None, disk: None };
    let readings = registry.evaluate(&snapshot).unwrap();
    assert!(readings.is_empty());
    assert_eq!(aggregate(&readings), Some(0));
    let report = get_quality_metric(&registry, &snapshot).unwrap();
    assert_eq!(report.total, 0);
    assert!(report.readings.is_empty());
    assert!(report.lines.is_empty());
}

#[test]
fn codes_unique_in_pass() {
    let config = MetricConfig::default_profile();
    let registry = MetricRegistry::standard(&config);
    let snapshot = ProviderSnapshot {
        load: Some(LoadAverages { one: 100_000, five: 200_000, fifteen: 300_000 }),
        network: Some(vec![NetCounters { received: 10, transmitted: 20 }]),
        disk: Some(vec![DiskCounters { read_bytes: 30, written_bytes: 40 }]),
    };
    let readings = registry.evaluate(&snapshot).unwrap();
    assert_eq!(readings.len(), 3);
    assert_eq!(readings[0].code, MetricCode::CpuStress);
    assert_eq!(readings[1].code, MetricCode::NetworkStress);
    assert_eq!(readings[2].code, MetricCode::DiskStress);
    for i in 0..readings.len() {
        for j in 0..readings.len() {
            if i != j {
                assert_ne!(readings[i].code, readings[j].code);
            }
        }
    }
}

#[test]
fn provider_unavailable_on_missing_load() {
    let config = MetricConfig::default_profile();
    let registry = MetricRegistry::standard(&config);
    let snapshot = ProviderSnapshot {
        load: None,
        network: Some(vec![]),
        disk: Some(vec![]),
    };
    assert_eq!(registry.evaluate(&snapshot), Err(MetricError::ProviderUnavailable));
    assert!(get_quality_metric(&registry, &snapshot).is_err());
}

#[test]
fn provider_unavailable_on_missing_network() {
    let config = MetricConfig::default_profile();
    let registry = MetricRegistry::standard(&config);
    let snapshot = ProviderSnapshot {
        load: Some(LoadAverages { one: 1, five: 2, fifteen: 3 }),
        network: None,
        disk: Some(vec![]),
    };
    assert_eq!(registry.evaluate(&snapshot), Err(MetricError::ProviderUnavailable));
}

#[test]
fn provider_unavailable_on_missing_disk() {
    let config = MetricConfig::default_profile();
    let registry = MetricRegistry::standard(&config);
    let snapshot = ProviderSnapshot {
        load: Some(LoadAverages { one: 1, five: 2, fifteen: 3 }),
        network: Some(vec![]),
        disk: None,
    };
    assert_eq!(registry.evaluate(&snapshot), Err(MetricError::ProviderUnavailable));
}

#[test]
fn network_total_at_fixed_point_limit() {
    let mut registry = MetricRegistry::new();
    registry.register(MetricSource { kind: SourceKind::Network, weight: 1 });
    let snapshot = ProviderSnapshot {
        load: None,
        network: Some(vec![NetCounters { received: MAX_BYTE_TOTAL, transmitted: 0 }]),
        disk: None,
    };
    let readings = registry.evaluate(&snapshot).unwrap();
    assert_eq!(readings[0].value, MAX_BYTE_TOTAL * SCALE);
}

#[test]
fn invalid_reading_on_network_overflow() {
    let mut registry = MetricRegistry::new();
    registry.register(MetricSource { kind: SourceKind::Network, weight: 1 });
    let snapshot = ProviderSnapshot {
        load: None,
        network: Some(vec![NetCounters { received: MAX_BYTE_TOTAL, transmitted: 1 }]),
        disk: None,
    };
    assert_eq!(registry.evaluate(&snapshot), Err(MetricError::InvalidReading));
}

#[test]
fn invalid_reading_on_disk_overflow() {
    let mut registry = MetricRegistry::new();
    registry.register(MetricSource { kind: SourceKind::Disk, weight: 1 });
    let snapshot = ProviderSnapshot {
        load: None,
        network: None,
        disk: Some(vec![
            DiskCounters { read_bytes: u64::MAX, written_bytes: u64::MAX },
        ]),
    };
    assert_eq!(registry.evaluate(&snapshot), Err(MetricError::InvalidReading));
}

#[test]
fn disk_scenario_exact_value() {
    let mut registry = MetricRegistry::new();
    registry.register(MetricSource { kind: SourceKind::Disk, weight: 1_000 });
    let snapshot = ProviderSnapshot {
        load: None,
        network: None,
        disk: Some(vec![
            DiskCounters { read_bytes: 1_000, written_bytes: 2_000 },
            DiskCounters { read_bytes: 3_000, written_bytes: 4_000 },
        ]),
    };
    let readings = registry.evaluate(&snapshot).unwrap();
    assert_eq!(readings[0].value, 10_000_000_000);
    assert_eq!(aggregate(&readings), Some(10_000_000_000_000));
}

#[test]
fn registry_empty_is_distinguishable() {
    let registry = MetricRegistry::new();
    assert_eq!(registry.validate(), Err(MetricError::RegistryEmpty));
    let config = MetricConfig::default_profile();
    let standard = MetricRegistry::standard(&config);
    assert_eq!(standard.validate(), Ok(()));
    assert_eq!(standard.len(), 3);
}

#[test]
fn cpu_stress_monotone_under_higher_load() {
    // Two successive passes where the load average did not decrease must
    // yield a CPU reading that did not decrease.
    let mut registry = MetricRegistry::new();
    registry.register(MetricSource {
        kind: SourceKind::Cpu(CpuWindow::OneMinute),
        weight: DEFAULT_CPU_WEIGHT,
    });
    let before = ProviderSnapshot {
        load: Some(LoadAverages { one: 300_000, five: 0, fifteen: 0 }),
        network: None,
        disk: None,
    };
    let after = ProviderSnapshot {
        load: Some(LoadAverages { one: 800_000, five: 0, fifteen: 0 }),
        network: None,
        disk: None,
    };
    let r1 = registry.evaluate(&before).unwrap();
    let r2 = registry.evaluate(&after).unwrap();
    assert!(r2[0].value >= r1[0].value);
    let q1 = aggregate(&r1).unwrap();
    let q2 = aggregate(&r2).unwrap();
    assert!(q2 > q1);
}

#[test]
fn cpu_window_is_explicit() {
    let loads = LoadAverages { one: 111, five: 555, fifteen: 151_515 };
    let snapshot = ProviderSnapshot { load: Some(loads), network: None, disk: None };
    for (window, expected) in [
        (CpuWindow::OneMinute, 111),
        (CpuWindow::FiveMinutes, 555),
        (CpuWindow::FifteenMinutes, 151_515),
    ] {
        let mut registry = MetricRegistry::new();
        registry.register(MetricSource { kind: SourceKind::Cpu(window), weight: 1 });
        let readings = registry.evaluate(&snapshot).unwrap();
        assert_eq!(readings[0].value, expected);
    }
}

#[test]
fn aggregate_is_sum_of_contributions() {
    let readings = vec![
        MetricReading { code: MetricCode::CpuStress, value: 123, weight: 456 },
        MetricReading { code: MetricCode::NetworkStress, value: 789, weight: 1 },
        MetricReading { code: MetricCode::DiskStress, value: 0, weight: 99 },
    ];
    let mut expected: u128 = 0;
    for r in &readings {
        expected += r.value as u128 * r.weight as u128;
    }
    assert_eq!(aggregate(&readings), Some(expected));
}

#[test]
fn aggregate_order_independent() {
    let a = MetricReading { code: MetricCode::CpuStress, value: 500_000, weight: 2_000_000 };
    let b = MetricReading { code: MetricCode::NetworkStress, value: 12_000_000_000, weight: 1_000 };
    let c = MetricReading { code: MetricCode::DiskStress, value: 7, weight: 13 };
    let one = aggregate(&vec![a, b, c]);
    let two = aggregate(&vec![c, b, a]);
    let three = aggregate(&vec![b, a, c]);
    assert_eq!(one, two);
    assert_eq!(one, three);
}

#[test]
fn aggregate_overflow_is_reported() {
    let huge = MetricReading { code: MetricCode::CpuStress, value: u64::MAX, weight: u64::MAX };
    let readings = vec![huge, huge];
    assert_eq!(aggregate(&readings), None);
}

#[test]
fn code_labels_are_stable() {
    assert_eq!(code_to_string(MetricCode::CpuStress), "CPU_STRESS_CODE");
    assert_eq!(code_to_string(MetricCode::NetworkStress), "NETWORK_STRESS_CODE");
    assert_eq!(code_to_string(MetricCode::DiskStress), "DISK_STRESS_CODE");
}

#[test]
fn report_lines_match_readings() {
    let mut registry = MetricRegistry::new();
    registry.register(MetricSource {
        kind: SourceKind::Cpu(CpuWindow::OneMinute),
        weight: 2_000_000,
    });
    registry.register(MetricSource { kind: SourceKind::Network, weight: 1_000 });
    let snapshot = ProviderSnapshot {
        load: Some(LoadAverages { one: 500_000, five: 0, fifteen: 0 }),
        network: Some(vec![NetCounters { received: 12_000, transmitted: 0 }]),
        disk: None,
    };
    let report = get_quality_metric(&registry, &snapshot).unwrap();
    assert_eq!(report.total, 13_000_000_000_000);
    assert_eq!(report.lines.len(), 2);
    assert_eq!(report.lines[0].label, "CPU_STRESS_CODE");
    assert_eq!(report.lines[0].value, 500_000);
    assert_eq!(report.lines[0].weight, 2_000_000);
    assert_eq!(report.lines[0].contribution, 1_000_000_000_000);
    assert_eq!(report.lines[1].label, "NETWORK_STRESS_CODE");
    assert_eq!(report.lines[1].value, 12_000_000_000);
    assert_eq!(report.lines[1].weight, 1_000);
    assert_eq!(report.lines[1].contribution, 12_000_000_000_000);
}

#[test]
fn default_profile_weights() {
    let config = MetricConfig::default_profile();
    assert_eq!(config.cpu_weight, DEFAULT_CPU_WEIGHT);
    assert_eq!(config.network_weight, DEFAULT_NETWORK_WEIGHT);
    assert_eq!(config.disk_weight, DEFAULT_DISK_WEIGHT);
    assert_eq!(config.cpu_weight, 2_000_000);
    assert_eq!(config.network_weight, 1_000);
    assert_eq!(config.disk_weight, 1_000);
    assert_eq!(config.cpu_window, CpuWindow::OneMinute);
}

#[test]
fn host_probe_full_pass() {
    // Runs the real provider: the snapshot carries both counter facilities,
    // and a standard pass over it succeeds with one reading per source.
    let loads = LoadAverages { one: 250_000, five: 250_000, fifteen: 250_000 };
    let snapshot = collect_snapshot(Some(loads));
    assert!(snapshot.network.is_some());
    assert!(snapshot.disk.is_some());
    let config = MetricConfig::default_profile();
    let registry = MetricRegistry::standard(&config);
    let report = get_quality_metric(&registry, &snapshot).unwrap();
    assert_eq!(report.readings.len(), 3);
    assert_eq!(report.readings[0].code, MetricCode::CpuStress);
    assert_eq!(report.readings[0].value, 250_000);
    assert_eq!(report.readings[0].weight, DEFAULT_CPU_WEIGHT);
}
