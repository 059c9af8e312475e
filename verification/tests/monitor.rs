use side_eye_host::config::ThresholdsConfig;
use side_eye_host::monitor::{
    pick_temperature, ram_usage, ChunkData, DeviceMessage, DiskSpace, FileInfo, HostMessage,
    HostProbe, Hundredths, MacProbe, NetCounters, Readings, StaticInfo, SystemDataProvider,
    SystemMonitor, SystemStats, ThermalSensor,
};
use side_eye_host::wire::encode;

/// A reading given in a floating-point number, rounded down to hundredths.
fn reading(value: f32) -> Hundredths {
    Hundredths((value as f64 * 100.0).floor() as i64)
}

struct MockDataProvider {
    static_info: StaticInfo,
    stats: SystemStats,
}

impl SystemDataProvider for MockDataProvider {
    fn get_static_info(&self) -> StaticInfo {
        self.static_info.clone()
    }

    fn update_and_get_stats(&mut self, _thresholds: &ThresholdsConfig) -> SystemStats {
        self.stats.clone()
    }
}

fn thresholds() -> ThresholdsConfig {
    ThresholdsConfig {
        cpu_warning: 70,
        cpu_critical: 90,
        ram_warning: 80,
        ram_critical: 95,
    }
}

#[test]
fn test_mock_monitor() {
    let static_info = StaticInfo {
        hostname: "test-host".into(),
        ip: "1.2.3.4".into(),
        mac: "AA:BB:CC:DD:EE:FF".into(),
        os: "Test OS".into(),
        user: "test-user".into(),
    };
    let stats = SystemStats {
        cpu_percent: reading(10.0),
        ram_used: 1000,
        ram_total: 8000,
        disk_used: 500,
        disk_total: 1000,
        net_up: 100,
        net_down: 200,
        uptime: 3600,
        thermal_c: reading(45.0),
        gpu_percent: reading(5.0),
        alert_level: 0,
    };

    let provider = MockDataProvider {
        static_info: static_info.clone(),
        stats: stats.clone(),
    };
    let mut monitor = SystemMonitor::with_provider(Box::new(provider));

    let info = monitor.get_static_info();
    assert_eq!(info.hostname, "test-host");

    let thresholds = ThresholdsConfig::default();
    let s = monitor.update_and_get_stats(&thresholds);
    assert_eq!(s.cpu_percent, reading(10.0));
    assert_eq!(s, stats);
}

#[test]
fn test_calculate_alert_level() {
    let thresholds = thresholds();

    // Normal
    assert_eq!(
        SystemMonitor::calculate_alert_level(reading(50.0), reading(50.0), &thresholds),
        0
    );

    // CPU Warning
    assert_eq!(
        SystemMonitor::calculate_alert_level(reading(75.0), reading(50.0), &thresholds),
        1
    );

    // CPU Critical
    assert_eq!(
        SystemMonitor::calculate_alert_level(reading(95.0), reading(50.0), &thresholds),
        2
    );

    // RAM Warning
    assert_eq!(
        SystemMonitor::calculate_alert_level(reading(50.0), reading(85.0), &thresholds),
        1
    );

    // RAM Critical
    assert_eq!(
        SystemMonitor::calculate_alert_level(reading(50.0), reading(97.0), &thresholds),
        2
    );
}

#[test]
fn alert_level_at_the_thresholds() {
    let t = thresholds();
    let level = |cpu: i64, ram: i64| {
        SystemMonitor::calculate_alert_level(Hundredths(cpu), Hundredths(ram), &t)
    };
    assert_eq!(level(6999, 7999), 0);
    assert_eq!(level(7000, 0), 1);
    assert_eq!(level(0, 8000), 1);
    assert_eq!(level(8999, 9499), 1);
    assert_eq!(level(9000, 0), 2);
    assert_eq!(level(0, 9500), 2);
    assert_eq!(level(9000, 8000), 2);
    assert_eq!(level(7000, 9500), 2);
    assert_eq!(level(-1, -1), 0);
    assert_eq!(level(i64::MIN, i64::MIN), 0);
    assert_eq!(level(i64::MAX, i64::MIN), 2);

    let inverted = ThresholdsConfig {
        cpu_warning: 90,
        cpu_critical: 70,
        ram_warning: 255,
        ram_critical: 255,
    };
    assert_eq!(
        SystemMonitor::calculate_alert_level(Hundredths(7500), Hundredths(0), &inverted),
        2
    );
    assert_eq!(
        SystemMonitor::calculate_alert_level(Hundredths(0), Hundredths(25499), &inverted),
        0
    );
    assert_eq!(
        SystemMonitor::calculate_alert_level(Hundredths(0), Hundredths(25500), &inverted),
        2
    );
    let zero = ThresholdsConfig {
        cpu_warning: 0,
        cpu_critical: 0,
        ram_warning: 0,
        ram_critical: 0,
    };
    assert_eq!(
        SystemMonitor::calculate_alert_level(Hundredths(0), Hundredths(-1), &zero),
        2
    );
    assert_eq!(
        SystemMonitor::calculate_alert_level(Hundredths(-1), Hundredths(-1), &zero),
        0
    );
}

#[test]
fn test_host_message_serialization() {
    let static_info = StaticInfo {
        hostname: "test".into(),
        ip: "1.2.3.4".into(),
        mac: "AA".into(),
        os: "OS".into(),
        user: "user".into(),
    };
    let msg = HostMessage::Identity(static_info);
    let json = encode(&msg).unwrap();
    assert!(json.contains("Identity"));

    let stats = SystemStats {
        cpu_percent: reading(0.0),
        ram_used: 0,
        ram_total: 100,
        disk_used: 0,
        disk_total: 100,
        net_up: 0,
        net_down: 0,
        uptime: 0,
        thermal_c: reading(0.0),
        gpu_percent: reading(0.0),
        alert_level: 0,
    };
    let msg_stats = HostMessage::Stats(stats);
    let json_stats = encode(&msg_stats).unwrap();
    assert!(json_stats.contains("Stats"));

    let msg_list = HostMessage::ListFiles { path: "/".into() };
    let json_list = encode(&msg_list).unwrap();
    assert!(json_list.contains("ListFiles"));

    let chunk = ChunkData {
        path: "test".into(),
        offset: 0,
        data: "abc".into(),
    };
    let msg_chunk = HostMessage::WriteChunk(chunk);
    let json_chunk = encode(&msg_chunk).unwrap();
    assert!(json_chunk.contains("WriteChunk"));
}

#[test]
fn device_messages_have_their_shapes() {
    let version = DeviceMessage::Version { version: "1.0".into() };
    let list = DeviceMessage::FileList(vec![FileInfo {
        n: "a.txt".into(),
        s: 12,
        d: false,
    }]);
    let result = DeviceMessage::OperationResult {
        success: true,
        message: "ok".into(),
    };
    assert!(matches!(version, DeviceMessage::Version { version } if version == "1.0"));
    assert!(matches!(list, DeviceMessage::FileList(files) if files[0].s == 12 && !files[0].d));
    assert!(matches!(result, DeviceMessage::OperationResult { success: true, .. }));
}

#[test]
fn identity_placeholders() {
    let nothing = StaticInfo::from_probe(HostProbe {
        hostname: None,
        ip: None,
        mac: MacProbe::Absent,
        os_name: None,
        os_version: None,
        user: None,
    });
    assert_eq!(nothing.hostname, "Unknown");
    assert_eq!(nothing.ip, "No IP");
    assert_eq!(nothing.mac, "No MAC");
    assert_eq!(nothing.os, "Unknown ");
    assert_eq!(nothing.user, "Unknown");

    let failed = StaticInfo::from_probe(HostProbe {
        hostname: Some("box".into()),
        ip: Some("10.0.0.7".into()),
        mac: MacProbe::Failed,
        os_name: Some("Linux".into()),
        os_version: None,
        user: Some("ada".into()),
    });
    assert_eq!(failed.hostname, "box");
    assert_eq!(failed.ip, "10.0.0.7");
    assert_eq!(failed.mac, "Error");
    assert_eq!(failed.os, "Linux ");
    assert_eq!(failed.user, "ada");

    let full = StaticInfo::from_probe(HostProbe {
        hostname: Some("box".into()),
        ip: Some("10.0.0.7".into()),
        mac: MacProbe::Found("AA:BB:CC:DD:EE:FF".into()),
        os_name: None,
        os_version: Some("6.1".into()),
        user: None,
    });
    assert_eq!(full.mac, "AA:BB:CC:DD:EE:FF");
    assert_eq!(full.os, "Unknown 6.1");
}

#[test]
fn ram_usage_in_hundredths() {
    assert_eq!(ram_usage(1000, 8000), Hundredths(1250));
    assert_eq!(ram_usage(1, 3), Hundredths(3333));
    assert_eq!(ram_usage(2, 3), Hundredths(6666));
    assert_eq!(ram_usage(0, 8000), Hundredths(0));
    assert_eq!(ram_usage(8000, 8000), Hundredths(10000));
    assert_eq!(ram_usage(0, 0), Hundredths(0));
    assert_eq!(ram_usage(1, 0), Hundredths(i64::MAX));
    assert_eq!(ram_usage(u64::MAX, 1), Hundredths(i64::MAX));
    assert_eq!(ram_usage(u64::MAX, u64::MAX), Hundredths(10000));
}

fn sensor(label: &str, celsius: i64) -> ThermalSensor {
    ThermalSensor {
        label: label.into(),
        celsius: Hundredths(celsius),
    }
}

#[test]
fn processor_sensor_is_picked_by_label() {
    assert_eq!(pick_temperature(&vec![]), Hundredths(0));
    assert_eq!(
        pick_temperature(&vec![sensor("nvme", 3000), sensor("acpitz", 2000)]),
        Hundredths(0)
    );
    assert_eq!(
        pick_temperature(&vec![
            sensor("nvme", 3000),
            sensor("CPU Package", 5512),
            sensor("Core 0", 6000),
        ]),
        Hundredths(5512)
    );
    assert_eq!(
        pick_temperature(&vec![sensor("coretemp Core 1", -250), sensor("cpu", 1)]),
        Hundredths(-250)
    );
    assert_eq!(pick_temperature(&vec![sensor("k10temp Tctl", 4000), sensor("xCpUx", 7)]), Hundredths(7));
    assert_eq!(pick_temperature(&vec![sensor("c p u", 4000), sensor("cor", 7)]), Hundredths(0));
}

#[test]
fn readings_are_put_together() {
    let readings = Readings {
        cpu_percent: Hundredths(7512),
        ram_used: 1000,
        ram_total: 8000,
        disks: vec![
            DiskSpace { total: 1000, available: 400 },
            DiskSpace { total: 500, available: 500 },
            DiskSpace { total: 10, available: 20 },
        ],
        networks: vec![
            NetCounters { received: 7, transmitted: 1 },
            NetCounters { received: 30, transmitted: 2 },
        ],
        uptime: 3600,
        sensors: vec![sensor("gpu", 100), sensor("Core 0", 4550)],
        gpu_percent: Some(Hundredths(500)),
    };
    let stats = SystemStats::from_readings(&readings, &thresholds());
    assert_eq!(
        stats,
        SystemStats {
            cpu_percent: Hundredths(7512),
            ram_used: 1000,
            ram_total: 8000,
            disk_used: 600,
            disk_total: 1510,
            net_up: 3,
            net_down: 37,
            uptime: 3600,
            thermal_c: Hundredths(4550),
            gpu_percent: Hundredths(500),
            alert_level: 1,
        }
    );

    let bare = Readings {
        cpu_percent: Hundredths(100),
        ram_used: 96,
        ram_total: 100,
        disks: vec![
            DiskSpace { total: u64::MAX, available: 0 },
            DiskSpace { total: 5, available: 1 },
        ],
        networks: vec![
            NetCounters { received: u64::MAX - 1, transmitted: 0 },
            NetCounters { received: 1, transmitted: 0 },
        ],
        uptime: 0,
        sensors: vec![],
        gpu_percent: None,
    };
    let stats = SystemStats::from_readings(&bare, &thresholds());
    assert_eq!(stats.disk_total, u64::MAX);
    assert_eq!(stats.disk_used, u64::MAX);
    assert_eq!(stats.net_down, u64::MAX);
    assert_eq!(stats.net_up, 0);
    assert_eq!(stats.thermal_c, Hundredths(0));
    assert_eq!(stats.gpu_percent, Hundredths(0));
    assert_eq!(stats.alert_level, 2);
}
