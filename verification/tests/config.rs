use side_eye_host::config::{
    home_sources, local_sources, merge_args_into_config, Args, Config, ConfigFormat,
    SDSyncConfig, ThresholdsConfig,
};

#[test]
fn test_merge_args() {
    let config = Config::default();
    let args = Args {
        port: Some("/dev/test".into()),
        baud_rate: Some(9600),
        verbose: true,
        dry_run: true,
        config: None,
        monitor_all: Some(false),
        interval: Some(500),
    };
    let merged = merge_args_into_config(config, &args);
    assert_eq!(merged.ports[0], "/dev/test");
    assert_eq!(merged.baud_rate, 9600);
    assert!(merged.verbose);
    assert_eq!(merged.interval, 500);
}

#[test]
fn merge_replaces_the_allow_list() {
    let config = Config {
        ports: vec!["a".into(), "b".into()],
        ..Default::default()
    };
    let args = Args {
        port: Some("c".into()),
        baud_rate: None,
        verbose: false,
        dry_run: false,
        config: None,
        monitor_all: None,
        interval: None,
    };
    let merged = merge_args_into_config(config, &args);
    assert_eq!(merged.ports, vec!["c".to_string()]);
    assert!(merged.monitor_all);
    assert_eq!(merged.baud_rate, 115200);
    assert_eq!(merged.interval, 1000);
    assert!(!merged.verbose);
}

#[test]
fn merge_without_arguments_changes_nothing() {
    let config = Config {
        ports: vec!["a".into(), "b".into()],
        monitor_all: false,
        filters: vec![1, 2],
        baud_rate: 57600,
        interval: 250,
        verbose: true,
        sd_sync: SDSyncConfig {
            local_path: Some("/srv".into()),
            sync_mode: "one_way".into(),
            conflict_resolution: "host_wins".into(),
        },
        thresholds: ThresholdsConfig {
            cpu_warning: 1,
            cpu_critical: 2,
            ram_warning: 3,
            ram_critical: 4,
        },
    };
    let args = Args {
        port: None,
        baud_rate: None,
        verbose: false,
        dry_run: false,
        config: None,
        monitor_all: None,
        interval: None,
    };
    let merged = merge_args_into_config(config, &args);
    assert_eq!(merged.ports, vec!["a".to_string(), "b".to_string()]);
    assert!(!merged.monitor_all);
    assert_eq!(merged.filters, vec![1, 2]);
    assert_eq!(merged.baud_rate, 57600);
    assert_eq!(merged.interval, 250);
    assert!(merged.verbose);
    assert_eq!(merged.sd_sync.local_path, Some("/srv".to_string()));
    assert_eq!(merged.thresholds.ram_critical, 4);
}

#[test]
fn defaults() {
    let config = Config::default();
    assert!(config.ports.is_empty());
    assert!(config.monitor_all);
    assert_eq!(config.filters, vec![0x303A]);
    assert_eq!(config.baud_rate, 115200);
    assert_eq!(config.interval, 1000);
    assert!(!config.verbose);
    assert_eq!(config.sd_sync.local_path, None);
    assert_eq!(config.sd_sync.sync_mode, "one_way");
    assert_eq!(config.sd_sync.conflict_resolution, "host_wins");
    assert_eq!(
        config.thresholds,
        ThresholdsConfig {
            cpu_warning: 70,
            cpu_critical: 90,
            ram_warning: 80,
            ram_critical: 95,
        }
    );
    assert_eq!(ThresholdsConfig::default(), config.thresholds);

    let sync = SDSyncConfig::default();
    assert_eq!(sync.local_path, None);
    assert_eq!(sync.sync_mode, "");
    assert_eq!(sync.conflict_resolution, "");
}

#[test]
fn formats_by_extension() {
    assert_eq!(ConfigFormat::from_extension("toml"), Some(ConfigFormat::Toml));
    assert_eq!(ConfigFormat::from_extension("yaml"), Some(ConfigFormat::Yaml));
    assert_eq!(ConfigFormat::from_extension("yml"), Some(ConfigFormat::Yaml));
    assert_eq!(ConfigFormat::from_extension("json"), Some(ConfigFormat::Json));
    assert_eq!(ConfigFormat::from_extension("TOML"), None);
    assert_eq!(ConfigFormat::from_extension("ini"), None);
    assert_eq!(ConfigFormat::from_extension(""), None);
}

#[test]
fn sources_in_merge_order() {
    let local: Vec<(String, ConfigFormat)> =
        local_sources().into_iter().map(|s| (s.file, s.format)).collect();
    assert_eq!(
        local,
        vec![
            ("side-eye.toml".to_string(), ConfigFormat::Toml),
            ("side-eye.yaml".to_string(), ConfigFormat::Yaml),
            ("side-eye.yml".to_string(), ConfigFormat::Yaml),
            ("side-eye.json".to_string(), ConfigFormat::Json),
        ]
    );
    let home: Vec<(String, ConfigFormat)> =
        home_sources().into_iter().map(|s| (s.file, s.format)).collect();
    assert_eq!(
        home,
        vec![
            ("config.toml".to_string(), ConfigFormat::Toml),
            ("config.yaml".to_string(), ConfigFormat::Yaml),
            ("config.yml".to_string(), ConfigFormat::Yaml),
            ("config.json".to_string(), ConfigFormat::Json),
        ]
    );
}
