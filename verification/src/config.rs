//! Configuration values consumed by the agent, and the rules by which
//! command-line overrides are laid over them.

use vstd::prelude::*;
use vstd::string::StringExecFns;

verus! {

/// Warning and critical percentages for CPU and RAM usage.
#[derive(Debug, Clone, Copy, PartialEq, Eq, Structural)]
pub struct ThresholdsConfig {
    pub cpu_warning: u8,
    pub cpu_critical: u8,
    pub ram_warning: u8,
    pub ram_critical: u8,
}

impl Default for ThresholdsConfig {
    fn default() -> (t: Self)
        ensures
            t.cpu_warning == 70,
            t.cpu_critical == 90,
            t.ram_warning == 80,
            t.ram_critical == 95,
    {
        ThresholdsConfig { cpu_warning: 70, cpu_critical: 90, ram_warning: 80, ram_critical: 95 }
    }
}

/// Where the file sync reads from, and the two strategy names that are
/// carried along but never branched on.
#[derive(Debug, Clone)]
pub struct SDSyncConfig {
    pub local_path: Option<String>,
    pub sync_mode: String,
    pub conflict_resolution: String,
}

impl Default for SDSyncConfig {
    fn default() -> (c: Self)
        ensures
            c.local_path is None,
            c.sync_mode@ == Seq::<char>::empty(),
            c.conflict_resolution@ == Seq::<char>::empty(),
    {
        SDSyncConfig {
            local_path: None,
            sync_mode: String::new(),
            conflict_resolution: String::new(),
        }
    }
}

/// Everything the agent is configured with.
#[derive(Debug, Clone)]
pub struct Config {
    /// Explicit allow-list of endpoint names.
    pub ports: Vec<String>,
    /// When set, endpoints are chosen by vendor id instead of by name.
    pub monitor_all: bool,
    /// Vendor ids accepted in monitor-all mode.
    pub filters: Vec<u16>,
    pub baud_rate: u32,
    /// Telemetry interval in milliseconds.
    pub interval: u64,
    pub verbose: bool,
    pub sd_sync: SDSyncConfig,
    pub thresholds: ThresholdsConfig,
}

impl Default for Config {
    fn default() -> (c: Self)
        ensures
            c.ports@ == Seq::<String>::empty(),
            c.monitor_all,
            c.filters@ == seq![0x303Au16],
            c.baud_rate == 115200,
            c.interval == 1000,
            !c.verbose,
            c.sd_sync.local_path is None,
            c.sd_sync.sync_mode@ == "one_way"@,
            c.sd_sync.conflict_resolution@ == "host_wins"@,
            c.thresholds.cpu_warning == 70,
            c.thresholds.cpu_critical == 90,
            c.thresholds.ram_warning == 80,
            c.thresholds.ram_critical == 95,
    {
        let mut filters: Vec<u16> = Vec::new();
        filters.push(0x303A);
        Config {
            ports: Vec::new(),
            monitor_all: true,
            filters,
            baud_rate: 115200,
            interval: 1000,
            verbose: false,
            sd_sync: SDSyncConfig {
                local_path: None,
                sync_mode: String::from_str("one_way"),
                conflict_resolution: String::from_str("host_wins"),
            },
            thresholds: ThresholdsConfig::default(),
        }
    }
}

/// What the command line may set. A value that is absent leaves the
/// configuration as it is.
#[derive(Debug, Clone)]
pub struct Args {
    /// A single endpoint name, which replaces the allow-list.
    pub port: Option<String>,
    pub baud_rate: Option<u32>,
    pub verbose: bool,
    pub dry_run: bool,
    /// Path of a configuration file.
    pub config: Option<String>,
    pub monitor_all: Option<bool>,
    pub interval: Option<u64>,
}

/// Lays the command line over a configuration: each value given on the
/// command line takes precedence, and `verbose` can only be switched on.
pub fn merge_args_into_config(config: Config, args: &Args) -> (merged: Config)
    ensures
        args.port matches Some(port) ==> merged.ports@ == seq![port],
        args.port is None ==> merged.ports == config.ports,
        merged.monitor_all == match args.monitor_all {
            Some(monitor_all) => monitor_all,
            None => config.monitor_all,
        },
        merged.baud_rate == match args.baud_rate {
            Some(baud_rate) => baud_rate,
            None => config.baud_rate,
        },
        merged.interval == match args.interval {
            Some(interval) => interval,
            None => config.interval,
        },
        merged.verbose == (config.verbose || args.verbose),
        merged.filters == config.filters,
        merged.sd_sync == config.sd_sync,
        merged.thresholds == config.thresholds,
{
    let mut config = config;
    match &args.port {
        Some(port) => {
            let mut ports: Vec<String> = Vec::new();
            ports.push(port.clone());
            config.ports = ports;
        },
        None => {},
    }
    match args.monitor_all {
        Some(monitor_all) => {
            config.monitor_all = monitor_all;
        },
        None => {},
    }
    match args.baud_rate {
        Some(baud_rate) => {
            config.baud_rate = baud_rate;
        },
        None => {},
    }
    match args.interval {
        Some(interval) => {
            config.interval = interval;
        },
        None => {},
    }
    if args.verbose {
        config.verbose = true;
    }
    config
}

/// The formats a configuration file may be written in.
#[derive(Debug, Clone, Copy, PartialEq, Eq, Structural)]
pub enum ConfigFormat {
    Toml,
    Yaml,
    Json,
}

/// The format that a file extension stands for, if any.
pub open spec fn format_of(extension: Seq<char>) -> Option<ConfigFormat> {
    if extension == "toml"@ {
        Some(ConfigFormat::Toml)
    } else if extension == "yaml"@ || extension == "yml"@ {
        Some(ConfigFormat::Yaml)
    } else if extension == "json"@ {
        Some(ConfigFormat::Json)
    } else {
        None
    }
}

impl ConfigFormat {
    /// Tells the format of an explicitly named configuration file by its
    /// extension. A file with any other extension is left out.
    pub fn from_extension(extension: &str) -> (format: Option<ConfigFormat>)
        ensures
            format == format_of(extension@),
    {
        let extension = String::from_str(extension);
        if extension == String::from_str("toml") {
            Some(ConfigFormat::Toml)
        } else if extension == String::from_str("yaml") || extension == String::from_str("yml") {
            Some(ConfigFormat::Yaml)
        } else if extension == String::from_str("json") {
            Some(ConfigFormat::Json)
        } else {
            None
        }
    }
}

/// A configuration file that is looked for, and the format it is read in.
#[derive(Debug, Clone)]
pub struct ConfigSource {
    pub file: String,
    pub format: ConfigFormat,
}

fn source(file: &str, format: ConfigFormat) -> (source: ConfigSource)
    ensures
        source.file@ == file@,
        source.format == format,
{
    ConfigSource { file: String::from_str(file), format }
}

/// The names and formats of the four files of a family: `stem` with the
/// extensions `toml`, `yaml`, `yml` and `json`, later ones overriding
/// earlier ones.
pub open spec fn is_family(sources: Seq<ConfigSource>, toml: Seq<char>, yaml: Seq<char>, yml: Seq<
    char,
>, json: Seq<char>) -> bool {
    &&& sources.len() == 4
    &&& sources[0].file@ == toml && sources[0].format == ConfigFormat::Toml
    &&& sources[1].file@ == yaml && sources[1].format == ConfigFormat::Yaml
    &&& sources[2].file@ == yml && sources[2].format == ConfigFormat::Yaml
    &&& sources[3].file@ == json && sources[3].format == ConfigFormat::Json
}

/// The files looked for in the working directory, in the order in which
/// they are merged.
pub fn local_sources() -> (sources: Vec<ConfigSource>)
    ensures
        is_family(
            sources@,
            "side-eye.toml"@,
            "side-eye.yaml"@,
            "side-eye.yml"@,
            "side-eye.json"@,
        ),
{
    let mut sources: Vec<ConfigSource> = Vec::new();
    sources.push(source("side-eye.toml", ConfigFormat::Toml));
    sources.push(source("side-eye.yaml", ConfigFormat::Yaml));
    sources.push(source("side-eye.yml", ConfigFormat::Yaml));
    sources.push(source("side-eye.json", ConfigFormat::Json));
    sources
}

/// The files looked for in `.config/side-eye` below the home directory,
/// in the order in which they are merged.
pub fn home_sources() -> (sources: Vec<ConfigSource>)
    ensures
        is_family(sources@, "config.toml"@, "config.yaml"@, "config.yml"@, "config.json"@),
{
    let mut sources: Vec<ConfigSource> = Vec::new();
    sources.push(source("config.toml", ConfigFormat::Toml));
    sources.push(source("config.yaml", ConfigFormat::Yaml));
    sources.push(source("config.yml", ConfigFormat::Yaml));
    sources.push(source("config.json", ConfigFormat::Json));
    sources
}

} // verus!
