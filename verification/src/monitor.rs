//! Telemetry values, the messages exchanged with a device, and the alert
//! level derived from CPU and RAM usage.

use vstd::prelude::*;
use vstd::string::StringExecFns;
use crate::config::ThresholdsConfig;

verus! {

/// A measurement in hundredths of its unit: `Hundredths(1234)` is 12.34.
#[derive(Debug, Clone, Copy, PartialEq, Eq, Structural)]
pub struct Hundredths(pub i64);

/// The identity record sent once per connection.
#[derive(Debug, Clone)]
pub struct StaticInfo {
    pub hostname: String,
    pub ip: String,
    pub mac: String,
    pub os: String,
    pub user: String,
}

/// One telemetry snapshot.
#[derive(Debug, Clone, Copy, PartialEq, Eq, Structural)]
pub struct SystemStats {
    pub cpu_percent: Hundredths,
    pub ram_used: u64,
    pub ram_total: u64,
    pub disk_used: u64,
    pub disk_total: u64,
    pub net_up: u64,
    pub net_down: u64,
    pub uptime: u64,
    pub thermal_c: Hundredths,
    pub gpu_percent: Hundredths,
    pub alert_level: u8,
}

/// One entry of a device's file listing: name, size, directory flag.
#[derive(Debug, Clone)]
pub struct FileInfo {
    pub n: String,
    pub s: u64,
    pub d: bool,
}

/// One slice of a file on its way to the device.
#[derive(Debug, Clone)]
pub struct ChunkData {
    pub path: String,
    pub offset: usize,
    /// The slice's bytes in standard base64.
    pub data: String,
}

/// Messages from host to device.
#[derive(Debug, Clone)]
pub enum HostMessage {
    Identity(StaticInfo),
    Stats(SystemStats),
    ListFiles { path: String },
    WriteChunk(ChunkData),
}

/// Messages from device to host. Only their shape is defined.
#[derive(Debug, Clone)]
pub enum DeviceMessage {
    Version { version: String },
    FileList(Vec<FileInfo>),
    OperationResult { success: bool, message: String },
}

/// Whether a reading has reached a threshold given in whole units.
pub open spec fn reaches(value: Hundredths, threshold: u8) -> bool {
    value.0 >= threshold as int * 100
}

/// The severity of one metric: 2 at or above critical, else 1 at or above
/// warning, else 0.
pub open spec fn metric_level(value: Hundredths, warning: u8, critical: u8) -> u8 {
    if reaches(value, critical) {
        2
    } else if reaches(value, warning) {
        1
    } else {
        0
    }
}

/// The alert level: the higher of the CPU and RAM severities.
pub open spec fn alert_level(cpu: Hundredths, ram: Hundredths, thresholds: ThresholdsConfig) -> u8 {
    let cpu_level = metric_level(cpu, thresholds.cpu_warning, thresholds.cpu_critical);
    let ram_level = metric_level(ram, thresholds.ram_warning, thresholds.ram_critical);
    if cpu_level >= ram_level {
        cpu_level
    } else {
        ram_level
    }
}

fn level_of(value: Hundredths, warning: u8, critical: u8) -> (level: u8)
    ensures
        level == metric_level(value, warning, critical),
{
    let critical_at: i64 = critical as i64 * 100;
    let warning_at: i64 = warning as i64 * 100;
    if value.0 >= critical_at {
        2
    } else if value.0 >= warning_at {
        1
    } else {
        0
    }
}

/// The alert level is 2 exactly when either metric has reached its critical
/// threshold, 1 exactly when neither has but at least one has reached its
/// warning threshold, and 0 otherwise.
pub proof fn alert_level_by_thresholds(cpu: Hundredths, ram: Hundredths, thresholds: ThresholdsConfig)
    ensures
        alert_level(cpu, ram, thresholds) <= 2,
        alert_level(cpu, ram, thresholds) == 2 <==> (reaches(cpu, thresholds.cpu_critical)
            || reaches(ram, thresholds.ram_critical)),
        alert_level(cpu, ram, thresholds) == 1 <==> (!reaches(cpu, thresholds.cpu_critical)
            && !reaches(ram, thresholds.ram_critical) && (reaches(cpu, thresholds.cpu_warning)
            || reaches(ram, thresholds.ram_warning))),
        alert_level(cpu, ram, thresholds) == 0 <==> (!reaches(cpu, thresholds.cpu_critical)
            && !reaches(ram, thresholds.ram_critical) && !reaches(cpu, thresholds.cpu_warning)
            && !reaches(ram, thresholds.ram_warning)),
{
}

/// The capability the core consumes for host identity and live statistics.
pub trait SystemDataProvider {
    fn get_static_info(&self) -> StaticInfo;

    fn update_and_get_stats(&mut self, thresholds: &ThresholdsConfig) -> SystemStats;
}

/// The monitor of one host: it asks its provider.
pub struct SystemMonitor {
    provider: Box<dyn SystemDataProvider>,
}

impl SystemMonitor {
    /// A monitor that asks `provider`.
    pub fn with_provider(provider: Box<dyn SystemDataProvider>) -> Self {
        SystemMonitor { provider }
    }

    /// The host's identity, as the provider reports it.
    pub fn get_static_info(&self) -> StaticInfo {
        self.provider.get_static_info()
    }

    /// A fresh snapshot, as the provider reports it.
    pub fn update_and_get_stats(&mut self, thresholds: &ThresholdsConfig) -> SystemStats {
        self.provider.update_and_get_stats(thresholds)
    }

    /// Derives the alert level from CPU and RAM usage.
    pub fn calculate_alert_level(
        cpu_percent: Hundredths,
        ram_percent: Hundredths,
        thresholds: &ThresholdsConfig,
    ) -> (level: u8)
        ensures
            level == alert_level(cpu_percent, ram_percent, *thresholds),
    {
        let cpu_level = level_of(cpu_percent, thresholds.cpu_warning, thresholds.cpu_critical);
        let ram_level = level_of(ram_percent, thresholds.ram_warning, thresholds.ram_critical);
        if cpu_level >= ram_level {
            cpu_level
        } else {
            ram_level
        }
    }
}

/// What looking up the host's hardware address came to.
#[derive(Debug, Clone)]
pub enum MacProbe {
    Found(String),
    /// The host has no such address.
    Absent,
    /// The lookup failed.
    Failed,
}

/// What was found out about the host; `None` where a lookup gave nothing.
#[derive(Debug, Clone)]
pub struct HostProbe {
    pub hostname: Option<String>,
    pub ip: Option<String>,
    pub mac: MacProbe,
    pub os_name: Option<String>,
    pub os_version: Option<String>,
    pub user: Option<String>,
}

/// The text found, or `fallback` where nothing was.
pub open spec fn text_or(found: Option<String>, fallback: Seq<char>) -> Seq<char> {
    match found {
        Some(text) => text@,
        None => fallback,
    }
}

fn found_or(found: Option<String>, fallback: &str) -> (text: String)
    ensures
        text@ == text_or(found, fallback@),
{
    match found {
        Some(text) => text,
        None => String::from_str(fallback),
    }
}

impl StaticInfo {
    /// The identity record for what was found out about the host, with a
    /// placeholder wherever a lookup gave nothing.
    pub fn from_probe(probe: HostProbe) -> (info: StaticInfo)
        ensures
            info.hostname@ == text_or(probe.hostname, "Unknown"@),
            info.ip@ == text_or(probe.ip, "No IP"@),
            info.mac@ == match probe.mac {
                MacProbe::Found(mac) => mac@,
                MacProbe::Absent => "No MAC"@,
                MacProbe::Failed => "Error"@,
            },
            info.os@ == text_or(probe.os_name, "Unknown"@) + " "@ + text_or(probe.os_version, ""@),
            info.user@ == text_or(probe.user, "Unknown"@),
    {
        let mac = match probe.mac {
            MacProbe::Found(mac) => mac,
            MacProbe::Absent => String::from_str("No MAC"),
            MacProbe::Failed => String::from_str("Error"),
        };
        let version = found_or(probe.os_version, "");
        let os = found_or(probe.os_name, "Unknown").concat(" ").concat(version.as_str());
        StaticInfo {
            hostname: found_or(probe.hostname, "Unknown"),
            ip: found_or(probe.ip, "No IP"),
            mac,
            os,
            user: found_or(probe.user, "Unknown"),
        }
    }
}

/// The size of one disk and how much of it is free, in bytes.
#[derive(Debug, Clone, Copy, PartialEq, Eq, Structural)]
pub struct DiskSpace {
    pub total: u64,
    pub available: u64,
}

/// The bytes one network interface has received and sent.
#[derive(Debug, Clone, Copy, PartialEq, Eq, Structural)]
pub struct NetCounters {
    pub received: u64,
    pub transmitted: u64,
}

/// One temperature sensor.
#[derive(Debug, Clone)]
pub struct ThermalSensor {
    pub label: String,
    pub celsius: Hundredths,
}

/// The raw readings of one telemetry tick.
#[derive(Debug, Clone)]
pub struct Readings {
    pub cpu_percent: Hundredths,
    pub ram_used: u64,
    pub ram_total: u64,
    pub disks: Vec<DiskSpace>,
    pub networks: Vec<NetCounters>,
    pub uptime: u64,
    pub sensors: Vec<ThermalSensor>,
    /// The GPU's utilisation, where one could be asked.
    pub gpu_percent: Option<Hundredths>,
}

/// A count as a `u64` holds it: counts beyond its range stay at the top.
pub open spec fn capped(count: nat) -> u64 {
    if count > u64::MAX {
        u64::MAX
    } else {
        count as u64
    }
}

/// The bytes in use on a disk.
pub open spec fn disk_used(disk: DiskSpace) -> nat {
    if disk.total >= disk.available {
        (disk.total - disk.available) as nat
    } else {
        0
    }
}

/// The size of all disks together.
pub open spec fn total_space(disks: Seq<DiskSpace>) -> nat
    decreases disks.len(),
{
    if disks.len() == 0 {
        0
    } else {
        total_space(disks.drop_last()) + disks.last().total as nat
    }
}

/// The bytes in use on all disks together.
pub open spec fn used_space(disks: Seq<DiskSpace>) -> nat
    decreases disks.len(),
{
    if disks.len() == 0 {
        0
    } else {
        used_space(disks.drop_last()) + disk_used(disks.last())
    }
}

/// The bytes received on all interfaces together.
pub open spec fn total_received(networks: Seq<NetCounters>) -> nat
    decreases networks.len(),
{
    if networks.len() == 0 {
        0
    } else {
        total_received(networks.drop_last()) + networks.last().received as nat
    }
}

/// The bytes sent on all interfaces together.
pub open spec fn total_transmitted(networks: Seq<NetCounters>) -> nat
    decreases networks.len(),
{
    if networks.len() == 0 {
        0
    } else {
        total_transmitted(networks.drop_last()) + networks.last().transmitted as nat
    }
}

fn add_capped(sum: u64, more: u64, Ghost(exact): Ghost<nat>) -> (next: u64)
    requires
        sum == capped(exact),
    ensures
        next == capped(exact + more as nat),
{
    if more > u64::MAX - sum {
        u64::MAX
    } else {
        sum + more
    }
}

/// RAM usage in hundredths of a percent, rounded down. Without any RAM
/// to speak of, usage counts as none where nothing is used and as
/// unbounded otherwise.
pub open spec fn ram_percent(used: u64, total: u64) -> Hundredths {
    if total == 0 {
        if used == 0 {
            Hundredths(0)
        } else {
            Hundredths(i64::MAX)
        }
    } else if used * 10000 / (total as int) > i64::MAX {
        Hundredths(i64::MAX)
    } else {
        Hundredths((used * 10000 / (total as int)) as i64)
    }
}

/// Computes RAM usage from the bytes used and the bytes installed.
pub fn ram_usage(used: u64, total: u64) -> (percent: Hundredths)
    ensures
        percent == ram_percent(used, total),
{
    if total == 0 {
        if used == 0 {
            Hundredths(0)
        } else {
            Hundredths(i64::MAX)
        }
    } else {
        let scaled: u128 = used as u128 * 10000;
        let ratio: u128 = scaled / (total as u128);
        if ratio > i64::MAX as u128 {
            Hundredths(i64::MAX)
        } else {
            Hundredths(ratio as i64)
        }
    }
}

/// The lower-case form of a text, as `str::to_lowercase` gives it.
pub uninterp spec fn lowercase(text: Seq<char>) -> Seq<char>;

/// Calls `str::to_lowercase`. The result is the lower-case form of
/// `text`.
#[verifier::external_body]
fn to_lowercase(text: &str) -> (lower: String)
    ensures
        lower@ == lowercase(text@),
{
    text.to_lowercase()
}

/// `needle` occurs in `text` as a run of consecutive characters.
pub open spec fn occurs_in(needle: Seq<char>, text: Seq<char>) -> bool {
    exists|start: int|
        0 <= start && start + needle.len() <= text.len() && #[trigger] text.subrange(
            start,
            start + needle.len(),
        ) == needle
}

/// Calls `str::contains` with a string pattern. The result tells whether
/// `needle` occurs in `text`.
#[verifier::external_body]
fn contains_text(text: &str, needle: &str) -> (found: bool)
    ensures
        found == occurs_in(needle@, text@),
{
    text.contains(needle)
}

/// A sensor reports on the processor when its label, in lower case,
/// mentions `cpu` or `core`.
pub open spec fn is_processor_label(label: Seq<char>) -> bool {
    occurs_in("cpu"@, lowercase(label)) || occurs_in("core"@, lowercase(label))
}

/// The temperature of the first sensor that reports on the processor, or
/// zero where there is none.
pub open spec fn processor_temperature(sensors: Seq<ThermalSensor>) -> Hundredths
    decreases sensors.len(),
{
    if sensors.len() == 0 {
        Hundredths(0)
    } else if is_processor_label(sensors.first().label@) {
        sensors.first().celsius
    } else {
        processor_temperature(sensors.drop_first())
    }
}

/// Finds the processor's temperature among the sensors.
pub fn pick_temperature(sensors: &Vec<ThermalSensor>) -> (celsius: Hundredths)
    ensures
        celsius == processor_temperature(sensors@),
{
    let mut i: usize = 0;
    assert(sensors@.skip(0) =~= sensors@);
    while i < sensors.len()
        invariant
            i <= sensors.len(),
            processor_temperature(sensors@) == processor_temperature(sensors@.skip(i as int)),
        decreases sensors.len() - i,
    {
        let lower = to_lowercase(sensors[i].label.as_str());
        let ghost rest = sensors@.skip(i as int);
        assert(rest.drop_first() =~= sensors@.skip(i + 1));
        if contains_text(lower.as_str(), "cpu") || contains_text(lower.as_str(), "core") {
            return sensors[i].celsius;
        }
        i += 1;
    }
    Hundredths(0)
}

/// The snapshot that a tick's readings come to.
pub open spec fn stats_of(readings: Readings, thresholds: ThresholdsConfig) -> SystemStats {
    SystemStats {
        cpu_percent: readings.cpu_percent,
        ram_used: readings.ram_used,
        ram_total: readings.ram_total,
        disk_used: capped(used_space(readings.disks@)),
        disk_total: capped(total_space(readings.disks@)),
        net_up: capped(total_transmitted(readings.networks@)),
        net_down: capped(total_received(readings.networks@)),
        uptime: readings.uptime,
        thermal_c: processor_temperature(readings.sensors@),
        gpu_percent: match readings.gpu_percent {
            Some(percent) => percent,
            None => Hundredths(0),
        },
        alert_level: alert_level(
            readings.cpu_percent,
            ram_percent(readings.ram_used, readings.ram_total),
            thresholds,
        ),
    }
}

impl SystemStats {
    /// Puts a tick's readings together: disks and interfaces are summed,
    /// the processor's temperature is picked out, and the alert level is
    /// derived from CPU and RAM usage.
    pub fn from_readings(readings: &Readings, thresholds: &ThresholdsConfig) -> (stats: SystemStats)
        ensures
            stats == stats_of(*readings, *thresholds),
    {
        let mut disk_used: u64 = 0;
        let mut disk_total: u64 = 0;
        let mut i: usize = 0;
        while i < readings.disks.len()
            invariant
                i <= readings.disks.len(),
                disk_used == capped(used_space(readings.disks@.take(i as int))),
                disk_total == capped(total_space(readings.disks@.take(i as int))),
            decreases readings.disks.len() - i,
        {
            let disk = readings.disks[i];
            let ghost seen = readings.disks@.take(i as int);
            assert(readings.disks@.take(i + 1).drop_last() =~= seen);
            let used = if disk.total >= disk.available {
                disk.total - disk.available
            } else {
                0
            };
            disk_total = add_capped(disk_total, disk.total, Ghost(total_space(seen)));
            disk_used = add_capped(disk_used, used, Ghost(used_space(seen)));
            i += 1;
        }
        assert(readings.disks@.take(readings.disks@.len() as int) =~= readings.disks@);
        let mut net_down: u64 = 0;
        let mut net_up: u64 = 0;
        let mut j: usize = 0;
        while j < readings.networks.len()
            invariant
                j <= readings.networks.len(),
                net_down == capped(total_received(readings.networks@.take(j as int))),
                net_up == capped(total_transmitted(readings.networks@.take(j as int))),
            decreases readings.networks.len() - j,
        {
            let network = readings.networks[j];
            let ghost seen = readings.networks@.take(j as int);
            assert(readings.networks@.take(j + 1).drop_last() =~= seen);
            net_down = add_capped(net_down, network.received, Ghost(total_received(seen)));
            net_up = add_capped(net_up, network.transmitted, Ghost(total_transmitted(seen)));
            j += 1;
        }
        assert(readings.networks@.take(readings.networks@.len() as int) =~= readings.networks@);
        let gpu_percent = match readings.gpu_percent {
            Some(percent) => percent,
            None => Hundredths(0),
        };
        SystemStats {
            cpu_percent: readings.cpu_percent,
            ram_used: readings.ram_used,
            ram_total: readings.ram_total,
            disk_used,
            disk_total,
            net_up,
            net_down,
            uptime: readings.uptime,
            thermal_c: pick_temperature(&readings.sensors),
            gpu_percent,
            alert_level: SystemMonitor::calculate_alert_level(
                readings.cpu_percent,
                ram_usage(readings.ram_used, readings.ram_total),
                thresholds,
            ),
        }
    }
}

} // verus!
