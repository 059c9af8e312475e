//! The telemetry loop: on each tick a fresh snapshot is encoded and
//! either printed or broadcast, and the loop goes on or stops.

use vstd::prelude::*;
use crate::config::{Config, ThresholdsConfig};
use crate::monitor::{HostMessage, SystemMonitor, SystemStats};
use crate::wire::{encode, payload_or_empty, stats_json};

verus! {

/// How the agent was asked to run.
#[derive(Debug, Clone, Copy, PartialEq, Eq, Structural)]
pub struct RunMode {
    /// Print each payload instead of sending it.
    pub dry_run: bool,
    /// Stop after the first tick.
    pub run_once: bool,
}

/// Where a tick's payload goes.
#[derive(Debug, Clone, Copy, PartialEq, Eq, Structural)]
pub enum Delivery {
    Print,
    Broadcast,
}

/// What follows a tick.
#[derive(Debug, Clone, Copy, PartialEq, Eq, Structural)]
pub enum AfterTick {
    Stop,
    /// Sleep for so many milliseconds, then tick again.
    Sleep(u64),
}

impl RunMode {
    /// Whether the discovery loop runs: not in a dry run, and not when
    /// the agent stops after one tick.
    pub fn discovers(&self) -> (enabled: bool)
        ensures
            enabled == (!self.dry_run && !self.run_once),
    {
        !self.dry_run && !self.run_once
    }

    /// Where a tick's payload goes.
    pub fn delivery(&self) -> (delivery: Delivery)
        ensures
            delivery == if self.dry_run {
                Delivery::Print
            } else {
                Delivery::Broadcast
            },
    {
        if self.dry_run {
            Delivery::Print
        } else {
            Delivery::Broadcast
        }
    }

    /// What follows a tick: the end, or a sleep of the configured
    /// interval.
    pub fn after_tick(&self, config: &Config) -> (after: AfterTick)
        ensures
            after == if self.run_once {
                AfterTick::Stop
            } else {
                AfterTick::Sleep(config.interval)
            },
    {
        if self.run_once {
            AfterTick::Stop
        } else {
            AfterTick::Sleep(config.interval)
        }
    }
}

/// The payload of a snapshot: its `Stats` frame.
pub fn stats_payload(stats: SystemStats) -> (payload: String)
    ensures
        payload@ == stats_json(stats),
{
    payload_or_empty(encode(&HostMessage::Stats(stats)))
}

/// Takes a fresh snapshot from the monitor and encodes it. The snapshot
/// is whatever the monitor's provider reports; the payload is its frame.
pub fn sample(monitor: &mut SystemMonitor, thresholds: &ThresholdsConfig) -> (tick: (
    SystemStats,
    String,
))
    ensures
        tick.1@ == stats_json(tick.0),
{
    let stats = monitor.update_and_get_stats(thresholds);
    (stats, stats_payload(stats))
}

} // verus!
