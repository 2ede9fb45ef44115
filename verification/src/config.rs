//! Build-time settings of a run, gathered in one immutable value.

use vstd::prelude::*;

verus! {

/// The settings that the generator and the transport are built with.
#[derive(Clone, Copy, Debug, PartialEq, Eq, Structural)]
pub struct Config {
    /// Vertical coordinate of every drawing move.
    pub depth: u32,
    /// Lower bound of a drawn feed rate, in mm/min.
    pub min_speed: u32,
    /// Upper bound of a drawn feed rate, in mm/min.
    pub max_speed: u32,
    /// Largest radius of a pattern, in mm.
    pub max_radius: i32,
    /// Feed rate of the straight approach to a circle, in mm/min.
    pub approach_feed: u32,
    /// Angle between two spokes of a radial sweep, in degrees.
    pub sweep_step: u32,
    /// Angle between a spoke and its return line, in degrees.
    pub sweep_offset: u32,
    /// Time allowed for the acknowledgment of one command, in milliseconds.
    pub ack_deadline_ms: u64,
}

impl Config {
    /// The feed rates from the lower bound through the upper bound are a
    /// non-empty range.
    pub open spec fn has_speeds(self) -> bool {
        self.min_speed <= self.max_speed
    }

    /// The feed rates from the lower bound up to, but without, the upper
    /// bound are a non-empty range.
    pub open spec fn has_speeds_below(self) -> bool {
        self.min_speed < self.max_speed
    }

    /// A sweep moves on from spoke to spoke.
    pub open spec fn has_sweep(self) -> bool {
        self.sweep_step > 0
    }

    /// A configuration that serves every pattern.
    pub open spec fn wf(self) -> bool {
        &&& self.has_speeds_below()
        &&& self.has_sweep()
    }

    /// The settings of the reference machine.
    pub open spec fn reference() -> Config {
        Config {
            depth: 42,
            min_speed: 3000,
            max_speed: 6000,
            max_radius: 75,
            approach_feed: 3000,
            sweep_step: 20,
            sweep_offset: 5,
            ack_deadline_ms: 10_000,
        }
    }

    /// Returns the settings of the reference machine.
    pub fn standard() -> (config: Config)
        ensures
            config == Config::reference(),
            config.wf(),
    {
        Config {
            depth: 42,
            min_speed: 3000,
            max_speed: 6000,
            max_radius: 75,
            approach_feed: 3000,
            sweep_step: 20,
            sweep_offset: 5,
            ack_deadline_ms: 10_000,
        }
    }

    /// Tells whether the configuration serves every pattern.
    pub fn is_valid(&self) -> (valid: bool)
        ensures
            valid == self.wf(),
    {
        self.min_speed < self.max_speed && self.sweep_step > 0
    }
}

} // verus!
