//! The values that the control unit reports: track status and lap status.

use std::time::Duration;
use vstd::prelude::*;
use vstd::std_specs::convert::TryFromSpecImpl;

use crate::trusted::{duration_from_millis, duration_of_millis, whole_millis};

verus! {

/// Maximum number of controllers which can be supported.
pub const MAX_CONTROLLER_COUNT: usize = 8;

/// Status of the lap of a specific controller.
/// Contains the sector and time of the controller.
#[derive(Debug)]
pub struct LapStatus {
    /// Identifier of the controller, counted from zero.
    pub controller: usize,
    /// Sector of the track where the time was taken.
    pub sector: usize,
    /// Time measurement for the corresponding controller.
    pub time: Duration,
}

impl LapStatus {
    /// Creates a default initialized status.
    pub fn new() -> (status: LapStatus)
        ensures
            status.controller == 0,
            status.sector == 0,
            status.time == duration_of_millis(0),
            whole_millis(status.time) == 0,
    {
        LapStatus { controller: 0, sector: 0, time: duration_from_millis(0) }
    }
}

/// Start signal which is emitted by the track.
#[derive(Debug, Clone, Copy, PartialEq, Eq, Structural)]
pub enum StartSignal {
    /// No start sequence is running.
    Off,
    /// Five lights: the countdown has begun.
    Five,
    /// Four lights.
    Four,
    /// Three lights.
    Three,
    /// Two lights.
    Two,
    /// One light.
    One,
    /// The race is released.
    Go,
}

impl StartSignal {
    /// The number that stands for this signal on the wire.
    pub open spec fn code_spec(self) -> u8 {
        match self {
            StartSignal::Off => 0,
            StartSignal::Five => 2,
            StartSignal::Four => 3,
            StartSignal::Three => 4,
            StartSignal::Two => 5,
            StartSignal::One => 6,
            StartSignal::Go => 7,
        }
    }

    /// The signal that a wire number stands for, if it stands for one.
    pub open spec fn from_code(v: u8) -> Option<StartSignal> {
        match v {
            0 => Some(StartSignal::Off),
            2 => Some(StartSignal::Five),
            3 => Some(StartSignal::Four),
            4 => Some(StartSignal::Three),
            5 => Some(StartSignal::Two),
            6 => Some(StartSignal::One),
            7 => Some(StartSignal::Go),
            _ => None,
        }
    }

    /// The number that stands for this signal on the wire.
    #[verifier::when_used_as_spec(code_spec)]
    pub fn code(self) -> (v: u8)
        ensures
            v == self.code_spec(),
    {
        match self {
            StartSignal::Off => 0,
            StartSignal::Five => 2,
            StartSignal::Four => 3,
            StartSignal::Three => 4,
            StartSignal::Two => 5,
            StartSignal::One => 6,
            StartSignal::Go => 7,
        }
    }

    /// Every signal is found again from its wire number, and a wire number
    /// that stands for a signal is that signal's number.
    pub proof fn lemma_code_round_trip(signal: StartSignal, v: u8)
        ensures
            StartSignal::from_code(signal.code_spec()) == Some(signal),
            StartSignal::from_code(v) matches Some(s) ==> s.code_spec() == v,
            StartSignal::from_code(v) is Some <==> (v == 0 || 2 <= v <= 7),
    {
    }
}

impl TryFrom<u8> for StartSignal {
    type Error = ();

    fn try_from(v: u8) -> (r: Result<Self, Self::Error>) {
        if v == 0 {
            Ok(StartSignal::Off)
        } else if v == 2 {
            Ok(StartSignal::Five)
        } else if v == 3 {
            Ok(StartSignal::Four)
        } else if v == 4 {
            Ok(StartSignal::Three)
        } else if v == 5 {
            Ok(StartSignal::Two)
        } else if v == 6 {
            Ok(StartSignal::One)
        } else if v == 7 {
            Ok(StartSignal::Go)
        } else {
            Err(())
        }
    }
}

impl TryFromSpecImpl<u8> for StartSignal {
    open spec fn obeys_try_from_spec() -> bool {
        true
    }

    open spec fn try_from_spec(v: u8) -> Result<Self, Self::Error> {
        match StartSignal::from_code(v) {
            Some(signal) => Ok(signal),
            None => Err(()),
        }
    }
}

/// A snapshot of the state of the track.
#[derive(Debug)]
pub struct TrackStatus {
    /// The fuel level of each controller.
    /// Values are in range [0,15].
    pub fuel_levels: [usize; MAX_CONTROLLER_COUNT],
    /// Determines which controller is refueling at the pit lane.
    pub is_refueling: [bool; MAX_CONTROLLER_COUNT],
    /// Countdown indicator for the start of a race.
    pub start_signal: StartSignal,
    /// Determines if fuel mode is enabled on the track.
    pub is_fuel_enabled: bool,
    /// Determines if real fuel mode is enabled on the track.
    pub is_real_fuel_enabled: bool,
    /// Determines if a pit lane adapter is connected.
    pub is_pit_lane_connected: bool,
    /// Determines if a lap counter adapter is connected.
    pub is_lap_counter_connected: bool,
    /// Number of controllers which are currently in use.
    pub controller_count: usize,
}

impl TrackStatus {
    /// Creates a status with no fuel, nobody refueling, no start signal and
    /// every flag cleared.
    pub fn new() -> (status: TrackStatus)
        ensures
            forall|i: int| 0 <= i < MAX_CONTROLLER_COUNT ==> status.fuel_levels@[i] == 0,
            forall|i: int| 0 <= i < MAX_CONTROLLER_COUNT ==> !status.is_refueling@[i],
            status.start_signal == StartSignal::Off,
            !status.is_fuel_enabled,
            !status.is_real_fuel_enabled,
            !status.is_pit_lane_connected,
            !status.is_lap_counter_connected,
            status.controller_count == 0,
    {
        TrackStatus {
            fuel_levels: [0; MAX_CONTROLLER_COUNT],
            is_refueling: [false; MAX_CONTROLLER_COUNT],
            start_signal: StartSignal::Off,
            is_fuel_enabled: false,
            is_real_fuel_enabled: false,
            is_pit_lane_connected: false,
            is_lap_counter_connected: false,
            controller_count: 0,
        }
    }
}

/// Status message that can be returned by the control unit.
/// Either contains a lap status or a track status.
#[derive(Debug)]
pub enum Status {
    /// The most recent lap or sector time of one controller.
    Lap(LapStatus),
    /// The state of the track as a whole.
    Track(TrackStatus),
}

} // verus!
