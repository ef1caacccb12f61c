//! A point in time on the lap clock of the control unit.

use std::ops::{Add, Sub};
use std::time::Duration;
use vstd::prelude::*;
use vstd::std_specs::ops::{AddSpecImpl, SubSpecImpl};

use crate::trusted::{duration_as_millis, duration_from_millis, duration_of_millis, whole_millis};

verus! {

/// A reading of the lap clock, in milliseconds since the clock was reset.
#[derive(Debug, Clone, Copy)]
pub struct LapTime {
    milliseconds: u32,
}

/// The low 32 bits of a number of milliseconds: what the lap clock can hold
/// of it.
pub open spec fn clock_millis(millis: nat) -> u32 {
    (millis % 0x1_0000_0000) as u32
}

impl LapTime {
    /// The milliseconds of this reading.
    pub closed spec fn millis(self) -> u32 {
        self.milliseconds
    }

    /// The reading of the given number of milliseconds.
    pub closed spec fn of_millis(milliseconds: u32) -> LapTime {
        LapTime { milliseconds }
    }

    /// A reading holds its milliseconds and nothing else.
    pub proof fn lemma_of_millis(milliseconds: u32, time: LapTime)
        ensures
            LapTime::of_millis(milliseconds).millis() == milliseconds,
            LapTime::of_millis(time.millis()) == time,
    {
    }

    /// The reading of the given number of milliseconds.
    pub fn from_millis(milliseconds: u32) -> (time: Self)
        ensures
            time == LapTime::of_millis(milliseconds),
            time.millis() == milliseconds,
    {
        Self { milliseconds }
    }
}

impl LapTime {
    /// Whether the lap clock can hold the reading that lies `rhs` after this
    /// one. Of `rhs` the whole milliseconds count, and of those the low 32
    /// bits.
    pub open spec fn can_add(self, rhs: Duration) -> bool {
        self.millis() + clock_millis(whole_millis(rhs)) <= u32::MAX
    }

    /// The reading that lies `rhs` after this one.
    pub open spec fn plus(self, rhs: Duration) -> LapTime
        recommends
            self.can_add(rhs),
    {
        LapTime::of_millis((self.millis() + clock_millis(whole_millis(rhs))) as u32)
    }

    /// Whether the lap clock had run for `rhs` at this reading. Of `rhs` the
    /// whole milliseconds count, and of those the low 32 bits.
    pub open spec fn can_sub(self, rhs: Duration) -> bool {
        clock_millis(whole_millis(rhs)) <= self.millis()
    }

    /// The reading that lies `rhs` before this one.
    pub open spec fn minus(self, rhs: Duration) -> LapTime
        recommends
            self.can_sub(rhs),
    {
        LapTime::of_millis((self.millis() - clock_millis(whole_millis(rhs))) as u32)
    }

    /// The whole milliseconds of a duration, as far as the lap clock holds
    /// them.
    fn clock_millis_of(rhs: &Duration) -> (millis: u32)
        ensures
            millis == clock_millis(whole_millis(*rhs)),
    {
        let total: u128 = duration_as_millis(rhs);
        proof {
            assert(total as u32 == total % 0x1_0000_0000) by (bit_vector);
        }
        #[verifier::truncate]
        (total as u32)
    }

    /// The reading that lies `rhs` after this one, if the lap clock can
    /// hold it, and no reading if it cannot.
    pub fn checked_add(self, rhs: Duration) -> (sum: Option<LapTime>)
        ensures
            sum is Some <==> self.can_add(rhs),
            sum matches Some(time) ==> time == self.plus(rhs),
    {
        if LapTime::clock_millis_of(&rhs) <= u32::MAX - self.milliseconds {
            Some(self + rhs)
        } else {
            None
        }
    }

    /// The reading that lies `rhs` before this one, if the lap clock had
    /// run for that long, and no reading if it had not.
    pub fn checked_sub(self, rhs: Duration) -> (difference: Option<LapTime>)
        ensures
            difference is Some <==> self.can_sub(rhs),
            difference matches Some(time) ==> time == self.minus(rhs),
    {
        if LapTime::clock_millis_of(&rhs) <= self.milliseconds {
            Some(self - rhs)
        } else {
            None
        }
    }
}

impl Add<Duration> for LapTime {
    type Output = Self;

    /// The reading that lies `rhs` after this one. Of `rhs` the whole
    /// milliseconds count, and of those the low 32 bits.
    fn add(self, rhs: Duration) -> (sum: Self::Output) {
        let rhs_millis: u32 = LapTime::clock_millis_of(&rhs);
        Self { milliseconds: self.milliseconds + rhs_millis }
    }
}

impl AddSpecImpl<Duration> for LapTime {
    open spec fn obeys_add_spec() -> bool {
        true
    }

    open spec fn add_req(self, rhs: Duration) -> bool {
        self.can_add(rhs)
    }

    open spec fn add_spec(self, rhs: Duration) -> Self::Output {
        self.plus(rhs)
    }
}

impl Sub<Duration> for LapTime {
    type Output = Self;

    /// The reading that lies `rhs` before this one. Of `rhs` the whole
    /// milliseconds count, and of those the low 32 bits.
    fn sub(self, rhs: Duration) -> (difference: Self::Output) {
        let rhs_millis: u32 = LapTime::clock_millis_of(&rhs);
        Self { milliseconds: self.milliseconds - rhs_millis }
    }
}

impl SubSpecImpl<Duration> for LapTime {
    open spec fn obeys_sub_spec() -> bool {
        true
    }

    open spec fn sub_req(self, rhs: Duration) -> bool {
        self.can_sub(rhs)
    }

    open spec fn sub_spec(self, rhs: Duration) -> Self::Output {
        self.minus(rhs)
    }
}

impl Sub<LapTime> for LapTime {
    type Output = Duration;

    /// The time that passed between the reading `rhs` and this one.
    fn sub(self, rhs: LapTime) -> (between: Self::Output) {
        let delta: u32 = self.milliseconds - rhs.milliseconds;
        duration_from_millis(delta as u64)
    }
}

impl SubSpecImpl<LapTime> for LapTime {
    open spec fn obeys_sub_spec() -> bool {
        true
    }

    open spec fn sub_req(self, rhs: LapTime) -> bool {
        rhs.millis() <= self.millis()
    }

    open spec fn sub_spec(self, rhs: LapTime) -> Self::Output {
        duration_of_millis((self.millis() - rhs.millis()) as u64)
    }
}

} // verus!
