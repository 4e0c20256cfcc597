//! The two hysteresis state machines of the status model: the display range
//! of a quantity, and the battery level.
//!
//! Both are transition functions from a state and an input to the next
//! state. Their thresholds are data, so that other hardware can bring its
//! own.

use vstd::prelude::*;
use crate::text::magnitude;

verus! {

/// The display range of one quantity.
#[derive(Clone, Copy, Debug, PartialEq, Eq, Structural)]
pub enum RangeState {
    /// Shown in thousandths of the base unit.
    Low,
    /// Shown in the base unit.
    High,
}

/// The thresholds of a display range, as magnitudes in nano-units.
#[derive(Clone, Copy, Debug, PartialEq, Eq, Structural)]
pub struct RangeThresholds {
    /// At this magnitude or above, the low range is left.
    pub up: u64,
    /// Below this magnitude, the high range is left.
    pub down: u64,
}

/// The range that follows `state` on the input `value`.
pub open spec fn range_next(state: RangeState, value: int, limits: RangeThresholds) -> RangeState {
    match state {
        RangeState::Low => if magnitude(value) >= limits.up {
            RangeState::High
        } else {
            RangeState::Low
        },
        RangeState::High => if magnitude(value) < limits.down {
            RangeState::Low
        } else {
            RangeState::High
        },
    }
}

impl RangeThresholds {
    /// Up at 2 base units, down below 1.5.
    pub fn standard() -> (limits: RangeThresholds)
        ensures
            limits == (RangeThresholds { up: 2_000_000_000, down: 1_500_000_000 }),
    {
        RangeThresholds { up: 2_000_000_000, down: 1_500_000_000 }
    }

    /// Whether the thresholds leave a band between them.
    pub open spec fn wf(&self) -> bool {
        self.down < self.up
    }

    /// Whether the thresholds leave a band between them.
    pub fn is_valid(&self) -> (valid: bool)
        ensures
            valid == self.wf(),
    {
        self.down < self.up
    }
}

impl RangeState {
    /// The range that follows this one on the input `value`.
    pub fn next(self, value: i64, limits: &RangeThresholds) -> (state: RangeState)
        ensures
            state == range_next(self, value as int, *limits),
    {
        let wide: i128 = value as i128;
        let amount: u64 = if wide < 0 {
            (-wide) as u64
        } else {
            wide as u64
        };
        match self {
            RangeState::Low => if amount >= limits.up {
                RangeState::High
            } else {
                RangeState::Low
            },
            RangeState::High => if amount < limits.down {
                RangeState::Low
            } else {
                RangeState::High
            },
        }
    }
}

/// An input inside the band between the two thresholds changes no range.
pub proof fn lemma_range_holds_in_band(state: RangeState, value: int, limits: RangeThresholds)
    requires
        limits.down <= magnitude(value) < limits.up,
    ensures
        range_next(state, value, limits) == state,
{
}

/// Outside the band the input alone decides the range, whatever it was
/// before.
pub proof fn lemma_range_decided_outside_band(state: RangeState, value: int, limits: RangeThresholds)
    requires
        limits.wf(),
    ensures
        magnitude(value) >= limits.up ==> range_next(state, value, limits) == RangeState::High,
        magnitude(value) < limits.down ==> range_next(state, value, limits) == RangeState::Low,
{
}

/// The battery level shown: a ladder of six levels of charge, and above them
/// the supply from outside.
#[derive(Clone, Copy, Debug, PartialEq, Eq, Structural)]
pub enum BatteryLevel {
    Percent0,
    Percent20,
    Percent40,
    Percent60,
    Percent80,
    Percent100,
    ExternalPower,
}

/// The thresholds of the battery ladder in nanovolts, one pair for each pair
/// of neighbouring levels, lowest first.
#[derive(Clone, Copy, Debug)]
pub struct BatteryThresholds {
    /// At `up[k]` or above, the level at rung `k` gives way to the next one.
    pub up: [i64; 6],
    /// Below `down[k]`, the level at rung `k + 1` gives way to the one under
    /// it.
    pub down: [i64; 6],
}

/// The rung of a level on the ladder, from 0 to 6.
pub open spec fn rung(level: BatteryLevel) -> int {
    match level {
        BatteryLevel::Percent0 => 0,
        BatteryLevel::Percent20 => 1,
        BatteryLevel::Percent40 => 2,
        BatteryLevel::Percent60 => 3,
        BatteryLevel::Percent80 => 4,
        BatteryLevel::Percent100 => 5,
        BatteryLevel::ExternalPower => 6,
    }
}

/// The level at a rung of the ladder.
pub open spec fn level_at(rung: int) -> BatteryLevel {
    if rung <= 0 {
        BatteryLevel::Percent0
    } else if rung == 1 {
        BatteryLevel::Percent20
    } else if rung == 2 {
        BatteryLevel::Percent40
    } else if rung == 3 {
        BatteryLevel::Percent60
    } else if rung == 4 {
        BatteryLevel::Percent80
    } else if rung == 5 {
        BatteryLevel::Percent100
    } else {
        BatteryLevel::ExternalPower
    }
}

/// The level that follows `level` on the battery voltage `voltage`: one rung
/// up where the voltage has reached the threshold above, else one rung down
/// where it is under the threshold below, else the same.
pub open spec fn battery_next(level: BatteryLevel, voltage: int, limits: BatteryThresholds) -> BatteryLevel {
    let k = rung(level);
    if k < 6 && voltage >= limits.up[k] {
        level_at(k + 1)
    } else if k > 0 && voltage < limits.down[k - 1] {
        level_at(k - 1)
    } else {
        level
    }
}

/// The thresholds of a single lithium cell: up at 3.65, 3.75, 3.85, 3.95,
/// 4.05 and 4.25 volts, down under 3.60, 3.70, 3.80, 3.90, 4.00 and 4.15.
pub open spec fn standard_battery_thresholds() -> BatteryThresholds {
    BatteryThresholds {
        up: [
            3_650_000_000i64,
            3_750_000_000i64,
            3_850_000_000i64,
            3_950_000_000i64,
            4_050_000_000i64,
            4_250_000_000i64,
        ],
        down: [
            3_600_000_000i64,
            3_700_000_000i64,
            3_800_000_000i64,
            3_900_000_000i64,
            4_000_000_000i64,
            4_150_000_000i64,
        ],
    }
}

impl BatteryThresholds {
    /// The thresholds of a single lithium cell.
    pub fn standard() -> (limits: BatteryThresholds)
        ensures
            limits == standard_battery_thresholds(),
    {
        BatteryThresholds {
            up: [
                3_650_000_000i64,
                3_750_000_000i64,
                3_850_000_000i64,
                3_950_000_000i64,
                4_050_000_000i64,
                4_250_000_000i64,
            ],
            down: [
                3_600_000_000i64,
                3_700_000_000i64,
                3_800_000_000i64,
                3_900_000_000i64,
                4_000_000_000i64,
                4_150_000_000i64,
            ],
        }
    }

    /// Whether each pair of thresholds leaves a band: the way down from a
    /// level lies under the way up to it.
    pub open spec fn wf(&self) -> bool {
        forall|k: int| 0 <= k < 6 ==> self.down[k] < self.up[k]
    }

    /// Whether each pair of thresholds leaves a band.
    pub fn is_valid(&self) -> (valid: bool)
        ensures
            valid == self.wf(),
    {
        let mut k: usize = 0;
        while k < 6
            invariant
                k <= 6,
                forall|j: int| 0 <= j < k ==> self.down[j] < self.up[j],
            decreases 6 - k,
        {
            if self.down[k] >= self.up[k] {
                return false;
            }
            k += 1;
        }
        true
    }
}

/// The thresholds of a single lithium cell leave a band at every rung.
pub proof fn lemma_standard_battery_thresholds_valid()
    ensures
        standard_battery_thresholds().wf(),
{
}

impl BatteryLevel {
    /// The rung of this level on the ladder.
    pub fn rank(self) -> (k: u8)
        ensures
            k == rung(self),
    {
        match self {
            BatteryLevel::Percent0 => 0,
            BatteryLevel::Percent20 => 1,
            BatteryLevel::Percent40 => 2,
            BatteryLevel::Percent60 => 3,
            BatteryLevel::Percent80 => 4,
            BatteryLevel::Percent100 => 5,
            BatteryLevel::ExternalPower => 6,
        }
    }

    /// The level at rung `k`; the topmost for every `k` above the ladder.
    pub fn at(k: u8) -> (level: BatteryLevel)
        ensures
            level == level_at(k as int),
    {
        if k == 0 {
            BatteryLevel::Percent0
        } else if k == 1 {
            BatteryLevel::Percent20
        } else if k == 2 {
            BatteryLevel::Percent40
        } else if k == 3 {
            BatteryLevel::Percent60
        } else if k == 4 {
            BatteryLevel::Percent80
        } else if k == 5 {
            BatteryLevel::Percent100
        } else {
            BatteryLevel::ExternalPower
        }
    }

    /// The level that follows this one on the battery voltage `voltage`.
    pub fn next(self, voltage: i64, limits: &BatteryThresholds) -> (level: BatteryLevel)
        ensures
            level == battery_next(self, voltage as int, *limits),
    {
        let k: u8 = self.rank();
        if k < 6 && voltage >= limits.up[k as usize] {
            BatteryLevel::at(k + 1)
        } else if k > 0 && voltage < limits.down[(k - 1) as usize] {
            BatteryLevel::at(k - 1)
        } else {
            self
        }
    }
}

/// A level and its rung stand for each other.
pub proof fn lemma_rung_of_level(level: BatteryLevel)
    ensures
        0 <= rung(level) <= 6,
        level_at(rung(level)) == level,
{
}

/// One input moves the level by one rung at most.
pub proof fn lemma_battery_moves_one_rung(level: BatteryLevel, voltage: int, limits: BatteryThresholds)
    ensures
        rung(level) - 1 <= rung(battery_next(level, voltage, limits)) <= rung(level) + 1,
{
}

/// A voltage inside the band of a level, at or above its way down and under
/// its way up, leaves the level as it is.
pub proof fn lemma_battery_holds_in_band(level: BatteryLevel, voltage: int, limits: BatteryThresholds)
    requires
        rung(level) < 6 ==> voltage < limits.up[rung(level)],
        rung(level) > 0 ==> voltage >= limits.down[rung(level) - 1],
    ensures
        battery_next(level, voltage, limits) == level,
{
}

} // verus!
