//! Operator input: the single push button, the channel it selects, and the
//! notices shown in answer.
//!
//! A short press moves on to the next channel. A press held for two seconds
//! starts a calibration, once for each press.

use vstd::prelude::*;
use vstd::string::StringExecFns;
use crate::text::{decimal_digits, push_decimal};

verus! {

/// How long the button is held before a calibration starts, in milliseconds.
pub const LONG_PRESS_MS: u64 = 2000;

/// How long the notice about a calibration stays, in milliseconds.
pub const NOTICE_HOLD_MS: u64 = 2000;

/// The channel in use where none is stored.
pub const DEFAULT_CHANNEL: u8 = 1;

/// The highest channel.
pub const LAST_CHANNEL: u8 = 4;

/// What the button asks for at a poll.
#[derive(Clone, Copy, Debug, PartialEq, Eq, Structural)]
pub enum ButtonAction {
    /// Nothing.
    Idle,
    /// Run a calibration now.
    Calibrate,
    /// Move on to the next channel.
    NextChannel,
}

/// The state of the button between two polls.
#[derive(Clone, Copy, Debug, PartialEq, Eq, Structural)]
pub struct Button {
    /// Whether the button was found released at the last poll.
    pub released: bool,
    /// Time of the last change from released to pressed, in milliseconds.
    pub pressed_at: u64,
    /// Whether the press that is going on has led to a calibration.
    pub calibrating: bool,
    /// Whether the long press that is going on has been answered.
    pub long_press_fired: bool,
    /// Time at which the notice is to be cleared; zero while none is due.
    pub notice_until: u64,
}

/// What a poll of the button gives.
#[derive(Clone, Copy, Debug, PartialEq, Eq, Structural)]
pub struct ButtonOutcome {
    /// The state for the next poll.
    pub state: Button,
    /// Whether the notice on the display is to be cleared now.
    pub clear_notice: bool,
    /// What the button asks for.
    pub action: ButtonAction,
}

/// The time from `since` to `now`; nothing where the clock went back.
pub open spec fn elapsed(now: u64, since: u64) -> int {
    if now >= since {
        now - since
    } else {
        0
    }
}

/// The time at which a notice that is shown at `now` is to be cleared.
pub open spec fn hold_until(now: u64) -> u64 {
    if now > u64::MAX - NOTICE_HOLD_MS {
        u64::MAX
    } else {
        (now + NOTICE_HOLD_MS) as u64
    }
}

/// Whether the notice is due to be cleared at `now`.
pub open spec fn notice_due(state: Button, now: u64) -> bool {
    state.notice_until > 0 && now >= state.notice_until
}

/// The time of the press that a poll at `now` works with: `now` itself where
/// the button has just gone down.
pub open spec fn press_time(state: Button, released: bool, now: u64) -> u64 {
    if state.released && !released {
        now
    } else {
        state.pressed_at
    }
}

/// Whether a poll starts a calibration: the button is down, has been so for
/// the long-press time, and this press has not been answered yet.
pub open spec fn long_press_fires(state: Button, released: bool, now: u64) -> bool {
    &&& !released
    &&& elapsed(now, press_time(state, released, now)) >= LONG_PRESS_MS
    &&& !state.calibrating
    &&& !(state.long_press_fired && !(state.released && !released))
}

/// Whether a poll finds a short press completed: the button has just come
/// up, before the long-press time, from a press that led to no calibration.
pub open spec fn short_press_completes(state: Button, released: bool, now: u64) -> bool {
    &&& !state.released
    &&& released
    &&& !state.calibrating
    &&& elapsed(now, state.pressed_at) < LONG_PRESS_MS
}

/// The outcome of a poll that finds the button `released` or not at `now`.
pub open spec fn button_next(state: Button, released: bool, now: u64) -> ButtonOutcome {
    let fires = long_press_fires(state, released, now);
    let comes_up = !state.released && released;
    ButtonOutcome {
        state: Button {
            released,
            pressed_at: press_time(state, released, now),
            calibrating: !comes_up && (state.calibrating || fires),
            long_press_fired: !comes_up && (fires || (state.long_press_fired && !(state.released
                && !released))),
            notice_until: if fires {
                hold_until(now)
            } else if notice_due(state, now) {
                0
            } else {
                state.notice_until
            },
        },
        clear_notice: notice_due(state, now),
        action: if fires {
            ButtonAction::Calibrate
        } else if short_press_completes(state, released, now) {
            ButtonAction::NextChannel
        } else {
            ButtonAction::Idle
        },
    }
}

impl Button {
    /// The button at rest: released, nothing pending.
    pub fn new() -> (state: Button)
        ensures
            state == (Button {
                released: true,
                pressed_at: 0,
                calibrating: false,
                long_press_fired: false,
                notice_until: 0,
            }),
    {
        Button {
            released: true,
            pressed_at: 0,
            calibrating: false,
            long_press_fired: false,
            notice_until: 0,
        }
    }

    /// Starts the time of a notice that is shown at `now`: the poll at which
    /// the time is over asks for the notice to be cleared.
    pub fn show_notice(self, now: u64) -> (state: Button)
        ensures
            state == (Button { notice_until: hold_until(now), ..self }),
    {
        let notice_until: u64 = if now > u64::MAX - NOTICE_HOLD_MS {
            u64::MAX
        } else {
            now + NOTICE_HOLD_MS
        };
        Button {
            released: self.released,
            pressed_at: self.pressed_at,
            calibrating: self.calibrating,
            long_press_fired: self.long_press_fired,
            notice_until,
        }
    }

    /// Takes one poll of the button: whether it is released, and the time in
    /// milliseconds.
    pub fn poll(self, released: bool, now: u64) -> (outcome: ButtonOutcome)
        ensures
            outcome == button_next(self, released, now),
    {
        let clear_notice: bool = self.notice_until > 0 && now >= self.notice_until;
        let mut notice_until: u64 = if clear_notice {
            0
        } else {
            self.notice_until
        };
        let mut pressed_at: u64 = self.pressed_at;
        let mut fired: bool = self.long_press_fired;
        let mut calibrating: bool = self.calibrating;
        let mut action: ButtonAction = ButtonAction::Idle;
        if self.released && !released {
            pressed_at = now;
            fired = false;
        }
        let held: u64 = if now >= pressed_at {
            now - pressed_at
        } else {
            0
        };
        if !released && held >= LONG_PRESS_MS && !calibrating && !fired {
            calibrating = true;
            fired = true;
            action = ButtonAction::Calibrate;
            notice_until = if now > u64::MAX - NOTICE_HOLD_MS {
                u64::MAX
            } else {
                now + NOTICE_HOLD_MS
            };
        }
        if !self.released && released {
            if !calibrating && held < LONG_PRESS_MS {
                action = ButtonAction::NextChannel;
            }
            calibrating = false;
            fired = false;
        }
        ButtonOutcome {
            state: Button {
                released,
                pressed_at,
                calibrating,
                long_press_fired: fired,
                notice_until,
            },
            clear_notice,
            action,
        }
    }
}

/// A press that has started a calibration starts no other while the button
/// stays down.
pub proof fn lemma_long_press_fires_once(state: Button, first: u64, later: u64)
    requires
        button_next(state, false, first).action == ButtonAction::Calibrate,
    ensures
        button_next(button_next(state, false, first).state, false, later).action
            == ButtonAction::Idle,
        button_next(button_next(state, false, first).state, false, later).state.calibrating,
{
}

/// While the button is held after its long press was answered, every
/// further poll is idle and leaves the press answered.
pub proof fn lemma_held_button_stays_answered(state: Button, now: u64)
    requires
        !state.released,
        state.calibrating,
    ensures
        button_next(state, false, now).action == ButtonAction::Idle,
        button_next(state, false, now).state.calibrating,
{
}

/// Letting the button go arms it again: the press after it can start a
/// calibration.
pub proof fn lemma_release_rearms(state: Button, now: u64)
    requires
        !state.released,
    ensures
        !button_next(state, true, now).state.calibrating,
        !button_next(state, true, now).state.long_press_fired,
        button_next(state, true, now).action != ButtonAction::Calibrate,
{
}

/// A press from rest that is let go before the long-press time moves on to
/// the next channel, and one that is held for that time starts a
/// calibration.
pub proof fn lemma_press_lengths(state: Button, down: u64, up: u64)
    requires
        state.released,
        !state.calibrating,
        down <= up,
    ensures
        up - down < LONG_PRESS_MS ==> button_next(button_next(state, false, down).state, true, up).action
            == ButtonAction::NextChannel,
        up - down >= LONG_PRESS_MS ==> button_next(
            button_next(state, false, down).state,
            false,
            up,
        ).action == ButtonAction::Calibrate,
{
}

/// Whether `channel` is one of the channels.
pub open spec fn valid_channel(channel: u8) -> bool {
    DEFAULT_CHANNEL <= channel <= LAST_CHANNEL
}

/// The channel that follows `channel`: the next higher one, and the first
/// after the last.
pub open spec fn channel_after(channel: u8) -> u8 {
    if DEFAULT_CHANNEL <= channel < LAST_CHANNEL {
        (channel + 1) as u8
    } else {
        DEFAULT_CHANNEL
    }
}

/// The channel to start with, given what was stored: the stored one where it
/// is a channel, else the first.
pub open spec fn restored_channel(stored: Option<u8>) -> u8 {
    match stored {
        Some(channel) => if valid_channel(channel) {
            channel
        } else {
            DEFAULT_CHANNEL
        },
        None => DEFAULT_CHANNEL,
    }
}

/// The routing tag of a channel.
pub open spec fn channel_tag_text(channel: u8) -> Seq<char> {
    "ch"@ + decimal_digits(channel as nat)
}

/// The channel to start with, given what was stored.
pub fn restore_channel(stored: Option<u8>) -> (channel: u8)
    ensures
        channel == restored_channel(stored),
        valid_channel(channel),
{
    match stored {
        Some(channel) => if channel >= DEFAULT_CHANNEL && channel <= LAST_CHANNEL {
            channel
        } else {
            DEFAULT_CHANNEL
        },
        None => DEFAULT_CHANNEL,
    }
}

/// The channel that a short press moves on to.
pub fn next_channel(channel: u8) -> (next: u8)
    ensures
        next == channel_after(channel),
        valid_channel(next),
{
    if channel >= DEFAULT_CHANNEL && channel < LAST_CHANNEL {
        channel + 1
    } else {
        DEFAULT_CHANNEL
    }
}

/// The routing tag of a channel.
pub fn channel_tag(channel: u8) -> (tag: String)
    ensures
        tag@ == channel_tag_text(channel),
{
    let mut tag: String = String::from_str("ch");
    push_decimal(&mut tag, channel as u128);
    tag
}

/// Four short presses lead through all channels and back.
pub proof fn lemma_channels_cycle(channel: u8)
    requires
        valid_channel(channel),
    ensures
        channel_after(channel) != channel,
        channel_after(channel_after(channel_after(channel_after(channel)))) == channel,
{
}

/// A notice for the operator.
#[derive(Clone, Copy, Debug, PartialEq, Eq, Structural)]
pub enum Notice {
    /// A register of the power monitor did not read back as written.
    SetupMismatch,
    /// A calibration is running.
    Calibrating,
    /// The calibration gave new offsets.
    CalibrationOk,
    /// The calibration was abandoned.
    CalibrationFailed,
}

impl Notice {
    /// The text shown for this notice.
    pub fn text(self) -> (text: String)
        ensures
            text@ == match self {
                Notice::SetupMismatch => "Sensor setup mismatch"@,
                Notice::Calibrating => "Calibrating..."@,
                Notice::CalibrationOk => "Calibration OK"@,
                Notice::CalibrationFailed => "Calibration Failed"@,
            },
    {
        match self {
            Notice::SetupMismatch => String::from_str("Sensor setup mismatch"),
            Notice::Calibrating => String::from_str("Calibrating..."),
            Notice::CalibrationOk => String::from_str("Calibration OK"),
            Notice::CalibrationFailed => String::from_str("Calibration Failed"),
        }
    }
}

} // verus!
