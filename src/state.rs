use vstd::prelude::*;

use crate::config::{Day, Night};

verus! {

/// What the daytime display shows under the clock.
#[derive(Clone, Copy, Debug, PartialEq, Eq, Structural)]
pub enum Message {
    Date,
    Weather,
}

/// The display's mode.
#[derive(Clone, Copy, Debug, PartialEq, Eq, Structural)]
pub enum ScreenState {
    Day(Message),
    Night,
}

impl Message {
    /// The message shown after this one; the two alternate.
    pub fn next(&self) -> (m: Self)
        ensures
            m != *self,
    {
        match self {
            Message::Date => Message::Weather,
            Message::Weather => Message::Date,
        }
    }
}

/// The display's next mode, or `None` to stay as it is.
///
/// By day the display goes to night once the tap cooldown is over and it is
/// night time, and otherwise moves to the next message when the current one
/// has been shown long enough. By night a tap, or the end of the night,
/// brings back the day with the date.
pub open spec fn spec_next_state(
    state: ScreenState,
    touched: bool,
    cooldown_over: bool,
    night: bool,
    message_due: bool,
) -> Option<ScreenState> {
    match state {
        ScreenState::Day(m) => if cooldown_over && night {
            Some(ScreenState::Night)
        } else if message_due {
            Some(ScreenState::Day(if m == Message::Date {
                Message::Weather
            } else {
                Message::Date
            }))
        } else {
            None
        },
        ScreenState::Night => if touched || !night {
            Some(ScreenState::Day(Message::Date))
        } else {
            None
        },
    }
}

/// Decides `spec_next_state`.
pub fn next_state(
    state: ScreenState,
    touched: bool,
    cooldown_over: bool,
    night: bool,
    message_due: bool,
) -> (r: Option<ScreenState>)
    ensures
        r == spec_next_state(state, touched, cooldown_over, night, message_due),
{
    match state {
        ScreenState::Day(m) => {
            if cooldown_over && night {
                Some(ScreenState::Night)
            } else if message_due {
                Some(ScreenState::Day(m.next()))
            } else {
                None
            }
        },
        ScreenState::Night => {
            if touched || !night {
                Some(ScreenState::Day(Message::Date))
            } else {
                None
            }
        },
    }
}

/// The screen brightness for a mode.
pub fn brightness_for(state: ScreenState, day: &Day, night: &Night) -> (b: u8)
    ensures
        b == match state {
            ScreenState::Day(_) => day.brightness,
            ScreenState::Night => night.brightness,
        },
{
    match state {
        ScreenState::Day(_) => day.brightness,
        ScreenState::Night => night.brightness,
    }
}

/// The English ordinal suffix for a day of the month.
pub open spec fn spec_day_suffix(day: u32) -> Seq<char> {
    if day == 1 || day == 21 || day == 31 {
        seq!['s', 't']
    } else if day == 2 || day == 22 {
        seq!['n', 'd']
    } else if day == 3 || day == 23 {
        seq!['r', 'd']
    } else {
        seq!['t', 'h']
    }
}

/// The English ordinal suffix for a day of the month: "st", "nd", "rd" or
/// "th".
pub fn day_suffix(day: u32) -> (s: &'static str)
    ensures
        s@ == spec_day_suffix(day),
{
    if day == 1 || day == 21 || day == 31 {
        proof {
            reveal_strlit("st");
        }
        "st"
    } else if day == 2 || day == 22 {
        proof {
            reveal_strlit("nd");
        }
        "nd"
    } else if day == 3 || day == 23 {
        proof {
            reveal_strlit("rd");
        }
        "rd"
    } else {
        proof {
            reveal_strlit("th");
        }
        "th"
    }
}

} // verus!
