//! What the recorder's window shows: the clock, the bars, and whether it is up.
use vstd::prelude::*;
use vstd::string::StringExecFns;
use crate::fixed::FULL_SCALE;
use crate::text::{push_two_digits, two_digits};

verus! {

/// The level above which a bar of the waveform is lit while recording.
pub const LIT_THRESHOLD: i32 = 50_000;

/// What to do with the window.
#[derive(Debug, Clone, Copy, PartialEq, Eq, Structural)]
pub enum WindowAction {
    /// Bring the window up.
    Present,
    /// Take the window down.
    Hide,
    /// Leave the window as it is.
    Nothing,
}

/// The text of the clock: two zeros for the hours, then the minutes and the
/// seconds of the minute, each with at least two digits.
pub open spec fn clock_text_of(elapsed_secs: nat) -> Seq<char> {
    "00:"@ + two_digits(elapsed_secs / 60) + ":"@ + two_digits(elapsed_secs % 60)
}

/// Decides what to do with the window so that it is up exactly when wanted.
pub fn window_action(wanted: bool, shown: bool) -> (action: WindowAction)
    ensures
        action == if wanted && !shown {
            WindowAction::Present
        } else if !wanted && shown {
            WindowAction::Hide
        } else {
            WindowAction::Nothing
        },
{
    if wanted && !shown {
        WindowAction::Present
    } else if !wanted && shown {
        WindowAction::Hide
    } else {
        WindowAction::Nothing
    }
}

/// Whether a bar of the waveform is lit: only while recording, and only for
/// a level above one twentieth of full scale.
pub fn bar_is_lit(recording: bool, level: i32) -> (lit: bool)
    ensures
        lit == (recording && level > LIT_THRESHOLD),
        LIT_THRESHOLD * 20 == FULL_SCALE,
{
    recording && level > LIT_THRESHOLD
}

/// Writes the clock for a time given in whole seconds.
pub fn clock_text(elapsed_secs: u64) -> (text: String)
    ensures
        text@ == clock_text_of(elapsed_secs as nat),
{
    let mut text: String = String::from_str("00:");
    push_two_digits(&mut text, elapsed_secs / 60);
    text.append(":");
    push_two_digits(&mut text, elapsed_secs % 60);
    text
}

} // verus!
