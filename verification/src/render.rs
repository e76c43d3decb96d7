//! The render loop's projection of the timer state into the two text lines
//! that the display shows, and the texts the start/stop control shows.

use vstd::prelude::*;
use vstd::string::StringExecFns;
use crate::format::{format_status, format_time, spec_format_status, spec_format_time};
use crate::state::TimerState;

verus! {

/// What `timer_line` returns.
pub open spec fn spec_timer_line(remaining: nat) -> Seq<char> {
    "Time: "@ + spec_format_time(remaining)
}

/// What `status_line` returns.
pub open spec fn spec_status_line(on_break: bool, running: bool) -> Seq<char> {
    "Status: "@ + spec_format_status(on_break, running)
}

/// The line shown in the "timer" region: the remaining time after a
/// "Time: " label.
pub fn timer_line(remaining: usize) -> (r: String)
    ensures
        r@ == spec_timer_line(remaining as nat),
{
    let mut out = String::from_str("Time: ");
    let time = format_time(remaining);
    out.append(time.as_str());
    out
}

/// The line shown in the "status" region: the phase and run flags after a
/// "Status: " label.
pub fn status_line(on_break: bool, running: bool) -> (r: String)
    ensures
        r@ == spec_status_line(on_break, running),
{
    let mut out = String::from_str("Status: ");
    let status = format_status(on_break, running);
    out.append(status.as_str());
    out
}

/// The consistent snapshot the render loop reads: remaining time, phase
/// and run flag, taken together.
pub fn snapshot(s: &TimerState) -> (r: (usize, bool, bool))
    ensures
        r == (s.remaining_seconds, s.on_break, s.running),
{
    (s.remaining_seconds, s.on_break, s.running)
}

/// The text the "Start/Stop" control shows in the "timer" region at the
/// moment it flips the running flag, keyed by the flag's new value. It is a
/// placeholder: the next render tick overwrites it with the timer line.
pub fn start_stop_notice(now_running: bool) -> (r: String)
    ensures
        now_running ==> r@ == "Timer is running..."@,
        !now_running ==> r@ == "Timer is paused."@,
{
    if now_running {
        String::from_str("Timer is running...")
    } else {
        String::from_str("Timer is paused.")
    }
}

} // verus!
