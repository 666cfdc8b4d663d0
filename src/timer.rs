use vstd::prelude::*;

use crate::alert::Alerter;
use crate::command::Command;
use crate::progress::{overrun, progress_ratio, ratio_of, time_remaining, Ratio};
use crate::stopwatch::{sat_sub, Stopwatch};
use crate::text::{duration_text, format_duration};

verus! {

/// The stopwatch of a countdown after `command` arrives at `now`.
pub open spec fn timer_step(command: Command, w: Stopwatch, now: u64) -> Stopwatch {
    match command {
        Command::Pause => w.stop_spec(now),
        Command::Resume => w.start_spec(now),
        Command::Toggle | Command::Enter => w.toggle_spec(now),
        Command::Reset => Stopwatch::fresh_spec(now),
        _ => w,
    }
}

/// Pause stops, resume starts, toggle and enter toggle, reset starts
/// afresh; every other command is ignored.
pub fn timer_update(command: Command, stopwatch: &mut Stopwatch, now: u64)
    ensures
        *final(stopwatch) == timer_step(command, *old(stopwatch), now),
{
    match command {
        Command::Pause => stopwatch.stop(now),
        Command::Resume => stopwatch.start(now),
        Command::Toggle | Command::Enter => stopwatch.toggle(now),
        Command::Reset => *stopwatch = Stopwatch::fresh(now),
        _ => {},
    }
}

/// A countdown towards `target` milliseconds.
#[derive(Debug, Clone, Copy, PartialEq, Eq, Structural)]
pub struct TimerUI {
    pub stopwatch: Stopwatch,
    pub target: u64,
    pub alerter: Alerter,
}

impl TimerUI {
    /// A countdown of `target`, running from `now`.
    pub fn new(target: u64, now: u64) -> (r: TimerUI)
        ensures
            r.stopwatch == Stopwatch::fresh_spec(now),
            r.target == target,
            !r.alerter.fired,
    {
        TimerUI { stopwatch: Stopwatch::fresh(now), target, alerter: Alerter::new() }
    }

    pub fn update(&mut self, command: Command, now: u64)
        ensures
            final(self).stopwatch == timer_step(command, old(self).stopwatch, now),
            final(self).target == old(self).target,
            final(self).alerter == old(self).alerter,
    {
        timer_update(command, &mut self.stopwatch, now);
    }
}

/// Everything the countdown screen shows at one refresh.
#[derive(Debug, Clone, Copy, PartialEq, Eq, Structural)]
pub struct TimerView {
    /// The target is reached and the overrun is shown.
    pub ended: bool,
    pub elapsed: u64,
    pub remaining: u64,
    pub overrun: u64,
    pub ratio: Ratio,
    pub running: bool,
    /// The end notification is to be sent now.
    pub alert: bool,
}

impl TimerUI {
    /// What to show at clock reading `now`. Once the target is reached the
    /// alert guard is set, and `alert` says whether this refresh was the
    /// first to find it so.
    pub fn view(&mut self, now: u64) -> (r: TimerView)
        ensures
            final(self).stopwatch == old(self).stopwatch,
            final(self).target == old(self).target,
            final(self).alerter.fired == (old(self).alerter.fired || r.ended),
            r.elapsed == old(self).stopwatch.elapsed_at(now),
            r.ended == (r.elapsed >= old(self).target),
            r.alert == (r.ended && !old(self).alerter.fired),
            r.remaining == sat_sub(old(self).target, r.elapsed),
            r.overrun == sat_sub(r.elapsed, old(self).target),
            r.ratio == ratio_of(r.elapsed, old(self).target),
            r.running == old(self).stopwatch.start_time.is_some(),
    {
        let elapsed = self.stopwatch.elapsed(now);
        let ended = elapsed >= self.target;
        let alert = if ended {
            self.alerter.alert_once()
        } else {
            false
        };
        TimerView {
            ended,
            elapsed,
            remaining: time_remaining(elapsed, self.target),
            overrun: overrun(elapsed, self.target),
            ratio: progress_ratio(elapsed, self.target),
            running: self.stopwatch.started(),
            alert,
        }
    }
}

/// The heading of the countdown screen.
pub fn timer_title(ended: bool) -> (r: &'static str)
    ensures
        r@ == if ended {
            "Timer has ended"@
        } else {
            "Timer"@
        },
{
    if ended {
        "Timer has ended"
    } else {
        "Timer"
    }
}

/// The notification's message once a countdown of `target` ends.
pub fn timer_alert_message(target: u64) -> (r: String)
    ensures
        r@ == "Your Timer of "@ + duration_text(target) + " has ended"@,
{
    let mut out = String::from_str("Your Timer of ");
    let d = format_duration(target);
    out.append(d.as_str());
    out.append(" has ended");
    out
}

} // verus!
