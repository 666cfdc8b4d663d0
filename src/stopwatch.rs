use vstd::prelude::*;

use crate::command::Command;

verus! {

/// `a + b`, held at `u64::MAX` where it would not fit.
pub open spec fn sat_add(a: u64, b: u64) -> u64 {
    if a + b > u64::MAX {
        u64::MAX
    } else {
        (a + b) as u64
    }
}

/// `a - b`, held at zero where it would go negative.
pub open spec fn sat_sub(a: u64, b: u64) -> u64 {
    if a < b {
        0
    } else {
        (a - b) as u64
    }
}

/// An elapsed-time accumulator that can be paused and resumed.
///
/// `start_time` is the clock reading at which the current running stretch
/// began (`None` while stopped); `elapsed_before` is the time gathered in
/// earlier stretches.
#[derive(Debug, Clone, Copy, PartialEq, Eq, Structural)]
pub struct Stopwatch {
    pub start_time: Option<u64>,
    pub elapsed_before: u64,
}

impl Stopwatch {
    /// Elapsed time at clock reading `now`.
    pub open spec fn elapsed_at(self, now: u64) -> u64 {
        match self.start_time {
            Some(s) => sat_add(self.elapsed_before, sat_sub(now, s)),
            None => self.elapsed_before,
        }
    }

    /// A stopwatch that has gathered nothing and runs from `now`.
    pub open spec fn fresh_spec(now: u64) -> Stopwatch {
        Stopwatch { start_time: Some(now), elapsed_before: 0 }
    }

    pub open spec fn start_spec(self, now: u64) -> Stopwatch {
        match self.start_time {
            Some(_) => self,
            None => Stopwatch { start_time: Some(now), elapsed_before: self.elapsed_before },
        }
    }

    pub open spec fn stop_spec(self, now: u64) -> Stopwatch {
        match self.start_time {
            Some(_) => Stopwatch { start_time: None, elapsed_before: self.elapsed_at(now) },
            None => self,
        }
    }

    pub open spec fn toggle_spec(self, now: u64) -> Stopwatch {
        match self.start_time {
            Some(_) => self.stop_spec(now),
            None => self.start_spec(now),
        }
    }

    pub fn new(start_time: Option<u64>, elapsed_before: u64) -> (r: Stopwatch)
        ensures
            r.start_time == start_time,
            r.elapsed_before == elapsed_before,
    {
        Stopwatch { start_time, elapsed_before }
    }

    /// A running stopwatch started at `now` with nothing gathered yet.
    pub fn fresh(now: u64) -> (r: Stopwatch)
        ensures
            r == Stopwatch::fresh_spec(now),
            r.elapsed_at(now) == 0,
    {
        Stopwatch { start_time: Some(now), elapsed_before: 0 }
    }

    pub fn elapsed(&self, now: u64) -> (r: u64)
        ensures
            r == self.elapsed_at(now),
    {
        match self.start_time {
            Some(s) => self.elapsed_before.saturating_add(now.saturating_sub(s)),
            None => self.elapsed_before,
        }
    }

    pub fn started(&self) -> (r: bool)
        ensures
            r == self.start_time.is_some(),
    {
        self.start_time.is_some()
    }

    pub fn start(&mut self, now: u64)
        ensures
            *final(self) == old(self).start_spec(now),
    {
        if self.start_time.is_none() {
            self.start_time = Some(now);
        }
    }

    pub fn stop(&mut self, now: u64)
        ensures
            *final(self) == old(self).stop_spec(now),
    {
        if self.start_time.is_some() {
            self.elapsed_before = self.elapsed(now);
            self.start_time = None;
        }
    }

    pub fn toggle(&mut self, now: u64)
        ensures
            *final(self) == old(self).toggle_spec(now),
    {
        if self.start_time.is_some() {
            self.stop(now);
        } else {
            self.start(now);
        }
    }
}

/// Elapsed time never goes backward as the clock advances.
pub proof fn lemma_elapsed_monotone(w: Stopwatch, t1: u64, t2: u64)
    requires
        t1 <= t2,
    ensures
        w.elapsed_at(t1) <= w.elapsed_at(t2),
{
}

/// Starting a stopwatch that already runs changes nothing: a second `start`
/// gives the same elapsed time at every later clock reading as one `start`.
pub proof fn lemma_start_twice(w: Stopwatch, t1: u64, t2: u64, now: u64)
    ensures
        w.start_spec(t1).start_spec(t2) == w.start_spec(t1),
        w.start_spec(t1).start_spec(t2).elapsed_at(now) == w.start_spec(t1).elapsed_at(now),
{
}

/// Stopping and restarting loses none of the time gathered up to the stop.
pub proof fn lemma_stop_keeps_elapsed(w: Stopwatch, t: u64)
    ensures
        w.stop_spec(t).elapsed_at(t) == w.elapsed_at(t),
        w.stop_spec(t).start_spec(t).elapsed_at(t) == w.elapsed_at(t),
{
}

/// The plain stopwatch screen.
#[derive(Debug, Clone, Copy, PartialEq, Eq, Structural)]
pub struct StopwatchUI {
    pub stopwatch: Stopwatch,
}

impl StopwatchUI {
    /// A stopwatch screen running from `now`.
    pub fn new(now: u64) -> (r: StopwatchUI)
        ensures
            r.stopwatch == Stopwatch::fresh_spec(now),
    {
        StopwatchUI { stopwatch: Stopwatch::fresh(now) }
    }

    /// Pause stops, resume starts, toggle and enter toggle; every other
    /// command is ignored.
    pub fn update(&mut self, command: Command, now: u64)
        ensures
            final(self).stopwatch == match command {
                Command::Pause => old(self).stopwatch.stop_spec(now),
                Command::Resume => old(self).stopwatch.start_spec(now),
                Command::Toggle | Command::Enter => old(self).stopwatch.toggle_spec(now),
                _ => old(self).stopwatch,
            },
    {
        match command {
            Command::Pause => self.stopwatch.stop(now),
            Command::Resume => self.stopwatch.start(now),
            Command::Toggle | Command::Enter => self.stopwatch.toggle(now),
            _ => {},
        }
    }
}

} // verus!
