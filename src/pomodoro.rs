use vstd::prelude::*;

use crate::alert::Alerter;
use crate::command::Command;
use crate::progress::{overrun, progress_ratio, ratio_of, time_remaining, Ratio};
use crate::stopwatch::{sat_add, sat_sub, Stopwatch};
use crate::text::{duration_text, format_duration};

verus! {

/// A phase of a Pomodoro session.
#[derive(Debug, Clone, Copy, PartialEq, Eq, Structural)]
pub enum Mode {
    Work,
    Break,
    LongBreak,
}

impl Default for Mode {
    fn default() -> (r: Mode)
        ensures
            r == Mode::Work,
    {
        Mode::Work
    }
}

/// The length of each phase, in milliseconds.
#[derive(Debug, Clone, Copy, PartialEq, Eq, Structural)]
pub struct PomodoroConfig {
    pub work_time: u64,
    pub break_time: u64,
    pub long_break: u64,
}

pub const MINUTE_MS: u64 = 60_000;

impl PomodoroConfig {
    pub open spec fn target_of(self, mode: Mode) -> u64 {
        match mode {
            Mode::Work => self.work_time,
            Mode::Break => self.break_time,
            Mode::LongBreak => self.long_break,
        }
    }

    pub fn new(work_time: u64, break_time: u64, long_break: u64) -> (r: PomodoroConfig)
        ensures
            r.work_time == work_time,
            r.break_time == break_time,
            r.long_break == long_break,
    {
        PomodoroConfig { work_time, break_time, long_break }
    }

    /// 25 minutes of work, 5 of break, 10 of long break.
    pub fn short() -> (r: PomodoroConfig)
        ensures
            r.work_time == 25 * 60_000,
            r.break_time == 5 * 60_000,
            r.long_break == 10 * 60_000,
    {
        PomodoroConfig {
            work_time: 25 * MINUTE_MS,
            break_time: 5 * MINUTE_MS,
            long_break: 10 * MINUTE_MS,
        }
    }

    /// 55 minutes of work, 10 of break, 20 of long break.
    pub fn long() -> (r: PomodoroConfig)
        ensures
            r.work_time == 55 * 60_000,
            r.break_time == 10 * 60_000,
            r.long_break == 20 * 60_000,
    {
        PomodoroConfig {
            work_time: 55 * MINUTE_MS,
            break_time: 10 * MINUTE_MS,
            long_break: 20 * MINUTE_MS,
        }
    }

    /// The length of the phase `mode`.
    pub fn current_target(&self, mode: Mode) -> (r: u64)
        ensures
            r == self.target_of(mode),
    {
        match mode {
            Mode::Work => self.work_time,
            Mode::Break => self.break_time,
            Mode::LongBreak => self.long_break,
        }
    }
}

impl Default for PomodoroConfig {
    fn default() -> (r: PomodoroConfig)
        ensures
            r.work_time == 25 * 60_000,
            r.break_time == 5 * 60_000,
            r.long_break == 10 * 60_000,
    {
        PomodoroConfig::short()
    }
}

/// The phase, the round and the time spent so far in work and in breaks.
///
/// `round` is the 1-based index of the current or upcoming work phase.
#[derive(Debug, Clone, Copy, PartialEq, Eq, Structural)]
pub struct Session {
    pub mode: Mode,
    pub round: u32,
    pub work_total: u64,
    pub break_total: u64,
}

/// Whether time spent in `mode` counts as work (else as break).
pub open spec fn accrues_to_work(mode: Mode) -> bool {
    mode == Mode::Work
}

/// The phase that follows `mode` in round `round`.
pub open spec fn mode_after(mode: Mode, round: u32) -> Mode {
    match mode {
        Mode::Work => if round % 4 == 0 { Mode::LongBreak } else { Mode::Break },
        _ => Mode::Work,
    }
}

impl Session {
    pub open spec fn initial() -> Session {
        Session { mode: Mode::Work, round: 1, work_total: 0, break_total: 0 }
    }

    /// The session with `d` added to the total that the current phase
    /// accrues to; mode and round stay.
    pub open spec fn fold_spec(self, d: u64) -> Session {
        Session {
            mode: self.mode,
            round: self.round,
            work_total: if accrues_to_work(self.mode) {
                sat_add(self.work_total, d)
            } else {
                self.work_total
            },
            break_total: if accrues_to_work(self.mode) {
                self.break_total
            } else {
                sat_add(self.break_total, d)
            },
        }
    }

    /// The session after leaving the current phase, which lasted `d`.
    pub open spec fn advance_spec(self, d: u64) -> Session {
        Session {
            mode: mode_after(self.mode, self.round),
            round: if accrues_to_work(self.mode) {
                self.round
            } else if self.round == u32::MAX {
                u32::MAX
            } else {
                (self.round + 1) as u32
            },
            work_total: if accrues_to_work(self.mode) {
                sat_add(self.work_total, d)
            } else {
                self.work_total
            },
            break_total: if accrues_to_work(self.mode) {
                self.break_total
            } else {
                sat_add(self.break_total, d)
            },
        }
    }

    /// Leaves the current phase, folding its duration `duration` into the
    /// total that the phase accrues to. Totals and round stop at their
    /// type's maximum.
    pub fn advance(self, duration: u64) -> (r: Session)
        ensures
            r == self.advance_spec(duration),
    {
        match self.mode {
            Mode::Work => Session {
                mode: if self.round % 4 == 0 { Mode::LongBreak } else { Mode::Break },
                work_total: self.work_total.saturating_add(duration),
                ..self
            },
            Mode::Break | Mode::LongBreak => Session {
                mode: Mode::Work,
                round: self.round.saturating_add(1),
                work_total: self.work_total,
                break_total: self.break_total.saturating_add(duration),
            },
        }
    }

    /// Adds `duration` to the total that the current phase accrues to,
    /// without leaving the phase: mode and round stay. Totals stop at
    /// `u64::MAX`.
    pub fn fold(self, duration: u64) -> (r: Session)
        ensures
            r == self.fold_spec(duration),
            r.mode == self.mode,
            r.round == self.round,
    {
        match self.mode {
            Mode::Work => Session { work_total: self.work_total.saturating_add(duration), ..self },
            Mode::Break | Mode::LongBreak => Session {
                break_total: self.break_total.saturating_add(duration),
                ..self
            },
        }
    }

    /// A preview of the next phase: the mode that `advance` would enter,
    /// with round and totals left as they are.
    pub fn next(&self) -> (r: Session)
        ensures
            r.mode == self.advance_spec(0).mode,
            r.mode == mode_after(self.mode, self.round),
            r.round == self.round,
            r.work_total == self.work_total,
            r.break_total == self.break_total,
    {
        let mode = match self.mode {
            Mode::Work => if self.round % 4 == 0 { Mode::LongBreak } else { Mode::Break },
            Mode::Break | Mode::LongBreak => Mode::Work,
        };
        Session { mode, ..*self }
    }
}

impl Default for Session {
    fn default() -> (r: Session)
        ensures
            r == Session::initial(),
    {
        Session { mode: Mode::Work, round: 1, work_total: 0, break_total: 0 }
    }
}

/// What the Pomodoro screen is doing: counting a phase, or asking whether
/// to skip to the next one with the elapsed time frozen.
#[derive(Debug, Clone, Copy, PartialEq, Eq, Structural)]
pub enum UIMode {
    Skip(u64),
    Running(Stopwatch),
}

impl UIMode {
    /// The elapsed time on display at clock reading `now`.
    pub open spec fn shown_elapsed(self, now: u64) -> u64 {
        match self {
            UIMode::Skip(e) => e,
            UIMode::Running(w) => w.elapsed_at(now),
        }
    }
}

/// The state of the Pomodoro controller after `command` arrives at clock
/// reading `now`, as (alerter, screen mode, session).
pub open spec fn step(
    config: PomodoroConfig,
    alerter: Alerter,
    ui_mode: UIMode,
    session: Session,
    command: Command,
    now: u64,
) -> (Alerter, UIMode, Session) {
    match ui_mode {
        UIMode::Skip(frozen) => match command {
            Command::Quit | Command::No => (
                alerter,
                UIMode::Running(Stopwatch { start_time: Some(now), elapsed_before: frozen }),
                session,
            ),
            Command::Enter | Command::Yes => (
                Alerter { fired: false },
                UIMode::Running(Stopwatch::fresh_spec(now)),
                session.advance_spec(frozen),
            ),
            _ => (alerter, ui_mode, session),
        },
        UIMode::Running(w) => {
            let e = w.elapsed_at(now);
            match command {
                Command::Enter => if e >= config.target_of(session.mode) {
                    (
                        Alerter { fired: false },
                        UIMode::Running(Stopwatch::fresh_spec(now)),
                        session.advance_spec(e),
                    )
                } else {
                    (alerter, ui_mode, session)
                },
                Command::Pause => (alerter, UIMode::Running(w.stop_spec(now)), session),
                Command::Resume => (alerter, UIMode::Running(w.start_spec(now)), session),
                Command::Toggle => (alerter, UIMode::Running(w.toggle_spec(now)), session),
                Command::Skip => (alerter, UIMode::Skip(e), session),
                Command::Reset => (alerter, UIMode::Running(Stopwatch::fresh_spec(now)), session),
                _ => (alerter, ui_mode, session),
            }
        },
    }
}

/// Applies `command`, arriving at clock reading `now`, to the controller's
/// state.
pub fn pomodoro_update(
    command: Command,
    config: &PomodoroConfig,
    alerter: &mut Alerter,
    ui_mode: &mut UIMode,
    session: &mut Session,
    now: u64,
)
    ensures
        (*final(alerter), *final(ui_mode), *final(session)) == step(
            *config,
            *old(alerter),
            *old(ui_mode),
            *old(session),
            command,
            now,
        ),
{
    match *ui_mode {
        UIMode::Skip(frozen) => match command {
            Command::Quit | Command::No => {
                *ui_mode = UIMode::Running(Stopwatch::new(Some(now), frozen));
            },
            Command::Enter | Command::Yes => {
                alerter.reset();
                *session = session.advance(frozen);
                *ui_mode = UIMode::Running(Stopwatch::fresh(now));
            },
            _ => {},
        },
        UIMode::Running(w) => {
            let mut stopwatch = w;
            let elapsed = stopwatch.elapsed(now);
            let target = config.current_target(session.mode);
            match command {
                Command::Enter => {
                    if elapsed >= target {
                        alerter.reset();
                        *session = session.advance(elapsed);
                        *ui_mode = UIMode::Running(Stopwatch::fresh(now));
                    }
                },
                Command::Pause => {
                    stopwatch.stop(now);
                    *ui_mode = UIMode::Running(stopwatch);
                },
                Command::Resume => {
                    stopwatch.start(now);
                    *ui_mode = UIMode::Running(stopwatch);
                },
                Command::Toggle => {
                    stopwatch.toggle(now);
                    *ui_mode = UIMode::Running(stopwatch);
                },
                Command::Skip => {
                    *ui_mode = UIMode::Skip(elapsed);
                },
                Command::Reset => {
                    *ui_mode = UIMode::Running(Stopwatch::fresh(now));
                },
                _ => {},
            }
        },
    }
}

/// The Pomodoro controller: configuration, session, screen mode and the
/// end-of-phase notification guard.
#[derive(Debug, Clone, Copy, PartialEq, Eq, Structural)]
pub struct PomodoroUI {
    pub config: PomodoroConfig,
    pub session: Session,
    pub ui_mode: UIMode,
    pub alerter: Alerter,
}

impl PomodoroUI {
    pub open spec fn update_spec(self, command: Command, now: u64) -> PomodoroUI {
        let (alerter, ui_mode, session) = step(
            self.config,
            self.alerter,
            self.ui_mode,
            self.session,
            command,
            now,
        );
        PomodoroUI { config: self.config, session, ui_mode, alerter }
    }

    /// A controller at the first work phase, its stopwatch running from `now`.
    pub fn new(config: PomodoroConfig, now: u64) -> (r: PomodoroUI)
        ensures
            r.config == config,
            r.session == Session::initial(),
            r.ui_mode == UIMode::Running(Stopwatch::fresh_spec(now)),
            !r.alerter.fired,
    {
        PomodoroUI {
            config,
            session: Session::default(),
            ui_mode: UIMode::Running(Stopwatch::fresh(now)),
            alerter: Alerter::new(),
        }
    }

    pub fn update(&mut self, command: Command, now: u64)
        ensures
            *final(self) == old(self).update_spec(command, now),
    {
        let mut alerter = self.alerter;
        let mut ui_mode = self.ui_mode;
        let mut session = self.session;
        pomodoro_update(command, &self.config, &mut alerter, &mut ui_mode, &mut session, now);
        self.alerter = alerter;
        self.ui_mode = ui_mode;
        self.session = session;
    }

    /// One turn of the controller's loop: quit folds the time on display into
    /// the current phase's total, keeping mode and round, and reports that the
    /// loop is over, whatever the screen; every other command goes to
    /// `update`.
    pub fn handle(&mut self, command: Command, now: u64) -> (done: bool)
        ensures
            done == (command == Command::Quit),
            done ==> *final(self) == (PomodoroUI {
                session: old(self).session.fold_spec(old(self).ui_mode.shown_elapsed(now)),
                ..*old(self)
            }),
            !done ==> *final(self) == old(self).update_spec(command, now),
    {
        match command {
            Command::Quit => {
                self.session = self.final_session(now);
                true
            },
            _ => {
                self.update(command, now);
                false
            },
        }
    }

    /// The elapsed time on display at clock reading `now`: the frozen value
    /// while a skip is pending.
    pub fn shown_elapsed(&self, now: u64) -> (r: u64)
        ensures
            r == self.ui_mode.shown_elapsed(now),
    {
        match self.ui_mode {
            UIMode::Skip(e) => e,
            UIMode::Running(w) => w.elapsed(now),
        }
    }

    /// The session as summed up on quitting at `now`: the time on display
    /// (the frozen value while a skip is pending) goes to the current
    /// phase's total; mode and round stay.
    pub fn final_session(&self, now: u64) -> (r: Session)
        ensures
            r == self.session.fold_spec(self.ui_mode.shown_elapsed(now)),
            r.mode == self.session.mode,
            r.round == self.session.round,
    {
        let e = self.shown_elapsed(now);
        self.session.fold(e)
    }
}

/// The session after leaving phases that lasted `ds[0]`, `ds[1]`, ... in turn.
pub open spec fn advance_all(s: Session, ds: Seq<u64>) -> Session
    decreases ds.len(),
{
    if ds.len() == 0 {
        s
    } else {
        advance_all(s, ds.drop_last()).advance_spec(ds.last())
    }
}

pub open spec fn seq_sum(ds: Seq<u64>) -> int
    decreases ds.len(),
{
    if ds.len() == 0 {
        0
    } else {
        seq_sum(ds.drop_last()) + ds.last()
    }
}

/// From the first work phase, after `n` phase changes the round is
/// `n / 2 + 1`; the session is in work after an even number of changes, and
/// otherwise in a break, which is long in every fourth round.
pub proof fn lemma_round_evolution(ds: Seq<u64>)
    requires
        ds.len() / 2 + 1 <= u32::MAX,
    ensures
        advance_all(Session::initial(), ds).round == ds.len() / 2 + 1,
        advance_all(Session::initial(), ds).mode == if ds.len() % 2 == 0 {
            Mode::Work
        } else if (ds.len() / 2 + 1) % 4 == 0 {
            Mode::LongBreak
        } else {
            Mode::Break
        },
    decreases ds.len(),
{
    if ds.len() > 0 {
        lemma_round_evolution(ds.drop_last());
    }
}

/// The round never goes down: it stays while leaving work and grows by
/// exactly one when leaving a break (until it reaches its maximum).
pub proof fn lemma_round_step(s: Session, d: u64)
    ensures
        s.advance_spec(d).round >= s.round,
        s.mode == Mode::Work ==> s.advance_spec(d).round == s.round,
        s.mode != Mode::Work && s.round < u32::MAX ==> s.advance_spec(d).round == s.round + 1,
{
}

/// Whether leaving the current phase, which lasted `d`, adds to its total
/// without reaching past `u64::MAX`.
pub open spec fn fold_fits(s: Session, d: u64) -> bool {
    if accrues_to_work(s.mode) {
        s.work_total + d <= u64::MAX
    } else {
        s.break_total + d <= u64::MAX
    }
}

/// Whether every phase change along `ds` adds without reaching past
/// `u64::MAX`.
pub open spec fn folds_fit(s: Session, ds: Seq<u64>) -> bool
    decreases ds.len(),
{
    if ds.len() == 0 {
        true
    } else {
        folds_fit(s, ds.drop_last()) && fold_fits(advance_all(s, ds.drop_last()), ds.last())
    }
}

/// Time spent in work goes to the work total alone, and time spent in a
/// break to the break total alone; neither total ever decreases, and where
/// the addition fits the total grows by exactly the time spent.
pub proof fn lemma_totals_accrue(s: Session, d: u64)
    ensures
        s.mode == Mode::Work ==> s.advance_spec(d).break_total == s.break_total
            && s.advance_spec(d).work_total >= s.work_total,
        s.mode != Mode::Work ==> s.advance_spec(d).work_total == s.work_total
            && s.advance_spec(d).break_total >= s.break_total,
        fold_fits(s, d) && s.mode == Mode::Work ==> s.advance_spec(d).work_total
            == s.work_total + d,
        fold_fits(s, d) && s.mode != Mode::Work ==> s.advance_spec(d).break_total
            == s.break_total + d,
{
}

/// Whatever the sequence of phases and wherever it starts, the two totals
/// together grow by the sum of the durations folded in, as long as no single
/// addition reaches past `u64::MAX`.
pub proof fn lemma_totals_sum(s: Session, ds: Seq<u64>)
    requires
        folds_fit(s, ds),
    ensures
        advance_all(s, ds).work_total + advance_all(s, ds).break_total
            == s.work_total + s.break_total + seq_sum(ds),
    decreases ds.len(),
{
    if ds.len() > 0 {
        lemma_totals_sum(s, ds.drop_last());
    }
}

/// Asking to skip and then declining leaves the session and the alert guard
/// as they were, and the stopwatch resumes from exactly the elapsed time
/// frozen at the request.
pub proof fn lemma_skip_then_cancel(ui: PomodoroUI, w: Stopwatch, t1: u64, t2: u64)
    requires
        ui.ui_mode == UIMode::Running(w),
    ensures
        ui.update_spec(Command::Skip, t1).update_spec(Command::No, t2).session == ui.session,
        ui.update_spec(Command::Skip, t1).update_spec(Command::No, t2).alerter == ui.alerter,
        ui.update_spec(Command::Skip, t1).update_spec(Command::No, t2).config == ui.config,
        ui.update_spec(Command::Skip, t1).update_spec(Command::No, t2).ui_mode == UIMode::Running(
            Stopwatch { start_time: Some(t2), elapsed_before: w.elapsed_at(t1) },
        ),
        ui.update_spec(Command::Skip, t1).update_spec(Command::No, t2).ui_mode.shown_elapsed(t2)
            == w.elapsed_at(t1),
{
}

/// Skipping and confirming commits the same session as the commit command
/// given with the same elapsed time once the phase is due.
pub proof fn lemma_skip_then_confirm(ui: PomodoroUI, w: Stopwatch, t1: u64, t2: u64)
    requires
        ui.ui_mode == UIMode::Running(w),
    ensures
        ui.update_spec(Command::Skip, t1).update_spec(Command::Yes, t2).session
            == ui.session.advance_spec(w.elapsed_at(t1)),
        ui.update_spec(Command::Skip, t1).update_spec(Command::Yes, t2).ui_mode == UIMode::Running(
            Stopwatch::fresh_spec(t2),
        ),
        w.elapsed_at(t1) >= ui.config.target_of(ui.session.mode) ==> ui.update_spec(
            Command::Skip,
            t1,
        ).update_spec(Command::Yes, t2).session == ui.update_spec(Command::Enter, t1).session,
{
}

/// The heading shown while a phase counts down.
pub fn default_title(mode: Mode) -> (r: &'static str)
    ensures
        r@ == match mode {
            Mode::Work => "Pomodoro (Work)"@,
            Mode::Break => "Pomodoro (Break)"@,
            Mode::LongBreak => "Pomodoro (Long Break)"@,
        },
{
    match mode {
        Mode::Work => "Pomodoro (Work)",
        Mode::Break => "Pomodoro (Break)",
        Mode::LongBreak => "Pomodoro (Long Break)",
    }
}

/// The heading shown once a phase is due, naming the phase to come.
pub fn end_title(next_mode: Mode) -> (r: &'static str)
    ensures
        r@ == match next_mode {
            Mode::Work => "Break has ended! Start work?"@,
            Mode::Break => "Work has ended! Start break?"@,
            Mode::LongBreak => "Work has ended! Start a long break"@,
        },
{
    match next_mode {
        Mode::Work => "Break has ended! Start work?",
        Mode::Break => "Work has ended! Start break?",
        Mode::LongBreak => "Work has ended! Start a long break",
    }
}

/// The notification's title and message announcing the phase to come.
pub fn alert_message(next_mode: Mode) -> (r: (&'static str, &'static str))
    ensures
        (r.0@, r.1@) == match next_mode {
            Mode::Work => ("Your break ended!"@, "Time for some work"@),
            Mode::Break => ("Pomodoro ended!"@, "Time for a short break"@),
            Mode::LongBreak => ("Pomodoro 4 sessions complete!"@, "Time for a long break"@),
        },
{
    match next_mode {
        Mode::Work => ("Your break ended!", "Time for some work"),
        Mode::Break => ("Pomodoro ended!", "Time for a short break"),
        Mode::LongBreak => ("Pomodoro 4 sessions complete!", "Time for a long break"),
    }
}

/// The question asked while a skip waits for confirmation.
pub fn skip_prompt(next_mode: Mode) -> (r: &'static str)
    ensures
        r@ == match next_mode {
            Mode::Work => "skip to work?"@,
            Mode::Break => "skip to break?"@,
            Mode::LongBreak => "skip to long break?"@,
        },
{
    match next_mode {
        Mode::Work => "skip to work?",
        Mode::Break => "skip to break?",
        Mode::LongBreak => "skip to long break?",
    }
}

/// Which of its three faces the Pomodoro screen shows.
#[derive(Debug, Clone, Copy, PartialEq, Eq, Structural)]
pub enum Screen {
    /// A skip waits for confirmation.
    Skipping,
    /// The phase counts down.
    Counting,
    /// The phase is due and the stopwatch counts the overrun.
    Ended,
}

/// Everything the Pomodoro screen shows at one refresh.
#[derive(Debug, Clone, Copy, PartialEq, Eq, Structural)]
pub struct PomodoroView {
    pub screen: Screen,
    pub mode: Mode,
    pub next_mode: Mode,
    pub round: u32,
    /// The length of the current phase.
    pub target: u64,
    pub elapsed: u64,
    pub remaining: u64,
    pub overrun: u64,
    pub ratio: Ratio,
    pub running: bool,
    /// The end-of-phase notification is to be sent now.
    pub alert: bool,
}

impl PomodoroUI {
    pub open spec fn target_spec(self) -> u64 {
        self.config.target_of(self.session.mode)
    }

    pub open spec fn screen_at(self, now: u64) -> Screen {
        match self.ui_mode {
            UIMode::Skip(_) => Screen::Skipping,
            UIMode::Running(w) => if w.elapsed_at(now) < self.target_spec() {
                Screen::Counting
            } else {
                Screen::Ended
            },
        }
    }

    /// What to show at clock reading `now`. On the ended screen the alert
    /// guard is set, and `alert` says whether this was the first refresh
    /// since the phase began to find it due.
    pub fn view(&mut self, now: u64) -> (r: PomodoroView)
        ensures
            final(self).config == old(self).config,
            final(self).session == old(self).session,
            final(self).ui_mode == old(self).ui_mode,
            final(self).alerter.fired == (old(self).alerter.fired || r.screen == Screen::Ended),
            r.screen == old(self).screen_at(now),
            r.alert == (r.screen == Screen::Ended && !old(self).alerter.fired),
            r.mode == old(self).session.mode,
            r.next_mode == mode_after(old(self).session.mode, old(self).session.round),
            r.round == old(self).session.round,
            r.target == old(self).target_spec(),
            r.elapsed == old(self).ui_mode.shown_elapsed(now),
            r.remaining == sat_sub(old(self).target_spec(), r.elapsed),
            r.overrun == sat_sub(r.elapsed, old(self).target_spec()),
            r.ratio == ratio_of(r.elapsed, old(self).target_spec()),
            r.running == match old(self).ui_mode {
                UIMode::Running(w) => w.start_time.is_some(),
                UIMode::Skip(_) => false,
            },
    {
        let target = self.config.current_target(self.session.mode);
        let elapsed = self.shown_elapsed(now);
        let (screen, running) = match self.ui_mode {
            UIMode::Skip(_) => (Screen::Skipping, false),
            UIMode::Running(w) => (
                if elapsed < target {
                    Screen::Counting
                } else {
                    Screen::Ended
                },
                w.started(),
            ),
        };
        let alert = match screen {
            Screen::Ended => self.alerter.alert_once(),
            _ => false,
        };
        PomodoroView {
            screen,
            mode: self.session.mode,
            next_mode: self.session.next().mode,
            round: self.session.round,
            target,
            elapsed,
            remaining: time_remaining(elapsed, target),
            overrun: overrun(elapsed, target),
            ratio: progress_ratio(elapsed, target),
            running,
            alert,
        }
    }
}

/// The closing words after quitting, with the time spent in work and in
/// breaks.
pub fn summary(session: &Session) -> (r: String)
    ensures
        r@ == "You have spent "@ + duration_text(session.work_total) + " working and "@
            + duration_text(session.break_total) + " on break. Well done!"@,
{
    let mut out = String::from_str("You have spent ");
    let work = format_duration(session.work_total);
    out.append(work.as_str());
    out.append(" working and ");
    let rest = format_duration(session.break_total);
    out.append(rest.as_str());
    out.append(" on break. Well done!");
    out
}

} // verus!
