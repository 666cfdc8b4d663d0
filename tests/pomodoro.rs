use pomo_timer::alert::Alerter;
use pomo_timer::command::Command;
use pomo_timer::pomodoro::{
    alert_message, default_title, end_title, pomodoro_update, skip_prompt, summary, Mode,
    PomodoroConfig, PomodoroUI, Screen, Session, UIMode,
};
use pomo_timer::stopwatch::Stopwatch;

const SEC: u64 = 1000;

fn session(mode: Mode, round: u32, work_total: u64, break_total: u64) -> Session {
    Session { mode, round, work_total, break_total }
}

#[test]
fn short_preset_commit_cycle() {
    let mut ui = PomodoroUI::new(PomodoroConfig::short(), 0);
    ui.update(Command::Enter, 1500 * SEC);
    assert_eq!(ui.session.mode, Mode::Break);
    assert_eq!(ui.session.round, 1);
    assert_eq!(ui.session.work_total, 1500 * SEC);
    assert_eq!(ui.ui_mode, UIMode::Running(Stopwatch::fresh(1500 * SEC)));
    ui.update(Command::Enter, 1800 * SEC);
    assert_eq!(ui.session.mode, Mode::Work);
    assert_eq!(ui.session.round, 2);
    assert_eq!(ui.session.break_total, 300 * SEC);
    assert_eq!(ui.session.work_total, 1500 * SEC);
}

#[test]
fn fourth_round_leads_to_long_break() {
    let mut ui = PomodoroUI::new(PomodoroConfig::short(), 0);
    ui.session = session(Mode::Work, 4, 0, 0);
    ui.update(Command::Enter, 1500 * SEC);
    assert_eq!(ui.session.mode, Mode::LongBreak);
    assert_eq!(ui.session.round, 4);
}

#[test]
fn skip_before_target_then_confirm() {
    let mut ui = PomodoroUI::new(PomodoroConfig::short(), 0);
    ui.update(Command::Skip, 400 * SEC);
    assert_eq!(ui.ui_mode, UIMode::Skip(400 * SEC));
    assert_eq!(ui.session.next().mode, Mode::Break);
    assert_eq!(ui.session, Session::default());
    ui.update(Command::Yes, 410 * SEC);
    assert_eq!(ui.session.work_total, 400 * SEC);
    assert_eq!(ui.session.mode, Mode::Break);
    assert_eq!(ui.shown_elapsed(410 * SEC), 0);
}

#[test]
fn rounds_over_two_cycles() {
    let mut s = Session::default();
    let expected = [
        (Mode::Break, 1),
        (Mode::Work, 2),
        (Mode::Break, 2),
        (Mode::Work, 3),
        (Mode::Break, 3),
        (Mode::Work, 4),
        (Mode::LongBreak, 4),
        (Mode::Work, 5),
        (Mode::Break, 5),
    ];
    for (mode, round) in expected {
        s = s.advance(7);
        assert_eq!(s.mode, mode);
        assert_eq!(s.round, round);
    }
}

#[test]
fn totals_follow_the_mode_left() {
    let durations = [10, 20, 30, 40, 50, 60, 70, 80, 90];
    let mut s = Session::default();
    let mut sum = 0;
    for d in durations {
        let before = s;
        s = s.advance(d);
        sum += d;
        if before.mode == Mode::Work {
            assert_eq!(s.work_total, before.work_total + d);
            assert_eq!(s.break_total, before.break_total);
        } else {
            assert_eq!(s.break_total, before.break_total + d);
            assert_eq!(s.work_total, before.work_total);
        }
    }
    assert_eq!(s.work_total + s.break_total, sum);
    assert_eq!(s.work_total, 10 + 30 + 50 + 70 + 90);
}

#[test]
fn fold_keeps_mode_and_round() {
    let s = session(Mode::LongBreak, 4, 10, 20).fold(5);
    assert_eq!(s, session(Mode::LongBreak, 4, 10, 25));
    let s = session(Mode::Work, 7, 10, 20).fold(5);
    assert_eq!(s, session(Mode::Work, 7, 15, 20));
    let s = session(Mode::Work, 1, u64::MAX - 1, 0).fold(5);
    assert_eq!(s.work_total, u64::MAX);
}

#[test]
fn totals_saturate() {
    let s = session(Mode::Work, 1, u64::MAX - 1, 0).advance(5);
    assert_eq!(s.work_total, u64::MAX);
    let s = session(Mode::Break, u32::MAX, 0, 0).advance(5);
    assert_eq!(s.round, u32::MAX);
    assert_eq!(s.break_total, 5);
}

#[test]
fn skip_then_cancel_keeps_everything() {
    let mut ui = PomodoroUI::new(PomodoroConfig::short(), 100);
    ui.session = session(Mode::Work, 3, 42, 17);
    let before = ui;
    ui.update(Command::Skip, 100 + 60 * SEC);
    ui.update(Command::No, 100 + 90 * SEC);
    assert_eq!(ui.session, before.session);
    assert_eq!(ui.alerter, before.alerter);
    assert_eq!(ui.shown_elapsed(100 + 90 * SEC), 60 * SEC);
    assert_eq!(ui.shown_elapsed(100 + 95 * SEC), 65 * SEC);
}

#[test]
fn quit_on_skip_screen_cancels_in_update() {
    let mut ui = PomodoroUI::new(PomodoroConfig::short(), 0);
    ui.update(Command::Skip, 5 * SEC);
    ui.update(Command::Quit, 9 * SEC);
    assert_eq!(ui.ui_mode, UIMode::Running(Stopwatch::new(Some(9 * SEC), 5 * SEC)));
}

#[test]
fn skip_then_confirm_equals_commit() {
    let mut a = PomodoroUI::new(PomodoroConfig::short(), 0);
    let mut b = a;
    a.update(Command::Skip, 1600 * SEC);
    a.update(Command::Yes, 1700 * SEC);
    b.update(Command::Enter, 1600 * SEC);
    assert_eq!(a.session, b.session);
    assert_eq!(a.session.work_total, 1600 * SEC);
}

#[test]
fn commit_before_target_is_ignored() {
    let mut ui = PomodoroUI::new(PomodoroConfig::short(), 0);
    let before = ui;
    ui.update(Command::Enter, 1499 * SEC);
    assert_eq!(ui, before);
}

#[test]
fn pause_resume_toggle_reset() {
    let mut ui = PomodoroUI::new(PomodoroConfig::short(), 0);
    ui.update(Command::Pause, 10 * SEC);
    assert_eq!(ui.shown_elapsed(50 * SEC), 10 * SEC);
    ui.update(Command::Resume, 50 * SEC);
    assert_eq!(ui.shown_elapsed(55 * SEC), 15 * SEC);
    ui.update(Command::Toggle, 60 * SEC);
    assert_eq!(ui.shown_elapsed(70 * SEC), 20 * SEC);
    ui.update(Command::Toggle, 70 * SEC);
    assert_eq!(ui.shown_elapsed(71 * SEC), 21 * SEC);
    ui.update(Command::Reset, 80 * SEC);
    assert_eq!(ui.shown_elapsed(81 * SEC), SEC);
    assert_eq!(ui.session, Session::default());
    let before = ui;
    ui.update(Command::Yes, 82 * SEC);
    ui.update(Command::No, 82 * SEC);
    assert_eq!(ui, before);
}

#[test]
fn quit_folds_time_on_display() {
    let mut ui = PomodoroUI::new(PomodoroConfig::short(), 0);
    assert!(!ui.handle(Command::Pause, 30 * SEC));
    assert!(ui.handle(Command::Quit, 90 * SEC));
    assert_eq!(ui.session.work_total, 30 * SEC);
    assert_eq!(ui.session.break_total, 0);
    assert_eq!(ui.session.mode, Mode::Work);
    assert_eq!(ui.session.round, 1);
}

#[test]
fn quit_while_skip_pending_folds_frozen_time() {
    let mut ui = PomodoroUI::new(PomodoroConfig::short(), 0);
    ui.session = session(Mode::Break, 2, 100, 0);
    ui.update(Command::Skip, 45 * SEC);
    assert_eq!(ui.final_session(99 * SEC).break_total, 45 * SEC);
    assert!(ui.handle(Command::Quit, 99 * SEC));
    assert_eq!(ui.session, session(Mode::Break, 2, 100, 45 * SEC));
}

#[test]
fn alert_fires_once_per_phase() {
    let mut ui = PomodoroUI::new(PomodoroConfig::new(10 * SEC, 5 * SEC, 8 * SEC), 0);
    let v = ui.view(4 * SEC);
    assert_eq!(v.screen, Screen::Counting);
    assert!(!v.alert);
    assert_eq!(v.remaining, 6 * SEC);
    assert_eq!(v.target, 10 * SEC);
    assert_eq!(v.overrun, 0);
    assert_eq!((v.ratio.num, v.ratio.den), (4 * SEC, 10 * SEC));
    assert!(v.running);
    let v = ui.view(12 * SEC);
    assert_eq!(v.screen, Screen::Ended);
    assert!(v.alert);
    assert_eq!(v.overrun, 2 * SEC);
    assert_eq!(v.next_mode, Mode::Break);
    let v = ui.view(13 * SEC);
    assert!(!v.alert);
    ui.update(Command::Enter, 14 * SEC);
    assert!(!ui.alerter.fired);
    let v = ui.view(20 * SEC);
    assert_eq!(v.mode, Mode::Break);
    assert_eq!(v.screen, Screen::Ended);
    assert!(v.alert);
    assert_eq!(v.next_mode, Mode::Work);
}

#[test]
fn skip_screen_view() {
    let mut ui = PomodoroUI::new(PomodoroConfig::short(), 0);
    ui.update(Command::Skip, 3 * SEC);
    let v = ui.view(3000 * SEC);
    assert_eq!(v.screen, Screen::Skipping);
    assert_eq!(v.elapsed, 3 * SEC);
    assert!(!v.running);
    assert!(!v.alert);
}

#[test]
fn free_update_function() {
    let config = PomodoroConfig::short();
    let mut alerter = Alerter { fired: true };
    let mut ui_mode = UIMode::Running(Stopwatch::fresh(0));
    let mut s = Session::default();
    pomodoro_update(Command::Enter, &config, &mut alerter, &mut ui_mode, &mut s, 1500 * SEC);
    assert!(!alerter.fired);
    assert_eq!(s.mode, Mode::Break);
    assert_eq!(ui_mode, UIMode::Running(Stopwatch::fresh(1500 * SEC)));
}

#[test]
fn presets_and_targets() {
    let s = PomodoroConfig::short();
    assert_eq!((s.work_time, s.break_time, s.long_break), (1_500_000, 300_000, 600_000));
    let l = PomodoroConfig::long();
    assert_eq!((l.work_time, l.break_time, l.long_break), (3_300_000, 600_000, 1_200_000));
    let c = PomodoroConfig::new(1, 2, 3);
    assert_eq!(c.current_target(Mode::Work), 1);
    assert_eq!(c.current_target(Mode::Break), 2);
    assert_eq!(c.current_target(Mode::LongBreak), 3);
    assert_eq!(PomodoroConfig::default(), s);
    assert_eq!(Mode::default(), Mode::Work);
}

#[test]
fn next_previews_without_changes() {
    let s = session(Mode::LongBreak, 4, 9, 8);
    let n = s.next();
    assert_eq!(n, session(Mode::Work, 4, 9, 8));
    assert_eq!(s.advance(0).mode, n.mode);
    assert_eq!(session(Mode::Work, 8, 0, 0).next().mode, Mode::LongBreak);
    assert_eq!(session(Mode::Work, 7, 0, 0).next().mode, Mode::Break);
}

#[test]
fn titles_and_messages() {
    assert_eq!(default_title(Mode::Work), "Pomodoro (Work)");
    assert_eq!(default_title(Mode::LongBreak), "Pomodoro (Long Break)");
    assert_eq!(end_title(Mode::Break), "Work has ended! Start break?");
    assert_eq!(end_title(Mode::Work), "Break has ended! Start work?");
    assert_eq!(alert_message(Mode::LongBreak), ("Pomodoro 4 sessions complete!", "Time for a long break"));
    assert_eq!(alert_message(Mode::Work), ("Your break ended!", "Time for some work"));
    assert_eq!(skip_prompt(Mode::Break), "skip to break?");
}

#[test]
fn summary_text() {
    let s = session(Mode::Work, 2, 1500 * SEC, 300 * SEC);
    assert_eq!(summary(&s), "You have spent 25:00 working and 05:00 on break. Well done!");
}
