use pomo_timer::command::Command;
use pomo_timer::stopwatch::{Stopwatch, StopwatchUI};
use pomo_timer::timer::{timer_alert_message, timer_title, timer_update, TimerUI};

#[test]
fn elapsed_while_running_and_stopped() {
    let w = Stopwatch::new(Some(100), 50);
    assert!(w.started());
    assert_eq!(w.elapsed(100), 50);
    assert_eq!(w.elapsed(350), 300);
    let w = Stopwatch::new(None, 70);
    assert!(!w.started());
    assert_eq!(w.elapsed(10_000), 70);
}

#[test]
fn clock_before_start_adds_nothing() {
    let w = Stopwatch::new(Some(1000), 5);
    assert_eq!(w.elapsed(10), 5);
    let w = Stopwatch::new(Some(0), u64::MAX - 1);
    assert_eq!(w.elapsed(10), u64::MAX);
}

#[test]
fn start_twice_counts_once() {
    let mut once = Stopwatch::new(None, 20);
    once.start(100);
    let mut twice = once;
    twice.start(150);
    assert_eq!(once, twice);
    for t in [100, 150, 400] {
        assert_eq!(once.elapsed(t), twice.elapsed(t));
    }
    assert_eq!(twice.elapsed(400), 320);
}

#[test]
fn stop_and_toggle() {
    let mut w = Stopwatch::fresh(0);
    w.stop(40);
    assert_eq!(w, Stopwatch::new(None, 40));
    w.stop(90);
    assert_eq!(w.elapsed(90), 40);
    w.toggle(100);
    assert_eq!(w, Stopwatch::new(Some(100), 40));
    w.toggle(130);
    assert_eq!(w, Stopwatch::new(None, 70));
}

#[test]
fn stopwatch_screen_commands() {
    let mut ui = StopwatchUI::new(0);
    ui.update(Command::Enter, 10);
    assert_eq!(ui.stopwatch.elapsed(99), 10);
    ui.update(Command::Resume, 20);
    ui.update(Command::Reset, 25);
    assert_eq!(ui.stopwatch.elapsed(30), 20);
    ui.update(Command::Pause, 30);
    assert!(!ui.stopwatch.started());
    ui.update(Command::Toggle, 40);
    assert_eq!(ui.stopwatch.elapsed(41), 21);
}

#[test]
fn timer_commands() {
    let mut w = Stopwatch::fresh(0);
    timer_update(Command::Pause, &mut w, 10);
    timer_update(Command::Resume, &mut w, 20);
    assert_eq!(w.elapsed(25), 15);
    timer_update(Command::Reset, &mut w, 30);
    assert_eq!(w, Stopwatch::fresh(30));
    timer_update(Command::Skip, &mut w, 40);
    assert_eq!(w, Stopwatch::fresh(30));
    timer_update(Command::Enter, &mut w, 40);
    assert_eq!(w, Stopwatch::new(None, 10));
}

#[test]
fn timer_view_and_alert() {
    let mut t = TimerUI::new(90_000, 0);
    let v = t.view(30_000);
    assert!(!v.ended);
    assert!(!v.alert);
    assert_eq!(v.remaining, 60_000);
    t.update(Command::Toggle, 30_000);
    assert_eq!(t.view(50_000).elapsed, 30_000);
    t.update(Command::Toggle, 50_000);
    let v = t.view(115_000);
    assert!(v.ended);
    assert!(v.alert);
    assert_eq!(v.overrun, 5_000);
    assert_eq!(v.remaining, 0);
    assert!(!t.view(116_000).alert);
    assert_eq!(timer_title(v.ended), "Timer has ended");
    assert_eq!(timer_title(false), "Timer");
    assert_eq!(timer_alert_message(90_000), "Your Timer of 01:30 has ended");
}
