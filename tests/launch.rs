use shell_bootstrap::launch::{Action, Event, Launch, Phase, PLUGIN_COUNT};
use shell_bootstrap::plugins::{plugin_at, plugins, Plugin};
use shell_bootstrap::timing::{setup_line, setup_line_with, Elapsed, SetupClock};
use std::time::Duration;

const FAILURE: &str = "error while running tauri application";

/// Enters a launch and confirms every registration it asks for; returns the
/// launch and the plugins it asked for, in order.
fn register_all(l: &mut Launch) -> Vec<Plugin> {
    let mut asked = Vec::new();
    let mut a = l.step(Event::Entered);
    loop {
        match a {
            Action::Register(p) => {
                asked.push(p);
                a = l.step(Event::Registered);
            }
            Action::StartRunLoop => break,
            other => panic!("unexpected action {:?}", other),
        }
    }
    asked
}

fn is_print(a: &Action) -> bool {
    matches!(a, Action::Print(_))
}

#[test]
fn plan_holds_the_eight_plugins_in_order() {
    assert_eq!(
        plugins(),
        vec![
            Plugin::Opener,
            Plugin::Fs,
            Plugin::Dialog,
            Plugin::Store,
            Plugin::Sql,
            Plugin::Notification,
            Plugin::DeepLink,
            Plugin::Http,
        ]
    );
    assert_eq!(plugins().len(), PLUGIN_COUNT);
}

#[test]
fn plugin_at_follows_the_plan() {
    let plan = plugins();
    for i in 0..PLUGIN_COUNT {
        assert_eq!(plugin_at(i), plan[i]);
    }
    assert_eq!(plugin_at(0), Plugin::Opener);
    assert_eq!(plugin_at(7), Plugin::Http);
}

#[test]
fn every_launch_registers_all_plugins_before_the_run_loop() {
    let mut l = Launch::new();
    assert_eq!(l.phase, Phase::Idle);
    let asked = register_all(&mut l);
    assert_eq!(asked, plugins());
    assert_eq!(l.phase, Phase::Starting);
    assert_eq!(l.registered, PLUGIN_COUNT);
}

#[test]
fn successful_launch_prints_setup_line_once_and_returns() {
    let mut l = Launch::new();
    register_all(&mut l);
    let mut actions = Vec::new();
    actions.push(l.step(Event::SetupInvoked(Elapsed { secs: 0, nanos: 1_500_000 })));
    actions.push(l.step(Event::SetupInvoked(Elapsed { secs: 0, nanos: 2_000_000 })));
    actions.push(l.step(Event::RunReturned(true)));
    assert_eq!(actions.iter().filter(|a| is_print(a)).count(), 1);
    assert_eq!(actions[0], Action::Print("Tauri setup time: 1.5ms".to_string()));
    assert_eq!(actions[1], Action::Idle);
    assert_eq!(actions[2], Action::Return);
    assert_eq!(l.phase, Phase::Exited);
    assert!(l.is_finished());
}

#[test]
fn failed_run_loop_aborts_with_message_and_prints_nothing_after() {
    let mut l = Launch::new();
    register_all(&mut l);
    match l.step(Event::RunReturned(false)) {
        Action::Abort(m) => assert!(m.starts_with(FAILURE)),
        other => panic!("unexpected action {:?}", other),
    }
    assert_eq!(l.phase, Phase::Aborted);
    assert!(l.is_finished());
    let after = l.step(Event::SetupInvoked(Elapsed { secs: 1, nanos: 0 }));
    assert_eq!(after, Action::Idle);
    assert_eq!(l.step(Event::RunReturned(true)), Action::Idle);
    assert_eq!(l.phase, Phase::Aborted);
}

#[test]
fn failure_after_setup_aborts_with_the_fixed_message() {
    let mut l = Launch::new();
    register_all(&mut l);
    assert!(is_print(&l.step(Event::SetupInvoked(Elapsed { secs: 0, nanos: 7 }))));
    assert_eq!(l.step(Event::RunReturned(false)), Action::Abort(FAILURE.to_string()));
}

#[test]
fn run_loop_returning_before_setup_prints_nothing() {
    let mut l = Launch::new();
    register_all(&mut l);
    assert_eq!(l.step(Event::RunReturned(true)), Action::Return);
    assert_eq!(l.step(Event::SetupInvoked(Elapsed { secs: 0, nanos: 5 })), Action::Idle);
}

#[test]
fn events_out_of_order_are_ignored() {
    let mut l = Launch::new();
    assert_eq!(l.step(Event::Registered), Action::Idle);
    assert_eq!(l.step(Event::RunReturned(false)), Action::Idle);
    assert_eq!(l.phase, Phase::Idle);
    assert_eq!(l.step(Event::Entered), Action::Register(Plugin::Opener));
    assert_eq!(l.step(Event::Entered), Action::Idle);
    assert_eq!(l.step(Event::SetupInvoked(Elapsed { secs: 0, nanos: 1 })), Action::Idle);
    assert_eq!(l.step(Event::Registered), Action::Register(Plugin::Fs));
    assert_eq!(l.registered, 1);
}

#[test]
fn setup_line_with_puts_the_prefix_first() {
    assert_eq!(setup_line_with("1.5ms"), "Tauri setup time: 1.5ms");
    assert_eq!(setup_line_with(""), "Tauri setup time: ");
}

#[test]
fn setup_line_formats_the_span_as_a_duration() {
    assert_eq!(setup_line(Elapsed { secs: 0, nanos: 1_500_000 }), "Tauri setup time: 1.5ms");
    assert_eq!(setup_line(Elapsed { secs: 2, nanos: 0 }), "Tauri setup time: 2s");
    assert_eq!(setup_line(Elapsed { secs: 0, nanos: 0 }), "Tauri setup time: 0ns");
    let d = Duration::new(3, 250_000_000);
    assert_eq!(
        setup_line(Elapsed::from_duration(&d)),
        format!("Tauri setup time: {:?}", d)
    );
}

#[test]
fn span_parts_are_checked() {
    assert_eq!(
        Elapsed::from_parts(4, 999_999_999),
        Some(Elapsed { secs: 4, nanos: 999_999_999 })
    );
    assert_eq!(Elapsed::from_parts(4, 1_000_000_000), None);
    assert_eq!(Elapsed::from_parts(u64::MAX, 0), Some(Elapsed { secs: u64::MAX, nanos: 0 }));
}

#[test]
fn span_of_a_duration_splits_seconds_and_nanoseconds() {
    let e = Elapsed::from_duration(&Duration::from_millis(1500));
    assert_eq!(e, Elapsed { secs: 1, nanos: 500_000_000 });
}

#[test]
fn setup_clock_readings_do_not_go_back() {
    let c = SetupClock::start();
    let first = c.elapsed();
    let second = c.elapsed();
    assert!(first.nanos < 1_000_000_000);
    assert!(second.nanos < 1_000_000_000);
    assert!((second.secs, second.nanos) >= (first.secs, first.nanos));
}
