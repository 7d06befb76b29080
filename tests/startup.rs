use std::collections::HashSet;

use shell_bootstrap::{planned_at, registration_plan, Action, Bootstrap, Event, Phase, Plugin};

fn drive_to_runtime(b: &mut Bootstrap) -> Vec<Action> {
    let mut actions = Vec::new();
    loop {
        let a = b.step(Event::Ready);
        actions.push(a);
        if a != Action::Idle && !matches!(a, Action::Attach(_)) {
            break;
        }
        assert!(actions.len() <= 5, "startup never reached the runtime");
    }
    actions
}

#[test]
fn plan_lists_the_four_plugins_in_order() {
    let plan = registration_plan();
    assert_eq!(
        plan,
        vec![Plugin::Filesystem, Plugin::Opener, Plugin::Clipboard, Plugin::Theme]
    );
    for i in 0..4 {
        assert_eq!(planned_at(i), plan[i]);
    }
}

#[test]
fn each_plugin_is_registered_exactly_once() {
    let mut b = Bootstrap::new();
    let actions = drive_to_runtime(&mut b);
    assert_eq!(actions.len(), 5);
    assert_eq!(actions[4], Action::StartRuntime);
    for p in [Plugin::Filesystem, Plugin::Opener, Plugin::Clipboard, Plugin::Theme] {
        let n = actions.iter().filter(|a| **a == Action::Attach(p)).count();
        assert_eq!(n, 1);
        assert!(b.is_attached(p));
    }
    assert_eq!(b.phase(), Phase::Running);
}

#[test]
fn only_the_theme_plugin_takes_the_context() {
    assert!(Plugin::Theme.takes_context());
    assert!(!Plugin::Filesystem.takes_context());
    assert!(!Plugin::Opener.takes_context());
    assert!(!Plugin::Clipboard.takes_context());
}

#[test]
fn theme_initializer_sees_a_live_context() {
    let mut b = Bootstrap::new();
    assert!(b.context_live());
    loop {
        let was_live = b.context_live();
        let a = b.step(Event::Ready);
        if a == Action::Attach(Plugin::Theme) {
            assert!(was_live);
            assert!(b.context_live());
        }
        if a == Action::StartRuntime {
            assert!(was_live);
            assert!(!b.context_live());
            break;
        }
    }
}

#[test]
fn context_is_untouched_after_the_runtime_starts() {
    let mut b = Bootstrap::new();
    drive_to_runtime(&mut b);
    assert!(!b.context_live());
    for e in [Event::Ready, Event::Ready] {
        assert_eq!(b.step(e), Action::Idle);
        assert!(!b.context_live());
    }
}

#[test]
fn runtime_failure_terminates_with_diagnostic() {
    let mut b = Bootstrap::new();
    drive_to_runtime(&mut b);
    let a = b.step(Event::RunFailed);
    assert_eq!(a, Action::Abort);
    assert!(a.fails_process());
    assert_eq!(
        a.diagnostic(),
        Some("error while running tauri application".to_string())
    );
    assert_eq!(b.phase(), Phase::Aborted);
    for e in [Event::Ready, Event::RunSucceeded, Event::RunFailed] {
        assert_eq!(b.step(e), Action::Idle);
        assert_eq!(b.phase(), Phase::Aborted);
    }
}

#[test]
fn runtime_success_writes_no_diagnostic() {
    let mut b = Bootstrap::new();
    drive_to_runtime(&mut b);
    let a = b.step(Event::RunSucceeded);
    assert_eq!(a, Action::Finish);
    assert!(!a.fails_process());
    assert_eq!(a.diagnostic(), None);
    assert_eq!(b.phase(), Phase::Finished);
    assert_eq!(b.step(Event::Ready), Action::Idle);
}

#[test]
fn other_actions_carry_no_diagnostic() {
    for a in [
        Action::Attach(Plugin::Theme),
        Action::StartRuntime,
        Action::Finish,
        Action::Idle,
    ] {
        assert_eq!(a.diagnostic(), None);
        assert!(!a.fails_process());
    }
}

#[test]
fn run_results_before_the_runtime_starts_are_ignored() {
    let mut b = Bootstrap::new();
    assert_eq!(b.step(Event::RunFailed), Action::Idle);
    assert_eq!(b.step(Event::RunSucceeded), Action::Idle);
    assert_eq!(b.phase(), Phase::Assembling);
    assert!(!b.is_attached(Plugin::Filesystem));
    assert_eq!(b.step(Event::Ready), Action::Attach(Plugin::Filesystem));
    assert!(b.is_attached(Plugin::Filesystem));
    assert!(!b.is_attached(Plugin::Theme));
}

#[test]
fn attached_set_does_not_depend_on_order() {
    let all = [Plugin::Filesystem, Plugin::Opener, Plugin::Clipboard, Plugin::Theme];
    let mut b = Bootstrap::new();
    drive_to_runtime(&mut b);
    let expected: HashSet<Plugin> = all.iter().copied().filter(|p| b.is_attached(*p)).collect();
    let firsts = [Plugin::Filesystem, Plugin::Opener, Plugin::Clipboard];
    let orders = [[0, 1, 2], [0, 2, 1], [1, 0, 2], [1, 2, 0], [2, 0, 1], [2, 1, 0]];
    for o in orders {
        let mut seq: Vec<Plugin> = o.iter().map(|&i| firsts[i]).collect();
        seq.push(Plugin::Theme);
        let got: HashSet<Plugin> = seq.into_iter().collect();
        assert_eq!(got, expected);
    }
    assert_eq!(expected.len(), 4);
}
