use oxygen::orchestrator::{Action, Event, Orchestrator, Stage};

/// Drives a fresh machine through a whole run: the load report first, then
/// one phase report per returned phase action. Returns the actions issued and
/// the final machine.
fn drive(first: Event, phase_reports: &[bool]) -> (Vec<Action>, Orchestrator) {
    let mut orch = Orchestrator::new();
    let mut actions = Vec::new();
    assert!(orch.accepts_event(&first));
    let mut action = orch.step(first);
    let mut reports = phase_reports.iter();
    loop {
        actions.push(action);
        match action {
            Action::RunApp { .. } | Action::UpdateToolchain | Action::InstallPackage => {
                let success = *reports.next().expect("a report for every phase");
                let event = Event::PhaseDone { success };
                assert!(orch.accepts_event(&event));
                action = orch.step(event);
            }
            Action::HoldForAcknowledgment | Action::ExitQuietly => break,
        }
    }
    assert!(reports.next().is_none(), "every report consumed");
    assert!(orch.is_finished());
    (actions, orch)
}

#[test]
fn fresh_run_all_ok_updates_installs_then_runs() {
    // Executable absent, every phase succeeds: update, install, run, quiet exit.
    let (actions, orch) = drive(Event::Loaded { exe_exists: false }, &[true, true, true]);
    assert_eq!(
        actions,
        vec![
            Action::UpdateToolchain,
            Action::InstallPackage,
            Action::RunApp { persistent_console: false },
            Action::ExitQuietly,
        ]
    );
    assert!(!orch.problem);
}

#[test]
fn installed_run_runs_first_then_updates_and_installs() {
    let (actions, orch) = drive(Event::Loaded { exe_exists: true }, &[true, true, true]);
    assert_eq!(
        actions,
        vec![
            Action::RunApp { persistent_console: true },
            Action::UpdateToolchain,
            Action::InstallPackage,
            Action::ExitQuietly,
        ]
    );
    assert!(!orch.problem);
}

#[test]
fn load_failure_still_updates_but_skips_install_and_run() {
    let (actions, orch) = drive(Event::LoadFailed, &[true]);
    assert_eq!(
        actions,
        vec![Action::UpdateToolchain, Action::HoldForAcknowledgment]
    );
    assert!(orch.problem);
}

#[test]
fn failed_update_does_not_stop_install_or_run() {
    let (actions, orch) = drive(Event::Loaded { exe_exists: false }, &[false, true, true]);
    assert_eq!(actions[1], Action::InstallPackage);
    assert_eq!(actions[2], Action::RunApp { persistent_console: false });
    assert_eq!(actions[3], Action::HoldForAcknowledgment);
    assert!(orch.problem);
}

#[test]
fn failed_install_still_attempts_the_run() {
    let (actions, orch) = drive(Event::Loaded { exe_exists: false }, &[true, false, false]);
    assert_eq!(actions[2], Action::RunApp { persistent_console: false });
    assert!(orch.problem);
}

#[test]
fn nonzero_exit_of_installed_run_is_a_problem_despite_good_maintenance() {
    // Executable present, run fails, update and install both succeed.
    let (actions, orch) = drive(Event::Loaded { exe_exists: true }, &[false, true, true]);
    assert_eq!(actions[0], Action::RunApp { persistent_console: true });
    assert_eq!(actions[3], Action::HoldForAcknowledgment);
    assert!(orch.problem);
}

#[test]
fn problem_is_true_exactly_when_some_phase_failed() {
    for bits in 0..8u8 {
        let reports = [bits & 1 != 0, bits & 2 != 0, bits & 4 != 0];
        let all_ok = reports.iter().all(|b| *b);
        for exists in [false, true] {
            let (actions, orch) = drive(Event::Loaded { exe_exists: exists }, &reports);
            assert_eq!(orch.problem, !all_ok);
            let last = *actions.last().unwrap();
            if all_ok {
                assert_eq!(last, Action::ExitQuietly);
            } else {
                assert_eq!(last, Action::HoldForAcknowledgment);
            }
        }
    }
}

#[test]
fn problem_stays_true_after_later_successes() {
    let mut orch = Orchestrator::new();
    orch.step(Event::Loaded { exe_exists: true });
    orch.step(Event::PhaseDone { success: false });
    assert!(orch.problem);
    orch.step(Event::PhaseDone { success: true });
    assert!(orch.problem);
    orch.step(Event::PhaseDone { success: true });
    assert!(orch.problem);
}

#[test]
fn stages_accept_only_their_own_events() {
    let orch = Orchestrator::new();
    assert_eq!(orch.stage, Stage::Start);
    assert!(orch.accepts_event(&Event::Loaded { exe_exists: true }));
    assert!(orch.accepts_event(&Event::LoadFailed));
    assert!(!orch.accepts_event(&Event::PhaseDone { success: true }));

    let mut running = Orchestrator::new();
    running.step(Event::Loaded { exe_exists: true });
    assert!(running.accepts_event(&Event::PhaseDone { success: true }));
    assert!(!running.accepts_event(&Event::LoadFailed));

    let (_, finished) = drive(Event::LoadFailed, &[true]);
    assert!(!finished.accepts_event(&Event::PhaseDone { success: true }));
    assert!(!finished.accepts_event(&Event::Loaded { exe_exists: true }));
}
