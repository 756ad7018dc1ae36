use headless_viewer::cli::{app_path_from_args, UsageError};
use headless_viewer::launch::{launch_steps, settle_launch, LaunchError, LaunchStep};
use headless_viewer::probe::{ProbeAction, ProbeEvent, Prober, MAX_PROBES, PROBE_INTERVAL_SECS};

fn words(ws: &[&str]) -> Vec<String> {
    ws.iter().map(|w| w.to_string()).collect()
}

#[test]
fn one_path_argument_is_accepted() {
    assert_eq!(app_path_from_args(&words(&["viewer", "/opt/game/run"])), Ok("/opt/game/run".to_string()));
}

#[test]
fn wrong_argument_counts_are_usage_errors() {
    assert_eq!(app_path_from_args(&words(&[])), Err(UsageError { given: 0 }));
    assert_eq!(app_path_from_args(&words(&["viewer"])), Err(UsageError { given: 1 }));
    assert_eq!(app_path_from_args(&words(&["viewer", "a", "b"])), Err(UsageError { given: 3 }));
}

#[test]
fn launch_enters_parent_directory_before_spawn() {
    let steps = launch_steps("/opt/game/run").unwrap();
    assert_eq!(steps.len(), 2);
    assert!(matches!(&steps[0], LaunchStep::ChangeDir(d) if d == "/opt/game"));
    assert!(matches!(&steps[1], LaunchStep::Spawn(p) if p == "/opt/game/run"));
}

#[test]
fn bare_file_name_runs_in_empty_parent() {
    let steps = launch_steps("game").unwrap();
    assert!(matches!(&steps[0], LaunchStep::ChangeDir(d) if d.is_empty()));
    assert!(matches!(&steps[1], LaunchStep::Spawn(p) if p == "game"));
}

#[test]
fn path_without_parent_is_a_launch_error() {
    assert!(matches!(launch_steps("/"), Err(LaunchError::NoParentDirectory)));
    assert!(matches!(launch_steps(""), Err(LaunchError::NoParentDirectory)));
}

#[test]
fn failed_launch_leaves_slot_empty() {
    let mut slot: Option<u32> = None;
    assert_eq!(settle_launch(&mut slot, Err(LaunchError::Spawn)), Err(LaunchError::Spawn));
    assert_eq!(slot, None);
}

#[test]
fn successful_launch_fills_slot() {
    let mut slot: Option<u32> = None;
    assert_eq!(settle_launch(&mut slot, Ok(42)), Ok(()));
    assert_eq!(slot, Some(42));
}

/// Runs the prober as a caller would, with `answers[i]` the outcome of probe `i`.
fn run(answers: &dyn Fn(usize) -> bool) -> (ProbeAction, usize, u64) {
    let mut p = Prober::new();
    let mut probes = 0usize;
    let mut slept = 0u64;
    let mut action = p.step(ProbeEvent::Start);
    loop {
        match action {
            ProbeAction::Probe => {
                let ok = answers(probes);
                probes += 1;
                action = p.step(ProbeEvent::Probed(ok));
            }
            ProbeAction::Sleep(s) => {
                slept += s;
                action = p.step(ProbeEvent::Slept);
            }
            done => return (done, probes, slept),
        }
    }
}

#[test]
fn probe_ready_at_first_success() {
    assert_eq!(run(&|_| true), (ProbeAction::Ready, 1, 0));
    assert_eq!(run(&|i| i >= 4), (ProbeAction::Ready, 5, 4));
    assert_eq!(run(&|i| i == 59), (ProbeAction::Ready, 60, 59));
}

#[test]
fn probe_times_out_after_sixty_attempts() {
    assert_eq!(MAX_PROBES, 60);
    assert_eq!(PROBE_INTERVAL_SECS, 1);
    assert_eq!(run(&|_| false), (ProbeAction::TimedOut, 60, 60));
    assert_eq!(run(&|i| i >= 60), (ProbeAction::TimedOut, 60, 60));
}

#[test]
fn prober_steps() {
    let mut p = Prober::new();
    assert_eq!(p.failed, 0);
    assert_eq!(p.step(ProbeEvent::Start), ProbeAction::Probe);
    assert_eq!(p.step(ProbeEvent::Probed(false)), ProbeAction::Sleep(1));
    assert_eq!(p.failed, 1);
    assert_eq!(p.step(ProbeEvent::Slept), ProbeAction::Probe);
    assert_eq!(p.step(ProbeEvent::Probed(true)), ProbeAction::Ready);
    let mut spent = Prober { failed: 60 };
    assert_eq!(spent.step(ProbeEvent::Slept), ProbeAction::TimedOut);
    assert_eq!(spent.step(ProbeEvent::Probed(false)), ProbeAction::TimedOut);
    assert_eq!(spent.step(ProbeEvent::Start), ProbeAction::Probe);
    assert_eq!(spent.failed, 0);
}
