use oyasumi_sidecar::sidecar::{retry_delay_ms, RestartBackoff, SidecarManager, WatchAction};

fn strings(items: &[&str]) -> Vec<String> {
    items.iter().map(|s| s.to_string()).collect()
}

fn manager(auto_restart: bool, args: &[&str]) -> SidecarManager {
    SidecarManager::new(
        "overlay".to_string(),
        "/opt/oyasumi/sidecars".to_string(),
        "overlay-sidecar".to_string(),
        auto_restart,
        strings(args),
    )
}

#[test]
fn new_manager_is_idle() {
    let m = manager(true, &["--a"]);
    assert_eq!(m.sidecar_id(), "overlay");
    assert_eq!(m.exe_dir(), "/opt/oyasumi/sidecars");
    assert_eq!(m.exe_file(), "overlay-sidecar");
    assert!(!m.is_active());
    assert!(!m.has_started());
    assert_eq!(m.child_pid(), None);
    assert_eq!(m.grpc_port(), None);
    assert_eq!(m.grpc_web_port(), None);
    assert!(m.auto_restart());
    assert!(!m.killed());
    assert_eq!(m.args(), &strings(&["--a"]));
}

#[test]
fn set_arg_appends_and_removes_first() {
    let mut m = manager(false, &["--x"]);
    m.set_arg("--debug", true, false);
    m.set_arg("--debug", true, false);
    assert_eq!(m.args(), &strings(&["--x", "--debug", "--debug"]));
    m.set_arg("--debug", false, false);
    assert_eq!(m.args(), &strings(&["--x", "--debug"]));
    m.set_arg("--missing", false, true);
    assert_eq!(m.args(), &strings(&["--x", "--debug"]));
}

#[test]
fn set_unique_arg_is_idempotent() {
    let mut m = manager(false, &[]);
    m.set_arg("--open", true, true);
    m.set_arg("--open", true, true);
    assert_eq!(m.args(), &strings(&["--open"]));
}

#[test]
fn clearing_undoes_setting_an_absent_flag() {
    let mut m = manager(false, &["--a", "--b"]);
    m.set_arg("--c", true, false);
    m.set_arg("--c", false, true);
    assert_eq!(m.args(), &strings(&["--a", "--b"]));
}

#[test]
fn clearing_a_duplicated_flag_removes_its_first_occurrence() {
    let mut m = manager(false, &["--b", "--a", "--b"]);
    m.set_arg("--b", false, false);
    assert_eq!(m.args(), &strings(&["--a", "--b"]));
}

#[test]
fn set_args_replaces_everything() {
    let mut m = manager(false, &["--a"]);
    m.set_args(strings(&["--z", "--y"]));
    assert_eq!(m.args(), &strings(&["--z", "--y"]));
}

#[test]
fn launch_args_put_port_and_pid_first() {
    let m = manager(false, &["--flag", "x"]);
    assert_eq!(m.launch_args(5176, 40213), strings(&["5176", "40213", "--flag", "x"]));
    assert_eq!(m.launch_args(0, 4294967295), strings(&["0", "4294967295", "--flag", "x"]));
}

#[test]
fn start_needs_core_port() {
    let mut m = manager(false, &[]);
    assert_eq!(m.begin_start(false, None), None);
    assert!(!m.is_active());
    assert_eq!(m.begin_start(false, Some(5176)), Some(5176));
    assert!(m.is_active());
}

#[test]
fn start_is_not_repeated_but_relaunch_is() {
    let mut m = manager(true, &[]);
    assert_eq!(m.begin_start(false, Some(1)), Some(1));
    assert_eq!(m.begin_start(false, Some(1)), None);
    assert_eq!(m.begin_start(true, Some(2)), Some(2));
    assert!(m.is_active());
}

#[test]
fn start_or_restart_plans() {
    let mut m = manager(false, &[]);
    let plan = m.start_or_restart();
    assert_eq!(plan.kill, None);
    assert!(plan.start);
    assert!(!plan.relaunch);
    m.begin_start(false, Some(9));
    m.record_child(77);
    let plan = m.start_or_restart();
    assert_eq!(plan.kill, Some(77));
    assert!(plan.start);
    assert!(plan.relaunch);
    assert_eq!(m.begin_start(plan.relaunch, Some(9)), Some(9));

    let mut r = manager(true, &[]);
    r.begin_start(false, Some(9));
    r.record_child(78);
    let plan = r.start_or_restart();
    assert_eq!(plan.kill, Some(78));
    assert!(!plan.start);
    assert!(r.is_active());
}

#[test]
fn failed_launch_is_not_running() {
    let mut m = manager(false, &[]);
    assert_eq!(m.begin_start(false, Some(9)), Some(9));
    m.launch_failed();
    assert!(!m.is_active());
    assert_eq!(m.begin_start(false, Some(9)), Some(9));
}

#[test]
fn child_exit_ends_the_start() {
    let mut m = manager(false, &[]);
    m.begin_start(false, Some(9));
    m.record_child(5);
    assert!(m.handle_start_signal(Some(1), Some(2), 5, None));
    assert!(m.has_started());
    m.child_exited();
    assert!(!m.has_started());
    assert!(!m.is_active());
}

#[test]
fn stop_marks_killed_only_with_a_child() {
    let mut m = manager(true, &[]);
    assert_eq!(m.stop(), None);
    assert!(!m.killed());
    m.record_child(12);
    assert_eq!(m.stop(), Some(12));
    assert!(m.killed());
}

#[test]
fn start_signal_refused_when_inactive() {
    let mut m = manager(false, &[]);
    assert!(!m.handle_start_signal(Some(1), Some(2), 100, None));
    assert!(!m.has_started());
    assert_eq!(m.grpc_port(), None);
}

#[test]
fn start_signal_in_development_mode() {
    let mut m = manager(false, &[]);
    assert!(m.handle_start_signal(Some(5174), Some(5175), 0, None));
    assert!(m.is_active());
    assert!(m.has_started());
    assert_eq!(m.grpc_port(), Some(5174));
    assert_eq!(m.grpc_web_port(), Some(5175));
}

#[test]
fn start_signal_checks_the_child() {
    let mut m = manager(false, &[]);
    m.begin_start(false, Some(1));
    m.record_child(300);
    assert!(!m.handle_start_signal(Some(1), None, 301, Some(299)));
    assert!(!m.has_started());
    assert!(m.handle_start_signal(Some(1), None, 301, Some(300)));
    assert!(m.has_started());
    let mut n = manager(false, &[]);
    n.begin_start(false, Some(1));
    n.record_child(300);
    assert!(n.handle_start_signal(Some(4), Some(5), 301, None));
    assert_eq!(n.grpc_port(), Some(4));
    let mut k = manager(false, &[]);
    k.begin_start(false, Some(1));
    k.record_child(300);
    assert!(k.handle_start_signal(None, None, 300, Some(1)));
}

#[test]
fn retry_schedule_values() {
    let expected = [100u64, 1000, 2000, 5000, 10000, 30000, 60000, 120000, 300000, 300000];
    for (i, d) in expected.iter().enumerate() {
        assert_eq!(retry_delay_ms(i), *d);
    }
}

#[test]
fn failed_relaunches_follow_the_schedule() {
    let mut m = manager(true, &[]);
    let mut backoff = RestartBackoff::new();
    let mut delays = Vec::new();
    for _ in 0..11 {
        match m.poll(&mut backoff) {
            WatchAction::StoppedAndRestart { delay_ms } => delays.push(delay_ms),
            _ => panic!("expected a relaunch"),
        }
    }
    assert_eq!(
        delays,
        vec![100, 1000, 2000, 5000, 10000, 30000, 60000, 120000, 300000, 300000, 300000]
    );
    assert_eq!(backoff.retries(), 8);
}

#[test]
fn running_sidecar_resets_the_schedule() {
    let mut m = manager(true, &[]);
    let mut backoff = RestartBackoff::new();
    m.poll(&mut backoff);
    m.poll(&mut backoff);
    assert_eq!(backoff.retries(), 2);
    m.begin_start(true, Some(1));
    assert!(m.poll(&mut backoff) == WatchAction::Continue);
    assert_eq!(backoff.retries(), 0);
}

#[test]
fn stopped_poll_clears_the_sidecar() {
    let mut m = manager(false, &[]);
    m.handle_start_signal(Some(7), Some(8), 0, None);
    m.record_child(55);
    m.child_exited();
    let mut backoff = RestartBackoff::new();
    assert!(m.poll(&mut backoff) == WatchAction::Stopped);
    assert_eq!(m.child_pid(), None);
    assert_eq!(m.grpc_port(), None);
    assert_eq!(m.grpc_web_port(), None);
    assert!(!m.has_started());
    assert!(!m.is_active());
    assert_eq!(backoff.retries(), 0);
}

#[test]
fn stop_prevents_restart() {
    let mut m = manager(true, &[]);
    m.begin_start(false, Some(1));
    m.record_child(42);
    assert_eq!(m.stop(), Some(42));
    m.child_exited();
    let mut backoff = RestartBackoff::new();
    assert!(m.poll(&mut backoff) == WatchAction::StoppedAndExit);
    assert!(!m.killed());
    assert_eq!(backoff.retries(), 0);
}

#[test]
fn unexpected_exit_restarts() {
    let mut m = manager(true, &[]);
    m.begin_start(false, Some(1));
    m.record_child(42);
    m.child_exited();
    let mut backoff = RestartBackoff::new();
    assert!(m.poll(&mut backoff) == WatchAction::StoppedAndRestart { delay_ms: 100 });
    assert_eq!(m.begin_start(true, Some(1)), Some(1));
}

#[test]
fn launched_child_signal_accepted() {
    let mut m = manager(true, &[]);
    assert_eq!(m.begin_start(false, Some(5176)), Some(5176));
    m.record_child(4000);
    assert!(m.handle_start_signal(Some(6000), Some(6001), 4000, Some(17)));
    assert!(m.has_started());
    assert_eq!(m.grpc_web_port(), Some(6001));
}

#[test]
fn clearing_a_unique_flag_removes_it() {
    let mut m = manager(false, &[]);
    m.set_arg("--a", true, true);
    m.set_arg("--b", true, true);
    m.set_arg("--a", true, true);
    assert_eq!(m.args(), &strings(&["--a", "--b"]));
    m.set_arg("--a", false, true);
    assert_eq!(m.args(), &strings(&["--b"]));
}

#[test]
fn relaunch_forgets_previous_start() {
    let mut m = manager(false, &[]);
    m.begin_start(false, Some(9));
    m.record_child(5);
    assert!(m.handle_start_signal(Some(1), Some(2), 5, None));
    let plan = m.start_or_restart();
    assert_eq!(plan.kill, Some(5));
    assert_eq!(m.begin_start(plan.relaunch, Some(9)), Some(9));
    assert!(m.is_active());
    assert!(!m.has_started());
    assert_eq!(m.grpc_port(), None);
    assert_eq!(m.grpc_web_port(), None);
}
