use devboot::errors::ProcError;
use devboot::events::Event;
use devboot::manager::{MonitorDirective, PollOutcome, ProcessManager};
use devboot::process::ProcessStatus;
use devboot::{MAX_RESTART_ATTEMPTS, RESTART_DELAY_MS};

const TS: &str = "12:00:00";

fn start_running(mgr: &mut ProcessManager, id: &str, commands: &[&str], restart_on_crash: bool) {
    let commands: Vec<String> = commands.iter().map(|c| c.to_string()).collect();
    let plan = mgr
        .start_project(id, "C:\\work\\proj", &commands, restart_on_crash)
        .expect("start refused");
    assert!(plan.script.starts_with("cd 'C:/work/proj'"));
    let evs = mgr.apply_spawn_success(id, "C:\\work\\proj", &commands, restart_on_crash, 4242, true);
    assert_eq!(evs.len(), 1);
    match &evs[0] {
        Event::Status(p) => {
            assert_eq!(p.project_id, id);
            assert_eq!(p.status, "running");
        },
        _ => panic!("expected a status event"),
    }
}

#[test]
fn never_started_reads_stopped_and_empty() {
    let mgr = ProcessManager::new();
    assert_eq!(mgr.get_status("ghost"), ProcessStatus::Stopped);
    assert!(mgr.get_logs("ghost").is_empty());
    assert_eq!(mgr.get_restart_count("ghost"), 0);
    assert!(!mgr.is_running("ghost"));
}

#[test]
fn start_builds_the_joined_script() {
    let mgr = ProcessManager::new();
    let commands = vec!["npm install".to_string(), "npm run dev".to_string()];
    let plan = mgr.start_project("p", "C:\\apps\\site", &commands, true).unwrap();
    assert_eq!(plan.script, "cd 'C:/apps/site' && npm install && npm run dev");
}

#[test]
fn start_on_running_yields_already_running_without_mutation() {
    let mut mgr = ProcessManager::new();
    start_running(&mut mgr, "p", &["run"], true);
    let commands = vec!["other".to_string()];
    match mgr.start_project("p", "elsewhere", &commands, false) {
        Err(ProcError::AlreadyRunning) => {},
        _ => panic!("expected AlreadyRunning"),
    }
    assert_eq!(
        ProcError::AlreadyRunning.message(),
        "Project is already running"
    );
    // nothing about the record changed
    assert_eq!(mgr.get_status("p"), ProcessStatus::Running);
    assert_eq!(mgr.get_restart_count("p"), 0);
}

#[test]
fn normal_exit_settles_in_stopped_exactly_once() {
    let mut mgr = ProcessManager::new();
    start_running(&mut mgr, "p", &["run"], true);
    let (d, evs) = mgr.handle_poll("p", &PollOutcome::Exited(0), TS);
    assert!(matches!(d, MonitorDirective::Exit));
    assert_eq!(mgr.get_status("p"), ProcessStatus::Stopped);
    let logs = mgr.get_logs("p");
    assert_eq!(logs, vec!["[12:00:00] Process exited normally"]);
    match &evs[0] {
        Event::Status(p) => assert_eq!(p.status, "stopped"),
        _ => panic!("expected a status event"),
    }
    // a later poll of the settled record is a no-op that ends the loop
    let (d2, evs2) = mgr.handle_poll("p", &PollOutcome::Exited(0), "12:00:01");
    assert!(matches!(d2, MonitorDirective::Exit));
    assert!(evs2.is_empty());
    assert_eq!(mgr.get_logs("p"), logs);
}

#[test]
fn still_running_continues() {
    let mut mgr = ProcessManager::new();
    start_running(&mut mgr, "p", &["run"], true);
    let (d, evs) = mgr.handle_poll("p", &PollOutcome::StillRunning, TS);
    assert!(matches!(d, MonitorDirective::Continue));
    assert!(evs.is_empty());
    assert_eq!(mgr.get_status("p"), ProcessStatus::Running);
}

#[test]
fn poll_of_unknown_project_exits() {
    let mut mgr = ProcessManager::new();
    let (d, evs) = mgr.handle_poll("ghost", &PollOutcome::Exited(0), TS);
    assert!(matches!(d, MonitorDirective::Exit));
    assert!(evs.is_empty());
}

#[test]
fn crash_without_restart_policy_goes_straight_to_error() {
    let mut mgr = ProcessManager::new();
    start_running(&mut mgr, "p", &["run"], false);
    let (d, evs) = mgr.handle_poll("p", &PollOutcome::Exited(2), "10:00:00");
    assert!(matches!(d, MonitorDirective::Exit));
    assert_eq!(mgr.get_status("p"), ProcessStatus::Error);
    assert_eq!(mgr.get_restart_count("p"), 0);
    assert_eq!(evs.len(), 2);
    match &evs[0] {
        Event::Crash(c) => {
            assert_eq!(c.restart_count, 0);
            assert!(!c.will_restart);
        },
        _ => panic!("expected a crash event"),
    }
    match &evs[1] {
        Event::Status(p) => assert_eq!(p.status, "error"),
        _ => panic!("expected a status event"),
    }
    let logs = mgr.get_logs("p");
    assert_eq!(logs, vec!["[10:00:00] [ERR] Process crashed with exit code: 2"]);
}

#[test]
fn repeated_crashes_respawn_exactly_up_to_the_cap() {
    let mut mgr = ProcessManager::new();
    start_running(&mut mgr, "q", &["exit 1"], true);
    // restart occurs while restart_count < 5: crashes 1..=5 each earn a respawn
    for attempt in 1..=MAX_RESTART_ATTEMPTS {
        let (d, evs) = mgr.handle_poll("q", &PollOutcome::Exited(1), TS);
        match d {
            MonitorDirective::Restart(plan) => {
                assert_eq!(plan.delay_ms, RESTART_DELAY_MS);
                assert!(plan.script.contains("exit 1"));
            },
            _ => panic!("crash {} should schedule a respawn", attempt),
        }
        assert_eq!(mgr.get_status("q"), ProcessStatus::Restarting);
        match &evs[0] {
            Event::Crash(c) => {
                assert_eq!(c.restart_count, attempt);
                assert!(c.will_restart);
            },
            _ => panic!("expected a crash event"),
        }
        match &evs[1] {
            Event::Status(p) => assert_eq!(p.status, "restarting"),
            _ => panic!("expected a status event"),
        }
        let evs = mgr.apply_respawn_success("q", 5000 + attempt, true, TS);
        assert_eq!(mgr.get_status("q"), ProcessStatus::Running);
        assert_eq!(mgr.get_restart_count("q"), attempt);
        match &evs[0] {
            Event::Status(p) => assert_eq!(p.status, "running"),
            _ => panic!("expected a status event"),
        }
    }
    // the crash that finds restart_count == 5 does not restart
    let (d, evs) = mgr.handle_poll("q", &PollOutcome::Exited(1), TS);
    assert!(matches!(d, MonitorDirective::Exit));
    assert_eq!(mgr.get_status("q"), ProcessStatus::Error);
    assert_eq!(mgr.get_restart_count("q"), MAX_RESTART_ATTEMPTS);
    match &evs[0] {
        Event::Crash(c) => {
            assert_eq!(c.restart_count, MAX_RESTART_ATTEMPTS);
            assert!(!c.will_restart);
        },
        _ => panic!("expected a crash event"),
    }
    let logs = mgr.get_logs("q");
    assert!(logs
        .iter()
        .any(|l| l.contains("Max restart attempts reached. Giving up.")));
    assert!(logs
        .iter()
        .any(|l| l.contains("Restarting... (attempt 5/5)")));
}

#[test]
fn respawn_failure_settles_in_error() {
    let mut mgr = ProcessManager::new();
    start_running(&mut mgr, "p", &["run"], true);
    let (d, _) = mgr.handle_poll("p", &PollOutcome::Exited(7), TS);
    assert!(matches!(d, MonitorDirective::Restart(_)));
    let evs = mgr.apply_respawn_failure("p", "shell not found", TS);
    assert_eq!(mgr.get_status("p"), ProcessStatus::Error);
    match &evs[0] {
        Event::Status(p) => assert_eq!(p.status, "error"),
        _ => panic!("expected a status event"),
    }
    let logs = mgr.get_logs("p");
    assert!(logs
        .iter()
        .any(|l| l == "[12:00:00] [ERR] Failed to restart: shell not found"));
}

#[test]
fn wait_error_settles_in_error_with_a_logged_line() {
    let mut mgr = ProcessManager::new();
    start_running(&mut mgr, "p", &["run"], true);
    let (d, evs) = mgr.handle_poll(
        "p",
        &PollOutcome::WaitFailed("permission denied".to_string()),
        TS,
    );
    assert!(matches!(d, MonitorDirective::Exit));
    assert!(evs.is_empty());
    assert_eq!(mgr.get_status("p"), ProcessStatus::Error);
    let logs = mgr.get_logs("p");
    assert_eq!(
        logs,
        vec!["[12:00:00] [ERR] Failed to check process status: permission denied"]
    );
}

#[test]
fn stop_then_start_always_runs_with_a_reset_counter() {
    let mut mgr = ProcessManager::new();
    start_running(&mut mgr, "p", &["exit 1"], true);
    // build up some crash history
    for attempt in 1..=2 {
        let (d, _) = mgr.handle_poll("p", &PollOutcome::Exited(1), TS);
        assert!(matches!(d, MonitorDirective::Restart(_)));
        mgr.apply_respawn_success("p", 6000 + attempt, true, TS);
    }
    assert_eq!(mgr.get_restart_count("p"), 2);
    let (pid, evs) = mgr.stop_project("p");
    assert_eq!(pid, Some(6002));
    assert_eq!(mgr.get_status("p"), ProcessStatus::Stopped);
    assert_eq!(mgr.get_restart_count("p"), 0);
    match &evs[0] {
        Event::Status(p) => assert_eq!(p.status, "stopped"),
        _ => panic!("expected a status event"),
    }
    // an immediate start is accepted and runs with restart_count == 0
    start_running(&mut mgr, "p", &["exit 1"], true);
    assert_eq!(mgr.get_status("p"), ProcessStatus::Running);
    assert_eq!(mgr.get_restart_count("p"), 0);
}

#[test]
fn stop_is_idempotent() {
    let mut mgr = ProcessManager::new();
    let (pid, evs) = mgr.stop_project("ghost");
    assert_eq!(pid, None);
    assert!(evs.is_empty());
    start_running(&mut mgr, "p", &["run"], false);
    mgr.stop_project("p");
    let (pid, evs) = mgr.stop_project("p");
    assert_eq!(pid, None);
    assert_eq!(evs.len(), 1);
    assert_eq!(mgr.get_status("p"), ProcessStatus::Stopped);
}

#[test]
fn send_input_gate_demands_a_running_process() {
    let mut mgr = ProcessManager::new();
    match mgr.check_send_input("ghost") {
        Err(ProcError::NotFound) => {},
        _ => panic!("expected NotFound"),
    }
    assert_eq!(ProcError::NotFound.message(), "Project not found");
    start_running(&mut mgr, "p", &["run"], false);
    mgr.handle_poll("p", &PollOutcome::Exited(0), TS);
    let logs_before = mgr.get_logs("p");
    match mgr.check_send_input("p") {
        Err(ProcError::NotRunning) => {},
        _ => panic!("expected NotRunning"),
    }
    assert_eq!(ProcError::NotRunning.message(), "Process is not running");
    // the refused send produced no log line
    assert_eq!(mgr.get_logs("p"), logs_before);
}

#[test]
fn send_input_gate_demands_a_retained_stdin() {
    let mut mgr = ProcessManager::new();
    let commands = vec!["run".to_string()];
    mgr.start_project("p", "d", &commands, false).unwrap();
    mgr.apply_spawn_success("p", "d", &commands, false, 1, false);
    match mgr.check_send_input("p") {
        Err(ProcError::IoError(m)) => {
            assert_eq!(m, "No stdin handle available for this process")
        },
        _ => panic!("expected IoError"),
    }
    match mgr.check_send_interrupt("p") {
        Err(ProcError::IoError(m)) => assert_eq!(m, "No stdin handle available"),
        _ => panic!("expected IoError"),
    }
}

#[test]
fn input_echo_and_interrupt_are_logged() {
    let mut mgr = ProcessManager::new();
    start_running(&mut mgr, "p", &["run"], true);
    assert!(mgr.check_send_input("p").is_ok());
    let evs = mgr.log_input_echo("p", "ls -la", TS);
    match &evs[0] {
        Event::Log(l) => assert_eq!(l.log, "[12:00:00] > ls -la"),
        _ => panic!("expected a log event"),
    }
    assert!(mgr.check_send_interrupt("p").is_ok());
    let evs = mgr.log_interrupt("p", TS);
    match &evs[0] {
        Event::Log(l) => assert_eq!(l.log, "[12:00:00] ^C"),
        _ => panic!("expected a log event"),
    }
    assert_eq!(
        mgr.get_logs("p"),
        vec!["[12:00:00] > ls -la", "[12:00:00] ^C"]
    );
}

#[test]
fn output_lines_are_stamped_and_published() {
    let mut mgr = ProcessManager::new();
    start_running(&mut mgr, "p", &["echo hello"], false);
    let evs = mgr.record_output_line("p", "hello", TS);
    assert_eq!(evs.len(), 1);
    match &evs[0] {
        Event::Log(l) => {
            assert_eq!(l.project_id, "p");
            assert_eq!(l.log, "[12:00:00] hello");
        },
        _ => panic!("expected a log event"),
    }
    assert_eq!(evs[0].topic(), "process-log");
}

#[test]
fn echo_scenario_runs_stopped_running_stopped() {
    let mut mgr = ProcessManager::new();
    assert_eq!(mgr.get_status("P"), ProcessStatus::Stopped);
    start_running(&mut mgr, "P", &["echo hello"], false);
    assert_eq!(mgr.get_status("P"), ProcessStatus::Running);
    mgr.record_output_line("P", "hello", TS);
    let (d, _) = mgr.handle_poll("P", &PollOutcome::Exited(0), TS);
    assert!(matches!(d, MonitorDirective::Exit));
    assert_eq!(mgr.get_status("P"), ProcessStatus::Stopped);
    assert_eq!(
        mgr.get_logs("P"),
        vec!["[12:00:00] hello", "[12:00:00] Process exited normally"]
    );
}

#[test]
fn stamped_now_lines_carry_a_clock_prefix() {
    let mut mgr = ProcessManager::new();
    start_running(&mut mgr, "p", &["run"], false);
    let evs = mgr.record_output_line_now("p", "hello");
    let line = match &evs[0] {
        Event::Log(l) => l.log.clone(),
        _ => panic!("expected a log event"),
    };
    // "[HH:MM:SS] hello"
    assert_eq!(line.len(), "[] hello".len() + 8);
    assert!(line.starts_with('['));
    assert_eq!(&line[9..], "] hello");
    assert_eq!(line.as_bytes()[3], b':');
    assert_eq!(line.as_bytes()[6], b':');
}

#[test]
fn stop_all_stops_every_live_child_and_nothing_else() {
    let mut mgr = ProcessManager::new();
    start_running(&mut mgr, "a", &["run"], true);
    start_running(&mut mgr, "b", &["run"], true);
    start_running(&mut mgr, "c", &["run"], true);
    mgr.handle_poll("c", &PollOutcome::Exited(0), TS);  // c has no live child any more
    let (pids, evs, _) = mgr.stop_all();
    let mut pids = pids;
    pids.sort();
    assert_eq!(pids, vec![4242, 4242]);
    assert_eq!(evs.len(), 2);
    for ev in &evs {
        match ev {
            Event::Status(p) => {
                assert_eq!(p.status, "stopped");
                assert!(p.project_id == "a" || p.project_id == "b");
            },
            _ => panic!("expected status events only"),
        }
    }
    assert_eq!(mgr.get_status("a"), ProcessStatus::Stopped);
    assert_eq!(mgr.get_status("b"), ProcessStatus::Stopped);
    assert_eq!(mgr.get_status("c"), ProcessStatus::Stopped);
    // c kept its scrollback; stopping did not touch it
    assert!(mgr.get_logs("c").iter().any(|l| l.contains("exited normally")));
}

#[test]
fn clear_logs_empties_only_that_project() {
    let mut mgr = ProcessManager::new();
    start_running(&mut mgr, "a", &["run"], true);
    start_running(&mut mgr, "b", &["run"], true);
    mgr.record_output_line("a", "x", TS);
    mgr.record_output_line("b", "y", TS);
    mgr.clear_logs("a");
    assert!(mgr.get_logs("a").is_empty());
    assert_eq!(mgr.get_logs("b"), vec!["[12:00:00] y"]);
}

#[test]
fn launch_error_message_carries_the_cause() {
    let e = ProcError::LaunchError("no such file".to_string());
    assert_eq!(e.message(), "Failed to start process: no such file");
    let io = ProcError::IoError("Failed to write to stdin: broken pipe".to_string());
    assert_eq!(io.message(), "Failed to write to stdin: broken pipe");
}

#[test]
fn event_topics_match_their_kind() {
    let mut mgr = ProcessManager::new();
    start_running(&mut mgr, "p", &["exit 1"], true);
    let (_, evs) = mgr.handle_poll("p", &PollOutcome::Exited(1), TS);
    assert_eq!(evs[0].topic(), "process-crash");
    assert_eq!(evs[1].topic(), "process-status");
}

#[test]
fn stop_all_on_an_empty_registry_does_nothing() {
    let mut mgr = ProcessManager::new();
    let (pids, evs, _) = mgr.stop_all();
    assert!(pids.is_empty());
    assert!(evs.is_empty());
}

#[test]
fn default_manager_is_empty() {
    let mgr = ProcessManager::default();
    assert_eq!(mgr.get_status("any"), ProcessStatus::Stopped);
    assert!(mgr.get_logs("any").is_empty());
}

#[test]
fn is_running_follows_the_lifecycle() {
    let mut mgr = ProcessManager::new();
    assert!(!mgr.is_running("p"));
    start_running(&mut mgr, "p", &["run"], false);
    assert!(mgr.is_running("p"));
    mgr.stop_project("p");
    assert!(!mgr.is_running("p"));
}

#[test]
fn restart_keeps_the_scrollback() {
    let mut mgr = ProcessManager::new();
    start_running(&mut mgr, "p", &["run"], true);
    mgr.record_output_line("p", "before", TS);
    mgr.stop_project("p");
    start_running(&mut mgr, "p", &["run"], true);
    assert_eq!(mgr.get_logs("p"), vec!["[12:00:00] before"]);
}
