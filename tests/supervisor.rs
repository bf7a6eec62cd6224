use mineserver::config::ServerConfig;
use mineserver::usage::{server_usage, ProcSample};
use mineserver::supervisor::{
    command_line, crash_notice, graceful_stop_step, log_topic, restart_failure_notice,
    user_stop_notice, ExitProbe, MonitorState, ServerProcessState, StopStep, SupervisorError,
    MONITOR_POLL_SECS, RESTART_DELAY_SECS, STOP_GRACE_SECS, STOP_POLL_MILLIS,
};

fn config(id: &str, auto_restart: Option<bool>) -> ServerConfig {
    ServerConfig::new(
        id.to_string(),
        "/srv/servers/alpha".to_string(),
        "server.jar".to_string(),
        2048,
        None,
        None,
        auto_restart,
    )
}

fn started(id: &str, auto_restart: Option<bool>, handle: u32) -> ServerProcessState<u32> {
    let mut st: ServerProcessState<u32> = ServerProcessState::new();
    assert!(st.prepare_start(&config(id, auto_restart)).is_ok());
    assert!(st.register(id.to_string(), handle).is_none());
    st
}

#[test]
fn second_start_is_refused_and_first_handle_kept() {
    let mut st = started("alpha", None, 100);
    let again = st.prepare_start(&config("alpha", Some(true)));
    assert!(matches!(again, Err(SupervisorError::AlreadyRunning)));
    assert_eq!(st.handle(&"alpha".to_string()), Some(&100));
    assert_eq!(st.running_ids(), vec!["alpha".to_string()]);
    let kept = st.stored_config(&"alpha".to_string()).unwrap();
    assert!(!kept.auto_restart);
}

#[test]
fn register_hands_back_a_second_handle() {
    let mut st = started("alpha", None, 100);
    assert_eq!(st.register("alpha".to_string(), 200), Some(200));
    assert_eq!(st.handle(&"alpha".to_string()), Some(&100));
}

#[test]
fn stop_without_handle_is_refused_without_effect() {
    let mut st: ServerProcessState<u32> = ServerProcessState::new();
    let r = st.stop(&"ghost".to_string());
    assert!(matches!(r, Err(SupervisorError::NotRunning)));
    assert!(!st.explicit_stops.contains(&"ghost".to_string()));
    assert!(!st.is_running(&"ghost".to_string()));
    assert!(st.running_ids().is_empty());
}

#[test]
fn stop_removes_handle_and_monitor_does_not_restart() {
    let mut st = started("alpha", Some(true), 100);
    let h = st.stop(&"alpha".to_string());
    assert!(matches!(h, Ok(100)));
    assert!(!st.is_running(&"alpha".to_string()));
    assert!(st.explicit_stops.contains(&"alpha".to_string()));
    assert!(st.running_ids().is_empty());
    let seen = st.monitor_poll(&"alpha".to_string(), true);
    assert!(matches!(seen, MonitorState::Detached));
    assert!(seen.is_terminal());
}

#[test]
fn marked_exit_is_reported_as_user_stop() {
    let mut st = started("alpha", Some(true), 100);
    let _ = st.force_stop(&"alpha".to_string());
    assert!(st.register("alpha".to_string(), 101).is_none());
    let seen = st.monitor_poll(&"alpha".to_string(), true);
    assert!(matches!(seen, MonitorState::ExitedByUser));
    assert!(!st.is_running(&"alpha".to_string()));
    assert!(!st.explicit_stops.contains(&"alpha".to_string()));
}

#[test]
fn start_clears_stop_marker() {
    let mut st = started("alpha", None, 100);
    assert!(st.stop(&"alpha".to_string()).is_ok());
    assert!(st.explicit_stops.contains(&"alpha".to_string()));
    assert!(st.prepare_start(&config("alpha", None)).is_ok());
    assert!(!st.explicit_stops.contains(&"alpha".to_string()));
}

#[test]
fn auto_restart_cycle_leaves_exactly_one_handle() {
    let mut st = started("alpha", Some(true), 100);
    let _other = st.prepare_start(&config("beta", None));
    assert!(st.register("beta".to_string(), 300).is_none());
    assert!(matches!(st.monitor_poll(&"alpha".to_string(), false), MonitorState::Running));
    let seen = st.monitor_poll(&"alpha".to_string(), true);
    match &seen {
        MonitorState::Restarting(c) => {
            assert_eq!(c.id, "alpha");
            assert!(c.auto_restart);
            assert_eq!(c.ram, 2048);
        }
        _ => panic!("expected a restart"),
    }
    assert!(!seen.is_terminal());
    assert!(!st.is_running(&"alpha".to_string()));
    let (next, back) = st.respawned("alpha".to_string(), Ok(101));
    assert!(matches!(next, MonitorState::Running));
    assert!(back.is_none());
    assert_eq!(st.handle(&"alpha".to_string()), Some(&101));
    assert_eq!(st.handle(&"beta".to_string()), Some(&300));
    let ids = st.running_ids();
    assert_eq!(ids.iter().filter(|i| i.as_str() == "alpha").count(), 1);
    assert_eq!(ids.len(), 2);
    assert_eq!(RESTART_DELAY_SECS, 3);
    assert_eq!(crash_notice("alpha"), "Server alpha crashed/stopped. Auto-restarting in 3s...");
}

#[test]
fn restart_is_abandoned_when_another_start_won() {
    let mut st = started("alpha", Some(true), 100);
    let _ = st.monitor_poll(&"alpha".to_string(), true);
    assert!(st.register("alpha".to_string(), 500).is_none());
    let (next, back) = st.respawned("alpha".to_string(), Ok(101));
    assert!(matches!(next, MonitorState::Detached));
    assert_eq!(back, Some(101));
    assert_eq!(st.handle(&"alpha".to_string()), Some(&500));
}

#[test]
fn failed_respawn_ends_the_monitor() {
    let mut st = started("alpha", Some(true), 100);
    let _ = st.monitor_poll(&"alpha".to_string(), true);
    let (next, back) = st.respawned("alpha".to_string(), Err("no java".to_string()));
    assert!(back.is_none());
    assert!(next.is_terminal());
    match next {
        MonitorState::RestartFailed(e) => {
            assert_eq!(restart_failure_notice(&e), "Failed to auto-restart: no java")
        }
        _ => panic!("expected a failure"),
    }
    assert!(!st.is_running(&"alpha".to_string()));
}

#[test]
fn exit_without_auto_restart_is_final() {
    let mut st = started("alpha", Some(false), 100);
    let seen = st.monitor_poll(&"alpha".to_string(), true);
    assert!(matches!(seen, MonitorState::ExitedNoRestart));
    assert!(seen.is_terminal());
    assert!(!st.is_running(&"alpha".to_string()));
    for _ in 0..3 {
        assert!(matches!(st.monitor_poll(&"alpha".to_string(), true), MonitorState::Detached));
    }
    assert!(st.running_ids().is_empty());
}

#[test]
fn exit_without_stored_config_is_final() {
    let mut st: ServerProcessState<u32> = ServerProcessState::new();
    assert!(st.register("alpha".to_string(), 7).is_none());
    assert!(matches!(st.monitor_poll(&"alpha".to_string(), true), MonitorState::ExitedNoRestart));
}

#[test]
fn auto_restart_defaults_to_off() {
    assert!(!config("a", None).auto_restart);
    assert!(!config("a", Some(false)).auto_restart);
    assert!(config("a", Some(true)).auto_restart);
    let c = config("a", Some(true));
    let d = c.duplicate();
    assert_eq!(d.id, c.id);
    assert_eq!(d.path, c.path);
    assert_eq!(d.jar_file, c.jar_file);
}

#[test]
fn scheduler_stop_marks_even_without_handle() {
    let mut st: ServerProcessState<u32> = ServerProcessState::new();
    assert_eq!(st.force_stop(&"alpha".to_string()), None);
    assert!(st.explicit_stops.contains(&"alpha".to_string()));
    let mut st2 = started("beta", None, 9);
    assert_eq!(st2.force_stop(&"beta".to_string()), Some(9));
    assert!(!st2.is_running(&"beta".to_string()));
}

#[test]
fn graceful_stop_steps() {
    match graceful_stop_step(ExitProbe::Exited, 0) {
        StopStep::Finished(m) => assert_eq!(m, "Server stopped gracefully"),
        _ => panic!(),
    }
    assert!(matches!(graceful_stop_step(ExitProbe::StillRunning, 10), StopStep::Wait));
    match graceful_stop_step(ExitProbe::StillRunning, 11) {
        StopStep::Kill(m) => assert_eq!(m, "Server stopped (Forced)"),
        _ => panic!(),
    }
    match graceful_stop_step(ExitProbe::Failed, 3) {
        StopStep::Kill(m) => assert_eq!(m, "Server stopped"),
        _ => panic!(),
    }
    assert_eq!(STOP_GRACE_SECS, 10);
    assert_eq!(STOP_POLL_MILLIS, 500);
    assert_eq!(MONITOR_POLL_SECS, 2);
}

#[test]
fn event_texts() {
    assert_eq!(log_topic("alpha"), "server-log:alpha");
    assert_eq!(user_stop_notice("alpha"), "Server alpha stopped (User Initiated).");
    assert_eq!(command_line("say hi"), "say hi\n");
}

#[test]
fn error_messages() {
    assert_eq!(SupervisorError::AlreadyRunning.message(), "Server is already running");
    assert_eq!(SupervisorError::NotRunning.message(), "Server not running");
    assert_eq!(SupervisorError::Spawn("boom".to_string()).message(), "boom");
    assert_eq!(SupervisorError::Io("pipe".to_string()).message(), "pipe");
    assert_eq!(SupervisorError::Persistence("disk".to_string()).message(), "disk");
    assert_eq!(SupervisorError::Lock("poisoned".to_string()).message(), "poisoned");
    assert_eq!(SupervisorError::Configuration("dir".to_string()).message(), "dir");
}

#[test]
fn usage_drops_to_zero_when_server_leaves_registry() {
    let samples = vec![
        ProcSample { pid: 40, parent: Some(1), memory: 700 },
        ProcSample { pid: 41, parent: Some(40), memory: 300 },
    ];
    let mut st: ServerProcessState<(u32, ())> = ServerProcessState::new();
    assert!(st.prepare_start(&config("alpha", None)).is_ok());
    assert!(st.register("alpha".to_string(), (40, ())).is_none());
    let live = server_usage(&st, &"alpha".to_string(), &samples);
    assert_eq!(live.ram, 1000);
    assert_eq!(live.members, vec![0, 1]);
    assert!(st.stop(&"alpha".to_string()).is_ok());
    let gone = server_usage(&st, &"alpha".to_string(), &samples);
    assert_eq!(gone.ram, 0);
    assert!(gone.members.is_empty());
}
