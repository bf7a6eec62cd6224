use mineserver::scheduler::{
    cron_field_matches, is_time_to_run, parse_u32, plan_tick, scheduler_tick, ran_recently, task_action,
    task_fires, within_guard, LocalTime, ScheduledTask, SchedulerState, TaskAction,
    RERUN_GUARD_SECS, TICK_SECS,
};

const BASE: i64 = 1_700_000_000;

fn at(hour: u32, minute: u32, unix_secs: i64, stamp: &str) -> LocalTime {
    LocalTime { unix_secs, nanos: 0, hour, minute, stamp: stamp.to_string() }
}

fn task(kind: &str, cron: &str) -> ScheduledTask {
    ScheduledTask {
        id: "t1".to_string(),
        name: "Nightly".to_string(),
        task_type: kind.to_string(),
        server_id: "alpha".to_string(),
        server_name: "Alpha".to_string(),
        server_path: "/srv/servers/alpha".to_string(),
        cron_expression: cron.to_string(),
        enabled: true,
        last_run: None,
        command: Some("say hello".to_string()),
    }
}

#[test]
fn fires_at_its_minute_only() {
    let t = task("backup", "30 14 * * *");
    assert!(task_fires(&t, &at(14, 30, BASE, "2023-11-14T22:13:20+00:00")));
    assert!(!task_fires(&t, &at(14, 29, BASE, "2023-11-14T22:13:20+00:00")));
    assert!(!task_fires(&t, &at(14, 31, BASE, "2023-11-14T22:13:20+00:00")));
    assert!(!task_fires(&t, &at(15, 30, BASE, "2023-11-14T22:13:20+00:00")));
}

#[test]
fn does_not_refire_within_guard() {
    let mut tasks = vec![task("backup", "30 14 * * *")];
    let first = at(14, 30, BASE, "2023-11-14T22:13:20+00:00");
    let actions = plan_tick(&mut tasks, &first);
    assert_eq!(actions.len(), 1);
    assert_eq!(tasks[0].last_run.as_deref(), Some("2023-11-14T22:13:20+00:00"));
    let soon = at(14, 30, BASE + 30, "2023-11-14T22:13:50+00:00");
    let again = plan_tick(&mut tasks, &soon);
    assert!(again.is_empty());
    assert_eq!(tasks[0].last_run.as_deref(), Some("2023-11-14T22:13:20+00:00"));
    let next_day = at(14, 30, BASE + 86_400, "2023-11-15T22:13:20+00:00");
    let later = plan_tick(&mut tasks, &next_day);
    assert_eq!(later.len(), 1);
    assert_eq!(tasks[0].last_run.as_deref(), Some("2023-11-15T22:13:20+00:00"));
}

#[test]
fn guard_boundary_is_ninety_seconds() {
    let now = at(0, 0, BASE + 90, "x");
    assert!(!within_guard(&now, (BASE, 0)));
    assert!(within_guard(&now, (BASE, 1)));
    let close = LocalTime { unix_secs: BASE + 89, nanos: 999_999_999, hour: 0, minute: 0, stamp: String::new() };
    assert!(within_guard(&close, (BASE, 0)));
    assert!(within_guard(&now, (BASE + 1000, 0)));
    assert_eq!(RERUN_GUARD_SECS, 90);
    assert_eq!(TICK_SECS, 60);
}

#[test]
fn last_run_is_read_as_rfc3339() {
    let now = at(14, 30, BASE + 60, "x");
    assert!(ran_recently(&Some("2023-11-14T22:13:20+00:00".to_string()), &now));
    assert!(ran_recently(&Some("2023-11-14T23:13:20+01:00".to_string()), &now));
    assert!(!ran_recently(&Some("2023-11-14T22:11:50+00:00".to_string()), &now));
    assert!(!ran_recently(&Some("yesterday".to_string()), &now));
    assert!(!ran_recently(&None, &now));
}

#[test]
fn round_trip_changes_only_last_run() {
    let mut tasks = vec![task("restart", "0 3 * * *"), task("command", "30 14 * * 1")];
    tasks[1].id = "t2".to_string();
    let before = tasks.clone();
    let actions = plan_tick(&mut tasks, &at(14, 30, BASE, "2023-11-14T22:13:20+00:00"));
    assert_eq!(actions.len(), 1);
    for (a, b) in before.iter().zip(tasks.iter()) {
        assert_eq!(a.id, b.id);
        assert_eq!(a.name, b.name);
        assert_eq!(a.task_type, b.task_type);
        assert_eq!(a.server_id, b.server_id);
        assert_eq!(a.server_name, b.server_name);
        assert_eq!(a.server_path, b.server_path);
        assert_eq!(a.cron_expression, b.cron_expression);
        assert_eq!(a.enabled, b.enabled);
        assert_eq!(a.command, b.command);
    }
    assert_eq!(tasks[0].last_run, None);
    assert_eq!(tasks[1].last_run.as_deref(), Some("2023-11-14T22:13:20+00:00"));
}

#[test]
fn disabled_tasks_never_fire() {
    let mut t = task("backup", "* * * * *");
    t.enabled = false;
    let mut tasks = vec![t];
    assert!(plan_tick(&mut tasks, &at(1, 2, BASE, "s")).is_empty());
    assert_eq!(tasks[0].last_run, None);
}

#[test]
fn actions_follow_list_order_and_kind() {
    let mut tasks = vec![
        task("backup", "* * * * *"),
        task("restart", "* * * * *"),
        task("command", "* * * * *"),
        task("defrag", "* * * * *"),
    ];
    let acts = plan_tick(&mut tasks, &at(9, 15, BASE, "s"));
    assert_eq!(acts.len(), 4);
    match &acts[0] {
        TaskAction::Backup { server_path, server_name } => {
            assert_eq!(server_path, "/srv/servers/alpha");
            assert_eq!(server_name, "Alpha");
        }
        _ => panic!(),
    }
    assert!(matches!(&acts[1], TaskAction::Restart { server_id, .. } if server_id == "alpha"));
    assert!(matches!(&acts[2], TaskAction::Command { command, .. } if command == "say hello"));
    assert!(matches!(&acts[3], TaskAction::Nothing));
    let mut silent = task("command", "* * * * *");
    silent.command = None;
    assert!(matches!(task_action(&silent), TaskAction::Nothing));
}

#[test]
fn cron_needs_five_fields() {
    let now = at(14, 30, BASE, "s");
    assert!(is_time_to_run("30 14 * * *", &now));
    assert!(is_time_to_run("  30\t14  *  *  * ", &now));
    assert!(!is_time_to_run("30 14 * *", &now));
    assert!(!is_time_to_run("30 14 * * * *", &now));
    assert!(!is_time_to_run("", &now));
    assert!(is_time_to_run("30 14 1 1 0", &now));
    assert!(!is_time_to_run("*/5 14 * * *", &now));
}

#[test]
fn cron_fields_parse_like_u32() {
    assert!(cron_field_matches("*", 7));
    assert!(cron_field_matches("07", 7));
    assert!(cron_field_matches("+7", 7));
    assert!(!cron_field_matches("8", 7));
    assert!(!cron_field_matches("**", 7));
    assert_eq!(parse_u32("4294967295"), Some(4294967295));
    assert_eq!(parse_u32("4294967296"), None);
    assert_eq!(parse_u32(""), None);
    assert_eq!(parse_u32("+"), None);
    assert_eq!(parse_u32("-1"), None);
    assert_eq!(parse_u32("1a"), None);
    assert_eq!(parse_u32("0"), Some(0));
}

#[test]
fn scheduler_loop_starts_once() {
    let mut s = SchedulerState::new();
    assert!(!s.running);
    assert!(s.try_begin());
    assert!(!s.try_begin());
    assert!(s.running);
}

#[test]
fn tick_at_current_time_stamps_and_guards() {
    let mut tasks = vec![task("backup", "* * * * *")];
    let (first, now) = scheduler_tick(&mut tasks);
    assert_eq!(first.len(), 1);
    assert!(now.hour < 24 && now.minute < 60);
    assert!(now.unix_secs > BASE);
    assert_eq!(tasks[0].last_run.as_deref(), Some(now.stamp.as_str()));
    assert!(ran_recently(&tasks[0].last_run, &now));
    let (second, _) = scheduler_tick(&mut tasks);
    assert!(second.is_empty());
}

#[test]
fn drifting_ticks_in_one_minute_fire_once() {
    let mut tasks = vec![task("command", "30 14 * * *")];
    let early = at(14, 30, BASE, "2023-11-14T22:13:20+00:00");
    assert_eq!(plan_tick(&mut tasks, &early).len(), 1);
    let late = at(14, 30, BASE + 59, "2023-11-14T22:14:19+00:00");
    assert!(plan_tick(&mut tasks, &late).is_empty());
    let clock_back = at(14, 30, BASE - 3600, "2023-11-14T21:13:20+00:00");
    assert!(plan_tick(&mut tasks, &clock_back).is_empty());
    assert_eq!(tasks[0].last_run.as_deref(), Some("2023-11-14T22:13:20+00:00"));
}
