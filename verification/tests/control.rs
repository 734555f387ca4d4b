use watchdog::pskill::{killall, matching_pids, ProcessRecord, SignalKind};
use watchdog::text::{find_char, split_char, str_eq, trim};
use watchdog::watchdog::{
    exit_code, ExitReason, Phase, TickDirective, TickReport, Watchdog,
};

fn record(pid: i32, exe: Option<&str>) -> ProcessRecord {
    ProcessRecord {
        pid,
        exe: exe.map(String::from),
    }
}

#[test]
fn matching_selects_all_sharing_the_target_and_zero_others() {
    let table = vec![
        record(10, Some("/usr/bin/worker")),
        record(11, Some("/usr/bin/other")),
        record(12, Some("/usr/bin/worker")),
        record(13, None),
        record(14, Some("/usr/bin/worker")),
    ];
    assert_eq!(matching_pids(&table, "/usr/bin/worker"), vec![10, 12, 14]);
}

#[test]
fn matching_none_is_empty() {
    let table = vec![record(10, Some("/usr/bin/other")), record(11, None)];
    assert_eq!(matching_pids(&table, "/usr/bin/worker"), Vec::<i32>::new());
}

#[test]
fn killall_is_a_no_op_for_an_unresolvable_target() {
    // returns normally: nothing to match, no error escapes
    killall("/definitely/not/a/real/binary/path", SignalKind::Term);
}

#[test]
fn exit_codes_are_fixed() {
    assert_eq!(exit_code(ExitReason::VolumeExhausted), 138);
    assert_eq!(exit_code(ExitReason::TerminationRequested), 130);
    assert_eq!(exit_code(ExitReason::InternalError), -1);
}

fn healthy_tick() -> TickReport {
    TickReport {
        volume_free_mb: Some(500),
        memory_mb: Some(512),
        publish_ok: true,
        termination_requested: false,
    }
}

#[test]
fn loop_keeps_polling_while_healthy() {
    let mut wd = Watchdog::new(100);
    assert_eq!(wd.phase, Phase::Initializing);
    wd.initialization_complete(true);
    assert_eq!(wd.phase, Phase::Polling);
    let directive = wd.on_tick(&healthy_tick());
    assert_eq!(directive, TickDirective::Sleep);
    assert_eq!(wd.phase, Phase::Polling);
    assert_eq!(wd.exit_reason, None);
}

#[test]
fn volume_floor_breach_exits_with_138() {
    let mut wd = Watchdog::new(100);
    wd.initialization_complete(true);
    let report = TickReport {
        volume_free_mb: Some(99),
        ..healthy_tick()
    };
    let directive = wd.on_tick(&report);
    assert_eq!(directive, TickDirective::BeginShutdown);
    assert_eq!(wd.phase, Phase::ShuttingDown);
    assert_eq!(wd.exit_reason, Some(ExitReason::VolumeExhausted));
    wd.shutdown_complete();
    assert_eq!(wd.phase, Phase::Terminated);
    assert_eq!(wd.exit_status(), 138);
}

#[test]
fn free_exactly_at_the_floor_keeps_polling() {
    let mut wd = Watchdog::new(100);
    wd.initialization_complete(true);
    let report = TickReport {
        volume_free_mb: Some(100),
        ..healthy_tick()
    };
    assert_eq!(wd.on_tick(&report), TickDirective::Sleep);
}

#[test]
fn termination_request_exits_with_130() {
    let mut wd = Watchdog::new(100);
    wd.initialization_complete(true);
    let report = TickReport {
        termination_requested: true,
        ..healthy_tick()
    };
    let directive = wd.on_tick(&report);
    assert_eq!(directive, TickDirective::BeginShutdown);
    assert_eq!(wd.exit_reason, Some(ExitReason::TerminationRequested));
    wd.shutdown_complete();
    assert_eq!(wd.exit_status(), 130);
}

#[test]
fn volume_floor_outranks_termination_request() {
    let mut wd = Watchdog::new(100);
    wd.initialization_complete(true);
    let report = TickReport {
        volume_free_mb: Some(0),
        termination_requested: true,
        ..healthy_tick()
    };
    wd.on_tick(&report);
    assert_eq!(wd.exit_reason, Some(ExitReason::VolumeExhausted));
}

#[test]
fn query_or_publish_failure_is_an_internal_error() {
    for report in [
        TickReport {
            volume_free_mb: None,
            ..healthy_tick()
        },
        TickReport {
            memory_mb: None,
            ..healthy_tick()
        },
        TickReport {
            publish_ok: false,
            ..healthy_tick()
        },
    ] {
        let mut wd = Watchdog::new(100);
        wd.initialization_complete(true);
        assert_eq!(wd.on_tick(&report), TickDirective::BeginShutdown);
        assert_eq!(wd.exit_reason, Some(ExitReason::InternalError));
        wd.shutdown_complete();
        assert_eq!(wd.exit_status(), -1);
    }
}

#[test]
fn startup_failure_terminates_without_shutdown_sequence() {
    let mut wd = Watchdog::new(100);
    wd.initialization_complete(false);
    assert_eq!(wd.phase, Phase::Terminated);
    assert_eq!(wd.exit_reason, Some(ExitReason::InternalError));
    assert_eq!(wd.exit_status(), -1);
}

#[test]
fn text_trim_removes_surrounding_whitespace() {
    assert_eq!(trim("  12\n"), "12");
    assert_eq!(trim("\t\r\n "), "");
    assert_eq!(trim("a b"), "a b");
}

#[test]
fn text_split_keeps_empty_pieces() {
    assert_eq!(split_char("a\nb\nc", '\n'), vec!["a", "b", "c"]);
    assert_eq!(split_char("", '\n'), vec![""]);
    assert_eq!(split_char("a\n\nb", '\n'), vec!["a", "", "b"]);
}

#[test]
fn text_find_first_occurrence() {
    assert_eq!(find_char("key value pair", ' '), Some(3));
    assert_eq!(find_char("nospace", ' '), None);
}

#[test]
fn text_str_eq_is_exact() {
    assert!(str_eq("abc", "abc"));
    assert!(!str_eq("abc", "abd"));
    assert!(!str_eq("abc", "ab"));
}
