use never_sleep::foreground::{first_step, next_step, FgStep};
use never_sleep::protocol::IpcResponse;
use never_sleep::report::status_report;
use never_sleep::JsonStatus;
use never_sleep::clock::base_snapshot;
use never_sleep::foreground::{handoff_request, parse_optional_duration};
use never_sleep::protocol::IpcRequest;
use never_sleep::{AppConfig, DurationPref, Engine, HostSnapshot, Input, Lang, Thermal};

#[test]
fn parse_optional_duration_passthrough() {
    assert_eq!(parse_optional_duration(None, Lang::En).unwrap(), None);
    assert_eq!(
        parse_optional_duration(Some("2h"), Lang::En).unwrap(),
        Some(DurationPref::Hours { hours: 2 })
    );
    assert!(parse_optional_duration(Some("0h"), Lang::En).is_err());
}

#[test]
fn handoff_request_sends_remaining_secs_not_full_pref() {
    let mut engine = Engine::new(AppConfig {
        duration: DurationPref::Hours { hours: 8 },
        display_off_delay_ms: 1_500,
        ..AppConfig::default()
    });
    let host = HostSnapshot {
        monotonic_ms: 0,
        continuous_ms: 0,
        unix_secs: 1_700_000_000,
        utc_offset_secs: 0,
        on_ac: true,
        battery_percent: Some(80),
        lid_closed: false,
        display_asleep: Some(false),
        hid_idle_ms: 60_000,
        thermal: Thermal::Nominal,
    };
    engine.handle(Input::StartWith(DurationPref::Hours { hours: 8 }), &host);
    let mut later = host.clone();
    later.monotonic_ms = 7 * 3_600_000;
    later.continuous_ms = 7 * 3_600_000;
    later.unix_secs = host.unix_secs;
    let req = handoff_request(&engine, &later);
    match req {
        IpcRequest::On {
            duration,
            remaining_secs,
            elapsed_secs,
            handoff,
            ..
        } => {
            assert_eq!(duration.as_deref(), Some("8h"));
            assert_eq!(remaining_secs, Some(3600));
            assert_eq!(elapsed_secs, Some(7 * 3600));
            assert!(handoff);
        }
        other => panic!("expected On handoff, got {other:?}"),
    }
}

#[test]
fn base_snapshot_includes_continuous_ms() {
    let snap = base_snapshot(1_234, 1_240);
    assert_eq!(snap.monotonic_ms, 1_234);
    assert!(snap.continuous_ms.abs_diff(snap.monotonic_ms) < 50);
    assert!(snap.on_ac);
    assert_eq!(snap.thermal, Thermal::Nominal);
    assert!(snap.utc_offset_secs.abs() < 86_400);
}

#[test]
fn foreground_loop_steps() {
    assert_eq!(first_step(false), None);
    assert_eq!(first_step(true), Some(FgStep::PollCommands));
    assert_eq!(next_step(FgStep::PollCommands, true, true, false), FgStep::PingMenu);
    assert_eq!(next_step(FgStep::PollCommands, true, false, false), FgStep::Finish);
    assert_eq!(next_step(FgStep::PingMenu, true, true, false), FgStep::Tick);
    assert_eq!(next_step(FgStep::PingMenu, true, true, true), FgStep::Quiesce);
    assert_eq!(next_step(FgStep::Quiesce, true, true, true), FgStep::SendHandoff);
    assert_eq!(next_step(FgStep::Quiesce, true, false, true), FgStep::Finish);
    assert_eq!(next_step(FgStep::SendHandoff, true, true, true), FgStep::Handover);
    assert_eq!(next_step(FgStep::SendHandoff, true, true, false), FgStep::Resume);
    assert_eq!(next_step(FgStep::Resume, true, true, false), FgStep::Tick);
    assert_eq!(next_step(FgStep::Tick, true, true, false), FgStep::Sleep);
    assert_eq!(next_step(FgStep::Tick, true, false, false), FgStep::Finish);
    assert_eq!(next_step(FgStep::Sleep, true, true, false), FgStep::PollCommands);
    assert_eq!(next_step(FgStep::Sleep, false, true, false), FgStep::Finish);
}

#[test]
fn status_report_prints_the_answer() {
    let mut st = JsonStatus {
        active: true,
        display: "asleep".into(),
        lid: "closed".into(),
        on_ac: false,
        battery: Some(64),
        remaining_secs: None,
        user_present: false,
        elapsed_secs: Some(3),
        stop_reason: None,
        stop_reason_code: None,
        screen_off_enabled: true,
        lid_awake_enabled: true,
    };
    let r = status_report(&IpcResponse::ok_status(st.clone()), Lang::En);
    assert!(!r.failed);
    assert_eq!(r.out, vec!["Standby · display asleep · Lid closed · Battery · battery 64%".to_string()]);
    st.active = false;
    st.stop_reason = Some("ended".into());
    let r = status_report(&IpcResponse::ok_status(st.clone()), Lang::En);
    assert_eq!(r.out, vec!["Not in standby.".to_string(), "ended".to_string()]);
    st.stop_reason = Some("已由你结束".into());
    st.stop_reason_code = Some("user".into());
    let r = status_report(&IpcResponse::ok_status(st.clone()), Lang::En);
    assert_eq!(r.out, vec!["Not in standby.".to_string(), "Ended by you".to_string()]);
    st.stop_reason_code = Some("unknown_code".into());
    let r = status_report(&IpcResponse::ok_status(st), Lang::En);
    assert_eq!(r.out, vec!["Not in standby.".to_string(), "已由你结束".to_string()]);
    let r = status_report(&IpcResponse::err("boom"), Lang::Zh);
    assert!(r.failed);
    assert_eq!(r.err.as_deref(), Some("boom"));
    assert!(r.out.is_empty());
}
