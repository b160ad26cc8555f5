use never_sleep::persist::should_persist_config;
use never_sleep::protocol::{
    donor_should_flush_offline_after_ack, donor_should_stop, donor_should_stop_after_successor_gone,
    duration_pref_to_ipc, format_handoff_ack, format_handoff_id, handoff_ack_reporter,
    menu_accepted_handoff, menu_already_processed_handoff, menu_confirms_prior_handoff,
    parse_handoff_ack, parse_on_duration_in, should_persist_handoff_ack,
    should_reject_adopt_if_ack_unpersisted, should_reject_stop_if_ack_unpersisted,
    should_skip_handoff_drain_after_ack_failure, should_stop_donor_after_ended_prior_handoff,
    human_ipc_error, HandoffAck, HandoffAckOutcome, IpcRequest, IpcResponse,
};
use never_sleep::{parse_duration_pref, DurationPref, JsonStatus, Lang, Tr};

fn sample_status() -> JsonStatus {
    JsonStatus {
        active: true,
        display: "asleep".into(),
        lid: "open".into(),
        on_ac: true,
        battery: Some(80),
        remaining_secs: Some(3600),
        user_present: false,
        elapsed_secs: Some(12),
        stop_reason: None,
        stop_reason_code: None,
        screen_off_enabled: true,
        lid_awake_enabled: true,
    }
}

#[test]
fn parse_on_duration_none_and_hours() {
    assert_eq!(parse_on_duration_in(None, Lang::En).unwrap(), None);
    assert_eq!(
        parse_on_duration_in(Some("3h"), Lang::En).unwrap(),
        Some(DurationPref::Hours { hours: 3 })
    );
    let err = parse_on_duration_in(Some("nope"), Lang::Zh).unwrap_err();
    assert!(err.contains("HH:MM"), "{err}");
    assert_ne!(err, parse_on_duration_in(Some("nope"), Lang::En).unwrap_err());
    assert_eq!(duration_pref_to_ipc(DurationPref::Indefinite), "indefinite");
    assert_eq!(duration_pref_to_ipc(DurationPref::Hours { hours: 8 }), "8h");
    assert_eq!(
        duration_pref_to_ipc(DurationPref::UntilLocal { hour: 8, minute: 0 }),
        "until=08:00"
    );
}

#[test]
fn ipc_spelling_reads_back_as_the_same_duration() {
    for pref in [
        DurationPref::Indefinite,
        DurationPref::Hours { hours: 1 },
        DurationPref::Hours { hours: 4294967295 },
        DurationPref::UntilLocal { hour: 0, minute: 0 },
        DurationPref::UntilLocal { hour: 23, minute: 59 },
        DurationPref::UntilLocal { hour: 9, minute: 5 },
    ] {
        let text = duration_pref_to_ipc(pref);
        assert_eq!(parse_duration_pref(&text), Ok(pref), "{text}");
    }
}

#[test]
fn handoff_requests_and_replies() {
    let req = IpcRequest::handoff(Some("8h".into()), Some(3600), Some(7 * 3600));
    assert!(req.is_handoff());
    assert!(!IpcRequest::on(Some("8h".into())).is_handoff());
    assert!(!IpcRequest::Ping.is_handoff());
    let with_ids = IpcRequest::handoff(Some("8h".into()), Some(3600), Some(7 * 3600))
        .with_applied_command_ids(vec!["phone-on".into()]);
    assert_eq!(with_ids.applied_command_ids(), ["phone-on"]);
    assert!(IpcRequest::Off.applied_command_ids().is_empty());
    let with_id = IpcRequest::handoff(Some("8h".into()), Some(3600), Some(7 * 3600)).with_handoff_id("h1");
    assert_eq!(with_id.handoff_id(), Some("h1"));
    assert_eq!(IpcRequest::Toggle.with_handoff_id("h1"), IpcRequest::Toggle);
    assert_eq!(IpcRequest::on(None).handoff_id(), None);

    let mut accepted = sample_status();
    accepted.active = true;
    assert!(
        !menu_accepted_handoff(&IpcResponse::ok_status(accepted.clone())),
        "an already-active menu must not count as this handoff"
    );
    assert!(menu_accepted_handoff(&IpcResponse::ok_adopted(accepted.clone())));
    accepted.active = false;
    assert!(!menu_accepted_handoff(&IpcResponse::ok_adopted(accepted.clone())));
    assert!(!menu_accepted_handoff(&IpcResponse::err("denied")));
    assert!(!menu_accepted_handoff(&IpcResponse::pong()));
    let mut stop = IpcResponse::ok_status(accepted.clone());
    stop.stop_donor = true;
    assert!(donor_should_stop(&stop));
    assert!(!donor_should_stop(&IpcResponse::ok_adopted(sample_status())));

    assert!(menu_confirms_prior_handoff(true, true, Some("h1"), Some("h1")));
    assert!(!menu_confirms_prior_handoff(true, true, Some("h1"), Some("h2")));
    assert!(!menu_confirms_prior_handoff(true, false, Some("h1"), Some("h1")));
    assert!(!menu_confirms_prior_handoff(true, true, None, Some("h1")));
    assert!(menu_already_processed_handoff(true, Some("h1"), Some("h1")));
    assert!(!menu_already_processed_handoff(true, Some("h1"), Some("h2")));
    assert!(!menu_already_processed_handoff(true, Some(""), Some("")));
    assert!(!menu_already_processed_handoff(false, Some("h1"), Some("h1")));
    assert!(should_stop_donor_after_ended_prior_handoff(true, false));
    assert!(!should_stop_donor_after_ended_prior_handoff(true, true));
    assert!(!should_stop_donor_after_ended_prior_handoff(false, false));
}

#[test]
fn handoff_ids_and_acks() {
    assert_eq!(format_handoff_id(11, Some(100), 1), "11-100-1");
    assert_eq!(format_handoff_id(11, None, 4), "11-4-4");
    assert_ne!(format_handoff_id(11, Some(100), 1), format_handoff_id(11, Some(200), 1));
    assert!(donor_should_stop_after_successor_gone(Some("h1"), true, Some("h1")));
    assert!(donor_should_stop_after_successor_gone(Some("h1"), false, Some("h1")));
    assert!(!donor_should_stop_after_successor_gone(Some("h1"), false, Some("h2")));
    assert!(!donor_should_stop_after_successor_gone(None, false, Some("h1")));
    assert!(!donor_should_stop_after_successor_gone(Some(""), false, Some("")));
    assert!(donor_should_flush_offline_after_ack(false));
    assert!(!donor_should_flush_offline_after_ack(true));
    assert!(handoff_ack_reporter(true));
    assert!(!handoff_ack_reporter(false));
    assert!(should_reject_adopt_if_ack_unpersisted(true, true, false));
    assert!(!should_reject_adopt_if_ack_unpersisted(true, false, false));
    assert!(!should_reject_adopt_if_ack_unpersisted(true, true, true));
    assert!(!should_reject_adopt_if_ack_unpersisted(false, true, false));
    assert!(should_reject_stop_if_ack_unpersisted(true, false));
    assert!(!should_reject_stop_if_ack_unpersisted(true, true));
    assert!(!should_reject_stop_if_ack_unpersisted(false, false));
    assert!(should_skip_handoff_drain_after_ack_failure(true));
    assert!(!should_skip_handoff_drain_after_ack_failure(false));
    assert!(should_persist_handoff_ack(true, true, false));
    assert!(should_persist_handoff_ack(true, false, true));
    assert!(!should_persist_handoff_ack(true, false, false));
    assert!(!should_persist_handoff_ack(false, true, false));
    let ack = format_handoff_ack("11-100-1", HandoffAckOutcome::Adopted, true);
    assert_eq!(ack, "handoff_id=11-100-1\noutcome=adopted\nreporter=1\n");
    assert_eq!(
        parse_handoff_ack(&ack),
        Some(HandoffAck {
            id: "11-100-1".into(),
            outcome: HandoffAckOutcome::Adopted,
            reporter: true,
        })
    );
    assert_eq!(
        parse_handoff_ack(&format_handoff_ack("h1", HandoffAckOutcome::Stop, false)).map(|a| a.outcome),
        Some(HandoffAckOutcome::Stop)
    );
    assert_eq!(
        parse_handoff_ack("handoff_id=h1\noutcome=adopted\n").map(|a| a.reporter),
        Some(false),
        "an older ack without reporter= must flush rather than assume a live successor reporter"
    );
    assert_eq!(parse_handoff_ack("outcome=adopted\n"), None);
    assert_eq!(parse_handoff_ack("handoff_id=h1\noutcome=maybe\n"), None);
    assert_eq!(
        parse_handoff_ack("handoff_id= h2 \nhandoff_id=  \noutcome=stop\r\n").map(|a| a.id),
        Some("h2".to_string())
    );
}

#[test]
fn response_helpers_roundtrip() {
    let ok = IpcResponse::ok_status(sample_status());
    assert!(ok.ok);
    assert_eq!(ok.status.as_ref().unwrap().display, "asleep");
    let err = IpcResponse::err("boom");
    assert!(!err.ok);
    assert_eq!(err.error.as_deref(), Some("boom"));
    let pong = IpcResponse::pong();
    assert_eq!(pong.pong, Some(true));
    let pair = IpcResponse::ok_pairing(
        "AB7K-2Q9M".into(),
        "https://xyz-ai.app/never-sleep/board/?code=AB7K-2Q9M".into(),
        Some("ab".repeat(16)),
    );
    assert_eq!(pair.pairing_code.as_deref(), Some("AB7K-2Q9M"));
    assert!(pair.status.is_none());
}

#[test]
fn failed_handoff_donor_does_not_persist_stale_config() {
    assert!(
        should_persist_config(true, false),
        "the menu that owns IPC still saves Settings"
    );
    assert!(
        should_persist_config(false, true),
        "a solo foreground session still saves config"
    );
    assert!(
        !should_persist_config(false, false),
        "a live menu must not have its Settings overwritten by a failed-handoff donor"
    );
}

#[test]
fn ipc_error_codes_become_text() {
    assert_ne!(human_ipc_error("pairing_unavailable", Lang::Zh), "pairing_unavailable");
    assert_eq!(
        human_ipc_error("pairing_unavailable", Lang::En),
        Tr::new(Lang::En).pairing_unavailable()
    );
    assert_eq!(human_ipc_error("", Lang::En), "Failed");
    assert_eq!(human_ipc_error("", Lang::Zh), "失败");
    assert_eq!(human_ipc_error("boom", Lang::Zh), "boom");
}
