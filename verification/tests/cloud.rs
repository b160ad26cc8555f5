use never_sleep::cloud::{
    display_name_from, emit_outcome, heartbeat_outcome, hostname_from_c_buffer, CloudEvent, CommandInbox,
    on_heartbeat_reply, on_pair_start_reply, pairing_after, should_pair_start, HeartbeatOutcome,
    HeartbeatReply, PairStartReply, RemoteCommand, ReporterGate,
};

#[test]
fn hostname_from_c_buffer_reads_gethostname_bytes() {
    assert_eq!(
        hostname_from_c_buffer(b"Studio.local\0trailing"),
        Some("Studio.local".into())
    );
    assert_eq!(hostname_from_c_buffer(b"\0"), None);
    assert!(hostname_from_c_buffer(b"MacBook-Pro.local\0").is_some());
    assert_eq!(hostname_from_c_buffer(b"  Mini \0"), Some("Mini".into()));
    assert_eq!(hostname_from_c_buffer(&[0xff, 0xfe, 0]), None);
    assert_eq!(hostname_from_c_buffer(b"no-nul"), Some("no-nul".into()));
}

#[test]
fn command_inbox_dedups_and_acks() {
    let mut inbox = CommandInbox::default();
    let first = inbox.take_new(vec![RemoteCommand::on("seed", None)]);
    assert_eq!(first.len(), 1);
    let again = inbox.take_new(vec![RemoteCommand::on("seed", None)]);
    assert!(again.is_empty());
    assert_eq!(inbox.ack_ids(), ["seed"]);
    let batch: Vec<_> = (0..70)
        .map(|i| RemoteCommand::on(&format!("c{i}"), None))
        .collect();
    let many = inbox.take_new(batch.clone());
    assert_eq!(many.len(), 70);
    assert_eq!(inbox.ack_ids().len(), 71);
    inbox.retain_pending(&batch);
    assert_eq!(
        inbox.ack_ids().len(),
        70,
        "delivered ids stay until the worker drops them"
    );
    assert!(
        inbox.ack_ids().iter().all(|id| id != "seed"),
        "ids the worker no longer lists can leave after ack"
    );
    inbox.retain_pending(&[]);
    assert!(inbox.ack_ids().is_empty());
}

#[test]
fn inbox_keeps_first_of_repeated_ids_in_one_batch() {
    let mut inbox = CommandInbox::default();
    let out = inbox.take_new(vec![
        RemoteCommand::on("a", Some("3h".into())),
        RemoteCommand::off("a"),
        RemoteCommand::off("b"),
    ]);
    assert_eq!(out.len(), 2);
    assert_eq!(out[0].duration.as_deref(), Some("3h"));
    assert_eq!(out[1].cmd, "off");
    assert_eq!(inbox.ack_ids(), ["a", "b"]);
}

#[test]
fn reporter_gate_repairs_after_unauthorized_or_cleared() {
    let mut gate = ReporterGate::default();
    assert!(gate.needs_pair_start());
    gate.on_pair_start_ok();
    assert!(!gate.needs_pair_start());
    gate.on_unauthorized();
    assert!(gate.needs_pair_start());
    gate.on_pair_start_ok();
    gate.on_pairing_cleared();
    assert!(gate.needs_pair_start());
}

#[test]
fn pairing_needs_both_code_and_url() {
    let mut out = HeartbeatOutcome { pairing_code: Some("AB7K".into()), pairing_url: None, commands: Vec::new() };
    assert!(!out.pairing_present());
    assert!(out.pairing_cleared());
    out.pairing_url = Some("https://example/board".into());
    assert!(out.pairing_present());
    assert!(!out.pairing_cleared());
}

#[test]
fn heartbeat_outcome_becomes_events() {
    let mut gate = ReporterGate::default();
    gate.on_pair_start_ok();
    let mut inbox = CommandInbox::default();
    let ev = emit_outcome(
        &mut gate,
        &mut inbox,
        HeartbeatOutcome { pairing_code: None, pairing_url: None, commands: vec![RemoteCommand::on("a", None)] },
    );
    assert_eq!(ev.len(), 2);
    assert_eq!(ev[0], CloudEvent::PairingCleared);
    assert!(gate.needs_pair_start());
    match &ev[1] {
        CloudEvent::Commands(c) => assert_eq!(c.len(), 1),
        other => panic!("expected commands, got {other:?}"),
    }
    assert_eq!(inbox.ack_ids(), ["a"]);
    gate.on_pair_start_ok();
    let ev = emit_outcome(
        &mut gate,
        &mut inbox,
        HeartbeatOutcome {
            pairing_code: Some("C".into()),
            pairing_url: Some("U".into()),
            commands: vec![RemoteCommand::on("a", None)],
        },
    );
    assert_eq!(ev, vec![CloudEvent::Pairing { code: "C".into(), url: "U".into() }]);
    assert!(!gate.needs_pair_start());
    let ev = emit_outcome(
        &mut gate,
        &mut inbox,
        HeartbeatOutcome { pairing_code: Some("C".into()), pairing_url: Some("U".into()), commands: Vec::new() },
    );
    assert_eq!(ev.len(), 1);
    assert!(inbox.ack_ids().is_empty());
}

#[test]
fn display_name_prefers_configured_then_host() {
    assert_eq!(display_name_from(Some("  Studio "), Some("host".into())), "Studio");
    assert_eq!(display_name_from(Some("   "), Some("host".into())), "host");
    assert_eq!(display_name_from(None, None), "Mac");
}

#[test]
fn heartbeat_outcome_keeps_on_off_drops_toggle() {
    let toggle = RemoteCommand {
        id: "2".into(),
        cmd: "toggle".into(),
        duration: None,
    };
    let commands = vec![
        RemoteCommand::on("1", Some("8h".into())),
        toggle,
        RemoteCommand::off("3"),
    ];
    let outcome = heartbeat_outcome(
        true,
        Some("AB7K-2Q9M".into()),
        Some("https://xyz-ai.app/never-sleep/board/?code=AB7K-2Q9M".into()),
        commands,
    )
    .unwrap();
    assert_eq!(outcome.pairing_code.as_deref(), Some("AB7K-2Q9M"));
    assert!(outcome.pairing_present());
    assert_eq!(outcome.commands.len(), 2);
    assert_eq!(outcome.commands[0].cmd, "on");
    assert_eq!(outcome.commands[0].duration.as_deref(), Some("8h"));
    assert_eq!(outcome.commands[1].cmd, "off");
    assert!(RemoteCommand::is_allowed_cmd("on"));
    assert!(!RemoteCommand::is_allowed_cmd("ON"));
}

#[test]
fn heartbeat_outcome_rejects_not_ok() {
    let err = heartbeat_outcome(false, None, None, vec![RemoteCommand::off("9")]).unwrap_err();
    assert!(err.contains("rejected"));
    let cleared = heartbeat_outcome(true, None, None, Vec::new()).unwrap();
    assert!(cleared.pairing_cleared());
    assert!(cleared.commands.is_empty());
}

#[test]
fn reporter_steps_follow_the_replies() {
    let mut gate = ReporterGate::default();
    let mut inbox = CommandInbox::default();
    assert!(should_pair_start(&gate));
    assert!(on_pair_start_reply(&mut gate, PairStartReply::Unreachable).is_empty());
    assert!(should_pair_start(&gate));
    let ev = on_pair_start_reply(
        &mut gate,
        PairStartReply::Offered {
            code: "AB7K".into(),
            url: "https://example/board".into(),
        },
    );
    assert_eq!(
        ev,
        vec![CloudEvent::Pairing {
            code: "AB7K".into(),
            url: "https://example/board".into()
        }]
    );
    assert!(!should_pair_start(&gate));
    assert!(on_heartbeat_reply(&mut gate, &mut inbox, HeartbeatReply::Unreachable).is_empty());
    assert!(on_heartbeat_reply(&mut gate, &mut inbox, HeartbeatReply::Rejected).is_empty());
    assert!(!should_pair_start(&gate));
    let outcome = HeartbeatOutcome {
        pairing_code: Some("AB7K".into()),
        pairing_url: Some("https://example/board".into()),
        commands: vec![RemoteCommand::off("c1")],
    };
    let ev = on_heartbeat_reply(&mut gate, &mut inbox, HeartbeatReply::Answered(outcome));
    assert_eq!(ev.len(), 2);
    assert_eq!(ev[1], CloudEvent::Commands(vec![RemoteCommand::off("c1")]));
    assert_eq!(inbox.ack_ids(), &["c1".to_string()]);
    assert!(on_heartbeat_reply(&mut gate, &mut inbox, HeartbeatReply::Unauthorized).is_empty());
    assert!(should_pair_start(&gate));
    assert_eq!(inbox.ack_ids(), &["c1".to_string()]);
    assert!(on_pair_start_reply(&mut gate, PairStartReply::Unauthorized).is_empty());
    assert!(should_pair_start(&gate));
}

#[test]
fn pairing_follows_reporter_events() {
    let offer = Some(("A".to_string(), "u".to_string()));
    let next = pairing_after(
        offer.clone(),
        &CloudEvent::Pairing {
            code: "B".into(),
            url: "v".into(),
        },
    );
    assert_eq!(next, Some(("B".to_string(), "v".to_string())));
    assert_eq!(pairing_after(offer.clone(), &CloudEvent::PairingCleared), None);
    assert_eq!(pairing_after(offer.clone(), &CloudEvent::Commands(Vec::new())), offer);
}
