use never_sleep::session_lock::parse_proc_stat_starttime;
use never_sleep::session_lock::{
    format_lock_text, lock_holder_is_live, note_deferred_escape, parse_lock_record,
    parse_lock_text, should_abort_foreground_without_reporter_lock, should_claim_foreground_reporter_lock,
    should_claim_reporter_lock, should_claim_session_lock, should_clear_unclaimed_clamshell,
    should_defer_local_controls, should_detach_cloud_on_quit, should_fail_unclaimed_clamshell_restore,
    should_hold_cloud_commands, should_keep_inherited_clamshell_lock, should_record_deferred_off,
    should_release_clamshell_lock, should_restore_clamshell, should_stop_donor_on_failed_handoff,
    take_pending_stop_after_handoff, take_pending_stop_on_adopt, SessionLockRecord,
};

#[test]
fn timed_out_donor_does_not_overwrite_live_successor_lock() {
    assert!(
        !should_claim_session_lock(11, Some(22), true, true),
        "after a lost adopt reply, Tick/ApplyPower must not replace the menu's session.lock"
    );
    assert!(
        should_claim_session_lock(11, Some(22), true, false),
        "the adopting menu must take the live donor's lock during handoff"
    );
    assert!(should_claim_session_lock(11, Some(11), true, true));
    assert!(should_claim_session_lock(11, Some(22), false, true));
    assert!(should_claim_session_lock(11, None, false, false));
}

#[test]
fn live_menu_lock_survives_foreground_release() {
    assert!(
        !should_release_clamshell_lock(11, Some(22), true),
        "the handing-off process must not drop a live menu's clamshell ownership"
    );
    assert!(should_release_clamshell_lock(11, Some(11), true));
    assert!(should_release_clamshell_lock(11, Some(22), false));
    assert!(should_release_clamshell_lock(11, None, false));
    let rec = Some(SessionLockRecord { pid: 22, clamshell: true, starttime: Some(7) });
    assert!(
        should_defer_local_controls(false, 11, rec, true, Some(7))
            == should_hold_cloud_commands(false, 11, rec, true, Some(7)),
        "⌥⌘P before adopt must follow the same live-donor lock as held phone commands"
    );
    assert!(should_hold_cloud_commands(false, 11, rec, true, Some(7)));
    assert!(!should_hold_cloud_commands(true, 11, rec, true, Some(7)));
    assert!(!should_hold_cloud_commands(false, 22, rec, true, Some(7)));
    assert!(!should_hold_cloud_commands(false, 11, rec, true, Some(8)));
    assert!(!should_hold_cloud_commands(false, 11, None, true, Some(7)));
}

#[test]
fn macos_release_power_defers_to_live_peer_lock() {
    assert!(!should_release_clamshell_lock(10, Some(20), true));
    assert!(should_restore_clamshell(10, Some((20, false)), true));
    assert!(!should_restore_clamshell(10, Some((20, true)), true));
    assert!(should_restore_clamshell(10, Some((20, true)), false));
}

#[test]
fn restores_clamshell_when_successor_did_not_claim_it() {
    assert!(
        should_restore_clamshell(10, Some((20, false)), true),
        "menu adopted without lid-awake: the handing-off process must clear the global flag"
    );
    assert!(
        !should_release_clamshell_lock(10, Some(20), true),
        "keep the menu's session.lock even when it did not take clamshell"
    );
}

#[test]
fn leaves_clamshell_when_successor_claimed_it() {
    assert!(!should_restore_clamshell(10, Some((20, true)), true));
    assert!(!should_release_clamshell_lock(10, Some(20), true));
}

#[test]
fn restores_clamshell_for_own_or_dead_lock() {
    assert!(should_restore_clamshell(10, Some((10, true)), true));
    assert!(should_restore_clamshell(10, Some((20, true)), false));
    assert!(should_restore_clamshell(10, None, false));
}

#[test]
fn successor_clears_unclaimed_inherited_clamshell_before_ack() {
    assert!(
        should_clear_unclaimed_clamshell(false),
        "menu adopted without lid-awake must restore the inherited flag itself"
    );
    assert!(
        !should_clear_unclaimed_clamshell(true),
        "menu that claims clamshell keeps the flag disabled"
    );
}

#[test]
fn unclaimed_clamshell_restore_failure_does_not_write_lock() {
    assert!(
        should_keep_inherited_clamshell_lock(true, Some((20, true)), 10),
        "a dead donor clamshell=1 lock must survive a failed restore"
    );
    assert!(!should_keep_inherited_clamshell_lock(false, Some((20, true)), 10));
    assert!(!should_keep_inherited_clamshell_lock(true, Some((10, true)), 10));
    assert!(!should_keep_inherited_clamshell_lock(true, Some((20, false)), 10));
}

#[test]
fn restore_failure_is_fatal_only_with_live_inherited_clamshell() {
    assert!(
        !should_fail_unclaimed_clamshell_restore(false, None, false, 10),
        "lid-open display-off with no donor must still start if IOKit restore is unavailable"
    );
    assert!(!should_fail_unclaimed_clamshell_restore(false, Some((10, true)), true, 10));
    assert!(!should_fail_unclaimed_clamshell_restore(false, Some((20, false)), true, 10));
    assert!(!should_fail_unclaimed_clamshell_restore(true, Some((20, true)), true, 10));
    assert!(
        should_fail_unclaimed_clamshell_restore(false, Some((20, true)), true, 10),
        "handoff must not ack if inherited clamshell=1 cannot be restored"
    );
    assert!(
        should_fail_unclaimed_clamshell_restore(false, Some((20, true)), false, 10),
        "a dead donor lock that recorded clamshell=1 still needs a successful restore"
    );
}

#[test]
fn deferred_escape_stops_after_adopt() {
    let mut pending = false;
    note_deferred_escape(false, &mut pending);
    assert!(
        !pending,
        "Toggle while this process owns standby is not an overlapping escape"
    );
    note_deferred_escape(true, &mut pending);
    assert!(pending, "⌥⌘P during the donor overlap must not be dropped");
    note_deferred_escape(false, &mut pending);
    assert!(pending, "a later non-deferred action must not forget the escape");
    assert!(
        !take_pending_stop_on_adopt(false, &mut pending),
        "failed adopt must keep the escape for a later handoff"
    );
    assert!(pending);
    assert!(
        take_pending_stop_after_handoff(false, true, &mut pending),
        "stop_donor after a zero-remaining handoff must still apply the remembered Off"
    );
    assert!(!pending);
    note_deferred_escape(true, &mut pending);
    assert!(take_pending_stop_on_adopt(true, &mut pending));
    assert!(!pending);
    assert!(
        !take_pending_stop_on_adopt(true, &mut pending),
        "the remembered escape is one-shot"
    );
    assert!(
        should_record_deferred_off(false, true),
        "idle menu + live donor: Off is an escape, not a no-op"
    );
    assert!(!should_record_deferred_off(true, false));
    assert!(!should_record_deferred_off(false, false));
    let rec = Some(SessionLockRecord { pid: 22, clamshell: false, starttime: None });
    assert!(
        should_detach_cloud_on_quit(false, 11, rec, true, None)
            == should_defer_local_controls(false, 11, rec, true, None),
        "pre-adopt quit follows the same live-donor lock as deferred Toggle"
    );
    assert!(
        should_stop_donor_on_failed_handoff(true, false, true),
        "failed adopt must still deliver a deferred Off to the live donor"
    );
    assert!(!should_stop_donor_on_failed_handoff(true, true, true));
    assert!(!should_stop_donor_on_failed_handoff(true, false, false));
    assert!(!should_stop_donor_on_failed_handoff(false, false, true));
}

#[test]
fn reused_pid_is_not_a_live_lock_holder() {
    assert!(
        lock_holder_is_live(true, None, Some(99)),
        "locks written before starttime still treat a live pid as the owner"
    );
    assert!(lock_holder_is_live(true, Some(10), Some(10)));
    assert!(
        !lock_holder_is_live(true, Some(10), Some(99)),
        "SIGKILL leftover must not follow a later process that reused the pid"
    );
    assert!(!lock_holder_is_live(true, Some(10), None));
    assert!(!lock_holder_is_live(false, Some(10), Some(10)));
    let rec = parse_lock_record("pid=22\nclamshell=1\nstarttime=4242\n");
    assert_eq!(rec.pid, 22);
    assert!(rec.clamshell);
    assert_eq!(rec.starttime, Some(4242));
    let body = format_lock_text(22, true, Some(4242));
    assert_eq!(parse_lock_text(&body), (22, true));
    assert!(
        body.contains("starttime=4242"),
        "session.lock must record a start token, not only pid"
    );
}

#[test]
fn second_foreground_does_not_claim_a_live_reporter_lock() {
    assert!(
        !should_claim_reporter_lock(11, Some(22), true),
        "two never-sleep on processes must not both poll the same identity"
    );
    assert!(should_claim_reporter_lock(11, Some(22), false));
    assert!(should_claim_reporter_lock(11, Some(11), true));
    assert!(should_claim_reporter_lock(11, None, false));
    assert!(
        should_abort_foreground_without_reporter_lock(true, false),
        "a second never-sleep on must not Start when reporter.lock is denied"
    );
    assert!(!should_abort_foreground_without_reporter_lock(true, true));
    assert!(
        !should_abort_foreground_without_reporter_lock(false, false),
        "a live menu still accepts handoff; lock denial must not reject that path"
    );
    assert!(should_claim_foreground_reporter_lock(true, true));
    assert!(!should_claim_foreground_reporter_lock(true, false));
    assert!(!should_claim_foreground_reporter_lock(false, true));
}

#[test]
fn lock_text_roundtrips_every_field() {
    for (pid, clamshell, start) in [(0, false, None), (1, true, Some(0)), (4294967295, false, Some(u64::MAX))] {
        let text = format_lock_text(pid, clamshell, start);
        let rec = parse_lock_record(&text);
        assert_eq!(rec, SessionLockRecord { pid, clamshell, starttime: start });
    }
    assert_eq!(format_lock_text(7, false, None), "pid=7\nclamshell=0\n");
}

#[test]
fn lock_record_reads_later_lines_and_defaults() {
    let rec = parse_lock_record("pid=1\r\npid= 9 \nclamshell=1\nclamshell=yes\nstarttime=x\n");
    assert_eq!(rec, SessionLockRecord { pid: 9, clamshell: false, starttime: None });
    let rec = parse_lock_record("pid=99999999999\nother=1");
    assert_eq!(rec.pid, 0);
    assert_eq!(parse_lock_record(""), SessionLockRecord { pid: 0, clamshell: false, starttime: None });
}

#[test]
fn proc_stat_start_time_is_field_twenty_after_the_name() {
    assert_eq!(
        parse_proc_stat_starttime(
            "1 (init) S 0 1 1 0 -1 4194560 0 0 0 0 0 0 0 0 20 0 1 0 42 0 0 0 0 0 0 0 0 0 0 0"
        ),
        Some(42)
    );
    assert_eq!(
        parse_proc_stat_starttime("7 (a) b) R 0 1 1 0 -1 0 0 0 0 0 0 0 0 0 20 0 1 0 99 1"),
        Some(99)
    );
    assert_eq!(parse_proc_stat_starttime("no name here 1 2 3"), None);
    assert_eq!(parse_proc_stat_starttime("1 (x) S 0 1"), None);
    assert_eq!(
        parse_proc_stat_starttime("1 (x) S 0 1 1 0 -1 0 0 0 0 0 0 0 0 0 20 0 1 0 -5 0"),
        None
    );
}
