use never_sleep::{
    abort_input, quit_input, AppConfig, DurationPref, Effect, Engine, HostSnapshot, Input, Lang, PowerPlan, StopReason, Thermal,
    Tr, SLEEP_DISPLAY_DEBOUNCE_MS,
};

fn host(ms: u64) -> HostSnapshot {
    HostSnapshot {
        monotonic_ms: ms,
        continuous_ms: ms,
        unix_secs: 1_700_000_000 + (ms as i64 / 1000),
        utc_offset_secs: 8 * 3600,
        on_ac: true,
        battery_percent: Some(80),
        lid_closed: false,
        display_asleep: Some(false),
        hid_idle_ms: 60_000,
        thermal: Thermal::Nominal,
    }
}

fn cfg() -> AppConfig {
    AppConfig {
        display_off_delay_ms: 1_500,
        user_idle_resleep_ms: 45_000,
        ..AppConfig::default()
    }
}

fn has_sleep(effects: &[Effect]) -> bool {
    effects.iter().any(|e| matches!(e, Effect::SleepDisplay))
}

fn has_release(effects: &[Effect]) -> bool {
    effects.iter().any(|e| matches!(e, Effect::ReleasePower))
}

fn apply_plan(effects: &[Effect]) -> Option<PowerPlan> {
    effects.iter().rev().find_map(|e| match e {
        Effect::ApplyPower(p) => Some(*p),
        _ => None,
    })
}

#[test]
fn delay_then_sleep_display() {
    let mut eng = Engine::new(cfg());
    let e = eng.handle(Input::Start, &host(0));
    assert!(apply_plan(&e).unwrap().prevent_idle_sleep);
    assert!(!has_sleep(&e));
    let e = eng.handle(Input::Tick, &host(1_499));
    assert!(!has_sleep(&e));
    let e = eng.handle(Input::Tick, &host(1_500));
    assert!(has_sleep(&e));
    let mut h = host(2_000);
    h.display_asleep = Some(false);
    let e = eng.handle(Input::Tick, &h);
    assert!(!has_sleep(&e));
}

#[test]
fn user_present_does_not_resleep() {
    let mut eng = Engine::new(cfg());
    eng.handle(Input::Start, &host(0));
    eng.handle(Input::Tick, &host(1_500));
    let mut h = host(10_000);
    h.display_asleep = Some(false);
    h.hid_idle_ms = 1_000;
    h.lid_closed = false;
    let e = eng.handle(Input::DisplayWoke, &h);
    assert!(!has_sleep(&e), "must not fight a person sitting at the Mac");
}

#[test]
fn agent_wake_resleeps_when_user_away() {
    let mut eng = Engine::new(cfg());
    eng.handle(Input::Start, &host(0));
    eng.handle(Input::Tick, &host(1_500));
    let mut h = host(10_000);
    h.display_asleep = Some(false);
    h.hid_idle_ms = 120_000;
    let e = eng.handle(Input::DisplayWoke, &h);
    assert!(has_sleep(&e));
}

#[test]
fn watchdog_resleeps_on_tick_without_wake_event() {
    let mut eng = Engine::new(cfg());
    eng.handle(Input::Start, &host(0));
    eng.handle(Input::Tick, &host(1_500));
    let mut h = host(1_500 + SLEEP_DISPLAY_DEBOUNCE_MS);
    h.display_asleep = Some(true);
    h.hid_idle_ms = 80_000;
    let e = eng.handle(Input::Tick, &h);
    assert!(
        has_sleep(&e),
        "away + debounce elapsed => reassert display sleep"
    );
}

#[test]
fn lid_closed_always_resleeps() {
    let mut eng = Engine::new(cfg());
    eng.handle(Input::Start, &host(0));
    eng.handle(Input::Tick, &host(1_500));
    let mut h = host(10_000);
    h.display_asleep = Some(false);
    h.lid_closed = true;
    h.hid_idle_ms = 0;
    let e = eng.handle(Input::DisplayWoke, &h);
    assert!(has_sleep(&e));
}

#[test]
fn battery_floor_stops_on_battery() {
    let mut eng = Engine::new(cfg());
    eng.handle(Input::Start, &host(0));
    let mut h = host(5_000);
    h.on_ac = false;
    h.battery_percent = Some(19);
    let e = eng.handle(Input::Tick, &h);
    assert!(has_release(&e));
    assert!(!eng.is_active());
}

#[test]
fn battery_floor_ignored_on_ac() {
    let mut eng = Engine::new(cfg());
    eng.handle(Input::Start, &host(0));
    let mut h = host(5_000);
    h.on_ac = true;
    h.battery_percent = Some(5);
    let e = eng.handle(Input::Tick, &h);
    assert!(!has_release(&e));
    assert!(eng.is_active());
}

#[test]
fn first_sleep_can_lock_session() {
    let mut cfg = cfg();
    cfg.lock_screen = true;
    let mut eng = Engine::new(cfg);
    eng.handle(Input::Start, &host(0));
    let e = eng.handle(Input::Tick, &host(1_500));
    assert!(has_sleep(&e));
    assert!(e.iter().any(|x| matches!(x, Effect::LockSession)));
    let e = eng.handle(Input::Tick, &host(1_500 + SLEEP_DISPLAY_DEBOUNCE_MS));
    assert!(has_sleep(&e));
    assert!(!e.iter().any(|x| matches!(x, Effect::LockSession)));
}

#[test]
fn duration_hours_elapses() {
    let mut cfg = cfg();
    cfg.duration = DurationPref::Hours { hours: 1 };
    let mut eng = Engine::new(cfg);
    let h0 = host(0);
    eng.handle(Input::Start, &h0);
    let mut h = host(3_600_000);
    h.unix_secs = h0.unix_secs + 3600;
    let e = eng.handle(Input::Tick, &h);
    assert!(has_release(&e));
}

#[test]
fn no_screen_off_never_sleeps_display() {
    let mut cfg = cfg();
    cfg.screen_off = false;
    let mut eng = Engine::new(cfg);
    eng.handle(Input::Start, &host(0));
    let e = eng.handle(Input::Tick, &host(5_000));
    assert!(!has_sleep(&e));
}

#[test]
fn clamshell_and_system_assertion_policy() {
    let mut eng = Engine::new(cfg());
    let e = eng.handle(Input::Start, &host(0));
    let plan = apply_plan(&e).unwrap();
    assert!(plan.disable_clamshell_sleep);
    assert!(plan.prevent_system_sleep);
    assert!(plan.network_client);

    let mut h = host(2_000);
    h.on_ac = false;
    h.display_asleep = Some(true);
    let e = eng.handle(Input::Tick, &h);
    let plan = apply_plan(&e).unwrap();
    assert!(plan.disable_clamshell_sleep);
    assert!(!plan.prevent_system_sleep);
}

#[test]
fn thermal_critical_stops() {
    let mut eng = Engine::new(cfg());
    eng.handle(Input::Start, &host(0));
    let mut h = host(2_000);
    h.thermal = Thermal::Critical;
    let e = eng.handle(Input::Tick, &h);
    assert!(has_release(&e));
}

#[test]
fn toggle_and_json() {
    let mut eng = Engine::new(cfg());
    let h = host(0);
    eng.handle(Input::Toggle, &h);
    assert!(eng.is_active());
    let st = eng.json_status(&h);
    assert!(st.active);
    eng.handle(Input::Toggle, &host(200));
    assert!(!eng.is_active());
}

#[test]
fn start_notification_and_stop_notification_texts() {
    let mut c = cfg();
    c.duration = DurationPref::Hours { hours: 1 };
    let mut eng = Engine::new(c);
    let e = eng.handle(Input::Start, &host(0));
    assert_eq!(
        e[1],
        Effect::Notify {
            title: "Screen-off standby is on".into(),
            body: "Display will sleep in about 2 seconds; the Mac stays awake. Press ⌥⌘P to end. 1 hr left."
                .into(),
        }
    );
    let e = eng.handle(
        Input::Stop {
            reason: StopReason::User,
        },
        &host(10),
    );
    assert_eq!(
        e,
        vec![
            Effect::ReleasePower,
            Effect::Notify {
                title: "Standby ended".into(),
                body: "Normal sleep policy restored.".into(),
            }
        ]
    );
    let st = eng.json_status(&host(20));
    assert_eq!(st.stop_reason.as_deref(), Some("Ended by you"));
    assert_eq!(st.stop_reason_code.as_deref(), Some("user"));
    assert!(!st.active);
}

#[test]
fn chinese_notifications_follow_the_configured_language() {
    let mut c = cfg();
    c.duration = DurationPref::Hours { hours: 1 };
    c.language = Some(Lang::Zh);
    let mut eng = Engine::new(c);
    let e = eng.handle(Input::Start, &host(0));
    assert_eq!(
        e[1],
        Effect::Notify {
            title: "已进入熄屏待命".into(),
            body: "约 2 秒后关闭屏幕，电脑保持运行。按 ⌥⌘P 结束。 剩余 1 小时。".into(),
        }
    );
    let mut h = host(5_000);
    h.thermal = Thermal::Critical;
    let e = eng.handle(Input::Tick, &h);
    assert_eq!(
        e,
        vec![
            Effect::ReleasePower,
            Effect::Notify {
                title: "熄屏待命已结束".into(),
                body: "系统过热，已结束待命".into(),
            }
        ]
    );
    let st = eng.json_status(&h);
    assert_eq!(st.stop_reason.as_deref(), Some("系统过热，已结束待命"));
    assert_eq!(st.stop_reason_code.as_deref(), Some("thermal_emergency"));
}

#[test]
fn default_config_start_notice_is_english() {
    let mut eng = Engine::new(AppConfig::default());
    let h = HostSnapshot {
        monotonic_ms: 0,
        continuous_ms: 0,
        unix_secs: 1_700_000_000,
        utc_offset_secs: 28_800,
        on_ac: true,
        battery_percent: Some(80),
        lid_closed: false,
        display_asleep: Some(false),
        hid_idle_ms: 60_000,
        thermal: Thermal::Nominal,
    };
    let e = eng.handle(Input::Start, &h);
    assert!(e.contains(&Effect::Notify {
        title: "Screen-off standby is on".into(),
        body: "Display will sleep in about 2 seconds; the Mac stays awake. Press ⌥⌘P to end.".into(),
    }));
}

#[test]
fn assertion_failure_stop_reports_its_code() {
    let mut eng = Engine::new(AppConfig::default());
    let h = host(0);
    eng.handle(Input::Start, &h);
    eng.handle(
        Input::Stop {
            reason: StopReason::AssertionFailed,
        },
        &h,
    );
    let st = eng.json_status(&h);
    assert!(!st.active);
    assert_eq!(st.stop_reason_code.as_deref(), Some("assertion_failed"));
    assert_eq!(
        st.stop_reason.as_deref(),
        Some(Tr::new(Lang::En).stop_assertion())
    );
    assert!(st.elapsed_secs.is_none());
    assert!(st.remaining_secs.is_none());
    let fresh = Engine::new(AppConfig::default());
    assert_eq!(fresh.json_status(&h).stop_reason_code, None);
}

#[test]
fn stop_reason_codes_and_labels() {
    assert_eq!(StopReason::User.code(), "user");
    assert_eq!(StopReason::BatteryFloor.code(), "battery_floor");
    assert_eq!(StopReason::ThermalEmergency.code(), "thermal_emergency");
    assert_eq!(StopReason::DurationElapsed.code(), "duration_elapsed");
    assert_eq!(StopReason::AppQuit.code(), "app_quit");
    assert_eq!(StopReason::AssertionFailed.code(), "assertion_failed");
    assert_eq!(StopReason::BatteryFloor.label(Lang::Zh), "电量过低，已结束待命以免耗干电池");
    assert_eq!(
        StopReason::DurationElapsed.label(Lang::En),
        "The set duration elapsed; standby ended"
    );
}

#[test]
fn start_twice_and_stop_twice_are_no_ops() {
    let mut eng = Engine::new(cfg());
    assert!(eng
        .handle(
            Input::Stop {
                reason: StopReason::AppQuit
            },
            &host(0)
        )
        .is_empty());
    eng.handle(Input::Start, &host(0));
    assert!(eng.handle(Input::Start, &host(10)).is_empty());
    assert!(eng
        .handle(Input::StartWith(DurationPref::Hours { hours: 2 }), &host(20))
        .is_empty());
    let e = eng.handle(
        Input::Stop {
            reason: StopReason::AppQuit,
        },
        &host(30),
    );
    assert_eq!(e, vec![Effect::ReleasePower]);
}

#[test]
fn keep_awake_only_start_mentions_hotkey_and_ac_change_reapplies_plan() {
    let mut c = cfg();
    c.screen_off = false;
    let mut eng = Engine::new(c);
    let e = eng.handle(Input::Start, &host(0));
    assert_eq!(
        e[1],
        Effect::Notify {
            title: "Screen-off standby is on".into(),
            body: "The Mac will stay awake (display is not forced off). Press ⌥⌘P to end.".into(),
        }
    );
    assert!(eng.handle(Input::Tick, &host(100)).is_empty());
    let mut h = host(200);
    h.on_ac = false;
    let e = eng.handle(Input::Tick, &h);
    assert_eq!(e.len(), 1);
    assert!(!apply_plan(&e).unwrap().prevent_system_sleep);
}

#[test]
fn json_status_reports_session_clock() {
    let mut c = cfg();
    c.duration = DurationPref::Hours { hours: 1 };
    let mut eng = Engine::new(c);
    eng.handle(Input::Start, &host(0));
    let mut h = host(65_000);
    h.display_asleep = None;
    let st = eng.json_status(&h);
    assert_eq!(st.elapsed_secs, Some(65));
    assert_eq!(st.remaining_secs, Some(3600 - 65));
    assert_eq!(st.display, "awake");
    assert_eq!(st.lid, "open");
    assert!(!st.user_present);
    let view = eng.view(&h);
    assert!(view.active);
    assert_eq!(view.elapsed_secs, Some(65));
    assert_eq!(view.remaining_secs, Some(3600 - 65));
}

#[test]
fn display_slept_input_only_sets_the_flag() {
    let mut eng = Engine::new(cfg());
    eng.handle(Input::Start, &host(0));
    assert!(eng.handle(Input::DisplaySlept, &host(1)).is_empty());
    let mut h = host(2);
    h.display_asleep = None;
    assert_eq!(eng.json_status(&h).display, "asleep");
}

#[test]
fn view_model_primary_action() {
    let mut eng = Engine::new(AppConfig {
        env_lang: Some(never_sleep::Lang::Zh),
        ..cfg()
    });
    let h = host(0);
    assert_eq!(eng.view(&h).primary_action, "开始关屏待命");
    eng.handle(Input::Start, &h);
    assert_eq!(eng.view(&h).primary_action, "结束待命");
}

#[test]
fn stop_reason_codes_read_back() {
    for r in [
        StopReason::User,
        StopReason::BatteryFloor,
        StopReason::ThermalEmergency,
        StopReason::DurationElapsed,
        StopReason::AppQuit,
        StopReason::AssertionFailed,
    ] {
        assert_eq!(StopReason::from_code(r.code()), Some(r));
    }
    assert_eq!(StopReason::from_code("User"), None);
    assert_eq!(StopReason::from_code(""), None);
}

#[test]
fn failed_assertion_and_quit_inputs() {
    assert_eq!(
        abort_input(false, true),
        Some(Input::Stop {
            reason: StopReason::AssertionFailed
        })
    );
    assert_eq!(abort_input(true, true), None);
    assert_eq!(abort_input(false, false), None);
    assert_eq!(
        quit_input(true),
        Some(Input::Stop {
            reason: StopReason::AppQuit
        })
    );
    assert_eq!(quit_input(false), None);
}

#[test]
fn accepts_only_representable_deadlines() {
    let mut c = cfg();
    c.duration = DurationPref::Hours { hours: 2 };
    let mut eng = Engine::new(c);
    let mut h = host(0);
    assert!(eng.accepts(&Input::Start, &h));
    assert!(eng.accepts(&Input::Tick, &h));
    h.unix_secs = i64::MAX - 3600;
    assert!(!eng.accepts(&Input::Start, &h));
    assert!(!eng.accepts(&Input::Toggle, &h));
    assert!(eng.accepts(&Input::StartWith(DurationPref::Hours { hours: 1 }), &h));
    assert!(eng.accepts(&Input::StartWith(DurationPref::Indefinite), &h));
    eng.handle(Input::StartWith(DurationPref::Indefinite), &h);
    assert!(eng.accepts(&Input::Start, &h));
}

#[test]
fn keep_awake_only_sessions_never_sleep_or_lock() {
    let mut c = cfg();
    c.screen_off = false;
    c.lock_screen = true;
    let mut eng = Engine::new(c);
    let mut all = Vec::new();
    all.extend(eng.handle(Input::Start, &host(0)));
    for ms in [1_000u64, 2_000, 5_000, 20_000, 90_000] {
        all.extend(eng.handle(Input::Tick, &host(ms)));
        all.extend(eng.handle(Input::DisplayWoke, &host(ms + 1)));
    }
    all.extend(eng.handle(Input::Toggle, &host(100_000)));
    all.extend(eng.handle(Input::Toggle, &host(101_000)));
    all.extend(eng.handle(Input::Tick, &host(110_000)));
    assert!(!all.iter().any(|e| matches!(e, Effect::SleepDisplay | Effect::LockSession)));
    assert!(!eng.config.screen_off);
}

#[test]
fn resleep_happens_exactly_when_allowed() {
    for resleep in [true, false] {
        let mut c = cfg();
        c.resleep_display = resleep;
        let mut eng = Engine::new(c);
        eng.handle(Input::Start, &host(0));
        let first = eng.handle(Input::Tick, &host(1_600));
        assert!(has_sleep(&first));
        // Within the debounce: never.
        assert!(!has_sleep(&eng.handle(Input::Tick, &host(1_600 + SLEEP_DISPLAY_DEBOUNCE_MS - 1))));
        // Past the debounce, nobody at the Mac: only with re-sleep on.
        let later = eng.handle(Input::DisplayWoke, &host(1_600 + SLEEP_DISPLAY_DEBOUNCE_MS));
        assert_eq!(has_sleep(&later), resleep);
        // A person at the Mac: never.
        let mut h = host(20_000);
        h.hid_idle_ms = 1_000;
        assert!(!has_sleep(&eng.handle(Input::Tick, &h)));
    }
}

#[test]
fn timed_session_ends_at_its_deadline_second() {
    let mut c = cfg();
    c.duration = DurationPref::Hours { hours: 1 };
    let mut eng = Engine::new(c);
    eng.handle(Input::Start, &host(0));
    let mut h = host(10_000);
    h.unix_secs = 1_700_000_000 + 3_599;
    assert!(!has_release(&eng.handle(Input::Tick, &h)));
    assert!(eng.is_active());
    h.unix_secs = 1_700_000_000 + 3_600;
    assert!(has_release(&eng.handle(Input::Tick, &h)));
    assert!(!eng.is_active());
    assert_eq!(
        eng.json_status(&h).stop_reason_code.as_deref(),
        Some("duration_elapsed")
    );
}
