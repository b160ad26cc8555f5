use never_sleep::{build_view_model, AppConfig, HostSnapshot, Lang, Thermal};

fn status_host() -> HostSnapshot {
    HostSnapshot {
        monotonic_ms: 5_000,
        continuous_ms: 5_000,
        unix_secs: 1_700_000_000,
        utc_offset_secs: 0,
        on_ac: true,
        battery_percent: Some(64),
        lid_closed: false,
        display_asleep: Some(false),
        hid_idle_ms: 1_000,
        thermal: Thermal::Nominal,
    }
}

#[test]
fn user_present_requires_open_lid_and_recent_hid() {
    let mut h = status_host();
    assert!(h.user_present(45_000));
    h.lid_closed = true;
    assert!(!h.user_present(45_000));
    h.lid_closed = false;
    h.hid_idle_ms = 80_000;
    assert!(!h.user_present(45_000));
}

#[test]
fn thermal_emergency_is_critical_only() {
    assert!(!Thermal::Nominal.is_emergency());
    assert!(!Thermal::Fair.is_emergency());
    assert!(!Thermal::Serious.is_emergency());
    assert!(Thermal::Critical.is_emergency());
}

#[test]
fn idle_view_mentions_display_policy() {
    let cfg = AppConfig::default();
    let view = build_view_model(&cfg, false, None, None, &status_host(), None, false);
    assert!(!view.active);
    assert!(view.detail_line.contains("display") || view.detail_line.contains("屏幕"));
    assert_eq!(view.primary_action, cfg.tr().start_standby());
    assert!(!view.display_asleep);
    assert!(view.user_present);
    assert_eq!(view.elapsed_secs, None);
    assert_eq!(view.remaining_secs, None);
}

#[test]
fn active_view_exposes_elapsed_secs() {
    let cfg = AppConfig::default();
    let mut h = status_host();
    h.monotonic_ms = 66_000;
    let view = build_view_model(&cfg, true, Some(65), None, &h, None, false);
    assert_eq!(view.elapsed_secs, Some(65));
    assert_eq!(view.remaining_secs, None);
    assert_eq!(view.primary_action, cfg.tr().end_standby());
}

#[test]
fn remaining_secs_surface_on_the_view() {
    let cfg = AppConfig::default();
    let view = build_view_model(&cfg, true, Some(0), Some(3_598), &status_host(), None, false);
    assert_eq!(view.elapsed_secs, Some(0));
    assert_eq!(view.remaining_secs, Some(3_598));
    assert!(view.remaining_label.is_some());
}

#[test]
fn view_model_carries_display_asleep_and_user_present() {
    let cfg = AppConfig::default();
    let mut away = status_host();
    away.hid_idle_ms = 80_000;
    let view = build_view_model(&cfg, true, Some(0), None, &away, None, true);
    assert!(view.display_asleep);
    assert!(!view.user_present);
    let present = build_view_model(&cfg, true, Some(0), None, &status_host(), None, false);
    assert!(!present.display_asleep);
    assert!(present.user_present);
}

#[test]
fn last_stop_reason_surfaces_when_idle() {
    let cfg = AppConfig::default();
    let view = build_view_model(
        &cfg,
        false,
        None,
        None,
        &status_host(),
        Some("Battery too low"),
        false,
    );
    assert_eq!(view.warnings, vec!["Battery too low".to_string()]);
}

#[test]
fn active_view_lines_in_detail() {
    let cfg = AppConfig::default();
    let mut h = status_host();
    h.on_ac = false;
    h.lid_closed = true;
    let view = build_view_model(&cfg, true, Some(90), Some(3_600), &h, Some("ignored"), true);
    assert_eq!(view.status_line, "Standby · 1 min 30 sec elapsed");
    assert_eq!(
        view.detail_line,
        "Display asleep · Lid closed · Battery · Battery 64% · 1 hr left"
    );
    assert_eq!(view.tooltip, "Never Sleep · running");
    assert_eq!(view.remaining_label.as_deref(), Some("1 hr"));
    assert_eq!(view.warnings.len(), 2);
    assert_eq!(view.battery_floor_label, "End when battery is below 20%");
    let zh = AppConfig {
        language: Some(Lang::Zh),
        screen_off: false,
        ..AppConfig::default()
    };
    let idle = build_view_model(&zh, false, None, None, &status_host(), None, false);
    assert_eq!(idle.status_line, "未待命 · 点击开始");
    assert_eq!(idle.detail_line, "将保持系统运行（不强制关屏）");
    assert_eq!(idle.primary_action, "开始关屏待命");
    assert!(idle.warnings.is_empty());
}

#[test]
fn chinese_idle_status_is_localized() {
    let cfg = AppConfig {
        language: Some(Lang::Zh),
        ..AppConfig::default()
    };
    let view = build_view_model(&cfg, false, None, None, &status_host(), None, false);
    assert_eq!(view.primary_action, "开始关屏待命");
    assert!(view.status_line.contains("未待命"));
}
