use never_sleep::control::{
    duration_change_inputs, launch_onboarding, login_result, menu_checks, off_request_inputs,
    on_request_inputs, option_key, option_needs_tick, plan_menu_item, plan_ui_command, tick_due,
    toggled_option, ui_duration_pref, ui_language, with_option, MenuItem, OptionKey, PanelNav,
    UiCommand, plan_ipc, IpcReply, config_checks,
};
use never_sleep::protocol::IpcRequest;
use never_sleep::panel::DurationKey;
use never_sleep::{
    AppConfig, DurationPref, Engine, HostSnapshot, Input, Lang, StopReason, Thermal,
    DEFAULT_BATTERY_FLOOR,
};

fn panel_host() -> HostSnapshot {
    HostSnapshot {
        monotonic_ms: 5_000,
        continuous_ms: 5_000,
        unix_secs: 1_700_000_000,
        utc_offset_secs: 0,
        on_ac: true,
        battery_percent: Some(64),
        lid_closed: false,
        display_asleep: Some(false),
        hid_idle_ms: 1_000,
        thermal: Thermal::Nominal,
    }
}

#[test]
fn panel_values_select_presets() {
    for key in [
        DurationKey::Indefinite,
        DurationKey::Hours1,
        DurationKey::Hours3,
        DurationKey::Hours8,
        DurationKey::Until0800,
    ] {
        let pref = ui_duration_pref(key.as_ipc()).expect("preset value");
        assert_eq!(DurationKey::from_pref(pref), key);
    }
    assert_eq!(ui_duration_pref("until_0800"), Some(DurationPref::UntilLocal { hour: 8, minute: 0 }));
    assert_eq!(ui_duration_pref("2h"), None);
    assert_eq!(ui_language("zh"), Some(Lang::Zh));
    assert_eq!(ui_language("en"), Some(Lang::En));
    assert_eq!(ui_language("fr"), None);
}

#[test]
fn options_set_and_toggle() {
    let cfg = AppConfig::default();
    assert_eq!(option_key("lid_awake"), Some(OptionKey::LidAwake));
    assert_eq!(option_key("nope"), None);
    let off = with_option(cfg, OptionKey::BatteryFloor, false);
    assert_eq!(off.battery_floor_percent, None);
    let on = toggled_option(off, OptionKey::BatteryFloor);
    assert_eq!(on.battery_floor_percent, Some(DEFAULT_BATTERY_FLOOR));
    let flipped = toggled_option(cfg, OptionKey::ScreenOff);
    assert_eq!(flipped.screen_off, !cfg.screen_off);
    assert_eq!(flipped.lock_screen, cfg.lock_screen);
    assert!(option_needs_tick(OptionKey::LidAwake, true));
    assert!(!option_needs_tick(OptionKey::LidAwake, false));
    assert!(!option_needs_tick(OptionKey::ScreenOff, true));
}

#[test]
fn duration_and_on_off_requests_become_inputs() {
    let pref = DurationPref::Hours { hours: 3 };
    assert!(duration_change_inputs(false, pref).is_empty());
    assert_eq!(
        duration_change_inputs(true, pref),
        vec![Input::Stop { reason: StopReason::User }, Input::StartWith(pref)]
    );
    assert!(on_request_inputs(true, Input::Start).is_empty());
    assert_eq!(on_request_inputs(false, Input::Start), vec![Input::Start]);
    assert_eq!(
        on_request_inputs(true, Input::StartWith(pref)),
        vec![Input::Stop { reason: StopReason::User }, Input::StartWith(pref)]
    );
    assert_eq!(off_request_inputs(true), vec![Input::Stop { reason: StopReason::User }]);
    assert!(off_request_inputs(false).is_empty());
}

#[test]
fn menu_checks_follow_the_view() {
    let cfg = AppConfig {
        language: Some(Lang::Zh),
        duration: DurationPref::Hours { hours: 8 },
        ..AppConfig::default()
    };
    let engine = Engine::new(cfg);
    let vm = engine.view(&panel_host());
    let checks = menu_checks(&cfg, &vm);
    assert!(checks.lang_zh && !checks.lang_en);
    assert_eq!(checks.duration, Some(DurationKey::Hours8));
    assert_eq!(checks.screen_off, cfg.screen_off);
    assert!(checks.battery_floor);
}

#[test]
fn menu_clicks_and_panel_commands_plan_the_same() {
    let cfg = AppConfig::default();
    let a = plan_menu_item(cfg, true, MenuItem::Duration(DurationKey::Hours3));
    let b = plan_ui_command(cfg, true, &UiCommand::SetDuration { value: "3h".into() });
    assert_eq!(a, b);
    assert!(a.save);
    assert_eq!(a.config.duration, DurationPref::Hours { hours: 3 });
    assert_eq!(a.inputs, vec![Input::Stop { reason: StopReason::User }, Input::StartWith(DurationPref::Hours { hours: 3 })]);
    let lid = plan_menu_item(cfg, true, MenuItem::Switch(OptionKey::LidAwake));
    assert_eq!(lid.config.keep_awake_on_lid_close, !cfg.keep_awake_on_lid_close);
    assert_eq!(lid.inputs, vec![Input::Tick]);
    let login = plan_ui_command(cfg, false, &UiCommand::SetOption { key: "launch_at_login".into(), enabled: true });
    assert_eq!(login.login, Some(true));
    assert_eq!(login.config, cfg);
    assert_eq!(login_result(cfg, true, false), cfg);
    assert!(login_result(cfg, true, true).launch_at_login);
    let lang = plan_ui_command(cfg, false, &UiCommand::SetLanguage { language: "zh".into() });
    assert_eq!(lang.relabel, Some(Lang::Zh));
    assert_eq!(lang.config.language, Some(Lang::Zh));
    let unknown = plan_ui_command(cfg, false, &UiCommand::SetOption { key: "bogus".into(), enabled: true });
    assert!(!unknown.save && unknown.inputs.is_empty());
    assert_eq!(plan_ui_command(cfg, false, &UiCommand::More).nav, PanelNav::More);
    assert!(plan_menu_item(cfg, false, MenuItem::Quit).quit);
    assert_eq!(plan_menu_item(cfg, false, MenuItem::Toggle).inputs, vec![Input::Toggle]);
}

#[test]
fn heartbeat_ticks_and_first_launch() {
    assert!(!tick_due(1_000, 900));
    assert!(tick_due(1_300, 900));
    assert!(!tick_due(100, 900));
    let (after, show) = launch_onboarding(AppConfig::default());
    assert!(show);
    assert!(after.onboarding_done);
    let (_, again) = launch_onboarding(after);
    assert!(!again);
}

#[test]
fn socket_requests_plan_inputs_and_replies() {
    let p = plan_ipc(false, Lang::En, &IpcRequest::on(Some("3h".into())));
    assert_eq!(p.inputs, vec![Input::StartWith(DurationPref::Hours { hours: 3 })]);
    assert_eq!(p.reply, IpcReply::Status);
    let p = plan_ipc(true, Lang::En, &IpcRequest::on(None));
    assert!(p.inputs.is_empty());
    let p = plan_ipc(true, Lang::En, &IpcRequest::on(Some("bad".into())));
    assert!(p.inputs.is_empty());
    assert!(matches!(p.reply, IpcReply::Error(_)));
    assert_eq!(plan_ipc(true, Lang::En, &IpcRequest::Off).inputs, vec![Input::Stop { reason: StopReason::User }]);
    assert_eq!(plan_ipc(false, Lang::En, &IpcRequest::Ping).reply, IpcReply::Pong);
    assert!(plan_ipc(false, Lang::En, &IpcRequest::Quit).quit);
}

#[test]
fn fresh_menu_checks_follow_the_settings() {
    let cfg = AppConfig { duration: DurationPref::UntilLocal { hour: 8, minute: 0 }, lock_screen: true, ..AppConfig::default() };
    let c = config_checks(&cfg);
    assert_eq!(c.duration, Some(DurationKey::Until0800));
    assert!(c.lock_screen && c.lang_en && !c.lang_zh);
}

#[test]
fn non_preset_duration_checks_no_preset() {
    for d in [
        DurationPref::Hours { hours: 2 },
        DurationPref::UntilLocal { hour: 22, minute: 30 },
        DurationPref::UntilLocal { hour: 8, minute: 1 },
    ] {
        let cfg = AppConfig { duration: d, ..AppConfig::default() };
        assert_eq!(config_checks(&cfg).duration, None);
        let vm = Engine::new(cfg).view(&panel_host());
        assert_eq!(menu_checks(&cfg, &vm).duration, None);
    }
    let cfg = AppConfig::default();
    assert_eq!(config_checks(&cfg).duration, Some(DurationKey::Indefinite));
}
