use never_sleep::panel::{
    dismiss_on_focus_loss, hero_flips, hero_shows_moon, join_help_step3, panel_fill_rgb,
    panel_placement, panel_state, panel_timer, preferred_glass, DurationKey, GlassKind, PanelPlacement, PanelView,
    SidebarItem, ToggleGate, TOGGLE_COOLDOWN_MS,
};
use never_sleep::{
    build_view_model, AppConfig, DurationPref, Engine, HostSnapshot, Input, Lang, Thermal, Tr,
    DEFAULT_BATTERY_FLOOR, DEFAULT_HOTKEY_LABEL,
};

#[test]
fn preferred_glass_uses_liquid_glass_when_class_exists() {
    assert_eq!(preferred_glass(true), GlassKind::LiquidGlass);
    assert_eq!(preferred_glass(false), GlassKind::Vibrancy);
}

#[test]
fn panel_views_are_main_settings_and_help() {
    assert_ne!(PanelView::Main, PanelView::Settings);
    assert_ne!(PanelView::Settings, PanelView::Help);
    assert_ne!(PanelView::Help, PanelView::Main);
}

#[test]
fn sidebar_lists_standby_options_and_help() {
    assert_eq!(SidebarItem::all().len(), 6);
    assert_eq!(SidebarItem::Standby.as_panel_view(), PanelView::Main);
    assert_eq!(SidebarItem::Display.as_panel_view(), PanelView::Settings);
    assert_eq!(SidebarItem::Help.as_panel_view(), PanelView::Help);
    assert_eq!(SidebarItem::Standby.symbol(), "moon.zzz");
    assert_eq!(SidebarItem::from_index(5), Some(SidebarItem::Help));
    assert_eq!(SidebarItem::from_index(9), None);
    for item in SidebarItem::all() {
        assert_eq!(SidebarItem::from_index(item.index()), Some(item));
    }
}

#[test]
fn screenshot_panel_tokens_match_docs_shots() {
    assert_eq!(panel_fill_rgb(false), [0xf5, 0xf5, 0xf7]);
    assert_eq!(panel_fill_rgb(true), [0x1c, 0x1c, 0x1e]);
    assert!(!hero_shows_moon(false));
    assert!(hero_shows_moon(true));
}

#[test]
fn panel_placement_anchors_under_the_menu_bar() {
    assert_eq!(panel_placement(), PanelPlacement::MenuBar);
    assert!(
        dismiss_on_focus_loss(),
        "a menu-bar popover must hide when it loses key focus"
    );
}

#[test]
fn help_copy_wraps_inside_the_grouped_card() {
    assert_eq!(
        join_help_step3("按", "⌥⌘P", "，或点菜单「结束待命」。"),
        "按 ⌥⌘P，或点菜单「结束待命」。"
    );
    assert_eq!(
        join_help_step3("Press", "⌥⌘P", "or choose “End Standby” in the menu."),
        "Press ⌥⌘P or choose “End Standby” in the menu."
    );
    assert_eq!(join_help_step3("a", "K", ", b"), "a K, b");
    assert_eq!(join_help_step3("a", "K", ""), "a K ");
}

#[test]
fn standby_click_is_one_half_turn() {
    assert!(hero_flips(false));
    assert!(!hero_shows_moon(false) && hero_shows_moon(true));
}

#[test]
fn hero_flip_and_color_respect_reduce_motion() {
    assert!(hero_flips(false));
    assert!(!hero_flips(true));
}

#[test]
fn toggle_gate_ignores_clicks_until_cooldown() {
    let mut gate = ToggleGate::default();
    let t0 = 1_000_000u64;
    assert!(gate.take_click_at(t0), "the first primary click must start standby");
    assert!(
        !gate.take_click_at(t0 + 10),
        "a queued double-click must not toggle standby back off"
    );
    assert!(!gate.take_click_at(t0 + 200));
    assert!(
        gate.take_click_at(t0 + TOGGLE_COOLDOWN_MS),
        "End Standby must work after a short pause without waiting for heartbeat"
    );
    assert!(!gate.take_click_at(t0 + TOGGLE_COOLDOWN_MS + 1));
}

#[test]
fn duration_key_roundtrip_covers_menu_presets() {
    let cases = [
        (DurationPref::Indefinite, DurationKey::Indefinite, "indefinite"),
        (DurationPref::Hours { hours: 1 }, DurationKey::Hours1, "1h"),
        (DurationPref::Hours { hours: 3 }, DurationKey::Hours3, "3h"),
        (DurationPref::Hours { hours: 8 }, DurationKey::Hours8, "8h"),
        (
            DurationPref::UntilLocal { hour: 8, minute: 0 },
            DurationKey::Until0800,
            "until_0800",
        ),
    ];
    for (pref, key, ipc) in cases {
        assert_eq!(DurationKey::from_pref(pref), key);
        assert_eq!(key.as_ipc(), ipc);
        assert_eq!(DurationKey::from_index(key.index()), Some(key));
    }
    assert_eq!(DurationKey::from_index(9), None);
    assert_eq!(
        DurationKey::from_pref(DurationPref::Hours { hours: 2 }),
        DurationKey::Indefinite
    );
}

fn timer_host() -> HostSnapshot {
    HostSnapshot {
        monotonic_ms: 5_000,
        continuous_ms: 5_000,
        unix_secs: 1_700_000_000,
        utc_offset_secs: 0,
        on_ac: true,
        battery_percent: Some(64),
        lid_closed: false,
        display_asleep: Some(false),
        hid_idle_ms: 1_000,
        thermal: Thermal::Nominal,
    }
}

#[test]
fn panel_timer_counts_up_or_down() {
    let cfg = AppConfig::default();
    let idle = build_view_model(&cfg, false, None, None, &timer_host(), None, false);
    assert_eq!(panel_timer(&idle), None);
    let indefinite = build_view_model(&cfg, true, Some(0), None, &timer_host(), None, false);
    assert_eq!(panel_timer(&indefinite).as_deref(), Some("0:00"));
    let later = build_view_model(&cfg, true, Some(3_725), None, &timer_host(), None, false);
    assert_eq!(panel_timer(&later).as_deref(), Some("1:02:05"));
    let timed_cfg = AppConfig {
        duration: DurationPref::Hours { hours: 1 },
        ..AppConfig::default()
    };
    let timed = build_view_model(&timed_cfg, true, Some(0), Some(3_600), &timer_host(), None, false);
    assert_eq!(panel_timer(&timed).as_deref(), Some("1:00:00"));
    let until_cfg = AppConfig {
        duration: DurationPref::UntilLocal { hour: 8, minute: 0 },
        ..AppConfig::default()
    };
    let until = build_view_model(&until_cfg, true, Some(10), Some(59), &timer_host(), None, false);
    assert_eq!(panel_timer(&until).as_deref(), Some("0:00:59"));
}

#[test]
fn panel_state_keeps_help_settings_and_more() {
    let cfg = AppConfig::default();
    let engine = Engine::new(cfg);
    let state = panel_state(&cfg, &engine.view(&timer_host()));
    let t = Tr::new(Lang::En);
    assert_eq!(state.more_settings, t.more_settings());
    assert_eq!(state.settings, t.settings_title());
    assert_eq!(state.section_session, t.panel_section_session());
    assert_eq!(state.language_label, t.language_menu());
    assert!(state.hotkey_hint.contains(DEFAULT_HOTKEY_LABEL));
    assert_eq!(state.help, t.help_title());
    assert_eq!(state.back, t.back());
    assert_eq!(state.help_how, t.help_how());
    assert_eq!(state.help_note_lid, t.help_note_lid());
    assert!(state.lid_awake_label.contains("best effort"));
    assert!(state.help_note_lid.contains("power"));
    assert!(state.help_step3.contains(DEFAULT_HOTKEY_LABEL));
    assert_eq!(state.help_hotkey, DEFAULT_HOTKEY_LABEL);
    assert_eq!(state.help_step3_before, t.help_step3_before());
    assert_eq!(state.battery, t.battery_floor_on(DEFAULT_BATTERY_FLOOR));
    assert!(!state.active);
    assert_eq!(state.status_title, t.panel_idle_title());
    assert_eq!(state.summary, t.panel_summary_idle());
}

#[test]
fn panel_state_follows_language_and_standby() {
    let cfg = AppConfig {
        language: Some(Lang::Zh),
        ..AppConfig::default()
    };
    let mut engine = Engine::new(cfg);
    let _ = engine.handle(Input::Start, &timer_host());
    let vm = engine.view(&timer_host());
    let state = panel_state(&engine.config, &vm);
    let t = Tr::new(Lang::Zh);
    assert!(state.active);
    assert_eq!(state.lang, Lang::Zh);
    assert_eq!(state.status_title, t.panel_active_title());
    assert_eq!(state.summary, t.panel_summary_active());
    assert_eq!(state.primary_action, t.end_standby());
    assert_eq!(state.more_settings, "设置");
    assert_eq!(state.section_session, "待命");
    assert_eq!(state.section_display, "屏幕");
    assert_eq!(state.section_lid, "合盖");
    assert_eq!(state.section_safeguards, "保护");
    assert_eq!(state.section_general, "通用");
    assert_eq!(state.language_label, "语言");
    assert!(!state.help_note_lid.contains("熄屏待命"));
    assert!(
        state.help_step3.contains("⌥⌘P，或"),
        "Chinese step 3 must not break after the hotkey: {}",
        state.help_step3
    );
}

#[test]
fn panel_state_uses_grouped_macos_sections() {
    let cfg = AppConfig::default();
    let engine = Engine::new(cfg);
    let state = panel_state(&cfg, &engine.view(&timer_host()));
    let t = Tr::new(Lang::En);
    assert_eq!(state.section_session, "Session");
    assert_eq!(state.section_display, "Display");
    assert_eq!(state.section_lid, "Lid");
    assert_eq!(state.section_safeguards, "Safeguards");
    assert_eq!(state.section_general, "General");
    assert_eq!(state.language_label, "Language");
    assert_eq!(state.more_settings, "Settings");
    assert_eq!(state.sidebar_options, "Options");
    assert_eq!(state.sidebar_guide, "Guide");
    assert_eq!(state.pane_display_lead, t.pane_display_lead());
    assert_eq!(state.pane_general_lead, t.pane_general_lead());
    assert!(state.pane_lid_lead.contains("best-effort"));
    assert_eq!(state.hotkey_hint, t.panel_hotkey_hint());
    assert_eq!(state.primary_action, t.start_standby());
    assert!(state.hotkey_hint.contains("display off"));
}

#[test]
fn panel_copy_matches_runtime_actions_and_product_name() {
    let en = Tr::new(Lang::En);
    let zh = Tr::new(Lang::Zh);
    assert_eq!(en.start_standby(), "Start Screen-Off Standby");
    assert_eq!(zh.start_standby(), "开始关屏待命");
    assert_eq!(en.panel_idle_title(), "Not Active");
    assert_eq!(zh.panel_active_title(), "关屏待命中");
    assert!(!zh.help_step1_detail().contains("熄屏待命"));
    assert!(!zh.panel_summary_active().contains("熄屏待命"));
}
