use never_sleep::{app_display_name, onboarding, Lang, Tr, DEFAULT_HOTKEY_LABEL};

#[test]
fn parse_language_tags() {
    assert_eq!(Lang::parse_opt("en"), Some(Lang::En));
    assert_eq!(Lang::parse_opt("en_US.UTF-8"), Some(Lang::En));
    assert_eq!(Lang::parse_opt("zh-Hans-CN"), Some(Lang::Zh));
    assert_eq!(Lang::parse_opt("zh_CN"), Some(Lang::Zh));
    assert_eq!(Lang::parse_opt("fr_FR"), None);
    assert_eq!(Lang::parse_opt("C"), None);
}

#[test]
fn preferred_tags_use_first() {
    assert_eq!(
        Lang::from_preferred_tags(&["zh-Hans-CN", "en-US"]),
        Some(Lang::Zh)
    );
    assert_eq!(
        Lang::from_preferred_tags(&["en-US", "zh-Hans"]),
        Some(Lang::En)
    );
    assert_eq!(Lang::from_preferred_tags(&["fr-FR"]), Some(Lang::En));
}

#[test]
fn english_is_default() {
    assert_eq!(Lang::default(), Lang::En);
    assert_eq!(
        Tr::new(Lang::En).start_standby(),
        "Start Screen-Off Standby"
    );
    assert_eq!(Tr::new(Lang::Zh).start_standby(), "开始关屏待命");
    assert_eq!(Tr::new(Lang::En).app_display_name(), "Never Sleep");
    assert_eq!(Tr::new(Lang::Zh).app_display_name(), "熄屏待命");
}

#[test]
fn help_copy_is_sectioned() {
    let en = Tr::new(Lang::En);
    let zh = Tr::new(Lang::Zh);
    assert_eq!(en.help_how(), "Get started");
    assert_eq!(zh.help_how(), "怎么用");
    assert!(en.onboarding().contains("Get started"));
    assert!(en.onboarding().contains("Keep in mind"));
    assert!(en.onboarding().contains(DEFAULT_HOTKEY_LABEL));
    assert!(zh.onboarding().contains("怎么用"));
    assert!(zh.onboarding().contains("请留意"));
    assert!(zh.onboarding().contains(DEFAULT_HOTKEY_LABEL));
}

#[test]
fn language_tags_are_trimmed_and_case_folded() {
    assert_eq!(Lang::parse_opt("  ZH-hant "), Some(Lang::Zh));
    assert_eq!(Lang::parse_opt("English"), Some(Lang::En));
    assert_eq!(Lang::parse_opt("chi"), Some(Lang::Zh));
    assert_eq!(Lang::parse_opt("cn.GBK"), Some(Lang::Zh));
    assert_eq!(Lang::parse_opt("eng@euro"), Some(Lang::En));
    assert_eq!(Lang::parse_opt(""), None);
    assert_eq!(Lang::parse_opt("-en"), None);
    assert_eq!(Lang::from_preferred_tags(&[]), None);
    assert_eq!(Lang::En.override_or(Some(Lang::Zh)), Lang::Zh);
    assert_eq!(Lang::Zh.override_or(None), Lang::Zh);
    assert!(Lang::Zh.is_chinese());
    assert!(!Lang::En.is_chinese());
}

#[test]
fn formatted_strings_in_both_languages() {
    let en = Tr::new(Lang::En);
    let zh = Tr::new(Lang::Zh);
    assert_eq!(en.hours(1), "1 hour");
    assert_eq!(en.hours(8), "8 hours");
    assert_eq!(zh.hours(1), "1 小时");
    assert_eq!(en.until_clock(8, 5), "Until 08:05");
    assert_eq!(zh.until_clock(22, 30), "到 22:30");
    assert_eq!(en.battery_floor_on(20), "End when battery is below 20%");
    assert_eq!(zh.battery_floor_on(20), "电量低于 20% 时结束");
    assert_eq!(en.battery_percent(64), "Battery 64%");
    assert_eq!(en.standby_elapsed("1 min"), "Standby · 1 min elapsed");
    assert_eq!(zh.standby_elapsed("1 分钟"), "待命中 · 已 1 分钟");
    assert_eq!(en.remaining("1 hr"), "1 hr left");
    assert_eq!(zh.remaining("1 小时"), "剩余 1 小时");
    assert_eq!(en.tooltip_active(), "Never Sleep · running");
    assert_eq!(zh.tooltip_idle(), "熄屏待命 · 已关闭");
    assert_eq!(
        en.notify_started_body_screen_off(2, DEFAULT_HOTKEY_LABEL),
        "Display will sleep in about 2 seconds; the Mac stays awake. Press ⌥⌘P to end."
    );
    assert_eq!(
        zh.notify_started_body_keep_awake(DEFAULT_HOTKEY_LABEL),
        "电脑将保持运行（不强制关屏）。按 ⌥⌘P 结束。"
    );
    assert_eq!(en.remaining_clause("5 min"), " 5 min left.");
    assert_eq!(
        en.menubar_not_running(),
        "Menu bar is not running. Open Never Sleep, or run `never-sleep on` in the foreground."
    );
    assert_eq!(
        en.cli_status_line("asleep", "Lid open", "Battery", Some(40)),
        "Standby · display asleep · Lid open · Battery · battery 40%"
    );
    assert_eq!(
        zh.cli_status_line("asleep", "开盖", "电池", None),
        "待命中 · 屏幕 asleep · 开盖 · 电池"
    );
    assert_eq!(
        en.displaysleep_both_failed(-536870212),
        "Could not sleep the display: pmset and IORequestIdle both failed (IOReturn -536870212)"
    );
    assert_eq!(
        en.doctor_snapshot(false, Some(80), true, None, 1500, "nominal"),
        "Power: Battery\nBattery: Some(80)\nLid closed: true\nDisplay asleep: None\nHID idle: 1500 ms\nThermal: nominal\n"
    );
    assert_eq!(
        zh.doctor_snapshot(true, None, false, Some(true), 0, "critical"),
        "电源: AC\n电量: None\n合盖: false\n屏幕休眠: Some(true)\nHID空闲: 0 ms\n过热: critical\n"
    );
    assert_eq!(en.parse_invalid_hour("x:1"), "Invalid hour: x:1");
    assert_eq!(zh.ipc_not_started("boom"), "IPC 未启动：boom（命令行将以前台模式工作）");
    assert_eq!(en.hotkey_failed("⌥⌘P"), "Could not register ⌥⌘P; use the menu instead.");
    assert_eq!(en.power_assertion_failed("denied"), "Power assertion failed: denied");
    assert_eq!(zh.sleep_display_failed("x"), "关屏失败：x");
    assert_eq!(app_display_name(Lang::Zh), "熄屏待命");
    assert_eq!(onboarding(Lang::En), en.onboarding());
    assert_eq!(en.language_chinese(), "简体中文");
    assert_eq!(zh.language_english(), "English");
}

#[test]
fn native_panel_lid_copy_keeps_best_effort() {
    let en = Tr::new(Lang::En).lid_awake();
    let zh = Tr::new(Lang::Zh).lid_awake();
    assert!(
        en.contains("best effort"),
        "runtime English lid copy must keep the best-effort qualifier: {en}"
    );
    assert!(zh.contains("合盖") || zh.contains("尽力"));
}
