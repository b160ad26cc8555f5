use never_sleep::{parse_duration_pref, parse_duration_pref_in, AppConfig, DurationPref, Lang};

#[test]
fn parse_duration_variants() {
    assert_eq!(
        parse_duration_pref("indefinite").unwrap(),
        DurationPref::Indefinite
    );
    assert_eq!(
        parse_duration_pref("3h").unwrap(),
        DurationPref::Hours { hours: 3 }
    );
    assert_eq!(
        parse_duration_pref("until=08:00").unwrap(),
        DurationPref::UntilLocal { hour: 8, minute: 0 }
    );
    assert_eq!(
        parse_duration_pref("22:30").unwrap(),
        DurationPref::UntilLocal {
            hour: 22,
            minute: 30
        }
    );
}

#[test]
fn parse_duration_errors_follow_language() {
    let en = parse_duration_pref_in("nope", Lang::En).unwrap_err();
    assert!(en.contains("HH:MM"), "{en}");
    let zh = parse_duration_pref_in("nope", Lang::Zh).unwrap_err();
    assert!(zh.contains("HH:MM"), "{zh}");
    assert_ne!(en, zh);
}

#[test]
fn parse_duration_accepts_spacing_case_and_synonyms() {
    assert_eq!(parse_duration_pref("  Indefinite ").unwrap(), DurationPref::Indefinite);
    assert_eq!(parse_duration_pref("").unwrap(), DurationPref::Indefinite);
    assert_eq!(parse_duration_pref("forever").unwrap(), DurationPref::Indefinite);
    assert_eq!(parse_duration_pref("无限").unwrap(), DurationPref::Indefinite);
    assert_eq!(parse_duration_pref("8H").unwrap(), DurationPref::Hours { hours: 8 });
    assert_eq!(parse_duration_pref("+2h").unwrap(), DurationPref::Hours { hours: 2 });
    assert_eq!(parse_duration_pref("3 小时").unwrap(), DurationPref::Hours { hours: 3 });
    assert_eq!(
        parse_duration_pref("0 小时").unwrap_err(),
        "Duration must be at least 1 hour, or use indefinite"
    );
    assert_eq!(
        parse_duration_pref_in("0小时", Lang::Zh).unwrap_err(),
        "时长至少 1 小时，或使用 indefinite"
    );
    assert_eq!(
        parse_duration_pref("UNTIL:7:05").unwrap(),
        DurationPref::UntilLocal { hour: 7, minute: 5 }
    );
}

#[test]
fn parse_duration_error_variants() {
    assert_eq!(
        parse_duration_pref("0h").unwrap_err(),
        "Duration must be at least 1 hour, or use indefinite"
    );
    assert_eq!(parse_duration_pref("xh").unwrap_err(), "Could not parse duration: xh");
    assert_eq!(
        parse_duration_pref("4294967296h").unwrap_err(),
        "Could not parse duration: 4294967296h"
    );
    assert_eq!(parse_duration_pref("8").unwrap_err(), "Time must be HH:MM, got 8");
    assert_eq!(parse_duration_pref("1:2:3").unwrap_err(), "Time must be HH:MM, got 1:2:3");
    assert_eq!(parse_duration_pref("aa:00").unwrap_err(), "Invalid hour: aa:00");
    assert_eq!(parse_duration_pref("08:").unwrap_err(), "Invalid minute: 08:");
    assert_eq!(parse_duration_pref("24:00").unwrap_err(), "Invalid time: 24:00");
    assert_eq!(parse_duration_pref("until=300:00").unwrap_err(), "Invalid hour: 300:00");
    assert_eq!(
        parse_duration_pref_in("12:60", Lang::Zh).unwrap_err(),
        "无效时间: 12:60"
    );
}

#[test]
fn config_language_prefers_the_process_override() {
    let cfg = AppConfig::default();
    assert_eq!(cfg.lang(), Lang::En);
    let saved = AppConfig {
        language: Some(Lang::Zh),
        ..AppConfig::default()
    };
    assert_eq!(saved.lang(), Lang::Zh);
    let overridden = AppConfig {
        env_lang: Some(Lang::En),
        ..saved
    };
    assert_eq!(overridden.lang(), Lang::En);
    let unset = AppConfig {
        language: None,
        ..AppConfig::default()
    };
    assert_eq!(unset.lang(), Lang::En);
}

#[test]
fn battery_floor_label_in_both_languages() {
    let cfg = AppConfig::default();
    assert_eq!(cfg.battery_floor_label(), "End when battery is below 20%");
    let zh = AppConfig {
        language: Some(Lang::Zh),
        battery_floor_percent: None,
        ..AppConfig::default()
    };
    assert_eq!(zh.battery_floor_label(), "电量过低时不自动结束");
    assert_eq!(DurationPref::UntilLocal { hour: 8, minute: 0 }.label(Lang::En), "Until 08:00");
    assert_eq!(DurationPref::Hours { hours: 1 }.label(Lang::En), "1 hour");
    assert_eq!(DurationPref::Hours { hours: 3 }.label(Lang::Zh), "3 小时");
    assert_eq!(DurationPref::Indefinite.label(Lang::Zh), "无限期");
}
