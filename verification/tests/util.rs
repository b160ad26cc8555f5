use never_sleep::locale::{detect, lang_from_locale_vars};
use never_sleep::locale::parse_quoted_tokens;
use never_sleep::util::{is_inside_app_bundle, launch_agent_is_stale, xml_escape};
use never_sleep::Lang;

#[test]
fn escapes_xml_metacharacters() {
    assert_eq!(
        xml_escape(r#"C:\A & B <app>.app"#),
        r#"C:\A &amp; B &lt;app&gt;.app"#
    );
    assert_eq!(
        xml_escape(r#"say "hi" & 'bye'"#),
        r#"say &quot;hi&quot; &amp; &apos;bye&apos;"#
    );
    assert_eq!(xml_escape(""), "");
}

#[test]
fn launch_agent_stale_after_bundle_rename() {
    let old = r#"<string>/Applications/熄屏待命.app</string>"#;
    assert!(launch_agent_is_stale(old, "/Applications/Never Sleep.app"));
    let current = r#"<string>/Applications/Never Sleep.app</string>"#;
    assert!(!launch_agent_is_stale(current, "/Applications/Never Sleep.app"));
    let elsewhere = r#"<string>/tmp/never-sleep</string>"#;
    assert!(launch_agent_is_stale(elsewhere, "/Applications/Never Sleep.app"));
}

#[test]
fn bundle_detection_looks_at_app_suffix() {
    assert!(is_inside_app_bundle("/Applications/Never Sleep.app/Contents/MacOS/never-sleep"));
    assert!(!is_inside_app_bundle("/usr/local/bin/never-sleep"));
    assert!(is_inside_app_bundle("Never Sleep.app"));
    assert!(!is_inside_app_bundle("/opt/apps/never-sleep.application/bin"));
    assert!(!is_inside_app_bundle(".ap"));
}

#[test]
fn parse_apple_languages_plist() {
    let raw = r#"
(
    "zh-Hans-CN",
    "en-US"
)
"#;
    let tags = parse_quoted_tokens(raw);
    assert_eq!(tags, vec!["zh-Hans-CN", "en-US"]);
    let refs: Vec<&str> = tags.iter().map(|s| s.as_str()).collect();
    assert_eq!(Lang::from_preferred_tags(&refs), Some(Lang::Zh));
}

#[test]
fn quoted_tokens_skip_empty_and_unpaired_quotes() {
    assert_eq!(parse_quoted_tokens(r#""" "a" "b"#), vec!["a"]);
    assert!(parse_quoted_tokens("no quotes").is_empty());
}

#[test]
fn locale_variables_pick_the_language() {
    assert_eq!(lang_from_locale_vars(&[None, None, Some("zh_CN.UTF-8")]), Lang::Zh);
    assert_eq!(lang_from_locale_vars(&[Some(""), Some("zh_TW"), Some("en_US")]), Lang::Zh);
    assert_eq!(lang_from_locale_vars(&[Some("C"), Some("zh_TW"), None]), Lang::En);
    assert_eq!(lang_from_locale_vars(&[None, None, None]), Lang::En);
    assert_eq!(detect(Some("zh"), Some(Lang::En), Lang::En), Lang::Zh);
    assert_eq!(detect(Some("fr"), Some(Lang::Zh), Lang::En), Lang::Zh);
    assert_eq!(detect(None, None, Lang::Zh), Lang::Zh);
}
