//! English-first bilingual strings (en + zh-Hans).
//!
//! English is the default and the fallback. Chinese is used when the UI language
//! is `zh` (system Chinese, `--lang zh`, or `NEVER_SLEEP_LANG=zh`).

use vstd::prelude::*;

use crate::config::DurationPref;
use crate::text::{
    chars_of, dec, lower_chars, lower_seq, pad2, push_char, push_dec, push_pad2, range_eq,
    trim_chars, trim_seq,
};

verus! {

pub const APP_NAME: &'static str = "Never Sleep";

pub const BUNDLE_ID: &'static str = "com.seasonxue.never-sleep";

pub const DEFAULT_HOTKEY_LABEL: &'static str = "⌥⌘P";

pub const LANG_ENV: &'static str = "NEVER_SLEEP_LANG";

/// UI language. English is the default and the fallback.
#[derive(Debug, Clone, Copy, PartialEq, Eq, Structural)]
pub enum Lang {
    En,
    Zh,
}

impl Default for Lang {
    fn default() -> (r: Self)
        ensures
            r == Lang::En,
    {
        Lang::En
    }
}

/// Separators between the subtags of a language tag or locale name
/// (`zh-Hans`, `en_US.UTF-8`, `sr@latin`).
pub open spec fn is_tag_sep(c: char) -> bool {
    c == '-' || c == '_' || c == '.' || c == '@'
}

/// Index of the first separator at or after `i`, or the length when there is none.
pub open spec fn first_sep_from(s: Seq<char>, i: int) -> int
    decreases s.len() - i,
{
    if i < 0 || i >= s.len() || is_tag_sep(s[i]) {
        i
    } else {
        first_sep_from(s, i + 1)
    }
}

/// The primary subtag of a language tag: trimmed, ASCII-lowercased, up to the
/// first separator.
pub open spec fn primary_subtag(raw: Seq<char>) -> Seq<char> {
    let t = lower_seq(trim_seq(raw));
    t.take(first_sep_from(t, 0))
}

/// The language a tag names, by its primary subtag.
pub open spec fn lang_of_tag(raw: Seq<char>) -> Option<Lang> {
    let p = primary_subtag(raw);
    if p == "zh"@ || p == "chi"@ || p == "chinese"@ || p == "cn"@ {
        Some(Lang::Zh)
    } else if p == "en"@ || p == "eng"@ || p == "english"@ {
        Some(Lang::En)
    } else {
        None
    }
}

/// The language a list of preferred tags resolves to: the first tag decides;
/// anything but Chinese is English; no tags, no answer.
pub open spec fn lang_of_preferred(tags: Seq<Seq<char>>) -> Option<Lang> {
    if tags.len() == 0 {
        None
    } else if lang_of_tag(tags[0]) == Some(Lang::Zh) {
        Some(Lang::Zh)
    } else {
        Some(Lang::En)
    }
}

impl Lang {
    /// Reads a language tag or locale name (`en`, `en_US.UTF-8`, `zh-Hans-CN`).
    /// Anything but English or Chinese gives `None`.
    pub fn parse_opt(raw: &str) -> (r: Option<Self>)
        ensures
            r == lang_of_tag(raw@),
    {
        let v = chars_of(raw);
        let t = trim_chars(&v);
        let s = lower_chars(&t);
        let mut i: usize = 0;
        while i < s.len() && !(s[i] == '-' || s[i] == '_' || s[i] == '.' || s[i] == '@')
            invariant
                i <= s@.len(),
                first_sep_from(s@, 0) == first_sep_from(s@, i as int),
            decreases s@.len() - i,
        {
            i += 1;
        }
        assert(s@.subrange(0, i as int) =~= primary_subtag(raw@));
        if range_eq(&s, 0, i, "zh") || range_eq(&s, 0, i, "chi") || range_eq(&s, 0, i, "chinese")
            || range_eq(&s, 0, i, "cn") {
            Some(Lang::Zh)
        } else if range_eq(&s, 0, i, "en") || range_eq(&s, 0, i, "eng") || range_eq(
            &s,
            0,
            i,
            "english",
        ) {
            Some(Lang::En)
        } else {
            None
        }
    }

    /// First preferred language tag wins; non-Chinese tags resolve to English.
    pub fn from_preferred_tags(tags: &[&str]) -> (r: Option<Self>)
        ensures
            r == lang_of_preferred(tags@.map_values(|t: &str| t@)),
    {
        if tags.len() == 0 {
            return None;
        }
        let first = tags[0];
        assert(tags@.map_values(|t: &str| t@)[0] == first@);
        match Self::parse_opt(first) {
            Some(Lang::Zh) => Some(Lang::Zh),
            _ => Some(Lang::En),
        }
    }

    /// The process override (`NEVER_SLEEP_LANG`, read by the caller) when there
    /// is one, otherwise this language.
    pub fn override_or(self, env_override: Option<Lang>) -> (r: Self)
        ensures
            r == (match env_override {
                Some(l) => l,
                None => self,
            }),
    {
        match env_override {
            Some(l) => l,
            None => self,
        }
    }

    pub fn is_chinese(self) -> (r: bool)
        ensures
            r == (self == Lang::Zh),
    {
        match self {
            Lang::Zh => true,
            Lang::En => false,
        }
    }
}

/// The text for `lang` out of an English and a Chinese version.
pub open spec fn pick_text(lang: Lang, en: Seq<char>, zh: Seq<char>) -> Seq<char> {
    match lang {
        Lang::En => en,
        Lang::Zh => zh,
    }
}

/// `Debug` form of an optional number: `Some(80)` or `None`.
pub open spec fn opt_num_debug(o: Option<u8>) -> Seq<char> {
    match o {
        Some(n) => "Some("@ + dec(n as nat) + ")"@,
        None => "None"@,
    }
}

/// `Display` form of a boolean.
pub open spec fn bool_text(b: bool) -> Seq<char> {
    if b {
        "true"@
    } else {
        "false"@
    }
}

/// `Debug` form of an optional boolean.
pub open spec fn opt_bool_debug(o: Option<bool>) -> Seq<char> {
    match o {
        Some(b) => "Some("@ + bool_text(b) + ")"@,
        None => "None"@,
    }
}

/// Decimal spelling of a signed number.
pub open spec fn idec(i: int) -> Seq<char> {
    if i < 0 {
        seq!['-'] + dec((-i) as nat)
    } else {
        dec(i as nat)
    }
}

fn push_idec(s: &mut String, i: i32)
    ensures
        final(s)@ == old(s)@ + idec(i as int),
{
    if i < 0 {
        push_char(s, '-');
        let m: i64 = -(i as i64);
        push_dec(s, m as u64);
        assert(old(s)@ + seq!['-'] + dec(m as nat) =~= old(s)@ + idec(i as int));
    } else {
        push_dec(s, i as u64);
    }
}

fn push_bool(s: &mut String, b: bool)
    ensures
        final(s)@ == old(s)@ + bool_text(b),
{
    if b {
        s.append("true");
    } else {
        s.append("false");
    }
}

fn push_opt_num_debug(s: &mut String, o: Option<u8>)
    ensures
        final(s)@ == old(s)@ + opt_num_debug(o),
{
    match o {
        Some(b) => {
            s.append("Some(");
            push_dec(s, b as u64);
            s.append(")");
        },
        None => s.append("None"),
    }
}

fn push_opt_bool_debug(s: &mut String, o: Option<bool>)
    ensures
        final(s)@ == old(s)@ + opt_bool_debug(o),
{
    match o {
        Some(b) => {
            s.append("Some(");
            push_bool(s, b);
            s.append(")");
        },
        None => s.append("None"),
    }
}

/// The UI texts of one language.
#[derive(Debug, Clone, Copy, PartialEq, Eq)]
pub struct Tr {
    pub lang: Lang,
}

impl Tr {
    pub fn new(lang: Lang) -> (r: Self)
        ensures
            r.lang == lang,
    {
        Self { lang }
    }

    fn pick(self, en: &'static str, zh: &'static str) -> (r: &'static str)
        ensures
            r@ == pick_text(self.lang, en@, zh@),
    {
        match self.lang {
            Lang::En => en,
            Lang::Zh => zh,
        }
    }

    /// `before + arg + after` in the UI language.
    fn around(self, en_before: &str, en_after: &str, zh_before: &str, zh_after: &str, arg: &str) -> (r: String)
        ensures
            r@ == pick_text(self.lang, en_before@ + arg@ + en_after@, zh_before@ + arg@ + zh_after@),
    {
        let mut s = String::new();
        match self.lang {
            Lang::En => {
                s.append(en_before);
                s.append(arg);
                s.append(en_after);
            },
            Lang::Zh => {
                s.append(zh_before);
                s.append(arg);
                s.append(zh_after);
            },
        }
        s
    }

    pub fn app_display_name(self) -> (r: &'static str)
        ensures
            r@ == pick_text(self.lang, APP_NAME@, "熄屏待命"@),
    {
        self.pick(APP_NAME, "熄屏待命")
    }

    pub fn onboarding(self) -> (r: &'static str)
        ensures
            r@ == pick_text(self.lang, ONBOARDING_EN@, ONBOARDING_ZH@),
    {
        self.pick(ONBOARDING_EN, ONBOARDING_ZH)
    }

    pub fn language_english(self) -> (r: &'static str)
        ensures
            r@ == "English"@,
    {
        "English"
    }

    pub fn language_chinese(self) -> (r: &'static str)
        ensures
            r@ == "简体中文"@,
    {
        "简体中文"
    }

    pub fn welcome_title(self) -> (r: &'static str)
        ensures
            r@ == pick_text(self.lang, "Welcome to Never Sleep"@, "欢迎使用熄屏待命"@),
    {
        self.pick("Welcome to Never Sleep", "欢迎使用熄屏待命")
    }

    pub fn help_title(self) -> (r: &'static str)
        ensures
            r@ == help_title_text(self.lang),
    {
        self.pick("How to use", "使用说明")
    }

    pub fn help_kicker(self) -> (r: &'static str)
        ensures
            r@ == help_kicker_text(self.lang),
    {
        self.pick("Display off · Mac online", "关屏护屏 · 电脑在线")
    }

    pub fn help_lead(self) -> (r: &'static str)
        ensures
            r@ == help_lead_text(self.lang),
    {
        self.pick("Remote clients such as ChatGPT and Codex can keep connecting.", "ChatGPT / Codex 等远程客户端仍可连上这台电脑。")
    }

    pub fn help_how(self) -> (r: &'static str)
        ensures
            r@ == help_how_text(self.lang),
    {
        self.pick("Get started", "怎么用")
    }

    pub fn help_step1_title(self) -> (r: &'static str)
        ensures
            r@ == help_step1_title_text(self.lang),
    {
        self.pick("Start standby", "开始待命")
    }

    pub fn help_step1_detail(self) -> (r: &'static str)
        ensures
            r@ == help_step1_detail_text(self.lang),
    {
        self.pick("Click “Start Screen-Off Standby”. The display sleeps after about 1.5 seconds.", "点「开始关屏待命」，约 1.5 秒后屏幕关闭。")
    }

    pub fn help_step2_title(self) -> (r: &'static str)
        ensures
            r@ == help_step2_title_text(self.lang),
    {
        self.pick("Stays out of your way", "不抢屏幕")
    }

    pub fn help_step2_detail(self) -> (r: &'static str)
        ensures
            r@ == help_step2_detail_text(self.lang),
    {
        self.pick("It will not fight you for the screen while you type; it sleeps again after you leave.", "人在电脑前绝不强制关屏；走开后再自动关闭。")
    }

    pub fn help_step3_title(self) -> (r: &'static str)
        ensures
            r@ == help_step3_title_text(self.lang),
    {
        self.pick("Come back any time", "随时回来")
    }

    pub fn help_step3_before(self) -> (r: &'static str)
        ensures
            r@ == help_step3_before_text(self.lang),
    {
        self.pick("Press", "按")
    }

    pub fn help_step3_after(self) -> (r: &'static str)
        ensures
            r@ == help_step3_after_text(self.lang),
    {
        self.pick("or choose “End Standby” in the menu.", "，或点菜单「结束待命」。")
    }

    pub fn help_notes(self) -> (r: &'static str)
        ensures
            r@ == help_notes_text(self.lang),
    {
        self.pick("Keep in mind", "请留意")
    }

    pub fn help_note_lid(self) -> (r: &'static str)
        ensures
            r@ == help_note_lid_text(self.lang),
    {
        self.pick("Closed-lid stay-awake is best-effort, and more reliable on power. Lid open + display asleep is the reliable path.", "合盖保活是尽力而为，插电更稳；最可靠仍是开盖熄屏。")
    }

    pub fn help_note_battery(self) -> (r: &'static str)
        ensures
            r@ == help_note_battery_text(self.lang),
    {
        self.pick("Standby ends automatically on low battery so the pack is not drained.", "电量过低会自动结束，避免把电池耗干。")
    }

    pub fn help_note_quit(self) -> (r: &'static str)
        ensures
            r@ == help_note_quit_text(self.lang),
    {
        self.pick("Quitting restores normal sleep. Energy Saver settings are never rewritten.", "退出后立即恢复系统睡眠，不会改写节能设置。")
    }

    pub fn dialog_ok(self) -> (r: &'static str)
        ensures
            r@ == pick_text(self.lang, "OK"@, "好"@),
    {
        self.pick("OK", "好")
    }

    pub fn idle_status(self) -> (r: &'static str)
        ensures
            r@ == idle_status_text(self.lang),
    {
        self.pick("Idle · click to start", "未待命 · 点击开始")
    }

    pub fn standby_status(self) -> (r: &'static str)
        ensures
            r@ == standby_status_text(self.lang),
    {
        self.pick("Standby", "待命中")
    }

    pub fn will_sleep_display(self) -> (r: &'static str)
        ensures
            r@ == will_sleep_display_text(self.lang),
    {
        self.pick("Will sleep the display and keep the Mac running", "将关闭屏幕、保持系统运行")
    }

    pub fn will_keep_awake_only(self) -> (r: &'static str)
        ensures
            r@ == will_keep_awake_only_text(self.lang),
    {
        self.pick("Will keep the Mac running (display stays under system control)", "将保持系统运行（不强制关屏）")
    }

    pub fn start_standby(self) -> (r: &'static str)
        ensures
            r@ == start_standby_text(self.lang),
    {
        self.pick("Start Screen-Off Standby", "开始关屏待命")
    }

    pub fn end_standby(self) -> (r: &'static str)
        ensures
            r@ == end_standby_text(self.lang),
    {
        self.pick("End Standby", "结束待命")
    }

    pub fn duration_menu(self) -> (r: &'static str)
        ensures
            r@ == duration_menu_text(self.lang),
    {
        self.pick("Duration", "时长")
    }

    pub fn indefinite(self) -> (r: &'static str)
        ensures
            r@ == indefinite_text(self.lang),
    {
        self.pick("Indefinite", "无限期")
    }

    pub fn screen_off_now(self) -> (r: &'static str)
        ensures
            r@ == screen_off_now_text(self.lang),
    {
        self.pick("Sleep display immediately", "立即关闭屏幕")
    }

    pub fn lid_awake(self) -> (r: &'static str)
        ensures
            r@ == lid_awake_text(self.lang),
    {
        self.pick("Keep running when the lid is closed (best effort)", "合盖尽量保持运行")
    }

    pub fn resleep_display(self) -> (r: &'static str)
        ensures
            r@ == resleep_display_text(self.lang),
    {
        self.pick("Re-sleep the display after you leave", "人离开后自动再关屏")
    }

    pub fn lock_screen(self) -> (r: &'static str)
        ensures
            r@ == lock_screen_text(self.lang),
    {
        self.pick("Lock the session when the display sleeps (breaks remote GUI)", "关屏时锁定登录（远程 GUI 会受影响）")
    }

    pub fn battery_floor_off(self) -> (r: &'static str)
        ensures
            r@ == battery_floor_off_text(self.lang),
    {
        self.pick("Do not end automatically on low battery", "电量过低时不自动结束")
    }

    pub fn launch_at_login(self) -> (r: &'static str)
        ensures
            r@ == launch_at_login_text(self.lang),
    {
        self.pick("Launch at login", "登录时启动")
    }

    pub fn language_menu(self) -> (r: &'static str)
        ensures
            r@ == language_menu_text(self.lang),
    {
        self.pick("Language", "语言")
    }

    pub fn quit(self) -> (r: &'static str)
        ensures
            r@ == quit_text(self.lang),
    {
        self.pick("Quit", "退出")
    }

    pub fn display_asleep(self) -> (r: &'static str)
        ensures
            r@ == display_asleep_text(self.lang),
    {
        self.pick("Display asleep", "屏幕已关")
    }

    pub fn user_controls_display(self) -> (r: &'static str)
        ensures
            r@ == user_controls_display_text(self.lang),
    {
        self.pick("You are using it · display is yours", "你正在用，屏幕由你控制")
    }

    pub fn display_pending(self) -> (r: &'static str)
        ensures
            r@ == display_pending_text(self.lang),
    {
        self.pick("Display will sleep", "屏幕待关")
    }

    pub fn lid_closed(self) -> (r: &'static str)
        ensures
            r@ == lid_closed_text(self.lang),
    {
        self.pick("Lid closed", "合盖")
    }

    pub fn lid_open(self) -> (r: &'static str)
        ensures
            r@ == lid_open_text(self.lang),
    {
        self.pick("Lid open", "开盖")
    }

    pub fn power_ac(self) -> (r: &'static str)
        ensures
            r@ == power_ac_text(self.lang),
    {
        self.pick("Power adapter", "电源适配器")
    }

    pub fn power_battery(self) -> (r: &'static str)
        ensures
            r@ == power_battery_text(self.lang),
    {
        self.pick("Battery", "电池")
    }

    pub fn warn_lid_on_battery(self) -> (r: &'static str)
        ensures
            r@ == warn_lid_on_battery_text(self.lang),
    {
        self.pick("Closed-lid stay-awake is unreliable on battery; plug in if you can", "合盖保活在电池供电下不太可靠，建议插电")
    }

    pub fn warn_lid_best_effort(self) -> (r: &'static str)
        ensures
            r@ == warn_lid_best_effort_text(self.lang),
    {
        self.pick("Closed-lid standby is best-effort; lid open + display asleep is the reliable path", "合盖待命是尽力而为；最稳妥是开盖熄屏")
    }

    pub fn panel_active_title(self) -> (r: &'static str)
        ensures
            r@ == panel_active_title_text(self.lang),
    {
        self.pick("Standby Active", "关屏待命中")
    }

    pub fn panel_idle_title(self) -> (r: &'static str)
        ensures
            r@ == panel_idle_title_text(self.lang),
    {
        self.pick("Not Active", "未待命")
    }

    pub fn panel_summary_active(self) -> (r: &'static str)
        ensures
            r@ == panel_summary_active_text(self.lang),
    {
        self.pick("The display is off and the Mac stays awake.", "屏幕已关闭，Mac 保持运行。")
    }

    pub fn panel_summary_idle(self) -> (r: &'static str)
        ensures
            r@ == panel_summary_idle_text(self.lang),
    {
        self.pick("Turn the display off while the Mac stays awake.", "关闭屏幕，同时让 Mac 保持运行。")
    }

    pub fn more_settings(self) -> (r: &'static str)
        ensures
            r@ == more_settings_text(self.lang),
    {
        self.pick("Settings", "设置")
    }

    pub fn panel_section_session(self) -> (r: &'static str)
        ensures
            r@ == panel_section_session_text(self.lang),
    {
        self.pick("Session", "待命")
    }

    pub fn panel_section_display(self) -> (r: &'static str)
        ensures
            r@ == panel_section_display_text(self.lang),
    {
        self.pick("Display", "屏幕")
    }

    pub fn panel_section_lid(self) -> (r: &'static str)
        ensures
            r@ == panel_section_lid_text(self.lang),
    {
        self.pick("Lid", "合盖")
    }

    pub fn panel_section_safeguards(self) -> (r: &'static str)
        ensures
            r@ == panel_section_safeguards_text(self.lang),
    {
        self.pick("Safeguards", "保护")
    }

    pub fn panel_section_general(self) -> (r: &'static str)
        ensures
            r@ == panel_section_general_text(self.lang),
    {
        self.pick("General", "通用")
    }

    pub fn settings_title(self) -> (r: &'static str)
        ensures
            r@ == settings_title_text(self.lang),
    {
        self.pick("Settings", "设置")
    }

    pub fn sidebar_group_options(self) -> (r: &'static str)
        ensures
            r@ == sidebar_group_options_text(self.lang),
    {
        self.pick("Options", "选项")
    }

    pub fn sidebar_group_guide(self) -> (r: &'static str)
        ensures
            r@ == sidebar_group_guide_text(self.lang),
    {
        self.pick("Guide", "指南")
    }

    pub fn pane_display_lead(self) -> (r: &'static str)
        ensures
            r@ == pane_display_lead_text(self.lang),
    {
        self.pick("How the display behaves during standby.", "待命时屏幕如何处理。")
    }

    pub fn pane_safeguards_lead(self) -> (r: &'static str)
        ensures
            r@ == pane_safeguards_lead_text(self.lang),
    {
        self.pick("When standby ends on its own to protect the Mac.", "何时自动结束待命，以保护这台 Mac。")
    }

    pub fn pane_general_lead(self) -> (r: &'static str)
        ensures
            r@ == pane_general_lead_text(self.lang),
    {
        self.pick("Language and login.", "语言与登录。")
    }

    pub fn back(self) -> (r: &'static str)
        ensures
            r@ == back_text(self.lang),
    {
        self.pick("Back", "返回")
    }

    pub fn panel_hotkey_hint(self) -> (r: String)
        ensures
            r@ == panel_hotkey_hint_text(self.lang),
    {
        self.around("Start turns the display off; press ", " to end.", "开始后屏幕关闭；按 ", " 结束。", DEFAULT_HOTKEY_LABEL)
    }

    pub fn notify_started_title(self) -> (r: &'static str)
        ensures
            r@ == notify_started_title_text(self.lang),
    {
        self.pick("Screen-off standby is on", "已进入熄屏待命")
    }

    pub fn notify_ended_title(self) -> (r: &'static str)
        ensures
            r@ == notify_ended_title_text(self.lang),
    {
        self.pick("Standby ended", "熄屏待命已结束")
    }

    pub fn notify_ended_user_body(self) -> (r: &'static str)
        ensures
            r@ == notify_ended_user_body_text(self.lang),
    {
        self.pick("Normal sleep policy restored.", "系统恢复正常睡眠策略。")
    }

    pub fn stop_user(self) -> (r: &'static str)
        ensures
            r@ == stop_user_text(self.lang),
    {
        self.pick("Ended by you", "已由你结束")
    }

    pub fn stop_battery(self) -> (r: &'static str)
        ensures
            r@ == stop_battery_text(self.lang),
    {
        self.pick("Battery too low; standby ended to protect remaining charge", "电量过低，已结束待命以免耗干电池")
    }

    pub fn stop_thermal(self) -> (r: &'static str)
        ensures
            r@ == stop_thermal_text(self.lang),
    {
        self.pick("System overheating; standby ended", "系统过热，已结束待命")
    }

    pub fn stop_duration(self) -> (r: &'static str)
        ensures
            r@ == stop_duration_text(self.lang),
    {
        self.pick("The set duration elapsed; standby ended", "到达设定时长，已结束待命")
    }

    pub fn stop_quit(self) -> (r: &'static str)
        ensures
            r@ == stop_quit_text(self.lang),
    {
        self.pick("App quit; normal sleep restored", "应用退出，已恢复正常睡眠")
    }

    pub fn stop_assertion(self) -> (r: &'static str)
        ensures
            r@ == stop_assertion_text(self.lang),
    {
        self.pick("Could not prevent system sleep; standby cancelled", "无法阻止系统睡眠，已取消待命")
    }

    pub fn already_running(self) -> (r: &'static str)
        ensures
            r@ == pick_text(self.lang, "Never Sleep is already running in the menu bar."@, "熄屏待命已在菜单栏运行。"@),
    {
        self.pick("Never Sleep is already running in the menu bar.", "熄屏待命已在菜单栏运行。")
    }

    pub fn login_item_title(self) -> (r: &'static str)
        ensures
            r@ == pick_text(self.lang, "Login item"@, "登录项"@),
    {
        self.pick("Login item", "登录项")
    }

    pub fn menubar_macos_only(self) -> (r: &'static str)
        ensures
            r@ == pick_text(self.lang, "The menu bar is only available on macOS."@, "菜单栏仅支持 macOS。"@),
    {
        self.pick("The menu bar is only available on macOS.", "菜单栏仅支持 macOS。")
    }

    pub fn cleanup_done(self) -> (r: &'static str)
        ensures
            r@ == pick_text(self.lang, "Tried to restore clamshell sleep and clear leftover locks."@, "已尝试还原合盖睡眠标志并清除残留锁。"@),
    {
        self.pick("Tried to restore clamshell sleep and clear leftover locks.", "已尝试还原合盖睡眠标志并清除残留锁。")
    }

    pub fn failed(self) -> (r: &'static str)
        ensures
            r@ == failed_text(self.lang),
    {
        self.pick("Failed", "失败")
    }

    pub fn pairing_unavailable(self) -> (r: &'static str)
        ensures
            r@ == pairing_unavailable_text(self.lang),
    {
        self.pick("Pairing with the phone board is unavailable right now", "手机看板暂时无法配对")
    }

    pub fn not_in_standby(self) -> (r: &'static str)
        ensures
            r@ == pick_text(self.lang, "Not in standby."@, "未待命。"@),
    {
        self.pick("Not in standby.", "未待命。")
    }

    pub fn menubar_missing_foreground_json(self) -> (r: &'static str)
        ensures
            r@ == pick_text(self.lang, "Menu bar is not running; starting in the foreground (query JSON status from another terminal)."@, "菜单栏未运行，以前台模式启动（JSON 状态请另开终端查询）。"@),
    {
        self.pick("Menu bar is not running; starting in the foreground (query JSON status from another terminal).", "菜单栏未运行，以前台模式启动（JSON 状态请另开终端查询）。")
    }

    pub fn foreground_failed(self) -> (r: &'static str)
        ensures
            r@ == pick_text(self.lang, "Could not enter standby"@, "未能进入待命"@),
    {
        self.pick("Could not enter standby", "未能进入待命")
    }

    pub fn foreground_started(self) -> (r: &'static str)
        ensures
            r@ == pick_text(self.lang, "Standby is on. The display will sleep; the Mac stays awake. Press Ctrl-C to end."@, "熄屏待命已开启。屏幕将关闭，电脑保持运行。按 Ctrl-C 结束。"@),
    {
        self.pick("Standby is on. The display will sleep; the Mac stays awake. Press Ctrl-C to end.", "熄屏待命已开启。屏幕将关闭，电脑保持运行。按 Ctrl-C 结束。")
    }

    pub fn foreground_status_hint(self) -> (r: &'static str)
        ensures
            r@ == pick_text(self.lang, "Query status with `never-sleep status --json` if the menu bar is running."@, "状态可用 `never-sleep status --json` 查询（若菜单栏正在运行）。"@),
    {
        self.pick("Query status with `never-sleep status --json` if the menu bar is running.", "状态可用 `never-sleep status --json` 查询（若菜单栏正在运行）。")
    }

    pub fn foreground_ended(self) -> (r: &'static str)
        ensures
            r@ == pick_text(self.lang, "Standby ended."@, "已结束待命。"@),
    {
        self.pick("Standby ended.", "已结束待命。")
    }

    pub fn assertion_reason(self) -> (r: &'static str)
        ensures
            r@ == pick_text(self.lang, "Never Sleep: keep the Mac awake for remote clients"@, "熄屏待命：保持系统运行供远程客户端连接"@),
    {
        self.pick("Never Sleep: keep the Mac awake for remote clients", "熄屏待命：保持系统运行供远程客户端连接")
    }

    pub fn idle_assertion_failed(self) -> (r: &'static str)
        ensures
            r@ == pick_text(self.lang, "Could not create PreventUserIdleSystemSleep assertion"@, "无法创建 PreventUserIdleSystemSleep 断言"@),
    {
        self.pick("Could not create PreventUserIdleSystemSleep assertion", "无法创建 PreventUserIdleSystemSleep 断言")
    }

    pub fn displaysleep_and_wrangler_failed(self) -> (r: &'static str)
        ensures
            r@ == pick_text(self.lang, "pmset displaysleepnow failed, and IODisplayWrangler was not found"@, "pmset displaysleepnow 失败，且找不到 IODisplayWrangler"@),
    {
        self.pick("pmset displaysleepnow failed, and IODisplayWrangler was not found", "pmset displaysleepnow 失败，且找不到 IODisplayWrangler")
    }

    pub fn launchctl_load_failed(self) -> (r: &'static str)
        ensures
            r@ == pick_text(self.lang, "launchctl load failed"@, "launchctl load 失败"@),
    {
        self.pick("launchctl load failed", "launchctl load 失败")
    }

    pub fn doctor_title(self) -> (r: &'static str)
        ensures
            r@ == pick_text(self.lang, "Never Sleep diagnostics"@, "熄屏待命诊断"@),
    {
        self.pick("Never Sleep diagnostics", "熄屏待命诊断")
    }

    pub fn stub_not_macos(self) -> (r: &'static str)
        ensures
            r@ == pick_text(self.lang, "This platform is not macOS. Run `never-sleep doctor` on a Mac."@, "当前平台不是 macOS。请在 Mac 上运行 `never-sleep doctor`。"@),
    {
        self.pick("This platform is not macOS. Run `never-sleep doctor` on a Mac.", "当前平台不是 macOS。请在 Mac 上运行 `never-sleep doctor`。")
    }

    pub fn ipc_timeout(self) -> (r: &'static str)
        ensures
            r@ == pick_text(self.lang, "Timed out"@, "超时"@),
    {
        self.pick("Timed out", "超时")
    }

    pub fn parse_duration_min_hour(self) -> (r: &'static str)
        ensures
            r@ == parse_duration_min_hour_text(self.lang),
    {
        self.pick("Duration must be at least 1 hour, or use indefinite", "时长至少 1 小时，或使用 indefinite")
    }

    pub fn cli_about(self) -> (r: &'static str)
        ensures
            r@ == pick_text(self.lang, "Never Sleep: turn the Mac display off and keep the machine awake for ChatGPT / Codex remote sessions"@, "熄屏待命：关掉 Mac 屏幕、不让电脑睡眠，方便 ChatGPT / Codex 远程连接"@),
    {
        self.pick("Never Sleep: turn the Mac display off and keep the machine awake for ChatGPT / Codex remote sessions", "熄屏待命：关掉 Mac 屏幕、不让电脑睡眠，方便 ChatGPT / Codex 远程连接")
    }

    pub fn standby_elapsed(self, duration: &str) -> (r: String)
        ensures
            r@ == standby_elapsed_text(self.lang, duration@),
    {
        self.around("Standby · ", " elapsed", "待命中 · 已 ", "", duration)
    }

    pub fn hours(self, hours: u32) -> (r: String)
        ensures
            r@ == hours_text(self.lang, hours),
    {
        let mut s = String::new();
        match self.lang {
            Lang::En => {
                if hours == 1 {
                    s.append("1 hour");
                } else {
                    push_dec(&mut s, hours as u64);
                    s.append(" hours");
                }
            },
            Lang::Zh => {
                push_dec(&mut s, hours as u64);
                s.append(" 小时");
            },
        }
        s
    }

    pub fn until_clock(self, hour: u8, minute: u8) -> (r: String)
        ensures
            r@ == until_clock_text(self.lang, hour, minute),
    {
        let mut s = String::new();
        s.append(self.pick("Until ", "到 "));
        push_pad2(&mut s, hour as u64);
        push_char(&mut s, ':');
        push_pad2(&mut s, minute as u64);
        s
    }

    pub fn duration_pref(self, pref: DurationPref) -> (r: String)
        ensures
            r@ == duration_pref_text(self, pref),
    {
        match pref {
            DurationPref::Indefinite => String::from_str(self.indefinite()),
            DurationPref::Hours { hours } => self.hours(hours),
            DurationPref::UntilLocal { hour, minute } => self.until_clock(hour, minute),
        }
    }

    pub fn battery_floor_on(self, percent: u8) -> (r: String)
        ensures
            r@ == pick_text(self.lang, "End when battery is below "@, "电量低于 "@) + dec(percent as nat)
                + pick_text(self.lang, "%"@, "% 时结束"@),
    {
        let mut s = String::new();
        s.append(self.pick("End when battery is below ", "电量低于 "));
        push_dec(&mut s, percent as u64);
        s.append(self.pick("%", "% 时结束"));
        s
    }

    pub fn battery_percent(self, percent: u8) -> (r: String)
        ensures
            r@ == battery_percent_text(self.lang, percent),
    {
        let mut s = String::new();
        s.append(self.pick("Battery ", "电量 "));
        push_dec(&mut s, percent as u64);
        s.append("%");
        s
    }

    pub fn remaining(self, duration: &str) -> (r: String)
        ensures
            r@ == remaining_text(self.lang, duration@),
    {
        self.around("", " left", "剩余 ", "", duration)
    }

    pub fn tooltip_active(self) -> (r: String)
        ensures
            r@ == tooltip_active_text(self.lang),
    {
        let mut s = String::from_str(self.app_display_name());
        s.append(" · ");
        s.append(self.pick("running", "运行中"));
        s
    }

    pub fn tooltip_idle(self) -> (r: String)
        ensures
            r@ == tooltip_idle_text(self.lang),
    {
        let mut s = String::from_str(self.app_display_name());
        s.append(" · ");
        s.append(self.pick("idle", "已关闭"));
        s
    }

    pub fn notify_started_body_screen_off(self, seconds: u64, hotkey: &str) -> (r: String)
        ensures
            r@ == pick_text(
                self.lang,
                "Display will sleep in about "@ + dec(seconds as nat) + " seconds; the Mac stays awake. Press "@
                    + hotkey@ + " to end."@,
                "约 "@ + dec(seconds as nat) + " 秒后关闭屏幕，电脑保持运行。按 "@ + hotkey@ + " 结束。"@,
            ),
    {
        let mut s = String::new();
        match self.lang {
            Lang::En => {
                s.append("Display will sleep in about ");
                push_dec(&mut s, seconds);
                s.append(" seconds; the Mac stays awake. Press ");
                s.append(hotkey);
                s.append(" to end.");
            },
            Lang::Zh => {
                s.append("约 ");
                push_dec(&mut s, seconds);
                s.append(" 秒后关闭屏幕，电脑保持运行。按 ");
                s.append(hotkey);
                s.append(" 结束。");
            },
        }
        s
    }

    pub fn notify_started_body_keep_awake(self, hotkey: &str) -> (r: String)
        ensures
            r@ == pick_text(
                self.lang,
                "The Mac will stay awake (display is not forced off). Press "@ + hotkey@ + " to end."@,
                "电脑将保持运行（不强制关屏）。按 "@ + hotkey@ + " 结束。"@,
            ),
    {
        self.around(
            "The Mac will stay awake (display is not forced off). Press ",
            " to end.",
            "电脑将保持运行（不强制关屏）。按 ",
            " 结束。",
            hotkey,
        )
    }

    pub fn remaining_clause(self, duration: &str) -> (r: String)
        ensures
            r@ == pick_text(self.lang, " "@ + duration@ + " left."@, " 剩余 "@ + duration@ + "。"@),
    {
        self.around(" ", " left.", " 剩余 ", "。", duration)
    }

    pub fn ipc_not_started(self, err: &str) -> (r: String)
        ensures
            r@ == pick_text(
                self.lang,
                "IPC did not start: "@ + err@ + " (CLI will run in the foreground)"@,
                "IPC 未启动："@ + err@ + "（命令行将以前台模式工作）"@,
            ),
    {
        self.around(
            "IPC did not start: ",
            " (CLI will run in the foreground)",
            "IPC 未启动：",
            "（命令行将以前台模式工作）",
            err,
        )
    }

    pub fn hotkey_failed(self, hotkey: &str) -> (r: String)
        ensures
            r@ == pick_text(
                self.lang,
                "Could not register "@ + hotkey@ + "; use the menu instead."@,
                "快捷键 "@ + hotkey@ + " 注册失败，仍可通过菜单操作。"@,
            ),
    {
        self.around(
            "Could not register ",
            "; use the menu instead.",
            "快捷键 ",
            " 注册失败，仍可通过菜单操作。",
            hotkey,
        )
    }

    pub fn menubar_not_running(self) -> (r: String)
        ensures
            r@ == pick_text(
                self.lang,
                "Menu bar is not running. Open "@ + APP_NAME@ + ", or run `never-sleep on` in the foreground."@,
                "菜单栏未运行。请先打开「熄屏待命」，或使用 never-sleep on 以前台方式启动。"@,
            ),
    {
        match self.lang {
            Lang::En => {
                let mut s = String::from_str("Menu bar is not running. Open ");
                s.append(self.app_display_name());
                s.append(", or run `never-sleep on` in the foreground.");
                s
            },
            Lang::Zh => String::from_str(
                "菜单栏未运行。请先打开「熄屏待命」，或使用 never-sleep on 以前台方式启动。",
            ),
        }
    }

    pub fn cli_status_line(self, display: &str, lid: &str, power: &str, battery: Option<u8>) -> (r: String)
        ensures
            r@ == pick_text(self.lang, "Standby · display "@, "待命中 · 屏幕 "@) + display@ + " · "@ + lid@
                + " · "@ + power@ + (match battery {
                Some(b) => pick_text(self.lang, " · battery "@, " · 电量 "@) + dec(b as nat) + "%"@,
                None => Seq::<char>::empty(),
            }),
    {
        let mut s = String::from_str(self.pick("Standby · display ", "待命中 · 屏幕 "));
        s.append(display);
        s.append(" · ");
        s.append(lid);
        s.append(" · ");
        s.append(power);
        if let Some(b) = battery {
            s.append(self.pick(" · battery ", " · 电量 "));
            push_dec(&mut s, b as u64);
            s.append("%");
        }
        s
    }

    pub fn power_assertion_failed(self, err: &str) -> (r: String)
        ensures
            r@ == pick_text(self.lang, "Power assertion failed: "@ + err@ + ""@, "电源断言失败："@ + err@ + ""@),
    {
        self.around("Power assertion failed: ", "", "电源断言失败：", "", err)
    }

    pub fn sleep_display_failed(self, err: &str) -> (r: String)
        ensures
            r@ == pick_text(self.lang, "Could not sleep the display: "@ + err@ + ""@, "关屏失败："@ + err@ + ""@),
    {
        self.around("Could not sleep the display: ", "", "关屏失败：", "", err)
    }

    pub fn displaysleep_both_failed(self, ret: i32) -> (r: String)
        ensures
            r@ == pick_text(
                self.lang,
                "Could not sleep the display: pmset and IORequestIdle both failed (IOReturn "@,
                "关屏失败：pmset 与 IORequestIdle 均未成功 (IOReturn "@,
            ) + idec(ret as int) + ")"@,
    {
        let mut s = String::from_str(
            self.pick(
                "Could not sleep the display: pmset and IORequestIdle both failed (IOReturn ",
                "关屏失败：pmset 与 IORequestIdle 均未成功 (IOReturn ",
            ),
        );
        push_idec(&mut s, ret);
        s.append(")");
        s
    }

    pub fn doctor_snapshot(
        self,
        on_ac: bool,
        battery: Option<u8>,
        lid_closed: bool,
        display_asleep: Option<bool>,
        hid_idle_ms: u64,
        thermal: &str,
    ) -> (r: String)
        ensures
            r@ == pick_text(self.lang, "Power: "@, "电源: "@) + (if on_ac {
                "AC"@
            } else {
                pick_text(self.lang, "Battery"@, "电池"@)
            }) + pick_text(self.lang, "\nBattery: "@, "\n电量: "@) + opt_num_debug(battery) + pick_text(
                self.lang,
                "\nLid closed: "@,
                "\n合盖: "@,
            ) + bool_text(lid_closed) + pick_text(self.lang, "\nDisplay asleep: "@, "\n屏幕休眠: "@)
                + opt_bool_debug(display_asleep) + pick_text(self.lang, "\nHID idle: "@, "\nHID空闲: "@)
                + dec(hid_idle_ms as nat) + " ms"@ + pick_text(self.lang, "\nThermal: "@, "\n过热: "@)
                + thermal@ + "\n"@,
    {
        let mut s = String::from_str(self.pick("Power: ", "电源: "));
        if on_ac {
            s.append("AC");
        } else {
            s.append(self.power_battery());
        }
        s.append(self.pick("\nBattery: ", "\n电量: "));
        push_opt_num_debug(&mut s, battery);
        s.append(self.pick("\nLid closed: ", "\n合盖: "));
        push_bool(&mut s, lid_closed);
        s.append(self.pick("\nDisplay asleep: ", "\n屏幕休眠: "));
        push_opt_bool_debug(&mut s, display_asleep);
        s.append(self.pick("\nHID idle: ", "\nHID空闲: "));
        push_dec(&mut s, hid_idle_ms);
        s.append(" ms");
        s.append(self.pick("\nThermal: ", "\n过热: "));
        s.append(thermal);
        s.append("\n");
        s
    }

    pub fn parse_duration_error(self, raw: &str) -> (r: String)
        ensures
            r@ == parse_duration_error_text(self.lang, raw@),
    {
        self.around("Could not parse duration: ", "", "无法解析时长: ", "", raw)
    }

    pub fn parse_time_format(self, raw: &str) -> (r: String)
        ensures
            r@ == parse_time_format_text(self.lang, raw@),
    {
        self.around("Time must be HH:MM, got ", "", "时间格式应为 HH:MM，收到 ", "", raw)
    }

    pub fn parse_invalid_hour(self, raw: &str) -> (r: String)
        ensures
            r@ == parse_invalid_hour_text(self.lang, raw@),
    {
        self.around("Invalid hour: ", "", "无效小时: ", "", raw)
    }

    pub fn parse_invalid_minute(self, raw: &str) -> (r: String)
        ensures
            r@ == parse_invalid_minute_text(self.lang, raw@),
    {
        self.around("Invalid minute: ", "", "无效分钟: ", "", raw)
    }

    pub fn parse_invalid_time(self, raw: &str) -> (r: String)
        ensures
            r@ == parse_invalid_time_text(self.lang, raw@),
    {
        self.around("Invalid time: ", "", "无效时间: ", "", raw)
    }
}

/// Message of `Tr::parse_duration_error`.
pub open spec fn parse_duration_error_text(lang: Lang, raw: Seq<char>) -> Seq<char> {
    pick_text(lang, "Could not parse duration: "@ + raw + ""@, "无法解析时长: "@ + raw + ""@)
}

/// Message of `Tr::parse_time_format`.
pub open spec fn parse_time_format_text(lang: Lang, raw: Seq<char>) -> Seq<char> {
    pick_text(lang, "Time must be HH:MM, got "@ + raw + ""@, "时间格式应为 HH:MM，收到 "@ + raw + ""@)
}

/// Message of `Tr::parse_invalid_hour`.
pub open spec fn parse_invalid_hour_text(lang: Lang, raw: Seq<char>) -> Seq<char> {
    pick_text(lang, "Invalid hour: "@ + raw + ""@, "无效小时: "@ + raw + ""@)
}

/// Message of `Tr::parse_invalid_minute`.
pub open spec fn parse_invalid_minute_text(lang: Lang, raw: Seq<char>) -> Seq<char> {
    pick_text(lang, "Invalid minute: "@ + raw + ""@, "无效分钟: "@ + raw + ""@)
}

/// Message of `Tr::parse_invalid_time`.
pub open spec fn parse_invalid_time_text(lang: Lang, raw: Seq<char>) -> Seq<char> {
    pick_text(lang, "Invalid time: "@ + raw + ""@, "无效时间: "@ + raw + ""@)
}

/// Text of `Tr::warn_lid_on_battery`.
pub open spec fn warn_lid_on_battery_text(lang: Lang) -> Seq<char> {
    pick_text(lang, "Closed-lid stay-awake is unreliable on battery; plug in if you can"@, "合盖保活在电池供电下不太可靠，建议插电"@)
}

/// Text of `Tr::warn_lid_best_effort`.
pub open spec fn warn_lid_best_effort_text(lang: Lang) -> Seq<char> {
    pick_text(lang, "Closed-lid standby is best-effort; lid open + display asleep is the reliable path"@, "合盖待命是尽力而为；最稳妥是开盖熄屏"@)
}

/// Text of `Tr::standby_status`.
pub open spec fn standby_status_text(lang: Lang) -> Seq<char> {
    pick_text(lang, "Standby"@, "待命中"@)
}

/// Text of `Tr::idle_status`.
pub open spec fn idle_status_text(lang: Lang) -> Seq<char> {
    pick_text(lang, "Idle · click to start"@, "未待命 · 点击开始"@)
}

/// Text of `Tr::display_asleep`.
pub open spec fn display_asleep_text(lang: Lang) -> Seq<char> {
    pick_text(lang, "Display asleep"@, "屏幕已关"@)
}

/// Text of `Tr::user_controls_display`.
pub open spec fn user_controls_display_text(lang: Lang) -> Seq<char> {
    pick_text(lang, "You are using it · display is yours"@, "你正在用，屏幕由你控制"@)
}

/// Text of `Tr::display_pending`.
pub open spec fn display_pending_text(lang: Lang) -> Seq<char> {
    pick_text(lang, "Display will sleep"@, "屏幕待关"@)
}

/// Text of `Tr::lid_closed`.
pub open spec fn lid_closed_text(lang: Lang) -> Seq<char> {
    pick_text(lang, "Lid closed"@, "合盖"@)
}

/// Text of `Tr::lid_open`.
pub open spec fn lid_open_text(lang: Lang) -> Seq<char> {
    pick_text(lang, "Lid open"@, "开盖"@)
}

/// Text of `Tr::power_ac`.
pub open spec fn power_ac_text(lang: Lang) -> Seq<char> {
    pick_text(lang, "Power adapter"@, "电源适配器"@)
}

/// Text of `Tr::power_battery`.
pub open spec fn power_battery_text(lang: Lang) -> Seq<char> {
    pick_text(lang, "Battery"@, "电池"@)
}

/// Text of `Tr::will_sleep_display`.
pub open spec fn will_sleep_display_text(lang: Lang) -> Seq<char> {
    pick_text(lang, "Will sleep the display and keep the Mac running"@, "将关闭屏幕、保持系统运行"@)
}

/// Text of `Tr::will_keep_awake_only`.
pub open spec fn will_keep_awake_only_text(lang: Lang) -> Seq<char> {
    pick_text(lang, "Will keep the Mac running (display stays under system control)"@, "将保持系统运行（不强制关屏）"@)
}

/// Text of `Tr::end_standby`.
pub open spec fn end_standby_text(lang: Lang) -> Seq<char> {
    pick_text(lang, "End Standby"@, "结束待命"@)
}

/// Text of `Tr::start_standby`.
pub open spec fn start_standby_text(lang: Lang) -> Seq<char> {
    pick_text(lang, "Start Screen-Off Standby"@, "开始关屏待命"@)
}

/// Text of `Tr::indefinite`.
pub open spec fn indefinite_text(lang: Lang) -> Seq<char> {
    pick_text(lang, "Indefinite"@, "无限期"@)
}

/// Text of `Tr::battery_floor_off`.
pub open spec fn battery_floor_off_text(lang: Lang) -> Seq<char> {
    pick_text(lang, "Do not end automatically on low battery"@, "电量过低时不自动结束"@)
}

/// Text of `Tr::parse_duration_min_hour`.
pub open spec fn parse_duration_min_hour_text(lang: Lang) -> Seq<char> {
    pick_text(lang, "Duration must be at least 1 hour, or use indefinite"@, "时长至少 1 小时，或使用 indefinite"@)
}

/// Text of `Tr::pairing_unavailable`.
pub open spec fn pairing_unavailable_text(lang: Lang) -> Seq<char> {
    pick_text(lang, "Pairing with the phone board is unavailable right now"@, "手机看板暂时无法配对"@)
}

/// Text of `Tr::failed`.
pub open spec fn failed_text(lang: Lang) -> Seq<char> {
    pick_text(lang, "Failed"@, "失败"@)
}

/// Text of `Tr::stop_user`.
pub open spec fn stop_user_text(lang: Lang) -> Seq<char> {
    pick_text(lang, "Ended by you"@, "已由你结束"@)
}

/// Text of `Tr::stop_battery`.
pub open spec fn stop_battery_text(lang: Lang) -> Seq<char> {
    pick_text(lang, "Battery too low; standby ended to protect remaining charge"@, "电量过低，已结束待命以免耗干电池"@)
}

/// Text of `Tr::stop_thermal`.
pub open spec fn stop_thermal_text(lang: Lang) -> Seq<char> {
    pick_text(lang, "System overheating; standby ended"@, "系统过热，已结束待命"@)
}

/// Text of `Tr::stop_duration`.
pub open spec fn stop_duration_text(lang: Lang) -> Seq<char> {
    pick_text(lang, "The set duration elapsed; standby ended"@, "到达设定时长，已结束待命"@)
}

/// Text of `Tr::stop_quit`.
pub open spec fn stop_quit_text(lang: Lang) -> Seq<char> {
    pick_text(lang, "App quit; normal sleep restored"@, "应用退出，已恢复正常睡眠"@)
}

/// Text of `Tr::stop_assertion`.
pub open spec fn stop_assertion_text(lang: Lang) -> Seq<char> {
    pick_text(lang, "Could not prevent system sleep; standby cancelled"@, "无法阻止系统睡眠，已取消待命"@)
}

/// Text of `Tr::duration_menu`.
pub open spec fn duration_menu_text(lang: Lang) -> Seq<char> {
    pick_text(lang, "Duration"@, "时长"@)
}

/// Text of `Tr::resleep_display`.
pub open spec fn resleep_display_text(lang: Lang) -> Seq<char> {
    pick_text(lang, "Re-sleep the display after you leave"@, "人离开后自动再关屏"@)
}

/// Text of `Tr::language_menu`.
pub open spec fn language_menu_text(lang: Lang) -> Seq<char> {
    pick_text(lang, "Language"@, "语言"@)
}

/// Text of `Tr::screen_off_now`.
pub open spec fn screen_off_now_text(lang: Lang) -> Seq<char> {
    pick_text(lang, "Sleep display immediately"@, "立即关闭屏幕"@)
}

/// Text of `Tr::lid_awake`.
pub open spec fn lid_awake_text(lang: Lang) -> Seq<char> {
    pick_text(lang, "Keep running when the lid is closed (best effort)"@, "合盖尽量保持运行"@)
}

/// Text of `Tr::lock_screen`.
pub open spec fn lock_screen_text(lang: Lang) -> Seq<char> {
    pick_text(lang, "Lock the session when the display sleeps (breaks remote GUI)"@, "关屏时锁定登录（远程 GUI 会受影响）"@)
}

/// Text of `Tr::launch_at_login`.
pub open spec fn launch_at_login_text(lang: Lang) -> Seq<char> {
    pick_text(lang, "Launch at login"@, "登录时启动"@)
}

/// Text of `Tr::help_title`.
pub open spec fn help_title_text(lang: Lang) -> Seq<char> {
    pick_text(lang, "How to use"@, "使用说明"@)
}

/// Text of `Tr::quit`.
pub open spec fn quit_text(lang: Lang) -> Seq<char> {
    pick_text(lang, "Quit"@, "退出"@)
}

/// Text of `Tr::help_kicker`.
pub open spec fn help_kicker_text(lang: Lang) -> Seq<char> {
    pick_text(lang, "Display off · Mac online"@, "关屏护屏 · 电脑在线"@)
}

/// Text of `Tr::help_lead`.
pub open spec fn help_lead_text(lang: Lang) -> Seq<char> {
    pick_text(lang, "Remote clients such as ChatGPT and Codex can keep connecting."@, "ChatGPT / Codex 等远程客户端仍可连上这台电脑。"@)
}

/// Text of `Tr::help_how`.
pub open spec fn help_how_text(lang: Lang) -> Seq<char> {
    pick_text(lang, "Get started"@, "怎么用"@)
}

/// Text of `Tr::help_step1_title`.
pub open spec fn help_step1_title_text(lang: Lang) -> Seq<char> {
    pick_text(lang, "Start standby"@, "开始待命"@)
}

/// Text of `Tr::help_step1_detail`.
pub open spec fn help_step1_detail_text(lang: Lang) -> Seq<char> {
    pick_text(lang, "Click “Start Screen-Off Standby”. The display sleeps after about 1.5 seconds."@, "点「开始关屏待命」，约 1.5 秒后屏幕关闭。"@)
}

/// Text of `Tr::help_step2_title`.
pub open spec fn help_step2_title_text(lang: Lang) -> Seq<char> {
    pick_text(lang, "Stays out of your way"@, "不抢屏幕"@)
}

/// Text of `Tr::help_step2_detail`.
pub open spec fn help_step2_detail_text(lang: Lang) -> Seq<char> {
    pick_text(lang, "It will not fight you for the screen while you type; it sleeps again after you leave."@, "人在电脑前绝不强制关屏；走开后再自动关闭。"@)
}

/// Text of `Tr::help_step3_title`.
pub open spec fn help_step3_title_text(lang: Lang) -> Seq<char> {
    pick_text(lang, "Come back any time"@, "随时回来"@)
}

/// Text of `Tr::help_step3_before`.
pub open spec fn help_step3_before_text(lang: Lang) -> Seq<char> {
    pick_text(lang, "Press"@, "按"@)
}

/// Text of `Tr::help_step3_after`.
pub open spec fn help_step3_after_text(lang: Lang) -> Seq<char> {
    pick_text(lang, "or choose “End Standby” in the menu."@, "，或点菜单「结束待命」。"@)
}

/// Text of `Tr::help_notes`.
pub open spec fn help_notes_text(lang: Lang) -> Seq<char> {
    pick_text(lang, "Keep in mind"@, "请留意"@)
}

/// Text of `Tr::help_note_lid`.
pub open spec fn help_note_lid_text(lang: Lang) -> Seq<char> {
    pick_text(lang, "Closed-lid stay-awake is best-effort, and more reliable on power. Lid open + display asleep is the reliable path."@, "合盖保活是尽力而为，插电更稳；最可靠仍是开盖熄屏。"@)
}

/// Text of `Tr::help_note_battery`.
pub open spec fn help_note_battery_text(lang: Lang) -> Seq<char> {
    pick_text(lang, "Standby ends automatically on low battery so the pack is not drained."@, "电量过低会自动结束，避免把电池耗干。"@)
}

/// Text of `Tr::help_note_quit`.
pub open spec fn help_note_quit_text(lang: Lang) -> Seq<char> {
    pick_text(lang, "Quitting restores normal sleep. Energy Saver settings are never rewritten."@, "退出后立即恢复系统睡眠，不会改写节能设置。"@)
}

/// Text of `Tr::panel_active_title`.
pub open spec fn panel_active_title_text(lang: Lang) -> Seq<char> {
    pick_text(lang, "Standby Active"@, "关屏待命中"@)
}

/// Text of `Tr::panel_idle_title`.
pub open spec fn panel_idle_title_text(lang: Lang) -> Seq<char> {
    pick_text(lang, "Not Active"@, "未待命"@)
}

/// Text of `Tr::panel_summary_active`.
pub open spec fn panel_summary_active_text(lang: Lang) -> Seq<char> {
    pick_text(lang, "The display is off and the Mac stays awake."@, "屏幕已关闭，Mac 保持运行。"@)
}

/// Text of `Tr::panel_summary_idle`.
pub open spec fn panel_summary_idle_text(lang: Lang) -> Seq<char> {
    pick_text(lang, "Turn the display off while the Mac stays awake."@, "关闭屏幕，同时让 Mac 保持运行。"@)
}

/// Text of `Tr::more_settings`.
pub open spec fn more_settings_text(lang: Lang) -> Seq<char> {
    pick_text(lang, "Settings"@, "设置"@)
}

/// Text of `Tr::panel_section_session`.
pub open spec fn panel_section_session_text(lang: Lang) -> Seq<char> {
    pick_text(lang, "Session"@, "待命"@)
}

/// Text of `Tr::panel_section_display`.
pub open spec fn panel_section_display_text(lang: Lang) -> Seq<char> {
    pick_text(lang, "Display"@, "屏幕"@)
}

/// Text of `Tr::panel_section_lid`.
pub open spec fn panel_section_lid_text(lang: Lang) -> Seq<char> {
    pick_text(lang, "Lid"@, "合盖"@)
}

/// Text of `Tr::panel_section_safeguards`.
pub open spec fn panel_section_safeguards_text(lang: Lang) -> Seq<char> {
    pick_text(lang, "Safeguards"@, "保护"@)
}

/// Text of `Tr::panel_section_general`.
pub open spec fn panel_section_general_text(lang: Lang) -> Seq<char> {
    pick_text(lang, "General"@, "通用"@)
}

/// Text of `Tr::settings_title`.
pub open spec fn settings_title_text(lang: Lang) -> Seq<char> {
    pick_text(lang, "Settings"@, "设置"@)
}

/// Text of `Tr::sidebar_group_options`.
pub open spec fn sidebar_group_options_text(lang: Lang) -> Seq<char> {
    pick_text(lang, "Options"@, "选项"@)
}

/// Text of `Tr::sidebar_group_guide`.
pub open spec fn sidebar_group_guide_text(lang: Lang) -> Seq<char> {
    pick_text(lang, "Guide"@, "指南"@)
}

/// Text of `Tr::pane_display_lead`.
pub open spec fn pane_display_lead_text(lang: Lang) -> Seq<char> {
    pick_text(lang, "How the display behaves during standby."@, "待命时屏幕如何处理。"@)
}

/// Text of `Tr::pane_safeguards_lead`.
pub open spec fn pane_safeguards_lead_text(lang: Lang) -> Seq<char> {
    pick_text(lang, "When standby ends on its own to protect the Mac."@, "何时自动结束待命，以保护这台 Mac。"@)
}

/// Text of `Tr::pane_general_lead`.
pub open spec fn pane_general_lead_text(lang: Lang) -> Seq<char> {
    pick_text(lang, "Language and login."@, "语言与登录。"@)
}

/// Text of `Tr::back`.
pub open spec fn back_text(lang: Lang) -> Seq<char> {
    pick_text(lang, "Back"@, "返回"@)
}

/// Text of `Tr::panel_hotkey_hint`.
pub open spec fn panel_hotkey_hint_text(lang: Lang) -> Seq<char> {
    pick_text(
        lang,
        "Start turns the display off; press "@ + DEFAULT_HOTKEY_LABEL@ + " to end."@,
        "开始后屏幕关闭；按 "@ + DEFAULT_HOTKEY_LABEL@ + " 结束。"@,
    )
}

/// Text of `Tr::hours`.
pub open spec fn hours_text(lang: Lang, hours: u32) -> Seq<char> {
    match lang {
        Lang::En => if hours == 1 {
            "1 hour"@
        } else {
            dec(hours as nat) + " hours"@
        },
        Lang::Zh => dec(hours as nat) + " 小时"@,
    }
}

/// Text of `Tr::until_clock`.
pub open spec fn until_clock_text(lang: Lang, hour: u8, minute: u8) -> Seq<char> {
    pick_text(lang, "Until "@, "到 "@) + pad2(hour as nat) + seq![':'] + pad2(minute as nat)
}

/// Text of `Tr::notify_started_title`.
pub open spec fn notify_started_title_text(lang: Lang) -> Seq<char> {
    pick_text(lang, "Screen-off standby is on"@, "已进入熄屏待命"@)
}

/// Text of `Tr::notify_ended_title`.
pub open spec fn notify_ended_title_text(lang: Lang) -> Seq<char> {
    pick_text(lang, "Standby ended"@, "熄屏待命已结束"@)
}

/// Text of `Tr::notify_ended_user_body`.
pub open spec fn notify_ended_user_body_text(lang: Lang) -> Seq<char> {
    pick_text(lang, "Normal sleep policy restored."@, "系统恢复正常睡眠策略。"@)
}

/// Text of `Tr::standby_elapsed`.
pub open spec fn standby_elapsed_text(lang: Lang, duration: Seq<char>) -> Seq<char> {
    pick_text(lang, "Standby · "@ + duration + " elapsed"@, "待命中 · 已 "@ + duration + ""@)
}

/// Text of `Tr::remaining`.
pub open spec fn remaining_text(lang: Lang, duration: Seq<char>) -> Seq<char> {
    pick_text(lang, ""@ + duration + " left"@, "剩余 "@ + duration + ""@)
}

/// Text of `Tr::battery_percent`.
pub open spec fn battery_percent_text(lang: Lang, percent: u8) -> Seq<char> {
    pick_text(lang, "Battery "@, "电量 "@) + dec(percent as nat) + "%"@
}

/// Text of `Tr::tooltip_active`.
pub open spec fn tooltip_active_text(lang: Lang) -> Seq<char> {
    pick_text(lang, APP_NAME@, "熄屏待命"@) + " · "@ + pick_text(lang, "running"@, "运行中"@)
}

/// Text of `Tr::tooltip_idle`.
pub open spec fn tooltip_idle_text(lang: Lang) -> Seq<char> {
    pick_text(lang, APP_NAME@, "熄屏待命"@) + " · "@ + pick_text(lang, "idle"@, "已关闭"@)
}

/// The menu label of a duration preference.
pub open spec fn duration_pref_text(t: Tr, pref: DurationPref) -> Seq<char> {
    match pref {
        DurationPref::Indefinite => pick_text(t.lang, "Indefinite"@, "无限期"@),
        DurationPref::Hours { hours } => match t.lang {
            Lang::En => if hours == 1 {
                "1 hour"@
            } else {
                dec(hours as nat) + " hours"@
            },
            Lang::Zh => dec(hours as nat) + " 小时"@,
        },
        DurationPref::UntilLocal { hour, minute } => pick_text(t.lang, "Until "@, "到 "@) + pad2(
            hour as nat,
        ) + seq![':'] + pad2(minute as nat),
    }
}

pub fn app_display_name(lang: Lang) -> (r: &'static str)
    ensures
        r@ == pick_text(lang, APP_NAME@, "熄屏待命"@),
{
    Tr::new(lang).app_display_name()
}

pub fn onboarding(lang: Lang) -> (r: &'static str)
    ensures
        r@ == pick_text(lang, ONBOARDING_EN@, ONBOARDING_ZH@),
{
    Tr::new(lang).onboarding()
}

pub const ONBOARDING_EN: &'static str = "\
Never Sleep turns the display off while the Mac stays awake, so ChatGPT / Codex can keep connecting.

Get started
1. Start standby — click “Start Screen-Off Standby”. The display sleeps after about 1.5 seconds.
2. Stays out of your way — it will not fight you for the screen while you type; it sleeps again after you leave.
3. Come back — press ⌥⌘P, or choose “End Standby” in the menu.

Keep in mind
• Closed-lid stay-awake is best-effort (more reliable on power). Lid open + display asleep is the reliable path.
• Standby ends automatically on low battery so the pack is not drained.
• Quitting restores normal sleep. Energy Saver settings are never rewritten.\
";

pub const ONBOARDING_ZH: &'static str = "\
熄屏待命会关掉屏幕，同时不让 Mac 进入睡眠。ChatGPT / Codex 等远程客户端仍可连上这台电脑。\n\n\
怎么用\n\
1. 开始待命 — 点「开始关屏待命」，约 1.5 秒后屏幕关闭。\n\
2. 不抢屏幕 — 人在电脑前绝不强制关屏；走开后再自动关闭。\n\
3. 随时回来 — 按 ⌥⌘P，或点菜单「结束待命」。\n\n\
请留意\n\
• 合盖保活是尽力而为，插电更稳；最可靠仍是开盖熄屏。\n\
• 电量过低会自动结束，避免把电池耗干。\n\
• 退出后立即恢复系统睡眠，不会改写节能设置。\
";


} // verus!
