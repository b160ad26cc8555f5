//! User preferences and the duration syntax accepted on the command line.

use vstd::prelude::*;

use crate::i18n::{
    duration_pref_text, parse_duration_error_text, parse_duration_min_hour_text, parse_invalid_hour_text,
    parse_invalid_minute_text, parse_invalid_time_text, parse_time_format_text, pick_text, Lang,
    Tr,
};
use crate::text::{
    dec, is_digit, is_ws, lemma_dec_digits, lemma_lower_fixed,
    lemma_parse_dec, lemma_trim_fixed, trim_end_seq, trim_start_seq, chars_eq, chars_of, find_char_from, lower_chars, lower_seq, parse_unsigned, parse_unsigned_range, range_eq,
    string_of, trim_bounds, trim_chars, trim_seq,
};

verus! {

pub const DEFAULT_BATTERY_FLOOR: u8 = 20;

pub const DEFAULT_DISPLAY_OFF_DELAY_MS: u64 = 1_500;

pub const DEFAULT_USER_IDLE_RESLEEP_MS: u64 = 45_000;

pub const SLEEP_DISPLAY_DEBOUNCE_MS: u64 = 3_000;

pub const HEARTBEAT_MS: u64 = 2_000;

/// How long standby lasts.
#[derive(Debug, Clone, Copy, PartialEq, Eq)]
pub enum DurationPref {
    Indefinite,
    /// Counted from the moment standby starts.
    Hours { hours: u32 },
    /// The next local `hour:minute` (tomorrow when it has already passed today).
    UntilLocal { hour: u8, minute: u8 },
}

impl Default for DurationPref {
    fn default() -> (r: Self)
        ensures
            r == DurationPref::Indefinite,
    {
        DurationPref::Indefinite
    }
}

impl DurationPref {
    /// Menu label of this preference in `lang`.
    pub fn label(self, lang: Lang) -> (r: String)
        ensures
            r@ == duration_pref_text(Tr { lang }, self),
    {
        Tr::new(lang).duration_pref(self)
    }
}

/// User preferences. Every field has a safe default, so the first launch can
/// start screen-off standby with one click.
#[derive(Debug, Clone, Copy, PartialEq, Eq)]
pub struct AppConfig {
    /// Default duration (changed in the menu, kept for the next launch).
    pub duration: DurationPref,
    /// Sleep the display as soon as standby starts (the main feature).
    pub screen_off: bool,
    /// Try to keep the system awake with the lid closed (best effort).
    pub keep_awake_on_lid_close: bool,
    /// Sleep the display again after a remote or system wake once the person has left.
    pub resleep_display: bool,
    /// End standby below this battery percentage. `None` means no limit.
    pub battery_floor_percent: Option<u8>,
    /// Open the menu bar at login.
    pub launch_at_login: bool,
    /// Lock the session when the display sleeps. Off by default: remote GUI
    /// control needs an unlocked session.
    pub lock_screen: bool,
    /// Delay before the first display sleep, so notifications and menus can be seen.
    pub display_off_delay_ms: u64,
    /// HID idle time after which the person counts as away.
    pub user_idle_resleep_ms: u64,
    /// The usage notes have been shown.
    pub onboarding_done: bool,
    /// Saved UI language. `None` means not chosen yet (older configs, first run).
    pub language: Option<Lang>,
    /// Process override (`--lang` / `NEVER_SLEEP_LANG`), applied by `lang()`
    /// and never saved.
    pub env_lang: Option<Lang>,
}

/// The UI language a configuration resolves to: the process override, then the
/// saved choice, then English.
pub open spec fn config_lang(cfg: AppConfig) -> Lang {
    match cfg.env_lang {
        Some(l) => l,
        None => match cfg.language {
            Some(l) => l,
            None => Lang::En,
        },
    }
}

/// The settings label of the battery floor.
pub open spec fn battery_floor_label_text(cfg: AppConfig) -> Seq<char> {
    let lang = config_lang(cfg);
    match cfg.battery_floor_percent {
        Some(n) => pick_text(lang, "End when battery is below "@, "电量低于 "@) + crate::text::dec(
            n as nat,
        ) + pick_text(lang, "%"@, "% 时结束"@),
        None => pick_text(lang, "Do not end automatically on low battery"@, "电量过低时不自动结束"@),
    }
}

impl Default for AppConfig {
    fn default() -> (r: Self)
        ensures
            r == (AppConfig {
                duration: DurationPref::Indefinite,
                screen_off: true,
                keep_awake_on_lid_close: true,
                resleep_display: true,
                battery_floor_percent: Some(DEFAULT_BATTERY_FLOOR),
                launch_at_login: false,
                lock_screen: false,
                display_off_delay_ms: DEFAULT_DISPLAY_OFF_DELAY_MS,
                user_idle_resleep_ms: DEFAULT_USER_IDLE_RESLEEP_MS,
                onboarding_done: false,
                language: Some(Lang::En),
                env_lang: None,
            }),
    {
        AppConfig {
            duration: DurationPref::Indefinite,
            screen_off: true,
            keep_awake_on_lid_close: true,
            resleep_display: true,
            battery_floor_percent: Some(DEFAULT_BATTERY_FLOOR),
            launch_at_login: false,
            lock_screen: false,
            display_off_delay_ms: DEFAULT_DISPLAY_OFF_DELAY_MS,
            user_idle_resleep_ms: DEFAULT_USER_IDLE_RESLEEP_MS,
            onboarding_done: false,
            language: Some(Lang::En),
            env_lang: None,
        }
    }
}

impl AppConfig {
    pub fn lang(&self) -> (r: Lang)
        ensures
            r == config_lang(*self),
    {
        match self.env_lang {
            Some(l) => l,
            None => match self.language {
                Some(l) => l,
                None => Lang::En,
            },
        }
    }

    pub fn tr(&self) -> (r: Tr)
        ensures
            r.lang == config_lang(*self),
    {
        Tr::new(self.lang())
    }

    pub fn battery_floor_label(&self) -> (r: String)
        ensures
            r@ == battery_floor_label_text(*self),
    {
        let t = self.tr();
        match self.battery_floor_percent {
            Some(n) => t.battery_floor_on(n),
            None => String::from_str(t.battery_floor_off()),
        }
    }
}

/// `HH:MM` (exactly one colon, each side an unsigned byte, hour < 24, minute < 60).
/// Error messages quote `r`.
pub open spec fn parse_until_spec(r: Seq<char>, lang: Lang) -> Result<DurationPref, Seq<char>> {
    let k = find_char_from(r, ':', 0);
    if k >= r.len() || find_char_from(r, ':', k + 1) < r.len() {
        Err(parse_time_format_text(lang, r))
    } else {
        match parse_unsigned(r.take(k), 255) {
            None => Err(parse_invalid_hour_text(lang, r)),
            Some(hour) => match parse_unsigned(r.skip(k + 1), 255) {
                None => Err(parse_invalid_minute_text(lang, r)),
                Some(minute) => if hour > 23 || minute > 59 {
                    Err(parse_invalid_time_text(lang, r))
                } else {
                    Ok(DurationPref::UntilLocal { hour: hour as u8, minute: minute as u8 })
                },
            },
        }
    }
}

/// The duration a command-line value names. The value is trimmed and
/// ASCII-lowercased first; empty, `indefinite`, `inf`, `forever` and `无限` mean
/// no limit; `until=HH:MM` or `until:HH:MM` a wall-clock time; `<n>h` at least
/// one hour; `<n>小时` hours; anything else is read as `HH:MM`.
pub open spec fn parse_duration_spec(raw: Seq<char>, lang: Lang) -> Result<DurationPref, Seq<char>> {
    let s = lower_seq(trim_seq(raw));
    let n = s.len();
    if n == 0 || s == "indefinite"@ || s == "inf"@ || s == "forever"@ || s == "无限"@ {
        Ok(DurationPref::Indefinite)
    } else if n >= 6 && s.take(6) == "until="@ {
        parse_until_spec(s.skip(6), lang)
    } else if n >= 6 && s.take(6) == "until:"@ {
        parse_until_spec(s.skip(6), lang)
    } else if s.last() == 'h' {
        match parse_unsigned(s.drop_last(), u32::MAX as nat) {
            None => Err(parse_duration_error_text(lang, raw)),
            Some(hours) => if hours == 0 {
                Err(parse_duration_min_hour_text(lang))
            } else {
                Ok(DurationPref::Hours { hours: hours as u32 })
            },
        }
    } else if n >= 2 && s.skip(n - 2) == "小时"@ {
        match parse_unsigned(trim_seq(s.take(n - 2)), u32::MAX as nat) {
            None => Err(parse_duration_error_text(lang, raw)),
            Some(hours) => if hours == 0 {
                Err(parse_duration_min_hour_text(lang))
            } else {
                Ok(DurationPref::Hours { hours: hours as u32 })
            },
        }
    } else {
        parse_until_spec(s, lang)
    }
}

/// The same result with the error message as a `String`.
pub open spec fn same_result(r: Result<DurationPref, String>, spec: Result<DurationPref, Seq<char>>) -> bool {
    match (r, spec) {
        (Ok(a), Ok(b)) => a == b,
        (Err(a), Err(b)) => a@ == b,
        _ => false,
    }
}

/// Parse a CLI duration: `indefinite` / `3h` / `until=08:00`. Errors are English.
pub fn parse_duration_pref(raw: &str) -> (r: Result<DurationPref, String>)
    ensures
        same_result(r, parse_duration_spec(raw@, Lang::En)),
{
    parse_duration_pref_in(raw, Lang::En)
}

/// Parse a CLI duration, with error messages in `lang`.
pub fn parse_duration_pref_in(raw: &str, lang: Lang) -> (r: Result<DurationPref, String>)
    ensures
        same_result(r, parse_duration_spec(raw@, lang)),
{
    let t = Tr::new(lang);
    let v = chars_of(raw);
    let trimmed = trim_chars(&v);
    let s = lower_chars(&trimmed);
    let n = s.len();
    if n == 0 || chars_eq(&s, "indefinite") || chars_eq(&s, "inf") || chars_eq(&s, "forever")
        || chars_eq(&s, "无限") {
        return Ok(DurationPref::Indefinite);
    }
    if n >= 6 && range_eq(&s, 0, 6, "until=") {
        assert(s@.subrange(6, n as int) =~= s@.skip(6));
        return parse_until(&s, 6, n, t);
    }
    if n >= 6 && range_eq(&s, 0, 6, "until:") {
        assert(s@.subrange(6, n as int) =~= s@.skip(6));
        return parse_until(&s, 6, n, t);
    }
    if s[n - 1] == 'h' {
        assert(s@.subrange(0, n - 1) =~= s@.drop_last());
        return match parse_unsigned_range(&s, 0, n - 1, 0xffff_ffff) {
            None => Err(t.parse_duration_error(raw)),
            Some(hours) => {
                if hours == 0 {
                    Err(String::from_str(t.parse_duration_min_hour()))
                } else {
                    Ok(DurationPref::Hours { hours: hours as u32 })
                }
            },
        };
    }
    if n >= 2 && range_eq(&s, n - 2, n, "小时") {
        assert(s@.subrange(n - 2, n as int) =~= s@.skip(n - 2));
        let (a, b) = trim_bounds(&s, 0, n - 2);
        assert(s@.subrange(0, n - 2) =~= s@.take(n - 2));
        return match parse_unsigned_range(&s, a, b, 0xffff_ffff) {
            None => Err(t.parse_duration_error(raw)),
            Some(hours) => {
                if hours == 0 {
                    Err(String::from_str(t.parse_duration_min_hour()))
                } else {
                    Ok(DurationPref::Hours { hours: hours as u32 })
                }
            },
        };
    }
    assert(s@.subrange(0, n as int) =~= s@);
    parse_until(&s, 0, n, t)
}

/// `HH:MM` from `v[from..to]`.
fn parse_until(v: &Vec<char>, from: usize, to: usize, t: Tr) -> (r: Result<DurationPref, String>)
    requires
        from <= to <= v@.len(),
    ensures
        same_result(r, parse_until_spec(v@.subrange(from as int, to as int), t.lang)),
{
    let ghost s = v@.subrange(from as int, to as int);
    let raw = string_of(v, from, to);
    let mut k = from;
    while k < to && v[k] != ':'
        invariant
            from <= k <= to <= v@.len(),
            s == v@.subrange(from as int, to as int),
            find_char_from(s, ':', 0) == find_char_from(s, ':', k - from),
        decreases to - k,
    {
        k += 1;
    }
    if k == to {
        return Err(t.parse_time_format(raw.as_str()));
    }
    let mut j = k + 1;
    while j < to && v[j] != ':'
        invariant
            from <= k < j <= to <= v@.len(),
            s == v@.subrange(from as int, to as int),
            find_char_from(s, ':', k + 1 - from) == find_char_from(s, ':', j - from),
        decreases to - j,
    {
        j += 1;
    }
    if j < to {
        return Err(t.parse_time_format(raw.as_str()));
    }
    assert(v@.subrange(from as int, k as int) =~= s.take(k - from));
    assert(v@.subrange(k + 1, to as int) =~= s.skip(k + 1 - from));
    let hour = match parse_unsigned_range(v, from, k, 255) {
        None => {
            return Err(t.parse_invalid_hour(raw.as_str()));
        },
        Some(h) => h,
    };
    let minute = match parse_unsigned_range(v, k + 1, to, 255) {
        None => {
            return Err(t.parse_invalid_minute(raw.as_str()));
        },
        Some(m) => m,
    };
    if hour > 23 || minute > 59 {
        return Err(t.parse_invalid_time(raw.as_str()));
    }
    Ok(DurationPref::UntilLocal { hour: hour as u8, minute: minute as u8 })
}

/// A positive whole number of hours written with the Chinese unit, right
/// after the number or after a space (`12小时`, `12 小时`), reads as that many
/// hours, in either language, for every count that fits in `u32`.
#[verifier::rlimit(40)]
pub proof fn law_chinese_hours_parse(n: u32, lang: Lang)
    requires
        n >= 1,
    ensures
        parse_duration_spec(dec(n as nat) + "小时"@, lang) == Ok::<DurationPref, Seq<char>>(
            DurationPref::Hours { hours: n },
        ),
        parse_duration_spec(dec(n as nat) + " 小时"@, lang) == Ok::<DurationPref, Seq<char>>(
            DurationPref::Hours { hours: n },
        ),
{
    lemma_chinese_hours_parse(n, lang, Seq::empty());
    lemma_chinese_hours_parse(n, lang, seq![' ']);
    assert(dec(n as nat) + Seq::<char>::empty() + "小时"@ =~= dec(n as nat) + "小时"@);
    reveal_strlit(" 小时");
    reveal_strlit("小时");
    assert(dec(n as nat) + seq![' '] + "小时"@ =~= dec(n as nat) + " 小时"@);
}

proof fn lemma_chinese_hours_parse(n: u32, lang: Lang, gap: Seq<char>)
    requires
        n >= 1,
        gap == Seq::<char>::empty() || gap == seq![' '],
    ensures
        parse_duration_spec(dec(n as nat) + gap + "小时"@, lang) == Ok::<DurationPref, Seq<char>>(
            DurationPref::Hours { hours: n },
        ),
{
    reveal_strlit("indefinite");
    reveal_strlit("inf");
    reveal_strlit("forever");
    reveal_strlit("无限");
    reveal_strlit("until=");
    reveal_strlit("until:");
    reveal_strlit("小时");
    let d = dec(n as nat);
    lemma_parse_dec(n as nat, u32::MAX as nat);
    lemma_dec_digits(n as nat);
    let t = d + gap + "小时"@;
    let k = t.len();
    assert(is_digit(t[0])) by {
        assert(t[0] == d[0]);
    }
    assert(t.last() == '时');
    assert(!is_ws('时'));
    lemma_trim_fixed(t);
    assert forall|i: int| 0 <= i < t.len() implies !('A' <= #[trigger] t[i] && t[i] <= 'Z') by {
        if i < d.len() {
            assert(t[i] == d[i]);
            assert(is_digit(d[i]));
        }
    }
    lemma_lower_fixed(t);
    let s = lower_seq(trim_seq(t));
    assert(s == t);
    assert(s != "indefinite"@ && s != "inf"@ && s != "forever"@ && s != "无限"@) by {
        assert(s[0] != "indefinite"@[0]);
        assert(s[0] != "inf"@[0]);
        assert(s[0] != "forever"@[0]);
        assert(s[0] != "无限"@[0]);
    }
    if s.len() >= 6 {
        assert(s.take(6)[0] != "until="@[0]);
        assert(s.take(6)[0] != "until:"@[0]);
    }
    assert(s.last() != 'h');
    assert(s.skip(k - 2) =~= "小时"@);
    assert(s.take(k - 2) =~= d + gap);
    if gap.len() == 0 {
        assert(d + gap =~= d);
    } else {
        assert(is_ws(' '));
        assert(!is_ws(d[0]) && !is_ws(d.last())) by {
            assert(is_digit(d[0]));
            assert(is_digit(d.last()));
        }
        let dg = d + gap;
        assert(trim_start_seq(dg) == dg);
        assert(dg.last() == ' ');
        assert(dg.drop_last() =~= d);
        assert(trim_end_seq(d) == d) by {
            lemma_trim_fixed(d);
            assert(trim_start_seq(d) == d);
        }
        assert(trim_seq(dg) == d);
    }
    assert(trim_seq(s.take(k - 2)) == d);
}

} // verus!
