//! Menu-bar panel navigation and choices, kept free of AppKit.

use vstd::prelude::*;
use crate::config::{config_lang, AppConfig, DurationPref};
use crate::i18n::{
    back_text, help_how_text, help_kicker_text, help_lead_text, help_note_battery_text,
    help_note_lid_text, help_note_quit_text, help_notes_text, help_step1_detail_text,
    help_step1_title_text, help_step2_detail_text, help_step2_title_text, help_step3_after_text,
    help_step3_before_text, help_step3_title_text, help_title_text, hours_text, indefinite_text,
    language_menu_text, launch_at_login_text, lid_awake_text, lock_screen_text, more_settings_text,
    pane_display_lead_text, pane_general_lead_text, pane_safeguards_lead_text, panel_active_title_text,
    panel_hotkey_hint_text, panel_idle_title_text, panel_section_display_text,
    panel_section_general_text, panel_section_lid_text, panel_section_safeguards_text,
    panel_section_session_text, panel_summary_active_text, panel_summary_idle_text, quit_text,
    resleep_display_text, screen_off_now_text, settings_title_text, sidebar_group_guide_text,
    sidebar_group_options_text, until_clock_text, warn_lid_best_effort_text, duration_menu_text,
    Lang, DEFAULT_HOTKEY_LABEL,
};
use crate::duration::{clock_text, countdown_text, format_clock, format_countdown};
use crate::status::{opt_string_view, ViewModel};
use crate::text::chars_of;

verus! {

/// Ignore a second Start/End click that AppKit queued from the same press.
pub const TOGGLE_COOLDOWN_MS: u64 = 400;

/// Where the panel sits.
#[derive(Debug, Clone, Copy, PartialEq, Eq, Structural)]
pub enum PanelPlacement {
    /// Anchored under the status item; hidden when the panel loses key focus.
    MenuBar,
}

pub fn panel_placement() -> (r: PanelPlacement)
    ensures
        r == PanelPlacement::MenuBar,
{
    PanelPlacement::MenuBar
}

/// A panel anchored to the menu bar hides when it loses key focus.
pub fn dismiss_on_focus_loss() -> (r: bool)
    ensures
        r == (panel_placement_spec() == PanelPlacement::MenuBar),
{
    match panel_placement() {
        PanelPlacement::MenuBar => true,
    }
}

/// The placement `panel_placement` returns.
pub open spec fn panel_placement_spec() -> PanelPlacement {
    PanelPlacement::MenuBar
}

/// The panel's background colour while idle, as RGB.
pub open spec fn idle_fill() -> [u8; 3] {
    [0xf5, 0xf5, 0xf7]
}

/// The panel's background colour during standby, as RGB.
pub open spec fn active_fill() -> [u8; 3] {
    [0x1c, 0x1c, 0x1e]
}

/// Idle `#f5f5f7`, standby `#1c1c1e`.
pub fn panel_fill_rgb(active: bool) -> (r: [u8; 3])
    ensures
        r == (if active {
            active_fill()
        } else {
            idle_fill()
        }),
{
    if active {
        [0x1c, 0x1c, 0x1e]
    } else {
        [0xf5, 0xf5, 0xf7]
    }
}

/// Idle shows the sun; standby shows the moon. Never both at once.
pub fn hero_shows_moon(active: bool) -> (r: bool)
    ensures
        r == active,
{
    active
}

/// The coin turns over unless the person asked for reduced motion.
pub fn hero_flips(reduce_motion: bool) -> (r: bool)
    ensures
        r == !reduce_motion,
{
    !reduce_motion
}

/// The third how-to step as one sentence: a space before the hotkey, and a
/// space after it unless the rest starts with a comma (`，` or `,`).
pub open spec fn help_step3_text(before: Seq<char>, hotkey: Seq<char>, after: Seq<char>) -> Seq<char> {
    if after.len() > 0 && (after[0] == '，' || after[0] == ',') {
        before + seq![' '] + hotkey + after
    } else {
        before + seq![' '] + hotkey + seq![' '] + after
    }
}

/// Joins the parts of the third how-to step (see `help_step3_text`).
pub fn join_help_step3(before: &str, hotkey: &str, after: &str) -> (r: String)
    ensures
        r@ == help_step3_text(before@, hotkey@, after@),
{
    let a = chars_of(after);
    let comma = a.len() > 0 && (a[0] == '，' || a[0] == ',');
    let mut s = String::from_str(before);
    s.append(" ");
    s.append(hotkey);
    if !comma {
        s.append(" ");
    }
    s.append(after);
    proof {
        reveal_strlit(" ");
    }
    assert(s@ =~= help_step3_text(before@, hotkey@, after@));
    s
}

/// The material behind the panel.
#[derive(Debug, Clone, Copy, PartialEq, Eq, Structural)]
pub enum GlassKind {
    LiquidGlass,
    Vibrancy,
}

/// Liquid glass where the system has it, vibrancy otherwise.
pub fn preferred_glass(ns_glass_effect_view_available: bool) -> (r: GlassKind)
    ensures
        r == (if ns_glass_effect_view_available {
            GlassKind::LiquidGlass
        } else {
            GlassKind::Vibrancy
        }),
{
    if ns_glass_effect_view_available {
        GlassKind::LiquidGlass
    } else {
        GlassKind::Vibrancy
    }
}

/// The panel's pages.
#[derive(Debug, Clone, Copy, PartialEq, Eq, Structural)]
pub enum PanelView {
    Main,
    Settings,
    Help,
}

/// Sidebar destinations.
#[derive(Debug, Clone, Copy, PartialEq, Eq, Structural)]
pub enum SidebarItem {
    Standby,
    Display,
    Lid,
    Safeguards,
    General,
    Help,
}

/// The sidebar position of an item, top to bottom.
pub open spec fn sidebar_index(item: SidebarItem) -> int {
    match item {
        SidebarItem::Standby => 0,
        SidebarItem::Display => 1,
        SidebarItem::Lid => 2,
        SidebarItem::Safeguards => 3,
        SidebarItem::General => 4,
        SidebarItem::Help => 5,
    }
}

impl SidebarItem {
    /// Every sidebar item, top to bottom.
    pub fn all() -> (r: [SidebarItem; 6])
        ensures
            forall|i: int| 0 <= i < 6 ==> sidebar_index(#[trigger] r@[i]) == i,
    {
        [
            SidebarItem::Standby,
            SidebarItem::Display,
            SidebarItem::Lid,
            SidebarItem::Safeguards,
            SidebarItem::General,
            SidebarItem::Help,
        ]
    }

    pub fn index(self) -> (r: isize)
        ensures
            r == sidebar_index(self),
    {
        match self {
            SidebarItem::Standby => 0,
            SidebarItem::Display => 1,
            SidebarItem::Lid => 2,
            SidebarItem::Safeguards => 3,
            SidebarItem::General => 4,
            SidebarItem::Help => 5,
        }
    }

    /// The item at a sidebar position, if there is one.
    pub fn from_index(index: isize) -> (r: Option<SidebarItem>)
        ensures
            match r {
                Some(item) => sidebar_index(item) == index,
                None => !(0 <= index < 6),
            },
    {
        match index {
            0 => Some(SidebarItem::Standby),
            1 => Some(SidebarItem::Display),
            2 => Some(SidebarItem::Lid),
            3 => Some(SidebarItem::Safeguards),
            4 => Some(SidebarItem::General),
            5 => Some(SidebarItem::Help),
            _ => None,
        }
    }

    /// The SF Symbol drawn beside the item.
    pub fn symbol(self) -> (r: &'static str)
        ensures
            r@ == match self {
                SidebarItem::Standby => "moon.zzz"@,
                SidebarItem::Display => "display"@,
                SidebarItem::Lid => "laptopcomputer"@,
                SidebarItem::Safeguards => "checkmark.shield"@,
                SidebarItem::General => "gearshape"@,
                SidebarItem::Help => "questionmark.circle"@,
            },
    {
        match self {
            SidebarItem::Standby => "moon.zzz",
            SidebarItem::Display => "display",
            SidebarItem::Lid => "laptopcomputer",
            SidebarItem::Safeguards => "checkmark.shield",
            SidebarItem::General => "gearshape",
            SidebarItem::Help => "questionmark.circle",
        }
    }

    /// The page an item opens: Standby the main page, Help the guide, the rest settings.
    pub fn as_panel_view(self) -> (r: PanelView)
        ensures
            r == match self {
                SidebarItem::Standby => PanelView::Main,
                SidebarItem::Help => PanelView::Help,
                _ => PanelView::Settings,
            },
    {
        match self {
            SidebarItem::Standby => PanelView::Main,
            SidebarItem::Help => PanelView::Help,
            SidebarItem::Display | SidebarItem::Lid | SidebarItem::Safeguards | SidebarItem::General => PanelView::Settings,
        }
    }
}

/// A sidebar position read back gives the same item.
pub proof fn law_sidebar_index_roundtrip(item: SidebarItem, back: SidebarItem)
    requires
        sidebar_index(back) == sidebar_index(item),
    ensures
        back == item,
{
}

/// The duration presets of the menu.
#[derive(Debug, Clone, Copy, PartialEq, Eq, Structural)]
pub enum DurationKey {
    Indefinite,
    Hours1,
    Hours3,
    Hours8,
    Until0800,
}

/// The preference a preset stands for.
pub open spec fn key_pref(k: DurationKey) -> DurationPref {
    match k {
        DurationKey::Indefinite => DurationPref::Indefinite,
        DurationKey::Hours1 => DurationPref::Hours { hours: 1 },
        DurationKey::Hours3 => DurationPref::Hours { hours: 3 },
        DurationKey::Hours8 => DurationPref::Hours { hours: 8 },
        DurationKey::Until0800 => DurationPref::UntilLocal { hour: 8, minute: 0 },
    }
}

/// The preset a preference is shown as: its own preset, or Indefinite for a
/// duration the menu has no preset for.
pub open spec fn key_of_pref(pref: DurationPref) -> DurationKey {
    if pref == key_pref(DurationKey::Hours1) {
        DurationKey::Hours1
    } else if pref == key_pref(DurationKey::Hours3) {
        DurationKey::Hours3
    } else if pref == key_pref(DurationKey::Hours8) {
        DurationKey::Hours8
    } else if pref == key_pref(DurationKey::Until0800) {
        DurationKey::Until0800
    } else {
        DurationKey::Indefinite
    }
}

/// The menu position of a preset.
pub open spec fn key_index(k: DurationKey) -> int {
    match k {
        DurationKey::Indefinite => 0,
        DurationKey::Hours1 => 1,
        DurationKey::Hours3 => 2,
        DurationKey::Hours8 => 3,
        DurationKey::Until0800 => 4,
    }
}

/// The value a preset is sent as from the panel.
pub open spec fn key_ipc(k: DurationKey) -> Seq<char> {
    match k {
        DurationKey::Indefinite => "indefinite"@,
        DurationKey::Hours1 => "1h"@,
        DurationKey::Hours3 => "3h"@,
        DurationKey::Hours8 => "8h"@,
        DurationKey::Until0800 => "until_0800"@,
    }
}

impl DurationKey {
    pub fn from_pref(pref: DurationPref) -> (r: DurationKey)
        ensures
            r == key_of_pref(pref),
    {
        match pref {
            DurationPref::Hours { hours } => {
                if hours == 1 {
                    DurationKey::Hours1
                } else if hours == 3 {
                    DurationKey::Hours3
                } else if hours == 8 {
                    DurationKey::Hours8
                } else {
                    DurationKey::Indefinite
                }
            },
            DurationPref::UntilLocal { hour, minute } => {
                if hour == 8 && minute == 0 {
                    DurationKey::Until0800
                } else {
                    DurationKey::Indefinite
                }
            },
            DurationPref::Indefinite => DurationKey::Indefinite,
        }
    }

    pub fn index(self) -> (r: isize)
        ensures
            r == key_index(self),
    {
        match self {
            DurationKey::Indefinite => 0,
            DurationKey::Hours1 => 1,
            DurationKey::Hours3 => 2,
            DurationKey::Hours8 => 3,
            DurationKey::Until0800 => 4,
        }
    }

    pub fn from_index(index: isize) -> (r: Option<DurationKey>)
        ensures
            match r {
                Some(k) => key_index(k) == index,
                None => !(0 <= index < 5),
            },
    {
        match index {
            0 => Some(DurationKey::Indefinite),
            1 => Some(DurationKey::Hours1),
            2 => Some(DurationKey::Hours3),
            3 => Some(DurationKey::Hours8),
            4 => Some(DurationKey::Until0800),
            _ => None,
        }
    }

    pub fn as_ipc(self) -> (r: &'static str)
        ensures
            r@ == key_ipc(self),
    {
        match self {
            DurationKey::Indefinite => "indefinite",
            DurationKey::Hours1 => "1h",
            DurationKey::Hours3 => "3h",
            DurationKey::Hours8 => "8h",
            DurationKey::Until0800 => "until_0800",
        }
    }
}

/// Each preset is the one its own preference is shown as, and its menu
/// position reads back as the same preset.
pub proof fn law_duration_key_roundtrip(k: DurationKey, back: DurationKey)
    requires
        key_index(back) == key_index(k),
    ensures
        key_of_pref(key_pref(k)) == k,
        back == k,
{
}

/// Ignores extra panel toggle clicks for a short cooldown after one is taken.
#[derive(Debug, Clone, Copy, PartialEq, Eq)]
pub struct ToggleGate {
    locked_until: Option<u64>,
}

impl View for ToggleGate {
    type V = Option<u64>;

    /// The millisecond until which clicks are ignored, if any.
    closed spec fn view(&self) -> Option<u64> {
        self.locked_until
    }
}

impl Default for ToggleGate {
    fn default() -> (r: Self)
        ensures
            r@ is None,
    {
        ToggleGate { locked_until: None }
    }
}

impl ToggleGate {
    /// A click at `now_ms` (monotonic milliseconds) is taken unless a cooldown
    /// is still running; a taken click starts a new cooldown.
    pub fn take_click_at(&mut self, now_ms: u64) -> (r: bool)
        requires
            now_ms + TOGGLE_COOLDOWN_MS <= u64::MAX,
        ensures
            r == !(old(self)@ matches Some(until) && now_ms < until),
            r ==> final(self)@ == Some((now_ms + TOGGLE_COOLDOWN_MS) as u64),
            !r ==> final(self)@ == old(self)@,
    {
        match self.locked_until {
            Some(until) => {
                if now_ms < until {
                    return false;
                }
            },
            None => {},
        }
        self.locked_until = Some(now_ms + TOGGLE_COOLDOWN_MS);
        true
    }
}

/// Seconds of an optional reading, 0 when there is none.
pub open spec fn secs_or_zero(s: Option<u64>) -> nat {
    match s {
        Some(n) => n as nat,
        None => 0,
    }
}

/// The clock under the panel's title during standby: the time elapsed for
/// indefinite standby (`0:00`), the countdown for a timed one (`1:00:00`);
/// nothing while idle.
pub open spec fn panel_timer_text(
    active: bool,
    duration: DurationPref,
    elapsed: Option<u64>,
    remaining: Option<u64>,
) -> Option<Seq<char>> {
    if !active {
        None
    } else {
        match duration {
            DurationPref::Indefinite => Some(clock_text(secs_or_zero(elapsed))),
            _ => Some(countdown_text(secs_or_zero(remaining))),
        }
    }
}

pub fn panel_timer(vm: &ViewModel) -> (r: Option<String>)
    ensures
        opt_string_view(r) == panel_timer_text(vm.active, vm.duration, vm.elapsed_secs, vm.remaining_secs),
{
    if !vm.active {
        return None;
    }
    match vm.duration {
        DurationPref::Indefinite => {
            let secs: u64 = match vm.elapsed_secs {
                Some(n) => n,
                None => 0,
            };
            Some(format_clock(secs))
        },
        _ => {
            let secs: u64 = match vm.remaining_secs {
                Some(n) => n,
                None => 0,
            };
            Some(format_countdown(secs))
        },
    }
}

/// Everything the native panel shows, in the configured language.
#[derive(Debug, Clone, PartialEq, Eq)]
pub struct PanelState {
    pub active: bool,
    pub lang: Lang,
    pub duration: DurationKey,
    pub warning: String,
    pub screen_off: bool,
    pub lid_awake: bool,
    pub resleep_display: bool,
    pub lock_screen: bool,
    pub battery_floor: bool,
    pub launch_at_login: bool,
    pub status_title: String,
    pub summary: String,
    pub primary_action: String,
    pub duration_label: String,
    pub duration_indefinite: String,
    pub duration_1h: String,
    pub duration_3h: String,
    pub duration_8h: String,
    pub duration_until: String,
    pub resleep: String,
    pub battery: String,
    pub more_settings: String,
    pub section_session: String,
    pub section_display: String,
    pub section_lid: String,
    pub section_safeguards: String,
    pub section_general: String,
    pub language_label: String,
    pub hotkey_hint: String,
    pub settings: String,
    pub sidebar_options: String,
    pub sidebar_guide: String,
    pub pane_display_lead: String,
    pub pane_lid_lead: String,
    pub pane_safeguards_lead: String,
    pub pane_general_lead: String,
    pub back: String,
    pub screen_off_label: String,
    pub lid_awake_label: String,
    pub lock_screen_label: String,
    pub launch_at_login_label: String,
    pub help: String,
    pub quit: String,
    pub help_kicker: String,
    pub help_lead: String,
    pub help_how: String,
    pub help_step1_title: String,
    pub help_step1_detail: String,
    pub help_step2_title: String,
    pub help_step2_detail: String,
    pub help_step3_title: String,
    pub help_step3_before: String,
    pub help_hotkey: String,
    pub help_step3_after: String,
    pub help_step3: String,
    pub help_notes: String,
    pub help_note_lid: String,
    pub help_note_battery: String,
    pub help_note_quit: String,
}

/// What `panel_state` shows for the settings `cfg` and the view `vm`: the
/// switches and standby flag from the view (the battery floor from the
/// settings), the preset the duration maps to, the first warning (empty when
/// there is none), the title and summary of the current state, and every label
/// of the panel, settings and guide in the configured language.
pub open spec fn panel_state_of(r: PanelState, cfg: AppConfig, vm: ViewModel) -> bool {
    let lang = config_lang(cfg);
    &&& r.lang == lang
    &&& r.duration == key_of_pref(vm.duration)
    &&& r.warning@ == (if vm.warnings@.len() > 0 {
        vm.warnings@[0]@
    } else {
        Seq::<char>::empty()
    })
    &&& r.active == (vm.active)
    &&& r.screen_off == (vm.screen_off)
    &&& r.lid_awake == (vm.keep_awake_on_lid_close)
    &&& r.resleep_display == (vm.resleep_display)
    &&& r.lock_screen == (vm.lock_screen)
    &&& r.battery_floor == (cfg.battery_floor_percent is Some)
    &&& r.launch_at_login == (vm.launch_at_login)
    &&& r.status_title@ == (if vm.active { panel_active_title_text(lang) } else { panel_idle_title_text(lang) })
    &&& r.summary@ == (if vm.active { panel_summary_active_text(lang) } else { panel_summary_idle_text(lang) })
    &&& r.primary_action@ == (vm.primary_action@)
    &&& r.duration_label@ == (duration_menu_text(lang))
    &&& r.duration_indefinite@ == (indefinite_text(lang))
    &&& r.duration_1h@ == (hours_text(lang, 1))
    &&& r.duration_3h@ == (hours_text(lang, 3))
    &&& r.duration_8h@ == (hours_text(lang, 8))
    &&& r.duration_until@ == (until_clock_text(lang, 8, 0))
    &&& r.resleep@ == (resleep_display_text(lang))
    &&& r.battery@ == (vm.battery_floor_label@)
    &&& r.more_settings@ == (more_settings_text(lang))
    &&& r.section_session@ == (panel_section_session_text(lang))
    &&& r.section_display@ == (panel_section_display_text(lang))
    &&& r.section_lid@ == (panel_section_lid_text(lang))
    &&& r.section_safeguards@ == (panel_section_safeguards_text(lang))
    &&& r.section_general@ == (panel_section_general_text(lang))
    &&& r.language_label@ == (language_menu_text(lang))
    &&& r.hotkey_hint@ == (panel_hotkey_hint_text(lang))
    &&& r.settings@ == (settings_title_text(lang))
    &&& r.sidebar_options@ == (sidebar_group_options_text(lang))
    &&& r.sidebar_guide@ == (sidebar_group_guide_text(lang))
    &&& r.pane_display_lead@ == (pane_display_lead_text(lang))
    &&& r.pane_lid_lead@ == (warn_lid_best_effort_text(lang))
    &&& r.pane_safeguards_lead@ == (pane_safeguards_lead_text(lang))
    &&& r.pane_general_lead@ == (pane_general_lead_text(lang))
    &&& r.back@ == (back_text(lang))
    &&& r.screen_off_label@ == (screen_off_now_text(lang))
    &&& r.lid_awake_label@ == (lid_awake_text(lang))
    &&& r.lock_screen_label@ == (lock_screen_text(lang))
    &&& r.launch_at_login_label@ == (launch_at_login_text(lang))
    &&& r.help@ == (help_title_text(lang))
    &&& r.quit@ == (quit_text(lang))
    &&& r.help_kicker@ == (help_kicker_text(lang))
    &&& r.help_lead@ == (help_lead_text(lang))
    &&& r.help_how@ == (help_how_text(lang))
    &&& r.help_step1_title@ == (help_step1_title_text(lang))
    &&& r.help_step1_detail@ == (help_step1_detail_text(lang))
    &&& r.help_step2_title@ == (help_step2_title_text(lang))
    &&& r.help_step2_detail@ == (help_step2_detail_text(lang))
    &&& r.help_step3_title@ == (help_step3_title_text(lang))
    &&& r.help_step3_before@ == (help_step3_before_text(lang))
    &&& r.help_hotkey@ == (DEFAULT_HOTKEY_LABEL@)
    &&& r.help_step3_after@ == (help_step3_after_text(lang))
    &&& r.help_step3@ == (help_step3_text(help_step3_before_text(lang), DEFAULT_HOTKEY_LABEL@, help_step3_after_text(lang)))
    &&& r.help_notes@ == (help_notes_text(lang))
    &&& r.help_note_lid@ == (help_note_lid_text(lang))
    &&& r.help_note_battery@ == (help_note_battery_text(lang))
    &&& r.help_note_quit@ == (help_note_quit_text(lang))
}

pub fn panel_state(cfg: &AppConfig, vm: &ViewModel) -> (r: PanelState)
    ensures
        panel_state_of(r, *cfg, *vm),
{
    let t = cfg.tr();
    let help_step3 = join_help_step3(t.help_step3_before(), DEFAULT_HOTKEY_LABEL, t.help_step3_after());
    let warning = if vm.warnings.len() > 0 {
        vm.warnings[0].clone()
    } else {
        String::new()
    };
    PanelState {
        active: vm.active,
        lang: cfg.lang(),
        duration: DurationKey::from_pref(vm.duration),
        warning,
        screen_off: vm.screen_off,
        lid_awake: vm.keep_awake_on_lid_close,
        resleep_display: vm.resleep_display,
        lock_screen: vm.lock_screen,
        battery_floor: cfg.battery_floor_percent.is_some(),
        launch_at_login: vm.launch_at_login,
        status_title: String::from_str(if vm.active { t.panel_active_title() } else { t.panel_idle_title() }),
        summary: String::from_str(if vm.active { t.panel_summary_active() } else { t.panel_summary_idle() }),
        primary_action: vm.primary_action.clone(),
        duration_label: String::from_str(t.duration_menu()),
        duration_indefinite: String::from_str(t.indefinite()),
        duration_1h: t.hours(1),
        duration_3h: t.hours(3),
        duration_8h: t.hours(8),
        duration_until: t.until_clock(8, 0),
        resleep: String::from_str(t.resleep_display()),
        battery: vm.battery_floor_label.clone(),
        more_settings: String::from_str(t.more_settings()),
        section_session: String::from_str(t.panel_section_session()),
        section_display: String::from_str(t.panel_section_display()),
        section_lid: String::from_str(t.panel_section_lid()),
        section_safeguards: String::from_str(t.panel_section_safeguards()),
        section_general: String::from_str(t.panel_section_general()),
        language_label: String::from_str(t.language_menu()),
        hotkey_hint: t.panel_hotkey_hint(),
        settings: String::from_str(t.settings_title()),
        sidebar_options: String::from_str(t.sidebar_group_options()),
        sidebar_guide: String::from_str(t.sidebar_group_guide()),
        pane_display_lead: String::from_str(t.pane_display_lead()),
        pane_lid_lead: String::from_str(t.warn_lid_best_effort()),
        pane_safeguards_lead: String::from_str(t.pane_safeguards_lead()),
        pane_general_lead: String::from_str(t.pane_general_lead()),
        back: String::from_str(t.back()),
        screen_off_label: String::from_str(t.screen_off_now()),
        lid_awake_label: String::from_str(t.lid_awake()),
        lock_screen_label: String::from_str(t.lock_screen()),
        launch_at_login_label: String::from_str(t.launch_at_login()),
        help: String::from_str(t.help_title()),
        quit: String::from_str(t.quit()),
        help_kicker: String::from_str(t.help_kicker()),
        help_lead: String::from_str(t.help_lead()),
        help_how: String::from_str(t.help_how()),
        help_step1_title: String::from_str(t.help_step1_title()),
        help_step1_detail: String::from_str(t.help_step1_detail()),
        help_step2_title: String::from_str(t.help_step2_title()),
        help_step2_detail: String::from_str(t.help_step2_detail()),
        help_step3_title: String::from_str(t.help_step3_title()),
        help_step3_before: String::from_str(t.help_step3_before()),
        help_hotkey: String::from_str(DEFAULT_HOTKEY_LABEL),
        help_step3_after: String::from_str(t.help_step3_after()),
        help_step3,
        help_notes: String::from_str(t.help_notes()),
        help_note_lid: String::from_str(t.help_note_lid()),
        help_note_battery: String::from_str(t.help_note_battery()),
        help_note_quit: String::from_str(t.help_note_quit()),
    }
}

} // verus!
