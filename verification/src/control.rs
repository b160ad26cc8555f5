//! What the menu bar process does with a click, a panel command or a request
//! on its socket: the engine inputs to dispatch and the settings to keep. The
//! event loop performs them.

use vstd::prelude::*;
use crate::config::{AppConfig, DurationPref, DEFAULT_BATTERY_FLOOR};
use crate::engine::{Input, StopReason};
use crate::i18n::Lang;
use crate::config::parse_duration_spec;
use crate::panel::{key_ipc, key_pref, DurationKey};
use crate::protocol::{parse_on_duration_in, IpcRequest};
use crate::status::ViewModel;
use crate::text::chars_eq;
use crate::text::chars_of;

verus! {

/// A command sent from the panel.
#[derive(Debug, Clone, PartialEq, Eq)]
pub enum UiCommand {
    Toggle,
    SetDuration { value: String },
    SetOption { key: String, enabled: bool },
    SetLanguage { language: String },
    Help,
    More,
    Back,
    Quit,
}

/// The duration a panel value names: the value of one of the menu presets.
pub open spec fn ui_duration_spec(value: Seq<char>) -> Option<DurationPref> {
    if value == key_ipc(DurationKey::Indefinite) {
        Some(key_pref(DurationKey::Indefinite))
    } else if value == key_ipc(DurationKey::Hours1) {
        Some(key_pref(DurationKey::Hours1))
    } else if value == key_ipc(DurationKey::Hours3) {
        Some(key_pref(DurationKey::Hours3))
    } else if value == key_ipc(DurationKey::Hours8) {
        Some(key_pref(DurationKey::Hours8))
    } else if value == key_ipc(DurationKey::Until0800) {
        Some(key_pref(DurationKey::Until0800))
    } else {
        None
    }
}

/// The duration a panel value names, `None` for an unknown value.
pub fn ui_duration_pref(value: &str) -> (r: Option<DurationPref>)
    ensures
        r == ui_duration_spec(value@),
{
    let v = chars_of(value);
    if chars_eq(&v, "indefinite") {
        Some(DurationPref::Indefinite)
    } else if chars_eq(&v, "1h") {
        Some(DurationPref::Hours { hours: 1 })
    } else if chars_eq(&v, "3h") {
        Some(DurationPref::Hours { hours: 3 })
    } else if chars_eq(&v, "8h") {
        Some(DurationPref::Hours { hours: 8 })
    } else if chars_eq(&v, "until_0800") {
        Some(DurationPref::UntilLocal { hour: 8, minute: 0 })
    } else {
        None
    }
}

/// The value the panel sends for a preset selects that preset's duration.
pub proof fn law_ui_duration_roundtrip(k: DurationKey)
    ensures
        ui_duration_spec(key_ipc(k)) == Some(key_pref(k)),
{
    reveal_strlit("indefinite");
    reveal_strlit("1h");
    reveal_strlit("3h");
    reveal_strlit("8h");
    reveal_strlit("until_0800");
    assert("1h"@ != "indefinite"@) by {
        assert("1h"@[0] != "indefinite"@[0]);
    }
    assert("3h"@ != "indefinite"@) by {
        assert("3h"@[0] != "indefinite"@[0]);
    }
    assert("8h"@ != "indefinite"@) by {
        assert("8h"@[0] != "indefinite"@[0]);
    }
    assert("until_0800"@ != "indefinite"@) by {
        assert("until_0800"@[0] != "indefinite"@[0]);
    }
    assert("3h"@ != "1h"@) by {
        assert("3h"@[0] != "1h"@[0]);
    }
    assert("8h"@ != "1h"@) by {
        assert("8h"@[0] != "1h"@[0]);
    }
    assert("8h"@ != "3h"@) by {
        assert("8h"@[0] != "3h"@[0]);
    }
    assert("until_0800"@ != "1h"@) by {
        assert("until_0800"@[0] != "1h"@[0]);
    }
    assert("until_0800"@ != "3h"@) by {
        assert("until_0800"@[0] != "3h"@[0]);
    }
    assert("until_0800"@ != "8h"@) by {
        assert("until_0800"@[0] != "8h"@[0]);
    }
}

/// The language a panel value names.
pub open spec fn ui_language_spec(value: Seq<char>) -> Option<Lang> {
    if value == "en"@ {
        Some(Lang::En)
    } else if value == "zh"@ {
        Some(Lang::Zh)
    } else {
        None
    }
}

/// The language a panel value names, `None` for an unknown value.
pub fn ui_language(value: &str) -> (r: Option<Lang>)
    ensures
        r == ui_language_spec(value@),
{
    let v = chars_of(value);
    if chars_eq(&v, "en") {
        Some(Lang::En)
    } else if chars_eq(&v, "zh") {
        Some(Lang::Zh)
    } else {
        None
    }
}

/// A switch in the menu or the settings pane.
#[derive(Debug, Clone, Copy, PartialEq, Eq, Structural)]
pub enum OptionKey {
    ScreenOff,
    LidAwake,
    ResleepDisplay,
    LockScreen,
    BatteryFloor,
    LaunchAtLogin,
}

/// The switch a panel key names.
pub open spec fn option_key_spec(key: Seq<char>) -> Option<OptionKey> {
    if key == "screen_off"@ {
        Some(OptionKey::ScreenOff)
    } else if key == "lid_awake"@ {
        Some(OptionKey::LidAwake)
    } else if key == "resleep_display"@ {
        Some(OptionKey::ResleepDisplay)
    } else if key == "lock_screen"@ {
        Some(OptionKey::LockScreen)
    } else if key == "battery_floor"@ {
        Some(OptionKey::BatteryFloor)
    } else if key == "launch_at_login"@ {
        Some(OptionKey::LaunchAtLogin)
    } else {
        None
    }
}

/// The switch a panel key names, `None` for an unknown key.
pub fn option_key(key: &str) -> (r: Option<OptionKey>)
    ensures
        r == option_key_spec(key@),
{
    let v = chars_of(key);
    if chars_eq(&v, "screen_off") {
        Some(OptionKey::ScreenOff)
    } else if chars_eq(&v, "lid_awake") {
        Some(OptionKey::LidAwake)
    } else if chars_eq(&v, "resleep_display") {
        Some(OptionKey::ResleepDisplay)
    } else if chars_eq(&v, "lock_screen") {
        Some(OptionKey::LockScreen)
    } else if chars_eq(&v, "battery_floor") {
        Some(OptionKey::BatteryFloor)
    } else if chars_eq(&v, "launch_at_login") {
        Some(OptionKey::LaunchAtLogin)
    } else {
        None
    }
}

/// Whether a switch is on in `cfg` (the battery floor is on when set).
pub open spec fn option_value(cfg: AppConfig, key: OptionKey) -> bool {
    match key {
        OptionKey::ScreenOff => cfg.screen_off,
        OptionKey::LidAwake => cfg.keep_awake_on_lid_close,
        OptionKey::ResleepDisplay => cfg.resleep_display,
        OptionKey::LockScreen => cfg.lock_screen,
        OptionKey::BatteryFloor => cfg.battery_floor_percent is Some,
        OptionKey::LaunchAtLogin => cfg.launch_at_login,
    }
}

/// `cfg` with one switch set: turning the battery floor on uses the default
/// floor.
pub open spec fn with_option_spec(cfg: AppConfig, key: OptionKey, enabled: bool) -> AppConfig {
    match key {
        OptionKey::ScreenOff => AppConfig { screen_off: enabled, ..cfg },
        OptionKey::LidAwake => AppConfig { keep_awake_on_lid_close: enabled, ..cfg },
        OptionKey::ResleepDisplay => AppConfig { resleep_display: enabled, ..cfg },
        OptionKey::LockScreen => AppConfig { lock_screen: enabled, ..cfg },
        OptionKey::BatteryFloor => AppConfig {
            battery_floor_percent: if enabled {
                Some(DEFAULT_BATTERY_FLOOR)
            } else {
                None
            },
            ..cfg
        },
        OptionKey::LaunchAtLogin => AppConfig { launch_at_login: enabled, ..cfg },
    }
}

/// `cfg` with one switch set (see `with_option_spec`). For the login item the
/// caller sets it only after the system accepted the change.
pub fn with_option(cfg: AppConfig, key: OptionKey, enabled: bool) -> (r: AppConfig)
    ensures
        r == with_option_spec(cfg, key, enabled),
{
    let mut c = cfg;
    match key {
        OptionKey::ScreenOff => c.screen_off = enabled,
        OptionKey::LidAwake => c.keep_awake_on_lid_close = enabled,
        OptionKey::ResleepDisplay => c.resleep_display = enabled,
        OptionKey::LockScreen => c.lock_screen = enabled,
        OptionKey::BatteryFloor => {
            c.battery_floor_percent = if enabled {
                Some(DEFAULT_BATTERY_FLOOR)
            } else {
                None
            };
        },
        OptionKey::LaunchAtLogin => c.launch_at_login = enabled,
    }
    c
}

/// A menu click on a switch turns it over.
pub fn toggled_option(cfg: AppConfig, key: OptionKey) -> (r: AppConfig)
    ensures
        r == with_option_spec(cfg, key, !option_value(cfg, key)),
{
    let on = match key {
        OptionKey::ScreenOff => cfg.screen_off,
        OptionKey::LidAwake => cfg.keep_awake_on_lid_close,
        OptionKey::ResleepDisplay => cfg.resleep_display,
        OptionKey::LockScreen => cfg.lock_screen,
        OptionKey::BatteryFloor => cfg.battery_floor_percent.is_some(),
        OptionKey::LaunchAtLogin => cfg.launch_at_login,
    };
    with_option(cfg, key, !on)
}

/// Setting a switch and reading it back gives the value set, and leaves the
/// other switches as they were.
pub proof fn law_option_set_then_read(cfg: AppConfig, key: OptionKey, other: OptionKey, enabled: bool)
    requires
        other != key,
    ensures
        option_value(with_option_spec(cfg, key, enabled), key) == enabled,
        option_value(with_option_spec(cfg, key, enabled), other) == option_value(cfg, other),
{
}

/// A change of the lid switch during standby is applied at once by a tick.
pub fn option_needs_tick(key: OptionKey, engine_active: bool) -> (r: bool)
    ensures
        r == (key == OptionKey::LidAwake && engine_active),
{
    match key {
        OptionKey::LidAwake => engine_active,
        _ => false,
    }
}

/// The inputs that apply a new duration: a running session restarts with it,
/// an idle engine only remembers it.
pub fn duration_change_inputs(engine_active: bool, pref: DurationPref) -> (r: Vec<Input>)
    ensures
        r@ == (if engine_active {
            seq![Input::Stop { reason: StopReason::User }, Input::StartWith(pref)]
        } else {
            Seq::<Input>::empty()
        }),
{
    let mut v: Vec<Input> = Vec::new();
    if engine_active {
        v.push(Input::Stop { reason: StopReason::User });
        v.push(Input::StartWith(pref));
    }
    assert(v@ =~= (if engine_active {
        seq![Input::Stop { reason: StopReason::User }, Input::StartWith(pref)]
    } else {
        Seq::<Input>::empty()
    }));
    v
}

/// The inputs for an `On` request whose duration read as `input` (`Start` or
/// `StartWith`): a plain start while running changes nothing, a start with a
/// duration while running restarts with it, and an idle engine starts.
pub fn on_request_inputs(engine_active: bool, input: Input) -> (r: Vec<Input>)
    requires
        input is Start || input is StartWith,
    ensures
        r@ == (if engine_active && input is Start {
            Seq::<Input>::empty()
        } else if engine_active {
            seq![Input::Stop { reason: StopReason::User }, input]
        } else {
            seq![input]
        }),
{
    let mut v: Vec<Input> = Vec::new();
    let plain = match input {
        Input::Start => true,
        _ => false,
    };
    if engine_active && plain {
    } else if engine_active {
        v.push(Input::Stop { reason: StopReason::User });
        v.push(input);
    } else {
        v.push(input);
    }
    assert(v@ =~= (if engine_active && input is Start {
        Seq::<Input>::empty()
    } else if engine_active {
        seq![Input::Stop { reason: StopReason::User }, input]
    } else {
        seq![input]
    }));
    v
}

/// The inputs for an `Off` request: a running session stops.
pub fn off_request_inputs(engine_active: bool) -> (r: Vec<Input>)
    ensures
        r@ == (if engine_active {
            seq![Input::Stop { reason: StopReason::User }]
        } else {
            Seq::<Input>::empty()
        }),
{
    let mut v: Vec<Input> = Vec::new();
    if engine_active {
        v.push(Input::Stop { reason: StopReason::User });
    }
    assert(v@ =~= (if engine_active {
        seq![Input::Stop { reason: StopReason::User }]
    } else {
        Seq::<Input>::empty()
    }));
    v
}

/// Ticks from the heartbeat timer are at least this far apart.
pub const TICK_MIN_INTERVAL_MS: u64 = 400;

/// Whether the heartbeat timer should tick the engine: the last tick was at
/// least `TICK_MIN_INTERVAL_MS` ago (a clock reading behind the last tick
/// counts as no time passed).
pub fn tick_due(now_ms: u64, last_tick_ms: u64) -> (r: bool)
    ensures
        r == (now_ms >= last_tick_ms && now_ms - last_tick_ms >= TICK_MIN_INTERVAL_MS),
{
    now_ms >= last_tick_ms && now_ms - last_tick_ms >= TICK_MIN_INTERVAL_MS
}

/// At launch the usage notes are shown once: the settings afterwards (marked
/// as shown), and whether to show them now.
pub fn launch_onboarding(cfg: AppConfig) -> (r: (AppConfig, bool))
    ensures
        r.0 == (AppConfig { onboarding_done: true, ..cfg }),
        r.1 == !cfg.onboarding_done,
{
    let show = !cfg.onboarding_done;
    (AppConfig { onboarding_done: true, ..cfg }, show)
}

/// An item of the status-bar menu.
#[derive(Debug, Clone, Copy, PartialEq, Eq, Structural)]
pub enum MenuItem {
    Toggle,
    Quit,
    Help,
    Language(Lang),
    Switch(OptionKey),
    Duration(DurationKey),
}

/// Where the panel goes after a command.
#[derive(Debug, Clone, Copy, PartialEq, Eq, Structural)]
pub enum PanelNav {
    Stay,
    Help,
    More,
    Back,
}

/// What the event loop does for a click or a panel command: dispatch
/// `inputs` in order, ask the system to set the login item when `login` says
/// so (then settle the settings with `login_result`), save `config` when
/// `save`, redraw the fixed menu labels in `relabel`, move the panel, and
/// quit (stopping standby first) when `quit`.
#[derive(Debug, Clone, PartialEq, Eq)]
pub struct UiPlan {
    pub config: AppConfig,
    pub save: bool,
    pub relabel: Option<Lang>,
    pub inputs: Vec<Input>,
    pub login: Option<bool>,
    pub nav: PanelNav,
    pub quit: bool,
}

/// A plan as a value.
pub struct UiPlanSpec {
    pub config: AppConfig,
    pub save: bool,
    pub relabel: Option<Lang>,
    pub inputs: Seq<Input>,
    pub login: Option<bool>,
    pub nav: PanelNav,
    pub quit: bool,
}

impl UiPlan {
    pub open spec fn spec(&self) -> UiPlanSpec {
        UiPlanSpec {
            config: self.config,
            save: self.save,
            relabel: self.relabel,
            inputs: self.inputs@,
            login: self.login,
            nav: self.nav,
            quit: self.quit,
        }
    }
}

/// A plan that changes nothing but `config`, `save` and `inputs`.
pub open spec fn plain_plan(config: AppConfig, save: bool, inputs: Seq<Input>) -> UiPlanSpec {
    UiPlanSpec { config, save, relabel: None, inputs, login: None, nav: PanelNav::Stay, quit: false }
}

/// The inputs after a switch change: the lid switch takes effect at once by a tick.
pub open spec fn switch_inputs(key: OptionKey, active: bool) -> Seq<Input> {
    if key == OptionKey::LidAwake && active {
        seq![Input::Tick]
    } else {
        Seq::empty()
    }
}

/// The inputs that apply a new duration.
pub open spec fn duration_inputs(active: bool, pref: DurationPref) -> Seq<Input> {
    if active {
        seq![Input::Stop { reason: StopReason::User }, Input::StartWith(pref)]
    } else {
        Seq::empty()
    }
}

/// The plan for choosing the language `lang`.
pub open spec fn language_plan(cfg: AppConfig, lang: Lang) -> UiPlanSpec {
    UiPlanSpec {
        config: AppConfig { language: Some(lang), ..cfg },
        save: true,
        relabel: Some(lang),
        inputs: Seq::empty(),
        login: None,
        nav: PanelNav::Stay,
        quit: false,
    }
}

/// The plan for asking the system to set the login item to `enabled`.
pub open spec fn login_plan(cfg: AppConfig, enabled: bool) -> UiPlanSpec {
    UiPlanSpec { login: Some(enabled), ..plain_plan(cfg, true, Seq::empty()) }
}

/// The plan for a click on a menu item.
pub open spec fn menu_plan(cfg: AppConfig, active: bool, item: MenuItem) -> UiPlanSpec {
    match item {
        MenuItem::Toggle => plain_plan(cfg, false, seq![Input::Toggle]),
        MenuItem::Quit => UiPlanSpec { quit: true, ..plain_plan(cfg, false, Seq::empty()) },
        MenuItem::Help => UiPlanSpec { nav: PanelNav::Help, ..plain_plan(cfg, false, Seq::empty()) },
        MenuItem::Language(l) => language_plan(cfg, l),
        MenuItem::Switch(k) => if k == OptionKey::LaunchAtLogin {
            login_plan(cfg, !cfg.launch_at_login)
        } else {
            plain_plan(with_option_spec(cfg, k, !option_value(cfg, k)), true, switch_inputs(k, active))
        },
        MenuItem::Duration(d) => plain_plan(
            AppConfig { duration: key_pref(d), ..cfg },
            true,
            duration_inputs(active, key_pref(d)),
        ),
    }
}

/// The plan for a panel command; unknown values change nothing.
pub open spec fn command_plan(cfg: AppConfig, active: bool, cmd: UiCommand) -> UiPlanSpec {
    match cmd {
        UiCommand::Toggle => plain_plan(cfg, false, seq![Input::Toggle]),
        UiCommand::SetDuration { value } => match ui_duration_spec(value@) {
            Some(p) => plain_plan(AppConfig { duration: p, ..cfg }, true, duration_inputs(active, p)),
            None => plain_plan(cfg, false, Seq::empty()),
        },
        UiCommand::SetOption { key, enabled } => match option_key_spec(key@) {
            Some(k) => if k == OptionKey::LaunchAtLogin {
                login_plan(cfg, enabled)
            } else {
                plain_plan(with_option_spec(cfg, k, enabled), true, switch_inputs(k, active))
            },
            None => plain_plan(cfg, false, Seq::empty()),
        },
        UiCommand::SetLanguage { language } => match ui_language_spec(language@) {
            Some(l) => language_plan(cfg, l),
            None => plain_plan(cfg, false, Seq::empty()),
        },
        UiCommand::Help => UiPlanSpec { nav: PanelNav::Help, ..plain_plan(cfg, false, Seq::empty()) },
        UiCommand::More => UiPlanSpec { nav: PanelNav::More, ..plain_plan(cfg, false, Seq::empty()) },
        UiCommand::Back => UiPlanSpec { nav: PanelNav::Back, ..plain_plan(cfg, false, Seq::empty()) },
        UiCommand::Quit => UiPlanSpec { quit: true, ..plain_plan(cfg, false, Seq::empty()) },
    }
}

fn plan(config: AppConfig, save: bool, inputs: Vec<Input>) -> (r: UiPlan)
    ensures
        r.spec() == plain_plan(config, save, inputs@),
{
    UiPlan { config, save, relabel: None, inputs, login: None, nav: PanelNav::Stay, quit: false }
}

fn switch_input_list(key: OptionKey, active: bool) -> (r: Vec<Input>)
    ensures
        r@ == switch_inputs(key, active),
{
    let mut v: Vec<Input> = Vec::new();
    if option_needs_tick(key, active) {
        v.push(Input::Tick);
    }
    assert(v@ =~= switch_inputs(key, active));
    v
}

fn language_change(cfg: AppConfig, lang: Lang) -> (r: UiPlan)
    ensures
        r.spec() == language_plan(cfg, lang),
{
    UiPlan {
        config: AppConfig { language: Some(lang), ..cfg },
        save: true,
        relabel: Some(lang),
        inputs: Vec::new(),
        login: None,
        nav: PanelNav::Stay,
        quit: false,
    }
}

fn login_change(cfg: AppConfig, enabled: bool) -> (r: UiPlan)
    ensures
        r.spec() == login_plan(cfg, enabled),
{
    UiPlan { config: cfg, save: true, relabel: None, inputs: Vec::new(), login: Some(enabled), nav: PanelNav::Stay, quit: false }
}

fn nav_to(cfg: AppConfig, nav: PanelNav) -> (r: UiPlan)
    ensures
        r.spec() == (UiPlanSpec { nav, ..plain_plan(cfg, false, Seq::empty()) }),
{
    UiPlan { config: cfg, save: false, relabel: None, inputs: Vec::new(), login: None, nav, quit: false }
}

fn quit_plan(cfg: AppConfig) -> (r: UiPlan)
    ensures
        r.spec() == (UiPlanSpec { quit: true, ..plain_plan(cfg, false, Seq::empty()) }),
{
    UiPlan { config: cfg, save: false, relabel: None, inputs: Vec::new(), login: None, nav: PanelNav::Stay, quit: true }
}

fn toggle_plan(cfg: AppConfig) -> (r: UiPlan)
    ensures
        r.spec() == plain_plan(cfg, false, seq![Input::Toggle]),
{
    let mut v: Vec<Input> = Vec::new();
    v.push(Input::Toggle);
    assert(v@ =~= seq![Input::Toggle]);
    plan(cfg, false, v)
}

/// What a click on a menu item does (see `menu_plan`).
pub fn plan_menu_item(cfg: AppConfig, active: bool, item: MenuItem) -> (r: UiPlan)
    ensures
        r.spec() == menu_plan(cfg, active, item),
{
    match item {
        MenuItem::Toggle => toggle_plan(cfg),
        MenuItem::Quit => quit_plan(cfg),
        MenuItem::Help => nav_to(cfg, PanelNav::Help),
        MenuItem::Language(l) => language_change(cfg, l),
        MenuItem::Switch(k) => match k {
            OptionKey::LaunchAtLogin => login_change(cfg, !cfg.launch_at_login),
            _ => plan(toggled_option(cfg, k), true, switch_input_list(k, active)),
        },
        MenuItem::Duration(d) => {
            let pref = match d {
                DurationKey::Indefinite => DurationPref::Indefinite,
                DurationKey::Hours1 => DurationPref::Hours { hours: 1 },
                DurationKey::Hours3 => DurationPref::Hours { hours: 3 },
                DurationKey::Hours8 => DurationPref::Hours { hours: 8 },
                DurationKey::Until0800 => DurationPref::UntilLocal { hour: 8, minute: 0 },
            };
            plan(AppConfig { duration: pref, ..cfg }, true, duration_change_inputs(active, pref))
        },
    }
}

/// What a panel command does (see `command_plan`).
pub fn plan_ui_command(cfg: AppConfig, active: bool, cmd: &UiCommand) -> (r: UiPlan)
    ensures
        r.spec() == command_plan(cfg, active, *cmd),
{
    match cmd {
        UiCommand::Toggle => toggle_plan(cfg),
        UiCommand::SetDuration { value } => match ui_duration_pref(value.as_str()) {
            Some(p) => plan(AppConfig { duration: p, ..cfg }, true, duration_change_inputs(active, p)),
            None => plan(cfg, false, Vec::new()),
        },
        UiCommand::SetOption { key, enabled } => match option_key(key.as_str()) {
            Some(k) => match k {
                OptionKey::LaunchAtLogin => login_change(cfg, *enabled),
                _ => plan(with_option(cfg, k, *enabled), true, switch_input_list(k, active)),
            },
            None => plan(cfg, false, Vec::new()),
        },
        UiCommand::SetLanguage { language } => match ui_language(language.as_str()) {
            Some(l) => language_change(cfg, l),
            None => plan(cfg, false, Vec::new()),
        },
        UiCommand::Help => nav_to(cfg, PanelNav::Help),
        UiCommand::More => nav_to(cfg, PanelNav::More),
        UiCommand::Back => nav_to(cfg, PanelNav::Back),
        UiCommand::Quit => quit_plan(cfg),
    }
}

/// The settings once the system answered a login-item change: the requested
/// value when it succeeded, unchanged when it failed.
pub fn login_result(cfg: AppConfig, requested: bool, ok: bool) -> (r: AppConfig)
    ensures
        r == (if ok {
            AppConfig { launch_at_login: requested, ..cfg }
        } else {
            cfg
        }),
{
    if ok {
        AppConfig { launch_at_login: requested, ..cfg }
    } else {
        cfg
    }
}

/// A menu click and the panel command for the same choice plan the same:
/// choosing a duration preset, or setting a switch to the opposite of its
/// current value.
pub proof fn law_menu_and_panel_agree(cfg: AppConfig, active: bool, d: DurationKey, k: OptionKey, key: String, value: String)
    requires
        value@ == key_ipc(d),
        option_key_spec(key@) == Some(k),
    ensures
        menu_plan(cfg, active, MenuItem::Duration(d)) == command_plan(
            cfg,
            active,
            UiCommand::SetDuration { value },
        ),
        menu_plan(cfg, active, MenuItem::Switch(k)) == command_plan(
            cfg,
            active,
            UiCommand::SetOption { key, enabled: !option_value(cfg, k) },
        ),
{
    law_ui_duration_roundtrip(d);
}

/// How the menu answers a request on its socket.
#[derive(Debug, Clone, PartialEq, Eq)]
pub enum IpcReply {
    /// `pong`.
    Pong,
    /// Success with the status after the inputs were applied.
    Status,
    /// Failure with this message.
    Error(String),
    /// The current pairing offer.
    Pairing,
}

/// What the menu does for a request: dispatch `inputs` in order, then send
/// `reply`; when `quit`, it instead stops standby and exits without replying.
#[derive(Debug, Clone, PartialEq, Eq)]
pub struct IpcPlan {
    pub inputs: Vec<Input>,
    pub reply: IpcReply,
    pub quit: bool,
}

/// `inputs` are those of an `On` asking for `pref` (none: the configured
/// duration) while standby is `active`.
pub open spec fn on_plan_ok(active: bool, pref: Option<DurationPref>, inputs: Seq<Input>) -> bool {
    let input = match pref {
        Some(d) => Input::StartWith(d),
        None => Input::Start,
    };
    inputs == (if active && input is Start {
        Seq::<Input>::empty()
    } else if active {
        seq![Input::Stop { reason: StopReason::User }, input]
    } else {
        seq![input]
    })
}

/// What the menu does for `req` while standby is `active`, with duration
/// errors in `lang`.
pub fn plan_ipc(active: bool, lang: Lang, req: &IpcRequest) -> (r: IpcPlan)
    ensures
        match *req {
            IpcRequest::Ping => r.inputs@.len() == 0 && r.reply == IpcReply::Pong && !r.quit,
            IpcRequest::Status => r.inputs@.len() == 0 && r.reply == IpcReply::Status && !r.quit,
            IpcRequest::Pair => r.inputs@.len() == 0 && r.reply == IpcReply::Pairing && !r.quit,
            IpcRequest::Quit => r.inputs@.len() == 0 && r.reply == IpcReply::Status && r.quit,
            IpcRequest::Toggle => r.inputs@ == seq![Input::Toggle] && r.reply == IpcReply::Status
                && !r.quit,
            IpcRequest::Off => r.inputs@ == (if active {
                seq![Input::Stop { reason: StopReason::User }]
            } else {
                Seq::<Input>::empty()
            }) && r.reply == IpcReply::Status && !r.quit,
            IpcRequest::On { duration, .. } => !r.quit && match duration {
                None => on_plan_ok(active, None, r.inputs@) && r.reply == IpcReply::Status,
                Some(text) => match parse_duration_spec(text@, lang) {
                    Ok(p) => on_plan_ok(active, Some(p), r.inputs@) && r.reply == IpcReply::Status,
                    Err(msg) => r.inputs@.len() == 0 && (r.reply matches IpcReply::Error(m) && m@
                        == msg),
                },
            },
        },
{
    match req {
        IpcRequest::Ping => IpcPlan { inputs: Vec::new(), reply: IpcReply::Pong, quit: false },
        IpcRequest::Status => IpcPlan { inputs: Vec::new(), reply: IpcReply::Status, quit: false },
        IpcRequest::Pair => IpcPlan { inputs: Vec::new(), reply: IpcReply::Pairing, quit: false },
        IpcRequest::Quit => IpcPlan { inputs: Vec::new(), reply: IpcReply::Status, quit: true },
        IpcRequest::Toggle => {
            let mut v: Vec<Input> = Vec::new();
            v.push(Input::Toggle);
            assert(v@ =~= seq![Input::Toggle]);
            IpcPlan { inputs: v, reply: IpcReply::Status, quit: false }
        },
        IpcRequest::Off => IpcPlan { inputs: off_request_inputs(active), reply: IpcReply::Status, quit: false },
        IpcRequest::On { duration, .. } => {
            let raw: Option<&str> = match duration {
                Some(text) => Some(text.as_str()),
                None => None,
            };
            match parse_on_duration_in(raw, lang) {
                Ok(pref) => {
                    let input = match pref {
                        Some(d) => Input::StartWith(d),
                        None => Input::Start,
                    };
                    IpcPlan { inputs: on_request_inputs(active, input), reply: IpcReply::Status, quit: false }
                },
                Err(e) => IpcPlan { inputs: Vec::new(), reply: IpcReply::Error(e), quit: false },
            }
        },
    }
}

/// The check marks of the menu.
#[derive(Debug, Clone, Copy, PartialEq, Eq, Structural)]
pub struct MenuChecks {
    pub screen_off: bool,
    pub lid_awake: bool,
    pub resleep: bool,
    pub lock_screen: bool,
    pub login: bool,
    pub battery_floor: bool,
    pub lang_en: bool,
    pub lang_zh: bool,
    /// The duration preset that is checked; none when the current duration
    /// is not one of the presets.
    pub duration: Option<DurationKey>,
}

/// The preset that is exactly `pref`, if any.
pub open spec fn checked_preset(pref: DurationPref) -> Option<DurationKey> {
    if pref == key_pref(DurationKey::Indefinite) {
        Some(DurationKey::Indefinite)
    } else if pref == key_pref(DurationKey::Hours1) {
        Some(DurationKey::Hours1)
    } else if pref == key_pref(DurationKey::Hours3) {
        Some(DurationKey::Hours3)
    } else if pref == key_pref(DurationKey::Hours8) {
        Some(DurationKey::Hours8)
    } else if pref == key_pref(DurationKey::Until0800) {
        Some(DurationKey::Until0800)
    } else {
        None
    }
}

/// The duration preset to check for `pref`: the preset equal to it, none for
/// any other duration.
pub fn checked_duration(pref: DurationPref) -> (r: Option<DurationKey>)
    ensures
        r == checked_preset(pref),
{
    match pref {
        DurationPref::Indefinite => Some(DurationKey::Indefinite),
        DurationPref::Hours { hours } => {
            if hours == 1 {
                Some(DurationKey::Hours1)
            } else if hours == 3 {
                Some(DurationKey::Hours3)
            } else if hours == 8 {
                Some(DurationKey::Hours8)
            } else {
                None
            }
        },
        DurationPref::UntilLocal { hour, minute } => {
            if hour == 8 && minute == 0 {
                Some(DurationKey::Until0800)
            } else {
                None
            }
        },
    }
}

/// The check marks for a view: the switches as the view reports them, the
/// battery floor and language from the settings, the duration preset equal to
/// the current duration (none for any other duration).
pub fn menu_checks(cfg: &AppConfig, vm: &ViewModel) -> (r: MenuChecks)
    ensures
        r == (MenuChecks {
            screen_off: vm.screen_off,
            lid_awake: vm.keep_awake_on_lid_close,
            resleep: vm.resleep_display,
            lock_screen: vm.lock_screen,
            login: vm.launch_at_login,
            battery_floor: cfg.battery_floor_percent is Some,
            lang_en: crate::config::config_lang(*cfg) == Lang::En,
            lang_zh: crate::config::config_lang(*cfg) == Lang::Zh,
            duration: checked_preset(vm.duration),
        }),
{
    let lang = cfg.lang();
    MenuChecks {
        screen_off: vm.screen_off,
        lid_awake: vm.keep_awake_on_lid_close,
        resleep: vm.resleep_display,
        lock_screen: vm.lock_screen,
        login: vm.launch_at_login,
        battery_floor: cfg.battery_floor_percent.is_some(),
        lang_en: match lang {
            Lang::En => true,
            _ => false,
        },
        lang_zh: match lang {
            Lang::Zh => true,
            _ => false,
        },
        duration: checked_duration(vm.duration),
    }
}

/// The check marks of a freshly built menu, from the settings alone.
pub fn config_checks(cfg: &AppConfig) -> (r: MenuChecks)
    ensures
        r == (MenuChecks {
            screen_off: cfg.screen_off,
            lid_awake: cfg.keep_awake_on_lid_close,
            resleep: cfg.resleep_display,
            lock_screen: cfg.lock_screen,
            login: cfg.launch_at_login,
            battery_floor: cfg.battery_floor_percent is Some,
            lang_en: crate::config::config_lang(*cfg) == Lang::En,
            lang_zh: crate::config::config_lang(*cfg) == Lang::Zh,
            duration: checked_preset(cfg.duration),
        }),
{
    let lang = cfg.lang();
    MenuChecks {
        screen_off: cfg.screen_off,
        lid_awake: cfg.keep_awake_on_lid_close,
        resleep: cfg.resleep_display,
        lock_screen: cfg.lock_screen,
        login: cfg.launch_at_login,
        battery_floor: cfg.battery_floor_percent.is_some(),
        lang_en: match lang {
            Lang::En => true,
            _ => false,
        },
        lang_zh: match lang {
            Lang::Zh => true,
            _ => false,
        },
        duration: checked_duration(cfg.duration),
    }
}

} // verus!
