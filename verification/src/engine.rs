//! The standby state machine: inputs and host samples in, effects out.
//!
//! The engine decides; the platform layer performs the effects (power
//! assertions, display sleep, notifications) and feeds back inputs.

use vstd::prelude::*;

use crate::config::{config_lang, AppConfig, DurationPref, SLEEP_DISPLAY_DEBOUNCE_MS};
use crate::duration::{
    ceil_secs, clamp_i64, deadline_fits, planned_ms, deadline_unix_secs, duration_text, elapsed_secs,
    format_duration, hours_deadline_fits_i64, i64_saturating_sub, sat_sub,
};
use crate::i18n::{
    notify_ended_title_text, notify_ended_user_body_text, notify_started_title_text, pick_text,
    stop_assertion_text, stop_battery_text, stop_duration_text, stop_quit_text, stop_thermal_text,
    stop_user_text, Lang, Tr, DEFAULT_HOTKEY_LABEL,
};
use crate::status::{
    build_view_model, opt_string_view, user_present_at, view_model_of, HostSnapshot, JsonStatus,
    ViewModel,
};
use crate::text::{chars_eq, chars_of, dec};

verus! {

/// The power assertions a session holds.
#[derive(Debug, Clone, Copy, PartialEq, Eq, Structural)]
pub struct PowerPlan {
    pub prevent_idle_sleep: bool,
    pub prevent_system_sleep: bool,
    pub prevent_disk_idle: bool,
    pub network_client: bool,
    pub disable_clamshell_sleep: bool,
}

/// No assertion held.
pub open spec fn plan_off() -> PowerPlan {
    PowerPlan {
        prevent_idle_sleep: false,
        prevent_system_sleep: false,
        prevent_disk_idle: false,
        network_client: false,
        disable_clamshell_sleep: false,
    }
}

/// Assertions during standby: idle sleep, disk idle and network are always held;
/// closed-lid sleep is disabled when the user asked for it, and system sleep is
/// prevented only when that is asked for and the Mac is on AC power (the
/// assertion is only honoured on AC).
pub open spec fn plan_for_session(cfg: AppConfig, on_ac: bool) -> PowerPlan {
    PowerPlan {
        prevent_idle_sleep: true,
        prevent_system_sleep: cfg.keep_awake_on_lid_close && on_ac,
        prevent_disk_idle: true,
        network_client: true,
        disable_clamshell_sleep: cfg.keep_awake_on_lid_close,
    }
}

impl PowerPlan {
    pub fn off() -> (r: Self)
        ensures
            r == plan_off(),
    {
        Self {
            prevent_idle_sleep: false,
            prevent_system_sleep: false,
            prevent_disk_idle: false,
            network_client: false,
            disable_clamshell_sleep: false,
        }
    }

    pub fn for_session(cfg: &AppConfig, on_ac: bool) -> (r: Self)
        ensures
            r == plan_for_session(*cfg, on_ac),
    {
        Self {
            prevent_idle_sleep: true,
            prevent_system_sleep: cfg.keep_awake_on_lid_close && on_ac,
            prevent_disk_idle: true,
            network_client: true,
            disable_clamshell_sleep: cfg.keep_awake_on_lid_close,
        }
    }
}

/// What the platform layer must do.
#[derive(Debug, Clone, PartialEq, Eq)]
pub enum Effect {
    ApplyPower(PowerPlan),
    ReleasePower,
    SleepDisplay,
    LockSession,
    Notify { title: String, body: String },
}

/// An effect with its texts as character sequences.
pub enum EffectView {
    ApplyPower(PowerPlan),
    ReleasePower,
    SleepDisplay,
    LockSession,
    Notify { title: Seq<char>, body: Seq<char> },
}

impl View for Effect {
    type V = EffectView;

    open spec fn view(&self) -> EffectView {
        match self {
            Effect::ApplyPower(p) => EffectView::ApplyPower(*p),
            Effect::ReleasePower => EffectView::ReleasePower,
            Effect::SleepDisplay => EffectView::SleepDisplay,
            Effect::LockSession => EffectView::LockSession,
            Effect::Notify { title, body } => EffectView::Notify { title: title@, body: body@ },
        }
    }
}

/// The views of a list of effects.
pub open spec fn effects_view(v: Seq<Effect>) -> Seq<EffectView> {
    v.map_values(|e: Effect| e@)
}

/// What happened, fed to the engine.
#[derive(Debug, Clone, PartialEq, Eq)]
pub enum Input {
    Start,
    StartWith(DurationPref),
    Stop { reason: StopReason },
    Toggle,
    Tick,
    DisplayWoke,
    DisplaySlept,
}

/// Why standby ended.
#[derive(Debug, Clone, Copy, PartialEq, Eq)]
pub enum StopReason {
    User,
    BatteryFloor,
    ThermalEmergency,
    DurationElapsed,
    AppQuit,
    AssertionFailed,
}

/// The explanation of a stop reason in `lang`.
pub open spec fn stop_label(lang: Lang, r: StopReason) -> Seq<char> {
    match r {
        StopReason::User => stop_user_text(lang),
        StopReason::BatteryFloor => stop_battery_text(lang),
        StopReason::ThermalEmergency => stop_thermal_text(lang),
        StopReason::DurationElapsed => stop_duration_text(lang),
        StopReason::AppQuit => stop_quit_text(lang),
        StopReason::AssertionFailed => stop_assertion_text(lang),
    }
}

/// The stable machine-readable code of a stop reason.
pub open spec fn stop_code(r: StopReason) -> Seq<char> {
    match r {
        StopReason::User => "user"@,
        StopReason::BatteryFloor => "battery_floor"@,
        StopReason::ThermalEmergency => "thermal_emergency"@,
        StopReason::DurationElapsed => "duration_elapsed"@,
        StopReason::AppQuit => "app_quit"@,
        StopReason::AssertionFailed => "assertion_failed"@,
    }
}

/// The stop reason a code names, if any.
pub open spec fn stop_from_code(c: Seq<char>) -> Option<StopReason> {
    if c == "user"@ {
        Some(StopReason::User)
    } else if c == "battery_floor"@ {
        Some(StopReason::BatteryFloor)
    } else if c == "thermal_emergency"@ {
        Some(StopReason::ThermalEmergency)
    } else if c == "duration_elapsed"@ {
        Some(StopReason::DurationElapsed)
    } else if c == "app_quit"@ {
        Some(StopReason::AppQuit)
    } else if c == "assertion_failed"@ {
        Some(StopReason::AssertionFailed)
    } else {
        None
    }
}

/// Reading a stop reason's code gives the reason back.
pub proof fn law_stop_code_round_trip(r: StopReason)
    ensures
        stop_from_code(stop_code(r)) == Some(r),
{
    reveal_strlit("user");
    reveal_strlit("battery_floor");
    reveal_strlit("thermal_emergency");
    reveal_strlit("duration_elapsed");
    reveal_strlit("app_quit");
    reveal_strlit("assertion_failed");
    assert("user"@[0] != "battery_floor"@[0]);
    assert("user"@[0] != "thermal_emergency"@[0]);
    assert("user"@[0] != "duration_elapsed"@[0]);
    assert("user"@[0] != "app_quit"@[0]);
    assert("user"@[0] != "assertion_failed"@[0]);
    assert("battery_floor"@[0] != "thermal_emergency"@[0]);
    assert("battery_floor"@[0] != "duration_elapsed"@[0]);
    assert("battery_floor"@[0] != "app_quit"@[0]);
    assert("battery_floor"@[0] != "assertion_failed"@[0]);
    assert("thermal_emergency"@[0] != "duration_elapsed"@[0]);
    assert("thermal_emergency"@[0] != "app_quit"@[0]);
    assert("thermal_emergency"@[0] != "assertion_failed"@[0]);
    assert("duration_elapsed"@[0] != "app_quit"@[0]);
    assert("duration_elapsed"@[0] != "assertion_failed"@[0]);
    assert("app_quit"@[1] != "assertion_failed"@[1]);
}

impl StopReason {
    /// The explanation shown to the user, in `lang`.
    pub fn label(self, lang: Lang) -> (r: &'static str)
        ensures
            r@ == stop_label(lang, self),
    {
        let t = Tr::new(lang);
        match self {
            StopReason::User => t.stop_user(),
            StopReason::BatteryFloor => t.stop_battery(),
            StopReason::ThermalEmergency => t.stop_thermal(),
            StopReason::DurationElapsed => t.stop_duration(),
            StopReason::AppQuit => t.stop_quit(),
            StopReason::AssertionFailed => t.stop_assertion(),
        }
    }

    /// The stop reason a status code names, if any.
    pub fn from_code(code: &str) -> (r: Option<StopReason>)
        ensures
            r == stop_from_code(code@),
    {
        let v = chars_of(code);
        if chars_eq(&v, "user") {
            Some(StopReason::User)
        } else if chars_eq(&v, "battery_floor") {
            Some(StopReason::BatteryFloor)
        } else if chars_eq(&v, "thermal_emergency") {
            Some(StopReason::ThermalEmergency)
        } else if chars_eq(&v, "duration_elapsed") {
            Some(StopReason::DurationElapsed)
        } else if chars_eq(&v, "app_quit") {
            Some(StopReason::AppQuit)
        } else if chars_eq(&v, "assertion_failed") {
            Some(StopReason::AssertionFailed)
        } else {
            None
        }
    }

    /// The code reported in the machine-readable status.
    pub fn code(self) -> (r: &'static str)
        ensures
            r@ == stop_code(self),
    {
        match self {
            StopReason::User => "user",
            StopReason::BatteryFloor => "battery_floor",
            StopReason::ThermalEmergency => "thermal_emergency",
            StopReason::DurationElapsed => "duration_elapsed",
            StopReason::AppQuit => "app_quit",
            StopReason::AssertionFailed => "assertion_failed",
        }
    }
}

/// A running standby session.
#[derive(Debug, Clone, Copy, PartialEq, Eq)]
pub struct Session {
    pub started_ms: u64,
    pub started_unix: i64,
    pub duration: DurationPref,
    pub deadline_unix: Option<i64>,
    pub initial_display_off_sent: bool,
    pub last_sleep_display_ms: Option<u64>,
}

/// The engine's state.
pub struct EngineView {
    pub config: AppConfig,
    pub session: Option<Session>,
    pub optimistic_display_asleep: bool,
    pub last_stop_reason: Option<Seq<char>>,
    pub last_stop: Option<StopReason>,
    pub last_plan: PowerPlan,
}

/// Standby policy engine.
#[derive(Debug, Clone)]
pub struct Engine {
    pub config: AppConfig,
    session: Option<Session>,
    optimistic_display_asleep: bool,
    last_stop_reason: Option<String>,
    last_stop: Option<StopReason>,
    last_plan: PowerPlan,
}

impl Engine {
    /// The engine's state as a value.
    pub closed spec fn model(&self) -> EngineView {
        EngineView {
            config: self.config,
            session: self.session,
            optimistic_display_asleep: self.optimistic_display_asleep,
            last_stop_reason: opt_string_view(self.last_stop_reason),
            last_stop: self.last_stop,
            last_plan: self.last_plan,
        }
    }

    /// The configured standby duration.
    pub fn configured_duration(&self) -> (r: DurationPref)
        ensures
            r == self.model().config.duration,
    {
        self.config.duration
    }
}

/// Title of the start notification, in the configured language.
pub open spec fn started_title(cfg: AppConfig) -> Seq<char> {
    notify_started_title_text(config_lang(cfg))
}

/// Body of the start notification: when the display goes dark (or that it is
/// left alone), the hotkey that ends standby, and the time left when there is
/// a deadline.
pub open spec fn started_body(cfg: AppConfig, deadline: Option<i64>, now_unix: i64) -> Seq<char> {
    let delay = if cfg.display_off_delay_ms >= 1 {
        cfg.display_off_delay_ms as nat
    } else {
        1
    };
    let lang = config_lang(cfg);
    let head = if cfg.screen_off {
        pick_text(
            lang,
            "Display will sleep in about "@ + dec((delay + 999) / 1000)
                + " seconds; the Mac stays awake. Press "@ + DEFAULT_HOTKEY_LABEL@ + " to end."@,
            "约 "@ + dec((delay + 999) / 1000) + " 秒后关闭屏幕，电脑保持运行。按 "@ + DEFAULT_HOTKEY_LABEL@
                + " 结束。"@,
        )
    } else {
        pick_text(
            lang,
            "The Mac will stay awake (display is not forced off). Press "@ + DEFAULT_HOTKEY_LABEL@
                + " to end."@,
            "电脑将保持运行（不强制关屏）。按 "@ + DEFAULT_HOTKEY_LABEL@ + " 结束。"@,
        )
    };
    match deadline {
        Some(d) => {
            let left = clamp_i64(d - now_unix);
            let dur = duration_text(lang, if left < 0 { 0 } else { left as nat });
            head + pick_text(lang, " "@ + dur + " left."@, " 剩余 "@ + dur + "。"@)
        },
        None => head,
    }
}

/// The reason standby must end now, if any: critical heat first, then a battery
/// below the floor while unplugged, then a deadline reached on the wall clock.
pub open spec fn auto_stop_reason(e: EngineView, host: HostSnapshot) -> Option<StopReason> {
    match e.session {
        None => None,
        Some(s) => if host.thermal == crate::status::Thermal::Critical {
            Some(StopReason::ThermalEmergency)
        } else if (match (e.config.battery_floor_percent, host.battery_percent) {
            (Some(floor), Some(pct)) => !host.on_ac && pct < floor,
            _ => false,
        }) {
            Some(StopReason::BatteryFloor)
        } else if (match s.deadline_unix {
            Some(d) => host.unix_secs >= d,
            None => false,
        }) {
            Some(StopReason::DurationElapsed)
        } else {
            None
        },
    }
}

/// Whether to put the display to sleep now. Only with a session and the
/// screen-off option; never before the start delay, and never within the
/// debounce after the previous request. The first request always goes out;
/// after that, only with re-sleep enabled and nobody at the Mac.
pub open spec fn wants_display_sleep(e: EngineView, host: HostSnapshot) -> bool {
    match e.session {
        None => false,
        Some(s) => {
            &&& e.config.screen_off
            &&& sat_sub(host.monotonic_ms as nat, s.started_ms as nat) >= e.config.display_off_delay_ms
            &&& match s.last_sleep_display_ms {
                Some(last) => sat_sub(host.monotonic_ms as nat, last as nat) >= SLEEP_DISPLAY_DEBOUNCE_MS,
                None => true,
            }
            &&& (!s.initial_display_off_sent || (e.config.resleep_display && !user_present_at(
                host,
                e.config.user_idle_resleep_ms,
            )))
        },
    }
}

/// End the session (nothing happens without one): release the assertions and,
/// except on quit, tell the user why.
pub open spec fn stop_step(e: EngineView, reason: StopReason, host: HostSnapshot) -> (EngineView, Seq<EffectView>) {
    match e.session {
        None => (e, Seq::empty()),
        Some(_) => {
            let e2 = EngineView {
                session: None,
                last_plan: plan_off(),
                optimistic_display_asleep: match host.display_asleep {
                    Some(b) => b,
                    None => false,
                },
                last_stop_reason: Some(stop_label(config_lang(e.config), reason)),
                last_stop: Some(reason),
                ..e
            };
            let lang = config_lang(e.config);
            let notify = match reason {
                StopReason::AppQuit => Seq::empty(),
                StopReason::User => seq![
                    EffectView::Notify {
                        title: notify_ended_title_text(lang),
                        body: notify_ended_user_body_text(lang),
                    },
                ],
                _ => seq![
                    EffectView::Notify { title: notify_ended_title_text(lang), body: stop_label(lang, reason) },
                ],
            };
            (e2, seq![EffectView::ReleasePower] + notify)
        },
    }
}

/// The display-sleep part of a tick.
pub open spec fn sleep_step(e: EngineView, host: HostSnapshot) -> (EngineView, Seq<EffectView>) {
    match e.session {
        Some(s) if wants_display_sleep(e, host) => {
            let e2 = EngineView {
                session: Some(
                    Session {
                        initial_display_off_sent: true,
                        last_sleep_display_ms: Some(host.monotonic_ms),
                        ..s
                    },
                ),
                optimistic_display_asleep: true,
                ..e
            };
            let lock = if !s.initial_display_off_sent && e.config.lock_screen {
                seq![EffectView::LockSession]
            } else {
                Seq::empty()
            };
            (e2, seq![EffectView::SleepDisplay] + lock)
        },
        _ => (e, Seq::empty()),
    }
}

/// A periodic re-evaluation: end the session when a stop condition holds;
/// otherwise re-apply the power plan when it changed (AC plugged or unplugged,
/// options changed) and sleep the display when due.
pub open spec fn tick_step(e: EngineView, host: HostSnapshot) -> (EngineView, Seq<EffectView>) {
    match e.session {
        None => (e, Seq::empty()),
        Some(_) => match auto_stop_reason(e, host) {
            Some(reason) => stop_step(e, reason, host),
            None => {
                let plan = plan_for_session(e.config, host.on_ac);
                let (e1, power) = if plan != e.last_plan {
                    (EngineView { last_plan: plan, ..e }, seq![EffectView::ApplyPower(plan)])
                } else {
                    (e, Seq::empty())
                };
                let (e2, sleep) = sleep_step(e1, host);
                (e2, power + sleep)
            },
        },
    }
}

/// Begin a session of `pref` (nothing happens while one runs): apply the power
/// plan, announce it, then tick once.
pub open spec fn start_step(
    e: EngineView,
    pref: DurationPref,
    host: HostSnapshot,
    deadline: Option<i64>,
) -> (EngineView, Seq<EffectView>) {
    match e.session {
        Some(_) => (e, Seq::empty()),
        None => {
            let cfg = AppConfig { duration: pref, ..e.config };
            let plan = plan_for_session(cfg, host.on_ac);
            let e1 = EngineView {
                config: cfg,
                session: Some(
                    Session {
                        started_ms: host.monotonic_ms,
                        started_unix: host.unix_secs,
                        duration: pref,
                        deadline_unix: deadline,
                        initial_display_off_sent: false,
                        last_sleep_display_ms: None,
                    },
                ),
                optimistic_display_asleep: match host.display_asleep {
                    Some(b) => b,
                    None => false,
                },
                last_stop_reason: None,
                last_stop: None,
                last_plan: plan,
            };
            let (e2, tick) = tick_step(e1, host);
            (
                e2,
                seq![
                    EffectView::ApplyPower(plan),
                    EffectView::Notify {
                        title: started_title(cfg),
                        body: started_body(cfg, deadline, host.unix_secs),
                    },
                ] + tick,
            )
        },
    }
}

/// The duration of the session `input` starts, if it starts one.
pub open spec fn requested_duration(e: EngineView, input: Input) -> Option<DurationPref> {
    if e.session is Some {
        None
    } else {
        match input {
            Input::Start | Input::Toggle => Some(e.config.duration),
            Input::StartWith(p) => Some(p),
            _ => None,
        }
    }
}

/// The engine's transition for `input` at `host`, with `deadline` the deadline a
/// session started by this input gets.
pub open spec fn handle_step(
    e: EngineView,
    input: Input,
    host: HostSnapshot,
    deadline: Option<i64>,
) -> (EngineView, Seq<EffectView>) {
    match input {
        Input::Start => start_step(e, e.config.duration, host, deadline),
        Input::StartWith(pref) => start_step(e, pref, host, deadline),
        Input::Toggle => if e.session is Some {
            stop_step(e, StopReason::User, host)
        } else {
            start_step(e, e.config.duration, host, deadline)
        },
        Input::Stop { reason } => stop_step(e, reason, host),
        Input::DisplayWoke => tick_step(EngineView { optimistic_display_asleep: false, ..e }, host),
        Input::DisplaySlept => (EngineView { optimistic_display_asleep: true, ..e }, Seq::empty()),
        Input::Tick => tick_step(e, host),
    }
}

/// A session started by `input` at `host` has a deadline that fits in `i64`.
pub open spec fn input_fits(e: EngineView, input: Input, host: HostSnapshot) -> bool {
    match requested_duration(e, input) {
        Some(p) => hours_deadline_fits_i64(p, host.unix_secs as int),
        None => true,
    }
}

/// The deadline a session started by `input` may get: what `deadline_fits` allows
/// for the requested duration (any value when nothing starts).
pub open spec fn deadline_for(e: EngineView, input: Input, host: HostSnapshot, deadline: Option<i64>) -> bool {
    match requested_duration(e, input) {
        Some(p) => deadline_fits(p, host.unix_secs as int, deadline),
        None => true,
    }
}

/// Whether the display counts as asleep: the host's reading when there is one,
/// otherwise the engine's optimistic flag.
pub open spec fn display_asleep_now(e: EngineView, host: HostSnapshot) -> bool {
    match host.display_asleep {
        Some(b) => b,
        None => e.optimistic_display_asleep,
    }
}

/// Whole seconds of the session so far on the monotonic clock.
pub open spec fn session_elapsed(e: EngineView, host: HostSnapshot) -> Option<u64> {
    match e.session {
        Some(s) => Some((sat_sub(host.monotonic_ms as nat, s.started_ms as nat) / 1000) as u64),
        None => None,
    }
}

/// Whole seconds left in the session: a timed session counts down on the
/// monotonic clock from its planned length (rounded up to the second), a
/// wall-clock session counts down to its deadline, floored at 0.
pub open spec fn session_remaining(e: EngineView, host: HostSnapshot) -> Option<u64> {
    match e.session {
        Some(s) => match s.deadline_unix {
            Some(d) => Some(
                match s.duration {
                    DurationPref::Hours { .. } => ceil_secs(
                        sat_sub(
                            planned_ms(d, s.started_unix) as nat,
                            sat_sub(host.monotonic_ms as nat, s.started_ms as nat),
                        ),
                    ) as u64,
                    _ => {
                        let left = clamp_i64(d - host.unix_secs);
                        (if left < 0 {
                            0
                        } else {
                            left
                        }) as u64
                    },
                },
            ),
            None => None,
        },
        None => None,
    }
}

/// Everything `Engine::json_status` promises of the status it reports.
pub open spec fn json_status_of(st: JsonStatus, e: EngineView, host: HostSnapshot) -> bool {
    &&& st.active == (e.session is Some)
    &&& st.display@ == (if display_asleep_now(e, host) {
        "asleep"@
    } else {
        "awake"@
    })
    &&& st.lid@ == (if host.lid_closed {
        "closed"@
    } else {
        "open"@
    })
    &&& st.on_ac == host.on_ac
    &&& st.battery == host.battery_percent
    &&& st.remaining_secs == session_remaining(e, host)
    &&& st.user_present == user_present_at(host, e.config.user_idle_resleep_ms)
    &&& st.elapsed_secs == session_elapsed(e, host)
    &&& opt_string_view(st.stop_reason) == e.last_stop_reason
    &&& opt_string_view(st.stop_reason_code) == match e.last_stop {
        Some(r) => Some(stop_code(r)),
        None => None,
    }
    &&& st.screen_off_enabled == e.config.screen_off
    &&& st.lid_awake_enabled == e.config.keep_awake_on_lid_close
}

impl Engine {
    pub fn new(config: AppConfig) -> (r: Self)
        ensures
            r.model() == (EngineView {
                config,
                session: None,
                optimistic_display_asleep: false,
                last_stop_reason: None,
                last_stop: None,
                last_plan: plan_off(),
            }),
    {
        Self {
            config,
            session: None,
            optimistic_display_asleep: false,
            last_stop_reason: None,
            last_stop: None,
            last_plan: PowerPlan::off(),
        }
    }

    pub fn is_active(&self) -> (r: bool)
        ensures
            r == (self.model().session is Some),
    {
        self.session.is_some()
    }

    /// Whether `input` can be handled at `host`: a timed session it would start
    /// must end at an instant that fits in `i64`.
    pub fn accepts(&self, input: &Input, host: &HostSnapshot) -> (r: bool)
        ensures
            r == input_fits(self.model(), *input, *host),
    {
        if self.session.is_some() {
            return true;
        }
        let pref = match input {
            Input::Start | Input::Toggle => self.config.duration,
            Input::StartWith(p) => *p,
            _ => {
                return true;
            },
        };
        match pref {
            DurationPref::Hours { hours } => host.unix_secs as i128 + hours as i128 * 3600 <= i64::MAX as i128,
            _ => true,
        }
    }

    /// Feeds one input and returns the effects to perform, in order.
    pub fn handle(&mut self, input: Input, host: &HostSnapshot) -> (effects: Vec<Effect>)
        requires
            input_fits(old(self).model(), input, *host),
        ensures
            exists|d: Option<i64>|
                {
                    &&& deadline_for(old(self).model(), input, *host, d)
                    &&& #[trigger] handle_step(old(self).model(), input, *host, d) == (
                        final(self).model(),
                        effects_view(effects@),
                    )
                },
            final(self).model().config.env_lang == old(self).model().config.env_lang,
    {
        let mut effects: Vec<Effect> = Vec::new();
        let ghost d: Option<i64> = None;
        match input {
            Input::Start => {
                let pref = self.config.duration;
                let dd = self.start(pref, host, &mut effects);
                proof {
                    d = dd@;
                }
            },
            Input::StartWith(pref) => {
                let dd = self.start(pref, host, &mut effects);
                proof {
                    d = dd@;
                }
            },
            Input::Toggle => {
                if self.session.is_some() {
                    self.stop(StopReason::User, host, &mut effects);
                } else {
                    let pref = self.config.duration;
                    let dd = self.start(pref, host, &mut effects);
                    proof {
                        d = dd@;
                    }
                }
            },
            Input::Stop { reason } => self.stop(reason, host, &mut effects),
            Input::DisplayWoke => {
                self.optimistic_display_asleep = false;
                self.tick(host, &mut effects);
            },
            Input::DisplaySlept => {
                self.optimistic_display_asleep = true;
            },
            Input::Tick => self.tick(host, &mut effects),
        }
        assert(effects_view(effects@) =~= handle_step(old(self).model(), input, *host, d).1);
        assert(handle_step(old(self).model(), input, *host, d) == (self.model(), effects_view(effects@)));
        assert(deadline_for(old(self).model(), input, *host, d));
        effects
    }

    /// Starts a session; returns (as a ghost) the deadline it used.
    fn start(&mut self, pref: DurationPref, host: &HostSnapshot, effects: &mut Vec<Effect>) -> (d: Ghost<Option<i64>>)
        requires
            old(self).model().session is None ==> hours_deadline_fits_i64(pref, host.unix_secs as int),
        ensures
            deadline_fits(pref, host.unix_secs as int, d@) || old(self).model().session is Some,
            (final(self).model(), effects_view(final(effects)@)) == ({
                let (e2, eff) = start_step(old(self).model(), pref, *host, d@);
                (e2, effects_view(old(effects)@) + eff)
            }),
            final(self).config.env_lang == old(self).config.env_lang,
    {
        if self.session.is_some() {
            assert(effects_view(effects@) =~= effects_view(effects@) + Seq::<EffectView>::empty());
            return Ghost(None);
        }
        self.config.duration = pref;
        let deadline = deadline_unix_secs(host.unix_secs, host.utc_offset_secs, host.unix_secs, pref);
        self.session = Some(
            Session {
                started_ms: host.monotonic_ms,
                started_unix: host.unix_secs,
                duration: pref,
                deadline_unix: deadline,
                initial_display_off_sent: false,
                last_sleep_display_ms: None,
            },
        );
        self.optimistic_display_asleep = match host.display_asleep {
            Some(b) => b,
            None => false,
        };
        self.last_stop_reason = None;
        self.last_stop = None;
        let plan = PowerPlan::for_session(&self.config, host.on_ac);
        self.last_plan = plan;
        let ghost before = effects@;
        effects.push(Effect::ApplyPower(plan));
        let body = start_body(&self.config, deadline, host.unix_secs);
        let title = String::from_str(self.config.tr().notify_started_title());
        effects.push(Effect::Notify { title, body });
        let ghost mid = effects@;
        let ghost e1 = self.model();
        self.tick(host, effects);
        proof {
            let (e2, tick) = tick_step(e1, *host);
            assert(effects_view(mid) =~= effects_view(before) + seq![
                EffectView::ApplyPower(plan),
                EffectView::Notify {
                    title: started_title(self.model().config),
                    body: started_body(self.model().config, deadline, host.unix_secs),
                },
            ]);
        }
        Ghost(deadline)
    }

    fn stop(&mut self, reason: StopReason, host: &HostSnapshot, effects: &mut Vec<Effect>)
        ensures
            (final(self).model(), effects_view(final(effects)@)) == ({
                let (e2, eff) = stop_step(old(self).model(), reason, *host);
                (e2, effects_view(old(effects)@) + eff)
            }),
            final(self).config == old(self).config,
    {
        if self.session.is_none() {
            assert(effects_view(effects@) =~= effects_view(effects@) + Seq::<EffectView>::empty());
            return;
        }
        self.session = None;
        self.last_plan = PowerPlan::off();
        self.optimistic_display_asleep = match host.display_asleep {
            Some(b) => b,
            None => false,
        };
        let t = self.config.tr();
        self.last_stop_reason = Some(String::from_str(reason.label(t.lang)));
        self.last_stop = Some(reason);
        let ghost before = effects@;
        effects.push(Effect::ReleasePower);
        match reason {
            StopReason::AppQuit => {},
            StopReason::User => {
                effects.push(
                    Effect::Notify {
                        title: String::from_str(t.notify_ended_title()),
                        body: String::from_str(t.notify_ended_user_body()),
                    },
                );
            },
            _ => {
                effects.push(
                    Effect::Notify {
                        title: String::from_str(t.notify_ended_title()),
                        body: String::from_str(reason.label(t.lang)),
                    },
                );
            },
        }
        assert(effects_view(effects@) =~= effects_view(before) + stop_step(old(self).model(), reason, *host).1);
    }

    fn tick(&mut self, host: &HostSnapshot, effects: &mut Vec<Effect>)
        ensures
            (final(self).model(), effects_view(final(effects)@)) == ({
                let (e2, eff) = tick_step(old(self).model(), *host);
                (e2, effects_view(old(effects)@) + eff)
            }),
            final(self).config == old(self).config,
    {
        if self.session.is_none() {
            assert(effects_view(effects@) =~= effects_view(effects@) + Seq::<EffectView>::empty());
            return;
        }
        if let Some(reason) = self.should_auto_stop(host) {
            self.stop(reason, host, effects);
            return;
        }
        let ghost before = effects@;
        let plan = PowerPlan::for_session(&self.config, host.on_ac);
        if plan != self.last_plan {
            self.last_plan = plan;
            effects.push(Effect::ApplyPower(plan));
        }
        let ghost mid = effects@;
        let ghost e1 = self.model();
        if self.should_sleep_display(host) {
            let s = match self.session {
                Some(s) => s,
                None => {
                    return;
                },
            };
            let first = !s.initial_display_off_sent;
            self.session = Some(
                Session {
                    initial_display_off_sent: true,
                    last_sleep_display_ms: Some(host.monotonic_ms),
                    ..s
                },
            );
            self.optimistic_display_asleep = true;
            effects.push(Effect::SleepDisplay);
            if first && self.config.lock_screen {
                effects.push(Effect::LockSession);
            }
        }
        assert(effects_view(effects@) =~= effects_view(mid) + sleep_step(e1, *host).1);
        assert(effects_view(mid) =~= effects_view(before) + (if plan != old(self).model().last_plan {
            seq![EffectView::ApplyPower(plan)]
        } else {
            Seq::empty()
        }));
    }

    /// Elapsed and remaining whole seconds of the session at `host`.
    fn session_clock(&self, host: &HostSnapshot) -> (r: (Option<u64>, Option<u64>))
        ensures
            r == (session_elapsed(self.model(), *host), session_remaining(self.model(), *host)),
    {
        match self.session {
            Some(s) => {
                let remaining = match s.deadline_unix {
                    Some(d) => Some(
                        match s.duration {
                            DurationPref::Hours { .. } => {
                                let span = i64_saturating_sub(d, s.started_unix);
                                let planned: u128 = if span < 0 {
                                    0
                                } else {
                                    span as u128 * 1000
                                };
                                let ran: u128 = host.monotonic_ms.saturating_sub(s.started_ms) as u128;
                                let left: u128 = if planned >= ran {
                                    planned - ran
                                } else {
                                    0
                                };
                                let secs: u128 = left / 1000 + if left % 1000 != 0 {
                                    1u128
                                } else {
                                    0u128
                                };
                                assert(secs == (left + 999) / 1000);
                                secs as u64
                            },
                            _ => {
                                let left = i64_saturating_sub(d, host.unix_secs);
                                if left < 0 {
                                    0u64
                                } else {
                                    left as u64
                                }
                            },
                        },
                    ),
                    None => None,
                };
                (Some(elapsed_secs(s.started_ms, host.monotonic_ms)), remaining)
            },
            None => (None, None),
        }
    }

    /// The menu's view of the engine at `host`.
    pub fn view(&self, host: &HostSnapshot) -> (vm: ViewModel)
        ensures
            view_model_of(
                vm,
                self.model().config,
                self.model().session is Some,
                session_elapsed(self.model(), *host),
                session_remaining(self.model(), *host),
                *host,
                self.model().last_stop_reason,
                display_asleep_now(self.model(), *host),
            ),
    {
        let (elapsed, remaining) = self.session_clock(host);
        let last_stop: Option<&str> = match &self.last_stop_reason {
            Some(reason) => Some(reason.as_str()),
            None => None,
        };
        build_view_model(
            &self.config,
            self.is_active(),
            elapsed,
            remaining,
            host,
            last_stop,
            self.display_asleep(host),
        )
    }

    /// Status for `never-sleep status --json` and the phone board.
    pub fn json_status(&self, host: &HostSnapshot) -> (st: JsonStatus)
        ensures
            json_status_of(st, self.model(), *host),
    {
        let (elapsed, remaining) = self.session_clock(host);
        JsonStatus {
            active: self.is_active(),
            display: String::from_str(
                if self.display_asleep(host) {
                    "asleep"
                } else {
                    "awake"
                },
            ),
            lid: String::from_str(
                if host.lid_closed {
                    "closed"
                } else {
                    "open"
                },
            ),
            on_ac: host.on_ac,
            battery: host.battery_percent,
            remaining_secs: remaining,
            user_present: host.user_present(self.config.user_idle_resleep_ms),
            elapsed_secs: elapsed,
            stop_reason: match &self.last_stop_reason {
                Some(reason) => Some(reason.clone()),
                None => None,
            },
            stop_reason_code: match self.last_stop {
                Some(r) => Some(String::from_str(r.code())),
                None => None,
            },
            screen_off_enabled: self.config.screen_off,
            lid_awake_enabled: self.config.keep_awake_on_lid_close,
        }
    }

    fn should_auto_stop(&self, host: &HostSnapshot) -> (r: Option<StopReason>)
        ensures
            r == auto_stop_reason(self.model(), *host),
    {
        let session = match self.session {
            Some(s) => s,
            None => {
                return None;
            },
        };
        if host.thermal.is_emergency() {
            return Some(StopReason::ThermalEmergency);
        }
        if let Some(floor) = self.config.battery_floor_percent {
            if !host.on_ac {
                if let Some(pct) = host.battery_percent {
                    if pct < floor {
                        return Some(StopReason::BatteryFloor);
                    }
                }
            }
        }
        if let Some(deadline) = session.deadline_unix {
            if host.unix_secs >= deadline {
                return Some(StopReason::DurationElapsed);
            }
        }
        None
    }

    fn display_asleep(&self, host: &HostSnapshot) -> (r: bool)
        ensures
            r == display_asleep_now(self.model(), *host),
    {
        match host.display_asleep {
            Some(b) => b,
            None => self.optimistic_display_asleep,
        }
    }

    fn should_sleep_display(&self, host: &HostSnapshot) -> (r: bool)
        ensures
            r == wants_display_sleep(self.model(), *host),
    {
        let session = match self.session {
            Some(s) => s,
            None => {
                return false;
            },
        };
        if !self.config.screen_off {
            return false;
        }
        let elapsed = host.monotonic_ms.saturating_sub(session.started_ms);
        if elapsed < self.config.display_off_delay_ms {
            return false;
        }
        if let Some(last) = session.last_sleep_display_ms {
            if host.monotonic_ms.saturating_sub(last) < SLEEP_DISPLAY_DEBOUNCE_MS {
                return false;
            }
        }
        if !session.initial_display_off_sent {
            // The first display sleep is requested whether or not the panel is lit.
            return true;
        }
        if !self.config.resleep_display {
            return false;
        }
        // A person at the Mac keeps control of the screen.
        if host.user_present(self.config.user_idle_resleep_ms) {
            return false;
        }
        // Nobody there: re-assert display sleep periodically, so a remote agent
        // that lights the panel is covered again within seconds.
        true
    }
}

/// Builds the start notification body.
fn start_body(cfg: &AppConfig, deadline: Option<i64>, now_unix: i64) -> (r: String)
    ensures
        r@ == started_body(*cfg, deadline, now_unix),
{
    let t = cfg.tr();
    let mut body = if cfg.screen_off {
        let delay: u64 = if cfg.display_off_delay_ms >= 1 {
            cfg.display_off_delay_ms
        } else {
            1
        };
        let secs: u64 = delay / 1000 + if delay % 1000 != 0 {
            1u64
        } else {
            0u64
        };
        assert(secs == (delay as nat + 999) / 1000);
        t.notify_started_body_screen_off(secs, DEFAULT_HOTKEY_LABEL)
    } else {
        t.notify_started_body_keep_awake(DEFAULT_HOTKEY_LABEL)
    };
    if let Some(d) = deadline {
        let left = i64_saturating_sub(d, now_unix);
        let rem: u64 = if left < 0 {
            0
        } else {
            left as u64
        };
        let dur = format_duration(t.lang, rem);
        let clause = t.remaining_clause(dur.as_str());
        body.append(clause.as_str());
    }
    body
}

/// The engine's standing invariant: no power plan is held while idle, and a
/// running session always holds idle-sleep, disk-idle and network assertions.
pub open spec fn engine_inv(e: EngineView) -> bool {
    match e.session {
        None => e.last_plan == plan_off(),
        Some(_) => e.last_plan.prevent_idle_sleep && e.last_plan.prevent_disk_idle
            && e.last_plan.network_client,
    }
}

/// A session runs and has not yet put the display to sleep.
pub open spec fn first_sleep_pending(e: EngineView) -> bool {
    match e.session {
        Some(s) => !s.initial_display_off_sent,
        None => false,
    }
}

/// Whether `eff` holds the effect `x`.
pub open spec fn emits(eff: Seq<EffectView>, x: EffectView) -> bool {
    exists|i: int| 0 <= i < eff.len() && eff[i] == x
}

/// A new engine satisfies the invariant.
pub proof fn lemma_new_engine_inv(config: AppConfig)
    ensures
        engine_inv(
            EngineView {
                config,
                session: None,
                optimistic_display_asleep: false,
                last_stop_reason: None,
                last_stop: None,
                last_plan: plan_off(),
            },
        ),
{
}

proof fn lemma_sleep_step_facts(e: EngineView, host: HostSnapshot)
    ensures
        sleep_step(e, host).0.config == e.config,
        sleep_step(e, host).0.last_plan == e.last_plan,
        sleep_step(e, host).0.session is Some <==> e.session is Some,
        !emits(sleep_step(e, host).1, EffectView::ReleasePower),
        forall|p: PowerPlan| !emits(#[trigger] sleep_step(e, host).1, EffectView::ApplyPower(p)),
        emits(sleep_step(e, host).1, EffectView::SleepDisplay) ==> wants_display_sleep(e, host),
        emits(sleep_step(e, host).1, EffectView::LockSession) ==> e.config.lock_screen
            && first_sleep_pending(e) && wants_display_sleep(e, host),
{
    let eff = sleep_step(e, host).1;
    assert forall|p: PowerPlan| !emits(#[trigger] sleep_step(e, host).1, EffectView::ApplyPower(p)) by {
        if emits(eff, EffectView::ApplyPower(p)) {
            let i = choose|i: int| 0 <= i < eff.len() && eff[i] == EffectView::ApplyPower(p);
            assert(eff[i] == EffectView::ApplyPower(p));
        }
    }
    if emits(eff, EffectView::ReleasePower) {
        let i = choose|i: int| 0 <= i < eff.len() && eff[i] == EffectView::ReleasePower;
        assert(eff[i] == EffectView::ReleasePower);
    }
    if emits(eff, EffectView::SleepDisplay) {
        let i = choose|i: int| 0 <= i < eff.len() && eff[i] == EffectView::SleepDisplay;
        assert(eff[i] == EffectView::SleepDisplay);
    }
    if emits(eff, EffectView::LockSession) {
        let i = choose|i: int| 0 <= i < eff.len() && eff[i] == EffectView::LockSession;
        assert(eff[i] == EffectView::LockSession);
    }
}

/// Membership in a concatenation.
proof fn lemma_emits_concat(a: Seq<EffectView>, b: Seq<EffectView>, x: EffectView)
    ensures
        emits(a + b, x) <==> (emits(a, x) || emits(b, x)),
{
    let ab = a + b;
    if emits(ab, x) {
        let i = choose|i: int| 0 <= i < ab.len() && ab[i] == x;
        if i < a.len() {
            assert(a[i] == x);
        } else {
            assert(b[i - a.len()] == x);
        }
    }
    if emits(a, x) {
        let i = choose|i: int| 0 <= i < a.len() && a[i] == x;
        assert(ab[i] == x);
    }
    if emits(b, x) {
        let i = choose|i: int| 0 <= i < b.len() && b[i] == x;
        assert(ab[a.len() + i] == x);
    }
}


proof fn lemma_stop_facts(e: EngineView, reason: StopReason, host: HostSnapshot)
    ensures
        stop_step(e, reason, host).0.session is None,
        stop_step(e, reason, host).0.config == e.config,
        e.session is None ==> stop_step(e, reason, host) == (e, Seq::<EffectView>::empty()),
        e.session is Some ==> stop_step(e, reason, host).0.last_plan == plan_off(),
        e.session is Some ==> stop_step(e, reason, host).1[0] == EffectView::ReleasePower,
        e.session is Some ==> emits(stop_step(e, reason, host).1, EffectView::ReleasePower),
        !emits(stop_step(e, reason, host).1, EffectView::SleepDisplay),
        !emits(stop_step(e, reason, host).1, EffectView::LockSession),
        forall|p: PowerPlan| !emits(#[trigger] stop_step(e, reason, host).1, EffectView::ApplyPower(p)),
{
    let eff = stop_step(e, reason, host).1;
    if e.session is Some {
        assert(eff[0] == EffectView::ReleasePower);
    }
    assert forall|x: EffectView|
        x is SleepDisplay || x is LockSession || x is ApplyPower implies !emits(eff, x) by {
        if emits(eff, x) {
            let i = choose|i: int| 0 <= i < eff.len() && eff[i] == x;
            assert(eff[i] == x);
        }
    }
    assert forall|p: PowerPlan| !emits(#[trigger] stop_step(e, reason, host).1, EffectView::ApplyPower(p)) by {
        assert(EffectView::ApplyPower(p) is ApplyPower);
    }
    assert(EffectView::SleepDisplay is SleepDisplay);
    assert(EffectView::LockSession is LockSession);
}

proof fn lemma_tick_facts(e: EngineView, host: HostSnapshot)
    ensures
        ({
            let (e2, eff) = tick_step(e, host);
            &&& e2.config == e.config
            &&& e.session is None ==> tick_step(e, host) == (e, Seq::<EffectView>::empty())
            &&& e2.session is Some ==> auto_stop_reason(e2, host) is None && e2.last_plan
                == plan_for_session(e2.config, host.on_ac)
            &&& emits(eff, EffectView::ReleasePower) ==> e2.session is None
            &&& (e.session is Some && e2.session is None) ==> emits(eff, EffectView::ReleasePower)
            &&& emits(eff, EffectView::SleepDisplay) ==> e2.session is Some && wants_display_sleep(
                e,
                host,
            )
            &&& emits(eff, EffectView::LockSession) ==> e.config.lock_screen && first_sleep_pending(e)
                && wants_display_sleep(e, host)
            &&& (e2.session is None ==> e2.last_plan == plan_off() || e.session is None)
        }),
{
    let (e2, eff) = tick_step(e, host);
    if e.session is Some {
        match auto_stop_reason(e, host) {
            Some(reason) => {
                lemma_stop_facts(e, reason, host);
            },
            None => {
                let plan = plan_for_session(e.config, host.on_ac);
                let (e1, power) = if plan != e.last_plan {
                    (EngineView { last_plan: plan, ..e }, seq![EffectView::ApplyPower(plan)])
                } else {
                    (e, Seq::<EffectView>::empty())
                };
                lemma_sleep_step_facts(e1, host);
                let sleep = sleep_step(e1, host).1;
                lemma_emits_concat(power, sleep, EffectView::ReleasePower);
                lemma_emits_concat(power, sleep, EffectView::SleepDisplay);
                lemma_emits_concat(power, sleep, EffectView::LockSession);
                assert(!emits(power, EffectView::ReleasePower)) by {
                    if emits(power, EffectView::ReleasePower) {
                        let i = choose|i: int| 0 <= i < power.len() && power[i] == EffectView::ReleasePower;
                        assert(power[i] == EffectView::ApplyPower(plan));
                    }
                }
                assert(!emits(power, EffectView::SleepDisplay)) by {
                    if emits(power, EffectView::SleepDisplay) {
                        let i = choose|i: int| 0 <= i < power.len() && power[i] == EffectView::SleepDisplay;
                        assert(power[i] == EffectView::ApplyPower(plan));
                    }
                }
                assert(!emits(power, EffectView::LockSession)) by {
                    if emits(power, EffectView::LockSession) {
                        let i = choose|i: int| 0 <= i < power.len() && power[i] == EffectView::LockSession;
                        assert(power[i] == EffectView::ApplyPower(plan));
                    }
                }
                assert(wants_display_sleep(e1, host) == wants_display_sleep(e, host));
                assert(first_sleep_pending(e1) == first_sleep_pending(e));
                assert(auto_stop_reason(e2, host) == auto_stop_reason(e, host));
            },
        }
    }
}

/// Effects that say standby ended go out exactly when a session ends: every
/// `ReleasePower` leaves the engine idle, and a session that ends always
/// releases its assertions.
pub proof fn law_release_iff_session_ends(e: EngineView, input: Input, host: HostSnapshot, d: Option<i64>)
    ensures
        ({
            let (e2, eff) = handle_step(e, input, host, d);
            &&& emits(eff, EffectView::ReleasePower) ==> e2.session is None
            &&& (e.session is Some && e2.session is None) ==> emits(eff, EffectView::ReleasePower)
        }),
{
    lemma_handle_facts(e, input, host, d);
}

/// No input ever puts the display to sleep while a person is at the Mac, once
/// the session's first display sleep has gone out.
pub proof fn law_never_fights_a_present_user(e: EngineView, input: Input, host: HostSnapshot, d: Option<i64>)
    requires
        e.session matches Some(s) && s.initial_display_off_sent,
        user_present_at(host, e.config.user_idle_resleep_ms),
    ensures
        !emits(handle_step(e, input, host, d).1, EffectView::SleepDisplay),
{
    lemma_handle_facts(e, input, host, d);
}

/// Display-sleep requests are at least the debounce interval apart on the
/// monotonic clock.
pub proof fn law_display_sleep_debounced(e: EngineView, input: Input, host: HostSnapshot, d: Option<i64>, last: u64)
    requires
        e.session matches Some(s) && s.last_sleep_display_ms == Some(last),
        emits(handle_step(e, input, host, d).1, EffectView::SleepDisplay),
    ensures
        host.monotonic_ms >= last + SLEEP_DISPLAY_DEBOUNCE_MS,
{
    lemma_handle_facts(e, input, host, d);
}

/// The display is only put to sleep during standby with the screen-off option,
/// and the session is locked only with the first display sleep, when the lock
/// option is on.
pub proof fn law_display_sleep_and_lock_need_session(e: EngineView, input: Input, host: HostSnapshot, d: Option<i64>)
    ensures
        ({
            let (e2, eff) = handle_step(e, input, host, d);
            &&& emits(eff, EffectView::SleepDisplay) ==> e2.session is Some && e2.config.screen_off
            &&& emits(eff, EffectView::LockSession) ==> e2.config.lock_screen && (e.session is None
                || first_sleep_pending(e))
        }),
{
    lemma_handle_facts(e, input, host, d);
}

/// After an input that re-evaluates the session (a start, a tick, a display
/// wake), a session that is still running has no stop condition pending (heat,
/// low battery off AC, deadline) and holds the plan for the current power source.
pub proof fn law_running_session_is_safe(e: EngineView, input: Input, host: HostSnapshot, d: Option<i64>)
    requires
        input is Tick || input is DisplayWoke || e.session is None,
    ensures
        ({
            let e2 = handle_step(e, input, host, d).0;
            e2.session is Some ==> auto_stop_reason(e2, host) is None && e2.last_plan
                == plan_for_session(e2.config, host.on_ac)
        }),
{
    lemma_handle_facts(e, input, host, d);
}

/// Every transition keeps the engine invariant.
pub proof fn law_invariant_preserved(e: EngineView, input: Input, host: HostSnapshot, d: Option<i64>)
    requires
        engine_inv(e),
    ensures
        engine_inv(handle_step(e, input, host, d).0),
{
    lemma_handle_facts(e, input, host, d);
}

/// Starting while a session runs, or stopping while idle, changes nothing and
/// emits nothing; a toggle stops a running session and starts an idle one.
pub proof fn law_idempotent_start_stop(e: EngineView, input: Input, host: HostSnapshot, d: Option<i64>)
    ensures
        (e.session is Some && (input is Start || input is StartWith)) ==> handle_step(e, input, host, d)
            == (e, Seq::<EffectView>::empty()),
        (e.session is None && input is Stop) ==> handle_step(e, input, host, d) == (
            e,
            Seq::<EffectView>::empty(),
        ),
        (e.session is Some && input is Toggle) ==> handle_step(e, input, host, d) == handle_step(
            e,
            Input::Stop { reason: StopReason::User },
            host,
            d,
        ),
        (e.session is None && input is Toggle) ==> handle_step(e, input, host, d) == handle_step(
            e,
            Input::Start,
            host,
            d,
        ),
{
}

proof fn lemma_handle_facts(e: EngineView, input: Input, host: HostSnapshot, d: Option<i64>)
    ensures
        ({
            let (e2, eff) = handle_step(e, input, host, d);
            &&& emits(eff, EffectView::ReleasePower) ==> e2.session is None
            &&& (e.session is Some && e2.session is None) ==> emits(eff, EffectView::ReleasePower)
            &&& emits(eff, EffectView::SleepDisplay) ==> e2.session is Some && e2.config.screen_off
                && (e.session is None || wants_display_sleep(e, host))
            &&& emits(eff, EffectView::LockSession) ==> e2.config.lock_screen && (e.session is None
                || first_sleep_pending(e))
            &&& emits(eff, EffectView::LockSession) ==> e2.config.screen_off
            &&& e2.config.screen_off == e.config.screen_off
            &&& (input is Tick || input is DisplayWoke || e.session is None) ==> (e2.session is Some
                ==> auto_stop_reason(e2, host) is None && e2.last_plan == plan_for_session(
                e2.config,
                host.on_ac,
            ))
            &&& engine_inv(e) ==> engine_inv(e2)
        }),
{
    let (e2, eff) = handle_step(e, input, host, d);
    match input {
        Input::Start | Input::StartWith(_) | Input::Toggle => {
            if e.session is Some {
                if input is Toggle {
                    lemma_stop_facts(e, StopReason::User, host);
                }
            } else {
                let pref = match input {
                    Input::StartWith(p) => p,
                    _ => e.config.duration,
                };
                let cfg = AppConfig { duration: pref, ..e.config };
                let plan = plan_for_session(cfg, host.on_ac);
                let e1 = EngineView {
                    config: cfg,
                    session: Some(
                        Session {
                            started_ms: host.monotonic_ms,
                            started_unix: host.unix_secs,
                            duration: pref,
                            deadline_unix: d,
                            initial_display_off_sent: false,
                            last_sleep_display_ms: None,
                        },
                    ),
                    optimistic_display_asleep: match host.display_asleep {
                        Some(b) => b,
                        None => false,
                    },
                    last_stop_reason: None,
                    last_stop: None,
                    last_plan: plan,
                };
                assert(start_step(e, pref, host, d) == handle_step(e, input, host, d));
                lemma_tick_facts(e1, host);
                let head = seq![
                    EffectView::ApplyPower(plan),
                    EffectView::Notify {
                        title: started_title(cfg),
                        body: started_body(cfg, d, host.unix_secs),
                    },
                ];
                let tick = tick_step(e1, host).1;
                assert(eff == head + tick);
                lemma_emits_concat(head, tick, EffectView::ReleasePower);
                lemma_emits_concat(head, tick, EffectView::SleepDisplay);
                lemma_emits_concat(head, tick, EffectView::LockSession);
                assert forall|x: EffectView|
                    x is ReleasePower || x is SleepDisplay || x is LockSession implies !emits(head, x) by {
                    if emits(head, x) {
                        let i = choose|i: int| 0 <= i < head.len() && head[i] == x;
                        assert(head[i] == x);
                    }
                }
                assert(EffectView::ReleasePower is ReleasePower);
                assert(EffectView::SleepDisplay is SleepDisplay);
                assert(EffectView::LockSession is LockSession);
                assert(first_sleep_pending(e1));
            }
        },
        Input::Stop { reason } => {
            lemma_stop_facts(e, reason, host);
        },
        Input::DisplayWoke => {
            let e1 = EngineView { optimistic_display_asleep: false, ..e };
            lemma_tick_facts(e1, host);
            assert(wants_display_sleep(e1, host) == wants_display_sleep(e, host));
            assert(first_sleep_pending(e1) == first_sleep_pending(e));
        },
        Input::DisplaySlept => {
            assert(eff.len() == 0);
            assert forall|x: EffectView| !emits(eff, x) by {}
        },
        Input::Tick => {
            lemma_tick_facts(e, host);
        },
    }
}

/// A tick ends a running session exactly when a stop condition holds (critical
/// heat, a battery below the floor while unplugged, the deadline reached), and
/// it releases the assertions exactly then.
pub proof fn law_tick_stops_exactly_on_stop_conditions(e: EngineView, host: HostSnapshot, d: Option<i64>)
    requires
        e.session is Some,
    ensures
        ({
            let (e2, eff) = handle_step(e, Input::Tick, host, d);
            &&& (e2.session is None) == (auto_stop_reason(e, host) is Some)
            &&& emits(eff, EffectView::ReleasePower) == (auto_stop_reason(e, host) is Some)
        }),
{
    lemma_handle_facts(e, Input::Tick, host, d);
    lemma_tick_facts(e, host);
    match auto_stop_reason(e, host) {
        Some(reason) => {
            lemma_stop_facts(e, reason, host);
        },
        None => {
            let plan = plan_for_session(e.config, host.on_ac);
            let e1 = if plan != e.last_plan {
                EngineView { last_plan: plan, ..e }
            } else {
                e
            };
            lemma_sleep_step_facts(e1, host);
        },
    }
}

/// After the first display sleep of a running screen-off session, a tick or a
/// display wake that ends nothing (and comes once the start delay has passed)
/// puts the display to sleep again exactly when re-sleep is on, the debounce
/// since the last display sleep has passed, and nobody is at the Mac.
pub proof fn law_resleep_rule(e: EngineView, input: Input, host: HostSnapshot, d: Option<i64>)
    requires
        input is Tick || input is DisplayWoke,
        e.session matches Some(s) && s.initial_display_off_sent && sat_sub(
            host.monotonic_ms as nat,
            s.started_ms as nat,
        ) >= e.config.display_off_delay_ms,
        e.config.screen_off,
        auto_stop_reason(e, host) is None,
    ensures
        emits(handle_step(e, input, host, d).1, EffectView::SleepDisplay) == (e.config.resleep_display
            && (match e.session.unwrap().last_sleep_display_ms {
            Some(last) => sat_sub(host.monotonic_ms as nat, last as nat) >= SLEEP_DISPLAY_DEBOUNCE_MS,
            None => true,
        }) && !user_present_at(host, e.config.user_idle_resleep_ms)),
{
    let e0 = if input is DisplayWoke {
        EngineView { optimistic_display_asleep: false, ..e }
    } else {
        e
    };
    assert(handle_step(e, input, host, d) == tick_step(e0, host));
    assert(auto_stop_reason(e0, host) is None);
    let plan = plan_for_session(e0.config, host.on_ac);
    let (e1, power) = if plan != e0.last_plan {
        (EngineView { last_plan: plan, ..e0 }, seq![EffectView::ApplyPower(plan)])
    } else {
        (e0, Seq::<EffectView>::empty())
    };
    let sleep = sleep_step(e1, host).1;
    assert(tick_step(e0, host).1 == power + sleep);
    assert(wants_display_sleep(e1, host) == (e.config.resleep_display && (match e.session.unwrap().last_sleep_display_ms {
        Some(last) => sat_sub(host.monotonic_ms as nat, last as nat) >= SLEEP_DISPLAY_DEBOUNCE_MS,
        None => true,
    }) && !user_present_at(host, e.config.user_idle_resleep_ms)));
    lemma_sleep_step_facts(e1, host);
    lemma_emits_concat(power, sleep, EffectView::SleepDisplay);
    assert(!emits(power, EffectView::SleepDisplay)) by {
        if emits(power, EffectView::SleepDisplay) {
            let i = choose|i: int| 0 <= i < power.len() && power[i] == EffectView::SleepDisplay;
            assert(power[i] == EffectView::ApplyPower(plan));
        }
    }
    if wants_display_sleep(e1, host) {
        assert(sleep[0] == EffectView::SleepDisplay);
        assert(emits(sleep, EffectView::SleepDisplay));
    }
}

/// A timed session counts down on the monotonic clock: at any later sample the
/// elapsed time is the monotonic time since the start, and the time left is the
/// planned hours minus that, rounded up to the second.
pub proof fn law_timed_session_clock(e: EngineView, hours: u32, h0: HostSnapshot, d: Option<i64>, h: HostSnapshot)
    requires
        e.session is None,
        hours_deadline_fits_i64(DurationPref::Hours { hours }, h0.unix_secs as int),
        deadline_fits(DurationPref::Hours { hours }, h0.unix_secs as int, d),
        handle_step(e, Input::StartWith(DurationPref::Hours { hours }), h0, d).0.session is Some,
    ensures
        ({
            let e2 = handle_step(e, Input::StartWith(DurationPref::Hours { hours }), h0, d).0;
            let ran = sat_sub(h.monotonic_ms as nat, h0.monotonic_ms as nat);
            &&& session_elapsed(e2, h) == Some((ran / 1000) as u64)
            &&& session_remaining(e2, h) == Some(ceil_secs(sat_sub((hours * 3_600_000) as nat, ran)) as u64)
        }),
{
    let pref = DurationPref::Hours { hours };
    let cfg = AppConfig { duration: pref, ..e.config };
    let plan = plan_for_session(cfg, h0.on_ac);
    let e1 = EngineView {
        config: cfg,
        session: Some(
            Session {
                started_ms: h0.monotonic_ms,
                started_unix: h0.unix_secs,
                duration: pref,
                deadline_unix: d,
                initial_display_off_sent: false,
                last_sleep_display_ms: None,
            },
        ),
        optimistic_display_asleep: match h0.display_asleep {
            Some(b) => b,
            None => false,
        },
        last_stop_reason: None,
        last_stop: None,
        last_plan: plan,
    };
    assert(handle_step(e, Input::StartWith(pref), h0, d).0 == tick_step(e1, h0).0);
    let e2 = tick_step(e1, h0).0;
    let s1 = e1.session.unwrap();
    let s2 = e2.session.unwrap();
    assert(s2.started_ms == s1.started_ms && s2.started_unix == s1.started_unix && s2.duration == s1.duration
        && s2.deadline_unix == s1.deadline_unix);
    assert(d == Some((h0.unix_secs + hours * 3600) as i64));
    assert(planned_ms(d.unwrap(), h0.unix_secs) == hours * 3_600_000);
}

/// A timed session of `hours` started at `h0` ends on a later tick exactly when
/// the Mac is critically hot, its battery is below the floor while unplugged,
/// or the wall clock has reached the start plus the hours; the assertions are
/// released exactly then.
pub proof fn law_timed_session_ends_on_stop_conditions(
    e: EngineView,
    input: Input,
    hours: u32,
    h0: HostSnapshot,
    d: Option<i64>,
    h: HostSnapshot,
    d2: Option<i64>,
)
    requires
        e.session is None,
        input == Input::StartWith(DurationPref::Hours { hours }) || (input == Input::Start
            && e.config.duration == DurationPref::Hours { hours }),
        hours_deadline_fits_i64(DurationPref::Hours { hours }, h0.unix_secs as int),
        deadline_fits(DurationPref::Hours { hours }, h0.unix_secs as int, d),
        handle_step(e, input, h0, d).0.session is Some,
    ensures
        ({
            let e2 = handle_step(e, input, h0, d).0;
            let (e3, eff) = handle_step(e2, Input::Tick, h, d2);
            let stop = h.thermal == crate::status::Thermal::Critical || (match (
                e.config.battery_floor_percent,
                h.battery_percent,
            ) {
                (Some(floor), Some(pct)) => !h.on_ac && pct < floor,
                _ => false,
            }) || h.unix_secs >= h0.unix_secs + hours * 3600;
            &&& (e3.session is None) == stop
            &&& emits(eff, EffectView::ReleasePower) == stop
        }),
{
    let pref = DurationPref::Hours { hours };
    assert(handle_step(e, input, h0, d) == start_step(e, pref, h0, d));
    let cfg = AppConfig { duration: pref, ..e.config };
    let plan = plan_for_session(cfg, h0.on_ac);
    let e1 = EngineView {
        config: cfg,
        session: Some(
            Session {
                started_ms: h0.monotonic_ms,
                started_unix: h0.unix_secs,
                duration: pref,
                deadline_unix: d,
                initial_display_off_sent: false,
                last_sleep_display_ms: None,
            },
        ),
        optimistic_display_asleep: match h0.display_asleep {
            Some(b) => b,
            None => false,
        },
        last_stop_reason: None,
        last_stop: None,
        last_plan: plan,
    };
    let e2 = tick_step(e1, h0).0;
    assert(handle_step(e, input, h0, d).0 == e2);
    lemma_tick_facts(e1, h0);
    assert(e2.session.unwrap().deadline_unix == d);
    assert(d == Some((h0.unix_secs + hours * 3600) as i64));
    law_tick_stops_exactly_on_stop_conditions(e2, h, d2);
}

/// A running session whose deadline has been reached on the wall clock ends
/// on the next tick, whatever kind of duration set that deadline (a number of
/// hours or a local time of day): the tick releases the assertions and records
/// why; with no heat or battery emergency the reason is that the duration
/// elapsed, and the user is told so (in the configured language).
pub proof fn law_reached_deadline_ends_session(e: EngineView, host: HostSnapshot, d: Option<i64>)
    requires
        e.session matches Some(s) && s.deadline_unix matches Some(dl) && host.unix_secs >= dl,
    ensures
        ({
            let (e2, eff) = handle_step(e, Input::Tick, host, d);
            &&& e2.session is None
            &&& emits(eff, EffectView::ReleasePower)
            &&& e2.last_stop is Some
            &&& (host.thermal != crate::status::Thermal::Critical && !(match (
                e.config.battery_floor_percent,
                host.battery_percent,
            ) {
                (Some(floor), Some(pct)) => !host.on_ac && pct < floor,
                _ => false,
            })) ==> e2.last_stop == Some(StopReason::DurationElapsed) && eff == seq![
                EffectView::ReleasePower,
                EffectView::Notify {
                    title: notify_ended_title_text(config_lang(e.config)),
                    body: stop_duration_text(config_lang(e.config)),
                },
            ]
        }),
{
    law_tick_stops_exactly_on_stop_conditions(e, host, d);
    let r = auto_stop_reason(e, host);
    assert(r is Some);
    lemma_stop_facts(e, r.unwrap(), host);
}

/// The input owed after the effects of a step were performed: when a power
/// assertion could not be installed while a session runs, the session ends as
/// failed, so nobody relies on a standby that does not hold.
pub open spec fn abort_input_spec(power_ok: bool, active: bool) -> Option<Input> {
    if !power_ok && active {
        Some(Input::Stop { reason: StopReason::AssertionFailed })
    } else {
        None
    }
}

pub fn abort_input(power_ok: bool, active: bool) -> (r: Option<Input>)
    ensures
        r == abort_input_spec(power_ok, active),
{
    if !power_ok && active {
        Some(Input::Stop { reason: StopReason::AssertionFailed })
    } else {
        None
    }
}

/// The input owed when the app quits: a running session stops as a quit (which
/// releases its assertions without a notification); with none running there is
/// nothing to feed and the platform only drops leftovers.
pub open spec fn quit_input_spec(active: bool) -> Option<Input> {
    if active {
        Some(Input::Stop { reason: StopReason::AppQuit })
    } else {
        None
    }
}

pub fn quit_input(active: bool) -> (r: Option<Input>)
    ensures
        r == quit_input_spec(active),
{
    if active {
        Some(Input::Stop { reason: StopReason::AppQuit })
    } else {
        None
    }
}

/// The engine after feeding `steps` in order (each an input, the host sample it
/// came with, and the deadline a session it starts gets), with all the effects
/// emitted along the way.
pub open spec fn run_steps(e: EngineView, steps: Seq<(Input, HostSnapshot, Option<i64>)>) -> (
    EngineView,
    Seq<EffectView>,
)
    decreases steps.len(),
{
    if steps.len() == 0 {
        (e, Seq::empty())
    } else {
        let (e1, eff1) = handle_step(e, steps[0].0, steps[0].1, steps[0].2);
        let (e2, eff2) = run_steps(e1, steps.skip(1));
        (e2, eff1 + eff2)
    }
}

/// With the screen-off option off, no sequence of inputs ever puts the display
/// to sleep or locks the session, and the option stays off.
pub proof fn law_no_screen_off_never_sleeps_display(e: EngineView, steps: Seq<(Input, HostSnapshot, Option<i64>)>)
    requires
        !e.config.screen_off,
    ensures
        !emits(run_steps(e, steps).1, EffectView::SleepDisplay),
        !emits(run_steps(e, steps).1, EffectView::LockSession),
        !run_steps(e, steps).0.config.screen_off,
    decreases steps.len(),
{
    if steps.len() == 0 {
        let eff = run_steps(e, steps).1;
        assert(eff.len() == 0);
        assert(!emits(eff, EffectView::SleepDisplay));
        assert(!emits(eff, EffectView::LockSession));
    } else {
        let (input, host, d) = steps[0];
        lemma_handle_facts(e, input, host, d);
        let (e1, eff1) = handle_step(e, input, host, d);
        law_no_screen_off_never_sleeps_display(e1, steps.skip(1));
        let eff2 = run_steps(e1, steps.skip(1)).1;
        lemma_emits_concat(eff1, eff2, EffectView::SleepDisplay);
        lemma_emits_concat(eff1, eff2, EffectView::LockSession);
    }
}

} // verus!
