//! Session policy for Never Sleep: when to hold the Mac awake, when to sleep
//! the display, and when standby ends on its own.

pub mod clock;
pub mod cloud;
mod config;
pub mod control;
mod duration;
mod engine;
pub mod foreground;
mod i18n;
pub mod keyval;
pub mod locale;
pub mod panel;
pub mod persist;
pub mod protocol;
pub mod report;
pub mod session_lock;
mod status;
mod text;
pub mod util;

pub use config::{
    parse_duration_pref, parse_duration_pref_in, AppConfig, DurationPref, DEFAULT_BATTERY_FLOOR,
    DEFAULT_DISPLAY_OFF_DELAY_MS, DEFAULT_USER_IDLE_RESLEEP_MS, HEARTBEAT_MS,
    SLEEP_DISPLAY_DEBOUNCE_MS,
};
pub use duration::{
    countdown_secs, deadline_unix_secs, elapsed_secs, format_clock, format_countdown,
    format_duration, next_until_unix_secs, next_until_wallclock, next_until_wallclock_from,
    pick_wallclock_deadline, remaining_ms, session_remaining_ms, wallclock_target,
};
pub use i18n::{
    app_display_name, onboarding, Lang, Tr, APP_NAME, BUNDLE_ID, DEFAULT_HOTKEY_LABEL, LANG_ENV,
};
pub use status::{build_view_model, HostSnapshot, JsonStatus, Thermal, ViewModel};
pub use engine::{abort_input, quit_input, Effect, Engine, Input, PowerPlan, StopReason};
