//! Host samples and what the menu, tooltip and CLI show for them.

use vstd::prelude::*;

use crate::config::{battery_floor_label_text, config_lang, AppConfig, DurationPref};
use crate::duration::{duration_text, format_duration};
use crate::i18n::{
    battery_percent_text, display_asleep_text, display_pending_text, end_standby_text,
    idle_status_text, lid_closed_text, lid_open_text, power_ac_text, power_battery_text,
    remaining_text, standby_elapsed_text, standby_status_text, start_standby_text,
    tooltip_active_text, tooltip_idle_text, user_controls_display_text, warn_lid_best_effort_text,
    warn_lid_on_battery_text, will_keep_awake_only_text, will_sleep_display_text,
};
use crate::text::{join_seqs, join_strings, strings_view};

verus! {

/// macOS thermal pressure.
#[derive(Debug, Clone, Copy, PartialEq, Eq)]
pub enum Thermal {
    Nominal,
    Fair,
    Serious,
    Critical,
}

impl Thermal {
    pub fn is_emergency(self) -> (r: bool)
        ensures
            r == (self == Thermal::Critical),
    {
        match self {
            Thermal::Critical => true,
            _ => false,
        }
    }
}

/// Instantaneous host sample. Shared by GUI and CLI.
#[derive(Debug, Clone, Copy, PartialEq, Eq)]
pub struct HostSnapshot {
    pub monotonic_ms: u64,
    /// Clock that keeps running during system sleep and does not jump with NTP.
    pub continuous_ms: u64,
    pub unix_secs: i64,
    /// Seconds east of UTC.
    pub utc_offset_secs: i32,
    pub on_ac: bool,
    pub battery_percent: Option<u8>,
    pub lid_closed: bool,
    /// `None` if we cannot tell; the engine falls back to its optimistic flag.
    pub display_asleep: Option<bool>,
    pub hid_idle_ms: u64,
    pub thermal: Thermal,
}

/// A person is at the Mac: the lid is open and the keyboard or mouse was used
/// within `idle_threshold_ms`.
pub open spec fn user_present_at(host: HostSnapshot, idle_threshold_ms: u64) -> bool {
    !host.lid_closed && host.hid_idle_ms < idle_threshold_ms
}

impl HostSnapshot {
    pub fn user_present(&self, idle_threshold_ms: u64) -> (r: bool)
        ensures
            r == user_present_at(*self, idle_threshold_ms),
    {
        !self.lid_closed && self.hid_idle_ms < idle_threshold_ms
    }
}

/// Status as `never-sleep status --json` prints it.
#[derive(Debug, Clone, PartialEq, Eq)]
pub struct JsonStatus {
    pub active: bool,
    pub display: String,
    pub lid: String,
    pub on_ac: bool,
    pub battery: Option<u8>,
    pub remaining_secs: Option<u64>,
    pub user_present: bool,
    pub elapsed_secs: Option<u64>,
    pub stop_reason: Option<String>,
    pub stop_reason_code: Option<String>,
    pub screen_off_enabled: bool,
    pub lid_awake_enabled: bool,
}

/// What the menu bar shows.
#[derive(Debug, Clone, PartialEq, Eq)]
pub struct ViewModel {
    pub active: bool,
    pub status_line: String,
    pub detail_line: String,
    pub primary_action: String,
    pub tooltip: String,
    pub remaining_label: Option<String>,
    pub warnings: Vec<String>,
    pub duration: DurationPref,
    pub screen_off: bool,
    pub keep_awake_on_lid_close: bool,
    pub resleep_display: bool,
    pub lock_screen: bool,
    pub launch_at_login: bool,
    pub battery_floor_label: String,
    /// True when IOKit reports the panel is already dark (not the user intent).
    pub display_asleep: bool,
    /// True when HID idle + lid say a person is at the keyboard.
    pub user_present: bool,
    /// Elapsed seconds in the current session; `None` while idle.
    pub elapsed_secs: Option<u64>,
    /// Remaining whole seconds when a deadline is set; `None` while idle or indefinite.
    pub remaining_secs: Option<u64>,
}

/// The character sequence of an optional string slice.
pub open spec fn opt_str_view(s: Option<&str>) -> Option<Seq<char>> {
    match s {
        Some(t) => Some(t@),
        None => None,
    }
}

/// The character sequence of an optional string.
pub open spec fn opt_string_view(s: Option<String>) -> Option<Seq<char>> {
    match s {
        Some(t) => Some(t@),
        None => None,
    }
}

/// Warnings: closed-lid standby on battery, closed-lid standby being best
/// effort, and, while idle, why the last session ended.
pub open spec fn view_warnings(
    cfg: AppConfig,
    active: bool,
    host: HostSnapshot,
    last_stop: Option<Seq<char>>,
) -> Seq<Seq<char>> {
    let lang = config_lang(cfg);
    let on_battery = if active && cfg.keep_awake_on_lid_close && !host.on_ac {
        seq![warn_lid_on_battery_text(lang)]
    } else {
        Seq::empty()
    };
    let lid = if active && host.lid_closed && cfg.keep_awake_on_lid_close {
        seq![warn_lid_best_effort_text(lang)]
    } else {
        Seq::empty()
    };
    let stopped = match last_stop {
        Some(reason) if !active => seq![reason],
        _ => Seq::empty(),
    };
    on_battery + lid + stopped
}

/// Headline: idle prompt, or standby with its elapsed time when known.
pub open spec fn view_status_line(cfg: AppConfig, active: bool, elapsed_secs: Option<u64>) -> Seq<char> {
    let lang = config_lang(cfg);
    if active {
        match elapsed_secs {
            Some(s) => standby_elapsed_text(lang, duration_text(lang, s as nat)),
            None => standby_status_text(lang),
        }
    } else {
        idle_status_text(lang)
    }
}

/// Detail items. In standby: display state, lid, power source, battery level
/// when known, time left when timed. While idle: what starting will do.
pub open spec fn view_details(
    cfg: AppConfig,
    active: bool,
    remaining_secs: Option<u64>,
    host: HostSnapshot,
    display_asleep: bool,
) -> Seq<Seq<char>> {
    let lang = config_lang(cfg);
    if active {
        let display = if display_asleep {
            display_asleep_text(lang)
        } else if user_present_at(host, cfg.user_idle_resleep_ms) {
            user_controls_display_text(lang)
        } else {
            display_pending_text(lang)
        };
        let lid = if host.lid_closed {
            lid_closed_text(lang)
        } else {
            lid_open_text(lang)
        };
        let power = if host.on_ac {
            power_ac_text(lang)
        } else {
            power_battery_text(lang)
        };
        let battery = match host.battery_percent {
            Some(b) => seq![battery_percent_text(lang, b)],
            None => Seq::empty(),
        };
        let left = match remaining_secs {
            Some(r) => seq![remaining_text(lang, duration_text(lang, r as nat))],
            None => Seq::empty(),
        };
        seq![display, lid, power] + battery + left
    } else {
        seq![
            if cfg.screen_off {
                will_sleep_display_text(lang)
            } else {
                will_keep_awake_only_text(lang)
            },
        ]
    }
}

/// Everything `build_view_model` promises of the view it builds.
pub open spec fn view_model_of(
    vm: ViewModel,
    cfg: AppConfig,
    active: bool,
    elapsed_secs: Option<u64>,
    remaining_secs: Option<u64>,
    host: HostSnapshot,
    last_stop: Option<Seq<char>>,
    display_asleep: bool,
) -> bool {
    let lang = config_lang(cfg);
    &&& vm.active == active
    &&& vm.status_line@ == view_status_line(cfg, active, elapsed_secs)
    &&& vm.detail_line@ == join_seqs(view_details(cfg, active, remaining_secs, host, display_asleep), " · "@)
    &&& vm.primary_action@ == (if active {
        end_standby_text(lang)
    } else {
        start_standby_text(lang)
    })
    &&& vm.tooltip@ == (if active {
        tooltip_active_text(lang)
    } else {
        tooltip_idle_text(lang)
    })
    &&& opt_string_view(vm.remaining_label) == (match remaining_secs {
        Some(r) => Some(duration_text(lang, r as nat)),
        None => None,
    })
    &&& strings_view(vm.warnings@) == view_warnings(cfg, active, host, last_stop)
    &&& vm.duration == cfg.duration
    &&& vm.screen_off == cfg.screen_off
    &&& vm.keep_awake_on_lid_close == cfg.keep_awake_on_lid_close
    &&& vm.resleep_display == cfg.resleep_display
    &&& vm.lock_screen == cfg.lock_screen
    &&& vm.launch_at_login == cfg.launch_at_login
    &&& vm.battery_floor_label@ == battery_floor_label_text(cfg)
    &&& vm.display_asleep == display_asleep
    &&& vm.user_present == user_present_at(host, cfg.user_idle_resleep_ms)
    &&& vm.elapsed_secs == (if active {
        elapsed_secs
    } else {
        None
    })
    &&& vm.remaining_secs == (if active {
        remaining_secs
    } else {
        None
    })
}

/// Builds what the menu shows for a configuration, a session state and a host sample.
pub fn build_view_model(
    cfg: &AppConfig,
    active: bool,
    elapsed_secs: Option<u64>,
    remaining_secs: Option<u64>,
    host: &HostSnapshot,
    last_stop: Option<&str>,
    display_asleep: bool,
) -> (vm: ViewModel)
    ensures
        view_model_of(
            vm,
            *cfg,
            active,
            elapsed_secs,
            remaining_secs,
            *host,
            opt_str_view(last_stop),
            display_asleep,
        ),
{
    let t = cfg.tr();
    let lang = cfg.lang();
    let mut warnings: Vec<String> = Vec::new();
    if active && cfg.keep_awake_on_lid_close && !host.on_ac {
        warnings.push(String::from_str(t.warn_lid_on_battery()));
    }
    if active && host.lid_closed && cfg.keep_awake_on_lid_close {
        warnings.push(String::from_str(t.warn_lid_best_effort()));
    }
    if !active {
        if let Some(reason) = last_stop {
            warnings.push(String::from_str(reason));
        }
    }
    assert(strings_view(warnings@) =~= view_warnings(*cfg, active, *host, opt_str_view(last_stop)));

    let status_line = if active {
        match elapsed_secs {
            Some(s) => t.standby_elapsed(format_duration(lang, s).as_str()),
            None => String::from_str(t.standby_status()),
        }
    } else {
        String::from_str(t.idle_status())
    };

    let mut details: Vec<String> = Vec::new();
    if active {
        details.push(
            String::from_str(
                if display_asleep {
                    t.display_asleep()
                } else if host.user_present(cfg.user_idle_resleep_ms) {
                    t.user_controls_display()
                } else {
                    t.display_pending()
                },
            ),
        );
        details.push(
            String::from_str(
                if host.lid_closed {
                    t.lid_closed()
                } else {
                    t.lid_open()
                },
            ),
        );
        details.push(
            String::from_str(
                if host.on_ac {
                    t.power_ac()
                } else {
                    t.power_battery()
                },
            ),
        );
        if let Some(b) = host.battery_percent {
            details.push(t.battery_percent(b));
        }
        if let Some(r) = remaining_secs {
            details.push(t.remaining(format_duration(lang, r).as_str()));
        }
    } else {
        details.push(
            String::from_str(
                if cfg.screen_off {
                    t.will_sleep_display()
                } else {
                    t.will_keep_awake_only()
                },
            ),
        );
    }
    assert(strings_view(details@) =~= view_details(*cfg, active, remaining_secs, *host, display_asleep));
    let detail_line = join_strings(&details, " · ");

    let primary_action = if active {
        String::from_str(t.end_standby())
    } else {
        String::from_str(t.start_standby())
    };

    let tooltip = if active {
        t.tooltip_active()
    } else {
        t.tooltip_idle()
    };

    let remaining_label = match remaining_secs {
        Some(r) => Some(format_duration(lang, r)),
        None => None,
    };

    ViewModel {
        active,
        status_line,
        detail_line,
        primary_action,
        tooltip,
        remaining_label,
        warnings,
        duration: cfg.duration,
        screen_off: cfg.screen_off,
        keep_awake_on_lid_close: cfg.keep_awake_on_lid_close,
        resleep_display: cfg.resleep_display,
        lock_screen: cfg.lock_screen,
        launch_at_login: cfg.launch_at_login,
        battery_floor_label: cfg.battery_floor_label(),
        display_asleep,
        user_present: host.user_present(cfg.user_idle_resleep_ms),
        elapsed_secs: if active {
            elapsed_secs
        } else {
            None
        },
        remaining_secs: if active {
            remaining_secs
        } else {
            None
        },
    }
}

/// Joining a list split in two: the joined head, the separator, the joined rest.
proof fn lemma_join_split(a: Seq<Seq<char>>, b: Seq<Seq<char>>, sep: Seq<char>)
    requires
        a.len() > 0,
        b.len() > 0,
    ensures
        join_seqs(a + b, sep) == join_seqs(a, sep) + sep + join_seqs(b, sep),
    decreases b.len(),
{
    assert((a + b).drop_last() =~= a + b.drop_last());
    assert((a + b).last() == b.last());
    if b.len() == 1 {
        assert(b.drop_last().len() == 0);
        assert(a + b.drop_last() =~= a);
    } else {
        lemma_join_split(a, b.drop_last(), sep);
    }
}

/// During standby the third detail item is the power source: the power
/// adapter exactly when the Mac is on AC, the battery otherwise, and two
/// samples that agree on AC power give the same item whatever battery levels
/// they report.
pub proof fn law_power_item_follows_ac(
    cfg: AppConfig,
    remaining_secs: Option<u64>,
    host: HostSnapshot,
    display_asleep: bool,
    other: HostSnapshot,
)
    ensures
        view_details(cfg, true, remaining_secs, host, display_asleep).len() >= 3,
        host.on_ac ==> view_details(cfg, true, remaining_secs, host, display_asleep)[2] == power_ac_text(
            config_lang(cfg),
        ),
        !host.on_ac ==> view_details(cfg, true, remaining_secs, host, display_asleep)[2]
            == power_battery_text(config_lang(cfg)),
        other.on_ac == host.on_ac ==> view_details(cfg, true, remaining_secs, other, display_asleep)[2]
            == view_details(cfg, true, remaining_secs, host, display_asleep)[2],
{
}

/// During standby the menu's detail line reads display state, lid, then the
/// power source, which is the power adapter exactly when the Mac is on AC and
/// the battery otherwise, whatever battery level is known; anything after it
/// (battery level, time left) follows after another separator.
pub proof fn law_detail_power_follows_ac(
    vm: ViewModel,
    cfg: AppConfig,
    elapsed_secs: Option<u64>,
    remaining_secs: Option<u64>,
    host: HostSnapshot,
    last_stop: Option<Seq<char>>,
    display_asleep: bool,
)
    requires
        view_model_of(vm, cfg, true, elapsed_secs, remaining_secs, host, last_stop, display_asleep),
    ensures
        exists|display: Seq<char>, lid: Seq<char>, tail: Seq<char>|
            {
                &&& (tail.len() == 0 || tail.take(3) == " · "@)
                &&& #[trigger] vm.detail_line@ == display + " · "@ + lid + " · "@ + (if host.on_ac {
                    power_ac_text(config_lang(cfg))
                } else {
                    power_battery_text(config_lang(cfg))
                }) + tail
            },
{
    let sep = " · "@;
    let items = view_details(cfg, true, remaining_secs, host, display_asleep);
    let head = items.take(3);
    let rest = items.skip(3);
    assert(items == head + rest);
    reveal_strlit(" · ");
    assert(items.len() >= 3);
    let one = seq![items[0]];
    let two = seq![items[0], items[1]];
    assert(join_seqs(one, sep) == items[0]);
    assert(two.drop_last() =~= one);
    assert(join_seqs(two, sep) == items[0] + sep + items[1]);
    assert(head.drop_last() =~= two);
    assert(head.last() == items[2]);
    assert(join_seqs(head, sep) == items[0] + sep + items[1] + sep + items[2]);
    let tail = if rest.len() > 0 {
        lemma_join_split(head, rest, sep);
        sep + join_seqs(rest, sep)
    } else {
        assert(items =~= head);
        Seq::<char>::empty()
    };
    if rest.len() > 0 {
        assert(tail.take(3) =~= sep);
    }
    assert(vm.detail_line@ == items[0] + sep + items[1] + sep + items[2] + tail);
}

} // verus!
