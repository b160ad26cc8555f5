//! Session clocks: deadlines, countdowns and their human-readable forms.

use vstd::prelude::*;

use crate::config::DurationPref;
use crate::i18n::Lang;
use crate::text::{dec, pad2, push_char, push_dec, push_pad2};

verus! {

pub const SECS_PER_DAY: i64 = 86_400;

/// `x` clamped to the range of `i64`.
pub open spec fn clamp_i64(x: int) -> int {
    if x < i64::MIN {
        i64::MIN as int
    } else if x > i64::MAX {
        i64::MAX as int
    } else {
        x
    }
}

/// `a - b` in `i64` arithmetic that saturates at the type's bounds.
pub fn i64_saturating_sub(a: i64, b: i64) -> (r: i64)
    ensures
        r == clamp_i64(a - b),
{
    let d: i128 = a as i128 - b as i128;
    if d < i64::MIN as i128 {
        i64::MIN
    } else if d > i64::MAX as i128 {
        i64::MAX
    } else {
        d as i64
    }
}

/// `a - b`, or 0 when `b > a`.
pub open spec fn sat_sub(a: nat, b: nat) -> nat {
    if a >= b {
        (a - b) as nat
    } else {
        0
    }
}

/// Seconds from local midnight of a `hour:minute` target.
pub open spec fn target_secs(hour: u8, minute: u8) -> int {
    hour * 3600 + minute * 60
}

/// Seconds until the next local `hour:minute` strictly after `now_unix` in a
/// fixed UTC offset. A target equal to the current second is tomorrow's.
pub open spec fn until_delta(now_unix: int, offset_secs: int, hour: u8, minute: u8) -> int {
    let tod = (now_unix + offset_secs) % 86_400;
    let delta = target_secs(hour, minute) - tod;
    if delta <= 0 {
        delta + 86_400
    } else {
        delta
    }
}

/// Next `hour:minute` in a fixed UTC offset, as a unix timestamp (no daylight saving).
/// `offset_secs` is the local offset east of UTC (UTC+8 is 28800).
pub fn next_until_unix_secs(now_unix: i64, offset_secs: i32, hour: u8, minute: u8) -> (r: i64)
    requires
        i64::MIN <= now_unix + offset_secs <= i64::MAX,
        now_unix + until_delta(now_unix as int, offset_secs as int, hour, minute) <= i64::MAX,
    ensures
        r == now_unix + until_delta(now_unix as int, offset_secs as int, hour, minute),
        hour < 24 && minute < 60 ==> now_unix < r <= now_unix + 86_400,
        hour < 24 && minute < 60 ==> (r + offset_secs) % 86_400 == target_secs(hour, minute),
{
    let local: i64 = now_unix + offset_secs as i64;
    let tod: i64 = match local.checked_rem_euclid(SECS_PER_DAY) {
        Some(t) => t,
        None => 0,
    };
    let target: i64 = hour as i64 * 3600 + minute as i64 * 60;
    let mut delta: i64 = target - tod;
    if delta <= 0 {
        delta = delta + SECS_PER_DAY;
    }
    proof {
        let l = now_unix + offset_secs;
        assert((l - tod) % 86_400 == 0) by {
            vstd::arithmetic::div_mod::lemma_fundamental_div_mod(l, 86_400);
            vstd::arithmetic::div_mod::lemma_mod_multiples_basic(l / 86_400, 86_400);
        }
        if hour < 24 && minute < 60 {
            let r = now_unix + delta;
            vstd::arithmetic::div_mod::lemma_fundamental_div_mod(l, 86_400);
            assert(tod == l % 86_400);
            assert(r + offset_secs == 86_400 * (l / 86_400) + target
                || r + offset_secs == 86_400 * (l / 86_400 + 1) + target);
            vstd::arithmetic::div_mod::lemma_mod_multiples_vanish(l / 86_400, target as int, 86_400);
            vstd::arithmetic::div_mod::lemma_mod_multiples_vanish(l / 86_400 + 1, target as int, 86_400);
            vstd::arithmetic::div_mod::lemma_small_mod(target as nat, 86_400);
        }
    }
    now_unix + delta
}


/// Day number (days from the common era, 1970-01-01 being day 719 163) of the
/// local calendar date of the instant `unix` seen at `offset_secs` east of UTC.
pub open spec fn local_day(unix: int, offset_secs: int) -> int {
    (unix + offset_secs) / 86_400 + 719_163
}

/// Local seconds since the epoch of `hour:minute:00` on day number `day`.
pub open spec fn local_wall_secs(day: int, hour: u8, minute: u8) -> int {
    (day - 719_163) * 86_400 + target_secs(hour, minute)
}

/// An instant found for the local wall time `local` lies within one day of it
/// (the local offset is strictly less than a day); no instant says nothing.
pub open spec fn near_local(t: Option<i64>, local: int) -> bool {
    match t {
        Some(x) => local - 86_400 < x < local + 86_400,
        None => true,
    }
}

/// Reads the clock once through `chrono::Local::now()` and returns the instant as
/// a unix timestamp, the day number of its local calendar date
/// (`Datelike::num_days_from_ce` of `date_naive()`), and the local offset east of
/// UTC in seconds. Claimed from chrono's source: the offset is a `FixedOffset`,
/// strictly between minus and plus one day, and the local date is the date of
/// the timestamp shifted by that offset (`naive_local` adds the offset exactly or
/// panics). The instant and the offset themselves come from the system clock and
/// time zone, so nothing is stated of them.
#[verifier::external_body]
pub(crate) fn local_now() -> (r: (i64, i32, i32))
    ensures
        -86400 < r.2 < 86400,
        r.1 == local_day(r.0 as int, r.2 as int),
{
    let now = chrono::Local::now();
    let today = chrono::Datelike::num_days_from_ce(&now.date_naive());
    (now.timestamp(), today, now.offset().local_minus_utc())
}

/// Resolves day number `day` at `hour:minute:00` in the machine's local time zone
/// through `NaiveDate::from_num_days_from_ce_opt`, `and_time`,
/// `and_local_timezone(chrono::Local)` and `earliest()`, and returns that
/// instant's unix timestamp. `None` when the day is outside chrono's range or the
/// wall time does not exist that day. Claimed from chrono's source: a found
/// instant is the local time minus a `FixedOffset` (less than one day in either
/// direction). Which offset applies rests on the time-zone database and is not
/// stated.
#[verifier::external_body]
fn local_timestamp(day: i32, hour: u8, minute: u8) -> (r: Option<i64>)
    requires
        hour < 24,
        minute < 60,
    ensures
        near_local(r, local_wall_secs(day as int, hour, minute)),
{
    let date = chrono::NaiveDate::from_num_days_from_ce_opt(day)?;
    let time = chrono::NaiveTime::from_hms_opt(hour as u32, minute as u32, 0)?;
    let dt = date.and_time(time).and_local_timezone(chrono::Local).earliest()?;
    Some(dt.timestamp())
}

/// The deadline chosen from today's and tomorrow's local instants of the target
/// time: today's when it is still ahead of `now_unix`, otherwise tomorrow's, and
/// one day after `now_unix` (saturating) when the calendar gives neither.
pub open spec fn wallclock_pick(now_unix: i64, today_at: Option<i64>, tomorrow_at: Option<i64>) -> int {
    match today_at {
        Some(t) if t > now_unix => t as int,
        _ => match tomorrow_at {
            Some(t) => t as int,
            None => clamp_i64(now_unix + 86_400),
        },
    }
}

/// The wall-clock deadline chosen from today's and tomorrow's local instants of
/// the target time (see `wallclock_pick`).
pub fn pick_wallclock_deadline(now_unix: i64, today_at: Option<i64>, tomorrow_at: Option<i64>) -> (r: i64)
    ensures
        r == wallclock_pick(now_unix, today_at, tomorrow_at),
{
    if let Some(t) = today_at {
        if t > now_unix {
            return t;
        }
    }
    match tomorrow_at {
        Some(t) => t,
        None => {
            if now_unix <= i64::MAX - SECS_PER_DAY {
                now_unix + SECS_PER_DAY
            } else {
                i64::MAX
            }
        },
    }
}

/// The wall-clock target actually used: the given time when the hour and minute
/// are in range, otherwise midnight.
pub open spec fn wallclock_target_spec(hour: u8, minute: u8) -> (u8, u8) {
    if hour < 24 && minute < 60 {
        (hour, minute)
    } else {
        (0, 0)
    }
}

pub fn wallclock_target(hour: u8, minute: u8) -> (r: (u8, u8))
    ensures
        r == wallclock_target_spec(hour, minute),
{
    if hour < 24 && minute < 60 {
        (hour, minute)
    } else {
        (0, 0)
    }
}

/// What the deadline for `hour:minute` may be, given the clock reading
/// `now_unix` whose local date has day number `today`: `wallclock_pick` of an
/// instant within a day of today's local target and one within a day of
/// tomorrow's (the same one when there is no tomorrow in `i32`).
pub open spec fn wallclock_outcome(now_unix: i64, today: i32, hour: u8, minute: u8, r: i64) -> bool {
    exists|a: Option<i64>, b: Option<i64>|
        {
            let (h, m) = wallclock_target_spec(hour, minute);
            &&& near_local(a, local_wall_secs(today as int, h, m))
            &&& (today < i32::MAX ==> near_local(b, local_wall_secs(today + 1, h, m)))
            &&& (today == i32::MAX ==> b == a)
            &&& #[trigger] wallclock_pick(now_unix, a, b) == r
        }
}

/// A deadline for `hour:minute` resolved from some reading of the clock: an
/// instant `now`, an offset strictly within a day and the local day number
/// they give; the deadline is a `wallclock_outcome` of that reading and, when
/// that day has a successor in `i32`, lies less than two days before and less
/// than four days after the instant.
pub open spec fn wallclock_deadline(hour: u8, minute: u8, r: i64) -> bool {
    exists|now: i64, off: i32, today: i32|
        #![trigger wallclock_outcome(now, today, hour, minute, r), local_day(now as int, off as int)]
        {
            &&& -86_400 < off < 86_400
            &&& today == local_day(now as int, off as int)
            &&& wallclock_outcome(now, today, hour, minute, r)
            &&& (today < i32::MAX ==> now - 172_800 < r < now + 345_600)
        }
}

/// The next local `hour:minute` after the clock reading `now_unix` (whose local
/// date has day number `today`), resolved in the machine's time zone. The result
/// is `wallclock_pick` of an instant near today's target and one near
/// tomorrow's; with a consistent reading it lies less than two days before and
/// less than four days after `now_unix`.
pub fn next_until_wallclock_from(now_unix: i64, offset_secs: i32, today: i32, hour: u8, minute: u8) -> (r: i64)
    ensures
        wallclock_outcome(now_unix, today, hour, minute, r),
        today == local_day(now_unix as int, offset_secs as int) && -86_400 < offset_secs < 86_400
            && today < i32::MAX ==> now_unix - 172_800 < r < now_unix + 345_600,
{
    let (h, m) = wallclock_target(hour, minute);
    let today_at = local_timestamp(today, h, m);
    let tomorrow_at = if today < i32::MAX {
        local_timestamp(today + 1, h, m)
    } else {
        today_at
    };
    let r = pick_wallclock_deadline(now_unix, today_at, tomorrow_at);
    proof {
        assert(wallclock_pick(now_unix, today_at, tomorrow_at) == r);
        if today == local_day(now_unix as int, offset_secs as int) && -86_400 < offset_secs < 86_400
            && today < i32::MAX {
            let l = now_unix + offset_secs;
            vstd::arithmetic::div_mod::lemma_fundamental_div_mod(l as int, 86_400);
            let start = (today - 719_163) * 86_400;
            assert(start <= l < start + 86_400) by (nonlinear_arith)
                requires
                    today == l / 86_400 + 719_163,
                    l == 86_400 * (l / 86_400) + l % 86_400,
                    0 <= l % 86_400 < 86_400,
                    start == (today - 719_163) * 86_400,
            ;
            assert(0 <= target_secs(h, m) < 86_400);
            let l0 = local_wall_secs(today as int, h, m);
            let l1 = local_wall_secs(today + 1, h, m);
            assert(l0 == start + target_secs(h, m));
            assert(l1 == l0 + 86_400);
            match today_at {
                Some(t) if t > now_unix => {
                    assert(r == t);
                },
                _ => match tomorrow_at {
                    Some(t) => {
                        assert(r == t);
                    },
                    None => {},
                },
            }
        }
    }
    r
}

/// Next local wall-clock `hour:minute` as a unix timestamp, following the
/// machine's time zone (daylight-saving changes included). An hour or minute out
/// of range is read as midnight. Reads the clock once; the result is what
/// `next_until_wallclock_from` gives for that reading.
pub fn next_until_wallclock(hour: u8, minute: u8) -> (r: i64)
    ensures
        wallclock_deadline(hour, minute, r),
{
    let (now, today, off) = local_now();
    let r = next_until_wallclock_from(now, off, today, hour, minute);
    assert(wallclock_outcome(now, today, hour, minute, r) && today == local_day(now as int, off as int));
    r
}

/// What a deadline must be for `pref` started at `started_unix`: none for
/// indefinite standby, the start plus the hours for a timed one, and for
/// `UntilLocal` an instant resolved from a reading of the clock
/// (`wallclock_deadline`).
pub open spec fn deadline_fits(pref: DurationPref, started_unix: int, deadline: Option<i64>) -> bool {
    match pref {
        DurationPref::Indefinite => deadline is None,
        DurationPref::Hours { hours } => deadline == Some((started_unix + hours * 3600) as i64),
        DurationPref::UntilLocal { hour, minute } => match deadline {
            Some(t) => wallclock_deadline(hour, minute, t),
            None => false,
        },
    }
}

/// `started + hours` fits in `i64` for a timed preference.
pub open spec fn hours_deadline_fits_i64(pref: DurationPref, started_unix: int) -> bool {
    match pref {
        DurationPref::Hours { hours } => started_unix + hours * 3600 <= i64::MAX,
        _ => true,
    }
}

/// Unix deadline of a session of `pref` started at `started_unix`, or `None`
/// for indefinite standby. `UntilLocal` follows the local wall clock.
pub fn deadline_unix_secs(_now_unix: i64, _offset_secs: i32, started_unix: i64, pref: DurationPref) -> (r: Option<i64>)
    requires
        hours_deadline_fits_i64(pref, started_unix as int),
    ensures
        deadline_fits(pref, started_unix as int, r),
{
    match pref {
        DurationPref::Indefinite => None,
        DurationPref::Hours { hours } => Some(started_unix + hours as i64 * 3600),
        DurationPref::UntilLocal { hour, minute } => Some(next_until_wallclock(hour, minute)),
    }
}

/// `secs` split into hours, minutes of the hour and seconds of the minute.
pub open spec fn hms(secs: nat) -> (nat, nat, nat) {
    (secs / 3600, (secs % 3600) / 60, secs % 60)
}

/// Compact clock: `m:ss` under an hour, `h:mm:ss` from an hour on.
pub open spec fn clock_text(secs: nat) -> Seq<char> {
    let (h, m, s) = hms(secs);
    if h == 0 {
        dec(m) + seq![':'] + pad2(s)
    } else {
        dec(h) + seq![':'] + pad2(m) + seq![':'] + pad2(s)
    }
}

/// Countdown clock that always keeps the hour column: `h:mm:ss`.
pub open spec fn countdown_text(secs: nat) -> Seq<char> {
    let (h, m, s) = hms(secs);
    dec(h) + seq![':'] + pad2(m) + seq![':'] + pad2(s)
}

/// Compact elapsed clock for the moon-panel timer. Language-independent digits.
pub fn format_clock(secs: u64) -> (r: String)
    ensures
        r@ == clock_text(secs as nat),
{
    let hours = secs / 3600;
    let mins = (secs % 3600) / 60;
    let rem = secs % 60;
    let mut s = String::new();
    if hours == 0 {
        push_dec(&mut s, mins);
    } else {
        push_dec(&mut s, hours);
        push_char(&mut s, ':');
        push_pad2(&mut s, mins);
    }
    push_char(&mut s, ':');
    push_pad2(&mut s, rem);
    s
}

/// Countdown clock that keeps the hour column so 1:00:00 does not jump to 59:59.
pub fn format_countdown(secs: u64) -> (r: String)
    ensures
        r@ == countdown_text(secs as nat),
{
    let mut s = String::new();
    push_dec(&mut s, secs / 3600);
    push_char(&mut s, ':');
    push_pad2(&mut s, (secs % 3600) / 60);
    push_char(&mut s, ':');
    push_pad2(&mut s, secs % 60);
    s
}


/// English duration: `8 sec`, `1 min 30 sec`, `1 hr 2 min`.
pub open spec fn duration_text_en(secs: nat) -> Seq<char> {
    let mins = secs / 60;
    if secs < 60 {
        dec(secs) + " sec"@
    } else if mins < 60 {
        if secs % 60 == 0 {
            dec(mins) + " min"@
        } else {
            dec(mins) + " min "@ + dec(secs % 60) + " sec"@
        }
    } else if mins % 60 == 0 {
        dec(mins / 60) + " hr"@
    } else {
        dec(mins / 60) + " hr "@ + dec(mins % 60) + " min"@
    }
}

/// Chinese duration: `8 秒`, `1 分 30 秒`, `1 小时 2 分`.
pub open spec fn duration_text_zh(secs: nat) -> Seq<char> {
    let mins = secs / 60;
    if secs < 60 {
        dec(secs) + " 秒"@
    } else if mins < 60 {
        if secs % 60 == 0 {
            dec(mins) + " 分钟"@
        } else {
            dec(mins) + " 分 "@ + dec(secs % 60) + " 秒"@
        }
    } else if mins % 60 == 0 {
        dec(mins / 60) + " 小时"@
    } else {
        dec(mins / 60) + " 小时 "@ + dec(mins % 60) + " 分"@
    }
}

/// A duration in the UI language.
pub open spec fn duration_text(lang: Lang, secs: nat) -> Seq<char> {
    match lang {
        Lang::En => duration_text_en(secs),
        Lang::Zh => duration_text_zh(secs),
    }
}

/// Human duration in the given language.
pub fn format_duration(lang: Lang, secs: u64) -> (r: String)
    ensures
        r@ == duration_text(lang, secs as nat),
{
    match lang {
        Lang::En => format_duration_en(secs),
        Lang::Zh => format_duration_zh(secs),
    }
}

fn format_duration_en(secs: u64) -> (r: String)
    ensures
        r@ == duration_text_en(secs as nat),
{
    let mut s = String::new();
    if secs < 60 {
        push_dec(&mut s, secs);
        s.append(" sec");
        return s;
    }
    let mins = secs / 60;
    if mins < 60 {
        let rem = secs % 60;
        push_dec(&mut s, mins);
        if rem == 0 {
            s.append(" min");
        } else {
            s.append(" min ");
            push_dec(&mut s, rem);
            s.append(" sec");
        }
    } else {
        let rem_m = mins % 60;
        push_dec(&mut s, mins / 60);
        if rem_m == 0 {
            s.append(" hr");
        } else {
            s.append(" hr ");
            push_dec(&mut s, rem_m);
            s.append(" min");
        }
    }
    s
}

/// Chinese form of a duration; also used in the engine's notifications.
pub fn format_duration_zh(secs: u64) -> (r: String)
    ensures
        r@ == duration_text_zh(secs as nat),
{
    let mut s = String::new();
    if secs < 60 {
        push_dec(&mut s, secs);
        s.append(" 秒");
        return s;
    }
    let mins = secs / 60;
    if mins < 60 {
        let rem = secs % 60;
        push_dec(&mut s, mins);
        if rem == 0 {
            s.append(" 分钟");
        } else {
            s.append(" 分 ");
            push_dec(&mut s, rem);
            s.append(" 秒");
        }
    } else {
        let rem_m = mins % 60;
        push_dec(&mut s, mins / 60);
        if rem_m == 0 {
            s.append(" 小时");
        } else {
            s.append(" 小时 ");
            push_dec(&mut s, rem_m);
            s.append(" 分");
        }
    }
    s
}

/// Planned length in milliseconds of a session from `started_unix` to
/// `deadline_unix`, with the `i64` difference saturated and negative spans read as 0.
pub open spec fn planned_ms(deadline_unix: i64, started_unix: i64) -> int {
    let d = clamp_i64(deadline_unix - started_unix);
    (if d < 0 { 0 } else { d }) * 1000
}

/// Milliseconds left: planned length minus elapsed monotonic time, floored at 0.
pub open spec fn remaining_ms_spec(deadline_unix: i64, started_unix: i64, started_ms: u64, now_ms: u64) -> nat {
    sat_sub(planned_ms(deadline_unix, started_unix) as nat, sat_sub(now_ms as nat, started_ms as nat))
}

/// Milliseconds left in a timed session, measured on the monotonic clock.
///
/// `deadline_unix - started_unix` is the planned length. Subtracting elapsed
/// monotonic time keeps the UI from skipping seconds when `unix_secs` truncates
/// or the wall clock steps.
pub fn remaining_ms(deadline_unix: i64, started_unix: i64, started_ms: u64, now_ms: u64) -> (r: u64)
    requires
        planned_ms(deadline_unix, started_unix) <= u64::MAX,
    ensures
        r == remaining_ms_spec(deadline_unix, started_unix, started_ms, now_ms),
{
    let span = i64_saturating_sub(deadline_unix, started_unix);
    let secs: u64 = if span < 0 { 0 } else { span as u64 };
    let duration_ms: u64 = secs * 1_000;
    duration_ms.saturating_sub(now_ms.saturating_sub(started_ms))
}

/// Whole seconds of `ms`, rounded up.
pub open spec fn ceil_secs(ms: nat) -> nat {
    (ms + 999) / 1000
}

/// Whole seconds shown on a countdown. Holds the current second until it fully elapses.
pub fn countdown_secs(remaining_ms: u64) -> (r: u64)
    ensures
        r == ceil_secs(remaining_ms as nat),
{
    let whole = remaining_ms / 1_000;
    if remaining_ms % 1_000 == 0 {
        whole
    } else {
        whole + 1
    }
}

/// Whole seconds elapsed on the monotonic clock since `started_ms`.
pub fn elapsed_secs(started_ms: u64, now_ms: u64) -> (r: u64)
    ensures
        r == sat_sub(now_ms as nat, started_ms as nat) / 1000,
{
    now_ms.saturating_sub(started_ms) / 1_000
}

/// Milliseconds until a wall-clock deadline, floored at 0.
pub open spec fn wall_remaining_ms(deadline_unix: i64, now_unix: i64) -> int {
    let d = clamp_i64(deadline_unix - now_unix);
    (if d < 0 { 0 } else { d }) * 1000
}

/// Remaining milliseconds for the duration kind of the session.
pub open spec fn session_remaining_spec(
    pref: DurationPref,
    deadline_unix: i64,
    started_unix: i64,
    started_ms: u64,
    now_ms: u64,
    now_unix: i64,
) -> int {
    match pref {
        DurationPref::Hours { .. } => remaining_ms_spec(deadline_unix, started_unix, started_ms, now_ms) as int,
        DurationPref::UntilLocal { .. } => wall_remaining_ms(deadline_unix, now_unix),
        DurationPref::Indefinite => 0,
    }
}

/// Remaining milliseconds for the active duration kind.
///
/// `Hours` follows the monotonic clock so the UI does not skip seconds when
/// `unix_secs` truncates. `UntilLocal` follows the wall clock, matching the stop
/// condition for "until 08:00".
pub fn session_remaining_ms(
    pref: DurationPref,
    deadline_unix: i64,
    started_unix: i64,
    started_ms: u64,
    now_ms: u64,
    now_unix: i64,
) -> (r: u64)
    requires
        pref is Hours ==> planned_ms(deadline_unix, started_unix) <= u64::MAX,
        pref is UntilLocal ==> wall_remaining_ms(deadline_unix, now_unix) <= u64::MAX,
    ensures
        r == session_remaining_spec(pref, deadline_unix, started_unix, started_ms, now_ms, now_unix),
{
    match pref {
        DurationPref::Hours { .. } => remaining_ms(deadline_unix, started_unix, started_ms, now_ms),
        DurationPref::UntilLocal { .. } => {
            let span = i64_saturating_sub(deadline_unix, now_unix);
            let secs: u64 = if span < 0 { 0 } else { span as u64 };
            secs * 1_000
        },
        DurationPref::Indefinite => 0,
    }
}

/// Elapsed and remaining seconds of a timed session always add up to its planned
/// length: for a session of `deadline - started` seconds that has not run past
/// its end on the monotonic clock, `elapsed_secs + countdown_secs(remaining_ms)`
/// is exactly that length.
pub proof fn lemma_elapsed_plus_countdown_is_planned(
    deadline_unix: i64,
    started_unix: i64,
    started_ms: u64,
    now_ms: u64,
)
    requires
        started_unix <= deadline_unix,
        deadline_unix - started_unix <= i64::MAX,
        started_ms <= now_ms,
        now_ms - started_ms <= (deadline_unix - started_unix) * 1000,
    ensures
        sat_sub(now_ms as nat, started_ms as nat) / 1000 + ceil_secs(
            remaining_ms_spec(deadline_unix, started_unix, started_ms, now_ms),
        ) == deadline_unix - started_unix,
{
    let span = deadline_unix - started_unix;
    let e = (now_ms - started_ms) as int;
    let q = e / 1000;
    let r = e % 1000;
    vstd::arithmetic::div_mod::lemma_fundamental_div_mod(e, 1000);
    assert(clamp_i64(deadline_unix - started_unix) == span);
    assert(planned_ms(deadline_unix, started_unix) == span * 1000);
    assert(remaining_ms_spec(deadline_unix, started_unix, started_ms, now_ms) == span * 1000 - e);
    assert(span * 1000 - e + 999 == (span - q) * 1000 + (999 - r)) by (nonlinear_arith)
        requires e == 1000 * q + r;
    vstd::arithmetic::div_mod::lemma_div_multiples_vanish_fancy(span - q, 999 - r, 1000);
}

/// The English duration text names whole units that add back up to the
/// duration: seconds under a minute; minutes and leftover seconds (under 60)
/// under an hour; hours and leftover minutes (under 60) from an hour on, with
/// the seconds past the last whole minute dropped. A zero leftover is omitted.
pub proof fn law_duration_en_reads_back(secs: nat)
    ensures
        secs < 60 ==> duration_text_en(secs) == dec(secs) + " sec"@,
        60 <= secs < 3600 ==> exists|m: nat, r: nat|
            #![trigger dec(m), dec(r)]
            {
                &&& 1 <= m && r < 60 && m * 60 + r == secs
                &&& duration_text_en(secs) == if r == 0 {
                    dec(m) + " min"@
                } else {
                    dec(m) + " min "@ + dec(r) + " sec"@
                }
            },
        secs >= 3600 ==> exists|h: nat, m: nat|
            #![trigger dec(h), dec(m)]
            {
                &&& 1 <= h && m < 60 && h * 60 + m == secs / 60
                &&& duration_text_en(secs) == if m == 0 {
                    dec(h) + " hr"@
                } else {
                    dec(h) + " hr "@ + dec(m) + " min"@
                }
            },
{
    let mins = secs / 60;
    if 60 <= secs < 3600 {
        assert(mins * 60 + secs % 60 == secs);
        assert(1 <= mins);
        let m = mins;
        let r = secs % 60;
        assert(dec(m) == dec(m) && dec(r) == dec(r));
        assert(duration_text_en(secs) == if r == 0 {
            dec(m) + " min"@
        } else {
            dec(m) + " min "@ + dec(r) + " sec"@
        });
    }
    if secs >= 3600 {
        let h = mins / 60;
        let m = mins % 60;
        assert(h * 60 + m == mins);
        assert(dec(h) == dec(h) && dec(m) == dec(m));
        assert(1 <= h);
        assert(duration_text_en(secs) == if m == 0 {
            dec(h) + " hr"@
        } else {
            dec(h) + " hr "@ + dec(m) + " min"@
        });
    }
}

/// The Chinese duration text names whole units that add back up to the
/// duration, as the English one does.
pub proof fn law_duration_zh_reads_back(secs: nat)
    ensures
        secs < 60 ==> duration_text_zh(secs) == dec(secs) + " 秒"@,
        60 <= secs < 3600 ==> exists|m: nat, r: nat|
            #![trigger dec(m), dec(r)]
            {
                &&& 1 <= m && r < 60 && m * 60 + r == secs
                &&& duration_text_zh(secs) == if r == 0 {
                    dec(m) + " 分钟"@
                } else {
                    dec(m) + " 分 "@ + dec(r) + " 秒"@
                }
            },
        secs >= 3600 ==> exists|h: nat, m: nat|
            #![trigger dec(h), dec(m)]
            {
                &&& 1 <= h && m < 60 && h * 60 + m == secs / 60
                &&& duration_text_zh(secs) == if m == 0 {
                    dec(h) + " 小时"@
                } else {
                    dec(h) + " 小时 "@ + dec(m) + " 分"@
                }
            },
{
    let mins = secs / 60;
    if 60 <= secs < 3600 {
        assert(mins * 60 + secs % 60 == secs);
        let m = mins;
        let r = secs % 60;
        assert(dec(m) == dec(m) && dec(r) == dec(r));
        assert(duration_text_zh(secs) == if r == 0 {
            dec(m) + " 分钟"@
        } else {
            dec(m) + " 分 "@ + dec(r) + " 秒"@
        });
    }
    if secs >= 3600 {
        let h = mins / 60;
        let m = mins % 60;
        assert(h * 60 + m == mins);
        assert(dec(h) == dec(h) && dec(m) == dec(m));
        assert(duration_text_zh(secs) == if m == 0 {
            dec(h) + " 小时"@
        } else {
            dec(h) + " 小时 "@ + dec(m) + " 分"@
        });
    }
}

/// The countdown `h:mm:ss` reads back to the seconds it was made from: the
/// minutes and seconds are under 60 and the hour column is unbounded.
pub proof fn law_countdown_reads_back(secs: nat)
    ensures
        exists|h: nat, m: nat, r: nat|
            #![trigger dec(h), pad2(m), pad2(r)]
            {
                &&& m < 60 && r < 60 && h * 3600 + m * 60 + r == secs
                &&& countdown_text(secs) == dec(h) + seq![':'] + pad2(m) + seq![':'] + pad2(r)
            },
{
    let (h, m, r) = hms(secs);
    lemma_hms_adds_up(secs);
    assert(countdown_text(secs) == dec(h) + seq![':'] + pad2(m) + seq![':'] + pad2(r));
}

/// The parts `hms` splits a duration into add back up to it.
proof fn lemma_hms_adds_up(secs: nat)
    ensures
        hms(secs).1 < 60,
        hms(secs).2 < 60,
        hms(secs).0 * 3600 + hms(secs).1 * 60 + hms(secs).2 == secs,
{
    let h = secs / 3600;
    let rem = secs % 3600;
    let m = rem / 60;
    let r = secs % 60;
    assert(secs == 3600 * h + rem && rem < 3600) by {
        vstd::arithmetic::div_mod::lemma_fundamental_div_mod(secs as int, 3600);
    }
    assert(rem == 60 * m + rem % 60 && rem % 60 < 60) by {
        vstd::arithmetic::div_mod::lemma_fundamental_div_mod(rem as int, 60);
    }
    assert(m < 60);
    assert(secs == 60 * (60 * h + m) + rem % 60);
    assert(r == rem % 60) by {
        vstd::arithmetic::div_mod::lemma_fundamental_div_mod_converse(
            secs as int,
            60,
            (60 * h + m) as int,
            (rem % 60) as int,
        );
    }
}

/// The compact clock reads back to the seconds it was made from: `m:ss` under
/// an hour, `h:mm:ss` (with `h` at least 1) from an hour on.
pub proof fn law_clock_reads_back(secs: nat)
    ensures
        secs < 3600 ==> exists|m: nat, r: nat|
            #![trigger dec(m), pad2(r)]
            {
                &&& m < 60 && r < 60 && m * 60 + r == secs
                &&& clock_text(secs) == dec(m) + seq![':'] + pad2(r)
            },
        secs >= 3600 ==> exists|h: nat, m: nat, r: nat|
            #![trigger dec(h), pad2(m), pad2(r)]
            {
                &&& 1 <= h && m < 60 && r < 60 && h * 3600 + m * 60 + r == secs
                &&& clock_text(secs) == dec(h) + seq![':'] + pad2(m) + seq![':'] + pad2(r)
            },
{
    let (h, m, r) = hms(secs);
    lemma_hms_adds_up(secs);
    if secs < 3600 {
        assert(clock_text(secs) == dec(m) + seq![':'] + pad2(r));
    } else {
        assert(clock_text(secs) == dec(h) + seq![':'] + pad2(m) + seq![':'] + pad2(r));
    }
}

} // verus!
