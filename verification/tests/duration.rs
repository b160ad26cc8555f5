use never_sleep::{
    countdown_secs, deadline_unix_secs, elapsed_secs, format_clock, format_countdown,
    format_duration, next_until_unix_secs, next_until_wallclock, next_until_wallclock_from,
    pick_wallclock_deadline, remaining_ms, session_remaining_ms, wallclock_target, DurationPref, Lang,
};

#[test]
fn until_rolls_to_tomorrow() {
    let offset = 8 * 3600;
    let local_1800 = 18 * 3600;
    let now_unix = local_1800 - i64::from(offset);
    let next = next_until_unix_secs(now_unix, offset, 8, 0);
    assert_eq!(next - now_unix, 14 * 3600);
}

#[test]
fn until_today_if_still_ahead() {
    let offset = 8 * 3600;
    let local_0700 = 7 * 3600;
    let now_unix = local_0700 - i64::from(offset);
    let next = next_until_unix_secs(now_unix, offset, 8, 0);
    assert_eq!(next - now_unix, 3600);
}

#[test]
fn format_examples() {
    assert_eq!(format_duration(Lang::Zh, 8), "8 秒");
    assert_eq!(format_duration(Lang::Zh, 60), "1 分钟");
    assert_eq!(format_duration(Lang::Zh, 90), "1 分 30 秒");
    assert_eq!(format_duration(Lang::Zh, 3600), "1 小时");
    assert_eq!(format_duration(Lang::Zh, 3720), "1 小时 2 分");
    assert_eq!(format_duration(Lang::En, 8), "8 sec");
    assert_eq!(format_duration(Lang::En, 60), "1 min");
    assert_eq!(format_duration(Lang::En, 90), "1 min 30 sec");
    assert_eq!(format_duration(Lang::En, 3600), "1 hr");
    assert_eq!(format_duration(Lang::En, 3720), "1 hr 2 min");
}

#[test]
fn format_clock_is_compact_elapsed() {
    assert_eq!(format_clock(0), "0:00");
    assert_eq!(format_clock(5), "0:05");
    assert_eq!(format_clock(65), "1:05");
    assert_eq!(format_clock(3599), "59:59");
    assert_eq!(format_clock(3600), "1:00:00");
    assert_eq!(format_clock(3725), "1:02:05");
}

#[test]
fn wallclock_is_in_the_future() {
    let now = chrono::Local::now().timestamp();
    let next = next_until_wallclock(8, 0);
    assert!(next > now);
    assert!(next - now <= 24 * 3600 + 60);
}

#[test]
fn deadline_unix_secs_for_each_pref() {
    assert_eq!(
        deadline_unix_secs(0, 0, 1_000, DurationPref::Indefinite),
        None
    );
    assert_eq!(
        deadline_unix_secs(0, 0, 1_000, DurationPref::Hours { hours: 2 }),
        Some(1_000 + 7_200)
    );
    let until = deadline_unix_secs(0, 0, 1_000, DurationPref::UntilLocal { hour: 8, minute: 0 });
    assert!(until.is_some());
    assert!(until.unwrap() > chrono::Local::now().timestamp() - 1);
}

#[test]
fn next_until_unix_secs_at_exact_target_rolls_forward() {
    let offset = 0;
    let now_unix = 8 * 3600;
    let next = next_until_unix_secs(now_unix, offset, 8, 0);
    assert_eq!(next - now_unix, 86_400);
}

#[test]
fn remaining_ms_follows_monotonic_not_wall_clock() {
    let started_unix = 1_700_000_000;
    let started_ms = 5_000;
    let deadline = started_unix + 3_600;
    let remaining = remaining_ms(deadline, started_unix, started_ms, started_ms + 2_000);
    assert_eq!(remaining, 3_598_000);
    assert_eq!(countdown_secs(remaining), 3_598);
    assert_eq!(
        elapsed_secs(started_ms, started_ms + 2_000) + countdown_secs(remaining),
        3_600,
        "elapsed + remaining must stay on the chosen duration"
    );
}

#[test]
fn countdown_secs_holds_the_second_until_it_elapses() {
    assert_eq!(countdown_secs(0), 0);
    assert_eq!(countdown_secs(1), 1);
    assert_eq!(countdown_secs(1_000), 1);
    assert_eq!(countdown_secs(1_001), 2);
    assert_eq!(countdown_secs(3_600_000), 3_600);
    assert_eq!(
        countdown_secs(3_599_001),
        3_600,
        "the opening 1:00:00 must last a full second"
    );
    assert_eq!(countdown_secs(3_599_000), 3_599);
}

#[test]
fn format_countdown_keeps_the_hour_column() {
    assert_eq!(format_countdown(3_600), "1:00:00");
    assert_eq!(format_countdown(3_599), "0:59:59");
    assert_eq!(format_countdown(5), "0:00:05");
}

#[test]
fn until_local_remaining_follows_wall_clock() {
    let started_unix = 1_700_000_000;
    let deadline = started_unix + 3_600;
    let rem = session_remaining_ms(
        DurationPref::UntilLocal { hour: 8, minute: 0 },
        deadline,
        started_unix,
        0,
        5_000,
        started_unix + 10,
    );
    assert_eq!(
        rem, 3_590_000,
        "UntilLocal remaining must drop with unix_secs, not monotonic ms"
    );
    let hours = session_remaining_ms(
        DurationPref::Hours { hours: 1 },
        deadline,
        started_unix,
        0,
        5_000,
        started_unix + 10,
    );
    assert_eq!(hours, 3_595_000);
}

#[test]
fn remaining_time_floors_at_zero() {
    assert_eq!(remaining_ms(100, 200, 0, 0), 0);
    assert_eq!(remaining_ms(1_010, 1_000, 0, 20_000), 0);
    assert_eq!(session_remaining_ms(DurationPref::Indefinite, 5, 0, 0, 0, 0), 0);
    assert_eq!(
        session_remaining_ms(DurationPref::UntilLocal { hour: 1, minute: 0 }, 10, 0, 0, 0, 50),
        0
    );
    assert_eq!(elapsed_secs(5_000, 1_000), 0);
    assert_eq!(elapsed_secs(0, 1_999), 1);
}

#[test]
fn next_until_law_on_concrete_offsets() {
    let next = next_until_unix_secs(1_700_000_000, -5 * 3600, 23, 59);
    assert!(next > 1_700_000_000 && next <= 1_700_000_000 + 86_400);
    assert_eq!((next - 5 * 3600).rem_euclid(86_400), 23 * 3600 + 59 * 60);
}

#[test]
fn wallclock_pick_prefers_today_then_tomorrow() {
    assert_eq!(pick_wallclock_deadline(100, Some(150), Some(200)), 150);
    assert_eq!(pick_wallclock_deadline(100, Some(100), Some(200)), 200);
    assert_eq!(pick_wallclock_deadline(100, None, Some(200)), 200);
    assert_eq!(pick_wallclock_deadline(100, Some(50), None), 100 + 86_400);
    assert_eq!(pick_wallclock_deadline(i64::MAX - 1, None, None), i64::MAX);
}

#[test]
fn large_values_format_fully() {
    assert_eq!(format_clock(360_000), "100:00:00");
    assert_eq!(format_duration(Lang::En, 86_400), "24 hr");
    assert_eq!(format_countdown(59), "0:00:59");
}

#[test]
fn wallclock_target_falls_back_to_midnight() {
    assert_eq!(wallclock_target(7, 30), (7, 30));
    assert_eq!(wallclock_target(23, 59), (23, 59));
    assert_eq!(wallclock_target(24, 0), (0, 0));
    assert_eq!(wallclock_target(7, 60), (0, 0));
}

#[test]
fn wallclock_from_a_reading_stays_near_it() {
    let now = chrono::Local::now();
    let ts = now.timestamp();
    let off = now.offset().local_minus_utc();
    let today = (ts + off as i64).div_euclid(86_400) as i32 + 719_163;
    for (h, m) in [(0u8, 0u8), (8, 0), (23, 59), (30, 0)] {
        let r = next_until_wallclock_from(ts, off, today, h, m);
        assert!(r > ts - 172_800 && r < ts + 345_600);
        let (th, tm) = wallclock_target(h, m);
        let local = (r + off as i64).rem_euclid(86_400);
        assert!(r > ts);
        assert!(r - ts <= 24 * 3600 + 3600);
        if local != th as i64 * 3600 + tm as i64 * 60 {
            // Only a daylight-saving change between now and the target moves it.
            assert!((local - (th as i64 * 3600 + tm as i64 * 60)).abs() <= 3600);
        }
    }
}
