use golfer::calendar::{days_in_month, days_since_unix_epoch, is_leap_year};
use golfer::clock::{
    gps_utc_progression_is_sane, utc_for_mono_ms, LocalSchedule, Reading, UtcAnchor, UtcSync,
    UtcVerdict,
};

const UTC: u64 = 1_742_733_319_000;

#[test]
fn progress_of_the_clocks() {
    assert!(gps_utc_progression_is_sane(1_000, UTC, 2_000, UTC + 1_000));
    assert!(gps_utc_progression_is_sane(1_000, UTC, 2_000, UTC + 3_000));
    assert!(!gps_utc_progression_is_sane(1_000, UTC, 2_000, UTC + 3_001));
    assert!(gps_utc_progression_is_sane(1_000, UTC, 5_000, UTC + 2_000));
    assert!(!gps_utc_progression_is_sane(1_000, UTC, 5_001, UTC + 2_000));
    assert!(!gps_utc_progression_is_sane(1_000, UTC, 1_000, UTC + 1));
    assert!(!gps_utc_progression_is_sane(1_000, UTC, 2_000, UTC));
    assert!(!gps_utc_progression_is_sane(2_000, UTC, 1_000, UTC + 1_000));
    assert!(!gps_utc_progression_is_sane(1_000, UTC, 2_000, UTC - 1));
}

#[test]
fn two_readings_synchronize() {
    let mut sync = UtcSync::new();
    assert_eq!(sync.observe(1_000, UTC), UtcVerdict::Pending);
    assert_eq!(sync.observe(1_200, UTC), UtcVerdict::Unchanged);
    assert_eq!(sync.observe(2_000, UTC + 50_000), UtcVerdict::Pending);
    assert_eq!(sync.accepted, None);
    assert_eq!(sync.observe(3_000, UTC + 51_000), UtcVerdict::Synchronized);
    let accepted = Reading { mono_ms: 3_000, utc_ms: UTC + 51_000 };
    assert_eq!(sync.accepted, Some(accepted));
    assert_eq!(sync.observe(4_000, UTC + 90_000), UtcVerdict::Rejected(accepted));
    assert_eq!(sync.accepted, Some(accepted));
    assert_eq!(sync.observe(5_000, UTC + 53_000), UtcVerdict::Accepted);
    assert_eq!(sync.accepted, Some(Reading { mono_ms: 5_000, utc_ms: UTC + 53_000 }));
}

#[test]
fn anchored_time() {
    let anchor = Some(UtcAnchor { mono_ms: 10_000, unix_ms: UTC });
    assert_eq!(utc_for_mono_ms(None, 5), None);
    assert_eq!(utc_for_mono_ms(anchor, 10_000), Some(UTC));
    assert_eq!(utc_for_mono_ms(anchor, 12_500), Some(UTC + 2_500));
    assert_eq!(utc_for_mono_ms(anchor, 9_000), Some(UTC - 1_000));
    let early = Some(UtcAnchor { mono_ms: 10_000, unix_ms: 5 });
    assert_eq!(utc_for_mono_ms(early, 9_000), None);
    let late = Some(UtcAnchor { mono_ms: 0, unix_ms: u64::MAX - 1 });
    assert_eq!(utc_for_mono_ms(late, 9_000), Some(u64::MAX));
}

#[test]
fn deadlines_keep_their_beat() {
    let mut schedule = LocalSchedule::new(500);
    assert!(!schedule.due(499));
    assert!(schedule.due(500));
    schedule.advance(700);
    assert_eq!(schedule.next_ms, 1_500);
    assert_eq!(schedule.lateness(1_750), None);
    assert_eq!(schedule.lateness(1_751), Some(251));
    schedule.advance(4_600);
    assert_eq!(schedule.next_ms, 5_500);
    schedule.advance(5_500);
    assert_eq!(schedule.next_ms, 6_500);
    assert_eq!(schedule.wait_ms(6_000), 250);
    assert_eq!(schedule.wait_ms(6_400), 100);
    assert_eq!(schedule.wait_ms(6_500), 1);
    assert_eq!(schedule.wait_ms(9_000), 1);
    let mut last = LocalSchedule::new(u64::MAX - 500);
    last.advance(u64::MAX - 400);
    assert_eq!(last.next_ms, u64::MAX);
}

#[test]
fn the_calendar() {
    assert!(is_leap_year(2000));
    assert!(!is_leap_year(2100));
    assert!(is_leap_year(2024));
    assert_eq!(days_in_month(2024, 2), Some(29));
    assert_eq!(days_in_month(2023, 2), Some(28));
    assert_eq!(days_in_month(2023, 13), None);
    assert_eq!(days_since_unix_epoch(1970, 1, 1), Some(0));
    assert_eq!(days_since_unix_epoch(2000, 3, 1), Some(11_017));
    assert_eq!(days_since_unix_epoch(2024, 12, 31), Some(20_088));
    assert_eq!(days_since_unix_epoch(2025, 1, 1), Some(20_089));
    assert_eq!(days_since_unix_epoch(1969, 12, 31), None);
    assert_eq!(days_since_unix_epoch(2023, 2, 29), None);
    assert_eq!(days_since_unix_epoch(2023, 2, 0), None);
}
