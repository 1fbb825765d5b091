use koditerm::kodi::{format_duration, time_to_seconds, ClockTime, PlayerStatus};

#[test]
fn duration_below_an_hour_has_minutes_and_seconds() {
    assert_eq!(format_duration(0), "0:00");
    assert_eq!(format_duration(7), "0:07");
    assert_eq!(format_duration(59), "0:59");
    assert_eq!(format_duration(61), "1:01");
    assert_eq!(format_duration(600), "10:00");
    assert_eq!(format_duration(3599), "59:59");
}

#[test]
fn duration_of_an_hour_or_more_has_hours() {
    assert_eq!(format_duration(3600), "1:00:00");
    assert_eq!(format_duration(3661), "1:01:01");
    assert_eq!(format_duration(36000), "10:00:00");
    assert_eq!(format_duration(u32::MAX), "1193046:28:15");
}

#[test]
fn clock_time_adds_up_its_fields() {
    let t = ClockTime { hours: Some(1), minutes: Some(2), seconds: Some(3) };
    assert!(t.fits());
    assert_eq!(time_to_seconds(&t), 3723);
}

#[test]
fn clock_time_missing_fields_count_as_zero() {
    let t = ClockTime { hours: None, minutes: Some(4), seconds: None };
    assert_eq!(time_to_seconds(&t), 240);
    let empty = ClockTime { hours: None, minutes: None, seconds: None };
    assert_eq!(time_to_seconds(&empty), 0);
}

#[test]
fn clock_time_narrows_to_32_bits() {
    let t = ClockTime { hours: Some(2_000_000), minutes: None, seconds: None };
    assert!(t.fits());
    assert_eq!(time_to_seconds(&t), (7_200_000_000u64 % (1u64 << 32)) as u32);
}

#[test]
fn clock_time_that_overflows_does_not_fit() {
    let t = ClockTime { hours: Some(u64::MAX / 3600 + 1), minutes: None, seconds: None };
    assert!(!t.fits());
    let u = ClockTime { hours: None, minutes: None, seconds: Some(u64::MAX) };
    assert!(u.fits());
    let v = ClockTime { hours: None, minutes: Some(1), seconds: Some(u64::MAX) };
    assert!(!v.fits());
}

#[test]
fn idle_player_status() {
    let s = PlayerStatus::default();
    assert_eq!(s.player_id, None);
    assert!(!s.playing);
    assert!(s.current_item.is_none());
    assert_eq!(s.position, 0);
    assert_eq!(s.duration, 0);
    assert_eq!(s.speed, 0);
    assert_eq!(s.volume, 100);
    assert!(!s.muted);
}
