use chrono::DateTime;
use chrono::Utc;
use pingbot::time::Timestamp;
use pingbot::time::MAX_SECS;
use pingbot::time::MIN_SECS;
use pingbot::time::NANOS_PER_HOUR;
use pingbot::time::NANOS_PER_SEC;
use pingbot::time::SECS_PER_DAY;

const BILLION: i128 = 1_000_000_000;

fn at(secs: i64, nanos: u32) -> Timestamp {
    Timestamp::new(secs, nanos).expect("a valid instant")
}

/// The difference of the seconds and nanoseconds, with one second more or
/// less where an end is a leap second and the time of day of the other end
/// lies after it.
fn expected_nanos(to: (i64, u32), from: (i64, u32)) -> i128 {
    let to_of_day = to.0.rem_euclid(SECS_PER_DAY);
    let from_of_day = from.0.rem_euclid(SECS_PER_DAY);
    let adjustment = if to_of_day > from_of_day && from.1 >= NANOS_PER_SEC {
        1
    } else if to_of_day < from_of_day && to.1 >= NANOS_PER_SEC {
        -1
    } else {
        0
    };
    (to.0 as i128 - from.0 as i128 + adjustment) * BILLION + (to.1 as i128 - from.1 as i128)
}

#[test]
fn the_constants() {
    assert_eq!(NANOS_PER_SEC, 1_000_000_000);
    assert_eq!(NANOS_PER_HOUR, 3_600 * 1_000_000_000);
    assert_eq!(SECS_PER_DAY, 24 * 3_600);
}

#[test]
fn the_bounds_are_those_of_the_date_library() {
    assert_eq!(DateTime::<Utc>::MIN_UTC.timestamp(), MIN_SECS);
    assert_eq!(DateTime::<Utc>::MAX_UTC.timestamp(), MAX_SECS);
    assert!(DateTime::from_timestamp(MIN_SECS, 0).is_some());
    assert!(DateTime::from_timestamp(MIN_SECS - 1, 999_999_999).is_none());
    assert!(DateTime::from_timestamp(MAX_SECS, 1_999_999_999).is_some());
    assert!(DateTime::from_timestamp(MAX_SECS + 1, 0).is_none());
}

#[test]
fn new_accepts_every_second_in_range() {
    assert!(Timestamp::new(0, 0).is_some());
    assert!(Timestamp::new(MIN_SECS, 0).is_some());
    assert!(Timestamp::new(MAX_SECS, 999_999_999).is_some());
    assert!(Timestamp::new(-62_167_219_200, 0).is_some());
    assert!(Timestamp::new(253_402_300_800, 0).is_some());
    assert!(Timestamp::new(MIN_SECS - 1, 0).is_none());
    assert!(Timestamp::new(MAX_SECS + 1, 0).is_none());
    assert!(Timestamp::new(i64::MIN, 0).is_none());
    assert!(Timestamp::new(i64::MAX, 0).is_none());
}

#[test]
fn new_accepts_a_leap_second_only_at_the_end_of_a_minute() {
    assert!(Timestamp::new(59, 999_999_999).is_some());
    assert!(Timestamp::new(59, 1_000_000_000).is_some());
    assert!(Timestamp::new(59, 1_999_999_999).is_some());
    assert!(Timestamp::new(59, 2_000_000_000).is_none());
    assert!(Timestamp::new(59, u32::MAX).is_none());
    assert!(Timestamp::new(58, 1_000_000_000).is_none());
    assert!(Timestamp::new(60, 1_000_000_000).is_none());
    assert!(Timestamp::new(0, 1_000_000_000).is_none());
    assert!(Timestamp::new(1_435_708_799, 1_500_000_000).is_some());
    assert!(Timestamp::new(-1, 1_000_000_000).is_some());
    assert!(Timestamp::new(-2, 1_000_000_000).is_none());
    assert!(Timestamp::new(-61, 1_000_000_000).is_some());
    assert!(Timestamp::new(MAX_SECS, 1_999_999_999).is_some());
    assert!(Timestamp::new(MIN_SECS + 59, 1_000_000_000).is_some());
    assert!(Timestamp::new(MIN_SECS, 1_000_000_000).is_none());
}

#[test]
fn new_agrees_with_the_date_library_on_what_is_an_instant() {
    let seconds = [MIN_SECS - 1, MIN_SECS, MIN_SECS + 59, -61, -60, -2, -1, 0, 58, 59, 60, 119, MAX_SECS, MAX_SECS + 1];
    let nanos = [0, 999_999_999, 1_000_000_000, 1_999_999_999, 2_000_000_000, u32::MAX];
    for &s in seconds.iter() {
        for &n in nanos.iter() {
            assert_eq!(
                Timestamp::new(s, n).is_some(),
                DateTime::from_timestamp(s, n).is_some(),
                "{s}.{n}"
            );
        }
    }
}

#[test]
fn every_instant_of_the_date_library_can_be_held() {
    for text in ["2020-09-13T12:26:40Z", "2015-06-30T23:59:60Z", "2015-06-30T23:59:60.5Z", "0000-01-01T00:00:00Z", "9999-12-31T23:59:59.999999999Z"] {
        let parsed = DateTime::parse_from_rfc3339(text).unwrap();
        let t = at(parsed.timestamp(), parsed.timestamp_subsec_nanos());
        assert_eq!(
            DateTime::from_timestamp(t.unix_seconds(), t.subsec_nanos()).unwrap(),
            parsed,
            "{text}"
        );
    }
    let first = DateTime::<Utc>::MIN_UTC;
    let last = DateTime::<Utc>::MAX_UTC;
    assert!(Timestamp::new(first.timestamp(), first.timestamp_subsec_nanos()).is_some());
    assert!(Timestamp::new(last.timestamp(), last.timestamp_subsec_nanos()).is_some());
}

#[test]
fn getters_give_back_what_was_put_in() {
    let t = at(1_600_000_000, 123_456_789);
    assert_eq!(t.unix_seconds(), 1_600_000_000);
    assert_eq!(t.subsec_nanos(), 123_456_789);
}

#[test]
fn the_span_between_two_instants_is_exact() {
    let then = at(1_600_000_000, 0);
    assert_eq!(at(1_600_000_000, 0).nanos_since(&then), 0);
    assert_eq!(at(1_600_000_000, 1).nanos_since(&then), 1);
    assert_eq!(at(1_600_000_001, 0).nanos_since(&then), BILLION);
    assert_eq!(at(1_600_000_000 + 3_599, 999_999_999).nanos_since(&then), 3_600 * BILLION - 1);
    assert_eq!(at(1_600_000_000 + 3_600, 0).nanos_since(&then), NANOS_PER_HOUR as i128);
    assert_eq!(at(1_600_000_000 + 72 * 3_600, 0).nanos_since(&then), 72 * NANOS_PER_HOUR as i128);
    assert_eq!(
        at(1_600_000_000 + 72 * 3_600 + 1_800, 0).nanos_since(&then),
        72 * NANOS_PER_HOUR as i128 + 1_800 * BILLION
    );
}

#[test]
fn the_fraction_of_a_second_counts() {
    let then = at(1_600_000_000, 500);
    assert_eq!(at(1_600_000_001, 499).nanos_since(&then), BILLION - 1);
    assert_eq!(at(1_600_000_001, 500).nanos_since(&then), BILLION);
    assert_eq!(at(1_600_000_000, 0).nanos_since(&then), -500);
}

#[test]
fn a_span_backwards_is_negative() {
    let later = at(1_600_000_000, 0);
    assert_eq!(at(1_600_000_000 - 1, 0).nanos_since(&later), -BILLION);
    assert_eq!(at(1_600_000_000 - 1, 999_999_999).nanos_since(&later), -1);
    assert_eq!(at(1_600_000_000 - 3_600, 0).nanos_since(&later), -(NANOS_PER_HOUR as i128));
    assert_eq!(at(1_600_000_000 - 3_600, 1).nanos_since(&later), -(NANOS_PER_HOUR as i128) + 1);
}

#[test]
fn the_longest_span_there_is() {
    let first = at(MIN_SECS, 0);
    let last = at(MAX_SECS, 999_999_999);
    let span = (MAX_SECS as i128 - MIN_SECS as i128) * BILLION + 999_999_999;
    assert_eq!(last.nanos_since(&first), span);
    assert_eq!(first.nanos_since(&last), -span);
    assert_eq!(span, 16_544_868_105_599_999_999_999);
}

#[test]
fn a_leap_second_is_a_second_of_its_own_within_its_day() {
    let leap = at(1_435_708_799, 1_500_000_000);
    let eleven = at(1_435_705_200, 0);
    let one_next_day = at(1_435_712_400, 0);
    assert_eq!(leap.nanos_since(&eleven), 3_600 * BILLION + 500_000_000);
    assert_eq!(one_next_day.nanos_since(&leap), 3_600 * BILLION - 500_000_000);
    assert_eq!(eleven.nanos_since(&leap), -(3_600 * BILLION + 500_000_000));
    assert_eq!(leap.nanos_since(&one_next_day), -(3_600 * BILLION - 500_000_000));
    assert_eq!(leap.nanos_since(&leap), 0);
    assert_eq!(leap.nanos_since(&at(1_435_708_799, 999_999_999)), 500_000_001);
}

#[test]
fn spans_agree_with_the_stated_difference_on_a_grid_of_instants() {
    let seconds = [
        MIN_SECS,
        MIN_SECS + 59,
        -86_400 * 366,
        -86_401,
        -3_601,
        -3_600,
        -61,
        -1,
        0,
        1,
        59,
        60,
        3_599,
        3_600,
        86_399,
        86_400,
        951_782_400,
        1_435_708_799,
        1_435_708_800,
        1_600_000_000,
        MAX_SECS - 60,
        MAX_SECS,
    ];
    let nanos = [0, 1, 500_000_000, 999_999_999, 1_000_000_000, 1_500_000_000, 1_999_999_999];
    let mut instants = Vec::new();
    for &s in seconds.iter() {
        for &n in nanos.iter() {
            if Timestamp::new(s, n).is_some() {
                instants.push((s, n));
            }
        }
    }
    assert!(instants.len() > 100);
    let mut leaps = 0;
    for &to in instants.iter() {
        for &from in instants.iter() {
            if to.1 >= NANOS_PER_SEC || from.1 >= NANOS_PER_SEC {
                leaps += 1;
            }
            let got = at(to.0, to.1).nanos_since(&at(from.0, from.1));
            assert_eq!(got, expected_nanos(to, from), "{:?} since {:?}", to, from);
        }
    }
    assert!(leaps > 1_000);
}
