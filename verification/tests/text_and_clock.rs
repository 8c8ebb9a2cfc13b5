use codex_updater::clock::{Timestamp, FIRST_SECOND, LAST_SECOND};
use codex_updater::text::{after_last, decimal_text, hex_text, split_words, trim, with_cause};

#[test]
fn decimal_has_no_leading_zeros() {
    assert_eq!(decimal_text(0), "0");
    assert_eq!(decimal_text(10), "10");
    assert_eq!(decimal_text(u64::MAX), "18446744073709551615");
}

#[test]
fn hex_has_two_digits_for_each_byte() {
    assert_eq!(hex_text(&[]), "");
    assert_eq!(hex_text(&[0x00, 0x0f, 0xa0, 0xff]), "000fa0ff");
}

#[test]
fn trimming_takes_all_unicode_white_space() {
    let mut count = 0;
    for code in 0..=0x10ffffu32 {
        if let Some(c) = char::from_u32(code) {
            if c.is_whitespace() {
                count += 1;
                assert_eq!(trim(&format!("{}a{}", c, c)), "a");
            }
        }
    }
    assert_eq!(count, 25);
    assert_eq!(trim(" \n "), "");
    assert_eq!(trim(""), "");
    assert_eq!(trim("a b"), "a b");
}

#[test]
fn white_space_has_the_listed_members() {
    let listed: Vec<u32> = (0..=0x10ffffu32)
        .filter(|code| char::from_u32(*code).map_or(false, |c| trim(&c.to_string()).is_empty()))
        .collect();
    let mut expected: Vec<u32> = (0x09..=0x0d).collect();
    expected.extend([0x20, 0x85, 0xa0, 0x1680]);
    expected.extend(0x2000..=0x200a);
    expected.extend([0x2028, 0x2029, 0x202f, 0x205f, 0x3000]);
    assert_eq!(listed, expected);
}

#[test]
fn words_are_split_at_runs_of_white_space() {
    assert_eq!(split_words("  a\tbc \u{a0}d"), vec!["a", "bc", "d"]);
    assert_eq!(split_words(" \n").len(), 0);
    assert_eq!(split_words("x"), vec!["x"]);
}

#[test]
fn last_mark_counts() {
    assert_eq!(after_last("a)b)c", ')'), Some("c"));
    assert_eq!(after_last("a)", ')'), Some(""));
    assert_eq!(after_last("abc", ')'), None);
    assert_eq!(after_last("\u{e9})\u{e9}", ')'), Some("\u{e9}"));
}

#[test]
fn cause_follows_context() {
    assert_eq!(with_cause("a", "b"), "a: b");
}

#[test]
fn moments_have_the_range_of_the_calendar() {
    assert_eq!(FIRST_SECOND, chrono::DateTime::<chrono::Utc>::MIN_UTC.timestamp());
    assert_eq!(LAST_SECOND, chrono::DateTime::<chrono::Utc>::MAX_UTC.timestamp());
    assert!(Timestamp::from_unix(FIRST_SECOND, 0).is_some());
    assert!(Timestamp::from_unix(FIRST_SECOND - 1, 0).is_none());
    assert!(Timestamp::from_unix(LAST_SECOND, 999_999_999).is_some());
    assert!(Timestamp::from_unix(LAST_SECOND + 1, 0).is_none());
    assert!(Timestamp::from_unix(i64::MIN, 0).is_none());
    assert!(Timestamp::from_unix(i64::MAX, 0).is_none());
    assert!(Timestamp::from_unix(0, 1_000_000_000).is_none());
    assert!(Timestamp::from_unix(59, 1_999_999_999).is_some());
    assert!(Timestamp::from_unix(59, 2_000_000_000).is_none());
    assert!(Timestamp::from_unix(-1, 1_000_000_000).is_some());
}

#[test]
fn moments_are_those_of_the_calendar() {
    let mut secs: Vec<i64> = (-130..130).collect();
    for edge in [FIRST_SECOND, LAST_SECOND, 0, 86_400, -86_400, 1_700_000_000] {
        secs.extend(edge - 61..=edge + 61);
    }
    for secs in secs {
        for nanos in [0, 999_999_999, 1_000_000_000, 1_999_999_999, 2_000_000_000, u32::MAX] {
            let expected = chrono::DateTime::from_timestamp(secs, nanos);
            let moment = Timestamp::from_unix(secs, nanos);
            assert_eq!(moment.is_some(), expected.is_some(), "{} {}", secs, nanos);
            if let Some(moment) = moment {
                assert_eq!(moment.unix_seconds(), secs);
                assert_eq!(moment.subsec_nanos(), nanos);
                assert_eq!(
                    Timestamp::from_unix(moment.unix_seconds(), moment.subsec_nanos()),
                    Some(moment)
                );
            }
        }
    }
}

#[test]
fn elapsed_time_is_exact() {
    let moment = |secs: i64, nanos: u32| Timestamp::from_unix(secs, nanos).unwrap();
    assert_eq!(moment(10, 5).since(&moment(7, 9)), Some((2, 999_999_996)));
    assert_eq!(moment(7, 9).since(&moment(7, 9)), Some((0, 0)));
    assert_eq!(moment(7, 8).since(&moment(7, 9)), None);
    assert_eq!(
        moment(LAST_SECOND, 0).since(&moment(FIRST_SECOND, 0)),
        Some(((LAST_SECOND - FIRST_SECOND) as u64, 0))
    );
    // A leap second after 00:00:59 counts for what comes later on a day, not for the next day.
    assert_eq!(moment(60, 0).since(&moment(59, 1_000_000_000)), Some((1, 0)));
    assert_eq!(moment(60, 0).since(&moment(59, 0)), Some((1, 0)));
    assert_eq!(
        moment(86_400, 0).since(&moment(86_399, 1_000_000_000)),
        Some((0, 0))
    );
    assert_eq!(moment(59, 1_000_000_000).since(&moment(59, 0)), Some((1, 0)));
    assert_eq!(moment(59, 1_000_000_000).since(&moment(60, 0)), None);
    assert_eq!(
        moment(86_400 + 59, 1_000_000_000).since(&moment(60, 0)),
        Some((86_399, 0))
    );
}

#[test]
fn the_clock_runs() {
    let before = chrono::Utc::now().timestamp();
    let now = Timestamp::now();
    assert!(before <= now.unix_seconds());
    assert!(now.subsec_nanos() < 1_000_000_000);
}
