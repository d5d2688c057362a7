use rustyroad::text::parse_u32;
use rustyroad::text::str_lex_lt;
use rustyroad::timestamp::format_timestamp;
use rustyroad::timestamp::migration_dir_name;
use rustyroad::timestamp::Timestamp;

fn ts(year: u32, month: u32, day: u32, hour: u32, minute: u32, second: u32) -> Timestamp {
    Timestamp::new(year, month, day, hour, minute, second).unwrap()
}

#[test]
fn format_is_fourteen_zero_padded_digits() {
    let t = ts(2023, 5, 7, 9, 30, 5);
    assert_eq!(format_timestamp(&t), "20230507093005");
    let early = ts(987, 1, 1, 0, 0, 0);
    assert_eq!(format_timestamp(&early), "09870101000000");
}

#[test]
fn dir_name_is_timestamp_dash_name() {
    let t = ts(2023, 5, 7, 9, 30, 5);
    assert_eq!(
        migration_dir_name(&t, "create_users_table"),
        "20230507093005-create_users_table"
    );
}

#[test]
fn out_of_range_fields_are_rejected() {
    assert!(Timestamp::new(2023, 13, 1, 0, 0, 0).is_none());
    assert!(Timestamp::new(2023, 0, 1, 0, 0, 0).is_none());
    assert!(Timestamp::new(2023, 1, 32, 0, 0, 0).is_none());
    assert!(Timestamp::new(2023, 1, 1, 24, 0, 0).is_none());
    assert!(Timestamp::new(2023, 1, 1, 0, 60, 0).is_none());
    assert!(Timestamp::new(2023, 1, 1, 0, 0, 60).is_none());
    assert!(Timestamp::new(10000, 1, 1, 0, 0, 0).is_none());
    assert!(Timestamp::new(9999, 12, 31, 23, 59, 59).is_some());
}

#[test]
fn dir_names_sort_like_time() {
    // A later moment, even across a year boundary and with an "earlier"
    // migration name, gets a lexicographically later directory name.
    let t1 = ts(2023, 12, 31, 23, 59, 59);
    let t2 = ts(2024, 1, 1, 0, 0, 0);
    let d1 = migration_dir_name(&t1, "zzz_last");
    let d2 = migration_dir_name(&t2, "aaa_first");
    assert!(d1 < d2);
    assert!(str_lex_lt(&d1, &d2));

    // One second apart, same name.
    let t3 = ts(2024, 1, 1, 0, 0, 1);
    let d3 = migration_dir_name(&t3, "aaa_first");
    assert!(d2 < d3);
    assert!(str_lex_lt(&d2, &d3));

    // Padding matters: hour 9 sorts before hour 10.
    let t4 = ts(2024, 1, 1, 9, 0, 0);
    let t5 = ts(2024, 1, 1, 10, 0, 0);
    assert!(migration_dir_name(&t4, "m") < migration_dir_name(&t5, "m"));
}

#[test]
fn current_timestamp_is_well_formed() {
    let t = rustyroad::timestamp::current_timestamp().unwrap();
    assert!(t.year >= 2020 && t.year <= 9999);
    assert!(t.month >= 1 && t.month <= 12);
    assert!(t.day >= 1 && t.day <= 31);
    assert!(t.hour < 24);
    assert!(t.minute < 60);
    assert!(t.second < 60);
    let rendered = format_timestamp(&t);
    assert_eq!(rendered.len(), 14);
    assert!(rendered.chars().all(|c| c.is_ascii_digit()));
}

#[test]
fn parse_u32_accepts_exactly_digit_strings() {
    assert_eq!(parse_u32("255"), Some(255));
    assert_eq!(parse_u32("0"), Some(0));
    assert_eq!(parse_u32("007"), Some(7));
    assert_eq!(parse_u32("4294967295"), Some(u32::MAX));
    assert_eq!(parse_u32("4294967296"), None);
    assert_eq!(parse_u32(""), None);
    assert_eq!(parse_u32("12a"), None);
    assert_eq!(parse_u32("-3"), None);
    assert_eq!(parse_u32(" 3"), None);
}
