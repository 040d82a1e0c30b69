use mace_reforge::calendar::{backup_file_name, db_path, unix_secs_to_ymdh};
use mace_reforge::decimal::{u64_to_decimal, u64_to_padded_decimal};

#[test]
fn decimal_renders_like_format() {
    assert_eq!(u64_to_decimal(0), "0");
    assert_eq!(u64_to_decimal(7), "7");
    assert_eq!(u64_to_decimal(42), "42");
    assert_eq!(u64_to_decimal(1000), "1000");
    assert_eq!(u64_to_decimal(u64::MAX), u64::MAX.to_string());
}

#[test]
fn padded_decimal_pads_only_short_numbers() {
    assert_eq!(u64_to_padded_decimal(7, 4), "0007");
    assert_eq!(u64_to_padded_decimal(2024, 4), "2024");
    assert_eq!(u64_to_padded_decimal(12345, 4), "12345");
    assert_eq!(u64_to_padded_decimal(0, 2), "00");
    assert_eq!(u64_to_padded_decimal(5, 0), "5");
}

#[test]
fn epoch_is_first_hour_of_1970() {
    assert_eq!(unix_secs_to_ymdh(0), (1970, 1, 1, 0));
    assert_eq!(unix_secs_to_ymdh(86399), (1970, 1, 1, 23));
    assert_eq!(unix_secs_to_ymdh(31535999), (1970, 12, 31, 23));
    assert_eq!(unix_secs_to_ymdh(31536000), (1971, 1, 1, 0));
}

#[test]
fn leap_days_and_centuries() {
    assert_eq!(unix_secs_to_ymdh(951782400), (2000, 2, 29, 0));
    assert_eq!(unix_secs_to_ymdh(1709164800), (2024, 2, 29, 0));
    assert_eq!(unix_secs_to_ymdh(4102444800), (2100, 1, 1, 0));
    // 2100 is not a leap year: the day after 2100-02-28 is 2100-03-01.
    assert_eq!(unix_secs_to_ymdh(4107456000), (2100, 2, 28, 0));
    assert_eq!(unix_secs_to_ymdh(4107542400), (2100, 3, 1, 0));
}

#[test]
fn ordinary_and_far_dates() {
    assert_eq!(unix_secs_to_ymdh(1725029869), (2024, 8, 30, 14));
    assert_eq!(unix_secs_to_ymdh(253402300799), (9999, 12, 31, 23));
    assert_eq!(unix_secs_to_ymdh(253402300800), (10000, 1, 1, 0));
    assert_eq!(unix_secs_to_ymdh(1_000_000_000_000), (33658, 9, 27, 1));
}

#[test]
fn backup_names_are_zero_padded() {
    assert_eq!(backup_file_name(2024, 8, 30, 14), "backups/db_20240830_14.json");
    assert_eq!(backup_file_name(1970, 1, 1, 0), "backups/db_19700101_00.json");
    assert_eq!(backup_file_name(10000, 1, 1, 0), "backups/db_100000101_00.json");
    let (y, m, d, h) = unix_secs_to_ymdh(1725029869);
    assert_eq!(backup_file_name(y, m, d, h), "backups/db_20240830_14.json");
}

#[test]
fn store_file() {
    assert_eq!(db_path(), "db.json");
}

#[test]
fn same_hour_same_backup_next_hour_new_backup() {
    let a = unix_secs_to_ymdh(1725030000);
    let b = unix_secs_to_ymdh(1725033599);
    let c = unix_secs_to_ymdh(1725033600);
    assert_eq!(a, b);
    assert_ne!(b, c);
    let name = |t: (u64, u64, u64, u64)| backup_file_name(t.0, t.1, t.2, t.3);
    assert_eq!(name(a), name(b));
    assert_ne!(name(b), name(c));
    assert_eq!(name(c), "backups/db_20240830_16.json");
}

#[test]
fn backup_names_of_different_hours_differ() {
    assert_ne!(backup_file_name(2024, 1, 11, 0), backup_file_name(2024, 11, 1, 0));
    assert_ne!(backup_file_name(202, 4, 1, 1), backup_file_name(2024, 1, 1, 1));
}
