use holocore::utils::http::get_name_from_uri;
use holocore::utils::time::{
    date, datetime, datetime_from_ts, lag_nanos, try_date, try_datetime, try_datetime_from_ts,
};

#[test]
fn test_datetime() {
    let new_datetime = datetime(2022, 9, 21, 19, 39, 30);
    assert_eq!(new_datetime, "20220921T193930");
}

#[test]
fn test_datetime_from_timestamp() {
    let new_datetime = datetime_from_ts((1663790343, 936116000));
    assert_eq!(new_datetime, "20220921T195903");
}

#[test]
fn test_date() {
    let new_date = date(2022, 9, 21);
    assert_eq!(new_date, "20220921");
}

#[test]
fn dates_that_do_not_exist_have_no_text() {
    assert_eq!(try_date(2022, 9, 21), Some("20220921".to_string()));
    assert_eq!(try_date(2023, 2, 29), None);
    assert_eq!(try_date(2024, 2, 29), Some("20240229".to_string()));
    assert_eq!(try_date(2022, 13, 1), None);
    assert_eq!(try_date(2022, 0, 1), None);
    assert_eq!(try_date(2022, 4, 31), None);
}

#[test]
fn times_that_do_not_exist_have_no_text() {
    assert_eq!(try_datetime(2022, 9, 21, 19, 39, 30), Some("20220921T193930".to_string()));
    assert_eq!(try_datetime(2022, 9, 21, 24, 0, 0), None);
    assert_eq!(try_datetime(2022, 9, 21, 23, 60, 0), None);
    assert_eq!(try_datetime(2022, 9, 31, 0, 0, 0), None);
    assert_eq!(try_datetime(2000, 1, 1, 0, 0, 0), Some("20000101T000000".to_string()));
}

#[test]
fn moments_out_of_range_have_no_text() {
    assert_eq!(try_datetime_from_ts((0, 0)), Some("19700101T000000".to_string()));
    assert_eq!(try_datetime_from_ts((1663790343, 936116000)), Some("20220921T195903".to_string()));
    assert_eq!(try_datetime_from_ts((-1, 0)), Some("19691231T235959".to_string()));
    assert_eq!(try_datetime_from_ts((i64::MAX, 0)), None);
    assert_eq!(try_datetime_from_ts((0, 2_000_000_000)), None);
}

#[test]
fn the_lag_is_exact_over_the_whole_range() {
    assert_eq!(lag_nanos(1_000, 250), 750);
    assert_eq!(lag_nanos(250, 1_000), -750);
    assert_eq!(lag_nanos(i64::MAX, i64::MIN), (1i128 << 64) - 1);
    assert_eq!(lag_nanos(i64::MIN, i64::MAX), 1 - (1i128 << 64));
}

#[test]
fn the_stage_is_named_by_the_second_piece_of_the_path() {
    assert_eq!(get_name_from_uri("/Processor/MockSource/inject"), "Processor");
    assert_eq!(get_name_from_uri("/BinanceSource/orderbook/BTCUSDT"), "BinanceSource");
    assert_eq!(get_name_from_uri("/MockSource"), "MockSource");
    assert_eq!(get_name_from_uri("/"), "");
    assert_eq!(get_name_from_uri("a/b/c"), "b");
    assert_eq!(get_name_from_uri("//x"), "");
}
