use tado_exporter::date::{
    days_in_month, format_date, history_window, previous_day, today_utc, Date,
};
use tado_exporter::decimal::{i32_to_dec, u64_to_dec, u64_to_dec_pad2, u64_to_dec_pad4};

#[test]
fn decimal_rendering_is_exact() {
    assert_eq!(u64_to_dec(0), "0");
    assert_eq!(u64_to_dec(7), "7");
    assert_eq!(u64_to_dec(30), "30");
    assert_eq!(u64_to_dec(18446744073709551615), "18446744073709551615");
    assert_eq!(i32_to_dec(12345), "12345");
    assert_eq!(i32_to_dec(-7), "-7");
    assert_eq!(i32_to_dec(-2147483648), "-2147483648");
    assert_eq!(u64_to_dec_pad2(3), "03");
    assert_eq!(u64_to_dec_pad2(12), "12");
    assert_eq!(u64_to_dec_pad4(3), "0003");
    assert_eq!(u64_to_dec_pad4(987), "0987");
    assert_eq!(u64_to_dec_pad4(2022), "2022");
}

#[test]
fn date_formats_as_iso_day() {
    assert_eq!(format_date(Date { year: 2022, month: 9, day: 3 }), "2022-09-03");
    assert_eq!(format_date(Date { year: 987, month: 12, day: 31 }), "0987-12-31");
}

#[test]
fn month_lengths_follow_the_leap_rule() {
    assert_eq!(days_in_month(2020, 2), 29);
    assert_eq!(days_in_month(2021, 2), 28);
    assert_eq!(days_in_month(1900, 2), 28);
    assert_eq!(days_in_month(2000, 2), 29);
    assert_eq!(days_in_month(2022, 4), 30);
    assert_eq!(days_in_month(2022, 8), 31);
}

#[test]
fn previous_day_crosses_month_and_year_boundaries() {
    assert_eq!(
        previous_day(Date { year: 2022, month: 9, day: 3 }),
        Date { year: 2022, month: 9, day: 2 }
    );
    assert_eq!(
        previous_day(Date { year: 2020, month: 3, day: 1 }),
        Date { year: 2020, month: 2, day: 29 }
    );
    assert_eq!(
        previous_day(Date { year: 2021, month: 3, day: 1 }),
        Date { year: 2021, month: 2, day: 28 }
    );
    assert_eq!(
        previous_day(Date { year: 2022, month: 1, day: 1 }),
        Date { year: 2021, month: 12, day: 31 }
    );
}

#[test]
fn history_window_walks_back_twenty_nine_days() {
    let window = history_window(Date { year: 2022, month: 1, day: 15 });

    assert_eq!(window.len(), 29);
    assert_eq!(window[0], Date { year: 2022, month: 1, day: 14 });
    assert_eq!(window[13], Date { year: 2022, month: 1, day: 1 });
    assert_eq!(window[14], Date { year: 2021, month: 12, day: 31 });
    assert_eq!(window[28], Date { year: 2021, month: 12, day: 17 });
    for i in 1..window.len() {
        assert_eq!(previous_day(window[i - 1]), window[i]);
    }
}

#[test]
fn today_utc_yields_a_real_date() {
    let today = today_utc().expect("the clock is past 1970");
    assert!(today.year >= 1970);
    assert!((1..=12).contains(&today.month));
    assert!((1..=31).contains(&today.day));
    assert!(today.day <= days_in_month(today.year, today.month));
    // The wrapper's date drives the window walk.
    let window = history_window(today);
    assert_eq!(window.len(), 29);
    assert_eq!(previous_day(today), window[0]);
}
