use home_assist::weather_data::{
    leap_year, ordinal_day, read_date_prefix, read_hour, time_features, DateFields, HourReading,
    WeatherDataError,
};

fn stamps(date: &str) -> [String; 24] {
    std::array::from_fn(|h| format!("{date}T{h:02}:00"))
}

#[test]
fn features_of_a_leap_day() {
    let f = time_features(&stamps("2024-03-01")).unwrap();
    assert_eq!(f.year_day, 61);
    assert!(f.leap_year);
    assert_eq!(f.hours.len(), 24);
    for (h, reading) in f.hours.iter().enumerate() {
        assert_eq!(*reading, HourReading { negative: false, tenths: h as u16 * 10 });
    }
}

#[test]
fn features_of_common_years() {
    let f = time_features(&stamps("2023-03-01")).unwrap();
    assert_eq!(f.year_day, 60);
    assert!(!f.leap_year);
    assert_eq!(time_features(&stamps("2023-12-31")).unwrap().year_day, 365);
    assert_eq!(time_features(&stamps("2024-12-31")).unwrap().year_day, 366);
    assert_eq!(time_features(&stamps("2025-01-01")).unwrap().year_day, 1);
    assert!(!time_features(&stamps("1900-06-01")).unwrap().leap_year);
    assert!(time_features(&stamps("2000-06-01")).unwrap().leap_year);
    assert_eq!(time_features(&stamps("2023-13-05")).unwrap().year_day, 370);
    assert_eq!(time_features(&stamps("2023-02-31")).unwrap().year_day, 62);
}

#[test]
fn date_fields_as_integer_parsing_reads_them() {
    assert_eq!(
        read_date_prefix("2024-06-15T00:00"),
        Some(DateFields { year: 2024, month: 6, day: 15 })
    );
    // A leading plus sign is read, the separators are not checked.
    assert_eq!(
        read_date_prefix("+024x+6y09"),
        Some(DateFields { year: 24, month: 6, day: 9 })
    );
    assert_eq!(read_date_prefix("2024-06-1"), None);
    assert_eq!(read_date_prefix("20a4-06-15"), None);
    assert_eq!(read_date_prefix("2024-+-15"), None);
    assert_eq!(read_date_prefix("-024-06-15"), None);
    assert_eq!(read_date_prefix(""), None);
}

#[test]
fn hour_fields_as_float_parsing_reads_them() {
    assert_eq!(read_hour("2024-06-15T07:00"), Some(HourReading { negative: false, tenths: 70 }));
    assert_eq!(read_hour("2024-06-15T23"), Some(HourReading { negative: false, tenths: 230 }));
    assert_eq!(read_hour("2024-06-15T+7"), Some(HourReading { negative: false, tenths: 70 }));
    assert_eq!(read_hour("2024-06-15T-7"), Some(HourReading { negative: true, tenths: 70 }));
    assert_eq!(read_hour("2024-06-15T.5"), Some(HourReading { negative: false, tenths: 5 }));
    assert_eq!(read_hour("2024-06-15T5."), Some(HourReading { negative: false, tenths: 50 }));
    assert_eq!(read_hour("2024-06-15T.."), None);
    assert_eq!(read_hour("2024-06-15T+."), None);
    assert_eq!(read_hour("2024-06-15T1e"), None);
    assert_eq!(read_hour("2024-06-15T1"), None);
}

#[test]
fn unreadable_stamps_are_date_conversion_errors() {
    let mut times = stamps("2024-03-01");
    times[0] = "2024-0x-01T00:00".to_string();
    assert_eq!(time_features(&times).unwrap_err(), WeatherDataError::DateConversion());
    let mut times = stamps("2024-03-01");
    times[17] = "2024-03-01Tab:00".to_string();
    assert_eq!(time_features(&times).unwrap_err(), WeatherDataError::DateConversion());
    let mut times = stamps("2024-03-01");
    times[23] = "2024-03-01".to_string();
    assert_eq!(time_features(&times).unwrap_err(), WeatherDataError::DateConversion());
}

#[test]
fn leap_years() {
    assert!(leap_year(2024));
    assert!(!leap_year(2023));
    assert!(!leap_year(2100));
    assert!(leap_year(2400));
    assert!(leap_year(0));
}

#[test]
fn ordinal_days() {
    assert_eq!(ordinal_day(1, 1, false), 1);
    assert_eq!(ordinal_day(29, 2, true), 60);
    assert_eq!(ordinal_day(1, 3, false), 60);
    assert_eq!(ordinal_day(31, 12, false), 365);
    assert_eq!(ordinal_day(31, 12, true), 366);
    // The day is not checked against the month's length.
    assert_eq!(ordinal_day(99, 1, false), 99);
    // Month 13 follows the whole year.
    assert_eq!(ordinal_day(2, 13, false), 367);
    assert_eq!(ordinal_day(2, 13, true), 368);
}
