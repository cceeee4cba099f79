use xfp_protocol::metadata::Timestamp;

const SECOND: i128 = 1_000_000_000;

#[test]
fn the_epoch_in_utc() {
    assert_eq!(Timestamp::new(0, 0).to_rfc3339(), Some("1970-01-01T00:00:00Z".to_string()));
}

#[test]
fn an_instant_seen_at_an_offset() {
    let stamp = Timestamp::new(1_546_300_800 * SECOND, 3600);
    assert_eq!(stamp.to_rfc3339(), Some("2019-01-01T01:00:00+01:00".to_string()));
    let west = Timestamp::new(1_546_300_800 * SECOND, -5 * 3600 - 30 * 60);
    assert_eq!(west.to_rfc3339(), Some("2018-12-31T18:30:00-05:30".to_string()));
}

#[test]
fn fractions_of_a_second_are_written() {
    assert_eq!(
        Timestamp::new(SECOND / 2, 0).to_rfc3339(),
        Some("1970-01-01T00:00:00.5Z".to_string())
    );
    assert_eq!(
        Timestamp::new(1, 0).to_rfc3339(),
        Some("1970-01-01T00:00:00.000000001Z".to_string())
    );
}

#[test]
fn instants_before_the_epoch() {
    assert_eq!(Timestamp::new(-SECOND, 0).to_rfc3339(), Some("1969-12-31T23:59:59Z".to_string()));
}

#[test]
fn timestamps_without_a_form_are_not_written() {
    // An offset that is not a whole number of minutes.
    assert_eq!(Timestamp::new(0, 1).to_rfc3339(), None);
    // An offset of more than a day.
    assert_eq!(Timestamp::new(0, 200_000).to_rfc3339(), None);
    // A year of five digits.
    assert_eq!(Timestamp::new(253_402_300_800 * SECOND, 0).to_rfc3339(), None);
    // A year before the year 0.
    assert_eq!(Timestamp::new(-62_167_219_201 * SECOND, 0).to_rfc3339(), None);
    assert_eq!(Timestamp::new(i128::MAX, 0).to_rfc3339(), None);
    assert_eq!(Timestamp::new(i128::MIN, 0).to_rfc3339(), None);
}

#[test]
fn the_last_instant_with_a_form() {
    assert_eq!(
        Timestamp::new(253_402_300_800 * SECOND - 1, 0).to_rfc3339(),
        Some("9999-12-31T23:59:59.999999999Z".to_string())
    );
    assert_eq!(
        Timestamp::new(-62_167_219_200 * SECOND, 0).to_rfc3339(),
        Some("0000-01-01T00:00:00Z".to_string())
    );
}

#[test]
fn texts_are_read() {
    assert_eq!(Timestamp::from_rfc3339("1970-01-01T00:00:00Z"), Some(Timestamp::new(0, 0)));
    assert_eq!(
        Timestamp::from_rfc3339("2019-01-01T01:00:00+01:00"),
        Some(Timestamp::new(1_546_300_800 * SECOND, 3600))
    );
    assert_eq!(
        Timestamp::from_rfc3339("2018-12-31T18:30:00.25-05:30"),
        Some(Timestamp::new(1_546_300_800 * SECOND + SECOND / 4, -19_800))
    );
}

#[test]
fn the_offset_is_part_of_what_is_read() {
    let utc = Timestamp::from_rfc3339("2019-01-01T00:00:00Z").unwrap();
    let east = Timestamp::from_rfc3339("2019-01-01T01:00:00+01:00").unwrap();
    assert_eq!(utc.unix_nanos, east.unix_nanos);
    assert_ne!(utc, east);
}

#[test]
fn texts_that_are_no_timestamp_are_refused() {
    assert_eq!(Timestamp::from_rfc3339(""), None);
    assert_eq!(Timestamp::from_rfc3339("yesterday"), None);
    assert_eq!(Timestamp::from_rfc3339("2019-01-01"), None);
    assert_eq!(Timestamp::from_rfc3339("2019-01-01T00:00:00"), None);
    assert_eq!(Timestamp::from_rfc3339("2019-13-01T00:00:00Z"), None);
    assert_eq!(Timestamp::from_rfc3339("2019-02-30T00:00:00Z"), None);
    assert_eq!(Timestamp::from_rfc3339("2019-01-01T25:00:00Z"), None);
    assert_eq!(Timestamp::from_rfc3339("2019-01-01T00:00:00Z "), None);
    assert_eq!(Timestamp::from_rfc3339("1546300800"), None);
}

#[test]
fn written_timestamps_read_back() {
    let stamps = [
        Timestamp::new(0, 0),
        Timestamp::new(1, 0),
        Timestamp::new(-1, 0),
        Timestamp::new(1_546_300_800 * SECOND + 123_456_789, 3600),
        Timestamp::new(1_700_000_000 * SECOND, -12 * 3600),
        Timestamp::new(1_700_000_000 * SECOND, 14 * 3600),
        Timestamp::new(253_402_300_800 * SECOND - 1, 0),
    ];
    for stamp in stamps {
        let text = stamp.to_rfc3339().unwrap();
        assert_eq!(Timestamp::from_rfc3339(&text), Some(stamp));
    }
}

#[test]
fn a_text_is_confirmed_by_what_it_reads_as() {
    let stamp = Timestamp::new(5, 60);
    assert_eq!(stamp.confirm("text".to_string(), Some((5, 60))), Some("text".to_string()));
    assert_eq!(stamp.confirm("text".to_string(), Some((5, 0))), None);
    assert_eq!(stamp.confirm("text".to_string(), Some((6, 60))), None);
    assert_eq!(stamp.confirm("text".to_string(), None), None);
}

#[test]
fn a_timestamp_is_made_of_what_was_read() {
    assert_eq!(Timestamp::from_pair(Some((7, -60))), Some(Timestamp::new(7, -60)));
    assert_eq!(Timestamp::from_pair(None), None);
}
