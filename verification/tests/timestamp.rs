use slashbot::timestamp::{
    Timestamp, EARLIEST_SECOND, ID_EPOCH_MILLIS, LATEST_SECOND, NANOS_PER_SECOND,
};

#[test]
fn new_keeps_to_four_digit_years() {
    assert!(Timestamp::new(0, 0).is_some());
    assert!(Timestamp::new(EARLIEST_SECOND, 0).is_some());
    assert!(Timestamp::new(LATEST_SECOND, NANOS_PER_SECOND - 1).is_some());
    assert!(Timestamp::new(EARLIEST_SECOND - 1, 0).is_none());
    assert!(Timestamp::new(LATEST_SECOND + 1, 0).is_none());
    assert!(Timestamp::new(0, NANOS_PER_SECOND).is_none());
    assert!(Timestamp::new(i64::MIN, 0).is_none());
    assert!(Timestamp::new(i64::MAX, u32::MAX).is_none());
}

#[test]
fn new_keeps_both_numbers() {
    let t = Timestamp::new(-5, 17).unwrap();
    assert_eq!(t.seconds(), -5);
    assert_eq!(t.nanos(), 17);
}

#[test]
fn bounds_are_the_first_and_last_second_of_four_digit_years() {
    let first = Timestamp::new(EARLIEST_SECOND, 0).unwrap();
    assert_eq!(first.to_rfc3339(), "0000-01-01T00:00:00Z");
    let last = Timestamp::new(LATEST_SECOND, 999_999_999).unwrap();
    assert_eq!(last.to_rfc3339(), "9999-12-31T23:59:59.999999999Z");
}

#[test]
fn rfc3339_of_whole_and_broken_seconds() {
    assert_eq!(Timestamp::new(0, 0).unwrap().to_rfc3339(), "1970-01-01T00:00:00Z");
    assert_eq!(Timestamp::new(-1, 0).unwrap().to_rfc3339(), "1969-12-31T23:59:59Z");
    assert_eq!(Timestamp::new(1_462_015_105, 0).unwrap().to_rfc3339(), "2016-04-30T11:18:25Z");
    assert_eq!(
        Timestamp::new(1_462_015_105, 796_000_000).unwrap().to_rfc3339(),
        "2016-04-30T11:18:25.796Z"
    );
    assert_eq!(
        Timestamp::new(1_462_015_105, 1).unwrap().to_rfc3339(),
        "2016-04-30T11:18:25.000000001Z"
    );
    assert_eq!(
        Timestamp::new(1_462_015_105, 500_000_000).unwrap().to_rfc3339(),
        "2016-04-30T11:18:25.5Z"
    );
}

#[test]
fn creation_time_of_an_id() {
    let t = Timestamp::created_at(175928847299117063);
    assert_eq!(t.seconds(), 1_462_015_105);
    assert_eq!(t.nanos(), 796_000_000);
    assert_eq!(t.to_rfc3339(), "2016-04-30T11:18:25.796Z");
}

#[test]
fn creation_time_counts_from_the_id_epoch() {
    let t = Timestamp::created_at(0);
    assert_eq!(t.seconds() as u64 * 1000, ID_EPOCH_MILLIS);
    assert_eq!(t.nanos(), 0);
    assert_eq!(t.to_rfc3339(), "2015-01-01T00:00:00Z");
    // the low 22 bits do not count
    assert_eq!(Timestamp::created_at((1 << 22) - 1), t);
    let next = Timestamp::created_at(1 << 22);
    assert_eq!(next.seconds(), t.seconds());
    assert_eq!(next.nanos(), 1_000_000);
    let second = Timestamp::created_at(1000 << 22);
    assert_eq!(second.seconds(), t.seconds() + 1);
    assert_eq!(second.nanos(), 0);
}

#[test]
fn creation_time_of_the_largest_id() {
    let t = Timestamp::created_at(u64::MAX);
    let millis = (u64::MAX >> 22) + ID_EPOCH_MILLIS;
    assert_eq!(millis, 5_818_116_911_103);
    assert_eq!(t.seconds() as u64, millis / 1000);
    assert_eq!(t.nanos() as u64, (millis % 1000) * 1_000_000);
    assert_eq!(t.to_rfc3339(), "2154-05-15T07:35:11.103Z");
}
