use gwp::temporal::{Date, Duration, LocalDateTime, LocalTime, ZonedDateTime, ZonedTime};

fn round_trip_date(d: Date) {
    let p = d.to_wire();
    let back = Date::from_wire(p);
    assert_eq!(d, back);
}

fn round_trip_local_time(t: LocalTime) {
    let p = t.to_wire();
    let back = LocalTime::from_wire(p);
    assert_eq!(t, back);
}

#[test]
fn date_round_trip() {
    round_trip_date(Date {
        year: 2026,
        month: 2,
        day: 13,
    });
    round_trip_date(Date {
        year: -500,
        month: 1,
        day: 1,
    });
}

#[test]
fn local_time_round_trip() {
    round_trip_local_time(LocalTime {
        hour: 14,
        minute: 30,
        second: 45,
        nanosecond: 123_456_789,
    });
}

#[test]
fn zoned_time_round_trip() {
    let t = ZonedTime {
        time: LocalTime {
            hour: 10,
            minute: 0,
            second: 0,
            nanosecond: 0,
        },
        offset_minutes: 60,
    };
    let p = t.to_wire();
    let back = ZonedTime::from_wire(p);
    assert_eq!(t, back);
}

#[test]
fn local_datetime_round_trip() {
    let dt = LocalDateTime {
        date: Date {
            year: 2026,
            month: 2,
            day: 13,
        },
        time: LocalTime {
            hour: 14,
            minute: 30,
            second: 0,
            nanosecond: 0,
        },
    };
    let p = dt.to_wire();
    let back = LocalDateTime::from_wire(p);
    assert_eq!(dt, back);
}

#[test]
fn zoned_datetime_round_trip() {
    let dt = ZonedDateTime {
        date: Date {
            year: 2026,
            month: 2,
            day: 13,
        },
        time: LocalTime {
            hour: 14,
            minute: 30,
            second: 0,
            nanosecond: 0,
        },
        offset_minutes: -300,
    };
    let p = dt.to_wire();
    let back = ZonedDateTime::from_wire(p);
    assert_eq!(dt, back);
}

#[test]
fn duration_round_trip() {
    let d = Duration {
        months: 14,
        nanoseconds: 86_400_000_000_000,
    };
    let p = d.to_wire();
    let back = Duration::from_wire(p);
    assert_eq!(d, back);
}
