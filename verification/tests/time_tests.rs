use api_gateway::services::order_service::OrderService;
use api_gateway::time::{Timestamp, UtcDateTime};

#[test]
fn timestamp_converts_to_calendar_datetime() {
    let moment = OrderService::timestamp_to_datetime(Timestamp { seconds: 1700000000, nanos: 0 });
    assert_eq!(
        moment,
        Some(UtcDateTime {
            year: 2023,
            month: 11,
            day: 14,
            hour: 22,
            minute: 13,
            second: 20,
            nanosecond: 0,
        })
    );
}

#[test]
fn timestamp_out_of_range_converts_to_none() {
    assert_eq!(OrderService::timestamp_to_datetime(Timestamp { seconds: i64::MAX, nanos: 0 }), None);
    assert_eq!(OrderService::timestamp_to_datetime(Timestamp { seconds: i64::MIN, nanos: 0 }), None);
    assert_eq!(OrderService::timestamp_to_datetime(Timestamp { seconds: 0, nanos: -1 }), None);
    assert_eq!(
        OrderService::timestamp_to_datetime(Timestamp { seconds: 0, nanos: 2_000_000_000 }),
        None
    );
}

#[test]
fn timestamp_range_ends_where_the_calendar_ends() {
    let last = OrderService::timestamp_to_datetime(Timestamp { seconds: 8_210_266_876_799, nanos: 0 });
    assert_eq!(
        last,
        Some(UtcDateTime {
            year: 262142,
            month: 12,
            day: 31,
            hour: 23,
            minute: 59,
            second: 59,
            nanosecond: 0,
        })
    );
    assert_eq!(
        OrderService::timestamp_to_datetime(Timestamp { seconds: 8_210_266_876_800, nanos: 0 }),
        None
    );
    let first =
        OrderService::timestamp_to_datetime(Timestamp { seconds: -8_334_601_228_800, nanos: 0 });
    assert_eq!(
        first,
        Some(UtcDateTime {
            year: -262143,
            month: 1,
            day: 1,
            hour: 0,
            minute: 0,
            second: 0,
            nanosecond: 0,
        })
    );
    assert_eq!(
        OrderService::timestamp_to_datetime(Timestamp { seconds: -8_334_601_228_801, nanos: 0 }),
        None
    );
}

#[test]
fn leap_second_only_in_last_second_of_a_minute() {
    let leap = OrderService::timestamp_to_datetime(Timestamp { seconds: 59, nanos: 1_500_000_000 });
    assert_eq!(
        leap,
        Some(UtcDateTime {
            year: 1970,
            month: 1,
            day: 1,
            hour: 0,
            minute: 0,
            second: 59,
            nanosecond: 1_500_000_000,
        })
    );
    assert_eq!(
        OrderService::timestamp_to_datetime(Timestamp { seconds: 58, nanos: 1_500_000_000 }),
        None
    );
    let before_epoch =
        OrderService::timestamp_to_datetime(Timestamp { seconds: -1, nanos: 1_000_000_000 });
    assert!(before_epoch.is_some());
}
