use timeblocks::timeofday::TimeOfDay;

/// 正常情况测试
#[test]
fn new_valid_and_accessors_and_display() {
    // 最小边界：00:00
    let t = TimeOfDay::new(0, 0).expect("00:00 应该合法");
    assert_eq!(t.hour(), 0);
    assert_eq!(t.minute(), 0);
    assert_eq!(t.render(), "00:00");

    // 最大边界：23:59
    let t2 = TimeOfDay::new(23, 59).expect("23:59 应该合法");
    assert_eq!(t2.hour(), 23);
    assert_eq!(t2.minute(), 59);
    assert_eq!(t2.render(), "23:59");
}

/// 非法输入测试
#[test]
fn new_invalid() {
    assert!(TimeOfDay::new(24, 0).is_none(), "24:00 不合法");
    assert!(TimeOfDay::new(0, 60).is_none(), "00:60 不合法");
    assert!(TimeOfDay::new(100, 10).is_none(), "100:10 不合法");
}

/// 转换测试
#[test]
fn from_and_tryfrom() {
    // 01:30 -> 90 分钟
    let t = TimeOfDay::new(1, 30).unwrap();
    let minutes: u16 = t.to_minutes();
    assert_eq!(minutes, 90, "01:30 应该是 90 分钟");

    // 90 -> 01:30
    let t2 = TimeOfDay::from_minutes(90).expect("90 分钟应该合法");
    assert_eq!(t2.hour(), 1);
    assert_eq!(t2.minute(), 30);

    // 非法边界
    assert!(TimeOfDay::from_minutes(24 * 60).is_err(), "1440 不合法");
    assert!(TimeOfDay::from_minutes(24 * 60 + 1).is_err(), "1441 不合法");

    // 合法边界：1439 -> 23:59
    let last = TimeOfDay::from_minutes(24 * 60 - 1).expect("1439 合法");
    assert_eq!(last.hour(), 23);
    assert_eq!(last.minute(), 59);
}

/// 排序测试
#[test]
fn ordering_and_equality() {
    let mut v = vec![
        TimeOfDay::new(12, 0).unwrap(),
        TimeOfDay::new(1, 30).unwrap(),
        TimeOfDay::new(0, 45).unwrap(),
        TimeOfDay::new(23, 59).unwrap(),
    ];
    // 排序从早到晚
    v.sort(); // 使用 Ord
    let expected = vec![
        TimeOfDay::new(0, 45).unwrap(),
        TimeOfDay::new(1, 30).unwrap(),
        TimeOfDay::new(12, 0).unwrap(),
        TimeOfDay::new(23, 59).unwrap(),
    ];
    assert_eq!(v, expected, "排序应按照从早到晚");
    // 顺序检查
    assert!(expected[0] < expected[1]);
    assert!(expected[2] < expected[3]);
    // 相等性检查
    assert_eq!(TimeOfDay::new(12, 0), TimeOfDay::new(12, 0));
}

/// Every valid (hour, minute) pair survives the round trip through the
/// factory, the accessors and the minute-count conversions.
#[test]
fn round_trip_all_valid_pairs() {
    for hour in 0u16..24 {
        for minute in 0u16..60 {
            let t = TimeOfDay::new(hour, minute).expect("in-range pair must be accepted");
            assert_eq!(t.hour(), hour);
            assert_eq!(t.minute(), minute);
            let back = TimeOfDay::from_minutes(t.to_minutes()).expect("stored count is in range");
            assert_eq!(back, t);
        }
    }
}

/// The last minute of the day is accepted; the first counts past it are not.
#[test]
fn boundary_acceptance_and_rejection() {
    assert!(TimeOfDay::new(23, 59).is_some());
    assert!(TimeOfDay::new(24, 0).is_none());
    assert!(TimeOfDay::new(0, 60).is_none());
}

/// Single-digit hours and minutes are zero-padded in the rendered text.
#[test]
fn render_zero_pads() {
    assert_eq!(TimeOfDay::new(1, 30).unwrap().render(), "01:30");
    assert_eq!(TimeOfDay::new(9, 5).unwrap().render(), "09:05");
    assert_eq!(TimeOfDay::new(12, 0).unwrap().render(), "12:00");
}
