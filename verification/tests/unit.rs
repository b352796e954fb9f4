use prodash::unit::{self, human, Bytes, Duration, Human, Mode, Range, Throughput, Unit};
use std::mem::size_of;
use std::time;

#[test]
fn value_and_upper_bound_use_own_unit() {
    assert_eq!(
        unit::dynamic(Duration).display(40, Some(300), None).to_string(),
        "40s of 5m"
    );
}

#[test]
fn various_combinations() {
    let unit = unit::dynamic_and_mode(
        Human::new(
            {
                let mut f = human::Formatter::new();
                f.with_decimals(1);
                f
            },
            "objects",
        ),
        Mode::with_percentage(),
    );
    assert_eq!(
        unit.display(100_002, Some(7_500_000), None).to_string(),
        "100.0k/7.5M objects [1%]"
    );
    assert_eq!(unit.display(100_002, None, None).to_string(), "100.0k objects");
}

#[test]
fn value_and_upper_bound_with_percentage() {
    let unit = unit::dynamic_and_mode(Range::new("steps"), Mode::with_percentage());
    assert_eq!(unit.display(0, Some(3), None).to_string(), "1 of 3 steps [0%]");
    assert_eq!(unit.display(1, Some(3), None).to_string(), "2 of 3 steps [33%]");
    assert_eq!(unit.display(2, Some(3), None).to_string(), "3 of 3 steps [66%]");
}

#[test]
fn tests_value_and_upper_bound_use_own_unit() {
    assert_eq!(
        unit::dynamic_and_mode(Bytes, Mode::with_percentage())
            .display(1002, Some(10_000_000_000), None)
            .to_string(),
        "1.0KB/10.0GB [0%]"
    );
}

#[test]
fn just_value() {
    assert_eq!(unit::dynamic(Bytes).display(5540, None, None).to_string(), "5.5KB");
}

#[test]
fn display_current_value_with_upper_bound_percentage_before_value() {
    assert_eq!(
        unit::label_and_mode("items", Mode::with_percentage().show_before_value())
            .display(123, Some(400), None)
            .values()
            .to_string(),
        "[30%] 123/400"
    );
}

#[test]
fn display_current_value_with_upper_bound_percentage_after_unit() {
    assert_eq!(
        unit::label_and_mode("items", Mode::with_percentage())
            .display(123, Some(400), None)
            .unit()
            .to_string(),
        "items [30%]"
    );
}

#[test]
fn display_current_over_time_shows_throughput() {
    let unit = unit::label_and_mode("items", Mode::with_percentage().and_throughput());
    assert_eq!(
        unit.display(123, None, None).to_string(),
        "123 items",
        "from one measurement, there can be no throughput"
    );
    assert_eq!(
        unit.display(500, None, Some(Throughput::new(250, time::Duration::from_millis(500))))
            .to_string(),
        "500 items |250/500ms|",
        "sub-second intervals are displayed with millisecond precision"
    );
    assert_eq!(
        unit.display(700, None, Some(Throughput::new(500, time::Duration::from_secs(1))))
            .to_string(),
        "700 items |500/s|",
        "a '1' in the timespan is not displayed"
    );
    assert_eq!(
        unit.display(500, None, Some(Throughput::new(250, time::Duration::from_secs(30))))
            .to_string(),
        "500 items |250/30s|",
        "sub-minute intervals are displayed with second precision"
    );
    assert_eq!(
        unit.display(700, None, Some(Throughput::new(500, time::Duration::from_secs(60))))
            .to_string(),
        "700 items |500/m|",
        "it also knows minutes"
    );
    assert_eq!(
        unit.display(700, None, Some(Throughput::new(500, time::Duration::from_secs(90))))
            .to_string(),
        "700 items |500/1.5m|",
        "it uses fractions on the biggest possible unit"
    );
    assert_eq!(
        unit.display(500, None, Some(Throughput::new(250, time::Duration::from_secs(30 * 60))))
            .to_string(),
        "500 items |250/30m|",
        "sub-hour intervals are displayed with minute precision"
    );
    assert_eq!(
        unit.display(700, None, Some(Throughput::new(500, time::Duration::from_secs(60 * 60))))
            .to_string(),
        "700 items |500/h|",
        "it also knows hours"
    );
}

#[test]
fn display_current_value_no_upper_bound_shows_no_percentage() {
    assert_eq!(
        unit::label_and_mode("items", Mode::with_percentage())
            .display(123, None, None)
            .to_string(),
        "123 items"
    );
}

#[test]
fn display_current_value_with_upper_bound_shows_percentage() {
    assert_eq!(
        unit::label_and_mode("items", Mode::with_percentage())
            .display(123, Some(500), None)
            .to_string(),
        "123/500 items [24%]"
    );
    assert_eq!(
        unit::label_and_mode("items", Mode::with_percentage().show_before_value())
            .display(123, Some(500), None)
            .to_string(),
        "[24%] 123/500 items"
    );
}

#[test]
fn display_current_value_no_upper_bound() {
    assert_eq!(unit::label("items").display(123, None, None).to_string(), "123 items");
}

#[test]
fn display_current_value_with_upper_bound() {
    assert_eq!(
        unit::label("items").display(123, Some(500), None).to_string(),
        "123/500 items"
    );
}

#[test]
fn of_mode() {
    assert_eq!(size_of::<Mode>(), 3);
}

#[test]
fn of_unit() {
    assert_eq!(size_of::<Unit>(), 32);
}
