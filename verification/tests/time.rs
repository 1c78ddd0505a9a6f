use rt_core::data::Resolution;
use rt_core::rtengine::RunMode;
use rt_core::time::TimeSync;

#[test]
fn test_update_time_backtest() {
    // Arrange
    let mut time = TimeSync::new(1050, Resolution::Second);

    let expected = 2000;

    // Act
    time.update_time(RunMode::BackTest);

    let result = time.get_time();

    // Assert
    assert_eq!(result, expected)
}

#[test]
fn a_new_clock_reads_its_start_time() {
    let time = TimeSync::new(1050, Resolution::Second);
    assert_eq!(time.get_time(), 1050);
    assert_eq!(time.period_start(), 50);
}

#[test]
fn later_advances_add_one_step_each() {
    let mut time = TimeSync::new(1050, Resolution::Second);
    time.update_time(RunMode::BackTest);
    time.update_time(RunMode::BackTest);
    assert_eq!(time.get_time(), 3000);
    time.update_time_backtest();
    assert_eq!(time.get_time(), 4000);
    assert_eq!(time.period_start(), 3000);
}

#[test]
fn a_start_on_a_boundary_is_not_moved_by_quantization() {
    let mut time = TimeSync::new(120000, Resolution::Minute);
    time.quantize_time();
    assert_eq!(time.get_time(), 120000);
    time.update_time(RunMode::BackTest);
    assert_eq!(time.get_time(), 180000);
}

#[test]
fn quantization_floors_a_time_before_the_epoch() {
    let mut time = TimeSync::new(-1050, Resolution::Second);
    time.quantize_time();
    assert_eq!(time.get_time(), -2000);
}

#[test]
fn only_a_back_test_moves_the_clock() {
    let mut time = TimeSync::new(1050, Resolution::Second);
    time.update_time(RunMode::LiveTrade);
    time.update_time(RunMode::PaperTrade);
    time.update_time(RunMode::UnitTest);
    assert_eq!(time.get_time(), 1050);
}

#[test]
fn a_tick_clock_stands_still() {
    let mut time = TimeSync::new(1050, Resolution::Tick);
    time.update_time(RunMode::BackTest);
    assert_eq!(time.get_time(), 1050);
    assert_eq!(time.period_start(), 1050);
}

#[test]
fn every_resolution_has_its_step() {
    assert_eq!(Resolution::Tick.millis(), 0);
    assert_eq!(Resolution::Second.millis(), 1000);
    assert_eq!(Resolution::Minute.millis(), 60000);
    assert_eq!(Resolution::Hour.millis(), 3600000);
    assert_eq!(Resolution::Day.millis(), 86400000);
    assert_eq!(Resolution::Week.millis(), 604800000);
}

#[test]
fn the_clock_wraps_at_the_end_of_the_range() {
    let mut time = TimeSync::new(i64::MAX, Resolution::Second);
    time.update_time(RunMode::BackTest);
    assert_eq!(time.get_time(), (i64::MAX - 807).wrapping_add(1000));
}

#[test]
fn a_day_clock_started_at_midnight_steps_by_days() {
    let mut time = TimeSync::new(1649030400000, Resolution::Day);
    time.update_time(RunMode::BackTest);
    assert_eq!(time.get_time(), 1649116800000);
    assert_eq!(time.period_start(), 1649030400000);
}
