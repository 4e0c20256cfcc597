use mini_current_meter::currentlogs::{CurrentLog, CurrentRecord};

fn log_at(clock: u128) -> CurrentLog {
    CurrentLog { voltage: 5_000_000_000, current: 100_000_000, power: 500_000_000, clock, battery: 3_900_000_000 }
}

#[test]
fn default_record_is_all_zero() {
    let log = CurrentLog::default();
    assert_eq!(log, CurrentLog { voltage: 0, current: 0, power: 0, clock: 0, battery: 0 });
}

#[test]
fn new_buffer_is_empty() {
    let buffer = CurrentRecord::new();
    assert_eq!(buffer.get_size(), 0);
    assert!(buffer.get_all_data().is_empty());
}

#[test]
fn records_come_out_in_capture_order() {
    let mut buffer = CurrentRecord::new();
    for clock in 1..=5u128 {
        buffer.record(log_at(clock));
    }
    assert_eq!(buffer.get_size(), 5);
    let clocks: Vec<u128> = buffer.get_all_data().iter().map(|log| log.clock).collect();
    assert_eq!(clocks, vec![1, 2, 3, 4, 5]);
}

#[test]
fn remove_takes_the_oldest_records() {
    let mut buffer = CurrentRecord::new();
    for clock in 1..=5u128 {
        buffer.record(log_at(clock));
    }
    buffer.remove_data(2);
    assert_eq!(buffer.get_size(), 3);
    let clocks: Vec<u128> = buffer.get_all_data().iter().map(|log| log.clock).collect();
    assert_eq!(clocks, vec![3, 4, 5]);
    buffer.remove_data(0);
    assert_eq!(buffer.get_size(), 3);
}

#[test]
fn remove_beyond_size_empties_without_error() {
    let mut buffer = CurrentRecord::new();
    for clock in 1..=3u128 {
        buffer.record(log_at(clock));
    }
    buffer.remove_data(4);
    assert_eq!(buffer.get_size(), 0);
    buffer.remove_data(usize::MAX);
    assert_eq!(buffer.get_size(), 0);
    buffer.record(log_at(9));
    assert_eq!(buffer.get_all_data()[0].clock, 9);
}

#[test]
fn size_is_appended_less_removed() {
    let mut buffer = CurrentRecord::new();
    let mut appended: usize = 0;
    let mut removed: usize = 0;
    let asks: [usize; 8] = [0, 1, 3, 0, 7, 2, 50, 1];
    let mut clock: u128 = 0;
    for (round, ask) in asks.iter().enumerate() {
        for _ in 0..(round + 2) {
            clock += 1;
            buffer.record(log_at(clock));
            appended += 1;
        }
        let before = buffer.get_size();
        buffer.remove_data(*ask);
        removed += before - buffer.get_size();
        assert_eq!(before - buffer.get_size(), (*ask).min(before));
        assert_eq!(buffer.get_size(), appended - removed);
    }
    assert_eq!(appended, 44);
    assert_eq!(removed, 36);
    assert_eq!(buffer.get_size(), 8);
}

#[test]
fn clear_empties_the_buffer() {
    let mut buffer = CurrentRecord::new();
    buffer.record(log_at(1));
    buffer.record(log_at(2));
    buffer.clear();
    assert_eq!(buffer.get_size(), 0);
}

#[test]
fn dump_lists_the_records_under_a_heading() {
    let mut buffer = CurrentRecord::new();
    assert_eq!(buffer.dump(), vec!["time,voltage,current,power,battery".to_string()]);
    buffer.record(log_at(1_700_000_000_000_000_000));
    buffer.record(CurrentLog { voltage: 1, current: -78_125, power: 0, clock: 7, battery: 4_200_000_000 });
    assert_eq!(
        buffer.dump(),
        vec![
            "time,voltage,current,power,battery".to_string(),
            "1700000000000000000,5.000000000,0.100000000,0.500000000,3.900000000".to_string(),
            "7,0.000000001,-0.000078125,0.000000000,4.200000000".to_string(),
        ]
    );
}
