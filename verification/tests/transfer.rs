use mini_current_meter::currentlogs::{CurrentLog, CurrentRecord};
use mini_current_meter::transfer::{
    push_record_line, serialize_batch, ServerInfo, Transfer, CHUNK_RECORDS, SUCCESS_STATUS,
};

fn endpoint() -> ServerInfo {
    ServerInfo::new(
        "db.example:8086".to_string(),
        "SECRET".to_string(),
        "/api/v2/write?bucket=meter".to_string(),
        "power".to_string(),
        "ch1".to_string(),
    )
}

fn log_at(clock: u128) -> CurrentLog {
    CurrentLog {
        voltage: 12_000_000_000,
        current: 1_234_560_000,
        power: 14_814_720_000,
        clock,
        battery: 3_700_000_000,
    }
}

fn logs(first: u128, count: u128) -> Vec<CurrentLog> {
    (first..first + count).map(log_at).collect()
}

#[test]
fn server_info_keeps_each_text_in_its_place() {
    let info = endpoint();
    assert_eq!(info.server, "db.example:8086");
    assert_eq!(info.influxdb_api_key, "SECRET");
    assert_eq!(info.influxdb_api, "/api/v2/write?bucket=meter");
    assert_eq!(info.influxdb_measurement, "power");
    assert_eq!(info.influxdb_tag, "ch1");
}

#[test]
fn authorization_and_url() {
    let info = endpoint();
    assert_eq!(info.authorization(), "Token SECRET");
    assert_eq!(info.url(), "http://db.example:8086/api/v2/write?bucket=meter");
}

#[test]
fn line_of_one_record() {
    let mut out = String::new();
    push_record_line(&mut out, "power", "ch1", &log_at(1_700_000_000_000_000_000));
    assert_eq!(
        out,
        "power,tag=ch1 current=1.23456,voltage=12.00000,power=14.81472,bat=3.70 1700000000000000000\n"
    );
}

#[test]
fn line_with_negative_current_and_rounding() {
    let record = CurrentLog {
        voltage: 4_999_996_000,
        current: -12_345_678,
        power: 4_999,
        clock: 0,
        battery: 4_195_000_000,
    };
    let mut out = String::from("x\n");
    push_record_line(&mut out, "m", "t", &record);
    assert_eq!(out, "x\nm,tag=t current=-0.01235,voltage=5.00000,power=0.00000,bat=4.20 0\n");
}

#[test]
fn batch_holds_the_oldest_records_first() {
    let data = logs(1, 3);
    let (body, count) = serialize_batch("power", "ch2", &data);
    assert_eq!(count, 3);
    let lines: Vec<&str> = body.split_terminator('\n').collect();
    assert_eq!(lines.len(), 3);
    assert_eq!(lines[0], "power,tag=ch2 current=1.23456,voltage=12.00000,power=14.81472,bat=3.70 1");
    assert_eq!(lines[1], "power,tag=ch2 current=1.23456,voltage=12.00000,power=14.81472,bat=3.70 2");
    assert_eq!(lines[2], "power,tag=ch2 current=1.23456,voltage=12.00000,power=14.81472,bat=3.70 3");
    assert!(body.ends_with('\n'));
}

#[test]
fn batch_of_nothing_is_empty() {
    let (body, count) = serialize_batch("power", "ch1", &Vec::new());
    assert_eq!(count, 0);
    assert_eq!(body, "");
}

#[test]
fn new_agent_has_a_free_slot() {
    let agent = Transfer::new(endpoint());
    assert!(!agent.is_pending());
    assert_eq!(agent.pending_body(), None);
    assert_eq!(agent.server().influxdb_tag, "ch1");
}

#[test]
fn submit_serialises_and_marks_pending() {
    let mut agent = Transfer::new(endpoint());
    let data = logs(10, 2);
    assert_eq!(agent.set_transfer_data(&data), 2);
    assert!(agent.is_pending());
    assert_eq!(
        agent.pending_body(),
        Some(
            "power,tag=ch1 current=1.23456,voltage=12.00000,power=14.81472,bat=3.70 10\n\
             power,tag=ch1 current=1.23456,voltage=12.00000,power=14.81472,bat=3.70 11\n"
                .to_string()
        )
    );
}

#[test]
fn submit_of_nothing_leaves_the_slot_free() {
    let mut agent = Transfer::new(endpoint());
    assert_eq!(agent.set_transfer_data(&Vec::new()), 0);
    assert!(!agent.is_pending());
    assert_eq!(agent.pending_body(), None);
}

#[test]
fn second_submit_while_pending_returns_zero_and_keeps_the_body() {
    let mut agent = Transfer::new(endpoint());
    assert_eq!(agent.set_transfer_data(&logs(1, 3)), 3);
    let first = agent.pending_body();
    assert_eq!(agent.set_transfer_data(&logs(100, 5)), 0);
    assert!(agent.is_pending());
    assert_eq!(agent.pending_body(), first);
    assert_eq!(agent.set_transfer_data(&logs(1, 3)), 0);
    assert_eq!(agent.pending_body(), first);
}

#[test]
fn submit_over_two_hundred_records_takes_128_then_72() {
    assert_eq!(CHUNK_RECORDS, 128);
    let mut agent = Transfer::new(endpoint());
    let mut buffer = CurrentRecord::new();
    for log in logs(1, 200) {
        buffer.record(log);
    }
    let count = agent.set_transfer_data(buffer.get_all_data());
    assert_eq!(count, 128);
    let body = agent.pending_body().expect("a body is pending");
    let lines: Vec<&str> = body.split_terminator('\n').collect();
    assert_eq!(lines.len(), 128);
    assert!(lines[0].ends_with(" 1"));
    assert!(lines[127].ends_with(" 128"));
    buffer.remove_data(count);
    assert_eq!(buffer.get_size(), 72);

    assert_eq!(agent.set_transfer_data(buffer.get_all_data()), 0);
    assert!(agent.finish_delivery(Some(SUCCESS_STATUS)));

    let count = agent.set_transfer_data(buffer.get_all_data());
    assert_eq!(count, 72);
    let body = agent.pending_body().expect("a body is pending");
    let lines: Vec<&str> = body.split_terminator('\n').collect();
    assert_eq!(lines.len(), 72);
    assert!(lines[0].ends_with(" 129"));
    assert!(lines[71].ends_with(" 200"));
    buffer.remove_data(count);
    assert_eq!(buffer.get_size(), 0);
}

#[test]
fn exactly_one_chunk_is_taken_whole() {
    let mut agent = Transfer::new(endpoint());
    assert_eq!(agent.set_transfer_data(&logs(1, 128)), 128);
    agent.finish_delivery(Some(204));
    assert_eq!(agent.set_transfer_data(&logs(1, 129)), 128);
    agent.finish_delivery(Some(204));
    assert_eq!(agent.set_transfer_data(&logs(1, 127)), 127);
}

#[test]
fn only_the_success_status_counts_as_delivered() {
    assert_eq!(SUCCESS_STATUS, 204);
    for (response, delivered) in
        [(Some(204u16), true), (Some(200), false), (Some(401), false), (Some(500), false), (None, false)]
    {
        let mut agent = Transfer::new(endpoint());
        assert_eq!(agent.set_transfer_data(&logs(1, 2)), 2);
        assert_eq!(agent.finish_delivery(response), delivered);
        assert!(!agent.is_pending());
        assert_eq!(agent.pending_body(), None);
        assert_eq!(agent.set_transfer_data(&logs(3, 1)), 1);
        assert_eq!(
            agent.pending_body(),
            Some("power,tag=ch1 current=1.23456,voltage=12.00000,power=14.81472,bat=3.70 3\n".to_string())
        );
    }
}

#[test]
fn finish_without_a_pending_body_keeps_the_slot_free() {
    let mut agent = Transfer::new(endpoint());
    assert!(agent.finish_delivery(Some(204)));
    assert!(!agent.is_pending());
    assert!(!agent.finish_delivery(None));
    assert!(!agent.is_pending());
}

#[test]
fn new_tag_shows_in_later_bodies_only() {
    let mut agent = Transfer::new(endpoint());
    assert_eq!(agent.set_transfer_data(&logs(1, 1)), 1);
    let first = agent.pending_body();
    agent.set_tag("ch3".to_string());
    assert_eq!(agent.server().influxdb_tag, "ch3");
    assert_eq!(agent.server().influxdb_measurement, "power");
    assert_eq!(agent.pending_body(), first);
    assert!(agent.is_pending());
    agent.finish_delivery(Some(204));
    assert_eq!(agent.set_transfer_data(&logs(2, 1)), 1);
    assert_eq!(
        agent.pending_body(),
        Some("power,tag=ch3 current=1.23456,voltage=12.00000,power=14.81472,bat=3.70 2\n".to_string())
    );
}
