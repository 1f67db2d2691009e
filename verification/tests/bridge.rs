use cargo_ble::bridge::{
    bridge_reply, control_follow_up, telegram_is_baudrate_change, BridgeConn, BridgeState,
    ForwardDecision,
};
use cargo_ble::protocol::control_response_matches;
use cargo_ble::sequence::ExchangeOutcome;
use cargo_ble::telegram::{Command, Telegram};

const SAMPLE_FRAME: [u8; 11] = [
    0x0E, 0x92, 0xFF, 0xFF, 0xFF, 0xFF, 0x04, 0x01, 0xCC, 0xB1, 0x21,
];

fn baudrate_telegram(data: Vec<u8>) -> Telegram {
    Telegram {
        device_type: 3730,
        serial_number: 0xFFFFFFFF,
        command: Command::Write,
        subcommand: 210,
        data,
    }
}

#[test]
fn client_message_round_trips_through_the_bridge() {
    // A client sends [0x00, 0x0B] and then an 11-byte valid frame; the
    // decoded response's raw bytes go back to the client unmodified.
    let mut conn = BridgeConn::new();
    assert_eq!(conn.state(), BridgeState::AwaitingLength);

    let len = conn.on_length_read(0x00, 0x0B);
    assert_eq!(len, 11);
    assert_eq!(conn.state(), BridgeState::AwaitingBody(11));

    let decision = conn.on_body_read(&SAMPLE_FRAME);
    assert_eq!(conn.state(), BridgeState::AwaitingLength);
    match decision {
        ForwardDecision::Forward(follow) => assert!(follow.is_none()),
        ForwardDecision::Skip(e) => panic!("valid frame skipped: {e:?}"),
    }

    // The device answers with a valid frame of its own.
    let response = baudrate_telegram(vec![]).to_bytes().unwrap();
    let reply = bridge_reply(ExchangeOutcome::Received(response.clone()));
    assert_eq!(reply, Some(response));
}

#[test]
fn read_failure_closes_only_that_connection() {
    // A length prefix of 0xFFFF followed by a short stream kills the
    // connection; a fresh connection afterwards is unaffected.
    let mut conn = BridgeConn::new();
    let len = conn.on_length_read(0xFF, 0xFF);
    assert_eq!(len, 0xFFFF);
    conn.on_read_failure();
    assert_eq!(conn.state(), BridgeState::Closed);

    let mut next_conn = BridgeConn::new();
    assert_eq!(next_conn.state(), BridgeState::AwaitingLength);
    next_conn.on_length_read(0x00, 0x0B);
    match next_conn.on_body_read(&SAMPLE_FRAME) {
        ForwardDecision::Forward(follow) => assert!(follow.is_none()),
        ForwardDecision::Skip(e) => panic!("valid frame skipped: {e:?}"),
    }
}

#[test]
fn undecodable_body_is_skipped_not_fatal() {
    let mut conn = BridgeConn::new();
    conn.on_length_read(0x00, 0x0B);
    let mut corrupted = SAMPLE_FRAME;
    corrupted[0] ^= 0x01;
    match conn.on_body_read(&corrupted) {
        ForwardDecision::Forward(_) => panic!("corrupted frame forwarded"),
        ForwardDecision::Skip(_) => {}
    }
    // The connection keeps serving.
    assert_eq!(conn.state(), BridgeState::AwaitingLength);
}

#[test]
fn no_reply_without_a_decodable_notification() {
    assert_eq!(bridge_reply(ExchangeOutcome::TimedOut), None);
    assert_eq!(bridge_reply(ExchangeOutcome::StreamEnded), None);
    assert_eq!(
        bridge_reply(ExchangeOutcome::Received(vec![1, 2, 3, 4, 5, 6, 7, 8, 9])),
        None
    );
}

#[test]
fn baudrate_change_triggers_control_follow_up() {
    // Inbound Write/210 with data [0x00, 0x00, 0x25, 0x80]: the byte-order
    // flip gives [0x80, 0x25, 0x00, 0x00], i.e. the rate 0x2580 = 9600,
    // whose expected response code is 0x006803.
    let telegram = baudrate_telegram(vec![0x00, 0x00, 0x25, 0x80]);
    assert!(telegram_is_baudrate_change(&telegram));

    let follow = control_follow_up(&telegram).expect("no control follow-up");
    assert_eq!(follow.rate, 9600);
    // The control frame carries the flipped bytes behind the Baudrate type.
    assert_eq!(follow.frame.len(), 7);
    assert_eq!(follow.frame[0], 2);
    assert_eq!(&follow.frame[1..5], &[0x80, 0x25, 0x00, 0x00]);

    // Success is exactly the table's code for the requested rate.
    assert!(control_response_matches(
        follow.rate,
        &vec![0x03, 0x68, 0x00, 0x00]
    ));
    assert!(!control_response_matches(
        follow.rate,
        &vec![0x05, 0xD0, 0x00, 0x00]
    ));
}

#[test]
fn baudrate_4800_round_trip() {
    // 4800 = 0x12C0 arrives big-endian as [0x00, 0x00, 0x12, 0xC0]; its
    // control exchange succeeds exactly on the table value 0x00D005.
    let telegram = baudrate_telegram(vec![0x00, 0x00, 0x12, 0xC0]);
    let follow = control_follow_up(&telegram).expect("no control follow-up");
    assert_eq!(follow.rate, 4800);
    assert!(control_response_matches(
        follow.rate,
        &vec![0x05, 0xD0, 0x00, 0x00]
    ));
    assert!(!control_response_matches(follow.rate, &vec![0x05, 0xD0]));
}

#[test]
fn baudrate_change_via_full_bridge_frame() {
    let telegram = baudrate_telegram(vec![0x00, 0x00, 0x12, 0xC0]);
    let frame = telegram.to_bytes().unwrap();
    let mut conn = BridgeConn::new();
    let len = conn.on_length_read(0x00, frame.len() as u8);
    assert_eq!(len as usize, frame.len());
    match conn.on_body_read(&frame) {
        ForwardDecision::Forward(Some(follow)) => assert_eq!(follow.rate, 4800),
        ForwardDecision::Forward(None) => panic!("control follow-up missing"),
        ForwardDecision::Skip(e) => panic!("valid frame skipped: {e:?}"),
    }
}

#[test]
fn no_follow_up_for_other_telegrams() {
    // A read, a different subcommand, or data that is not four bytes.
    let mut telegram = baudrate_telegram(vec![0x00, 0x00, 0x12, 0xC0]);
    telegram.command = Command::Read;
    assert!(!telegram_is_baudrate_change(&telegram));
    assert!(control_follow_up(&telegram).is_none());

    let telegram = Telegram { subcommand: 209, ..baudrate_telegram(vec![0, 0, 0x12, 0xC0]) };
    assert!(control_follow_up(&telegram).is_none());

    let telegram = baudrate_telegram(vec![0x12, 0xC0]);
    assert!(telegram_is_baudrate_change(&telegram));
    assert!(control_follow_up(&telegram).is_none());
}
