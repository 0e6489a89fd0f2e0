//! Smoke tests of the host library over a bare mock link
//!
//! The mock stands in for the serial connection: what the host library
//! writes can be popped back out and decoded, and frames a test stages are
//! what the host library receives next.

use lpc845_test_stand::assistant::Assistant;
use lpc845_test_stand::codec::decode_host_message;
use lpc845_test_stand::conn::Conn;
use lpc845_test_stand::messages::{HostToAssistant, OutputPin};
use lpc845_test_stand::mock::Mock;
use lpc845_test_stand::pin::{Level, SetLevel};
use lpc845_test_stand::test_stand::TestStand;

#[test]
fn make_instance() {
    let mock = Mock::new();
    let assistant_conn = Conn::from_mock(mock);
    let test_stand = TestStand::from_assistant(Assistant::new(assistant_conn, 40));

    assert!(test_stand.assistant.real_assistant.conn.mock.is_totally_empty());
}

#[test]
fn disable_cts() {
    let mock = Mock::new();
    let conn = Conn::from_mock(mock);
    let assistant = Assistant::new(conn, 40);
    let mut test_stand = TestStand::from_assistant(assistant);

    test_stand.assistant.disable_cts().unwrap();

    let msg = test_stand
        .assistant
        .real_assistant
        .conn
        .mock
        .pop_host_lib_data()
        .unwrap();
    let deser_msg = decode_host_message(&msg).unwrap();

    assert_eq!(msg, vec![1, 1, 0]);
    assert_eq!(
        deser_msg,
        HostToAssistant::SetPin(SetLevel {
            pin: OutputPin::Cts,
            level: Level::High,
        })
    );
    assert!(test_stand.assistant.real_assistant.conn.mock.is_totally_empty());
}

#[test]
fn partial_reads_keep_the_remainder() {
    let mut mock = Mock::new();
    mock.push_fake_ta_data(&vec![1, 2, 3, 4, 5]);

    assert_eq!(mock.read(2), vec![1, 2]);
    assert_eq!(mock.read(2), vec![3, 4]);
    assert_eq!(mock.read(2), vec![5]);
    assert_eq!(mock.read(2), Vec::<u8>::new());
    assert!(mock.is_totally_empty());
}

#[test]
fn writes_are_popped_newest_first() {
    let mut mock = Mock::new();

    assert_eq!(mock.write(&vec![1, 2]), 2);
    assert_eq!(mock.write(&vec![3]), 1);
    assert_eq!(mock.pop_host_lib_data(), Some(vec![3]));
    assert_eq!(mock.pop_host_lib_data(), Some(vec![1, 2]));
    assert_eq!(mock.pop_host_lib_data(), None);
}
