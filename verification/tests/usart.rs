//! Test suite for the USART remote-control API
//!
//! These cases run against the in-process assistant model wired up by
//! `TestStand::new`, standing in for the hardware test stand.

use lpc845_test_stand::test_stand::TestStand;

#[test]
fn it_should_send_messages() {
    let mut test_stand = TestStand::new().unwrap();

    let message = b"Hello, world!";
    test_stand.target_send_usart(&message.to_vec()).unwrap();

    let timeout_ms = 50;
    let received = test_stand
        .assistant
        .receive_from_target_usart(&message.to_vec(), timeout_ms)
        .unwrap();

    assert_eq!(received, message);
}

#[test]
fn it_should_receive_messages() {
    let mut test_stand = TestStand::new().unwrap();

    let message = b"Hello, world!";
    test_stand
        .assistant
        .send_to_target_usart(&message.to_vec())
        .unwrap();

    let received = test_stand.target_wait_for_usart_rx(&message.to_vec()).unwrap();

    assert_eq!(received, message);
}

#[test]
fn it_should_send_messages_using_dma() {
    let mut test_stand = TestStand::new().unwrap();

    let message = b"Hello, world!";
    test_stand.target_send_usart(&message.to_vec()).unwrap();

    let timeout_ms = 50;
    let received = test_stand
        .assistant
        .receive_from_target_usart(&message.to_vec(), timeout_ms)
        .unwrap();

    assert_eq!(received, message);
}

#[test]
fn it_should_receive_messages_via_dma() {
    let mut test_stand = TestStand::new().unwrap();

    let message = b"Hello, world!";
    test_stand
        .assistant
        .send_to_target_usart_dma(&message.to_vec())
        .unwrap();

    let received = test_stand
        .target_wait_for_usart_rx_dma(&message.to_vec())
        .unwrap();

    assert_eq!(received, message);
}
