//! Tests of the stated properties: codec round trips, ownership, the
//! exclusive-access guard, dispatch behavior, and the measurement fold.

use lpc845_test_stand::assistant::{
    fold_gpio_period, Assistant, AssistantError, AssistantPinOperationError,
    AssistantUsartWaitError, GpioPeriodMeasurement,
};
use lpc845_test_stand::bounded::{reading_map_get, reading_map_new, EventQueue, PinMeasurementEvent};
use lpc845_test_stand::codec::{
    decode_assistant_message, decode_host_message, encode_assistant_message, encode_host_message,
};
use lpc845_test_stand::conn::{Conn, ConnReceiveError};
use lpc845_test_stand::device::{drain_pin_events, AssistantDevice};
use lpc845_test_stand::messages::{
    AssistantToHost, DynamicPin, HostToAssistant, InputPin, OutputPin, ProtocolViolation,
    UsartMode,
};
use lpc845_test_stand::mock::Mock;
use lpc845_test_stand::remote_pin::ReadLevelError;
use lpc845_test_stand::pin::{
    Direction, Level, PinNumber, ReadLevel, ReadLevelResult, SetDirection, SetLevel,
};
use lpc845_test_stand::test_stand::TestStand;

fn host_messages() -> Vec<HostToAssistant> {
    vec![
        HostToAssistant::SendUsart {
            mode: UsartMode::Regular,
            data: vec![0xFE, 0xED, 0xDA, 0x7A],
        },
        HostToAssistant::SendUsart {
            mode: UsartMode::Dma,
            data: vec![],
        },
        HostToAssistant::SendUsart {
            mode: UsartMode::FlowControl,
            data: vec![1],
        },
        HostToAssistant::SendUsart {
            mode: UsartMode::Sync,
            data: vec![255, 0],
        },
        HostToAssistant::SetPin(SetLevel {
            pin: OutputPin::Pin5,
            level: Level::High,
        }),
        HostToAssistant::SetPin(SetLevel {
            pin: OutputPin::Cts,
            level: Level::Low,
        }),
        HostToAssistant::SetPin(SetLevel {
            pin: OutputPin::Red,
            level: Level::Low,
        }),
        HostToAssistant::SetDynamicPin(SetLevel {
            pin: DynamicPin::GPIO(31),
            level: Level::High,
        }),
        HostToAssistant::ReadPin(ReadLevel {
            pin: InputPin::Blue,
        }),
        HostToAssistant::ReadPin(ReadLevel { pin: InputPin::Pwm }),
        HostToAssistant::ReadDynamicPin(ReadLevel {
            pin: DynamicPin::GPIO(29),
        }),
        HostToAssistant::SetDirection(SetDirection {
            pin: DynamicPin::GPIO(29),
            direction: Direction::Output,
            level: Some(Level::High),
        }),
        HostToAssistant::SetDirection(SetDirection {
            pin: DynamicPin::GPIO(31),
            direction: Direction::Input,
            level: None,
        }),
    ]
}

fn assistant_messages() -> Vec<AssistantToHost> {
    vec![
        AssistantToHost::UsartReceive {
            mode: UsartMode::Regular,
            data: vec![72, 101, 108, 108, 111],
        },
        AssistantToHost::UsartReceive {
            mode: UsartMode::Sync,
            data: vec![],
        },
        AssistantToHost::ReadPinResult(None),
        AssistantToHost::ReadPinResult(Some(ReadLevelResult {
            pin: InputPin::Green,
            level: Level::High,
            period_ms: None,
        })),
        AssistantToHost::ReadPinResult(Some(ReadLevelResult {
            pin: InputPin::Blue,
            level: Level::Low,
            period_ms: Some(0xDEADBEEF),
        })),
        AssistantToHost::ReadPinResultDynamic(None),
        AssistantToHost::ReadPinResultDynamic(Some(ReadLevelResult {
            pin: DynamicPin::GPIO(29),
            level: Level::High,
            period_ms: Some(200),
        })),
        AssistantToHost::ProtocolError(ProtocolViolation::InputLevelNotEmpty),
        AssistantToHost::ProtocolError(ProtocolViolation::OutputLevelMissing),
        AssistantToHost::ProtocolError(ProtocolViolation::ReservedPin(30)),
        AssistantToHost::ProtocolError(ProtocolViolation::UnknownPin(7)),
    ]
}

#[test]
fn every_host_message_round_trips() {
    for message in host_messages() {
        let frame = encode_host_message(&message);
        let decoded = decode_host_message(&frame).unwrap();
        assert_eq!(decoded, message);
    }
}

#[test]
fn every_assistant_message_round_trips() {
    for message in assistant_messages() {
        let frame = encode_assistant_message(&message);
        let decoded = decode_assistant_message(&frame).unwrap();
        assert_eq!(decoded, message);
    }
}

#[test]
fn malformed_frames_are_rejected() {
    assert_eq!(decode_host_message(&vec![]), None);
    assert_eq!(decode_host_message(&vec![9, 9]), None);
    assert_eq!(decode_host_message(&vec![1, 0]), None);
    assert_eq!(decode_host_message(&vec![1, 0, 0, 0]), None);
    assert_eq!(decode_assistant_message(&vec![]), None);
    assert_eq!(decode_assistant_message(&vec![1, 1, 0, 0]), None);
    assert_eq!(decode_assistant_message(&vec![255]), None);
}

#[test]
fn acquire_succeeds_at_most_once() {
    let mut test_stand = TestStand::new().unwrap();

    let first = test_stand.assistant.create_gpio_input_pin(PinNumber::new(30));
    assert!(first.is_ok());

    let second = test_stand.assistant.create_gpio_input_pin(PinNumber::new(30));
    assert_eq!(
        second.unwrap_err(),
        AssistantError::PinOperation(AssistantPinOperationError::AlreadyOwned(PinNumber::new(30)))
    );
}

#[test]
fn reserved_pins_are_not_dynamic() {
    let mut test_stand = TestStand::new().unwrap();

    let wrong_direction = test_stand.assistant.create_gpio_output_pin(PinNumber::new(30), Level::High);
    assert_eq!(wrong_direction.unwrap_err(), AssistantError::NotDynamic);

    let unknown = test_stand.assistant.create_gpio_input_pin(PinNumber::new(7));
    assert_eq!(unknown.unwrap_err(), AssistantError::NotDynamic);
}

#[test]
fn missing_board_pin_is_illegal() {
    let mock = Mock::new();
    let conn = Conn::from_mock(mock);
    // a board with too few pins never had pin 30
    let assistant = Assistant::new(conn, 4);
    let mut test_stand = TestStand::from_assistant(assistant);

    let result = test_stand.assistant.create_gpio_input_pin(PinNumber::new(30));
    assert_eq!(
        result.unwrap_err(),
        AssistantError::PinOperation(AssistantPinOperationError::IllegalPinNumber(
            PinNumber::new(30)
        ))
    );
}

#[test]
fn guard_admits_exactly_one_caller() {
    let mut test_stand = TestStand::new().unwrap();

    // a concurrent caller takes the guard; a second attempt is refused at
    // once, so back-to-back callers see exactly one success
    assert!(test_stand.assistant.acquire_exclusive().is_ok());
    assert_eq!(
        test_stand.assistant.acquire_exclusive().unwrap_err(),
        AssistantError::AssistantLocked
    );

    // every API operation is refused while the guard is held
    assert_eq!(
        test_stand.assistant.disable_cts().unwrap_err(),
        AssistantError::AssistantLocked
    );

    test_stand.assistant.release_exclusive();
    assert!(test_stand.assistant.disable_cts().is_ok());
}

#[test]
fn output_switch_seeds_the_reading() {
    let mut device = AssistantDevice::new();

    device.handle_host_message(&HostToAssistant::SetDirection(SetDirection {
        pin: DynamicPin::GPIO(29),
        direction: Direction::Output,
        level: Some(Level::High),
    }));
    device.handle_host_message(&HostToAssistant::ReadDynamicPin(ReadLevel {
        pin: DynamicPin::GPIO(29),
    }));

    let frame = device.pop_host_frame().unwrap();
    let reply = decode_assistant_message(&frame).unwrap();
    assert_eq!(
        reply,
        AssistantToHost::ReadPinResultDynamic(Some(ReadLevelResult {
            pin: DynamicPin::GPIO(29),
            level: Level::High,
            period_ms: None,
        }))
    );
}

#[test]
fn untouched_pins_read_as_none() {
    let mut device = AssistantDevice::new();

    device.handle_host_message(&HostToAssistant::ReadPin(ReadLevel {
        pin: InputPin::Blue,
    }));
    let frame = device.pop_host_frame().unwrap();
    assert_eq!(
        decode_assistant_message(&frame).unwrap(),
        AssistantToHost::ReadPinResult(None)
    );

    device.handle_host_message(&HostToAssistant::ReadDynamicPin(ReadLevel {
        pin: DynamicPin::GPIO(31),
    }));
    let frame = device.pop_host_frame().unwrap();
    assert_eq!(
        decode_assistant_message(&frame).unwrap(),
        AssistantToHost::ReadPinResultDynamic(None)
    );
}

#[test]
fn illegal_direction_combinations_are_rejected() {
    let mut device = AssistantDevice::new();

    device.handle_host_message(&HostToAssistant::SetDirection(SetDirection {
        pin: DynamicPin::GPIO(31),
        direction: Direction::Input,
        level: Some(Level::High),
    }));
    let frame = device.pop_host_frame().unwrap();
    assert_eq!(
        decode_assistant_message(&frame).unwrap(),
        AssistantToHost::ProtocolError(ProtocolViolation::InputLevelNotEmpty)
    );

    device.handle_host_message(&HostToAssistant::SetDirection(SetDirection {
        pin: DynamicPin::GPIO(31),
        direction: Direction::Output,
        level: None,
    }));
    let frame = device.pop_host_frame().unwrap();
    assert_eq!(
        decode_assistant_message(&frame).unwrap(),
        AssistantToHost::ProtocolError(ProtocolViolation::OutputLevelMissing)
    );
}

#[test]
fn drained_queue_keeps_latest_reading() {
    let mut queue = EventQueue::new();
    queue
        .enqueue(PinMeasurementEvent {
            pin_number: 3,
            level: Level::High,
            period_ticks: Some(5 * 12000),
        })
        .unwrap();
    queue
        .enqueue(PinMeasurementEvent {
            pin_number: 3,
            level: Level::Low,
            period_ticks: Some(8 * 12000),
        })
        .unwrap();

    let mut map = reading_map_new();
    drain_pin_events(&mut queue, 3, &mut map);

    assert_eq!(reading_map_get(&map, 3), Some((Level::Low, Some(8))));
}

#[test]
fn gpio_period_fold_discards_duplicates() {
    let samples = vec![
        (Level::High, None),
        (Level::Low, Some(10)),
        (Level::Low, Some(10)),
        (Level::High, Some(15)),
    ];
    let measurement = fold_gpio_period(Level::Low, &samples).unwrap();
    assert_eq!(measurement, GpioPeriodMeasurement { min: 10, max: 15 });
}

#[test]
fn gpio_period_fold_needs_a_period() {
    let samples = vec![(Level::High, None), (Level::High, None)];
    assert_eq!(fold_gpio_period(Level::Low, &samples), None);
}

#[test]
fn measure_gpio_period_folds_staged_replies() {
    let mut mock = Mock::new();
    // exactly four readings for four samples: the first seeds the level
    // state, the duplicate low reading is discarded, and the bounds come
    // from the two level changes. Staged frames are read in reverse
    // staging order, so the seeding reading is staged last.
    let replies = vec![
        AssistantToHost::ReadPinResult(Some(ReadLevelResult {
            pin: InputPin::Blue,
            level: Level::High,
            period_ms: Some(15),
        })),
        AssistantToHost::ReadPinResult(Some(ReadLevelResult {
            pin: InputPin::Blue,
            level: Level::Low,
            period_ms: Some(10),
        })),
        AssistantToHost::ReadPinResult(Some(ReadLevelResult {
            pin: InputPin::Blue,
            level: Level::Low,
            period_ms: Some(10),
        })),
        AssistantToHost::ReadPinResult(Some(ReadLevelResult {
            pin: InputPin::Blue,
            level: Level::High,
            period_ms: None,
        })),
    ];
    for reply in &replies {
        mock.push_fake_ta_data(&encode_assistant_message(reply));
    }
    let conn = Conn::from_mock(mock);
    let mut assistant = Assistant::new(conn, 40);

    let measurement = assistant.measure_gpio_period(4, 50).unwrap();
    assert_eq!(measurement, GpioPeriodMeasurement { min: 10, max: 15 });
}

#[test]
fn measure_gpio_period_rejects_zero_samples() {
    let mut test_stand = TestStand::new().unwrap();
    assert_eq!(
        test_stand.assistant.measure_gpio_period(0, 50).unwrap_err(),
        AssistantError::InvalidArgument
    );
}

#[test]
fn expect_nothing_reports_pending_messages() {
    let mut test_stand = TestStand::new().unwrap();
    assert!(test_stand.assistant.expect_nothing_from_target(50).is_ok());

    test_stand.target_send_usart(&b"oops".to_vec()).unwrap();
    assert!(test_stand.assistant.expect_nothing_from_target(50).is_err());
}

#[test]
fn sampler_retains_latest_polled_level() {
    let mut device = AssistantDevice::new();

    // drive the green polled pin as an output, then sample it twice
    device.handle_host_message(&HostToAssistant::SetDirection(SetDirection {
        pin: DynamicPin::GPIO(31),
        direction: Direction::Output,
        level: Some(Level::High),
    }));
    device.sample_polled_pins();
    // the loop runs between sampler ticks and drains the bounded queue
    let _ = device.poll();
    device.handle_host_message(&HostToAssistant::SetDynamicPin(SetLevel {
        pin: DynamicPin::GPIO(31),
        level: Level::Low,
    }));
    device.sample_polled_pins();

    let _ = device.poll();
    device.handle_host_message(&HostToAssistant::ReadDynamicPin(ReadLevel {
        pin: DynamicPin::GPIO(31),
    }));
    let frame = device.pop_host_frame().unwrap();
    assert_eq!(
        decode_assistant_message(&frame).unwrap(),
        AssistantToHost::ReadPinResultDynamic(Some(ReadLevelResult {
            pin: DynamicPin::GPIO(31),
            level: Level::Low,
            period_ms: None,
        }))
    );
}

#[test]
fn reading_an_untouched_pin_is_reported() {
    let mut test_stand = TestStand::new().unwrap();
    let mut pin = test_stand
        .assistant
        .create_gpio_input_pin(PinNumber::new(31))
        .unwrap();

    // no sample of the polled pin was ever taken, so the reply carries no
    // reading, and the read reports that instead of inventing a level
    let result = pin.is_low(&mut test_stand.assistant);
    assert_eq!(
        result.unwrap_err(),
        AssistantError::PinRead(ReadLevelError::UnexpectedMessage(
            AssistantToHost::ReadPinResultDynamic(None)
        ))
    );
}

#[test]
fn usart_wait_reports_timeout() {
    let mut test_stand = TestStand::new().unwrap();

    let result = test_stand
        .assistant
        .receive_from_target_usart(&b"never sent".to_vec(), 50);
    assert_eq!(
        result.unwrap_err(),
        AssistantError::UsartWait(AssistantUsartWaitError::Timeout)
    );
}

#[test]
fn measure_gpio_period_reports_missing_replies() {
    // over a bare link with nothing staged, the very first read times out,
    // and the measurement reports exactly that
    let conn = Conn::from_mock(Mock::new());
    let mut assistant = Assistant::new(conn, 40);

    let result = assistant.measure_gpio_period(2, 50);
    assert_eq!(
        result.unwrap_err(),
        AssistantError::PinRead(ReadLevelError::Receive(ConnReceiveError::Timeout))
    );
}
