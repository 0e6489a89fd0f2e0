//! The wire form of the host/assistant messages
//!
//! One frame always carries exactly one message; the transport delivers whole
//! frames, so the encoding needs no delimiter of its own. Every decoder
//! rejects frames with missing or trailing bytes, and decoding an encoded
//! message always gives the message back (see [`lemma_host_message_round_trip`]
//! and [`lemma_assistant_message_round_trip`]).

use vstd::prelude::*;

use crate::messages::{
    AssistantToHost, AssistantToHostView, DynamicPin, HostToAssistant, HostToAssistantView,
    InputPin, OutputPin, ProtocolViolation, UsartMode,
};
use crate::pin::{Direction, Level, ReadLevel, ReadLevelResult, SetDirection, SetLevel};

verus! {

// --- byte forms of the small closed enums ---

pub open spec fn spec_level_byte(l: Level) -> u8 {
    match l {
        Level::High => 0,
        Level::Low => 1,
    }
}

pub open spec fn spec_level_of_byte(b: u8) -> Option<Level> {
    if b == 0 {
        Some(Level::High)
    } else if b == 1 {
        Some(Level::Low)
    } else {
        None
    }
}

pub open spec fn spec_mode_byte(m: UsartMode) -> u8 {
    match m {
        UsartMode::Regular => 0,
        UsartMode::Dma => 1,
        UsartMode::FlowControl => 2,
        UsartMode::Sync => 3,
    }
}

pub open spec fn spec_mode_of_byte(b: u8) -> Option<UsartMode> {
    if b == 0 {
        Some(UsartMode::Regular)
    } else if b == 1 {
        Some(UsartMode::Dma)
    } else if b == 2 {
        Some(UsartMode::FlowControl)
    } else if b == 3 {
        Some(UsartMode::Sync)
    } else {
        None
    }
}

pub open spec fn spec_direction_byte(d: Direction) -> u8 {
    match d {
        Direction::Input => 0,
        Direction::Output => 1,
    }
}

pub open spec fn spec_direction_of_byte(b: u8) -> Option<Direction> {
    if b == 0 {
        Some(Direction::Input)
    } else if b == 1 {
        Some(Direction::Output)
    } else {
        None
    }
}

pub open spec fn spec_input_pin_byte(p: InputPin) -> u8 {
    match p {
        InputPin::Blue => 0,
        InputPin::Green => 1,
        InputPin::Rts => 2,
        InputPin::Pwm => 3,
    }
}

pub open spec fn spec_input_pin_of_byte(b: u8) -> Option<InputPin> {
    if b == 0 {
        Some(InputPin::Blue)
    } else if b == 1 {
        Some(InputPin::Green)
    } else if b == 2 {
        Some(InputPin::Rts)
    } else if b == 3 {
        Some(InputPin::Pwm)
    } else {
        None
    }
}

pub open spec fn spec_output_pin_byte(p: OutputPin) -> u8 {
    match p {
        OutputPin::Pin5 => 0,
        OutputPin::Cts => 1,
        OutputPin::Red => 2,
    }
}

pub open spec fn spec_output_pin_of_byte(b: u8) -> Option<OutputPin> {
    if b == 0 {
        Some(OutputPin::Pin5)
    } else if b == 1 {
        Some(OutputPin::Cts)
    } else if b == 2 {
        Some(OutputPin::Red)
    } else {
        None
    }
}

// --- little-endian form of a period value ---

pub open spec fn spec_u32_le(n: u32) -> Seq<u8> {
    seq![
        (n % 256) as u8,
        ((n / 256) % 256) as u8,
        ((n / 65536) % 256) as u8,
        ((n / 16777216) % 256) as u8,
    ]
}

pub open spec fn spec_u32_of_le(b0: u8, b1: u8, b2: u8, b3: u8) -> u32 {
    (b0 + b1 * 256 + b2 * 65536 + b3 * 16777216) as u32
}

/// The four little-endian bytes of a period value determine it exactly.
pub proof fn lemma_u32_le_round_trip(n: u32)
    ensures
        spec_u32_of_le(
            spec_u32_le(n)[0],
            spec_u32_le(n)[1],
            spec_u32_le(n)[2],
            spec_u32_le(n)[3],
        ) == n,
{
    assert(((n % 256) as u8) + ((n / 256 % 256) as u8) * 256 + ((n / 65536 % 256) as u8) * 65536
        + ((n / 16777216 % 256) as u8) * 16777216 == n) by (bit_vector);
}

// --- byte forms of the composite pieces ---

pub open spec fn spec_dynamic_pin_byte(p: DynamicPin) -> u8 {
    p->GPIO_0
}

pub open spec fn spec_opt_level_bytes(level: Option<Level>) -> Seq<u8> {
    match level {
        None => seq![0u8],
        Some(l) => seq![1u8, spec_level_byte(l)],
    }
}

pub open spec fn spec_opt_period_bytes(period_ms: Option<u32>) -> Seq<u8> {
    match period_ms {
        None => seq![0u8],
        Some(p) => seq![1u8] + spec_u32_le(p),
    }
}

pub open spec fn spec_violation_bytes(v: ProtocolViolation) -> Seq<u8> {
    match v {
        ProtocolViolation::InputLevelNotEmpty => seq![0u8],
        ProtocolViolation::OutputLevelMissing => seq![1u8],
        ProtocolViolation::ReservedPin(n) => seq![2u8, n],
        ProtocolViolation::UnknownPin(n) => seq![3u8, n],
    }
}

pub open spec fn spec_violation_of_bytes(b: Seq<u8>) -> Option<ProtocolViolation> {
    if b.len() == 1 && b[0] == 0 {
        Some(ProtocolViolation::InputLevelNotEmpty)
    } else if b.len() == 1 && b[0] == 1 {
        Some(ProtocolViolation::OutputLevelMissing)
    } else if b.len() == 2 && b[0] == 2 {
        Some(ProtocolViolation::ReservedPin(b[1]))
    } else if b.len() == 2 && b[0] == 3 {
        Some(ProtocolViolation::UnknownPin(b[1]))
    } else {
        None
    }
}

// --- whole host-to-assistant frames ---

pub open spec fn spec_encode_host_message(m: HostToAssistantView) -> Seq<u8> {
    match m {
        HostToAssistantView::SendUsart { mode, data } => seq![0u8, spec_mode_byte(mode)] + data,
        HostToAssistantView::SetPin(sl) => seq![
            1u8,
            spec_output_pin_byte(sl.pin),
            spec_level_byte(sl.level),
        ],
        HostToAssistantView::SetDynamicPin(sl) => seq![
            2u8,
            spec_dynamic_pin_byte(sl.pin),
            spec_level_byte(sl.level),
        ],
        HostToAssistantView::ReadPin(rl) => seq![3u8, spec_input_pin_byte(rl.pin)],
        HostToAssistantView::ReadDynamicPin(rl) => seq![4u8, spec_dynamic_pin_byte(rl.pin)],
        HostToAssistantView::SetDirection(sd) => seq![
            5u8,
            spec_dynamic_pin_byte(sd.pin),
            spec_direction_byte(sd.direction),
        ] + spec_opt_level_bytes(sd.level),
    }
}

pub open spec fn spec_decode_host_message(b: Seq<u8>) -> Option<HostToAssistantView> {
    if b.len() < 2 {
        None
    } else if b[0] == 0 {
        match spec_mode_of_byte(b[1]) {
            Some(mode) => Some(
                HostToAssistantView::SendUsart { mode, data: b.subrange(2, b.len() as int) },
            ),
            None => None,
        }
    } else if b[0] == 1 {
        if b.len() == 3 {
            match (spec_output_pin_of_byte(b[1]), spec_level_of_byte(b[2])) {
                (Some(pin), Some(level)) => Some(
                    HostToAssistantView::SetPin(SetLevel { pin, level }),
                ),
                _ => None,
            }
        } else {
            None
        }
    } else if b[0] == 2 {
        if b.len() == 3 {
            match spec_level_of_byte(b[2]) {
                Some(level) => Some(
                    HostToAssistantView::SetDynamicPin(
                        SetLevel { pin: DynamicPin::GPIO(b[1]), level },
                    ),
                ),
                None => None,
            }
        } else {
            None
        }
    } else if b[0] == 3 {
        if b.len() == 2 {
            match spec_input_pin_of_byte(b[1]) {
                Some(pin) => Some(HostToAssistantView::ReadPin(ReadLevel { pin })),
                None => None,
            }
        } else {
            None
        }
    } else if b[0] == 4 {
        if b.len() == 2 {
            Some(HostToAssistantView::ReadDynamicPin(ReadLevel { pin: DynamicPin::GPIO(b[1]) }))
        } else {
            None
        }
    } else if b[0] == 5 {
        if b.len() == 4 && b[3] == 0 {
            match spec_direction_of_byte(b[2]) {
                Some(direction) => Some(
                    HostToAssistantView::SetDirection(
                        SetDirection { pin: DynamicPin::GPIO(b[1]), direction, level: None },
                    ),
                ),
                None => None,
            }
        } else if b.len() == 5 && b[3] == 1 {
            match (spec_direction_of_byte(b[2]), spec_level_of_byte(b[4])) {
                (Some(direction), Some(level)) => Some(
                    HostToAssistantView::SetDirection(
                        SetDirection {
                            pin: DynamicPin::GPIO(b[1]),
                            direction,
                            level: Some(level),
                        },
                    ),
                ),
                _ => None,
            }
        } else {
            None
        }
    } else {
        None
    }
}

// --- whole assistant-to-host frames ---

pub open spec fn spec_read_result_bytes<Id>(
    r: Option<ReadLevelResult<Id>>,
    pin_byte: spec_fn(Id) -> u8,
) -> Seq<u8> {
    match r {
        None => seq![0u8],
        Some(rr) => seq![1u8, pin_byte(rr.pin), spec_level_byte(rr.level)] + spec_opt_period_bytes(
            rr.period_ms,
        ),
    }
}

pub open spec fn spec_read_result_of_bytes<Id>(
    b: Seq<u8>,
    pin_of_byte: spec_fn(u8) -> Option<Id>,
) -> Option<Option<ReadLevelResult<Id>>> {
    if b.len() == 1 && b[0] == 0 {
        Some(None)
    } else if b.len() >= 1 && b[0] == 1 {
        if b.len() == 4 && b[3] == 0 {
            match (pin_of_byte(b[1]), spec_level_of_byte(b[2])) {
                (Some(pin), Some(level)) => Some(
                    Some(ReadLevelResult { pin, level, period_ms: None }),
                ),
                _ => None,
            }
        } else if b.len() == 8 && b[3] == 1 {
            match (pin_of_byte(b[1]), spec_level_of_byte(b[2])) {
                (Some(pin), Some(level)) => Some(
                    Some(
                        ReadLevelResult {
                            pin,
                            level,
                            period_ms: Some(spec_u32_of_le(b[4], b[5], b[6], b[7])),
                        },
                    ),
                ),
                _ => None,
            }
        } else {
            None
        }
    } else {
        None
    }
}

pub open spec fn spec_encode_assistant_message(m: AssistantToHostView) -> Seq<u8> {
    match m {
        AssistantToHostView::UsartReceive { mode, data } => seq![0u8, spec_mode_byte(mode)] + data,
        AssistantToHostView::ReadPinResult(r) => seq![1u8] + spec_read_result_bytes(
            r,
            |p: InputPin| spec_input_pin_byte(p),
        ),
        AssistantToHostView::ReadPinResultDynamic(r) => seq![2u8] + spec_read_result_bytes(
            r,
            |p: DynamicPin| spec_dynamic_pin_byte(p),
        ),
        AssistantToHostView::ProtocolError(v) => seq![3u8] + spec_violation_bytes(v),
    }
}

pub open spec fn spec_decode_assistant_message(b: Seq<u8>) -> Option<AssistantToHostView> {
    if b.len() < 2 {
        None
    } else if b[0] == 0 {
        match spec_mode_of_byte(b[1]) {
            Some(mode) => Some(
                AssistantToHostView::UsartReceive { mode, data: b.subrange(2, b.len() as int) },
            ),
            None => None,
        }
    } else if b[0] == 1 {
        match spec_read_result_of_bytes(
            b.subrange(1, b.len() as int),
            |x: u8| spec_input_pin_of_byte(x),
        ) {
            Some(r) => Some(AssistantToHostView::ReadPinResult(r)),
            None => None,
        }
    } else if b[0] == 2 {
        match spec_read_result_of_bytes(
            b.subrange(1, b.len() as int),
            |x: u8| Some(DynamicPin::GPIO(x)),
        ) {
            Some(r) => Some(AssistantToHostView::ReadPinResultDynamic(r)),
            None => None,
        }
    } else if b[0] == 3 {
        match spec_violation_of_bytes(b.subrange(1, b.len() as int)) {
            Some(v) => Some(AssistantToHostView::ProtocolError(v)),
            None => None,
        }
    } else {
        None
    }
}

// --- the round-trip laws ---

/// Decoding an encoded host command always yields the command back:
/// the wire form loses nothing.
pub proof fn lemma_host_message_round_trip(m: HostToAssistantView)
    ensures
        spec_decode_host_message(spec_encode_host_message(m)) == Some(m),
{
    let b = spec_encode_host_message(m);
    match m {
        HostToAssistantView::SendUsart { mode, data } => {
            assert(b.subrange(2, b.len() as int) =~= data);
        },
        HostToAssistantView::SetDirection(sd) => {
            match sd.level {
                None => {},
                Some(l) => {},
            }
        },
        _ => {},
    }
}

/// Decoding an encoded assistant reply always yields the reply back.
pub proof fn lemma_assistant_message_round_trip(m: AssistantToHostView)
    ensures
        spec_decode_assistant_message(spec_encode_assistant_message(m)) == Some(m),
{
    let b = spec_encode_assistant_message(m);
    match m {
        AssistantToHostView::UsartReceive { mode, data } => {
            assert(b.subrange(2, b.len() as int) =~= data);
        },
        AssistantToHostView::ReadPinResult(r) => {
            assert(b.subrange(1, b.len() as int) =~= spec_read_result_bytes(
                r,
                |p: InputPin| spec_input_pin_byte(p),
            ));
            match r {
                Some(rr) => {
                    match rr.period_ms {
                        Some(p) => {
                            lemma_u32_le_round_trip(p);
                        },
                        None => {},
                    }
                },
                None => {},
            }
        },
        AssistantToHostView::ReadPinResultDynamic(r) => {
            assert(b.subrange(1, b.len() as int) =~= spec_read_result_bytes(
                r,
                |p: DynamicPin| spec_dynamic_pin_byte(p),
            ));
            match r {
                Some(rr) => {
                    match rr.period_ms {
                        Some(p) => {
                            lemma_u32_le_round_trip(p);
                        },
                        None => {},
                    }
                },
                None => {},
            }
        },
        AssistantToHostView::ProtocolError(v) => {
            assert(b.subrange(1, b.len() as int) =~= spec_violation_bytes(v));
        },
    }
}

// --- executable byte forms of the small closed enums ---

pub fn level_byte(l: Level) -> (r: u8)
    ensures
        r == spec_level_byte(l),
{
    match l {
        Level::High => 0,
        Level::Low => 1,
    }
}

pub fn level_of_byte(b: u8) -> (r: Option<Level>)
    ensures
        r == spec_level_of_byte(b),
{
    if b == 0 {
        Some(Level::High)
    } else if b == 1 {
        Some(Level::Low)
    } else {
        None
    }
}

pub fn mode_byte(m: UsartMode) -> (r: u8)
    ensures
        r == spec_mode_byte(m),
{
    match m {
        UsartMode::Regular => 0,
        UsartMode::Dma => 1,
        UsartMode::FlowControl => 2,
        UsartMode::Sync => 3,
    }
}

pub fn mode_of_byte(b: u8) -> (r: Option<UsartMode>)
    ensures
        r == spec_mode_of_byte(b),
{
    if b == 0 {
        Some(UsartMode::Regular)
    } else if b == 1 {
        Some(UsartMode::Dma)
    } else if b == 2 {
        Some(UsartMode::FlowControl)
    } else if b == 3 {
        Some(UsartMode::Sync)
    } else {
        None
    }
}

pub fn direction_byte(d: Direction) -> (r: u8)
    ensures
        r == spec_direction_byte(d),
{
    match d {
        Direction::Input => 0,
        Direction::Output => 1,
    }
}

pub fn direction_of_byte(b: u8) -> (r: Option<Direction>)
    ensures
        r == spec_direction_of_byte(b),
{
    if b == 0 {
        Some(Direction::Input)
    } else if b == 1 {
        Some(Direction::Output)
    } else {
        None
    }
}

pub fn input_pin_byte(p: InputPin) -> (r: u8)
    ensures
        r == spec_input_pin_byte(p),
{
    match p {
        InputPin::Blue => 0,
        InputPin::Green => 1,
        InputPin::Rts => 2,
        InputPin::Pwm => 3,
    }
}

pub fn input_pin_of_byte(b: u8) -> (r: Option<InputPin>)
    ensures
        r == spec_input_pin_of_byte(b),
{
    if b == 0 {
        Some(InputPin::Blue)
    } else if b == 1 {
        Some(InputPin::Green)
    } else if b == 2 {
        Some(InputPin::Rts)
    } else if b == 3 {
        Some(InputPin::Pwm)
    } else {
        None
    }
}

pub fn output_pin_byte(p: OutputPin) -> (r: u8)
    ensures
        r == spec_output_pin_byte(p),
{
    match p {
        OutputPin::Pin5 => 0,
        OutputPin::Cts => 1,
        OutputPin::Red => 2,
    }
}

pub fn output_pin_of_byte(b: u8) -> (r: Option<OutputPin>)
    ensures
        r == spec_output_pin_of_byte(b),
{
    if b == 0 {
        Some(OutputPin::Pin5)
    } else if b == 1 {
        Some(OutputPin::Cts)
    } else if b == 2 {
        Some(OutputPin::Red)
    } else {
        None
    }
}

// --- executable frame encoding ---

/// Appends the little-endian bytes of a period value.
fn push_u32_le(out: &mut Vec<u8>, n: u32)
    ensures
        final(out)@ == old(out)@ + spec_u32_le(n),
{
    out.push((n % 256) as u8);
    out.push((n / 256 % 256) as u8);
    out.push((n / 65536 % 256) as u8);
    out.push((n / 16777216 % 256) as u8);
    assert(out@ =~= old(out)@ + spec_u32_le(n));
}

/// Reads a period value back out of its four little-endian bytes.
pub fn u32_of_le(b0: u8, b1: u8, b2: u8, b3: u8) -> (r: u32)
    ensures
        r == spec_u32_of_le(b0, b1, b2, b3),
{
    (b0 as u32) + (b1 as u32) * 256 + (b2 as u32) * 65536 + (b3 as u32) * 16777216
}

/// Encodes one host command into the byte frame that carries it.
pub fn encode_host_message(m: &HostToAssistant) -> (r: Vec<u8>)
    ensures
        r@ == spec_encode_host_message(m@),
{
    let mut out: Vec<u8> = Vec::new();
    match m {
        HostToAssistant::SendUsart { mode, data } => {
            out.push(0);
            out.push(mode_byte(*mode));
            out.extend_from_slice(data.as_slice());
            assert(out@ =~= spec_encode_host_message(m@));
        },
        HostToAssistant::SetPin(sl) => {
            out.push(1);
            out.push(output_pin_byte(sl.pin));
            out.push(level_byte(sl.level));
            assert(out@ =~= spec_encode_host_message(m@));
        },
        HostToAssistant::SetDynamicPin(sl) => {
            out.push(2);
            match sl.pin {
                DynamicPin::GPIO(n) => out.push(n),
            }
            out.push(level_byte(sl.level));
            assert(out@ =~= spec_encode_host_message(m@));
        },
        HostToAssistant::ReadPin(rl) => {
            out.push(3);
            out.push(input_pin_byte(rl.pin));
            assert(out@ =~= spec_encode_host_message(m@));
        },
        HostToAssistant::ReadDynamicPin(rl) => {
            out.push(4);
            match rl.pin {
                DynamicPin::GPIO(n) => out.push(n),
            }
            assert(out@ =~= spec_encode_host_message(m@));
        },
        HostToAssistant::SetDirection(sd) => {
            out.push(5);
            match sd.pin {
                DynamicPin::GPIO(n) => out.push(n),
            }
            out.push(direction_byte(sd.direction));
            match sd.level {
                None => out.push(0),
                Some(l) => {
                    out.push(1);
                    out.push(level_byte(l));
                },
            }
            assert(out@ =~= spec_encode_host_message(m@));
        },
    }
    out
}

/// Encodes one assistant reply into the byte frame that carries it.
pub fn encode_assistant_message(m: &AssistantToHost) -> (r: Vec<u8>)
    ensures
        r@ == spec_encode_assistant_message(m@),
{
    let mut out: Vec<u8> = Vec::new();
    match m {
        AssistantToHost::UsartReceive { mode, data } => {
            out.push(0);
            out.push(mode_byte(*mode));
            out.extend_from_slice(data.as_slice());
            assert(out@ =~= spec_encode_assistant_message(m@));
        },
        AssistantToHost::ReadPinResult(r) => {
            out.push(1);
            match r {
                None => out.push(0),
                Some(rr) => {
                    out.push(1);
                    out.push(input_pin_byte(rr.pin));
                    out.push(level_byte(rr.level));
                    match rr.period_ms {
                        None => out.push(0),
                        Some(p) => {
                            out.push(1);
                            push_u32_le(&mut out, p);
                        },
                    }
                },
            }
            assert(out@ =~= spec_encode_assistant_message(m@));
        },
        AssistantToHost::ReadPinResultDynamic(r) => {
            out.push(2);
            match r {
                None => out.push(0),
                Some(rr) => {
                    out.push(1);
                    match rr.pin {
                        DynamicPin::GPIO(n) => out.push(n),
                    }
                    out.push(level_byte(rr.level));
                    match rr.period_ms {
                        None => out.push(0),
                        Some(p) => {
                            out.push(1);
                            push_u32_le(&mut out, p);
                        },
                    }
                },
            }
            assert(out@ =~= spec_encode_assistant_message(m@));
        },
        AssistantToHost::ProtocolError(v) => {
            out.push(3);
            match v {
                ProtocolViolation::InputLevelNotEmpty => out.push(0),
                ProtocolViolation::OutputLevelMissing => out.push(1),
                ProtocolViolation::ReservedPin(n) => {
                    out.push(2);
                    out.push(*n);
                },
                ProtocolViolation::UnknownPin(n) => {
                    out.push(3);
                    out.push(*n);
                },
            }
            assert(out@ =~= spec_encode_assistant_message(m@));
        },
    }
    out
}

// --- executable frame decoding ---

/// Copies the payload bytes that follow a frame's two-byte header.
fn tail_from(b: &Vec<u8>, start: usize) -> (r: Vec<u8>)
    requires
        start <= b@.len(),
    ensures
        r@ == b@.subrange(start as int, b@.len() as int),
{
    let mut data: Vec<u8> = Vec::new();
    let mut i: usize = start;
    while i < b.len()
        invariant
            start <= i <= b@.len(),
            data@ == b@.subrange(start as int, i as int),
        decreases b@.len() - i,
    {
        data.push(b[i]);
        assert(b@.subrange(start as int, i + 1 as int) =~= b@.subrange(start as int, i as int)
            .push(b@[i as int]));
        i = i + 1;
    }
    data
}

/// Decodes one byte frame as a host command; `None` means the frame is
/// malformed. Exactly the frames produced by [`encode_host_message`] decode
/// successfully.
pub fn decode_host_message(b: &Vec<u8>) -> (r: Option<HostToAssistant>)
    ensures
        match r {
            Some(m) => spec_decode_host_message(b@) == Some(m@),
            None => spec_decode_host_message(b@) is None,
        },
{
    if b.len() < 2 {
        return None;
    }
    let tag = b[0];
    if tag == 0 {
        match mode_of_byte(b[1]) {
            Some(mode) => {
                let data = tail_from(b, 2);
                Some(HostToAssistant::SendUsart { mode, data })
            },
            None => None,
        }
    } else if tag == 1 {
        if b.len() == 3 {
            match (output_pin_of_byte(b[1]), level_of_byte(b[2])) {
                (Some(pin), Some(level)) => Some(HostToAssistant::SetPin(SetLevel { pin, level })),
                _ => None,
            }
        } else {
            None
        }
    } else if tag == 2 {
        if b.len() == 3 {
            match level_of_byte(b[2]) {
                Some(level) => Some(
                    HostToAssistant::SetDynamicPin(
                        SetLevel { pin: DynamicPin::GPIO(b[1]), level },
                    ),
                ),
                None => None,
            }
        } else {
            None
        }
    } else if tag == 3 {
        if b.len() == 2 {
            match input_pin_of_byte(b[1]) {
                Some(pin) => Some(HostToAssistant::ReadPin(ReadLevel { pin })),
                None => None,
            }
        } else {
            None
        }
    } else if tag == 4 {
        if b.len() == 2 {
            Some(HostToAssistant::ReadDynamicPin(ReadLevel { pin: DynamicPin::GPIO(b[1]) }))
        } else {
            None
        }
    } else if tag == 5 {
        if b.len() == 4 && b[3] == 0 {
            match direction_of_byte(b[2]) {
                Some(direction) => Some(
                    HostToAssistant::SetDirection(
                        SetDirection { pin: DynamicPin::GPIO(b[1]), direction, level: None },
                    ),
                ),
                None => None,
            }
        } else if b.len() == 5 && b[3] == 1 {
            match (direction_of_byte(b[2]), level_of_byte(b[4])) {
                (Some(direction), Some(level)) => Some(
                    HostToAssistant::SetDirection(
                        SetDirection {
                            pin: DynamicPin::GPIO(b[1]),
                            direction,
                            level: Some(level),
                        },
                    ),
                ),
                _ => None,
            }
        } else {
            None
        }
    } else {
        None
    }
}

/// Decodes one byte frame as an assistant reply; `None` means the frame is
/// malformed. Exactly the frames produced by [`encode_assistant_message`]
/// decode successfully.
pub fn decode_assistant_message(b: &Vec<u8>) -> (r: Option<AssistantToHost>)
    ensures
        match r {
            Some(m) => spec_decode_assistant_message(b@) == Some(m@),
            None => spec_decode_assistant_message(b@) is None,
        },
{
    if b.len() < 2 {
        return None;
    }
    let ghost rest = b@.subrange(1, b@.len() as int);
    let tag = b[0];
    if tag == 0 {
        match mode_of_byte(b[1]) {
            Some(mode) => {
                let data = tail_from(b, 2);
                Some(AssistantToHost::UsartReceive { mode, data })
            },
            None => None,
        }
    } else if tag == 1 {
        if b.len() == 2 && b[1] == 0 {
            Some(AssistantToHost::ReadPinResult(None))
        } else if b.len() == 5 && b[1] == 1 && b[4] == 0 {
            match (input_pin_of_byte(b[2]), level_of_byte(b[3])) {
                (Some(pin), Some(level)) => Some(
                    AssistantToHost::ReadPinResult(
                        Some(ReadLevelResult { pin, level, period_ms: None }),
                    ),
                ),
                _ => None,
            }
        } else if b.len() == 9 && b[1] == 1 && b[4] == 1 {
            match (input_pin_of_byte(b[2]), level_of_byte(b[3])) {
                (Some(pin), Some(level)) => Some(
                    AssistantToHost::ReadPinResult(
                        Some(
                            ReadLevelResult {
                                pin,
                                level,
                                period_ms: Some(u32_of_le(b[5], b[6], b[7], b[8])),
                            },
                        ),
                    ),
                ),
                _ => None,
            }
        } else {
            None
        }
    } else if tag == 2 {
        if b.len() == 2 && b[1] == 0 {
            Some(AssistantToHost::ReadPinResultDynamic(None))
        } else if b.len() == 5 && b[1] == 1 && b[4] == 0 {
            match level_of_byte(b[3]) {
                Some(level) => Some(
                    AssistantToHost::ReadPinResultDynamic(
                        Some(
                            ReadLevelResult {
                                pin: DynamicPin::GPIO(b[2]),
                                level,
                                period_ms: None,
                            },
                        ),
                    ),
                ),
                None => None,
            }
        } else if b.len() == 9 && b[1] == 1 && b[4] == 1 {
            match level_of_byte(b[3]) {
                Some(level) => Some(
                    AssistantToHost::ReadPinResultDynamic(
                        Some(
                            ReadLevelResult {
                                pin: DynamicPin::GPIO(b[2]),
                                level,
                                period_ms: Some(u32_of_le(b[5], b[6], b[7], b[8])),
                            },
                        ),
                    ),
                ),
                None => None,
            }
        } else {
            None
        }
    } else if tag == 3 {
        if b.len() == 2 && b[1] == 0 {
            Some(AssistantToHost::ProtocolError(ProtocolViolation::InputLevelNotEmpty))
        } else if b.len() == 2 && b[1] == 1 {
            Some(AssistantToHost::ProtocolError(ProtocolViolation::OutputLevelMissing))
        } else if b.len() == 3 && b[1] == 2 {
            Some(AssistantToHost::ProtocolError(ProtocolViolation::ReservedPin(b[2])))
        } else if b.len() == 3 && b[1] == 3 {
            Some(AssistantToHost::ProtocolError(ProtocolViolation::UnknownPin(b[2])))
        } else {
            None
        }
    } else {
        None
    }
}


/// Encodes a USART-receive notification without taking ownership of the
/// buffered bytes.
pub fn encode_usart_receive(mode: UsartMode, data: &Vec<u8>) -> (r: Vec<u8>)
    ensures
        r@ == spec_encode_assistant_message(
            AssistantToHostView::UsartReceive { mode, data: data@ },
        ),
{
    let mut out: Vec<u8> = Vec::new();
    out.push(0);
    out.push(mode_byte(mode));
    out.extend_from_slice(data.as_slice());
    assert(out@ =~= spec_encode_assistant_message(
        AssistantToHostView::UsartReceive { mode, data: data@ },
    ));
    out
}

} // verus!
