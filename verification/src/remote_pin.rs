//! The host's handle to one pin on the test assistant
//!
//! A [`Pin`] carries the token for one physical pin; its operations build
//! the matching wire command, send it over the connection, and for reads
//! check the reply against the requested pin before believing it.

use vstd::prelude::*;

use crate::assistant::AssistantError;
use crate::conn::{spec_conn_sent, Conn, ConnReceiveError, ConnSendError};
use crate::device::TARGET_TIMER_PIN_NUMBER;
use crate::messages::{
    AssistantToHost, AssistantToHostView, DynamicPin, HostToAssistant, HostToAssistantView,
    InputPin, OutputPin,
};
use crate::mock::spec_deque_frames;
use crate::pin::{Level, ReadLevel, ReadLevelResult, SetLevel};

verus! {

/// The direction a host-side pin handle is configured for
#[derive(Clone, Copy, Debug, Eq, PartialEq, Structural)]
pub enum PinDirection {
    Input,
    Output,
}

/// The token identifying one physical pin of the assistant
#[derive(Clone, Copy, Debug, Eq, PartialEq, Structural)]
pub enum PinToken {
    GPIO(u8),
}

impl PinToken {
    /// The fixed-role input pin this token reads as, for the pins the
    /// assistant monitors under a fixed name.
    pub fn try_as_input_pin(&self) -> (r: Result<InputPin, AssistantError>)
        ensures
            self->GPIO_0 == 30 ==> r == Ok::<InputPin, AssistantError>(InputPin::Blue),
            self->GPIO_0 == 31 ==> r == Ok::<InputPin, AssistantError>(InputPin::Green),
            self->GPIO_0 == 18 ==> r == Ok::<InputPin, AssistantError>(InputPin::Rts),
            self->GPIO_0 != 30 && self->GPIO_0 != 31 && self->GPIO_0 != 18 ==> (r matches Err(e)
                && e == AssistantError::NotDynamic),
    {
        match self {
            PinToken::GPIO(30) => Ok(InputPin::Blue),
            PinToken::GPIO(31) => Ok(InputPin::Green),
            PinToken::GPIO(18) => Ok(InputPin::Rts),
            _ => Err(AssistantError::NotDynamic),
        }
    }

    /// The fixed-role output pin this token drives as, for the pins the
    /// assistant can set under a fixed name.
    pub fn try_as_output_pin(&self) -> (r: Result<OutputPin, AssistantError>)
        ensures
            self->GPIO_0 == 5 ==> r == Ok::<OutputPin, AssistantError>(OutputPin::Pin5),
            self->GPIO_0 == 29 ==> r == Ok::<OutputPin, AssistantError>(OutputPin::Red),
            self->GPIO_0 == 19 ==> r == Ok::<OutputPin, AssistantError>(OutputPin::Cts),
            self->GPIO_0 != 5 && self->GPIO_0 != 29 && self->GPIO_0 != 19 ==> (r matches Err(e)
                && e == AssistantError::NotDynamic),
    {
        match self {
            PinToken::GPIO(5) => Ok(OutputPin::Pin5),
            PinToken::GPIO(29) => Ok(OutputPin::Red),
            PinToken::GPIO(19) => Ok(OutputPin::Cts),
            _ => Err(AssistantError::NotDynamic),
        }
    }
}

/// What went wrong while reading a pin level remotely
#[derive(Debug, Eq, PartialEq)]
pub enum ReadLevelError {
    Send(ConnSendError),
    Receive(ConnReceiveError),
    /// The reply was not a usable reading for the requested pin: the wrong
    /// message kind, a reply for another pin, or a reply that carries no
    /// recorded reading yet. Carries the message for diagnosis.
    UnexpectedMessage(AssistantToHost),
    Timeout,
}

/// API for remotely controlling and monitoring a pin on a test node
///
/// This struct is intended as a building block for higher-level interfaces
/// that control the pins of a specific test stand.
#[derive(Clone, Copy, Debug, Eq, PartialEq, Structural)]
pub struct Pin<Id> {
    pub pin: Id,
}

impl<Id: Copy> Pin<Id> {
    /// Wraps a pin identifier.
    pub fn new(pin: Id) -> (r: Self)
        ensures
            r == (Pin { pin }),
    {
        Self { pin }
    }
}

/// The read request a pin token puts on the wire: the target-timer pin is
/// read under its fixed name, every other pin as a dynamic pin.
pub open spec fn spec_read_request(token: PinToken) -> HostToAssistantView {
    if token->GPIO_0 == TARGET_TIMER_PIN_NUMBER {
        HostToAssistantView::ReadPin(ReadLevel { pin: InputPin::Blue })
    } else {
        HostToAssistantView::ReadDynamicPin(ReadLevel { pin: DynamicPin::GPIO(token->GPIO_0) })
    }
}

/// How a reply is judged against a read request for `token`: only a
/// reading for the very pin that was asked about is believed, anything
/// else is a protocol error, and no pending reply is a timeout.
pub open spec fn spec_read_outcome(
    pending: Seq<Seq<u8>>,
    token: PinToken,
    r: Result<(Level, Option<u32>), ReadLevelError>,
) -> bool {
    if pending.len() == 0 {
        r == Err::<(Level, Option<u32>), _>(ReadLevelError::Receive(ConnReceiveError::Timeout))
    } else {
        match crate::codec::spec_decode_assistant_message(pending[0]) {
            None => r == Err::<(Level, Option<u32>), _>(
                ReadLevelError::Receive(ConnReceiveError::MalformedMessage),
            ),
            Some(v) => match v {
                AssistantToHostView::ReadPinResult(Some(rr)) => if token->GPIO_0
                    == TARGET_TIMER_PIN_NUMBER && rr.pin is Blue {
                    r == Ok::<_, ReadLevelError>((rr.level, rr.period_ms))
                } else {
                    r matches Err(ReadLevelError::UnexpectedMessage(m)) && m@ == v
                },
                AssistantToHostView::ReadPinResultDynamic(Some(rr)) => if token->GPIO_0
                    != TARGET_TIMER_PIN_NUMBER && rr.pin->GPIO_0 == token->GPIO_0 {
                    r == Ok::<_, ReadLevelError>((rr.level, rr.period_ms))
                } else {
                    r matches Err(ReadLevelError::UnexpectedMessage(m)) && m@ == v
                },
                _ => r matches Err(ReadLevelError::UnexpectedMessage(m)) && m@ == v,
            },
        }
    }
}

impl Pin<PinToken> {
    /// Commands the assistant to drive this pin to `level`.
    ///
    /// The pin goes on the wire under its fixed output name, so only the
    /// pins the assistant can set that way are accepted.
    pub fn set_level(&mut self, level: Level, conn: &mut Conn) -> (r: Result<(), AssistantError>)
        ensures
            (old(self).pin->GPIO_0 == 5 || old(self).pin->GPIO_0 == 29 || old(self).pin->GPIO_0
                == 19) ==> r is Ok && *final(self) == *old(self) && spec_conn_sent(
                *old(conn),
                *final(conn),
                spec_set_level_request(old(self).pin, level),
            ),
            !(old(self).pin->GPIO_0 == 5 || old(self).pin->GPIO_0 == 29 || old(self).pin->GPIO_0
                == 19) ==> (r matches Err(e) && e == AssistantError::NotDynamic) && *final(self)
                == *old(self) && *final(conn) == *old(conn),
    {
        let output_pin = match self.pin.try_as_output_pin() {
            Ok(p) => p,
            Err(e) => {
                return Err(e);
            },
        };
        let command = HostToAssistant::SetPin(SetLevel { pin: output_pin, level });
        match conn.send(&command) {
            Ok(_) => Ok(()),
            Err(e) => Err(AssistantError::SetPinLow(e)),
        }
    }

    /// Requests this pin's latest reading and waits for the reply.
    ///
    /// The reply must concern the very pin that was asked about: a reply
    /// for another pin, an unexpected message kind, or a reply without a
    /// recorded reading is reported as an error, never silently accepted.
    pub fn read_level(&mut self, timeout_ms: u64, conn: &mut Conn) -> (r: Result<
        (Level, Option<u32>),
        ReadLevelError,
    >)
        ensures
            *final(self) == *old(self),
            exists|mid: Conn|
                #[trigger] spec_conn_sent(*old(conn), mid, spec_read_request(old(self).pin))
                    && spec_read_outcome(spec_deque_frames(mid.mock.data_in), old(self).pin, r)
                    && final(conn).device == mid.device && final(conn).mock.data_out
                    == mid.mock.data_out && (spec_deque_frames(mid.mock.data_in).len() == 0
                    ==> final(conn).mock.data_in@ == mid.mock.data_in@) && (spec_deque_frames(
                    mid.mock.data_in,
                ).len() > 0 ==> spec_deque_frames(final(conn).mock.data_in) == spec_deque_frames(
                    mid.mock.data_in,
                ).drop_first()),
    {
        let pin_number = match self.pin {
            PinToken::GPIO(n) => n,
        };
        let request = if pin_number == TARGET_TIMER_PIN_NUMBER {
            HostToAssistant::ReadPin(ReadLevel { pin: InputPin::Blue })
        } else {
            HostToAssistant::ReadDynamicPin(ReadLevel { pin: DynamicPin::GPIO(pin_number) })
        };
        match conn.send(&request) {
            Ok(_) => {},
            Err(e) => {
                // the model link accepts every frame; kept for the shape a
                // fallible transport would need
                return Err(ReadLevelError::Send(e));
            },
        }
        let ghost mid = *conn;
        let reply = match conn.receive(timeout_ms) {
            Ok(m) => m,
            Err(e) => {
                return Err(ReadLevelError::Receive(e));
            },
        };
        let result = match &reply {
            AssistantToHost::ReadPinResult(Some(rr)) => {
                if pin_number == TARGET_TIMER_PIN_NUMBER {
                    match rr.pin {
                        InputPin::Blue => Some((rr.level, rr.period_ms)),
                        _ => None,
                    }
                } else {
                    None
                }
            },
            AssistantToHost::ReadPinResultDynamic(Some(rr)) => {
                if pin_number != TARGET_TIMER_PIN_NUMBER {
                    match rr.pin {
                        DynamicPin::GPIO(n) => if n == pin_number {
                            Some((rr.level, rr.period_ms))
                        } else {
                            None
                        },
                    }
                } else {
                    None
                }
            },
            _ => None,
        };
        match result {
            Some(reading) => Ok(reading),
            None => Err(ReadLevelError::UnexpectedMessage(reply)),
        }
    }
}

/// The level command a pin token puts on the wire, under its fixed output
/// name.
pub open spec fn spec_set_level_request(token: PinToken, level: Level) -> HostToAssistantView {
    HostToAssistantView::SetPin(
        SetLevel {
            pin: if token->GPIO_0 == 5 {
                OutputPin::Pin5
            } else if token->GPIO_0 == 29 {
                OutputPin::Red
            } else {
                OutputPin::Cts
            },
            level,
        },
    )
}

} // verus!
