//! The messages exchanged between the host and the test assistant

use vstd::prelude::*;

use crate::pin::{Direction, Level, ReadLevel, ReadLevelResult, SetDirection, SetLevel};

verus! {

/// The mode a USART transfer uses
#[derive(Clone, Copy, Debug, Eq, PartialEq, Structural)]
pub enum UsartMode {
    Regular,
    Dma,
    FlowControl,
    Sync,
}

/// A dynamically reconfigurable pin, addressed by its board pin number
#[derive(Clone, Copy, Debug, Eq, PartialEq, Structural)]
pub enum DynamicPin {
    GPIO(u8),
}

impl DynamicPin {
    /// The board pin number this pin is allocated as, if it is a GPIO.
    pub fn get_pin_number(&self) -> (r: Option<u8>)
        ensures
            r == Some(self->GPIO_0),
    {
        match self {
            DynamicPin::GPIO(n) => Some(*n),
        }
    }
}

/// One of the fixed-role pins that the assistant monitors
#[derive(Clone, Copy, Debug, Eq, PartialEq, Structural)]
pub enum InputPin {
    Blue,
    Green,
    Rts,
    Pwm,
}

impl InputPin {
    /// A stable index for this pin, used as a measurement-map key.
    pub fn index(&self) -> (r: u8)
        ensures
            r == self.index_spec(),
    {
        match self {
            InputPin::Blue => 0,
            InputPin::Green => 1,
            InputPin::Rts => 2,
            InputPin::Pwm => 3,
        }
    }

    /// The measurement-map key of this pin.
    pub open spec fn index_spec(&self) -> u8 {
        match self {
            InputPin::Blue => 0,
            InputPin::Green => 1,
            InputPin::Rts => 2,
            InputPin::Pwm => 3,
        }
    }
}

/// One of the fixed-role pins that the assistant can set
#[derive(Clone, Copy, Debug, Eq, PartialEq, Structural)]
pub enum OutputPin {
    Pin5,
    Cts,
    Red,
}

/// The ways in which a host command can violate the wire protocol
///
/// The assistant reports these back to the host instead of halting, so the
/// host keeps a diagnosable view of what went wrong.
#[derive(Clone, Copy, Debug, Eq, PartialEq, Structural)]
pub enum ProtocolViolation {
    /// A direction switch to input carried a level
    InputLevelNotEmpty,
    /// A direction switch to output carried no level
    OutputLevelMissing,
    /// A direction or level change addressed a reserved fixed-role pin
    ReservedPin(u8),
    /// A dynamic-pin command addressed a pin the assistant does not track
    UnknownPin(u8),
}

/// A message sent from the host to the test assistant
#[derive(Clone, Debug, Eq, PartialEq)]
pub enum HostToAssistant {
    /// Instruct the assistant to send data to the target via USART
    SendUsart { mode: UsartMode, data: Vec<u8> },
    /// Set the level of one of the fixed output pins
    SetPin(SetLevel<OutputPin>),
    /// Set the level of a dynamically reconfigurable pin
    SetDynamicPin(SetLevel<DynamicPin>),
    /// Read the level of one of the fixed input pins
    ReadPin(ReadLevel<InputPin>),
    /// Read the level of a dynamically reconfigurable pin
    ReadDynamicPin(ReadLevel<DynamicPin>),
    /// Switch a dynamically reconfigurable pin between input and output
    SetDirection(SetDirection<DynamicPin>),
}

/// The mathematical value of a [`HostToAssistant`] message
pub enum HostToAssistantView {
    SendUsart { mode: UsartMode, data: Seq<u8> },
    SetPin(SetLevel<OutputPin>),
    SetDynamicPin(SetLevel<DynamicPin>),
    ReadPin(ReadLevel<InputPin>),
    ReadDynamicPin(ReadLevel<DynamicPin>),
    SetDirection(SetDirection<DynamicPin>),
}

impl View for HostToAssistant {
    type V = HostToAssistantView;

    open spec fn view(&self) -> HostToAssistantView {
        match self {
            HostToAssistant::SendUsart { mode, data } => HostToAssistantView::SendUsart {
                mode: *mode,
                data: data@,
            },
            HostToAssistant::SetPin(sl) => HostToAssistantView::SetPin(*sl),
            HostToAssistant::SetDynamicPin(sl) => HostToAssistantView::SetDynamicPin(*sl),
            HostToAssistant::ReadPin(rl) => HostToAssistantView::ReadPin(*rl),
            HostToAssistant::ReadDynamicPin(rl) => HostToAssistantView::ReadDynamicPin(*rl),
            HostToAssistant::SetDirection(sd) => HostToAssistantView::SetDirection(*sd),
        }
    }
}

/// A message sent from the test assistant to the host
#[derive(Clone, Debug, Eq, PartialEq)]
pub enum AssistantToHost {
    /// Notify the host that data was received from the target via USART
    UsartReceive { mode: UsartMode, data: Vec<u8> },
    /// Reply to a fixed-pin read request; `None` means no reading recorded yet
    ReadPinResult(Option<ReadLevelResult<InputPin>>),
    /// Reply to a dynamic-pin read request; `None` means no reading recorded yet
    ReadPinResultDynamic(Option<ReadLevelResult<DynamicPin>>),
    /// Report a protocol violation back to the host instead of halting
    ProtocolError(ProtocolViolation),
}

/// The mathematical value of an [`AssistantToHost`] message
pub enum AssistantToHostView {
    UsartReceive { mode: UsartMode, data: Seq<u8> },
    ReadPinResult(Option<ReadLevelResult<InputPin>>),
    ReadPinResultDynamic(Option<ReadLevelResult<DynamicPin>>),
    ProtocolError(ProtocolViolation),
}

impl View for AssistantToHost {
    type V = AssistantToHostView;

    open spec fn view(&self) -> AssistantToHostView {
        match self {
            AssistantToHost::UsartReceive { mode, data } => AssistantToHostView::UsartReceive {
                mode: *mode,
                data: data@,
            },
            AssistantToHost::ReadPinResult(r) => AssistantToHostView::ReadPinResult(*r),
            AssistantToHost::ReadPinResultDynamic(r) => AssistantToHostView::ReadPinResultDynamic(
                *r,
            ),
            AssistantToHost::ProtocolError(v) => AssistantToHostView::ProtocolError(*v),
        }
    }
}

} // verus!
