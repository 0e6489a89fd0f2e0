//! An instance of the test stand
//!
//! Used to access all resources that a test case requires. The stand built
//! here wires the host-side API to the in-process assistant model over a
//! loopback connection, and stands in for the test target on the other
//! side of the wires: the target's pins and USARTs are driven and observed
//! through the `target_*` operations. A stand over real hardware opens a
//! serial connection instead, outside this crate's verified core.

use vstd::prelude::*;

use crate::assistant::{Assistant, AssistantInterface};
use crate::bounded::{event_queue_contents, PinMeasurementEvent};
use crate::conn::{spec_pumped, Conn};
use crate::device::{
    spec_dispatched_one, spec_drained, spec_enqueue_bounded, spec_relayed, AssistantDevice,
};
use crate::messages::InputPin as WireInputPin;
use crate::mock::spec_deque_frames;
use crate::pin::Level;

verus! {

/// How many board pins the assistant's registry tracks.
pub const BOARD_PIN_COUNT: u8 = 40;

/// The requested resource is not part of this test stand's configuration.
#[derive(Clone, Copy, Debug, Eq, PartialEq, Structural)]
pub struct NotConfiguredError;

/// Why the test stand could not be initialized
#[derive(Clone, Copy, Debug, Eq, PartialEq, Structural)]
pub enum TestStandInitError {
    NotConfigured(NotConfiguredError),
}

/// Holds when the assistant model went from `d0` to `df` by one
/// target-driven edge on the target-timer pin followed by one pass of its
/// loop: the edge joins the pin's bounded queue (dropped only when that
/// queue is full) and the pass drains the queues into the reading maps.
pub open spec fn spec_target_edge_polled(
    d0: AssistantDevice,
    df: AssistantDevice,
    level: Level,
) -> bool {
    exists|d1: AssistantDevice, mid1: AssistantDevice, mid2: AssistantDevice|
        #![trigger spec_relayed(d1, mid1), spec_dispatched_one(mid1, mid2)]
        event_queue_contents(d1.blue_events) == spec_enqueue_bounded(
            event_queue_contents(d0.blue_events),
            (PinMeasurementEvent {
                pin_number: WireInputPin::Blue.index_spec(),
                level,
                period_ticks: None,
            }),
        ) && d1 == (AssistantDevice { blue_events: d1.blue_events, ..d0 }) && spec_relayed(
            d1,
            mid1,
        ) && spec_dispatched_one(mid1, mid2) && spec_drained(mid2, df)
}

/// Holds when the assistant model went from `d0` to `df` by the target's
/// bytes arriving on its receive buffer and one full pump: one loop pass
/// relaying them, after which the produced notification frames sit on the
/// host's receive side.
pub open spec fn spec_target_bytes_pumped(
    d0: AssistantDevice,
    df: AssistantDevice,
    data: Seq<u8>,
    pre_in: Seq<Seq<u8>>,
    post_in: Seq<Seq<u8>>,
) -> bool {
    exists|d1: AssistantDevice, replies: Seq<Seq<u8>>|
        d1.target_rx@ == d0.target_rx@ + data && d1 == (AssistantDevice {
            target_rx: d1.target_rx,
            ..d0
        }) && #[trigger] spec_pumped(d1, df, replies) && post_in == pre_in + replies
}

/// An instance of the test stand
///
/// Holds the assistant interface a test case talks to, and stands in for
/// the target device wired to the assistant.
pub struct TestStand {
    /// The synchronized remote-control interface to the assistant
    pub assistant: AssistantInterface,
}

impl TestStand {
    /// Initializes the test stand: brings up the assistant model in its
    /// reset state, wires it to a loopback connection, and opens the
    /// remote-control interface over it.
    pub fn new() -> (r: Result<TestStand, TestStandInitError>)
        ensures
            r matches Ok(ts) && ts.assistant.wf() && !ts.assistant.engaged
                && ts.assistant.real_assistant.conn.device is Some
                && ts.assistant.real_assistant.pins@ == crate::assistant::spec_initial_pins(
                BOARD_PIN_COUNT,
            ),
    {
        let device = AssistantDevice::new();
        let conn = Conn::with_simulated_assistant(device);
        let assistant = Assistant::new(conn, BOARD_PIN_COUNT);
        Ok(TestStand { assistant: AssistantInterface::new(assistant) })
    }

    /// Builds a test stand around an already-opened assistant connection.
    pub fn from_assistant(assistant: Assistant) -> (r: TestStand)
        ensures
            r.assistant.real_assistant == assistant,
            !r.assistant.engaged,
    {
        TestStand { assistant: AssistantInterface::new(assistant) }
    }

    /// Stands for the target driving the wire into the assistant's
    /// target-timer input pin: the edge interrupt fires with the new
    /// level, and the assistant's loop runs so the reading is retained.
    pub fn target_set_pin(&mut self, level: Level) -> (r: Result<(), NotConfiguredError>)
        ensures
            old(self).assistant.real_assistant.conn.device is None ==> (r matches Err(e) && e
                == NotConfiguredError) && *final(self) == *old(self),
            old(self).assistant.real_assistant.conn.device is Some ==> r is Ok
                && final(self).assistant.real_assistant.conn.device is Some
                && spec_target_edge_polled(
                old(self).assistant.real_assistant.conn.device->Some_0,
                final(self).assistant.real_assistant.conn.device->Some_0,
                level,
            ) && final(self).assistant.real_assistant.conn.mock == old(
                self,
            ).assistant.real_assistant.conn.mock && final(self).assistant.real_assistant.pins
                == old(self).assistant.real_assistant.pins
                && final(self).assistant.real_assistant.num_pins == old(
                self,
            ).assistant.real_assistant.num_pins && final(self).assistant.engaged == old(
                self,
            ).assistant.engaged,
    {
        match &mut self.assistant.real_assistant.conn.device {
            None => Err(NotConfiguredError),
            Some(device) => {
                let ghost d0 = *device;
                device.record_fixed_pin_edge(WireInputPin::Blue, level, None);
                let _ = device.poll();
                proof {
                    assert(spec_target_edge_polled(d0, *device, level));
                }
                Ok(())
            },
        }
    }

    /// Stands for the target driving its wire low; see
    /// [`TestStand::target_set_pin`].
    pub fn target_set_pin_low(&mut self) -> (r: Result<(), NotConfiguredError>)
        ensures
            old(self).assistant.real_assistant.conn.device is None ==> r is Err,
            old(self).assistant.real_assistant.conn.device is Some ==> r is Ok,
    {
        self.target_set_pin(Level::Low)
    }

    /// Stands for the target driving its wire high; see
    /// [`TestStand::target_set_pin`].
    pub fn target_set_pin_high(&mut self) -> (r: Result<(), NotConfiguredError>)
        ensures
            old(self).assistant.real_assistant.conn.device is None ==> r is Err,
            old(self).assistant.real_assistant.conn.device is Some ==> r is Ok,
    {
        self.target_set_pin(Level::High)
    }

    /// Stands for the target reading the level the assistant drives on
    /// the wire from the assistant's fixed output pin.
    pub fn target_pin_is_low(&self) -> (r: Result<bool, NotConfiguredError>)
        ensures
            self.assistant.real_assistant.conn.device is None ==> (r matches Err(e) && e
                == NotConfiguredError),
            self.assistant.real_assistant.conn.device is Some ==> r == Ok::<
                bool,
                NotConfiguredError,
            >(self.assistant.real_assistant.conn.device->Some_0.pin_5 is Low),
    {
        match &self.assistant.real_assistant.conn.device {
            None => Err(NotConfiguredError),
            Some(device) => {
                let is_low = match device.pin_5 {
                    Level::Low => true,
                    Level::High => false,
                };
                Ok(is_low)
            },
        }
    }

    /// Stands for the target reading the level the assistant drives; the
    /// complement of [`TestStand::target_pin_is_low`].
    pub fn target_pin_is_high(&self) -> (r: Result<bool, NotConfiguredError>)
        ensures
            self.assistant.real_assistant.conn.device is None ==> (r matches Err(e) && e
                == NotConfiguredError),
            self.assistant.real_assistant.conn.device is Some ==> r == Ok::<
                bool,
                NotConfiguredError,
            >(self.assistant.real_assistant.conn.device->Some_0.pin_5 is High),
    {
        match self.target_pin_is_low() {
            Ok(is_low) => Ok(!is_low),
            Err(e) => Err(e),
        }
    }

    /// Stands for the target sending bytes over its USART: they arrive at
    /// the assistant's receive interrupt and the next loop pass relays
    /// them to the host, where they wait on the connection.
    pub fn target_send_usart(&mut self, data: &Vec<u8>) -> (r: Result<(), NotConfiguredError>)
        ensures
            old(self).assistant.real_assistant.conn.device is None ==> (r matches Err(e) && e
                == NotConfiguredError) && *final(self) == *old(self),
            old(self).assistant.real_assistant.conn.device is Some ==> r is Ok
                && final(self).assistant.real_assistant.conn.device is Some
                && spec_target_bytes_pumped(
                old(self).assistant.real_assistant.conn.device->Some_0,
                final(self).assistant.real_assistant.conn.device->Some_0,
                data@,
                spec_deque_frames(old(self).assistant.real_assistant.conn.mock.data_in),
                spec_deque_frames(final(self).assistant.real_assistant.conn.mock.data_in),
            ) && final(self).assistant.real_assistant.conn.mock.data_out == old(
                self,
            ).assistant.real_assistant.conn.mock.data_out
                && final(self).assistant.real_assistant.pins == old(
                self,
            ).assistant.real_assistant.pins && final(self).assistant.real_assistant.num_pins
                == old(self).assistant.real_assistant.num_pins && final(self).assistant.engaged
                == old(self).assistant.engaged,
    {
        let configured = match &self.assistant.real_assistant.conn.device {
            Some(_) => true,
            None => false,
        };
        if !configured {
            return Err(NotConfiguredError);
        }
        let ghost d0 = self.assistant.real_assistant.conn.device->Some_0;
        match &mut self.assistant.real_assistant.conn.device {
            Some(device) => {
                device.receive_target_bytes(data);
            },
            None => {},
        }
        self.assistant.real_assistant.conn.pump();
        proof {
            assert(spec_target_bytes_pumped(
                d0,
                self.assistant.real_assistant.conn.device->Some_0,
                data@,
                spec_deque_frames(old(self).assistant.real_assistant.conn.mock.data_in),
                spec_deque_frames(self.assistant.real_assistant.conn.mock.data_in),
            ));
        }
        Ok(())
    }

    /// Stands for the target watching its USART receive line until the
    /// expected bytes have arrived from the assistant.
    pub fn target_wait_for_usart_rx(&self, data: &Vec<u8>) -> (r: Result<
        Vec<u8>,
        NotConfiguredError,
    >)
        requires
            data@.len() >= 1,
        ensures
            self.assistant.real_assistant.conn.device is None ==> (r matches Err(e) && e
                == NotConfiguredError),
            self.assistant.real_assistant.conn.device is Some ==> (match r {
                Ok(received) => received@
                    == self.assistant.real_assistant.conn.device->Some_0.target_tx@
                    && crate::assistant::spec_contains_pattern(received@, data@),
                Err(e) => e == NotConfiguredError && !crate::assistant::spec_contains_pattern(
                    self.assistant.real_assistant.conn.device->Some_0.target_tx@,
                    data@,
                ),
            }),
    {
        match &self.assistant.real_assistant.conn.device {
            None => Err(NotConfiguredError),
            Some(device) => {
                if crate::assistant::contains_subrange(&device.target_tx, data) {
                    let mut received: Vec<u8> = Vec::new();
                    received.extend_from_slice(device.target_tx.as_slice());
                    assert(received@ =~= device.target_tx@);
                    Ok(received)
                } else {
                    Err(NotConfiguredError)
                }
            },
        }
    }

    /// Stands for the target watching its DMA-backed USART receive path
    /// until the expected bytes have arrived from the assistant.
    pub fn target_wait_for_usart_rx_dma(&self, data: &Vec<u8>) -> (r: Result<
        Vec<u8>,
        NotConfiguredError,
    >)
        requires
            data@.len() >= 1,
        ensures
            self.assistant.real_assistant.conn.device is None ==> (r matches Err(e) && e
                == NotConfiguredError),
            self.assistant.real_assistant.conn.device is Some ==> (match r {
                Ok(received) => received@
                    == self.assistant.real_assistant.conn.device->Some_0.target_tx_dma@
                    && crate::assistant::spec_contains_pattern(received@, data@),
                Err(e) => e == NotConfiguredError && !crate::assistant::spec_contains_pattern(
                    self.assistant.real_assistant.conn.device->Some_0.target_tx_dma@,
                    data@,
                ),
            }),
    {
        match &self.assistant.real_assistant.conn.device {
            None => Err(NotConfiguredError),
            Some(device) => {
                if crate::assistant::contains_subrange(&device.target_tx_dma, data) {
                    let mut received: Vec<u8> = Vec::new();
                    received.extend_from_slice(device.target_tx_dma.as_slice());
                    assert(received@ =~= device.target_tx_dma@);
                    Ok(received)
                } else {
                    Err(NotConfiguredError)
                }
            },
        }
    }
}

} // verus!
