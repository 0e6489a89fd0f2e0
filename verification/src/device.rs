//! Model of the test assistant firmware
//!
//! The assistant's job splits into an interrupt side and a loop side.
//! Interrupt handlers observe the world: edges on monitored pins, the
//! periodic sampler, bytes arriving from the target. They only append events
//! to the bounded queues and byte buffers. The dispatch loop consumes: each
//! pass relays pending target bytes to the host, dispatches at most one host
//! command, drains every measurement queue into the latest-reading maps, and
//! only then decides whether the processor may sleep.
//!
//! On the board, the two sides interleave preemptively and the firmware masks
//! interrupts around the final check-then-sleep step so that no event can
//! slip in unobserved between the check and the sleep instruction. Here the
//! same state machine runs sequentially: the interrupt-side entry points
//! below stand for the interrupt handlers, [`AssistantDevice::poll`] is one
//! pass of the loop, and its result is the sleep decision taken at the point
//! where nothing further can interleave.

use vstd::prelude::*;

use crate::bounded::{
    event_queue_contents, reading_map_contents, reading_map_get, reading_map_insert,
    reading_map_new, EventQueue, PinMeasurementEvent, PinReading, ReadingMap,
    EVENT_QUEUE_CAPACITY, READING_MAP_CAPACITY,
};
use crate::codec::{
    decode_host_message, encode_assistant_message, encode_usart_receive,
    spec_decode_host_message, spec_encode_assistant_message,
};
use crate::messages::{
    AssistantToHost, AssistantToHostView, DynamicPin, HostToAssistant, HostToAssistantView,
    InputPin, OutputPin, ProtocolViolation, UsartMode,
};
use crate::pin::{Direction, Level, ReadLevel, ReadLevelResult, SetDirection};

verus! {

/// Board pin number of the RTS handshake line (driven by the target).
pub const RTS_PIN_NUMBER: u8 = 18;

/// Board pin number of the general-purpose fixed output pin.
pub const PIN_5_NUMBER: u8 = 5;

/// Board pin number of the CTS handshake line (driven by the assistant).
pub const CTS_PIN_NUMBER: u8 = 19;

/// Board pin number of the red onboard LED, the one interrupt-capable
/// dynamically reconfigurable pin.
pub const RED_LED_PIN_NUMBER: u8 = 29;

/// Board pin number of the green onboard LED, a polled dynamic pin.
pub const GREEN_LED_PIN_NUMBER: u8 = 31;

/// Board pin number wired to the target's timer interrupt signal; its
/// direction is fixed to input.
pub const TARGET_TIMER_PIN_NUMBER: u8 = 30;

/// Timer ticks per millisecond: the per-pin period timers run at 12 MHz.
pub const TICKS_PER_MS: u32 = 12000;

/// Whether a pin's direction is permanently fixed by the board wiring.
pub open spec fn spec_is_fixed_direction_pin(pin_number: u8) -> bool {
    pin_number == TARGET_TIMER_PIN_NUMBER
}

/// Whether a pin's direction is permanently fixed by the board wiring.
pub fn is_fixed_direction_pin(pin_number: u8) -> (r: bool)
    ensures
        r == spec_is_fixed_direction_pin(pin_number),
{
    pin_number == TARGET_TIMER_PIN_NUMBER
}

/// The reading a drained measurement event turns into: the observed level,
/// and the inter-edge period converted from timer ticks to milliseconds.
pub open spec fn spec_reading_of_event(e: PinMeasurementEvent) -> PinReading {
    (
        e.level,
        match e.period_ticks {
            Some(ticks) => Some((ticks / TICKS_PER_MS) as u32),
            None => None,
        },
    )
}

/// How a drained event lands in a latest-reading map: the pin's entry is
/// overwritten; a reading for a pin the full map does not track yet is
/// rejected. That is this design's capacity policy: the triggering
/// operation is refused and the device keeps running, where the map could
/// also have halted the device or evicted its oldest entry. On the pins
/// this board wires, the rejection is additionally proved unreachable for
/// the edge-reading map (see [`lemma_edge_map_has_room`]).
pub open spec fn spec_record_reading(
    m: Map<u8, PinReading>,
    key: u8,
    reading: PinReading,
) -> Map<u8, PinReading> {
    if m.dom().contains(key) || m.len() < READING_MAP_CAPACITY {
        m.insert(key, reading)
    } else {
        m
    }
}

/// The map that results from draining `events` in order, every event landing
/// under the same key.
pub open spec fn spec_drain_to_key(
    m: Map<u8, PinReading>,
    events: Seq<PinMeasurementEvent>,
    key: u8,
) -> Map<u8, PinReading>
    decreases events.len(),
{
    if events.len() == 0 {
        m
    } else {
        spec_drain_to_key(
            spec_record_reading(m, key, spec_reading_of_event(events[0])),
            events.drop_first(),
            key,
        )
    }
}

/// The map that results from draining `events` in order, each event landing
/// under its own pin number, with the period discarded: the periodic sampler
/// observes levels only.
pub open spec fn spec_drain_by_pin(
    m: Map<u8, PinReading>,
    events: Seq<PinMeasurementEvent>,
) -> Map<u8, PinReading>
    decreases events.len(),
{
    if events.len() == 0 {
        m
    } else {
        spec_drain_by_pin(
            spec_record_reading(m, events[0].pin_number, (events[0].level, None)),
            events.drop_first(),
        )
    }
}

/// Collects every event an interrupt handler queued for one fixed-role or
/// interrupt-capable pin, keeping only the latest reading.
///
/// The period of each retained reading reflects only the gap since the
/// previously retained event: when several edges queue up between two loop
/// passes, the intermediate readings are overwritten by design, so the
/// recorded period can understate the true toggle rate. That is a documented
/// precision limit of the measurement subsystem, not a defect.
pub fn drain_pin_events(queue: &mut EventQueue, key: u8, pins: &mut crate::bounded::ReadingMap)
    ensures
        event_queue_contents(*final(queue)).len() == 0,
        reading_map_contents(*final(pins)) == spec_drain_to_key(
            reading_map_contents(*old(pins)),
            event_queue_contents(*old(queue)),
            key,
        ),
{
    while !queue.is_empty()
        invariant
            spec_drain_to_key(
                reading_map_contents(*old(pins)),
                event_queue_contents(*old(queue)),
                key,
            ) == spec_drain_to_key(
                reading_map_contents(*pins),
                event_queue_contents(*queue),
                key,
            ),
        decreases event_queue_contents(*queue).len(),
    {
        match queue.dequeue() {
            None => {},
            Some(event) => {
                let period_ms = match event.period_ticks {
                    Some(ticks) => Some(ticks / TICKS_PER_MS),
                    None => None,
                };
                let _ = reading_map_insert(pins, key, (event.level, period_ms));
            },
        }
    }
}

/// Collects every pending observation of the periodic sampler, keeping only
/// the latest level per polled pin. Polled pins never carry a period.
pub fn drain_polled_events(consumer: &mut EventQueue, pins: &mut crate::bounded::ReadingMap)
    ensures
        event_queue_contents(*final(consumer)).len() == 0,
        reading_map_contents(*final(pins)) == spec_drain_by_pin(
            reading_map_contents(*old(pins)),
            event_queue_contents(*old(consumer)),
        ),
{
    while !consumer.is_empty()
        invariant
            spec_drain_by_pin(
                reading_map_contents(*old(pins)),
                event_queue_contents(*old(consumer)),
            ) == spec_drain_by_pin(reading_map_contents(*pins), event_queue_contents(*consumer)),
        decreases event_queue_contents(*consumer).len(),
    {
        match consumer.dequeue() {
            None => {},
            Some(event) => {
                let _ = reading_map_insert(pins, event.pin_number, (event.level, None));
            },
        }
    }
}

/// Draining a queue whose events all belong to one tracked pin leaves the
/// map holding exactly the latest queued reading for that pin: earlier
/// queued readings are overwritten, last write wins.
pub proof fn lemma_drain_last_write_wins(
    m: Map<u8, PinReading>,
    events: Seq<PinMeasurementEvent>,
    key: u8,
)
    requires
        events.len() > 0,
        m.dom().contains(key) || m.len() < READING_MAP_CAPACITY,
    ensures
        spec_drain_to_key(m, events, key) == m.insert(
            key,
            spec_reading_of_event(events.last()),
        ),
    decreases events.len(),
{
    let first_reading = spec_reading_of_event(events[0]);
    let m1 = m.insert(key, first_reading);
    assert(spec_record_reading(m, key, first_reading) == m1);
    if events.len() == 1 {
        assert(events.last() == events[0]);
        assert(spec_drain_to_key(m1, events.drop_first(), key) == m1);
    } else {
        lemma_drain_last_write_wins(m1, events.drop_first(), key);
        assert(events.drop_first().last() == events.last());
        assert(m1.insert(key, spec_reading_of_event(events.last())) == m.insert(
            key,
            spec_reading_of_event(events.last()),
        )) by {
            assert(m1.insert(key, spec_reading_of_event(events.last())) =~= m.insert(
                key,
                spec_reading_of_event(events.last()),
            ));
        }
    }
}


/// The direction and driven or observed level of one dynamically
/// reconfigurable pin.
#[derive(Clone, Copy, Debug, Eq, PartialEq, Structural)]
pub struct DynamicPinState {
    pub direction: Direction,
    pub level: Level,
}

/// One polled dynamic pin: reconfigurable at runtime, observed only by the
/// periodic sampler, never by an edge interrupt.
#[derive(Clone, Copy, Debug, Eq, PartialEq, Structural)]
pub struct PolledPin {
    pub pin_number: u8,
    pub state: DynamicPinState,
}

/// The state of the polled pin with the given number, if one is tracked:
/// the first match in allocation order.
pub open spec fn spec_polled_state(pins: Seq<PolledPin>, pin_number: u8) -> Option<DynamicPinState>
    decreases pins.len(),
{
    if pins.len() == 0 {
        None
    } else if pins[0].pin_number == pin_number {
        Some(pins[0].state)
    } else {
        spec_polled_state(pins.drop_first(), pin_number)
    }
}

/// The polled pins after the pin with the given number (first match in
/// allocation order) takes a new state; no change when none matches.
pub open spec fn spec_polled_update(
    pins: Seq<PolledPin>,
    pin_number: u8,
    state: DynamicPinState,
) -> Seq<PolledPin>
    decreases pins.len(),
{
    if pins.len() == 0 {
        pins
    } else if pins[0].pin_number == pin_number {
        pins.update(0, PolledPin { pin_number, state })
    } else {
        seq![pins[0]] + spec_polled_update(pins.drop_first(), pin_number, state)
    }
}

/// Model of the assistant board and firmware state
///
/// The pin fields stand for the hardware pin handles the firmware owns, the
/// queues and maps for its measurement subsystem, and the byte buffers for
/// the three USART links (host, target, synchronous target).
pub struct AssistantDevice {
    /// The interrupt-capable dynamic pin (the red LED, pin 29)
    pub pinint0_pin: DynamicPinState,
    /// The RTS handshake pin (pin 18), edge-monitored, driven by the target
    pub rts_pin: DynamicPinState,
    /// The fixed output pin 5
    pub pin_5: Level,
    /// The CTS handshake pin (pin 19), a fixed output
    pub cts: Level,
    /// The polled dynamic pins, observed by the periodic sampler only
    pub dyn_noint_pins: Vec<PolledPin>,
    /// Edge events of the interrupt-capable dynamic pin
    pub pinint0_events: EventQueue,
    /// Edge events of the RTS pin
    pub rts_events: EventQueue,
    /// Edge events of the target-timer pin (pin 30, fixed input)
    pub blue_events: EventQueue,
    /// Edge events of the PWM measurement pin (fixed input)
    pub pwm_events: EventQueue,
    /// Level samples of the polled dynamic pins
    pub dyn_noint_events: EventQueue,
    /// Latest reading per fixed input pin, keyed by [`InputPin::index`]
    pub fixed_pin_levels: ReadingMap,
    /// Latest reading per interrupt-capable dynamic pin, keyed by pin number
    pub dynamic_int_pin_levels: ReadingMap,
    /// Latest level per polled dynamic pin, keyed by pin number
    pub dynamic_noint_pin_levels: ReadingMap,
    /// Command frames from the host, awaiting dispatch
    pub host_rx: Vec<Vec<u8>>,
    /// Encoded reply and notification frames bound for the host
    pub host_tx: Vec<Vec<u8>>,
    /// Raw bytes received from the target on the regular USART
    pub target_rx: Vec<u8>,
    /// Raw bytes received from the target on the synchronous USART
    pub target_sync_rx: Vec<u8>,
    /// Byte stream sent to the target over the regular USART
    pub target_tx: Vec<u8>,
    /// Byte stream handed to the DMA-backed transmit path
    pub target_tx_dma: Vec<u8>,
    /// Byte stream sent to the target over the synchronous USART
    pub target_sync_tx: Vec<u8>,
}

impl AssistantDevice {
    /// Brings up the board model in its reset state: the dynamic pin and the
    /// RTS pin are inputs, every output is low, the polled pins 31, 33 and 6
    /// are allocated as inputs, and nothing is queued, recorded or buffered.
    pub fn new() -> (r: AssistantDevice)
        ensures
            r.pinint0_pin == (DynamicPinState { direction: Direction::Input, level: Level::High }),
            r.rts_pin == (DynamicPinState { direction: Direction::Input, level: Level::High }),
            r.pin_5 == Level::Low,
            r.cts == Level::Low,
            r.dyn_noint_pins@ =~= seq![
                PolledPin {
                    pin_number: GREEN_LED_PIN_NUMBER,
                    state: DynamicPinState { direction: Direction::Input, level: Level::Low },
                },
                PolledPin {
                    pin_number: 33,
                    state: DynamicPinState { direction: Direction::Input, level: Level::Low },
                },
                PolledPin {
                    pin_number: 6,
                    state: DynamicPinState { direction: Direction::Input, level: Level::Low },
                },
            ],
            event_queue_contents(r.pinint0_events).len() == 0,
            event_queue_contents(r.rts_events).len() == 0,
            event_queue_contents(r.blue_events).len() == 0,
            event_queue_contents(r.pwm_events).len() == 0,
            event_queue_contents(r.dyn_noint_events).len() == 0,
            reading_map_contents(r.fixed_pin_levels) == crate::bounded::empty_readings(),
            reading_map_contents(r.dynamic_int_pin_levels) == crate::bounded::empty_readings(),
            reading_map_contents(r.dynamic_noint_pin_levels) == crate::bounded::empty_readings(),
            r.host_rx@.len() == 0,
            r.host_tx@.len() == 0,
            r.target_rx@.len() == 0,
            r.target_sync_rx@.len() == 0,
            r.target_tx@.len() == 0,
            r.target_tx_dma@.len() == 0,
            r.target_sync_tx@.len() == 0,
            spec_edge_map_wf(r),
            spec_fixed_map_wf(r),
            spec_sampler_wf(r),
    {
        let mut dyn_noint_pins: Vec<PolledPin> = Vec::new();
        let off = DynamicPinState { direction: Direction::Input, level: Level::Low };
        dyn_noint_pins.push(PolledPin { pin_number: GREEN_LED_PIN_NUMBER, state: off });
        dyn_noint_pins.push(PolledPin { pin_number: 33, state: off });
        dyn_noint_pins.push(PolledPin { pin_number: 6, state: off });
        let r = AssistantDevice {
            pinint0_pin: DynamicPinState { direction: Direction::Input, level: Level::High },
            rts_pin: DynamicPinState { direction: Direction::Input, level: Level::High },
            pin_5: Level::Low,
            cts: Level::Low,
            dyn_noint_pins,
            pinint0_events: EventQueue::new(),
            rts_events: EventQueue::new(),
            blue_events: EventQueue::new(),
            pwm_events: EventQueue::new(),
            dyn_noint_events: EventQueue::new(),
            fixed_pin_levels: reading_map_new(),
            dynamic_int_pin_levels: reading_map_new(),
            dynamic_noint_pin_levels: reading_map_new(),
            host_rx: Vec::new(),
            host_tx: Vec::new(),
            target_rx: Vec::new(),
            target_sync_rx: Vec::new(),
            target_tx: Vec::new(),
            target_tx_dma: Vec::new(),
            target_sync_tx: Vec::new(),
        };
        proof {
            assert(reading_map_contents(r.dynamic_int_pin_levels).dom() =~= Set::<u8>::empty());
            assert(reading_map_contents(r.fixed_pin_levels).dom() =~= Set::<u8>::empty());
            assert(reading_map_contents(r.dynamic_noint_pin_levels).dom() =~= Set::<u8>::empty());
            assert(spec_polled_pin_numbers().contains(GREEN_LED_PIN_NUMBER));
            assert(spec_polled_pin_numbers().contains(33u8));
            assert(spec_polled_pin_numbers().contains(6u8));
        }
        r
    }
}


/// How an interrupt handler's push lands in a bounded queue: appended while
/// there is room, dropped once the queue is full. A dropped event costs one
/// observation; the next loop pass still sees the latest state of the world
/// through later events.
pub open spec fn spec_enqueue_bounded(
    q: Seq<PinMeasurementEvent>,
    e: PinMeasurementEvent,
) -> Seq<PinMeasurementEvent> {
    if q.len() < EVENT_QUEUE_CAPACITY {
        q.push(e)
    } else {
        q
    }
}

/// The observation the periodic sampler makes of one polled pin: its
/// current level, never a period.
pub open spec fn spec_sample_of(p: PolledPin) -> PinMeasurementEvent {
    PinMeasurementEvent { pin_number: p.pin_number, level: p.state.level, period_ticks: None }
}

/// The queue after the periodic sampler visits every polled pin in order.
pub open spec fn spec_sample_all(
    q: Seq<PinMeasurementEvent>,
    pins: Seq<PolledPin>,
) -> Seq<PinMeasurementEvent>
    decreases pins.len(),
{
    if pins.len() == 0 {
        q
    } else {
        spec_sample_all(spec_enqueue_bounded(q, spec_sample_of(pins[0])), pins.drop_first())
    }
}

impl AssistantDevice {
    /// Stands for the edge-interrupt handler of an interrupt-capable dynamic
    /// pin: records the pin's new level and the timer ticks elapsed since the
    /// previous edge into that pin's queue, and tracks the new level on the
    /// pin itself. Edges on pins without an edge interrupt are not observed.
    pub fn record_dynamic_pin_edge(&mut self, pin_number: u8, level: Level, period_ticks: Option<
        u32,
    >)
        ensures
            pin_number == RED_LED_PIN_NUMBER ==> event_queue_contents(final(self).pinint0_events)
                == spec_enqueue_bounded(
                event_queue_contents(old(self).pinint0_events),
                (PinMeasurementEvent { pin_number, level, period_ticks }),
            ) && final(self).pinint0_pin == (DynamicPinState {
                direction: old(self).pinint0_pin.direction,
                level,
            }) && *final(self) == (AssistantDevice {
                pinint0_events: final(self).pinint0_events,
                pinint0_pin: final(self).pinint0_pin,
                ..*old(self)
            }),
            pin_number == RTS_PIN_NUMBER ==> event_queue_contents(final(self).rts_events)
                == spec_enqueue_bounded(
                event_queue_contents(old(self).rts_events),
                (PinMeasurementEvent { pin_number, level, period_ticks }),
            ) && final(self).rts_pin == (DynamicPinState {
                direction: old(self).rts_pin.direction,
                level,
            }) && *final(self) == (AssistantDevice {
                rts_events: final(self).rts_events,
                rts_pin: final(self).rts_pin,
                ..*old(self)
            }),
            pin_number != RED_LED_PIN_NUMBER && pin_number != RTS_PIN_NUMBER ==> *final(self)
                == *old(self),
    {
        let event = PinMeasurementEvent { pin_number, level, period_ticks };
        if pin_number == RED_LED_PIN_NUMBER {
            self.pinint0_pin = DynamicPinState { direction: self.pinint0_pin.direction, level };
            let _ = self.pinint0_events.enqueue(event);
        } else if pin_number == RTS_PIN_NUMBER {
            self.rts_pin = DynamicPinState { direction: self.rts_pin.direction, level };
            let _ = self.rts_events.enqueue(event);
        }
    }

    /// Stands for the edge-interrupt handler of one of the fixed-role input
    /// pins that carry a measurement interrupt: the target-timer pin and the
    /// PWM pin. The other fixed pins have no edge interrupt.
    pub fn record_fixed_pin_edge(&mut self, pin: InputPin, level: Level, period_ticks: Option<
        u32,
    >)
        ensures
            pin is Blue ==> event_queue_contents(final(self).blue_events) == spec_enqueue_bounded(
                event_queue_contents(old(self).blue_events),
                (PinMeasurementEvent { pin_number: pin.index_spec(), level, period_ticks }),
            ) && *final(self) == (AssistantDevice {
                blue_events: final(self).blue_events,
                ..*old(self)
            }),
            pin is Pwm ==> event_queue_contents(final(self).pwm_events) == spec_enqueue_bounded(
                event_queue_contents(old(self).pwm_events),
                (PinMeasurementEvent { pin_number: pin.index_spec(), level, period_ticks }),
            ) && *final(self) == (AssistantDevice {
                pwm_events: final(self).pwm_events,
                ..*old(self)
            }),
            pin is Green || pin is Rts ==> *final(self) == *old(self),
    {
        match pin {
            InputPin::Blue => {
                let event = PinMeasurementEvent { pin_number: pin.index(), level, period_ticks };
                let _ = self.blue_events.enqueue(event);
            },
            InputPin::Pwm => {
                let event = PinMeasurementEvent { pin_number: pin.index(), level, period_ticks };
                let _ = self.pwm_events.enqueue(event);
            },
            _ => {},
        }
    }

    /// Stands for the periodic timer tick: samples the current level of
    /// every polled dynamic pin into the shared sampler queue, in allocation
    /// order, dropping samples once the queue is full.
    pub fn sample_polled_pins(&mut self)
        ensures
            event_queue_contents(final(self).dyn_noint_events) == spec_sample_all(
                event_queue_contents(old(self).dyn_noint_events),
                old(self).dyn_noint_pins@,
            ),
            *final(self) == (AssistantDevice {
                dyn_noint_events: final(self).dyn_noint_events,
                ..*old(self)
            }),
    {
        let mut i: usize = 0;
        assert(self.dyn_noint_pins@.skip(0) =~= self.dyn_noint_pins@);
        while i < self.dyn_noint_pins.len()
            invariant
                i <= self.dyn_noint_pins@.len(),
                spec_sample_all(
                    event_queue_contents(old(self).dyn_noint_events),
                    old(self).dyn_noint_pins@,
                ) == spec_sample_all(
                    event_queue_contents(self.dyn_noint_events),
                    self.dyn_noint_pins@.skip(i as int),
                ),
                *self == (AssistantDevice {
                    dyn_noint_events: self.dyn_noint_events,
                    ..*old(self)
                }),
            decreases self.dyn_noint_pins@.len() - i,
        {
            let p = self.dyn_noint_pins[i];
            let event = PinMeasurementEvent {
                pin_number: p.pin_number,
                level: p.state.level,
                period_ticks: None,
            };
            assert(self.dyn_noint_pins@.skip(i as int).drop_first() =~= self.dyn_noint_pins@.skip(
                i + 1,
            ));
            let _ = self.dyn_noint_events.enqueue(event);
            i = i + 1;
        }
        assert(self.dyn_noint_pins@.skip(i as int) =~= Seq::<PolledPin>::empty());
    }

    /// Stands for the receive interrupt of the regular target-facing USART:
    /// buffers the bytes until the next loop pass relays them to the host.
    pub fn receive_target_bytes(&mut self, data: &Vec<u8>)
        ensures
            final(self).target_rx@ == old(self).target_rx@ + data@,
            *final(self) == (AssistantDevice { target_rx: final(self).target_rx, ..*old(self) }),
    {
        self.target_rx.extend_from_slice(data.as_slice());
    }

    /// Stands for the receive interrupt of the synchronous target-facing
    /// USART: buffers the bytes until the next loop pass relays them.
    pub fn receive_target_sync_bytes(&mut self, data: &Vec<u8>)
        ensures
            final(self).target_sync_rx@ == old(self).target_sync_rx@ + data@,
            *final(self) == (AssistantDevice {
                target_sync_rx: final(self).target_sync_rx,
                ..*old(self)
            }),
    {
        self.target_sync_rx.extend_from_slice(data.as_slice());
    }

    /// Stands for the receive interrupt of the host-facing USART once a
    /// whole command frame has been assembled: queues it for dispatch.
    pub fn receive_host_frame(&mut self, frame: Vec<u8>)
        ensures
            final(self).host_rx@ == old(self).host_rx@.push(frame),
            *final(self) == (AssistantDevice { host_rx: final(self).host_rx, ..*old(self) }),
    {
        self.host_rx.push(frame);
    }

    /// Hands the host side the next frame the assistant sent it, oldest
    /// first.
    pub fn pop_host_frame(&mut self) -> (r: Option<Vec<u8>>)
        ensures
            old(self).host_tx@.len() == 0 ==> r is None && *final(self) == *old(self),
            old(self).host_tx@.len() > 0 ==> r == Some(old(self).host_tx@[0])
                && final(self).host_tx@ == old(self).host_tx@.drop_first()
                && *final(self) == (AssistantDevice {
                host_tx: final(self).host_tx,
                ..*old(self)
            }),
    {
        if self.host_tx.len() == 0 {
            None
        } else {
            Some(self.host_tx.remove(0))
        }
    }
}


/// The direction a dynamic pin is switched to, with the level to drive when
/// it becomes an output.
#[derive(Clone, Copy, Debug, Eq, PartialEq, Structural)]
pub enum ContextualDirection {
    Input,
    Output(Level),
}

/// Why a dynamic-pin operation was refused
#[derive(Clone, Copy, Debug, Eq, PartialEq, Structural)]
pub enum DynamicPinError {
    /// The addressed GPIO is not dynamically reconfigurable; carries the
    /// pin number.
    NotDynamicPin(u8),
    /// The addressed pin is not on the polled-pin list; carries the pin
    /// number.
    NotDynamicNoIntPin(u8),
    /// The addressed pin is not allocated as a GPIO at all.
    NotGpioPin,
}

/// Relates a linear search through the polled pins to the first-match spec
/// functions: stopping at index `i` pins down both the lookup and the
/// update.
pub proof fn lemma_polled_first_match(
    pins: Seq<PolledPin>,
    pin_number: u8,
    i: int,
    state: DynamicPinState,
)
    requires
        0 <= i <= pins.len(),
        forall|j: int| 0 <= j < i ==> pins[j].pin_number != pin_number,
        i < pins.len() ==> pins[i].pin_number == pin_number,
    ensures
        i == pins.len() ==> spec_polled_state(pins, pin_number) is None && spec_polled_update(
            pins,
            pin_number,
            state,
        ) == pins,
        i < pins.len() ==> spec_polled_state(pins, pin_number) == Some(pins[i].state)
            && spec_polled_update(pins, pin_number, state) == pins.update(
            i,
            (PolledPin { pin_number, state }),
        ),
    decreases pins.len(),
{
    if pins.len() == 0 {
    } else if i == 0 {
        assert(spec_polled_update(pins, pin_number, state) == pins.update(
            0,
            (PolledPin { pin_number, state }),
        ));
    } else {
        assert(pins[0].pin_number != pin_number);
        lemma_polled_first_match(pins.drop_first(), pin_number, i - 1, state);
        assert(forall|j: int|
            0 <= j < i - 1 ==> pins.drop_first()[j] == pins[j + 1] && pins[j
                + 1].pin_number != pin_number);
        if i == pins.len() {
            assert(spec_polled_update(pins, pin_number, state) =~= pins);
        } else {
            assert(spec_polled_update(pins, pin_number, state) == seq![pins[0]]
                + spec_polled_update(pins.drop_first(), pin_number, state));
            assert(spec_polled_update(pins, pin_number, state) =~= pins.update(
                i,
                (PolledPin { pin_number, state }),
            ));
        }
    }
}

impl AssistantDevice {
    /// Looks up the polled pin with the given number, returning its index.
    fn find_polled(&self, pin_number: u8) -> (r: Option<usize>)
        ensures
            match r {
                Some(i) => i < self.dyn_noint_pins@.len() && self.dyn_noint_pins@[
                    i as int
                ].pin_number == pin_number && spec_polled_state(self.dyn_noint_pins@, pin_number)
                    == Some(self.dyn_noint_pins@[i as int].state) && forall|j: int|
                    0 <= j < i ==> self.dyn_noint_pins@[j].pin_number != pin_number,
                None => spec_polled_state(self.dyn_noint_pins@, pin_number) is None,
            },
    {
        let mut i: usize = 0;
        while i < self.dyn_noint_pins.len()
            invariant
                i <= self.dyn_noint_pins@.len(),
                forall|j: int| 0 <= j < i ==> self.dyn_noint_pins@[j].pin_number != pin_number,
            decreases self.dyn_noint_pins@.len() - i,
        {
            if self.dyn_noint_pins[i].pin_number == pin_number {
                proof {
                    lemma_polled_first_match(
                        self.dyn_noint_pins@,
                        pin_number,
                        i as int,
                        self.dyn_noint_pins@[i as int].state,
                    );
                }
                return Some(i);
            }
            i = i + 1;
        }
        proof {
            lemma_polled_first_match(
                self.dyn_noint_pins@,
                pin_number,
                self.dyn_noint_pins@.len() as int,
                (DynamicPinState { direction: Direction::Input, level: Level::Low }),
            );
        }
        None
    }

    /// Changes the direction of the dynamic pin `pin` as `direction` says.
    ///
    /// The interrupt-capable pin additionally seeds its latest-reading map
    /// with the level it now carries and no period, so that a read landing
    /// before the first edge sees the just-set state instead of no data.
    /// Only dynamic pins can be switched: the fixed-direction pins are
    /// refused, as is a pin the polled list does not carry.
    pub fn handle_set_direction_dynamic(
        &mut self,
        pin: crate::messages::DynamicPin,
        direction: ContextualDirection,
    ) -> (r: Result<(), DynamicPinError>)
        ensures
            pin->GPIO_0 == RED_LED_PIN_NUMBER ==> r is Ok && final(self).pinint0_pin
                == spec_switched(old(self).pinint0_pin, direction) && reading_map_contents(
                final(self).dynamic_int_pin_levels,
            ) == spec_record_reading(
                reading_map_contents(old(self).dynamic_int_pin_levels),
                RED_LED_PIN_NUMBER,
                (spec_switched(old(self).pinint0_pin, direction).level, None),
            ) && *final(self) == (AssistantDevice {
                pinint0_pin: final(self).pinint0_pin,
                dynamic_int_pin_levels: final(self).dynamic_int_pin_levels,
                ..*old(self)
            }),
            pin->GPIO_0 != RED_LED_PIN_NUMBER && !spec_is_fixed_direction_pin(pin->GPIO_0)
                && spec_polled_state(old(self).dyn_noint_pins@, pin->GPIO_0) is Some ==> r is Ok
                && final(self).dyn_noint_pins@ == spec_polled_update(
                old(self).dyn_noint_pins@,
                pin->GPIO_0,
                spec_switched(
                    spec_polled_state(old(self).dyn_noint_pins@, pin->GPIO_0)->Some_0,
                    direction,
                ),
            ) && *final(self) == (AssistantDevice {
                dyn_noint_pins: final(self).dyn_noint_pins,
                ..*old(self)
            }),
            pin->GPIO_0 != RED_LED_PIN_NUMBER && !spec_is_fixed_direction_pin(pin->GPIO_0)
                && spec_polled_state(old(self).dyn_noint_pins@, pin->GPIO_0) is None ==> (
            r matches Err(e) && e == DynamicPinError::NotDynamicNoIntPin(pin->GPIO_0))
                && *final(self) == *old(self),
            pin->GPIO_0 != RED_LED_PIN_NUMBER && spec_is_fixed_direction_pin(pin->GPIO_0) ==> (
            r matches Err(e) && e == DynamicPinError::NotDynamicPin(pin->GPIO_0)) && *final(self)
                == *old(self),
    {
        let pin_number = match pin.get_pin_number() {
            Some(pn) => pn,
            None => {
                return Err(DynamicPinError::NotGpioPin);
            },
        };
        if pin_number == RED_LED_PIN_NUMBER {
            let level = match direction {
                ContextualDirection::Output(commanded) => {
                    self.pinint0_pin = DynamicPinState {
                        direction: Direction::Output,
                        level: commanded,
                    };
                    commanded
                },
                ContextualDirection::Input => {
                    self.pinint0_pin = DynamicPinState {
                        direction: Direction::Input,
                        level: self.pinint0_pin.level,
                    };
                    self.pinint0_pin.level
                },
            };
            let _ = reading_map_insert(
                &mut self.dynamic_int_pin_levels,
                RED_LED_PIN_NUMBER,
                (level, None),
            );
            Ok(())
        } else if !is_fixed_direction_pin(pin_number) {
            match self.find_polled(pin_number) {
                Some(i) => {
                    let current = self.dyn_noint_pins[i].state;
                    let state = match direction {
                        ContextualDirection::Output(commanded) => DynamicPinState {
                            direction: Direction::Output,
                            level: commanded,
                        },
                        ContextualDirection::Input => DynamicPinState {
                            direction: Direction::Input,
                            level: current.level,
                        },
                    };
                    self.dyn_noint_pins.set(i, PolledPin { pin_number, state });
                    proof {
                        lemma_polled_first_match(
                            old(self).dyn_noint_pins@,
                            pin_number,
                            i as int,
                            state,
                        );
                    }
                    Ok(())
                },
                None => Err(DynamicPinError::NotDynamicNoIntPin(pin_number)),
            }
        } else {
            Err(DynamicPinError::NotDynamicPin(pin_number))
        }
    }
}

/// The state a dynamic pin takes when switched: an output drives the
/// commanded level, an input keeps observing the level it already carries.
pub open spec fn spec_switched(
    current: DynamicPinState,
    direction: ContextualDirection,
) -> DynamicPinState {
    match direction {
        ContextualDirection::Output(commanded) => DynamicPinState {
            direction: Direction::Output,
            level: commanded,
        },
        ContextualDirection::Input => DynamicPinState {
            direction: Direction::Input,
            level: current.level,
        },
    }
}


/// The byte frames a frame buffer holds, in order.
pub open spec fn spec_frames(v: Vec<Vec<u8>>) -> Seq<Seq<u8>> {
    v@.map_values(|f: Vec<u8>| f@)
}

/// The reply the assistant gives to a dynamic-pin read: the latest retained
/// reading of that pin, `None` when none was ever recorded. A polled pin
/// answers from the sampler map and never carries a period; an
/// interrupt-capable pin answers from the edge map, period included.
pub open spec fn spec_dynamic_read_reply(pre: AssistantDevice, pin: DynamicPin) -> AssistantToHostView {
    let pn = pin->GPIO_0;
    AssistantToHostView::ReadPinResultDynamic(
        if spec_polled_state(pre.dyn_noint_pins@, pn) is Some {
            if reading_map_contents(pre.dynamic_noint_pin_levels).dom().contains(pn) {
                Some(ReadLevelResult {
                    pin,
                    level: reading_map_contents(pre.dynamic_noint_pin_levels)[pn].0,
                    period_ms: None,
                })
            } else {
                None
            }
        } else {
            if reading_map_contents(pre.dynamic_int_pin_levels).dom().contains(pn) {
                Some(ReadLevelResult {
                    pin,
                    level: reading_map_contents(pre.dynamic_int_pin_levels)[pn].0,
                    period_ms: reading_map_contents(pre.dynamic_int_pin_levels)[pn].1,
                })
            } else {
                None
            }
        },
    )
}

/// Holds when `post` is `pre` with exactly one more frame to the host: the
/// encoding of `reply`.
pub open spec fn spec_replied(
    pre: AssistantDevice,
    post: AssistantDevice,
    reply: AssistantToHostView,
) -> bool {
    &&& spec_frames(post.host_tx) == spec_frames(pre.host_tx).push(
        spec_encode_assistant_message(reply),
    )
    &&& post == (AssistantDevice { host_tx: post.host_tx, ..pre })
}

impl AssistantDevice {
    /// Encodes `reply` and queues it for the host.
    fn send_reply(&mut self, reply: &AssistantToHost)
        ensures
            spec_replied(*old(self), *final(self), reply@),
    {
        let frame = encode_assistant_message(reply);
        self.host_tx.push(frame);
        assert(spec_frames(self.host_tx) =~= spec_frames(old(self).host_tx).push(
            spec_encode_assistant_message(reply@),
        ));
    }

    /// Answers a read of a dynamically reconfigurable pin with the latest
    /// retained reading, or refuses a pin whose direction is fixed.
    ///
    /// The reply always comes when the pin is dynamic: a pin that was never
    /// observed answers with no reading rather than stalling the host.
    pub fn handle_read_dynamic_pin(&mut self, pin: DynamicPin) -> (r: Result<(), DynamicPinError>)
        ensures
            !spec_is_fixed_direction_pin(pin->GPIO_0) ==> r is Ok && spec_replied(
                *old(self),
                *final(self),
                spec_dynamic_read_reply(*old(self), pin),
            ),
            spec_is_fixed_direction_pin(pin->GPIO_0) ==> (r matches Err(e) && e
                == DynamicPinError::NotDynamicPin(pin->GPIO_0)) && *final(self) == *old(self),
    {
        let pin_number = match pin.get_pin_number() {
            Some(pn) => pn,
            None => {
                return Err(DynamicPinError::NotGpioPin);
            },
        };
        if is_fixed_direction_pin(pin_number) {
            return Err(DynamicPinError::NotDynamicPin(pin_number));
        }
        let is_dyn_noint_pin = match self.find_polled(pin_number) {
            Some(_) => true,
            None => false,
        };
        let result = if is_dyn_noint_pin {
            match reading_map_get(&self.dynamic_noint_pin_levels, pin_number) {
                Some((level, _)) => Some((level, None)),
                None => None,
            }
        } else {
            reading_map_get(&self.dynamic_int_pin_levels, pin_number)
        };
        let read_level_result = match result {
            Some((level, period_ms)) => Some(ReadLevelResult { pin, level, period_ms }),
            None => None,
        };
        self.send_reply(&AssistantToHost::ReadPinResultDynamic(read_level_result));
        Ok(())
    }
}


/// The reply the assistant gives to a fixed-pin read: the latest retained
/// reading of that pin, `None` when none was ever recorded.
pub open spec fn spec_fixed_read_reply(pre: AssistantDevice, pin: InputPin) -> AssistantToHostView {
    let key = pin.index_spec();
    AssistantToHostView::ReadPinResult(
        if reading_map_contents(pre.fixed_pin_levels).dom().contains(key) {
            Some(ReadLevelResult {
                pin,
                level: reading_map_contents(pre.fixed_pin_levels)[key].0,
                period_ms: reading_map_contents(pre.fixed_pin_levels)[key].1,
            })
        } else {
            None
        },
    )
}

/// How a command to set a dynamic pin's level lands: a pin configured as
/// output takes the level; one configured as input silently ignores the
/// command (that asymmetry is deliberate); the target-driven RTS pin is
/// refused as reserved; an untracked pin is reported as unknown.
pub open spec fn spec_set_dynamic_pin(
    pre: AssistantDevice,
    post: AssistantDevice,
    pn: u8,
    level: Level,
) -> bool {
    if pn == RED_LED_PIN_NUMBER {
        if pre.pinint0_pin.direction is Output {
            post == (AssistantDevice {
                pinint0_pin: DynamicPinState { direction: Direction::Output, level },
                ..pre
            })
        } else {
            post == pre
        }
    } else if pn == CTS_PIN_NUMBER {
        post == (AssistantDevice { cts: level, ..pre })
    } else if pn == RTS_PIN_NUMBER {
        spec_replied(
            pre,
            post,
            AssistantToHostView::ProtocolError(ProtocolViolation::ReservedPin(RTS_PIN_NUMBER)),
        )
    } else {
        match spec_polled_state(pre.dyn_noint_pins@, pn) {
            Some(st) => if st.direction is Output {
                post.dyn_noint_pins@ == spec_polled_update(
                    pre.dyn_noint_pins@,
                    pn,
                    (DynamicPinState { direction: Direction::Output, level }),
                ) && post == (AssistantDevice { dyn_noint_pins: post.dyn_noint_pins, ..pre })
            } else {
                post == pre
            },
            None => spec_replied(
                pre,
                post,
                AssistantToHostView::ProtocolError(ProtocolViolation::UnknownPin(pn)),
            ),
        }
    }
}

/// How a direction switch lands. An input must carry no level and an output
/// exactly one; the illegal combinations are answered with a protocol-error
/// reply and change nothing, never silently coerced. Reserved fixed-role
/// pins refuse the switch with a reserved-pin error; switching the CTS pin
/// to output and the RTS pin to input match their fixed roles and are
/// honoured; the interrupt-capable pin seeds its reading map as
/// [`AssistantDevice::handle_set_direction_dynamic`] says.
pub open spec fn spec_set_direction(
    pre: AssistantDevice,
    post: AssistantDevice,
    sd: SetDirection<DynamicPin>,
) -> bool {
    let pn = sd.pin->GPIO_0;
    if sd.direction is Input && sd.level is Some {
        spec_replied(
            pre,
            post,
            AssistantToHostView::ProtocolError(ProtocolViolation::InputLevelNotEmpty),
        )
    } else if sd.direction is Output && sd.level is None {
        spec_replied(
            pre,
            post,
            AssistantToHostView::ProtocolError(ProtocolViolation::OutputLevelMissing),
        )
    } else {
        let cd = match sd.direction {
            Direction::Output => ContextualDirection::Output(sd.level->Some_0),
            Direction::Input => ContextualDirection::Input,
        };
        if pn == RED_LED_PIN_NUMBER {
            post.pinint0_pin == spec_switched(pre.pinint0_pin, cd) && reading_map_contents(
                post.dynamic_int_pin_levels,
            ) == spec_record_reading(
                reading_map_contents(pre.dynamic_int_pin_levels),
                RED_LED_PIN_NUMBER,
                (spec_switched(pre.pinint0_pin, cd).level, None),
            ) && post == (AssistantDevice {
                pinint0_pin: post.pinint0_pin,
                dynamic_int_pin_levels: post.dynamic_int_pin_levels,
                ..pre
            })
        } else if pn == CTS_PIN_NUMBER {
            if sd.direction is Output {
                post == (AssistantDevice { cts: sd.level->Some_0, ..pre })
            } else {
                spec_replied(
                    pre,
                    post,
                    AssistantToHostView::ProtocolError(
                        ProtocolViolation::ReservedPin(CTS_PIN_NUMBER),
                    ),
                )
            }
        } else if pn == PIN_5_NUMBER {
            if sd.direction is Output {
                post == (AssistantDevice { pin_5: sd.level->Some_0, ..pre })
            } else {
                spec_replied(
                    pre,
                    post,
                    AssistantToHostView::ProtocolError(
                        ProtocolViolation::ReservedPin(PIN_5_NUMBER),
                    ),
                )
            }
        } else if pn == RTS_PIN_NUMBER {
            if sd.direction is Input {
                post == (AssistantDevice {
                    rts_pin: DynamicPinState {
                        direction: Direction::Input,
                        level: pre.rts_pin.level,
                    },
                    ..pre
                })
            } else {
                spec_replied(
                    pre,
                    post,
                    AssistantToHostView::ProtocolError(
                        ProtocolViolation::ReservedPin(RTS_PIN_NUMBER),
                    ),
                )
            }
        } else if pn == TARGET_TIMER_PIN_NUMBER {
            if sd.direction is Input {
                post == pre
            } else {
                spec_replied(
                    pre,
                    post,
                    AssistantToHostView::ProtocolError(
                        ProtocolViolation::ReservedPin(TARGET_TIMER_PIN_NUMBER),
                    ),
                )
            }
        } else {
            match spec_polled_state(pre.dyn_noint_pins@, pn) {
                Some(st) => post.dyn_noint_pins@ == spec_polled_update(
                    pre.dyn_noint_pins@,
                    pn,
                    spec_switched(st, cd),
                ) && post == (AssistantDevice { dyn_noint_pins: post.dyn_noint_pins, ..pre }),
                None => spec_replied(
                    pre,
                    post,
                    AssistantToHostView::ProtocolError(ProtocolViolation::UnknownPin(pn)),
                ),
            }
        }
    }
}

/// What one dispatched host command does to the assistant: the complete
/// relation between the state before, the state after, and the command.
pub open spec fn spec_dispatch(
    pre: AssistantDevice,
    post: AssistantDevice,
    msg: HostToAssistantView,
) -> bool {
    match msg {
        HostToAssistantView::SendUsart { mode, data } => match mode {
            UsartMode::Regular => post.target_tx@ == pre.target_tx@ + data && post
                == (AssistantDevice { target_tx: post.target_tx, ..pre }),
            UsartMode::Dma => post.target_tx_dma@ == pre.target_tx_dma@ + data && post
                == (AssistantDevice { target_tx_dma: post.target_tx_dma, ..pre }),
            UsartMode::Sync => post.target_sync_tx@ == pre.target_sync_tx@ + data && post
                == (AssistantDevice { target_sync_tx: post.target_sync_tx, ..pre }),
            UsartMode::FlowControl => post == pre,
        },
        HostToAssistantView::SetPin(sl) => match sl.pin {
            OutputPin::Pin5 => post == (AssistantDevice { pin_5: sl.level, ..pre }),
            OutputPin::Cts => post == (AssistantDevice { cts: sl.level, ..pre }),
            OutputPin::Red => spec_set_dynamic_pin(pre, post, RED_LED_PIN_NUMBER, sl.level),
        },
        HostToAssistantView::SetDynamicPin(sl) => spec_set_dynamic_pin(
            pre,
            post,
            sl.pin->GPIO_0,
            sl.level,
        ),
        HostToAssistantView::ReadPin(rl) => spec_replied(
            pre,
            post,
            spec_fixed_read_reply(pre, rl.pin),
        ),
        HostToAssistantView::ReadDynamicPin(rl) => if spec_is_fixed_direction_pin(rl.pin->GPIO_0) {
            spec_replied(
                pre,
                post,
                AssistantToHostView::ProtocolError(ProtocolViolation::ReservedPin(rl.pin->GPIO_0)),
            )
        } else {
            spec_replied(pre, post, spec_dynamic_read_reply(pre, rl.pin))
        },
        HostToAssistantView::SetDirection(sd) => spec_set_direction(pre, post, sd),
    }
}

impl AssistantDevice {
    /// Applies a level command to a dynamic pin, as
    /// [`spec_set_dynamic_pin`] says.
    fn set_dynamic_pin_level(&mut self, pn: u8, level: Level)
        ensures
            spec_set_dynamic_pin(*old(self), *final(self), pn, level),
    {
        if pn == RED_LED_PIN_NUMBER {
            match self.pinint0_pin.direction {
                Direction::Output => {
                    self.pinint0_pin = DynamicPinState { direction: Direction::Output, level };
                },
                Direction::Input => {},
            }
        } else if pn == CTS_PIN_NUMBER {
            self.cts = level;
        } else if pn == RTS_PIN_NUMBER {
            self.send_reply(
                &AssistantToHost::ProtocolError(ProtocolViolation::ReservedPin(RTS_PIN_NUMBER)),
            );
        } else {
            match self.find_polled(pn) {
                Some(i) => {
                    match self.dyn_noint_pins[i].state.direction {
                        Direction::Output => {
                            let state = DynamicPinState { direction: Direction::Output, level };
                            self.dyn_noint_pins.set(i, PolledPin { pin_number: pn, state });
                            proof {
                                lemma_polled_first_match(
                                    old(self).dyn_noint_pins@,
                                    pn,
                                    i as int,
                                    state,
                                );
                            }
                        },
                        Direction::Input => {},
                    }
                },
                None => {
                    self.send_reply(
                        &AssistantToHost::ProtocolError(ProtocolViolation::UnknownPin(pn)),
                    );
                },
            }
        }
    }

    /// Applies a legal direction switch addressed to input, as
    /// [`spec_set_direction`] says.
    fn set_direction_input(&mut self, pin: DynamicPin)
        ensures
            spec_set_direction(
                *old(self),
                *final(self),
                (SetDirection { pin, direction: Direction::Input, level: None }),
            ),
    {
        let pn = match pin.get_pin_number() {
            Some(pn) => pn,
            None => {
                return ;
            },
        };
        if pn == RED_LED_PIN_NUMBER {
            let _ = self.handle_set_direction_dynamic(pin, ContextualDirection::Input);
        } else if pn == CTS_PIN_NUMBER {
            self.send_reply(
                &AssistantToHost::ProtocolError(ProtocolViolation::ReservedPin(CTS_PIN_NUMBER)),
            );
        } else if pn == PIN_5_NUMBER {
            self.send_reply(
                &AssistantToHost::ProtocolError(ProtocolViolation::ReservedPin(PIN_5_NUMBER)),
            );
        } else if pn == RTS_PIN_NUMBER {
            self.rts_pin = DynamicPinState { direction: Direction::Input, level: self.rts_pin.level };
        } else if pn == TARGET_TIMER_PIN_NUMBER {
        } else {
            match self.handle_set_direction_dynamic(pin, ContextualDirection::Input) {
                Ok(_) => {},
                Err(_) => {
                    self.send_reply(
                        &AssistantToHost::ProtocolError(ProtocolViolation::UnknownPin(pn)),
                    );
                },
            }
        }
    }

    /// Applies a legal direction switch addressed to output, as
    /// [`spec_set_direction`] says.
    fn set_direction_output(&mut self, pin: DynamicPin, level: Level)
        ensures
            spec_set_direction(
                *old(self),
                *final(self),
                (SetDirection { pin, direction: Direction::Output, level: Some(level) }),
            ),
    {
        let pn = match pin.get_pin_number() {
            Some(pn) => pn,
            None => {
                return ;
            },
        };
        if pn == RED_LED_PIN_NUMBER {
            let _ = self.handle_set_direction_dynamic(pin, ContextualDirection::Output(level));
        } else if pn == CTS_PIN_NUMBER {
            self.cts = level;
        } else if pn == PIN_5_NUMBER {
            self.pin_5 = level;
        } else if pn == RTS_PIN_NUMBER {
            self.send_reply(
                &AssistantToHost::ProtocolError(ProtocolViolation::ReservedPin(RTS_PIN_NUMBER)),
            );
        } else if pn == TARGET_TIMER_PIN_NUMBER {
            self.send_reply(
                &AssistantToHost::ProtocolError(
                    ProtocolViolation::ReservedPin(TARGET_TIMER_PIN_NUMBER),
                ),
            );
        } else {
            match self.handle_set_direction_dynamic(pin, ContextualDirection::Output(level)) {
                Ok(_) => {},
                Err(_) => {
                    self.send_reply(
                        &AssistantToHost::ProtocolError(ProtocolViolation::UnknownPin(pn)),
                    );
                },
            }
        }
    }

    /// Dispatches one decoded host command to its handler: the closed
    /// message set makes this a single match, and every command changes the
    /// assistant exactly as [`spec_dispatch`] says.
    pub fn handle_host_message(&mut self, msg: &HostToAssistant)
        ensures
            spec_dispatch(*old(self), *final(self), msg@),
    {
        match msg {
            HostToAssistant::SendUsart { mode, data } => {
                match mode {
                    UsartMode::Regular => {
                        self.target_tx.extend_from_slice(data.as_slice());
                        assert(msg@ == (HostToAssistantView::SendUsart {
                            mode: *mode,
                            data: data@,
                        }));
                        assert(self.target_tx@ == old(self).target_tx@ + data@);
                    },
                    UsartMode::Dma => {
                        self.target_tx_dma.extend_from_slice(data.as_slice());
                        assert(msg@ == (HostToAssistantView::SendUsart {
                            mode: *mode,
                            data: data@,
                        }));
                        assert(self.target_tx_dma@ == old(self).target_tx_dma@ + data@);
                    },
                    UsartMode::FlowControl => {},
                    UsartMode::Sync => {
                        self.target_sync_tx.extend_from_slice(data.as_slice());
                        assert(msg@ == (HostToAssistantView::SendUsart {
                            mode: *mode,
                            data: data@,
                        }));
                        assert(self.target_sync_tx@ == old(self).target_sync_tx@ + data@);
                    },
                }
            },
            HostToAssistant::SetPin(sl) => {
                match sl.pin {
                    OutputPin::Pin5 => {
                        self.pin_5 = sl.level;
                    },
                    OutputPin::Cts => {
                        self.cts = sl.level;
                    },
                    OutputPin::Red => {
                        self.set_dynamic_pin_level(RED_LED_PIN_NUMBER, sl.level);
                    },
                }
            },
            HostToAssistant::SetDynamicPin(sl) => {
                let pn = match sl.pin.get_pin_number() {
                    Some(pn) => pn,
                    None => {
                        return ;
                    },
                };
                self.set_dynamic_pin_level(pn, sl.level);
            },
            HostToAssistant::ReadPin(rl) => {
                let key = rl.pin.index();
                let result = reading_map_get(&self.fixed_pin_levels, key);
                let read_level_result = match result {
                    Some((level, period_ms)) => Some(
                        ReadLevelResult { pin: rl.pin, level, period_ms },
                    ),
                    None => None,
                };
                self.send_reply(&AssistantToHost::ReadPinResult(read_level_result));
            },
            HostToAssistant::ReadDynamicPin(rl) => {
                let pn = match rl.pin.get_pin_number() {
                    Some(pn) => pn,
                    None => {
                        return ;
                    },
                };
                if is_fixed_direction_pin(pn) {
                    self.send_reply(
                        &AssistantToHost::ProtocolError(ProtocolViolation::ReservedPin(pn)),
                    );
                } else {
                    let _ = self.handle_read_dynamic_pin(rl.pin);
                }
            },
            HostToAssistant::SetDirection(sd) => {
                match (sd.direction, sd.level) {
                    (Direction::Input, Some(_)) => {
                        self.send_reply(
                            &AssistantToHost::ProtocolError(ProtocolViolation::InputLevelNotEmpty),
                        );
                    },
                    (Direction::Output, None) => {
                        self.send_reply(
                            &AssistantToHost::ProtocolError(ProtocolViolation::OutputLevelMissing),
                        );
                    },
                    (Direction::Input, None) => {
                        self.set_direction_input(sd.pin);
                    },
                    (Direction::Output, Some(level)) => {
                        self.set_direction_output(sd.pin, level);
                    },
                }
            },
        }
    }
}


/// The notifications one relay pass sends: the buffered regular-USART bytes
/// as one frame if there are any, then the buffered synchronous-USART bytes
/// as one frame if there are any.
pub open spec fn spec_relay_frames(regular: Seq<u8>, sync: Seq<u8>) -> Seq<Seq<u8>> {
    (if regular.len() > 0 {
        seq![
            spec_encode_assistant_message(
                AssistantToHostView::UsartReceive { mode: UsartMode::Regular, data: regular },
            ),
        ]
    } else {
        Seq::empty()
    }) + (if sync.len() > 0 {
        seq![
            spec_encode_assistant_message(
                AssistantToHostView::UsartReceive { mode: UsartMode::Sync, data: sync },
            ),
        ]
    } else {
        Seq::empty()
    })
}

/// Holds when `post` is `pre` after one relay pass: everything the target
/// sent since the last pass is on its way to the host, and the receive
/// buffers are empty again.
pub open spec fn spec_relayed(pre: AssistantDevice, post: AssistantDevice) -> bool {
    &&& spec_frames(post.host_tx) == spec_frames(pre.host_tx) + spec_relay_frames(
        pre.target_rx@,
        pre.target_sync_rx@,
    )
    &&& post.target_rx@.len() == 0
    &&& post.target_sync_rx@.len() == 0
    &&& post == (AssistantDevice {
        host_tx: post.host_tx,
        target_rx: post.target_rx,
        target_sync_rx: post.target_sync_rx,
        ..pre
    })
}

/// Holds when `post` is `pre` after one dispatch pass: at most one pending
/// host frame is consumed; a well-formed frame is dispatched as
/// [`spec_dispatch`] says, a malformed one is discarded.
pub open spec fn spec_dispatched_one(pre: AssistantDevice, post: AssistantDevice) -> bool {
    if pre.host_rx@.len() == 0 {
        post == pre
    } else {
        &&& post.host_rx@ == pre.host_rx@.drop_first()
        &&& match spec_decode_host_message(spec_frames(pre.host_rx)[0]) {
            Some(m) => spec_dispatch((AssistantDevice { host_rx: post.host_rx, ..pre }), post, m),
            None => post == (AssistantDevice { host_rx: post.host_rx, ..pre }),
        }
    }
}

/// Holds when `post` is `pre` after the measurement queues are drained to
/// empty, each into its map: the PWM and target-timer events into the fixed
/// map under their pin indexes, the dynamic-pin and RTS events into the
/// edge map under their pin numbers, the sampler events into the polled
/// map.
pub open spec fn spec_drained(pre: AssistantDevice, post: AssistantDevice) -> bool {
    &&& event_queue_contents(post.pwm_events).len() == 0
    &&& event_queue_contents(post.blue_events).len() == 0
    &&& event_queue_contents(post.pinint0_events).len() == 0
    &&& event_queue_contents(post.rts_events).len() == 0
    &&& event_queue_contents(post.dyn_noint_events).len() == 0
    &&& reading_map_contents(post.fixed_pin_levels) == spec_drain_to_key(
        spec_drain_to_key(
            reading_map_contents(pre.fixed_pin_levels),
            event_queue_contents(pre.pwm_events),
            InputPin::Pwm.index_spec(),
        ),
        event_queue_contents(pre.blue_events),
        InputPin::Blue.index_spec(),
    )
    &&& reading_map_contents(post.dynamic_int_pin_levels) == spec_drain_to_key(
        spec_drain_to_key(
            reading_map_contents(pre.dynamic_int_pin_levels),
            event_queue_contents(pre.pinint0_events),
            RED_LED_PIN_NUMBER,
        ),
        event_queue_contents(pre.rts_events),
        RTS_PIN_NUMBER,
    )
    &&& reading_map_contents(post.dynamic_noint_pin_levels) == spec_drain_by_pin(
        reading_map_contents(pre.dynamic_noint_pin_levels),
        event_queue_contents(pre.dyn_noint_events),
    )
    &&& post == (AssistantDevice {
        pwm_events: post.pwm_events,
        blue_events: post.blue_events,
        pinint0_events: post.pinint0_events,
        rts_events: post.rts_events,
        dyn_noint_events: post.dyn_noint_events,
        fixed_pin_levels: post.fixed_pin_levels,
        dynamic_int_pin_levels: post.dynamic_int_pin_levels,
        dynamic_noint_pin_levels: post.dynamic_noint_pin_levels,
        ..pre
    })
}

impl AssistantDevice {
    /// Relays the raw bytes buffered from the target-facing USARTs to the
    /// host, one notification frame per link, and clears the buffers.
    pub fn relay_target_data(&mut self)
        ensures
            spec_relayed(*old(self), *final(self)),
    {
        let ghost pre = *self;
        if self.target_rx.len() > 0 {
            let frame = encode_usart_receive(UsartMode::Regular, &self.target_rx);
            self.host_tx.push(frame);
            self.target_rx.clear();
        }
        let ghost mid = *self;
        assert(spec_frames(mid.host_tx) =~= spec_frames(pre.host_tx) + (
        if pre.target_rx@.len() > 0 {
            seq![
                spec_encode_assistant_message(
                    AssistantToHostView::UsartReceive {
                        mode: UsartMode::Regular,
                        data: pre.target_rx@,
                    },
                ),
            ]
        } else {
            Seq::empty()
        }));
        if self.target_sync_rx.len() > 0 {
            let frame = encode_usart_receive(UsartMode::Sync, &self.target_sync_rx);
            self.host_tx.push(frame);
            self.target_sync_rx.clear();
        }
        assert(spec_frames(self.host_tx) =~= spec_frames(pre.host_tx) + spec_relay_frames(
            pre.target_rx@,
            pre.target_sync_rx@,
        ));
    }

    /// Takes the oldest pending host frame, if any, and dispatches it; a
    /// frame that does not decode as a command is discarded.
    pub fn dispatch_one_host_frame(&mut self)
        ensures
            spec_dispatched_one(*old(self), *final(self)),
    {
        if self.host_rx.len() > 0 {
            let frame = self.host_rx.remove(0);
            assert(self.host_rx@ =~= old(self).host_rx@.drop_first());
            assert(frame@ == spec_frames(old(self).host_rx)[0]);
            match decode_host_message(&frame) {
                Some(msg) => {
                    self.handle_host_message(&msg);
                },
                None => {},
            }
        }
    }

    /// Drains every measurement queue to empty, recording the latest
    /// reading per pin, as the loop does on each pass before it considers
    /// sleeping.
    pub fn drain_measurement_queues(&mut self)
        ensures
            spec_drained(*old(self), *final(self)),
    {
        let pwm_key = InputPin::Pwm.index();
        let blue_key = InputPin::Blue.index();
        drain_pin_events(&mut self.pwm_events, pwm_key, &mut self.fixed_pin_levels);
        drain_pin_events(&mut self.blue_events, blue_key, &mut self.fixed_pin_levels);
        drain_pin_events(
            &mut self.pinint0_events,
            RED_LED_PIN_NUMBER,
            &mut self.dynamic_int_pin_levels,
        );
        drain_pin_events(&mut self.rts_events, RTS_PIN_NUMBER, &mut self.dynamic_int_pin_levels);
        drain_polled_events(&mut self.dyn_noint_events, &mut self.dynamic_noint_pin_levels);
    }

    /// One pass of the firmware's dispatch loop: relay what the target
    /// sent, dispatch at most one host command, drain the measurement
    /// queues, then decide whether the processor may sleep.
    ///
    /// The result is the sleep decision, taken over the state the pass
    /// leaves behind: sleep is allowed exactly when no host frame, no
    /// target byte and no dynamic-pin edge is still pending. On the board
    /// this check runs with interrupts masked and the sleep instruction is
    /// issued before they are released, so an event arriving between check
    /// and sleep still wakes the processor.
    pub fn poll(&mut self) -> (should_sleep: bool)
        ensures
            exists|mid1: AssistantDevice, mid2: AssistantDevice|
                spec_relayed(*old(self), mid1) && #[trigger] spec_dispatched_one(mid1, mid2)
                    && spec_drained(mid2, *final(self)),
            should_sleep == (final(self).host_rx@.len() == 0 && final(self).target_rx@.len() == 0
                && event_queue_contents(final(self).pinint0_events).len() == 0),
    {
        self.relay_target_data();
        let ghost mid1 = *self;
        self.dispatch_one_host_frame();
        let ghost mid2 = *self;
        self.drain_measurement_queues();
        let should_sleep = self.host_rx.len() == 0 && self.target_rx.len() == 0
            && self.pinint0_events.is_empty();
        proof {
            assert(spec_relayed(*old(self), mid1) && spec_dispatched_one(mid1, mid2)
                && spec_drained(mid2, *self));
        }
        should_sleep
    }
}


/// Switching an interrupt-capable dynamic pin to output and then reading
/// it dynamically answers with exactly the commanded level and no period:
/// the switch seeds the reading map, so a read landing before the first
/// edge sees the just-set state instead of no data. The edge map's
/// invariant guarantees the seed always has room to land (see
/// [`lemma_edge_map_has_room`]).
pub proof fn lemma_output_switch_seeds_read(
    d0: AssistantDevice,
    d1: AssistantDevice,
    d2: AssistantDevice,
    level: Level,
)
    requires
        spec_dispatch(
            d0,
            d1,
            HostToAssistantView::SetDirection(
                SetDirection {
                    pin: DynamicPin::GPIO(RED_LED_PIN_NUMBER),
                    direction: Direction::Output,
                    level: Some(level),
                },
            ),
        ),
        spec_dispatch(
            d1,
            d2,
            HostToAssistantView::ReadDynamicPin(
                ReadLevel { pin: DynamicPin::GPIO(RED_LED_PIN_NUMBER) },
            ),
        ),
        spec_edge_map_wf(d0),
        spec_polled_state(d0.dyn_noint_pins@, RED_LED_PIN_NUMBER) is None,
    ensures
        spec_frames(d2.host_tx) == spec_frames(d1.host_tx).push(
            spec_encode_assistant_message(
                AssistantToHostView::ReadPinResultDynamic(
                    Some(
                        ReadLevelResult {
                            pin: DynamicPin::GPIO(RED_LED_PIN_NUMBER),
                            level,
                            period_ms: None,
                        },
                    ),
                ),
            ),
        ),
{
    lemma_edge_map_has_room(d0, RED_LED_PIN_NUMBER);
    assert(reading_map_contents(d1.dynamic_int_pin_levels) == reading_map_contents(
        d0.dynamic_int_pin_levels,
    ).insert(RED_LED_PIN_NUMBER, (level, None)));
    assert(d1.dyn_noint_pins == d0.dyn_noint_pins);
    assert(spec_dynamic_read_reply(d1, DynamicPin::GPIO(RED_LED_PIN_NUMBER))
        == AssistantToHostView::ReadPinResultDynamic(
        Some(
            ReadLevelResult { pin: DynamicPin::GPIO(RED_LED_PIN_NUMBER), level, period_ms: None },
        ),
    ));
}

/// A pin never touched answers a read with no reading at all: the reply
/// comes, and its payload says that nothing was ever recorded.
pub proof fn lemma_untouched_pin_reads_none(
    d0: AssistantDevice,
    d1: AssistantDevice,
    fixed_pin: InputPin,
    d2: AssistantDevice,
    d3: AssistantDevice,
    dynamic_pin_number: u8,
)
    requires
        reading_map_contents(d0.fixed_pin_levels) == crate::bounded::empty_readings(),
        spec_dispatch(d0, d1, HostToAssistantView::ReadPin(ReadLevel { pin: fixed_pin })),
        reading_map_contents(d2.dynamic_int_pin_levels) == crate::bounded::empty_readings(),
        reading_map_contents(d2.dynamic_noint_pin_levels) == crate::bounded::empty_readings(),
        !spec_is_fixed_direction_pin(dynamic_pin_number),
        spec_dispatch(
            d2,
            d3,
            HostToAssistantView::ReadDynamicPin(
                ReadLevel { pin: DynamicPin::GPIO(dynamic_pin_number) },
            ),
        ),
    ensures
        spec_frames(d1.host_tx) == spec_frames(d0.host_tx).push(
            spec_encode_assistant_message(AssistantToHostView::ReadPinResult(None)),
        ),
        spec_frames(d3.host_tx) == spec_frames(d2.host_tx).push(
            spec_encode_assistant_message(AssistantToHostView::ReadPinResultDynamic(None)),
        ),
{
    assert(spec_fixed_read_reply(d0, fixed_pin) == AssistantToHostView::ReadPinResult(None));
    assert(spec_dynamic_read_reply(d2, DynamicPin::GPIO(dynamic_pin_number))
        == AssistantToHostView::ReadPinResultDynamic(None));
}

/// The illegal direction/level combinations are rejected with an explicit
/// protocol-error reply and change nothing: an input switch carrying a
/// level and an output switch carrying none are never silently coerced.
pub proof fn lemma_illegal_direction_rejected(
    d0: AssistantDevice,
    d1: AssistantDevice,
    pin: DynamicPin,
    direction: Direction,
    level: Option<Level>,
)
    requires
        spec_dispatch(
            d0,
            d1,
            HostToAssistantView::SetDirection(SetDirection { pin, direction, level }),
        ),
        !crate::pin::direction_level_legal(direction, level),
    ensures
        direction is Input ==> spec_replied(
            d0,
            d1,
            AssistantToHostView::ProtocolError(ProtocolViolation::InputLevelNotEmpty),
        ),
        direction is Output ==> spec_replied(
            d0,
            d1,
            AssistantToHostView::ProtocolError(ProtocolViolation::OutputLevelMissing),
        ),
{
}


/// The pin numbers the edge-interrupt reading map can ever hold: only the
/// two edge-monitored dynamic pins are drained or seeded into it.
pub open spec fn spec_edge_pins() -> Set<u8> {
    set![RED_LED_PIN_NUMBER, RTS_PIN_NUMBER]
}

/// The invariant of the edge-interrupt reading map: it tracks at most the
/// edge-monitored pins, finitely many in particular.
pub open spec fn spec_edge_map_wf(d: AssistantDevice) -> bool {
    &&& reading_map_contents(d.dynamic_int_pin_levels).dom().finite()
    &&& reading_map_contents(d.dynamic_int_pin_levels).dom().subset_of(spec_edge_pins())
}

/// An edge map within its invariant always has room: it can hold at most
/// the two edge-monitored pins, far below its capacity, so the
/// capacity-overrun path of [`spec_record_reading`] is unreachable on it
/// and every seed and every drained edge is retained.
pub proof fn lemma_edge_map_has_room(d: AssistantDevice, key: u8)
    requires
        spec_edge_map_wf(d),
    ensures
        reading_map_contents(d.dynamic_int_pin_levels).dom().contains(key)
            || reading_map_contents(d.dynamic_int_pin_levels).len() < READING_MAP_CAPACITY,
{
    let dom = reading_map_contents(d.dynamic_int_pin_levels).dom();
    vstd::set_lib::lemma_len_subset(dom, spec_edge_pins());
    assert(spec_edge_pins().len() <= 2) by {
        assert(spec_edge_pins() =~= Set::empty().insert(RED_LED_PIN_NUMBER).insert(
            RTS_PIN_NUMBER,
        ));
    }
}

/// Draining events under one key adds at most that key to a map's domain
/// and keeps it finite.
pub proof fn lemma_drain_to_key_dom(
    m: Map<u8, PinReading>,
    events: Seq<PinMeasurementEvent>,
    key: u8,
)
    requires
        m.dom().finite(),
    ensures
        spec_drain_to_key(m, events, key).dom().finite(),
        spec_drain_to_key(m, events, key).dom().subset_of(m.dom().insert(key)),
    decreases events.len(),
{
    if events.len() == 0 {
    } else {
        let m1 = spec_record_reading(m, key, spec_reading_of_event(events[0]));
        lemma_drain_to_key_dom(m1, events.drop_first(), key);
        assert(m1.dom().subset_of(m.dom().insert(key)));
        assert(m1.dom().insert(key).subset_of(m.dom().insert(key)));
    }
}

/// One dispatched command keeps the edge map within its invariant: the
/// only write a command ever makes there is the seed for the
/// edge-monitored dynamic pin.
pub proof fn lemma_dispatch_keeps_edge_map_wf(
    d0: AssistantDevice,
    d1: AssistantDevice,
    msg: HostToAssistantView,
)
    requires
        spec_edge_map_wf(d0),
        spec_dispatch(d0, d1, msg),
    ensures
        spec_edge_map_wf(d1),
{
    match msg {
        HostToAssistantView::SetDirection(sd) => {
            if crate::pin::direction_level_legal(sd.direction, sd.level) && sd.pin->GPIO_0
                == RED_LED_PIN_NUMBER {
                assert(reading_map_contents(d1.dynamic_int_pin_levels).dom().subset_of(
                    reading_map_contents(d0.dynamic_int_pin_levels).dom().insert(
                        RED_LED_PIN_NUMBER,
                    ),
                ));
            }
        },
        _ => {},
    }
}

/// One pass of the loop keeps the edge map within its invariant: the
/// drains only ever land edge events under the two edge-monitored pin
/// numbers.
pub proof fn lemma_poll_keeps_edge_map_wf(
    mid1: AssistantDevice,
    mid2: AssistantDevice,
    d3: AssistantDevice,
)
    requires
        spec_edge_map_wf(mid1),
        spec_dispatched_one(mid1, mid2),
        spec_drained(mid2, d3),
    ensures
        spec_edge_map_wf(d3),
{
    if mid1.host_rx@.len() > 0 {
        match spec_decode_host_message(spec_frames(mid1.host_rx)[0]) {
            Some(m) => {
                lemma_dispatch_keeps_edge_map_wf(
                    (AssistantDevice { host_rx: mid2.host_rx, ..mid1 }),
                    mid2,
                    m,
                );
            },
            None => {},
        }
    }
    let after_red = spec_drain_to_key(
        reading_map_contents(mid2.dynamic_int_pin_levels),
        event_queue_contents(mid2.pinint0_events),
        RED_LED_PIN_NUMBER,
    );
    lemma_drain_to_key_dom(
        reading_map_contents(mid2.dynamic_int_pin_levels),
        event_queue_contents(mid2.pinint0_events),
        RED_LED_PIN_NUMBER,
    );
    lemma_drain_to_key_dom(after_red, event_queue_contents(mid2.rts_events), RTS_PIN_NUMBER);
}


/// The map keys the fixed-pin reading map can ever hold: the indexes of
/// the two edge-monitored fixed pins, the only ones ever drained into it.
pub open spec fn spec_fixed_pin_keys() -> Set<u8> {
    set![InputPin::Blue.index_spec(), InputPin::Pwm.index_spec()]
}

/// The pin numbers the board allocates as polled dynamic pins.
pub open spec fn spec_polled_pin_numbers() -> Set<u8> {
    set![GREEN_LED_PIN_NUMBER, 33u8, 6u8]
}

/// The invariant of the fixed-pin reading map: it tracks at most the two
/// edge-monitored fixed pins, finitely many in particular.
pub open spec fn spec_fixed_map_wf(d: AssistantDevice) -> bool {
    &&& reading_map_contents(d.fixed_pin_levels).dom().finite()
    &&& reading_map_contents(d.fixed_pin_levels).dom().subset_of(spec_fixed_pin_keys())
}

/// The invariant of the sampler side: the polled pins carry board pin
/// numbers from the allocated set, every queued sample belongs to one of
/// them, and the sampler's reading map tracks at most those pins.
pub open spec fn spec_sampler_wf(d: AssistantDevice) -> bool {
    &&& reading_map_contents(d.dynamic_noint_pin_levels).dom().finite()
    &&& reading_map_contents(d.dynamic_noint_pin_levels).dom().subset_of(
        spec_polled_pin_numbers(),
    )
    &&& forall|i: int|
        0 <= i < d.dyn_noint_pins@.len() ==> spec_polled_pin_numbers().contains(
            #[trigger] d.dyn_noint_pins@[i].pin_number,
        )
    &&& forall|i: int|
        0 <= i < event_queue_contents(d.dyn_noint_events).len()
            ==> spec_polled_pin_numbers().contains(
            #[trigger] event_queue_contents(d.dyn_noint_events)[i].pin_number,
        )
}

/// A fixed-pin reading map within its invariant always has room: at most
/// two pins ever land in it, far below its capacity, so the reject branch
/// of [`spec_record_reading`] is unreachable on it.
pub proof fn lemma_fixed_map_has_room(d: AssistantDevice, key: u8)
    requires
        spec_fixed_map_wf(d),
    ensures
        reading_map_contents(d.fixed_pin_levels).dom().contains(key) || reading_map_contents(
            d.fixed_pin_levels,
        ).len() < READING_MAP_CAPACITY,
{
    let dom = reading_map_contents(d.fixed_pin_levels).dom();
    vstd::set_lib::lemma_len_subset(dom, spec_fixed_pin_keys());
    assert(spec_fixed_pin_keys().len() <= 2) by {
        assert(spec_fixed_pin_keys() =~= Set::empty().insert(InputPin::Blue.index_spec()).insert(
            InputPin::Pwm.index_spec(),
        ));
    }
}

/// A sampler reading map within its invariant always has room: at most
/// the three polled pins ever land in it, below its capacity, so no
/// drained polled reading is ever rejected by [`spec_record_reading`].
pub proof fn lemma_sampler_map_has_room(d: AssistantDevice, key: u8)
    requires
        spec_sampler_wf(d),
    ensures
        reading_map_contents(d.dynamic_noint_pin_levels).dom().contains(key)
            || reading_map_contents(d.dynamic_noint_pin_levels).len() < READING_MAP_CAPACITY,
{
    let dom = reading_map_contents(d.dynamic_noint_pin_levels).dom();
    vstd::set_lib::lemma_len_subset(dom, spec_polled_pin_numbers());
    assert(spec_polled_pin_numbers().len() <= 3) by {
        assert(spec_polled_pin_numbers() =~= Set::empty().insert(GREEN_LED_PIN_NUMBER).insert(
            33u8,
        ).insert(6u8));
    }
}

/// Updating one polled pin's state leaves every entry's pin number in
/// place.
pub proof fn lemma_polled_update_numbers(
    pins: Seq<PolledPin>,
    pin_number: u8,
    state: DynamicPinState,
)
    ensures
        spec_polled_update(pins, pin_number, state).len() == pins.len(),
        forall|i: int|
            0 <= i < pins.len() ==> #[trigger] spec_polled_update(pins, pin_number, state)[
                i
            ].pin_number == pins[i].pin_number,
    decreases pins.len(),
{
    if pins.len() == 0 {
    } else if pins[0].pin_number == pin_number {
    } else {
        lemma_polled_update_numbers(pins.drop_first(), pin_number, state);
    }
}

/// Draining per-event keys adds at most the events' own pin numbers to a
/// map's domain and keeps it finite.
pub proof fn lemma_drain_by_pin_dom(m: Map<u8, PinReading>, events: Seq<PinMeasurementEvent>)
    requires
        m.dom().finite(),
    ensures
        spec_drain_by_pin(m, events).dom().finite(),
        forall|k: u8|
            #[trigger] spec_drain_by_pin(m, events).dom().contains(k) ==> m.dom().contains(k)
                || exists|i: int| 0 <= i < events.len() && #[trigger] events[i].pin_number == k,
    decreases events.len(),
{
    if events.len() == 0 {
    } else {
        let m1 = spec_record_reading(m, events[0].pin_number, (events[0].level, None));
        lemma_drain_by_pin_dom(m1, events.drop_first());
        assert forall|k: u8| #[trigger] spec_drain_by_pin(m, events).dom().contains(k) implies m.dom().contains(
            k,
        ) || exists|i: int| 0 <= i < events.len() && #[trigger] events[i].pin_number == k by {
            if !m.dom().contains(k) {
                if m1.dom().contains(k) {
                    assert(events[0].pin_number == k);
                } else {
                    let i = choose|i: int|
                        0 <= i < events.drop_first().len() && #[trigger] events.drop_first()[
                            i
                        ].pin_number == k;
                    assert(events[i + 1].pin_number == k);
                }
            }
        }
    }
}

/// Every sample the periodic sampler appends carries the pin number of
/// one of the polled pins it visited.
pub proof fn lemma_sample_all_numbers(
    q: Seq<PinMeasurementEvent>,
    pins: Seq<PolledPin>,
    allowed: Set<u8>,
)
    requires
        forall|i: int| 0 <= i < q.len() ==> allowed.contains(#[trigger] q[i].pin_number),
        forall|i: int| 0 <= i < pins.len() ==> allowed.contains(#[trigger] pins[i].pin_number),
    ensures
        forall|i: int|
            0 <= i < spec_sample_all(q, pins).len() ==> allowed.contains(
                #[trigger] spec_sample_all(q, pins)[i].pin_number,
            ),
    decreases pins.len(),
{
    if pins.len() == 0 {
    } else {
        let q1 = spec_enqueue_bounded(q, spec_sample_of(pins[0]));
        assert(forall|i: int| 0 <= i < q1.len() ==> allowed.contains(#[trigger] q1[i].pin_number));
        assert(forall|i: int|
            0 <= i < pins.drop_first().len() ==> allowed.contains(
                #[trigger] pins.drop_first()[i].pin_number,
            ));
        lemma_sample_all_numbers(q1, pins.drop_first(), allowed);
    }
}

/// One pass of the periodic sampler keeps the sampler side within its
/// invariant.
pub proof fn lemma_sampling_keeps_sampler_wf(d0: AssistantDevice, d1: AssistantDevice)
    requires
        spec_sampler_wf(d0),
        event_queue_contents(d1.dyn_noint_events) == spec_sample_all(
            event_queue_contents(d0.dyn_noint_events),
            d0.dyn_noint_pins@,
        ),
        d1 == (AssistantDevice { dyn_noint_events: d1.dyn_noint_events, ..d0 }),
    ensures
        spec_sampler_wf(d1),
{
    lemma_sample_all_numbers(
        event_queue_contents(d0.dyn_noint_events),
        d0.dyn_noint_pins@,
        spec_polled_pin_numbers(),
    );
}

/// One dispatched command keeps the fixed and sampler reading maps within
/// their invariants: no command ever writes either map, and a direction
/// or level change moves a polled pin's state without renaming it.
pub proof fn lemma_dispatch_keeps_measurement_wf(
    d0: AssistantDevice,
    d1: AssistantDevice,
    msg: HostToAssistantView,
)
    requires
        spec_fixed_map_wf(d0),
        spec_sampler_wf(d0),
        spec_dispatch(d0, d1, msg),
    ensures
        spec_fixed_map_wf(d1),
        spec_sampler_wf(d1),
{
    match msg {
        HostToAssistantView::SetPin(sl) => {
            if sl.pin is Red {
                lemma_polled_update_numbers(
                    d0.dyn_noint_pins@,
                    RED_LED_PIN_NUMBER,
                    (DynamicPinState { direction: Direction::Output, level: sl.level }),
                );
            }
        },
        HostToAssistantView::SetDynamicPin(sl) => {
            lemma_polled_update_numbers(
                d0.dyn_noint_pins@,
                sl.pin->GPIO_0,
                (DynamicPinState { direction: Direction::Output, level: sl.level }),
            );
        },
        HostToAssistantView::SetDirection(sd) => {
            if crate::pin::direction_level_legal(sd.direction, sd.level) {
                match spec_polled_state(d0.dyn_noint_pins@, sd.pin->GPIO_0) {
                    Some(st) => {
                        let cd = match sd.direction {
                            Direction::Output => ContextualDirection::Output(sd.level->Some_0),
                            Direction::Input => ContextualDirection::Input,
                        };
                        lemma_polled_update_numbers(
                            d0.dyn_noint_pins@,
                            sd.pin->GPIO_0,
                            spec_switched(st, cd),
                        );
                    },
                    None => {},
                }
            }
        },
        _ => {},
    }
}

/// One pass of the loop keeps the fixed and sampler reading maps within
/// their invariants: the drains only ever land readings under the fixed
/// pins' indexes and the polled pins' numbers.
pub proof fn lemma_poll_keeps_measurement_wf(
    mid1: AssistantDevice,
    mid2: AssistantDevice,
    d3: AssistantDevice,
)
    requires
        spec_fixed_map_wf(mid1),
        spec_sampler_wf(mid1),
        spec_dispatched_one(mid1, mid2),
        spec_drained(mid2, d3),
    ensures
        spec_fixed_map_wf(d3),
        spec_sampler_wf(d3),
{
    if mid1.host_rx@.len() > 0 {
        match spec_decode_host_message(spec_frames(mid1.host_rx)[0]) {
            Some(m) => {
                lemma_dispatch_keeps_measurement_wf(
                    (AssistantDevice { host_rx: mid2.host_rx, ..mid1 }),
                    mid2,
                    m,
                );
            },
            None => {},
        }
    }
    let after_pwm = spec_drain_to_key(
        reading_map_contents(mid2.fixed_pin_levels),
        event_queue_contents(mid2.pwm_events),
        InputPin::Pwm.index_spec(),
    );
    lemma_drain_to_key_dom(
        reading_map_contents(mid2.fixed_pin_levels),
        event_queue_contents(mid2.pwm_events),
        InputPin::Pwm.index_spec(),
    );
    lemma_drain_to_key_dom(
        after_pwm,
        event_queue_contents(mid2.blue_events),
        InputPin::Blue.index_spec(),
    );
    lemma_drain_by_pin_dom(
        reading_map_contents(mid2.dynamic_noint_pin_levels),
        event_queue_contents(mid2.dyn_noint_events),
    );
}

} // verus!
