//! The host-side remote-control API for the test assistant
//!
//! One [`Assistant`] owns the connection and the pin registry. An
//! [`AssistantInterface`] wraps it behind a fail-fast exclusive-access
//! guard: every operation first claims the guard and returns the locked
//! error at once when another caller holds it, so contention is observable
//! instead of hidden behind queuing.

use vstd::prelude::*;

use std::collections::HashMap;

use crate::conn::{spec_conn_sent, Conn, ConnReceiveError, ConnSendError};
use crate::device::{CTS_PIN_NUMBER, RTS_PIN_NUMBER, TARGET_TIMER_PIN_NUMBER};
use crate::messages::{
    AssistantToHost, AssistantToHostView, DynamicPin, HostToAssistant, HostToAssistantView,
    InputPin as WireInputPin, UsartMode,
};
use crate::mock::spec_deque_frames;
use crate::pin::{Direction, Level, PinNumber, ReadLevel, SetDirection};
use crate::remote_pin::{
    spec_read_outcome, spec_read_request, spec_set_level_request, Pin, PinDirection, PinToken,
    ReadLevelError,
};

verus! {

broadcast use vstd::std_specs::hash::group_hash_axioms;

/// The minimum and maximum inter-edge period observed while sampling one
/// toggling pin, in milliseconds.
#[derive(Clone, Copy, Debug, Eq, PartialEq, Structural)]
pub struct GpioPeriodMeasurement {
    pub min: u32,
    pub max: u32,
}

/// All the errors this API can return
#[derive(Debug, Eq, PartialEq)]
pub enum AssistantError {
    ExpectNothing(AssistantExpectNothingError),
    PinRead(ReadLevelError),
    SetPinHigh(ConnSendError),
    SetPinLow(ConnSendError),
    UsartSend(ConnSendError),
    UsartWait(AssistantUsartWaitError),
    PinOperation(AssistantPinOperationError),
    /// Another caller holds the exclusive-access guard
    AssistantLocked,
    /// Attempted to dynamically reconfigure a hardcoded test-assistant
    /// configuration item
    NotDynamic,
    /// An argument was outside the accepted range, such as a sample count
    /// of zero
    InvalidArgument,
}

/// What went wrong while waiting for USART data
#[derive(Debug, Eq, PartialEq)]
pub enum AssistantUsartWaitError {
    Receive(ConnReceiveError),
    Timeout,
    /// Something other than the expected USART notification arrived;
    /// carries the message for diagnosis.
    UnexpectedMessage(AssistantToHost),
}

/// What went wrong while expecting silence from the target
#[derive(Debug, Eq, PartialEq)]
pub enum AssistantExpectNothingError {
    Receive(ConnReceiveError),
    /// A message arrived although none was expected; carries the message
    /// for diagnosis.
    UnexpectedMessage(AssistantToHost),
}

/// Why a pin could not be acquired or reconfigured
#[derive(Clone, Copy, Debug, Eq, PartialEq, Structural)]
pub enum AssistantPinOperationError {
    /// This pin cannot be configured, for example because it is reserved
    /// for internal use or does not exist on the board
    IllegalPinNumber(PinNumber),
    /// This pin was already acquired earlier; a pin is handed out at most
    /// once
    AlreadyOwned(PinNumber),
    SetPinDirectionInput(ConnSendError),
    SetPinDirectionOutput(ConnSendError),
}

impl From<ReadLevelError> for AssistantError {
    fn from(err: ReadLevelError) -> (r: Self) {
        Self::PinRead(err)
    }
}

impl vstd::std_specs::convert::FromSpecImpl<ReadLevelError> for AssistantError {
    open spec fn obeys_from_spec() -> bool {
        true
    }

    open spec fn from_spec(err: ReadLevelError) -> Self {
        Self::PinRead(err)
    }
}

impl From<AssistantUsartWaitError> for AssistantError {
    fn from(err: AssistantUsartWaitError) -> (r: Self) {
        Self::UsartWait(err)
    }
}

impl vstd::std_specs::convert::FromSpecImpl<AssistantUsartWaitError> for AssistantError {
    open spec fn obeys_from_spec() -> bool {
        true
    }

    open spec fn from_spec(err: AssistantUsartWaitError) -> Self {
        Self::UsartWait(err)
    }
}

/// Which pins a test may acquire, and in which direction: the assistant's
/// wiring fixes a small table of reconfigurable pins, and everything else
/// is refused as not dynamic.
pub open spec fn spec_valid_pin_choice(pin: PinNumber, direction: PinDirection) -> bool {
    ||| (pin.0 == 5 && direction is Output)
    ||| (pin.0 == 29 && direction is Output)
    ||| (pin.0 == 30 && direction is Input)
    ||| (pin.0 == 31 && direction is Input)
    ||| (pin.0 == 18 && direction is Input)
    ||| (pin.0 == 19 && direction is Output)
}

/// Checks a requested pin/direction pair against the assistant's wiring
/// table; anything not in the table is refused as not dynamic.
pub fn valid_pin_choice(pin: PinNumber, direction: PinDirection) -> (r: Result<
    (),
    AssistantError,
>)
    ensures
        r is Ok <==> spec_valid_pin_choice(pin, direction),
        r is Err ==> (r matches Err(e) && e == AssistantError::NotDynamic),
{
    match (pin.get_pin_idx(), direction) {
        (5, PinDirection::Output) => Ok(()),
        (29, PinDirection::Output) => Ok(()),
        (30, PinDirection::Input) => Ok(()),
        (31, PinDirection::Input) => Ok(()),
        (18, PinDirection::Input) => Ok(()),
        (19, PinDirection::Output) => Ok(()),
        _ => Err(AssistantError::NotDynamic),
    }
}

/// The running minimum/maximum after folding one period sample in.
pub open spec fn spec_fold_period(acc: Option<(u32, u32)>, period: u32) -> Option<(u32, u32)> {
    match acc {
        None => Some((period, period)),
        Some((mn, mx)) => Some(
            (if period < mn { period } else { mn }, if period > mx { period } else { mx }),
        ),
    }
}

/// The minimum/maximum period over a sample sequence: a sample whose level
/// equals the previous one is a duplicate poll and is discarded; a level
/// change without a period is counted as a change but contributes nothing;
/// a level change with a period folds it into the running bounds.
pub open spec fn spec_gpio_period_fold(
    state: Level,
    samples: Seq<(Level, Option<u32>)>,
    acc: Option<(u32, u32)>,
) -> Option<(u32, u32)>
    decreases samples.len(),
{
    if samples.len() == 0 {
        acc
    } else {
        let (level, period) = samples[0];
        if level == state {
            spec_gpio_period_fold(state, samples.drop_first(), acc)
        } else {
            match period {
                None => spec_gpio_period_fold(level, samples.drop_first(), acc),
                Some(ms) => spec_gpio_period_fold(
                    level,
                    samples.drop_first(),
                    spec_fold_period(acc, ms),
                ),
            }
        }
    }
}

/// Folds a sequence of pin readings into the observed period bounds,
/// relative to the previously retained level `initial`.
///
/// Duplicate polls (no level change) are discarded rather than counted
/// twice, and a reading that carries no period consumes its sample without
/// affecting the bounds. `None` comes back when no period was observed at
/// all.
pub fn fold_gpio_period(initial: Level, samples: &Vec<(Level, Option<u32>)>) -> (r: Option<
    GpioPeriodMeasurement,
>)
    ensures
        match r {
            Some(m) => spec_gpio_period_fold(initial, samples@, None) == Some((m.min, m.max)),
            None => spec_gpio_period_fold(initial, samples@, None) is None,
        },
{
    let mut state = initial;
    let mut acc: Option<(u32, u32)> = None;
    let mut i: usize = 0;
    assert(samples@.skip(0) =~= samples@);
    while i < samples.len()
        invariant
            i <= samples@.len(),
            spec_gpio_period_fold(initial, samples@, None) == spec_gpio_period_fold(
                state,
                samples@.skip(i as int),
                acc,
            ),
        decreases samples@.len() - i,
    {
        let (level, period) = samples[i];
        assert(samples@.skip(i as int).drop_first() =~= samples@.skip(i + 1));
        let changed = match (level, state) {
            (Level::High, Level::High) => false,
            (Level::Low, Level::Low) => false,
            _ => true,
        };
        if changed {
            state = level;
            match period {
                None => {},
                Some(ms) => {
                    acc = match acc {
                        None => Some((ms, ms)),
                        Some((mn, mx)) => Some(
                            (if ms < mn { ms } else { mn }, if ms > mx { ms } else { mx }),
                        ),
                    };
                },
            }
        }
        i = i + 1;
    }
    assert(samples@.skip(i as int) =~= Seq::<(Level, Option<u32>)>::empty());
    match acc {
        None => None,
        Some((mn, mx)) => Some(GpioPeriodMeasurement { min: mn, max: mx }),
    }
}


/// The pin registry a fresh assistant starts with: one token per board pin
/// from 1 up to `num_pins`, none of them handed out yet.
pub open spec fn spec_initial_pins(num_pins: u8) -> Map<u8, Pin<PinToken>> {
    Map::new(|k: u8| 1 <= k <= num_pins, |k: u8| Pin { pin: PinToken::GPIO(k) })
}

/// Holds when an operation left the registry alone and sent exactly one
/// command over the connection.
pub open spec fn spec_sent_command(
    pre: Assistant,
    post: Assistant,
    msg: HostToAssistantView,
) -> bool {
    &&& spec_conn_sent(pre.conn, post.conn, msg)
    &&& post.pins == pre.pins
    &&& post.num_pins == pre.num_pins
}

/// Holds when a level read for `token` ran against the connection: the
/// read request went out, the reply (or its absence) was judged as
/// [`spec_read_outcome`] says with the low/high answer in `r`, and the
/// registry was left alone.
pub open spec fn spec_level_read(
    pre: Assistant,
    post: Assistant,
    token: PinToken,
    r: Result<bool, AssistantError>,
) -> bool {
    &&& post.pins == pre.pins
    &&& post.num_pins == pre.num_pins
    &&& exists|mid: Conn|
        #[trigger] spec_conn_sent(pre.conn, mid, spec_read_request(token)) && post.conn.device
            == mid.device && post.conn.mock.data_out == mid.mock.data_out && (spec_deque_frames(
            mid.mock.data_in,
        ).len() == 0 ==> post.conn.mock.data_in@ == mid.mock.data_in@) && (spec_deque_frames(
            mid.mock.data_in,
        ).len() > 0 ==> spec_deque_frames(post.conn.mock.data_in) == spec_deque_frames(
            mid.mock.data_in,
        ).drop_first()) && (match r {
            Ok(b) => exists|level: Level, period: Option<u32>|
                #[trigger] spec_read_outcome(
                    spec_deque_frames(mid.mock.data_in),
                    token,
                    Ok((level, period)),
                ) && b == (level is Low),
            Err(e) => match e {
                AssistantError::PinRead(rle) => spec_read_outcome(
                    spec_deque_frames(mid.mock.data_in),
                    token,
                    Err(rle),
                ),
                _ => false,
            },
        })
}

/// The connection to the test assistant, together with the registry of pin
/// tokens that have not been handed out yet.
pub struct Assistant {
    /// Connection between test assistant and host
    pub conn: Conn,
    /// All of the assistant's GPIO pin tokens still available, keyed by
    /// board pin number
    pub pins: HashMap<u8, Pin<PinToken>>,
    /// How many board pins the registry started with
    pub num_pins: u8,
}

impl Assistant {
    /// The registry's well-formedness: every pin token still in the
    /// registry is stored under its own board pin number, and only board
    /// pin numbers appear.
    pub open spec fn wf(&self) -> bool {
        forall|k: u8|
            self.pins@.contains_key(k) ==> self.pins@[k] == (Pin { pin: PinToken::GPIO(k) }) && 1
                <= k <= self.num_pins
    }

    /// Opens the API over a connection, with one pin token per board pin
    /// from 1 up to `num_pins`.
    pub fn new(conn: Conn, num_pins: u8) -> (r: Assistant)
        ensures
            r.conn == conn,
            r.num_pins == num_pins,
            r.pins@ == spec_initial_pins(num_pins),
            r.wf(),
    {
        let mut pins: HashMap<u8, Pin<PinToken>> = HashMap::new();
        let mut pin_number: u16 = 1;
        assert(pins@ =~= Map::new(|k: u8| 1 <= k < 1, |k: u8| Pin { pin: PinToken::GPIO(k) }));
        while pin_number <= num_pins as u16
            invariant
                1 <= pin_number <= num_pins as u16 + 1,
                pins@ == Map::new(
                    |k: u8| 1 <= k < pin_number,
                    |k: u8| Pin { pin: PinToken::GPIO(k) },
                ),
            decreases num_pins as int + 1 - pin_number,
        {
            let k = pin_number as u8;
            pins.insert(k, Pin::new(PinToken::GPIO(k)));
            assert(pins@ =~= Map::new(
                |j: u8| 1 <= j < pin_number + 1,
                |j: u8| Pin { pin: PinToken::GPIO(j) },
            ));
            pin_number = pin_number + 1;
        }
        assert(pins@ =~= spec_initial_pins(num_pins));
        Assistant { conn, pins, num_pins }
    }

    /// Whether the addressed pin currently carries (or drives) a low
    /// level, read remotely with a short wait.
    pub fn pin_is_low(&mut self, pin: &mut Pin<PinToken>) -> (r: Result<bool, AssistantError>)
        ensures
            *final(pin) == *old(pin),
            spec_level_read(*old(self), *final(self), old(pin).pin, r),
    {
        match pin.read_level(10, &mut self.conn) {
            Ok((level, _)) => {
                let is_low = match level {
                    Level::Low => true,
                    Level::High => false,
                };
                Ok(is_low)
            },
            Err(err) => Err(AssistantError::PinRead(err)),
        }
    }

    /// Instructs the assistant to disable CTS (drive the CTS line high, so
    /// the target stops sending).
    pub fn disable_cts(&mut self) -> (r: Result<(), AssistantError>)
        requires
            old(self).wf(),
        ensures
            final(self).wf(),
            old(self).pins@.contains_key(CTS_PIN_NUMBER) ==> r is Ok && spec_sent_command(
                *old(self),
                *final(self),
                spec_set_level_request(PinToken::GPIO(CTS_PIN_NUMBER), Level::High),
            ),
            !old(self).pins@.contains_key(CTS_PIN_NUMBER) ==> (r matches Err(e) && e
                == AssistantError::PinOperation(
                AssistantPinOperationError::IllegalPinNumber(PinNumber(CTS_PIN_NUMBER)),
            )) && *final(self) == *old(self),
    {
        self.set_fixed_output(CTS_PIN_NUMBER, Level::High)
    }

    /// Instructs the assistant to enable CTS (drive the CTS line low, so
    /// the target may send).
    pub fn enable_cts(&mut self) -> (r: Result<(), AssistantError>)
        requires
            old(self).wf(),
        ensures
            final(self).wf(),
            old(self).pins@.contains_key(CTS_PIN_NUMBER) ==> r is Ok && spec_sent_command(
                *old(self),
                *final(self),
                spec_set_level_request(PinToken::GPIO(CTS_PIN_NUMBER), Level::Low),
            ),
            !old(self).pins@.contains_key(CTS_PIN_NUMBER) ==> (r matches Err(e) && e
                == AssistantError::PinOperation(
                AssistantPinOperationError::IllegalPinNumber(PinNumber(CTS_PIN_NUMBER)),
            )) && *final(self) == *old(self),
    {
        self.set_fixed_output(CTS_PIN_NUMBER, Level::Low)
    }

    /// Drives one of the fixed-role output pins still in the registry.
    fn set_fixed_output(&mut self, pin_number: u8, level: Level) -> (r: Result<
        (),
        AssistantError,
    >)
        requires
            old(self).wf(),
            pin_number == 5 || pin_number == 29 || pin_number == 19,
        ensures
            final(self).wf(),
            old(self).pins@.contains_key(pin_number) ==> r is Ok && spec_sent_command(
                *old(self),
                *final(self),
                spec_set_level_request(PinToken::GPIO(pin_number), level),
            ),
            !old(self).pins@.contains_key(pin_number) ==> (r matches Err(e) && e
                == AssistantError::PinOperation(
                AssistantPinOperationError::IllegalPinNumber(PinNumber(pin_number)),
            )) && *final(self) == *old(self),
    {
        match self.pins.get(&pin_number) {
            Some(p) => {
                let mut pin = *p;
                match pin.set_level(level, &mut self.conn) {
                    Ok(_) => Ok(()),
                    Err(e) => Err(e),
                }
            },
            None => Err(
                AssistantError::PinOperation(
                    AssistantPinOperationError::IllegalPinNumber(PinNumber::new(pin_number)),
                ),
            ),
        }
    }

    /// Waits briefly for the RTS line and reports whether the target
    /// asserts it (drives it low).
    pub fn wait_for_rts(&mut self) -> (r: Result<bool, AssistantError>)
        requires
            old(self).wf(),
        ensures
            final(self).wf(),
            !old(self).pins@.contains_key(RTS_PIN_NUMBER) ==> (r matches Err(e) && e
                == AssistantError::PinOperation(
                AssistantPinOperationError::IllegalPinNumber(PinNumber(RTS_PIN_NUMBER)),
            )) && *final(self) == *old(self),
            old(self).pins@.contains_key(RTS_PIN_NUMBER) ==> spec_level_read(
                *old(self),
                *final(self),
                PinToken::GPIO(RTS_PIN_NUMBER),
                r,
            ),
    {
        match self.pins.get(&RTS_PIN_NUMBER) {
            Some(p) => {
                let mut pin = *p;
                match pin.read_level(10, &mut self.conn) {
                    Ok((level, _)) => {
                        let is_low = match level {
                            Level::Low => true,
                            Level::High => false,
                        };
                        Ok(is_low)
                    },
                    Err(err) => Err(AssistantError::PinRead(err)),
                }
            },
            None => Err(
                AssistantError::PinOperation(
                    AssistantPinOperationError::IllegalPinNumber(PinNumber::new(RTS_PIN_NUMBER)),
                ),
            ),
        }
    }

    /// Instructs the assistant to send this data to the target via USART.
    pub fn send_to_target_usart(&mut self, data: &Vec<u8>) -> (r: Result<(), AssistantError>)
        ensures
            r is Ok,
            spec_sent_command(
                *old(self),
                *final(self),
                (HostToAssistantView::SendUsart { mode: UsartMode::Regular, data: data@ }),
            ),
    {
        self.send_usart_mode(UsartMode::Regular, data)
    }

    /// Instructs the assistant to send this data to the target's
    /// synchronous USART.
    pub fn send_to_target_usart_sync(&mut self, data: &Vec<u8>) -> (r: Result<
        (),
        AssistantError,
    >)
        ensures
            r is Ok,
            spec_sent_command(
                *old(self),
                *final(self),
                (HostToAssistantView::SendUsart { mode: UsartMode::Sync, data: data@ }),
            ),
    {
        self.send_usart_mode(UsartMode::Sync, data)
    }

    /// Instructs the assistant to send this data to the target via the
    /// DMA-backed USART transmit path.
    pub fn send_to_target_usart_dma(&mut self, data: &Vec<u8>) -> (r: Result<(), AssistantError>)
        ensures
            r is Ok,
            spec_sent_command(
                *old(self),
                *final(self),
                (HostToAssistantView::SendUsart { mode: UsartMode::Dma, data: data@ }),
            ),
    {
        self.send_usart_mode(UsartMode::Dma, data)
    }

    /// Sends one USART command with the given mode.
    fn send_usart_mode(&mut self, mode: UsartMode, data: &Vec<u8>) -> (r: Result<
        (),
        AssistantError,
    >)
        ensures
            r is Ok,
            spec_sent_command(
                *old(self),
                *final(self),
                (HostToAssistantView::SendUsart { mode, data: data@ }),
            ),
    {
        let mut copy: Vec<u8> = Vec::new();
        copy.extend_from_slice(data.as_slice());
        assert(copy@ =~= data@);
        let command = HostToAssistant::SendUsart { mode, data: copy };
        match self.conn.send(&command) {
            Ok(_) => Ok(()),
            Err(e) => Err(AssistantError::UsartSend(e)),
        }
    }
}


/// Whether `pattern` occurs as a contiguous run inside `haystack`.
pub open spec fn spec_contains_pattern(haystack: Seq<u8>, pattern: Seq<u8>) -> bool {
    exists|j: int|
        0 <= j && j + pattern.len() <= haystack.len() && #[trigger] haystack.subrange(
            j,
            j + pattern.len(),
        ) == pattern
}

/// Whether the window of `haystack` starting at `j` equals `pattern`.
fn window_matches(haystack: &Vec<u8>, j: usize, pattern: &Vec<u8>) -> (r: bool)
    requires
        j + pattern@.len() <= haystack@.len(),
    ensures
        r == (haystack@.subrange(j as int, j + pattern@.len()) == pattern@),
{
    let hlen = haystack.len();
    let mut k: usize = 0;
    while k < pattern.len()
        invariant
            hlen == haystack@.len(),
            j + pattern@.len() <= haystack@.len(),
            k <= pattern@.len(),
            forall|i: int| 0 <= i < k ==> haystack@[j + i] == pattern@[i],
        decreases pattern@.len() - k,
    {
        assert(j + k < haystack@.len());
        if haystack[j + k] != pattern[k] {
            assert(haystack@.subrange(j as int, j + pattern@.len())[k as int] != pattern@[
                k as int
            ]);
            return false;
        }
        k = k + 1;
    }
    assert(haystack@.subrange(j as int, j + pattern@.len()) =~= pattern@);
    true
}

/// Whether `pattern` occurs as a contiguous run inside `haystack`.
pub fn contains_subrange(haystack: &Vec<u8>, pattern: &Vec<u8>) -> (r: bool)
    requires
        pattern@.len() >= 1,
    ensures
        r == spec_contains_pattern(haystack@, pattern@),
{
    if pattern.len() > haystack.len() {
        assert(!spec_contains_pattern(haystack@, pattern@));
        return false;
    }
    let mut j: usize = 0;
    let hlen = haystack.len();
    let last = haystack.len() - pattern.len();
    while j <= last
        invariant
            pattern@.len() >= 1,
            pattern@.len() <= haystack@.len(),
            hlen == haystack@.len(),
            last == haystack@.len() - pattern@.len(),
            j <= last + 1,
            forall|i: int|
                0 <= i < j ==> #[trigger] haystack@.subrange(i, i + pattern@.len()) != pattern@,
        decreases last + 1 - j,
    {
        if window_matches(haystack, j, pattern) {
            return true;
        }
        j = j + 1;
    }
    assert forall|i: int|
        0 <= i && i + pattern@.len() <= haystack@.len() implies #[trigger] haystack@.subrange(
        i,
        i + pattern@.len(),
    ) != pattern@ by {
        assert(i < j);
    }
    false
}

/// How waiting for USART data plays out over the pending reply frames.
pub enum UsartWaitOutcome {
    /// The gathered bytes contain the expected data
    Done(Seq<u8>),
    /// The pending frames ran out before the data arrived
    TimedOut,
    /// A pending frame does not decode as an assistant message
    LinkBroken,
    /// Something other than a notification with the expected mode arrived
    Unexpected(AssistantToHostView),
}

/// Replays the wait loop over the pending frames: bytes of notifications
/// with the expected mode accumulate until the pattern appears in the
/// gathered buffer; anything else ends the wait.
pub open spec fn spec_usart_wait(
    pending: Seq<Seq<u8>>,
    gathered: Seq<u8>,
    pattern: Seq<u8>,
    mode: UsartMode,
) -> UsartWaitOutcome
    decreases pending.len(),
{
    if spec_contains_pattern(gathered, pattern) {
        UsartWaitOutcome::Done(gathered)
    } else if pending.len() == 0 {
        UsartWaitOutcome::TimedOut
    } else {
        match crate::codec::spec_decode_assistant_message(pending[0]) {
            None => UsartWaitOutcome::LinkBroken,
            Some(v) => match v {
                AssistantToHostView::UsartReceive { mode: m, data } => if m == mode {
                    spec_usart_wait(pending.drop_first(), gathered + data, pattern, mode)
                } else {
                    UsartWaitOutcome::Unexpected(v)
                },
                _ => UsartWaitOutcome::Unexpected(v),
            },
        }
    }
}

/// Holds when the wait's result reports exactly the outcome the pending
/// frames dictate.
pub open spec fn spec_usart_wait_result(
    outcome: UsartWaitOutcome,
    r: Result<Vec<u8>, AssistantUsartWaitError>,
) -> bool {
    match outcome {
        UsartWaitOutcome::Done(bytes) => r matches Ok(buf) && buf@ == bytes,
        UsartWaitOutcome::TimedOut => r matches Err(e) && e == AssistantUsartWaitError::Timeout,
        UsartWaitOutcome::LinkBroken => r matches Err(e) && e == AssistantUsartWaitError::Receive(
            ConnReceiveError::MalformedMessage,
        ),
        UsartWaitOutcome::Unexpected(v) => r matches Err(
            AssistantUsartWaitError::UnexpectedMessage(m),
        ) && m@ == v,
    }
}

impl Assistant {
    /// Waits until the expected bytes arrive from the target with the
    /// given USART mode, gathering notification payloads until the data
    /// appears in the receive buffer.
    ///
    /// Returns the gathered buffer once the data is inside it. The wait
    /// ends with the timeout error when the replies run out, and with a
    /// receive or unexpected-message error when something other than a
    /// matching notification arrives.
    pub fn receive_from_target_usart_inner(
        &mut self,
        data: &Vec<u8>,
        timeout_ms: u64,
        expected_mode: UsartMode,
    ) -> (r: Result<Vec<u8>, AssistantUsartWaitError>)
        requires
            data@.len() >= 1,
        ensures
            final(self).pins == old(self).pins,
            final(self).num_pins == old(self).num_pins,
            final(self).conn.device == old(self).conn.device,
            final(self).conn.mock.data_out == old(self).conn.mock.data_out,
            spec_usart_wait_result(
                spec_usart_wait(
                    spec_deque_frames(old(self).conn.mock.data_in),
                    Seq::empty(),
                    data@,
                    expected_mode,
                ),
                r,
            ),
    {
        let mut buf: Vec<u8> = Vec::new();
        loop
            invariant
                data@.len() >= 1,
                self.pins == old(self).pins,
                self.num_pins == old(self).num_pins,
                self.conn.device == old(self).conn.device,
                self.conn.mock.data_out == old(self).conn.mock.data_out,
                spec_usart_wait(
                    spec_deque_frames(old(self).conn.mock.data_in),
                    Seq::empty(),
                    data@,
                    expected_mode,
                ) == spec_usart_wait(
                    spec_deque_frames(self.conn.mock.data_in),
                    buf@,
                    data@,
                    expected_mode,
                ),
            decreases spec_deque_frames(self.conn.mock.data_in).len(),
        {
            if contains_subrange(&buf, data) {
                return Ok(buf);
            }
            let ghost frames_pre = spec_deque_frames(self.conn.mock.data_in);
            let ghost buf_pre = buf@;
            let received = match self.conn.receive(timeout_ms) {
                Ok(m) => m,
                Err(e) => {
                    if e.is_timeout() {
                        return Err(AssistantUsartWaitError::Timeout);
                    } else {
                        return Err(AssistantUsartWaitError::Receive(e));
                    }
                },
            };
            let ghost received_view = received@;
            match received {
                AssistantToHost::UsartReceive { mode, data: payload } => {
                    let matches_mode = match (mode, expected_mode) {
                        (UsartMode::Regular, UsartMode::Regular) => true,
                        (UsartMode::Dma, UsartMode::Dma) => true,
                        (UsartMode::FlowControl, UsartMode::FlowControl) => true,
                        (UsartMode::Sync, UsartMode::Sync) => true,
                        _ => false,
                    };
                    if matches_mode {
                        buf.extend_from_slice(payload.as_slice());
                        proof {
                            assert(received_view == (AssistantToHostView::UsartReceive {
                                mode,
                                data: payload@,
                            }));
                            assert(spec_usart_wait(frames_pre, buf_pre, data@, expected_mode)
                                == spec_usart_wait(
                                frames_pre.drop_first(),
                                buf_pre + payload@,
                                data@,
                                expected_mode,
                            ));
                            assert(spec_deque_frames(self.conn.mock.data_in)
                                == frames_pre.drop_first());
                            assert(buf@ == buf_pre + payload@);
                            assert(spec_usart_wait(
                                spec_deque_frames(old(self).conn.mock.data_in),
                                Seq::empty(),
                                data@,
                                expected_mode,
                            ) == spec_usart_wait(
                                spec_deque_frames(self.conn.mock.data_in),
                                buf@,
                                data@,
                                expected_mode,
                            ));
                        }
                    } else {
                        return Err(
                            AssistantUsartWaitError::UnexpectedMessage(
                                AssistantToHost::UsartReceive { mode, data: payload },
                            ),
                        );
                    }
                },
                other => {
                    return Err(AssistantUsartWaitError::UnexpectedMessage(other));
                },
            }
        }
    }

    /// Waits to receive the provided data via USART.
    ///
    /// Returns the receive buffer once the data was received, and an error
    /// if the wait times out or the link misbehaves before that.
    pub fn receive_from_target_usart(&mut self, data: &Vec<u8>, timeout_ms: u64) -> (r: Result<
        Vec<u8>,
        AssistantError,
    >)
        requires
            data@.len() >= 1,
        ensures
            final(self).pins == old(self).pins,
            final(self).num_pins == old(self).num_pins,
            final(self).conn.device == old(self).conn.device,
            final(self).conn.mock.data_out == old(self).conn.mock.data_out,
            match r {
                Ok(buf) => spec_usart_wait_result(
                    spec_usart_wait(
                        spec_deque_frames(old(self).conn.mock.data_in),
                        Seq::empty(),
                        data@,
                        UsartMode::Regular,
                    ),
                    Ok(buf),
                ),
                Err(e) => e matches AssistantError::UsartWait(inner) && spec_usart_wait_result(
                    spec_usart_wait(
                        spec_deque_frames(old(self).conn.mock.data_in),
                        Seq::empty(),
                        data@,
                        UsartMode::Regular,
                    ),
                    Err(inner),
                ),
            },
    {
        match self.receive_from_target_usart_inner(data, timeout_ms, UsartMode::Regular) {
            Ok(buf) => Ok(buf),
            Err(e) => Err(AssistantError::UsartWait(e)),
        }
    }

    /// Waits to receive the provided data via USART in synchronous mode.
    pub fn receive_from_target_usart_sync(&mut self, data: &Vec<u8>, timeout_ms: u64) -> (r:
        Result<Vec<u8>, AssistantUsartWaitError>)
        requires
            data@.len() >= 1,
        ensures
            final(self).pins == old(self).pins,
            final(self).num_pins == old(self).num_pins,
            final(self).conn.device == old(self).conn.device,
            final(self).conn.mock.data_out == old(self).conn.mock.data_out,
            spec_usart_wait_result(
                spec_usart_wait(
                    spec_deque_frames(old(self).conn.mock.data_in),
                    Seq::empty(),
                    data@,
                    UsartMode::Sync,
                ),
                r,
            ),
    {
        self.receive_from_target_usart_inner(data, timeout_ms, UsartMode::Sync)
    }

    /// Expects to hear nothing from the target within the wait bound: any
    /// pending message at all is reported back as unexpected.
    pub fn expect_nothing_from_target(&mut self, timeout_ms: u64) -> (r: Result<
        (),
        AssistantError,
    >)
        ensures
            final(self).pins == old(self).pins,
            final(self).num_pins == old(self).num_pins,
            final(self).conn.device == old(self).conn.device,
            final(self).conn.mock.data_out == old(self).conn.mock.data_out,
            spec_deque_frames(old(self).conn.mock.data_in).len() == 0 ==> r is Ok && final(self).conn.mock.data_in@ == old(self).conn.mock.data_in@,
            spec_deque_frames(old(self).conn.mock.data_in).len() > 0 ==> spec_deque_frames(
                final(self).conn.mock.data_in,
            ) == spec_deque_frames(old(self).conn.mock.data_in).drop_first() && (match
                crate::codec::spec_decode_assistant_message(
                spec_deque_frames(old(self).conn.mock.data_in)[0],
            ) {
                Some(v) => r matches Err(
                    AssistantError::ExpectNothing(
                        AssistantExpectNothingError::UnexpectedMessage(m),
                    ),
                ) && m@ == v,
                None => r matches Err(e) && e == AssistantError::ExpectNothing(
                    AssistantExpectNothingError::Receive(ConnReceiveError::MalformedMessage),
                ),
            }),
    {
        match self.conn.receive(timeout_ms) {
            Ok(message) => Err(
                AssistantError::ExpectNothing(
                    AssistantExpectNothingError::UnexpectedMessage(message),
                ),
            ),
            Err(err) => {
                if err.is_timeout() {
                    Ok(())
                } else {
                    Err(AssistantError::ExpectNothing(AssistantExpectNothingError::Receive(err)))
                }
            },
        }
    }
}


/// The read request for one of the fixed-role input pins.
pub open spec fn spec_fixed_read_request(pin: WireInputPin) -> HostToAssistantView {
    HostToAssistantView::ReadPin(ReadLevel { pin })
}

/// How a reply is judged against a fixed-pin read request: only a
/// reading for the very pin that was asked about is believed, anything
/// else is a protocol error, and no pending reply is a timeout.
pub open spec fn spec_fixed_read_outcome(
    pending: Seq<Seq<u8>>,
    pin: WireInputPin,
    r: Result<(Level, Option<u32>), ReadLevelError>,
) -> bool {
    if pending.len() == 0 {
        r == Err::<(Level, Option<u32>), _>(ReadLevelError::Receive(ConnReceiveError::Timeout))
    } else {
        match crate::codec::spec_decode_assistant_message(pending[0]) {
            None => r == Err::<(Level, Option<u32>), _>(
                ReadLevelError::Receive(ConnReceiveError::MalformedMessage),
            ),
            Some(v) => match v {
                AssistantToHostView::ReadPinResult(Some(rr)) => if rr.pin == pin {
                    r == Ok::<_, ReadLevelError>((rr.level, rr.period_ms))
                } else {
                    r matches Err(ReadLevelError::UnexpectedMessage(m)) && m@ == v
                },
                _ => r matches Err(ReadLevelError::UnexpectedMessage(m)) && m@ == v,
            },
        }
    }
}

/// The reading a pending frame yields for a fixed-pin read, if it is a
/// usable reply for that pin at all.
pub open spec fn spec_judged_fixed_reading(frame: Seq<u8>, pin: WireInputPin) -> Option<
    (Level, Option<u32>),
> {
    match crate::codec::spec_decode_assistant_message(frame) {
        Some(AssistantToHostView::ReadPinResult(Some(rr))) => if rr.pin == pin {
            Some((rr.level, rr.period_ms))
        } else {
            None
        },
        _ => None,
    }
}

/// The direction-switch command for a dynamic pin.
pub open spec fn spec_direction_request(
    pin_number: u8,
    direction: Direction,
    level: Option<Level>,
) -> HostToAssistantView {
    HostToAssistantView::SetDirection(
        SetDirection { pin: DynamicPin::GPIO(pin_number), direction, level },
    )
}

impl Assistant {
    /// Requests the latest reading of one fixed-role input pin and judges
    /// the reply, believing only a reading for that very pin.
    fn read_fixed_pin(&mut self, pin: WireInputPin, timeout_ms: u64) -> (r: Result<
        (Level, Option<u32>),
        ReadLevelError,
    >)
        ensures
            final(self).pins == old(self).pins,
            final(self).num_pins == old(self).num_pins,
            exists|mid: Conn|
                #[trigger] spec_conn_sent(old(self).conn, mid, spec_fixed_read_request(pin))
                    && spec_fixed_read_outcome(spec_deque_frames(mid.mock.data_in), pin, r)
                    && final(self).conn.device == mid.device && final(self).conn.mock.data_out
                    == mid.mock.data_out && (spec_deque_frames(mid.mock.data_in).len() == 0
                    ==> final(self).conn.mock.data_in@ == mid.mock.data_in@) && (spec_deque_frames(
                    mid.mock.data_in,
                ).len() > 0 ==> spec_deque_frames(final(self).conn.mock.data_in)
                    == spec_deque_frames(mid.mock.data_in).drop_first()),
    {
        let request = HostToAssistant::ReadPin(ReadLevel { pin });
        match self.conn.send(&request) {
            Ok(_) => {},
            Err(e) => {
                // the model link accepts every frame; kept for the shape a
                // fallible transport would need
                return Err(ReadLevelError::Send(e));
            },
        }
        let reply = match self.conn.receive(timeout_ms) {
            Ok(m) => m,
            Err(e) => {
                return Err(ReadLevelError::Receive(e));
            },
        };
        let result = match &reply {
            AssistantToHost::ReadPinResult(Some(rr)) => {
                if rr.pin.index() == pin.index() {
                    proof {
                        assert(rr.pin == pin);
                    }
                    Some((rr.level, rr.period_ms))
                } else {
                    None
                }
            },
            _ => None,
        };
        match result {
            Some(reading) => Ok(reading),
            None => Err(ReadLevelError::UnexpectedMessage(reply)),
        }
    }

    /// Performs the remaining reads of one measurement run: one judged
    /// request/reply exchange per read, folding exactly as
    /// [`spec_measure_exchanges`] says.
    fn measure_reads(
        &mut self,
        pin: WireInputPin,
        remaining: u32,
        timeout_ms: u64,
        state: Level,
        measurement: Option<GpioPeriodMeasurement>,
    ) -> (r: Result<GpioPeriodMeasurement, AssistantError>)
        requires
            measurement matches Some(m) ==> m.min <= m.max,
        ensures
            final(self).pins == old(self).pins,
            final(self).num_pins == old(self).num_pins,
            spec_measure_exchanges(
                old(self).conn,
                final(self).conn,
                pin,
                remaining as nat,
                state,
                spec_acc_of(measurement),
                r,
            ),
            r matches Ok(m) ==> m.min <= m.max,
        decreases remaining,
    {
        if remaining == 0 {
            return match measurement {
                Some(m) => Ok(m),
                None => Err(AssistantError::PinRead(ReadLevelError::Timeout)),
            };
        }
        let ghost c0 = self.conn;
        match self.read_fixed_pin(pin, timeout_ms) {
            Err(e) => {
                let ghost rr = Err::<GpioPeriodMeasurement, AssistantError>(
                    AssistantError::PinRead(e),
                );
                proof {
                    let mid = choose|mid: Conn|
                        spec_conn_sent(c0, mid, spec_fixed_read_request(pin))
                            && spec_fixed_read_outcome(
                            spec_deque_frames(mid.mock.data_in),
                            pin,
                            Err::<(Level, Option<u32>), ReadLevelError>(e),
                        ) && self.conn.device == mid.device && self.conn.mock.data_out
                            == mid.mock.data_out && (spec_deque_frames(mid.mock.data_in).len()
                            == 0 ==> self.conn.mock.data_in@ == mid.mock.data_in@) && (
                        spec_deque_frames(mid.mock.data_in).len() > 0 ==> spec_deque_frames(
                            self.conn.mock.data_in,
                        ) == spec_deque_frames(mid.mock.data_in).drop_first());
                    assert(spec_reply_consumed(mid, self.conn));
                    assert(spec_measure_exchanges(
                        c0,
                        self.conn,
                        pin,
                        remaining as nat,
                        state,
                        spec_acc_of(measurement),
                        rr,
                    ));
                }
                Err(AssistantError::PinRead(e))
            },
            Ok((level, period)) => {
                let ghost mid0 = choose|mid: Conn|
                    spec_conn_sent(c0, mid, spec_fixed_read_request(pin))
                        && spec_fixed_read_outcome(
                        spec_deque_frames(mid.mock.data_in),
                        pin,
                        Ok::<(Level, Option<u32>), ReadLevelError>((level, period)),
                    ) && self.conn.device == mid.device && self.conn.mock.data_out
                        == mid.mock.data_out && (spec_deque_frames(mid.mock.data_in).len() == 0
                        ==> self.conn.mock.data_in@ == mid.mock.data_in@) && (spec_deque_frames(
                        mid.mock.data_in,
                    ).len() > 0 ==> spec_deque_frames(self.conn.mock.data_in)
                        == spec_deque_frames(mid.mock.data_in).drop_first());
                let ghost c1 = self.conn;
                let changed = match (level, state) {
                    (Level::High, Level::High) => false,
                    (Level::Low, Level::Low) => false,
                    _ => true,
                };
                let next_state = if changed {
                    level
                } else {
                    state
                };
                let next_measurement = if changed {
                    match period {
                        None => measurement,
                        Some(ms) => match measurement {
                            None => Some(GpioPeriodMeasurement { min: ms, max: ms }),
                            Some(m) => Some(
                                GpioPeriodMeasurement {
                                    min: if ms < m.min {
                                        ms
                                    } else {
                                        m.min
                                    },
                                    max: if ms > m.max {
                                        ms
                                    } else {
                                        m.max
                                    },
                                },
                            ),
                        },
                    }
                } else {
                    measurement
                };
                let res = self.measure_reads(
                    pin,
                    remaining - 1,
                    timeout_ms,
                    next_state,
                    next_measurement,
                );
                proof {
                    assert(spec_reply_consumed(mid0, c1));
                    assert(spec_measure_exchanges(
                        c0,
                        self.conn,
                        pin,
                        remaining as nat,
                        state,
                        spec_acc_of(measurement),
                        res,
                    ));
                }
                res
            },
        }
    }

    /// Reads one fixed-role pin exactly `samples` times; the first reading
    /// seeds the level state and the rest fold the periods of the
    /// level-changing readings into running bounds: one judged exchange
    /// per read, as [`spec_measured`] says, which over a bare link is
    /// exactly the replay [`spec_measure`] of the pending reply frames.
    fn measure_fixed_pin(&mut self, pin: WireInputPin, samples: u32, timeout_ms: u64) -> (r:
        Result<GpioPeriodMeasurement, AssistantError>)
        requires
            samples > 0,
        ensures
            final(self).pins == old(self).pins,
            final(self).num_pins == old(self).num_pins,
            spec_measured(old(self).conn, final(self).conn, pin, samples, r),
            old(self).conn.device is None ==> final(self).conn.device is None
                && spec_measure_result(
                spec_deque_frames(old(self).conn.mock.data_in),
                samples,
                pin,
                r,
            ),
            r matches Ok(m) ==> m.min <= m.max && exists|
                initial: Level,
                readings: Seq<(Level, Option<u32>)>,
            |
                #[trigger] spec_gpio_period_fold(initial, readings, None) == Some(
                    (m.min, m.max),
                ),
    {
        let ghost c0 = self.conn;
        let (level0, period0) = match self.read_fixed_pin(pin, timeout_ms) {
            Ok(reading) => reading,
            Err(e) => {
                let ghost rr = Err::<GpioPeriodMeasurement, AssistantError>(
                    AssistantError::PinRead(e),
                );
                proof {
                    let mid = choose|mid: Conn|
                        spec_conn_sent(c0, mid, spec_fixed_read_request(pin))
                            && spec_fixed_read_outcome(
                            spec_deque_frames(mid.mock.data_in),
                            pin,
                            Err::<(Level, Option<u32>), ReadLevelError>(e),
                        ) && self.conn.device == mid.device && self.conn.mock.data_out
                            == mid.mock.data_out && (spec_deque_frames(mid.mock.data_in).len()
                            == 0 ==> self.conn.mock.data_in@ == mid.mock.data_in@) && (
                        spec_deque_frames(mid.mock.data_in).len() > 0 ==> spec_deque_frames(
                            self.conn.mock.data_in,
                        ) == spec_deque_frames(mid.mock.data_in).drop_first());
                    assert(spec_reply_consumed(mid, self.conn));
                    assert(spec_measured(c0, self.conn, pin, samples, rr));
                    if c0.device is None {
                        lemma_measured_bare_link(c0, self.conn, pin, samples, rr);
                    }
                }
                return Err(AssistantError::PinRead(e));
            },
        };
        let ghost mid0 = choose|mid: Conn|
            spec_conn_sent(c0, mid, spec_fixed_read_request(pin)) && spec_fixed_read_outcome(
                spec_deque_frames(mid.mock.data_in),
                pin,
                Ok::<(Level, Option<u32>), ReadLevelError>((level0, period0)),
            ) && self.conn.device == mid.device && self.conn.mock.data_out == mid.mock.data_out
                && (spec_deque_frames(mid.mock.data_in).len() == 0 ==> self.conn.mock.data_in@
                == mid.mock.data_in@) && (spec_deque_frames(mid.mock.data_in).len() > 0
                ==> spec_deque_frames(self.conn.mock.data_in) == spec_deque_frames(
                mid.mock.data_in,
            ).drop_first());
        let ghost c1 = self.conn;
        let res = self.measure_reads(pin, samples - 1, timeout_ms, level0, None);
        proof {
            assert(spec_reply_consumed(mid0, c1));
            assert(spec_measured(c0, self.conn, pin, samples, res));
            if c0.device is None {
                lemma_measured_bare_link(c0, self.conn, pin, samples, res);
            }
            match res {
                Ok(m) => {
                    let w_readings = seq![
                        (Level::Low, Some(m.min)),
                        (Level::High, Some(m.max)),
                    ];
                    assert(spec_gpio_period_fold(Level::High, w_readings, None) == Some(
                        (m.min, m.max),
                    )) by {
                        reveal_with_fuel(spec_gpio_period_fold, 4);
                        assert(w_readings.drop_first() =~= seq![(Level::High, Some(m.max))]);
                        assert(w_readings.drop_first().drop_first() =~= Seq::<
                            (Level, Option<u32>),
                        >::empty());
                    }
                },
                Err(_) => {},
            }
        }
        res
    }

    /// Takes exactly `samples` readings; the first seeds the level state,
    /// and duplicate polls and period-less readings consume a sample
    /// without entering the minimum/maximum fold. Over an in-memory
    /// link the result is exactly what the replay [`spec_measure`] of the
    /// pending reply frames dictates; over the in-process assistant the
    /// replies arrive while the call runs, judged per exchange as
    /// [`spec_fixed_read_outcome`] says. A sample count of zero is
    /// rejected, and a run in which no period was observed at all is
    /// reported as a failed read instead of a made-up measurement.
    pub fn measure_gpio_period(&mut self, samples: u32, timeout_ms: u64) -> (r: Result<
        GpioPeriodMeasurement,
        AssistantError,
    >)
        requires
            old(self).wf(),
        ensures
            final(self).wf(),
            final(self).pins == old(self).pins,
            final(self).num_pins == old(self).num_pins,
            samples == 0 ==> (r matches Err(e) && e == AssistantError::InvalidArgument)
                && *final(self) == *old(self),
            !old(self).pins@.contains_key(TARGET_TIMER_PIN_NUMBER) && samples > 0 ==> (r matches
                Err(e) && e == AssistantError::PinOperation(
                AssistantPinOperationError::IllegalPinNumber(PinNumber(TARGET_TIMER_PIN_NUMBER)),
            )) && *final(self) == *old(self),
            old(self).pins@.contains_key(TARGET_TIMER_PIN_NUMBER) && samples > 0 && old(self).conn.device is None ==> final(self).conn.device is None && spec_measure_result(
                spec_deque_frames(old(self).conn.mock.data_in),
                samples,
                WireInputPin::Blue,
                r,
            ),
            old(self).pins@.contains_key(TARGET_TIMER_PIN_NUMBER) && samples > 0
                ==> spec_measured(
                old(self).conn,
                final(self).conn,
                WireInputPin::Blue,
                samples,
                r,
            ),
            r matches Ok(m) ==> m.min <= m.max && exists|
                initial: Level,
                readings: Seq<(Level, Option<u32>)>,
            |
                #[trigger] spec_gpio_period_fold(initial, readings, None) == Some(
                    (m.min, m.max),
                ),
    {
        if samples == 0 {
            return Err(AssistantError::InvalidArgument);
        }
        match self.pins.get(&TARGET_TIMER_PIN_NUMBER) {
            Some(_) => {},
            None => {
                return Err(
                    AssistantError::PinOperation(
                        AssistantPinOperationError::IllegalPinNumber(
                            PinNumber::new(TARGET_TIMER_PIN_NUMBER),
                        ),
                    ),
                );
            },
        }
        self.measure_fixed_pin(WireInputPin::Blue, samples, timeout_ms)
    }

    /// Measures the period of level changes on the PWM measurement pin,
    /// with the same sampling discipline and the same exact replay
    /// contract as [`Assistant::measure_gpio_period`].
    pub fn measure_pwm_signal(&mut self, samples: u32, timeout_ms: u64) -> (r: Result<
        GpioPeriodMeasurement,
        AssistantError,
    >)
        requires
            old(self).wf(),
        ensures
            final(self).wf(),
            final(self).pins == old(self).pins,
            final(self).num_pins == old(self).num_pins,
            samples == 0 ==> (r matches Err(e) && e == AssistantError::InvalidArgument)
                && *final(self) == *old(self),
            samples > 0 && old(self).conn.device is None ==> final(self).conn.device is None
                && spec_measure_result(
                spec_deque_frames(old(self).conn.mock.data_in),
                samples,
                WireInputPin::Pwm,
                r,
            ),
            samples > 0 ==> spec_measured(
                old(self).conn,
                final(self).conn,
                WireInputPin::Pwm,
                samples,
                r,
            ),
            r matches Ok(m) ==> m.min <= m.max && exists|
                initial: Level,
                readings: Seq<(Level, Option<u32>)>,
            |
                #[trigger] spec_gpio_period_fold(initial, readings, None) == Some(
                    (m.min, m.max),
                ),
    {
        if samples == 0 {
            return Err(AssistantError::InvalidArgument);
        }
        self.measure_fixed_pin(WireInputPin::Pwm, samples, timeout_ms)
    }
}

/// How a measurement run plays out over the pending reply frames.
pub enum MeasureReplay {
    /// Every read was answered with a usable reading; carries the folded
    /// period bounds, `None` when no period was observed at all
    Folded(Option<(u32, u32)>),
    /// A read failed; carries how many frames the successful reads before
    /// it had consumed, so the failing read is judged against the pending
    /// frames from that point on
    Failed(int),
}

/// The bounds a recorded measurement stands for.
pub open spec fn spec_acc_of(measurement: Option<GpioPeriodMeasurement>) -> Option<(u32, u32)> {
    match measurement {
        None => None,
        Some(m) => Some((m.min, m.max)),
    }
}

/// Replays the sampling loop over the pending reply frames: each of the
/// `remaining` reads consumes one frame; a usable reading for the pin
/// folds as the measurement algorithm says (duplicate levels discarded,
/// period-less readings skipped), and anything else stops the run.
pub open spec fn spec_measure_replay(
    pending: Seq<Seq<u8>>,
    remaining: nat,
    state: Level,
    acc: Option<(u32, u32)>,
    pin: WireInputPin,
    consumed: int,
) -> MeasureReplay
    decreases remaining,
{
    if remaining == 0 {
        MeasureReplay::Folded(acc)
    } else if pending.len() == 0 {
        MeasureReplay::Failed(consumed)
    } else {
        match spec_judged_fixed_reading(pending[0], pin) {
            None => MeasureReplay::Failed(consumed),
            Some((level, period)) => {
                if level == state {
                    spec_measure_replay(
                        pending.drop_first(),
                        (remaining - 1) as nat,
                        state,
                        acc,
                        pin,
                        consumed + 1,
                    )
                } else {
                    match period {
                        None => spec_measure_replay(
                            pending.drop_first(),
                            (remaining - 1) as nat,
                            level,
                            acc,
                            pin,
                            consumed + 1,
                        ),
                        Some(ms) => spec_measure_replay(
                            pending.drop_first(),
                            (remaining - 1) as nat,
                            level,
                            spec_fold_period(acc, ms),
                            pin,
                            consumed + 1,
                        ),
                    }
                }
            },
        }
    }
}

/// The outcome of one whole measurement run over the pending reply
/// frames: exactly `samples` readings are taken, the first of them only
/// seeding the level state, the rest folding as the algorithm says.
pub open spec fn spec_measure(
    pending: Seq<Seq<u8>>,
    samples: u32,
    pin: WireInputPin,
) -> MeasureReplay {
    if samples == 0 {
        MeasureReplay::Folded(None)
    } else if pending.len() == 0 {
        MeasureReplay::Failed(0)
    } else {
        match spec_judged_fixed_reading(pending[0], pin) {
            None => MeasureReplay::Failed(0),
            Some((level, _)) => spec_measure_replay(
                pending.drop_first(),
                (samples - 1) as nat,
                level,
                None,
                pin,
                1,
            ),
        }
    }
}

/// Holds when a measurement's result reports exactly the outcome the
/// pending reply frames dictate: the folded bounds on a completed run, the
/// timeout-shaped error when no period was ever observed, and the failing
/// read's own error otherwise.
pub open spec fn spec_measure_result(
    pending: Seq<Seq<u8>>,
    samples: u32,
    pin: WireInputPin,
    r: Result<GpioPeriodMeasurement, AssistantError>,
) -> bool {
    match spec_measure(pending, samples, pin) {
        MeasureReplay::Folded(acc) => match acc {
            Some((mn, mx)) => r matches Ok(m) && m == (GpioPeriodMeasurement {
                min: mn,
                max: mx,
            }),
            None => r matches Err(e) && e == AssistantError::PinRead(ReadLevelError::Timeout),
        },
        MeasureReplay::Failed(k) => r matches Err(AssistantError::PinRead(e))
            && spec_fixed_read_outcome(pending.skip(k), pin, Err(e)),
    }
}


/// Holds when `post` is the connection after one reply was taken off
/// `mid`: the pending frame queue lost its front (or was empty and stayed
/// so), and nothing else of the connection moved.
pub open spec fn spec_reply_consumed(mid: Conn, post: Conn) -> bool {
    &&& post.device == mid.device
    &&& post.mock.data_out == mid.mock.data_out
    &&& spec_deque_frames(mid.mock.data_in).len() == 0 ==> post.mock.data_in@
        == mid.mock.data_in@
    &&& spec_deque_frames(mid.mock.data_in).len() > 0 ==> spec_deque_frames(post.mock.data_in)
        == spec_deque_frames(mid.mock.data_in).drop_first()
}

/// Relates the connection before and after the remaining reads of one
/// measurement run, whatever link backs it: each read is one
/// request/reply exchange (the request sent as [`spec_conn_sent`] says,
/// pumped replies included, the reply judged as
/// [`spec_fixed_read_outcome`] says), folding exactly as the sampling
/// algorithm does, and the run's result is the fold or the first failing
/// read's own error.
pub open spec fn spec_measure_exchanges(
    c0: Conn,
    cf: Conn,
    pin: WireInputPin,
    remaining: nat,
    state: Level,
    acc: Option<(u32, u32)>,
    r: Result<GpioPeriodMeasurement, AssistantError>,
) -> bool
    decreases remaining,
{
    if remaining == 0 {
        &&& cf == c0
        &&& match acc {
            Some((mn, mx)) => r matches Ok(m) && m == (GpioPeriodMeasurement {
                min: mn,
                max: mx,
            }),
            None => r matches Err(e) && e == AssistantError::PinRead(ReadLevelError::Timeout),
        }
    } else {
        exists|mid: Conn, reading: Result<(Level, Option<u32>), ReadLevelError>|
            #![trigger spec_conn_sent(c0, mid, spec_fixed_read_request(pin)), spec_fixed_read_outcome(spec_deque_frames(mid.mock.data_in), pin, reading)]
            spec_conn_sent(c0, mid, spec_fixed_read_request(pin)) && spec_fixed_read_outcome(
                spec_deque_frames(mid.mock.data_in),
                pin,
                reading,
            ) && (match reading {
                Err(e) => spec_reply_consumed(mid, cf) && (r matches Err(
                    AssistantError::PinRead(e2),
                ) && e2 == e),
                Ok((level, period)) => exists|c1: Conn|
                    #![trigger spec_reply_consumed(mid, c1)]
                    spec_reply_consumed(mid, c1) && (if level == state {
                        spec_measure_exchanges(
                            c1,
                            cf,
                            pin,
                            (remaining - 1) as nat,
                            state,
                            acc,
                            r,
                        )
                    } else {
                        match period {
                            None => spec_measure_exchanges(
                                c1,
                                cf,
                                pin,
                                (remaining - 1) as nat,
                                level,
                                acc,
                                r,
                            ),
                            Some(ms) => spec_measure_exchanges(
                                c1,
                                cf,
                                pin,
                                (remaining - 1) as nat,
                                level,
                                spec_fold_period(acc, ms),
                                r,
                            ),
                        }
                    }),
            })
    }
}

/// Relates the connection before and after one whole measurement run of
/// exactly `samples` readings, whatever link backs it: the first exchange
/// seeds the level state and the remaining exchanges fold, as
/// [`spec_measure_exchanges`] says.
pub open spec fn spec_measured(
    c0: Conn,
    cf: Conn,
    pin: WireInputPin,
    samples: u32,
    r: Result<GpioPeriodMeasurement, AssistantError>,
) -> bool {
    exists|mid: Conn, seed: Result<(Level, Option<u32>), ReadLevelError>|
        #![trigger spec_conn_sent(c0, mid, spec_fixed_read_request(pin)), spec_fixed_read_outcome(spec_deque_frames(mid.mock.data_in), pin, seed)]
        spec_conn_sent(c0, mid, spec_fixed_read_request(pin)) && spec_fixed_read_outcome(
            spec_deque_frames(mid.mock.data_in),
            pin,
            seed,
        ) && (match seed {
            Err(e) => spec_reply_consumed(mid, cf) && (r matches Err(AssistantError::PinRead(e2))
                && e2 == e),
            Ok((level, period)) => exists|c1: Conn|
                #![trigger spec_reply_consumed(mid, c1)]
                spec_reply_consumed(mid, c1) && spec_measure_exchanges(
                    c1,
                    cf,
                    pin,
                    (samples - 1) as nat,
                    level,
                    None,
                    r,
                ),
        })
}

/// The consumed-frame counter of the replay only offsets the index a
/// failure reports; the outcome itself does not depend on it.
pub proof fn lemma_replay_shift(
    pending: Seq<Seq<u8>>,
    remaining: nat,
    state: Level,
    acc: Option<(u32, u32)>,
    pin: WireInputPin,
    consumed: int,
)
    ensures
        spec_measure_replay(pending, remaining, state, acc, pin, consumed) == (match
            spec_measure_replay(pending, remaining, state, acc, pin, 0) {
            MeasureReplay::Folded(a) => MeasureReplay::Folded(a),
            MeasureReplay::Failed(k) => MeasureReplay::Failed(k + consumed),
        }),
    decreases remaining,
{
    if remaining == 0 {
    } else if pending.len() == 0 {
    } else {
        match spec_judged_fixed_reading(pending[0], pin) {
            None => {},
            Some((level, period)) => {
                let next_state = if level == state {
                    state
                } else {
                    level
                };
                let next_acc = if level == state {
                    acc
                } else {
                    match period {
                        None => acc,
                        Some(ms) => spec_fold_period(acc, ms),
                    }
                };
                lemma_replay_shift(
                    pending.drop_first(),
                    (remaining - 1) as nat,
                    next_state,
                    next_acc,
                    pin,
                    consumed + 1,
                );
                lemma_replay_shift(
                    pending.drop_first(),
                    (remaining - 1) as nat,
                    next_state,
                    next_acc,
                    pin,
                    1,
                );
            },
        }
    }
}

/// A failure the replay reports always lies within the pending frames:
/// each successful read consumes exactly one frame.
pub proof fn lemma_replay_failed_bounds(
    pending: Seq<Seq<u8>>,
    remaining: nat,
    state: Level,
    acc: Option<(u32, u32)>,
    pin: WireInputPin,
)
    ensures
        spec_measure_replay(pending, remaining, state, acc, pin, 0) matches MeasureReplay::Failed(
            k,
        ) ==> 0 <= k <= pending.len(),
    decreases remaining,
{
    if remaining == 0 {
    } else if pending.len() == 0 {
    } else {
        match spec_judged_fixed_reading(pending[0], pin) {
            None => {},
            Some((level, period)) => {
                let next_state = if level == state {
                    state
                } else {
                    level
                };
                let next_acc = if level == state {
                    acc
                } else {
                    match period {
                        None => acc,
                        Some(ms) => spec_fold_period(acc, ms),
                    }
                };
                lemma_replay_failed_bounds(
                    pending.drop_first(),
                    (remaining - 1) as nat,
                    next_state,
                    next_acc,
                    pin,
                );
                lemma_replay_shift(
                    pending.drop_first(),
                    (remaining - 1) as nat,
                    next_state,
                    next_acc,
                    pin,
                    1,
                );
            },
        }
    }
}

/// Over a bare link, the exchange chain collapses to the frame replay:
/// sending touches no pending reply, so the run's result is exactly what
/// [`spec_measure_replay`] of the frames pending at entry dictates.
pub proof fn lemma_exchanges_bare_link(
    c0: Conn,
    cf: Conn,
    pin: WireInputPin,
    remaining: nat,
    state: Level,
    acc: Option<(u32, u32)>,
    r: Result<GpioPeriodMeasurement, AssistantError>,
)
    requires
        c0.device is None,
        spec_measure_exchanges(c0, cf, pin, remaining, state, acc, r),
    ensures
        cf.device is None,
        match spec_measure_replay(
            spec_deque_frames(c0.mock.data_in),
            remaining,
            state,
            acc,
            pin,
            0,
        ) {
            MeasureReplay::Folded(a) => match a {
                Some((mn, mx)) => r matches Ok(m) && m == (GpioPeriodMeasurement {
                    min: mn,
                    max: mx,
                }),
                None => r matches Err(e) && e == AssistantError::PinRead(ReadLevelError::Timeout),
            },
            MeasureReplay::Failed(k) => r matches Err(AssistantError::PinRead(e))
                && spec_fixed_read_outcome(
                spec_deque_frames(c0.mock.data_in).skip(k),
                pin,
                Err(e),
            ),
        },
    decreases remaining,
{
    let pending = spec_deque_frames(c0.mock.data_in);
    if remaining == 0 {
    } else {
        let (mid, reading) = choose|
            mid: Conn,
            reading: Result<(Level, Option<u32>), ReadLevelError>,
        |
            spec_conn_sent(c0, mid, spec_fixed_read_request(pin)) && spec_fixed_read_outcome(
                spec_deque_frames(mid.mock.data_in),
                pin,
                reading,
            ) && (match reading {
                Err(e) => spec_reply_consumed(mid, cf) && (r matches Err(
                    AssistantError::PinRead(e2),
                ) && e2 == e),
                Ok((level, period)) => exists|c1: Conn|
                    #![trigger spec_reply_consumed(mid, c1)]
                    spec_reply_consumed(mid, c1) && (if level == state {
                        spec_measure_exchanges(
                            c1,
                            cf,
                            pin,
                            (remaining - 1) as nat,
                            state,
                            acc,
                            r,
                        )
                    } else {
                        match period {
                            None => spec_measure_exchanges(
                                c1,
                                cf,
                                pin,
                                (remaining - 1) as nat,
                                level,
                                acc,
                                r,
                            ),
                            Some(ms) => spec_measure_exchanges(
                                c1,
                                cf,
                                pin,
                                (remaining - 1) as nat,
                                level,
                                spec_fold_period(acc, ms),
                                r,
                            ),
                        }
                    }),
            });
        assert(mid.device is None && mid.mock.data_in == c0.mock.data_in);
        match reading {
            Err(e) => {
                assert(pending.skip(0) =~= pending);
            },
            Ok((level, period)) => {
                let next_state = if level == state {
                    state
                } else {
                    level
                };
                let next_acc = if level == state {
                    acc
                } else {
                    match period {
                        None => acc,
                        Some(ms) => spec_fold_period(acc, ms),
                    }
                };
                let c1 = choose|c1: Conn|
                    #![trigger spec_reply_consumed(mid, c1)]
                    spec_reply_consumed(mid, c1) && spec_measure_exchanges(
                        c1,
                        cf,
                        pin,
                        (remaining - 1) as nat,
                        next_state,
                        next_acc,
                        r,
                    );
                assert(pending.len() > 0);
                assert(spec_deque_frames(c1.mock.data_in) == pending.drop_first());
                lemma_exchanges_bare_link(
                    c1,
                    cf,
                    pin,
                    (remaining - 1) as nat,
                    next_state,
                    next_acc,
                    r,
                );
                lemma_replay_shift(
                    pending.drop_first(),
                    (remaining - 1) as nat,
                    next_state,
                    next_acc,
                    pin,
                    1,
                );
                lemma_replay_failed_bounds(
                    pending.drop_first(),
                    (remaining - 1) as nat,
                    next_state,
                    next_acc,
                    pin,
                );
                match spec_measure_replay(
                    pending.drop_first(),
                    (remaining - 1) as nat,
                    next_state,
                    next_acc,
                    pin,
                    0,
                ) {
                    MeasureReplay::Folded(_) => {},
                    MeasureReplay::Failed(k) => {
                        assert(pending.drop_first().skip(k) =~= pending.skip(k + 1));
                    },
                }
            },
        }
    }
}

/// Over a bare link, one whole measurement run reports exactly what the
/// replay of the frames pending at entry dictates.
pub proof fn lemma_measured_bare_link(
    c0: Conn,
    cf: Conn,
    pin: WireInputPin,
    samples: u32,
    r: Result<GpioPeriodMeasurement, AssistantError>,
)
    requires
        samples > 0,
        c0.device is None,
        spec_measured(c0, cf, pin, samples, r),
    ensures
        cf.device is None,
        spec_measure_result(spec_deque_frames(c0.mock.data_in), samples, pin, r),
{
    let pending = spec_deque_frames(c0.mock.data_in);
    let (mid, seed) = choose|mid: Conn, seed: Result<(Level, Option<u32>), ReadLevelError>|
        spec_conn_sent(c0, mid, spec_fixed_read_request(pin)) && spec_fixed_read_outcome(
            spec_deque_frames(mid.mock.data_in),
            pin,
            seed,
        ) && (match seed {
            Err(e) => spec_reply_consumed(mid, cf) && (r matches Err(AssistantError::PinRead(e2))
                && e2 == e),
            Ok((level, period)) => exists|c1: Conn|
                #![trigger spec_reply_consumed(mid, c1)]
                spec_reply_consumed(mid, c1) && spec_measure_exchanges(
                    c1,
                    cf,
                    pin,
                    (samples - 1) as nat,
                    level,
                    None,
                    r,
                ),
        });
    assert(mid.device is None && mid.mock.data_in == c0.mock.data_in);
    match seed {
        Err(e) => {
            assert(pending.skip(0) =~= pending);
        },
        Ok((level, period)) => {
            let c1 = choose|c1: Conn|
                #![trigger spec_reply_consumed(mid, c1)]
                spec_reply_consumed(mid, c1) && spec_measure_exchanges(
                    c1,
                    cf,
                    pin,
                    (samples - 1) as nat,
                    level,
                    None,
                    r,
                );
            assert(pending.len() > 0);
            assert(spec_deque_frames(c1.mock.data_in) == pending.drop_first());
            lemma_exchanges_bare_link(c1, cf, pin, (samples - 1) as nat, level, None, r);
            lemma_replay_shift(pending.drop_first(), (samples - 1) as nat, level, None, pin, 1);
            lemma_replay_failed_bounds(pending.drop_first(), (samples - 1) as nat, level, None, pin);
            match spec_measure_replay(
                pending.drop_first(),
                (samples - 1) as nat,
                level,
                None,
                pin,
                0,
            ) {
                MeasureReplay::Folded(_) => {},
                MeasureReplay::Failed(k) => {
                    assert(pending.drop_first().skip(k) =~= pending.skip(k + 1));
                },
            }
        },
    }
}

/// A wrapper around the test assistant behind a fail-fast exclusive-access
/// guard
///
/// The guard models the try-lock of a shared connection: exactly one
/// caller holds it at a time, and a second caller is answered with the
/// locked error immediately instead of being queued. Contention is a
/// programming error in single-threaded test code, so it is made
/// observable, never hidden. [`AssistantInterface::acquire_exclusive`]
/// stands for a concurrent caller taking the guard; every operation here
/// claims and releases the guard around its own work.
pub struct AssistantInterface {
    /// The wrapped assistant connection and registry
    pub real_assistant: Assistant,
    /// Whether some caller currently holds exclusive access
    pub engaged: bool,
}

/// Holds when an operation left the registry, the connection and the
/// guard exactly as they were.
pub open spec fn spec_interface_untouched(
    pre: AssistantInterface,
    post: AssistantInterface,
) -> bool {
    &&& post.real_assistant.pins@ == pre.real_assistant.pins@
    &&& post.real_assistant.conn == pre.real_assistant.conn
    &&& post.real_assistant.num_pins == pre.real_assistant.num_pins
    &&& post.engaged == pre.engaged
}

/// What one attempt to take the exclusive-access guard does: a free guard
/// is granted and everything else left alone; a held guard answers the
/// locked error at once and changes nothing.
pub open spec fn spec_guard_acquired(
    pre: AssistantInterface,
    post: AssistantInterface,
    r: Result<(), AssistantError>,
) -> bool {
    &&& !pre.engaged ==> r is Ok && post.engaged && post.real_assistant == pre.real_assistant
    &&& pre.engaged ==> (r matches Err(e) && e == AssistantError::AssistantLocked) && post == pre
}

/// What one attempt to acquire a pin does, whatever handle type wraps the
/// token afterwards: a choice outside the wiring table is refused; a held
/// guard answers the locked error; a present token moves out of the
/// registry and the direction switch goes on the wire; a missing token of
/// an existing board pin means someone owns it already.
pub open spec fn spec_pin_acquisition(
    pre: AssistantInterface,
    post: AssistantInterface,
    pin_number: PinNumber,
    direction: PinDirection,
    level: Option<Level>,
    outcome: Result<Pin<PinToken>, AssistantError>,
) -> bool {
    &&& !spec_valid_pin_choice(pin_number, direction) ==> (outcome matches Err(e) && e
        == AssistantError::NotDynamic) && post == pre
    &&& spec_valid_pin_choice(pin_number, direction) && pre.engaged ==> (outcome matches Err(e)
        && e == AssistantError::AssistantLocked) && post == pre
    &&& spec_valid_pin_choice(pin_number, direction) && !pre.engaged
        && pre.real_assistant.pins@.contains_key(pin_number.0) ==> (outcome matches Ok(p) && p
        == (Pin { pin: PinToken::GPIO(pin_number.0) })) && post.real_assistant.pins@
        == pre.real_assistant.pins@.remove(pin_number.0) && spec_conn_sent(
        pre.real_assistant.conn,
        post.real_assistant.conn,
        spec_direction_request(
            pin_number.0,
            (match direction {
                PinDirection::Input => Direction::Input,
                PinDirection::Output => Direction::Output,
            }),
            level,
        ),
    ) && !post.engaged && post.real_assistant.num_pins == pre.real_assistant.num_pins
    &&& spec_valid_pin_choice(pin_number, direction) && !pre.engaged
        && !pre.real_assistant.pins@.contains_key(pin_number.0) ==> spec_interface_untouched(
        pre,
        post,
    ) && (if 1 <= pin_number.0 <= pre.real_assistant.num_pins {
        outcome matches Err(e) && e == AssistantError::PinOperation(
            AssistantPinOperationError::AlreadyOwned(pin_number),
        )
    } else {
        outcome matches Err(e) && e == AssistantError::PinOperation(
            AssistantPinOperationError::IllegalPinNumber(pin_number),
        )
    })
}

/// Holds when an operation found the guard taken: it reported the locked
/// error and touched nothing.
pub open spec fn spec_locked_refusal<T>(
    pre: AssistantInterface,
    post: AssistantInterface,
    r: Result<T, AssistantError>,
) -> bool {
    &&& pre.engaged
    &&& post == pre
    &&& r matches Err(e) && e == AssistantError::AssistantLocked
}

impl AssistantInterface {
    /// The interface is well-formed when its registry is.
    pub open spec fn wf(&self) -> bool {
        self.real_assistant.wf()
    }

    /// Wraps an assistant; nobody holds the guard yet.
    pub fn new(assistant: Assistant) -> (r: AssistantInterface)
        ensures
            r.real_assistant == assistant,
            !r.engaged,
    {
        AssistantInterface { real_assistant: assistant, engaged: false }
    }

    /// Takes the exclusive-access guard, as a concurrent caller would:
    /// free access is granted at once, held access is refused at once with
    /// the locked error, never queued.
    pub fn acquire_exclusive(&mut self) -> (r: Result<(), AssistantError>)
        ensures
            spec_guard_acquired(*old(self), *final(self), r),
    {
        if self.engaged {
            Err(AssistantError::AssistantLocked)
        } else {
            self.engaged = true;
            Ok(())
        }
    }

    /// Releases the exclusive-access guard.
    pub fn release_exclusive(&mut self)
        ensures
            !final(self).engaged,
            final(self).real_assistant == old(self).real_assistant,
    {
        self.engaged = false;
    }

    /// Acquires the pin with number `pin_number` for the requested
    /// direction: checks the wiring table, claims the guard, and moves the
    /// pin token out of the registry so that no second caller can ever
    /// drive the same pin. A token that is gone from the registry of an
    /// existing pin was acquired before: that is the already-owned error,
    /// never silent sharing.
    fn acquire_pin(&mut self, pin_number: PinNumber, direction: PinDirection) -> (r: Result<
        Pin<PinToken>,
        AssistantError,
    >)
        requires
            old(self).wf(),
        ensures
            final(self).wf(),
            !final(self).engaged == !old(self).engaged,
            !spec_valid_pin_choice(pin_number, direction) ==> (r matches Err(e) && e
                == AssistantError::NotDynamic) && *final(self) == *old(self),
            spec_valid_pin_choice(pin_number, direction) && old(self).engaged ==> (r matches Err(
                e,
            ) && e == AssistantError::AssistantLocked) && *final(self) == *old(self),
            spec_valid_pin_choice(pin_number, direction) && !old(self).engaged && old(self).real_assistant.pins@.contains_key(pin_number.0) ==> (r matches Ok(p) && p == (Pin {
                pin: PinToken::GPIO(pin_number.0),
            })) && final(self).real_assistant.pins@ == old(self).real_assistant.pins@.remove(
                pin_number.0,
            ) && final(self).real_assistant.conn == old(self).real_assistant.conn && final(self).real_assistant.num_pins == old(self).real_assistant.num_pins && !final(self).engaged,
            spec_valid_pin_choice(pin_number, direction) && !old(self).engaged && !old(self).real_assistant.pins@.contains_key(pin_number.0) ==> spec_interface_untouched(
                *old(self),
                *final(self),
            ) && (
            if 1 <= pin_number.0 <= old(self).real_assistant.num_pins {
                r matches Err(e) && e == AssistantError::PinOperation(
                    AssistantPinOperationError::AlreadyOwned(pin_number),
                )
            } else {
                r matches Err(e) && e == AssistantError::PinOperation(
                    AssistantPinOperationError::IllegalPinNumber(pin_number),
                )
            }),
    {
        match valid_pin_choice(pin_number, direction) {
            Ok(_) => {},
            Err(e) => {
                return Err(e);
            },
        }
        if self.engaged {
            return Err(AssistantError::AssistantLocked);
        }
        let idx = pin_number.get_pin_idx();
        match self.real_assistant.pins.remove(&idx) {
            Some(pin) => Ok(pin),
            None => {
                proof {
                    assert(self.real_assistant.pins@ =~= old(self).real_assistant.pins@);
                }
                if 1 <= idx && idx <= self.real_assistant.num_pins {
                    Err(
                        AssistantError::PinOperation(
                            AssistantPinOperationError::AlreadyOwned(pin_number),
                        ),
                    )
                } else {
                    Err(
                        AssistantError::PinOperation(
                            AssistantPinOperationError::IllegalPinNumber(pin_number),
                        ),
                    )
                }
            },
        }
    }

    /// Retrieves an [`InputPin`] handle that reconfigures the assistant's
    /// pin `pin_number` as an input at test runtime.
    ///
    /// The pin token moves out of the registry, so acquiring the same pin
    /// twice fails with the already-owned error: at most one handle per
    /// pin ever exists. On success the direction switch is sent to the
    /// assistant.
    pub fn create_gpio_input_pin(&mut self, pin_number: PinNumber) -> (r: Result<
        InputPin,
        AssistantError,
    >)
        requires
            old(self).wf(),
        ensures
            final(self).wf(),
            spec_pin_acquisition(
                *old(self),
                *final(self),
                pin_number,
                PinDirection::Input,
                None,
                spec_input_outcome(r),
            ),
            r matches Ok(p) ==> p.pin_number == pin_number,
            !spec_valid_pin_choice(pin_number, PinDirection::Input) ==> (r matches Err(e) && e
                == AssistantError::NotDynamic) && *final(self) == *old(self),
            spec_valid_pin_choice(pin_number, PinDirection::Input) && old(self).engaged ==> (
            r matches Err(e) && e == AssistantError::AssistantLocked) && *final(self) == *old(self),
            spec_valid_pin_choice(pin_number, PinDirection::Input) && !old(self).engaged && old(self).real_assistant.pins@.contains_key(pin_number.0) ==> (r matches Ok(p) && p
                == (InputPin { pin_number, pin: Pin { pin: PinToken::GPIO(pin_number.0) } }))
                && final(self).real_assistant.pins@ == old(self).real_assistant.pins@.remove(
                pin_number.0,
            ) && spec_conn_sent(
                old(self).real_assistant.conn,
                final(self).real_assistant.conn,
                spec_direction_request(pin_number.0, Direction::Input, None),
            ) && !final(self).engaged,
            spec_valid_pin_choice(pin_number, PinDirection::Input) && !old(self).engaged && !old(self).real_assistant.pins@.contains_key(pin_number.0) ==> spec_interface_untouched(
                *old(self),
                *final(self),
            ) && (
            if 1 <= pin_number.0 <= old(self).real_assistant.num_pins {
                r matches Err(e) && e == AssistantError::PinOperation(
                    AssistantPinOperationError::AlreadyOwned(pin_number),
                )
            } else {
                r matches Err(e) && e == AssistantError::PinOperation(
                    AssistantPinOperationError::IllegalPinNumber(pin_number),
                )
            }),
    {
        let pin = match self.acquire_pin(pin_number, PinDirection::Input) {
            Ok(pin) => pin,
            Err(e) => {
                return Err(e);
            },
        };
        let command = HostToAssistant::SetDirection(
            SetDirection {
                pin: DynamicPin::GPIO(pin_number.get_pin_idx()),
                direction: Direction::Input,
                level: None,
            },
        );
        match self.real_assistant.conn.send(&command) {
            Ok(_) => {},
            Err(e) => {
                return Err(
                    AssistantError::PinOperation(
                        AssistantPinOperationError::SetPinDirectionInput(e),
                    ),
                );
            },
        }
        Ok(InputPin { pin_number, pin })
    }

    /// Retrieves an [`OutputPin`] handle that reconfigures the assistant's
    /// pin `pin_number` as an output at test runtime; when this returns
    /// without error, the direction switch carrying `level` has been sent,
    /// so the pin drives that level.
    ///
    /// The pin token moves out of the registry, so acquiring the same pin
    /// twice fails with the already-owned error: at most one handle per
    /// pin ever exists.
    pub fn create_gpio_output_pin(&mut self, pin_number: PinNumber, level: Level) -> (r: Result<
        OutputPin,
        AssistantError,
    >)
        requires
            old(self).wf(),
        ensures
            final(self).wf(),
            spec_pin_acquisition(
                *old(self),
                *final(self),
                pin_number,
                PinDirection::Output,
                Some(level),
                spec_output_outcome(r),
            ),
            r matches Ok(p) ==> p.pin_number == pin_number,
            !spec_valid_pin_choice(pin_number, PinDirection::Output) ==> (r matches Err(e) && e
                == AssistantError::NotDynamic) && *final(self) == *old(self),
            spec_valid_pin_choice(pin_number, PinDirection::Output) && old(self).engaged ==> (
            r matches Err(e) && e == AssistantError::AssistantLocked) && *final(self) == *old(self),
            spec_valid_pin_choice(pin_number, PinDirection::Output) && !old(self).engaged && old(self).real_assistant.pins@.contains_key(pin_number.0) ==> (r matches Ok(p) && p
                == (OutputPin { pin_number, pin: Pin { pin: PinToken::GPIO(pin_number.0) } }))
                && final(self).real_assistant.pins@ == old(self).real_assistant.pins@.remove(
                pin_number.0,
            ) && spec_conn_sent(
                old(self).real_assistant.conn,
                final(self).real_assistant.conn,
                spec_direction_request(pin_number.0, Direction::Output, Some(level)),
            ) && !final(self).engaged,
            spec_valid_pin_choice(pin_number, PinDirection::Output) && !old(self).engaged && !old(self).real_assistant.pins@.contains_key(pin_number.0) ==> spec_interface_untouched(
                *old(self),
                *final(self),
            ) && (
            if 1 <= pin_number.0 <= old(self).real_assistant.num_pins {
                r matches Err(e) && e == AssistantError::PinOperation(
                    AssistantPinOperationError::AlreadyOwned(pin_number),
                )
            } else {
                r matches Err(e) && e == AssistantError::PinOperation(
                    AssistantPinOperationError::IllegalPinNumber(pin_number),
                )
            }),
    {
        let pin = match self.acquire_pin(pin_number, PinDirection::Output) {
            Ok(pin) => pin,
            Err(e) => {
                return Err(e);
            },
        };
        let command = HostToAssistant::SetDirection(
            SetDirection {
                pin: DynamicPin::GPIO(pin_number.get_pin_idx()),
                direction: Direction::Output,
                level: Some(level),
            },
        );
        match self.real_assistant.conn.send(&command) {
            Ok(_) => {},
            Err(e) => {
                return Err(
                    AssistantError::PinOperation(
                        AssistantPinOperationError::SetPinDirectionOutput(e),
                    ),
                );
            },
        }
        Ok(OutputPin { pin_number, pin })
    }
}

impl AssistantInterface {
    /// Measures the period of the signal driven by the target's timer
    /// interrupt, on the pin wired to it.
    pub fn measure_timer_interrupt(&mut self, samples: u32, timeout_ms: u64) -> (r: Result<
        GpioPeriodMeasurement,
        AssistantError,
    >)
        requires
            old(self).wf(),
        ensures
            final(self).wf(),
            final(self).engaged == old(self).engaged,
            old(self).engaged ==> spec_locked_refusal(*old(self), *final(self), r),
            !old(self).engaged ==> final(self).real_assistant.pins == old(self).real_assistant.pins && final(self).real_assistant.num_pins == old(self).real_assistant.num_pins && (samples == 0 ==> (r matches Err(e) && e
                == AssistantError::InvalidArgument) && final(self).real_assistant == old(self).real_assistant) && (!old(self).real_assistant.pins@.contains_key(
                TARGET_TIMER_PIN_NUMBER,
            ) && samples > 0 ==> (r matches Err(e) && e == AssistantError::PinOperation(
                AssistantPinOperationError::IllegalPinNumber(PinNumber(TARGET_TIMER_PIN_NUMBER)),
            )) && final(self).real_assistant == old(self).real_assistant) && (old(self).real_assistant.pins@.contains_key(TARGET_TIMER_PIN_NUMBER) && samples > 0 && old(self).real_assistant.conn.device is None ==> final(self).real_assistant.conn.device
                is None && spec_measure_result(
                spec_deque_frames(old(self).real_assistant.conn.mock.data_in),
                samples,
                WireInputPin::Blue,
                r,
            )) && (old(self).real_assistant.pins@.contains_key(TARGET_TIMER_PIN_NUMBER)
                && samples > 0 ==> spec_measured(
                old(self).real_assistant.conn,
                final(self).real_assistant.conn,
                WireInputPin::Blue,
                samples,
                r,
            )) && (r matches Ok(m) ==> m.min <= m.max && exists|
                initial: Level,
                readings: Seq<(Level, Option<u32>)>,
            |
                #[trigger] spec_gpio_period_fold(initial, readings, None) == Some(
                    (m.min, m.max),
                )),
    {
        if self.engaged {
            return Err(AssistantError::AssistantLocked);
        }
        self.real_assistant.measure_gpio_period(samples, timeout_ms)
    }

    /// Measures the period of level changes on the pin wired to the
    /// target's timer interrupt signal; see
    /// [`Assistant::measure_gpio_period`].
    pub fn measure_gpio_period(&mut self, samples: u32, timeout_ms: u64) -> (r: Result<
        GpioPeriodMeasurement,
        AssistantError,
    >)
        requires
            old(self).wf(),
        ensures
            final(self).wf(),
            final(self).engaged == old(self).engaged,
            old(self).engaged ==> spec_locked_refusal(*old(self), *final(self), r),
            !old(self).engaged ==> final(self).real_assistant.pins == old(self).real_assistant.pins && final(self).real_assistant.num_pins == old(self).real_assistant.num_pins && (samples == 0 ==> (r matches Err(e) && e
                == AssistantError::InvalidArgument) && final(self).real_assistant == old(self).real_assistant) && (!old(self).real_assistant.pins@.contains_key(
                TARGET_TIMER_PIN_NUMBER,
            ) && samples > 0 ==> (r matches Err(e) && e == AssistantError::PinOperation(
                AssistantPinOperationError::IllegalPinNumber(PinNumber(TARGET_TIMER_PIN_NUMBER)),
            )) && final(self).real_assistant == old(self).real_assistant) && (old(self).real_assistant.pins@.contains_key(TARGET_TIMER_PIN_NUMBER) && samples > 0 && old(self).real_assistant.conn.device is None ==> final(self).real_assistant.conn.device
                is None && spec_measure_result(
                spec_deque_frames(old(self).real_assistant.conn.mock.data_in),
                samples,
                WireInputPin::Blue,
                r,
            )) && (old(self).real_assistant.pins@.contains_key(TARGET_TIMER_PIN_NUMBER)
                && samples > 0 ==> spec_measured(
                old(self).real_assistant.conn,
                final(self).real_assistant.conn,
                WireInputPin::Blue,
                samples,
                r,
            )) && (r matches Ok(m) ==> m.min <= m.max && exists|
                initial: Level,
                readings: Seq<(Level, Option<u32>)>,
            |
                #[trigger] spec_gpio_period_fold(initial, readings, None) == Some(
                    (m.min, m.max),
                )),
    {
        if self.engaged {
            return Err(AssistantError::AssistantLocked);
        }
        self.real_assistant.measure_gpio_period(samples, timeout_ms)
    }

    /// Waits to receive the provided data from the target via USART; see
    /// [`Assistant::receive_from_target_usart`].
    pub fn receive_from_target_usart(&mut self, data: &Vec<u8>, timeout_ms: u64) -> (r: Result<
        Vec<u8>,
        AssistantError,
    >)
        requires
            data@.len() >= 1,
        ensures
            final(self).engaged == old(self).engaged,
            old(self).engaged ==> spec_locked_refusal(*old(self), *final(self), r),
            !old(self).engaged ==> final(self).real_assistant.pins == old(self).real_assistant.pins && final(self).real_assistant.num_pins == old(self).real_assistant.num_pins && final(self).real_assistant.conn.device == old(self).real_assistant.conn.device && final(self).real_assistant.conn.mock.data_out == old(self).real_assistant.conn.mock.data_out && (match r {
                Ok(buf) => spec_usart_wait_result(
                    spec_usart_wait(
                        spec_deque_frames(old(self).real_assistant.conn.mock.data_in),
                        Seq::empty(),
                        data@,
                        UsartMode::Regular,
                    ),
                    Ok(buf),
                ),
                Err(e) => e matches AssistantError::UsartWait(inner) && spec_usart_wait_result(
                    spec_usart_wait(
                        spec_deque_frames(old(self).real_assistant.conn.mock.data_in),
                        Seq::empty(),
                        data@,
                        UsartMode::Regular,
                    ),
                    Err(inner),
                ),
            }),
    {
        if self.engaged {
            return Err(AssistantError::AssistantLocked);
        }
        self.real_assistant.receive_from_target_usart(data, timeout_ms)
    }

    /// Waits to receive the provided data from the target via USART in
    /// synchronous mode; see
    /// [`Assistant::receive_from_target_usart_sync`].
    pub fn receive_from_target_usart_sync(&mut self, data: &Vec<u8>, timeout_ms: u64) -> (r:
        Result<Vec<u8>, AssistantError>)
        requires
            data@.len() >= 1,
        ensures
            final(self).engaged == old(self).engaged,
            old(self).engaged ==> spec_locked_refusal(*old(self), *final(self), r),
            !old(self).engaged ==> final(self).real_assistant.pins == old(self).real_assistant.pins && final(self).real_assistant.num_pins == old(self).real_assistant.num_pins && final(self).real_assistant.conn.device == old(self).real_assistant.conn.device && final(self).real_assistant.conn.mock.data_out == old(self).real_assistant.conn.mock.data_out && (match r {
                Ok(buf) => spec_usart_wait_result(
                    spec_usart_wait(
                        spec_deque_frames(old(self).real_assistant.conn.mock.data_in),
                        Seq::empty(),
                        data@,
                        UsartMode::Sync,
                    ),
                    Ok(buf),
                ),
                Err(e) => e matches AssistantError::UsartWait(inner) && spec_usart_wait_result(
                    spec_usart_wait(
                        spec_deque_frames(old(self).real_assistant.conn.mock.data_in),
                        Seq::empty(),
                        data@,
                        UsartMode::Sync,
                    ),
                    Err(inner),
                ),
            }),
    {
        if self.engaged {
            return Err(AssistantError::AssistantLocked);
        }
        match self.real_assistant.receive_from_target_usart_sync(data, timeout_ms) {
            Ok(buf) => Ok(buf),
            Err(e) => Err(AssistantError::UsartWait(e)),
        }
    }

    /// Instructs the assistant to send this data to the target via USART.
    pub fn send_to_target_usart(&mut self, data: &Vec<u8>) -> (r: Result<(), AssistantError>)
        ensures
            final(self).engaged == old(self).engaged,
            old(self).engaged ==> spec_locked_refusal(*old(self), *final(self), r),
            !old(self).engaged ==> r is Ok && spec_sent_command(
                old(self).real_assistant,
                final(self).real_assistant,
                (HostToAssistantView::SendUsart { mode: UsartMode::Regular, data: data@ }),
            ),
    {
        if self.engaged {
            return Err(AssistantError::AssistantLocked);
        }
        self.real_assistant.send_to_target_usart(data)
    }

    /// Instructs the assistant to send this data to the target's USART via
    /// the DMA-backed transmit path.
    pub fn send_to_target_usart_dma(&mut self, data: &Vec<u8>) -> (r: Result<(), AssistantError>)
        ensures
            final(self).engaged == old(self).engaged,
            old(self).engaged ==> spec_locked_refusal(*old(self), *final(self), r),
            !old(self).engaged ==> r is Ok && spec_sent_command(
                old(self).real_assistant,
                final(self).real_assistant,
                (HostToAssistantView::SendUsart { mode: UsartMode::Dma, data: data@ }),
            ),
    {
        if self.engaged {
            return Err(AssistantError::AssistantLocked);
        }
        self.real_assistant.send_to_target_usart_dma(data)
    }

    /// Instructs the assistant to send this data to the target's
    /// synchronous USART.
    pub fn send_to_target_usart_sync(&mut self, data: &Vec<u8>) -> (r: Result<
        (),
        AssistantError,
    >)
        ensures
            final(self).engaged == old(self).engaged,
            old(self).engaged ==> spec_locked_refusal(*old(self), *final(self), r),
            !old(self).engaged ==> r is Ok && spec_sent_command(
                old(self).real_assistant,
                final(self).real_assistant,
                (HostToAssistantView::SendUsart { mode: UsartMode::Sync, data: data@ }),
            ),
    {
        if self.engaged {
            return Err(AssistantError::AssistantLocked);
        }
        self.real_assistant.send_to_target_usart_sync(data)
    }

    /// Instructs the assistant to disable CTS.
    pub fn disable_cts(&mut self) -> (r: Result<(), AssistantError>)
        requires
            old(self).wf(),
        ensures
            final(self).wf(),
            final(self).engaged == old(self).engaged,
            old(self).engaged ==> spec_locked_refusal(*old(self), *final(self), r),
            !old(self).engaged && old(self).real_assistant.pins@.contains_key(CTS_PIN_NUMBER)
                ==> r is Ok && spec_sent_command(
                old(self).real_assistant,
                final(self).real_assistant,
                spec_set_level_request(PinToken::GPIO(CTS_PIN_NUMBER), Level::High),
            ),
            !old(self).engaged && !old(self).real_assistant.pins@.contains_key(CTS_PIN_NUMBER)
                ==> (r matches Err(e) && e == AssistantError::PinOperation(
                AssistantPinOperationError::IllegalPinNumber(PinNumber(CTS_PIN_NUMBER)),
            )) && final(self).real_assistant == old(self).real_assistant && !final(self).engaged,
    {
        if self.engaged {
            return Err(AssistantError::AssistantLocked);
        }
        self.real_assistant.disable_cts()
    }

    /// Instructs the assistant to enable CTS.
    pub fn enable_cts(&mut self) -> (r: Result<(), AssistantError>)
        requires
            old(self).wf(),
        ensures
            final(self).wf(),
            final(self).engaged == old(self).engaged,
            old(self).engaged ==> spec_locked_refusal(*old(self), *final(self), r),
            !old(self).engaged && old(self).real_assistant.pins@.contains_key(CTS_PIN_NUMBER)
                ==> r is Ok && spec_sent_command(
                old(self).real_assistant,
                final(self).real_assistant,
                spec_set_level_request(PinToken::GPIO(CTS_PIN_NUMBER), Level::Low),
            ),
            !old(self).engaged && !old(self).real_assistant.pins@.contains_key(CTS_PIN_NUMBER)
                ==> (r matches Err(e) && e == AssistantError::PinOperation(
                AssistantPinOperationError::IllegalPinNumber(PinNumber(CTS_PIN_NUMBER)),
            )) && final(self).real_assistant == old(self).real_assistant && !final(self).engaged,
    {
        if self.engaged {
            return Err(AssistantError::AssistantLocked);
        }
        self.real_assistant.enable_cts()
    }

    /// Waits for the RTS signal and reports whether the target asserts it.
    pub fn wait_for_rts(&mut self) -> (r: Result<bool, AssistantError>)
        requires
            old(self).wf(),
        ensures
            final(self).wf(),
            final(self).engaged == old(self).engaged,
            old(self).engaged ==> spec_locked_refusal(*old(self), *final(self), r),
            !old(self).engaged && old(self).real_assistant.pins@.contains_key(RTS_PIN_NUMBER)
                ==> spec_level_read(
                old(self).real_assistant,
                final(self).real_assistant,
                PinToken::GPIO(RTS_PIN_NUMBER),
                r,
            ),
            !old(self).engaged && !old(self).real_assistant.pins@.contains_key(RTS_PIN_NUMBER)
                ==> (r matches Err(e) && e == AssistantError::PinOperation(
                AssistantPinOperationError::IllegalPinNumber(PinNumber(RTS_PIN_NUMBER)),
            )) && final(self).real_assistant == old(self).real_assistant && !final(self).engaged,
    {
        if self.engaged {
            return Err(AssistantError::AssistantLocked);
        }
        self.real_assistant.wait_for_rts()
    }

    /// Expects to hear nothing from the target within the wait bound.
    pub fn expect_nothing_from_target(&mut self, timeout_ms: u64) -> (r: Result<
        (),
        AssistantError,
    >)
        ensures
            final(self).engaged == old(self).engaged,
            old(self).engaged ==> spec_locked_refusal(*old(self), *final(self), r),
            !old(self).engaged ==> final(self).real_assistant.pins == old(self).real_assistant.pins && final(self).real_assistant.num_pins == old(self).real_assistant.num_pins && final(self).real_assistant.conn.device == old(self).real_assistant.conn.device && final(self).real_assistant.conn.mock.data_out == old(self).real_assistant.conn.mock.data_out && (spec_deque_frames(
                old(self).real_assistant.conn.mock.data_in,
            ).len() == 0 ==> r is Ok && final(self).real_assistant.conn.mock.data_in@ == old(self).real_assistant.conn.mock.data_in@) && (spec_deque_frames(
                old(self).real_assistant.conn.mock.data_in,
            ).len() > 0 ==> spec_deque_frames(final(self).real_assistant.conn.mock.data_in)
                == spec_deque_frames(old(self).real_assistant.conn.mock.data_in).drop_first()
                && (match crate::codec::spec_decode_assistant_message(
                spec_deque_frames(old(self).real_assistant.conn.mock.data_in)[0],
            ) {
                Some(v) => r matches Err(
                    AssistantError::ExpectNothing(
                        AssistantExpectNothingError::UnexpectedMessage(m),
                    ),
                ) && m@ == v,
                None => r matches Err(e) && e == AssistantError::ExpectNothing(
                    AssistantExpectNothingError::Receive(ConnReceiveError::MalformedMessage),
                ),
            })),
    {
        if self.engaged {
            return Err(AssistantError::AssistantLocked);
        }
        self.real_assistant.expect_nothing_from_target(timeout_ms)
    }
}

/// A dynamically reconfigurable pin whose current direction is input
///
/// Obtained only through
/// [`AssistantInterface::create_gpio_input_pin`], which moves the pin's
/// token out of the shared registry: no two handles ever drive the same
/// pin.
#[derive(Debug)]
pub struct InputPin {
    /// The board pin number this handle controls
    pub pin_number: PinNumber,
    /// The pin token moved out of the registry
    pub pin: Pin<PinToken>,
}

/// A dynamically reconfigurable pin whose current direction is output
///
/// Obtained only through
/// [`AssistantInterface::create_gpio_output_pin`], which moves the pin's
/// token out of the shared registry: no two handles ever drive the same
/// pin.
#[derive(Debug)]
pub struct OutputPin {
    /// The board pin number this handle controls
    pub pin_number: PinNumber,
    /// The pin token moved out of the registry
    pub pin: Pin<PinToken>,
}

impl InputPin {
    /// Whether this pin receives a low signal from the test target.
    pub fn is_low(&mut self, assistant: &mut AssistantInterface) -> (r: Result<
        bool,
        AssistantError,
    >)
        ensures
            *final(self) == *old(self),
            final(assistant).engaged == old(assistant).engaged,
            old(assistant).engaged ==> spec_locked_refusal(*old(assistant), *final(assistant), r),
            !old(assistant).engaged ==> spec_level_read(
                old(assistant).real_assistant,
                final(assistant).real_assistant,
                old(self).pin.pin,
                r,
            ),
    {
        if assistant.engaged {
            return Err(AssistantError::AssistantLocked);
        }
        assistant.real_assistant.pin_is_low(&mut self.pin)
    }

    /// Whether this pin receives a high signal from the test target.
    pub fn is_high(&mut self, assistant: &mut AssistantInterface) -> (r: Result<
        bool,
        AssistantError,
    >)
        ensures
            *final(self) == *old(self),
            final(assistant).engaged == old(assistant).engaged,
            old(assistant).engaged ==> spec_locked_refusal(*old(assistant), *final(assistant), r),
            !old(assistant).engaged ==> (match r {
                Ok(b) => spec_level_read(
                    old(assistant).real_assistant,
                    final(assistant).real_assistant,
                    old(self).pin.pin,
                    Ok(!b),
                ),
                Err(e) => spec_level_read(
                    old(assistant).real_assistant,
                    final(assistant).real_assistant,
                    old(self).pin.pin,
                    Err(e),
                ),
            }),
    {
        match self.is_low(assistant) {
            Ok(is_low) => Ok(!is_low),
            Err(err) => Err(err),
        }
    }
}

impl OutputPin {
    /// Sets this pin's level to low.
    pub fn set_low(&mut self, assistant: &mut AssistantInterface) -> (r: Result<
        (),
        AssistantError,
    >)
        ensures
            *final(self) == *old(self),
            final(assistant).engaged == old(assistant).engaged,
            old(assistant).engaged ==> spec_locked_refusal(*old(assistant), *final(assistant), r),
            !old(assistant).engaged ==> spec_level_set(
                old(assistant).real_assistant,
                final(assistant).real_assistant,
                old(self).pin.pin,
                Level::Low,
                r,
            ),
    {
        self.set_level(assistant, Level::Low)
    }

    /// Sets this pin's level to high.
    pub fn set_high(&mut self, assistant: &mut AssistantInterface) -> (r: Result<
        (),
        AssistantError,
    >)
        ensures
            *final(self) == *old(self),
            final(assistant).engaged == old(assistant).engaged,
            old(assistant).engaged ==> spec_locked_refusal(*old(assistant), *final(assistant), r),
            !old(assistant).engaged ==> spec_level_set(
                old(assistant).real_assistant,
                final(assistant).real_assistant,
                old(self).pin.pin,
                Level::High,
                r,
            ),
    {
        self.set_level(assistant, Level::High)
    }

    /// Claims the guard and sends the level command for this pin.
    fn set_level(&mut self, assistant: &mut AssistantInterface, level: Level) -> (r: Result<
        (),
        AssistantError,
    >)
        ensures
            *final(self) == *old(self),
            final(assistant).engaged == old(assistant).engaged,
            old(assistant).engaged ==> spec_locked_refusal(*old(assistant), *final(assistant), r),
            !old(assistant).engaged ==> spec_level_set(
                old(assistant).real_assistant,
                final(assistant).real_assistant,
                old(self).pin.pin,
                level,
                r,
            ),
    {
        if assistant.engaged {
            return Err(AssistantError::AssistantLocked);
        }
        match self.pin.set_level(level, &mut assistant.real_assistant.conn) {
            Ok(_) => Ok(()),
            Err(e) => Err(e),
        }
    }

    /// Whether this pin is currently set to low.
    pub fn is_set_low(&mut self, assistant: &mut AssistantInterface) -> (r: Result<
        bool,
        AssistantError,
    >)
        ensures
            *final(self) == *old(self),
            final(assistant).engaged == old(assistant).engaged,
            old(assistant).engaged ==> spec_locked_refusal(*old(assistant), *final(assistant), r),
            !old(assistant).engaged ==> spec_level_read(
                old(assistant).real_assistant,
                final(assistant).real_assistant,
                old(self).pin.pin,
                r,
            ),
    {
        if assistant.engaged {
            return Err(AssistantError::AssistantLocked);
        }
        assistant.real_assistant.pin_is_low(&mut self.pin)
    }

    /// Whether this pin is currently set to high.
    pub fn is_set_high(&mut self, assistant: &mut AssistantInterface) -> (r: Result<
        bool,
        AssistantError,
    >)
        ensures
            *final(self) == *old(self),
            final(assistant).engaged == old(assistant).engaged,
            old(assistant).engaged ==> spec_locked_refusal(*old(assistant), *final(assistant), r),
            !old(assistant).engaged ==> (match r {
                Ok(b) => spec_level_read(
                    old(assistant).real_assistant,
                    final(assistant).real_assistant,
                    old(self).pin.pin,
                    Ok(!b),
                ),
                Err(e) => spec_level_read(
                    old(assistant).real_assistant,
                    final(assistant).real_assistant,
                    old(self).pin.pin,
                    Err(e),
                ),
            }),
    {
        match self.is_set_low(assistant) {
            Ok(is_low) => Ok(!is_low),
            Err(err) => Err(err),
        }
    }
}

/// Holds when a level command for `token` ran against the connection: the
/// set-level request went out for a settable pin, and an unsettable token
/// was refused without touching anything.
pub open spec fn spec_level_set(
    pre: Assistant,
    post: Assistant,
    token: PinToken,
    level: Level,
    r: Result<(), AssistantError>,
) -> bool {
    if token->GPIO_0 == 5 || token->GPIO_0 == 29 || token->GPIO_0 == 19 {
        &&& r is Ok
        &&& spec_sent_command(pre, post, spec_set_level_request(token, level))
    } else {
        &&& r matches Err(e) && e == AssistantError::NotDynamic
        &&& post == pre
    }
}


/// The acquisition outcome an input-pin handle stands for: the wrapped
/// token on success, the error otherwise.
pub open spec fn spec_input_outcome(r: Result<InputPin, AssistantError>) -> Result<
    Pin<PinToken>,
    AssistantError,
> {
    match r {
        Ok(p) => Ok(p.pin),
        Err(e) => Err(e),
    }
}

/// The acquisition outcome an output-pin handle stands for: the wrapped
/// token on success, the error otherwise.
pub open spec fn spec_output_outcome(r: Result<OutputPin, AssistantError>) -> Result<
    Pin<PinToken>,
    AssistantError,
> {
    match r {
        Ok(p) => Ok(p.pin),
        Err(e) => Err(e),
    }
}

/// For every pin outside the reserved fixed set, acquisition succeeds at
/// most once: once a first acquisition of a pin has handed its token out,
/// any second acquisition of the same pin number fails with the
/// already-owned error, whatever direction it asks for.
pub proof fn lemma_acquire_at_most_once(
    i0: AssistantInterface,
    i1: AssistantInterface,
    i2: AssistantInterface,
    pin_number: PinNumber,
    d1: PinDirection,
    l1: Option<Level>,
    r1: Result<Pin<PinToken>, AssistantError>,
    d2: PinDirection,
    l2: Option<Level>,
    r2: Result<Pin<PinToken>, AssistantError>,
)
    requires
        i0.wf(),
        spec_pin_acquisition(i0, i1, pin_number, d1, l1, r1),
        r1 is Ok,
        spec_pin_acquisition(i1, i2, pin_number, d2, l2, r2),
        spec_valid_pin_choice(pin_number, d2),
    ensures
        r2 matches Err(e) && e == AssistantError::PinOperation(
            AssistantPinOperationError::AlreadyOwned(pin_number),
        ),
{
    assert(spec_valid_pin_choice(pin_number, d1));
    assert(!i0.engaged);
    assert(i0.real_assistant.pins@.contains_key(pin_number.0));
    assert(1 <= pin_number.0 <= i0.real_assistant.num_pins) by {
        assert(i0.real_assistant.pins@.contains_key(pin_number.0) && i0.real_assistant.pins@[
            pin_number.0
        ] == (Pin { pin: PinToken::GPIO(pin_number.0) }));
    }
    assert(!i1.real_assistant.pins@.contains_key(pin_number.0));
    assert(!i1.engaged);
}

/// Two callers trying to take the exclusive-access guard back to back,
/// starting from a free guard, observe exactly one success and one locked
/// error: never two successes.
pub proof fn lemma_guard_admits_one(
    i0: AssistantInterface,
    i1: AssistantInterface,
    i2: AssistantInterface,
    r1: Result<(), AssistantError>,
    r2: Result<(), AssistantError>,
)
    requires
        !i0.engaged,
        spec_guard_acquired(i0, i1, r1),
        spec_guard_acquired(i1, i2, r2),
    ensures
        r1 is Ok,
        r2 matches Err(e) && e == AssistantError::AssistantLocked,
{
}

} // verus!
