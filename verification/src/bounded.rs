//! Bounded collections shared between interrupt context and the dispatch loop
//!
//! The firmware records measurements without allocating: interrupt handlers
//! push level observations into fixed-capacity single-producer single-consumer
//! queues, and the dispatch loop drains them into fixed-capacity maps that
//! keep only the latest reading per pin. Both containers come from the
//! `heapless` crate; this module gives them the contracts the rest of the
//! crate is verified against.

use vstd::prelude::*;

use crate::pin::Level;

verus! {

/// One level observation, produced by an edge interrupt handler or by the
/// periodic sampler, and consumed by the dispatch loop.
#[derive(Clone, Copy, Debug, Eq, PartialEq, Structural)]
pub struct PinMeasurementEvent {
    /// The board pin number the observation belongs to
    pub pin_number: u8,
    /// The level that was observed
    pub level: Level,
    /// Timer ticks since the previous observed edge; `None` on the first
    /// edge after a reconfiguration and always `None` for polled pins.
    pub period_ticks: Option<u32>,
}

/// What the dispatch loop retains per pin: the latest level, and the period
/// in milliseconds since the previous retained edge, if one was measured.
pub type PinReading = (Level, Option<u32>);

#[verifier::external_type_specification]
#[verifier::external_body]
pub struct ExFnvHasher(hash32::FnvHasher);

#[verifier::external_type_specification]
#[verifier::external_body]
#[verifier::reject_recursive_types(H)]
pub struct ExBuildHasherDefault<H>(hash32::BuildHasherDefault<H>);

#[verifier::external_type_specification]
#[verifier::external_body]
#[verifier::reject_recursive_types(K)]
#[verifier::reject_recursive_types(V)]
#[verifier::reject_recursive_types(S)]
pub struct ExIndexMap<K, V, S, const N: usize>(heapless::index_map::IndexMap<K, V, S, N>);

/// The map the dispatch loop drains measurements into: pin number to latest
/// reading, at most [`READING_MAP_CAPACITY`] pins.
pub type ReadingMap = heapless::index_map::FnvIndexMap<u8, PinReading, 8>;

/// How many pins one [`ReadingMap`] can track at once.
pub const READING_MAP_CAPACITY: usize = 8;

/// What a [`ReadingMap`] holds, keyed by pin number.
pub uninterp spec fn reading_map_contents(m: ReadingMap) -> Map<u8, PinReading>;

/// The contents of a map that tracks no pin yet.
pub open spec fn empty_readings() -> Map<u8, PinReading> {
    Map::empty()
}

/// Relies on heapless::index_map::IndexMap::new: a fresh map is empty.
#[verifier::external_body]
pub fn reading_map_new() -> (r: ReadingMap)
    ensures
        reading_map_contents(r) == empty_readings(),
{
    heapless::index_map::FnvIndexMap::new()
}

/// Relies on heapless::index_map::IndexMap::insert: an existing key is
/// overwritten in place; a new key is added while the map has room and
/// otherwise handed back with the value as the error.
#[verifier::external_body]
pub fn reading_map_insert(m: &mut ReadingMap, key: u8, value: PinReading) -> (r: InsertResult)
    ensures
        reading_map_contents(*old(m)).dom().contains(key) ==> (r matches Ok(prev) && prev
            == Some(reading_map_contents(*old(m))[key])) && reading_map_contents(*final(m))
            == reading_map_contents(*old(m)).insert(key, value),
        !reading_map_contents(*old(m)).dom().contains(key) && reading_map_contents(*old(m)).len()
            < READING_MAP_CAPACITY ==> (r matches Ok(prev) && prev is None)
            && reading_map_contents(*final(m)) == reading_map_contents(*old(m)).insert(key, value),
        !reading_map_contents(*old(m)).dom().contains(key) && reading_map_contents(*old(m)).len()
            >= READING_MAP_CAPACITY ==> (r matches Err(rejected) && rejected == (key, value))
            && reading_map_contents(*final(m)) == reading_map_contents(*old(m)),
{
    m.insert(key, value)
}

/// What [`reading_map_insert`] hands back: the reading the key held before,
/// or the rejected pair when the map was full.
pub type InsertResult = Result<Option<PinReading>, (u8, PinReading)>;

/// Relies on heapless::index_map::IndexMap::get: returns the value stored
/// under the key, if any.
#[verifier::external_body]
pub fn reading_map_get(m: &ReadingMap, key: u8) -> (r: Option<PinReading>)
    ensures
        r == if reading_map_contents(*m).dom().contains(key) {
            Some(reading_map_contents(*m)[key])
        } else {
            None
        },
{
    m.get(&key).copied()
}

/// A bounded single-producer single-consumer queue of measurement events:
/// what an interrupt handler fills and the dispatch loop drains.
///
/// Wraps `heapless::spsc::Queue`, whose backing storage of
/// [`EVENT_QUEUE_CAPACITY`] + 1 slots holds at most [`EVENT_QUEUE_CAPACITY`]
/// queued elements.
#[verifier::external_body]
pub struct EventQueue {
    inner: heapless::spsc::Queue<PinMeasurementEvent, 4>,
}

/// How many events one [`EventQueue`] can hold at once.
pub const EVENT_QUEUE_CAPACITY: usize = 3;

/// What an [`EventQueue`] holds, oldest first.
pub uninterp spec fn event_queue_contents(q: EventQueue) -> Seq<PinMeasurementEvent>;

impl EventQueue {
    /// Relies on heapless::spsc::Queue::new: a fresh queue is empty.
    #[verifier::external_body]
    pub fn new() -> (r: EventQueue)
        ensures
            event_queue_contents(r) == Seq::<PinMeasurementEvent>::empty(),
    {
        EventQueue { inner: heapless::spsc::Queue::new() }
    }

    /// Relies on heapless::spsc::Queue::enqueue: appends at the back while
    /// the queue has room, and otherwise hands the item back as the error.
    #[verifier::external_body]
    pub fn enqueue(&mut self, event: PinMeasurementEvent) -> (r: Result<(), PinMeasurementEvent>)
        ensures
            event_queue_contents(*old(self)).len() < EVENT_QUEUE_CAPACITY ==> r is Ok
                && event_queue_contents(*final(self)) == event_queue_contents(*old(self)).push(
                event,
            ),
            event_queue_contents(*old(self)).len() >= EVENT_QUEUE_CAPACITY ==> (r matches Err(
                back,
            ) && back == event) && event_queue_contents(*final(self)) == event_queue_contents(
                *old(self),
            ),
    {
        self.inner.enqueue(event)
    }

    /// Relies on heapless::spsc::Queue::dequeue: removes and returns the
    /// front item, or `None` when the queue is empty.
    #[verifier::external_body]
    pub fn dequeue(&mut self) -> (r: Option<PinMeasurementEvent>)
        ensures
            event_queue_contents(*old(self)).len() == 0 ==> r is None && event_queue_contents(
                *final(self),
            ) == event_queue_contents(*old(self)),
            event_queue_contents(*old(self)).len() > 0 ==> r == Some(
                event_queue_contents(*old(self))[0],
            ) && event_queue_contents(*final(self)) == event_queue_contents(
                *old(self),
            ).drop_first(),
    {
        self.inner.dequeue()
    }

    /// Relies on heapless::spsc::Queue::is_empty: says whether anything is
    /// queued.
    #[verifier::external_body]
    pub fn is_empty(&self) -> (r: bool)
        ensures
            r == (event_queue_contents(*self).len() == 0),
    {
        self.inner.is_empty()
    }
}

} // verus!
