//! An in-memory stand-in for the serial link to the assistant
//!
//! Tests hand a [`Mock`] to the connection instead of a serial port: what
//! the host library writes can be popped back out and inspected, and frames
//! a test pushes are what the host library reads next.

use vstd::prelude::*;

use std::collections::VecDeque;

verus! {

/// The byte frames a frame queue holds, in order.
pub open spec fn spec_deque_frames(q: VecDeque<Vec<u8>>) -> Seq<Seq<u8>> {
    q@.map_values(|f: Vec<u8>| f@)
}

/// An in-memory duplex byte-frame endpoint
///
/// `data_out` holds what the host side sent toward the assistant;
/// `data_in` holds what the assistant side sent toward the host.
pub struct Mock {
    /// Frames sent by the host library toward the assistant
    pub data_out: VecDeque<Vec<u8>>,
    /// Frames to be received by the host library from the assistant
    pub data_in: VecDeque<Vec<u8>>,
}

impl Mock {
    /// A mock link with nothing in flight in either direction.
    pub fn new() -> (r: Mock)
        ensures
            spec_deque_frames(r.data_out) == Seq::<Seq<u8>>::empty(),
            spec_deque_frames(r.data_in) == Seq::<Seq<u8>>::empty(),
    {
        let r = Mock { data_out: VecDeque::new(), data_in: VecDeque::new() };
        assert(spec_deque_frames(r.data_out) =~= Seq::<Seq<u8>>::empty());
        assert(spec_deque_frames(r.data_in) =~= Seq::<Seq<u8>>::empty());
        r
    }

    /// Whether nothing is in flight in either direction: every written
    /// frame was consumed and every staged frame was read.
    pub fn is_totally_empty(&self) -> (r: bool)
        ensures
            r == (self.data_in@.len() == 0 && self.data_out@.len() == 0),
    {
        self.data_in.len() == 0 && self.data_out.len() == 0
    }

    /// Stages a frame as if the assistant had just sent it: it becomes the
    /// next frame the host library reads.
    pub fn push_fake_ta_data(&mut self, data: &Vec<u8>)
        ensures
            spec_deque_frames(final(self).data_in) == seq![data@] + spec_deque_frames(
                old(self).data_in,
            ),
            final(self).data_out == old(self).data_out,
    {
        let mut copy: Vec<u8> = Vec::new();
        copy.extend_from_slice(data.as_slice());
        assert(copy@ =~= data@);
        self.data_in.push_front(copy);
        assert(spec_deque_frames(self.data_in) =~= seq![data@] + spec_deque_frames(
            old(self).data_in,
        ));
    }

    /// Takes back the most recent frame the host library wrote, so a test
    /// can inspect what went on the wire.
    pub fn pop_host_lib_data(&mut self) -> (r: Option<Vec<u8>>)
        ensures
            old(self).data_out@.len() == 0 ==> r is None && final(self).data_out@ == old(self).data_out@ && final(self).data_in == old(self).data_in,
            old(self).data_out@.len() > 0 ==> r == Some(old(self).data_out@.last())
                && final(self).data_out@ == old(self).data_out@.drop_last()
                && final(self).data_in == old(self).data_in,
    {
        self.data_out.pop_back()
    }

    /// Takes up to `buf_len` bytes from the staged frames, the way a
    /// byte-stream reader would: at most one staged frame is consumed per
    /// call, a frame longer than the reader's buffer is split and its
    /// remainder stays staged, and an empty link reads as no bytes at all.
    pub fn read(&mut self, buf_len: usize) -> (r: Vec<u8>)
        ensures
            final(self).data_out == old(self).data_out,
            spec_deque_frames(old(self).data_in).len() == 0 ==> r@.len() == 0 && final(self).data_in@ == old(self).data_in@,
            spec_deque_frames(old(self).data_in).len() > 0 ==> {
                let first = spec_deque_frames(old(self).data_in)[0];
                let taken = if buf_len < first.len() {
                    buf_len as int
                } else {
                    first.len() as int
                };
                &&& r@ == first.subrange(0, taken)
                &&& (taken < first.len() ==> spec_deque_frames(final(self).data_in) == seq![
                    first.subrange(taken, first.len() as int),
                ] + spec_deque_frames(old(self).data_in).drop_first())
                &&& (taken == first.len() ==> spec_deque_frames(final(self).data_in)
                    == spec_deque_frames(old(self).data_in).drop_first())
            },
    {
        let data = match self.data_in.pop_front() {
            None => {
                return Vec::new();
            },
            Some(d) => d,
        };
        let actual_size = if buf_len < data.len() {
            buf_len
        } else {
            data.len()
        };
        let mut start: Vec<u8> = Vec::new();
        let mut i: usize = 0;
        while i < actual_size
            invariant
                actual_size <= data@.len(),
                i <= actual_size,
                start@ == data@.subrange(0, i as int),
            decreases actual_size - i,
        {
            start.push(data[i]);
            assert(start@ =~= data@.subrange(0, i + 1));
            i = i + 1;
        }
        if actual_size < data.len() {
            let mut end: Vec<u8> = Vec::new();
            let mut j: usize = actual_size;
            while j < data.len()
                invariant
                    actual_size <= j <= data@.len(),
                    end@ == data@.subrange(actual_size as int, j as int),
                decreases data@.len() - j,
            {
                end.push(data[j]);
                assert(end@ =~= data@.subrange(actual_size as int, j + 1));
                j = j + 1;
            }
            self.data_in.push_front(end);
            assert(spec_deque_frames(self.data_in) =~= seq![
                data@.subrange(actual_size as int, data@.len() as int),
            ] + spec_deque_frames(old(self).data_in).drop_first());
        } else {
            assert(spec_deque_frames(self.data_in) =~= spec_deque_frames(
                old(self).data_in,
            ).drop_first());
        }
        start
    }

    /// Accepts one written frame onto the outgoing side, the way a
    /// byte-stream writer would, and reports how many bytes it took:
    /// always all of them.
    pub fn write(&mut self, buf: &Vec<u8>) -> (n: usize)
        ensures
            n == buf@.len(),
            final(self).data_in == old(self).data_in,
            spec_deque_frames(final(self).data_out) == spec_deque_frames(old(self).data_out).push(
                buf@,
            ),
    {
        let mut copy: Vec<u8> = Vec::new();
        copy.extend_from_slice(buf.as_slice());
        assert(copy@ =~= buf@);
        self.data_out.push_back(copy);
        assert(spec_deque_frames(self.data_out) =~= spec_deque_frames(old(self).data_out).push(
            buf@,
        ));
        buf.len()
    }
}

} // verus!