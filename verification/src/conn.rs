//! The host's connection to the test assistant
//!
//! A [`Conn`] carries one encoded message per call in either direction. It
//! is backed by an in-memory frame link ([`Mock`]): what the host sends is
//! logged there, and what the host receives is whatever frames arrived
//! there. A connection can additionally carry an in-process
//! [`AssistantDevice`]; every sent command is then dispatched through one
//! pass of the device's loop and the device's replies arrive on the link,
//! so the whole request/reply cycle runs through the verified firmware
//! model. A connection over real hardware performs the same frame exchange
//! over a serial port with a configurable timeout, outside this crate's
//! verified core.

use vstd::prelude::*;

use crate::codec::{
    decode_assistant_message, encode_host_message, spec_decode_assistant_message,
    spec_encode_host_message,
};
use crate::device::{
    spec_dispatched_one, spec_drained, spec_frames, spec_relayed, AssistantDevice,
};
use crate::messages::{AssistantToHost, HostToAssistant, HostToAssistantView};
use crate::mock::{spec_deque_frames, Mock};

verus! {

/// Why sending a message failed
#[derive(Clone, Copy, Debug, Eq, PartialEq, Structural)]
pub enum ConnSendError {
    /// The transport could not accept the frame
    Io,
}

/// Why receiving a message failed
#[derive(Clone, Copy, Debug, Eq, PartialEq, Structural)]
pub enum ConnReceiveError {
    /// No frame arrived within the wait bound
    Timeout,
    /// A frame arrived but does not decode as an assistant message
    MalformedMessage,
}

impl ConnReceiveError {
    /// Whether this is the timeout error, the one a caller may treat as
    /// "nothing arrived" rather than as a broken link.
    pub fn is_timeout(&self) -> (r: bool)
        ensures
            r == (*self is Timeout),
    {
        match self {
            ConnReceiveError::Timeout => true,
            ConnReceiveError::MalformedMessage => false,
        }
    }
}

/// Holds when `device` went from `d0` to `df` by one full pump: one pass of
/// its loop, after which every reply frame it produced was taken off it (in
/// order, as `replies`).
pub open spec fn spec_pumped(
    d0: AssistantDevice,
    df: AssistantDevice,
    replies: Seq<Seq<u8>>,
) -> bool {
    exists|mid1: AssistantDevice, mid2: AssistantDevice, d3: AssistantDevice|
        spec_relayed(d0, mid1) && #[trigger] spec_dispatched_one(mid1, mid2) && #[trigger] spec_drained(
            mid2,
            d3,
        ) && replies == spec_frames(d3.host_tx) && spec_frames(df.host_tx).len() == 0 && df
            == (AssistantDevice { host_tx: df.host_tx, ..d3 })
}

/// The complete effect of sending one command: the frame goes on the wire
/// log, and an in-process assistant, if one is wired in, runs one loop pass
/// on it and its replies land on the receive side.
pub open spec fn spec_conn_sent(pre: Conn, post: Conn, msg: HostToAssistantView) -> bool {
    &&& spec_deque_frames(post.mock.data_out) == spec_deque_frames(pre.mock.data_out).push(
        spec_encode_host_message(msg),
    )
    &&& match pre.device {
        None => {
            &&& post.device is None
            &&& post.mock.data_in == pre.mock.data_in
        },
        Some(d0) => {
            &&& post.device is Some
            &&& exists|d1: AssistantDevice, replies: Seq<Seq<u8>>|
                {
                    &&& spec_frames(d1.host_rx) == spec_frames(d0.host_rx).push(
                        spec_encode_host_message(msg),
                    )
                    &&& d1 == (AssistantDevice { host_rx: d1.host_rx, ..d0 })
                    &&& #[trigger] spec_pumped(d1, post.device->Some_0, replies)
                    &&& spec_deque_frames(post.mock.data_in) == spec_deque_frames(
                        pre.mock.data_in,
                    ) + replies
                }
        },
    }
}

/// The host's end of the link to the assistant
pub struct Conn {
    /// The frame link itself
    pub mock: Mock,
    /// The in-process assistant, when the connection is a loopback
    pub device: Option<AssistantDevice>,
}

impl Conn {
    /// A connection over a bare frame link: replies arrive only when the
    /// other end (a test, or a transport pump) stages them.
    pub fn from_mock(mock: Mock) -> (r: Conn)
        ensures
            r.mock == mock,
            r.device is None,
    {
        Conn { mock, device: None }
    }

    /// A loopback connection to an in-process assistant: every sent command
    /// is dispatched through the verified firmware model and its replies
    /// come back on this same connection.
    pub fn with_simulated_assistant(device: AssistantDevice) -> (r: Conn)
        ensures
            r.device == Some(device),
            spec_deque_frames(r.mock.data_out) == Seq::<Seq<u8>>::empty(),
            spec_deque_frames(r.mock.data_in) == Seq::<Seq<u8>>::empty(),
    {
        Conn { mock: Mock::new(), device: Some(device) }
    }

    /// Runs one loop pass of the in-process assistant and moves every reply
    /// frame it produced onto the receive side, in order.
    pub(crate) fn pump(&mut self)
        ensures
            match old(self).device {
                None => *final(self) == *old(self),
                Some(d0) => {
                    &&& final(self).device is Some
                    &&& exists|replies: Seq<Seq<u8>>|
                        #[trigger] spec_pumped(d0, final(self).device->Some_0, replies)
                            && spec_deque_frames(final(self).mock.data_in) == spec_deque_frames(
                            old(self).mock.data_in,
                        ) + replies
                    &&& final(self).mock.data_out == old(self).mock.data_out
                },
            },
    {
        let taken = self.device.take();
        match taken {
            None => {},
            Some(mut device) => {
                let ghost d0 = device;
                let _ = device.poll();
                let ghost d3 = device;
                let ghost all_replies = spec_frames(d3.host_tx);
                let ghost mut delivered = Seq::<Seq<u8>>::empty();
                proof {
                    assert(spec_deque_frames(self.mock.data_in) =~= spec_deque_frames(
                        old(self).mock.data_in,
                    ) + delivered);
                    assert(delivered + spec_frames(device.host_tx) =~= all_replies);
                }
                loop
                    invariant
                        spec_deque_frames(self.mock.data_in) == spec_deque_frames(
                            old(self).mock.data_in,
                        ) + delivered,
                        delivered + spec_frames(device.host_tx) == all_replies,
                        device == (AssistantDevice { host_tx: device.host_tx, ..d3 }),
                        self.mock.data_out == old(self).mock.data_out,
                        self.device is None,
                    ensures
                        spec_frames(device.host_tx).len() == 0,
                        spec_deque_frames(self.mock.data_in) == spec_deque_frames(
                            old(self).mock.data_in,
                        ) + all_replies,
                        device == (AssistantDevice { host_tx: device.host_tx, ..d3 }),
                        self.mock.data_out == old(self).mock.data_out,
                        self.device is None,
                    decreases spec_frames(device.host_tx).len(),
                {
                    let ghost delivered_pre = delivered;
                    match device.pop_host_frame() {
                        None => {
                            proof {
                                assert(delivered + spec_frames(device.host_tx) =~= delivered);
                                assert(spec_deque_frames(self.mock.data_in) =~= spec_deque_frames(
                                    old(self).mock.data_in,
                                ) + all_replies);
                            }
                            break ;
                        },
                        Some(frame) => {
                            let ghost data_in_pre = self.mock.data_in@;
                            proof {
                                delivered = delivered_pre.push(frame@);
                            }
                            self.mock.data_in.push_back(frame);
                            proof {
                                assert(self.mock.data_in@ == data_in_pre.push(frame));
                                assert(spec_deque_frames(self.mock.data_in) =~= data_in_pre.map_values(
                                    |f: Vec<u8>| f@,
                                ).push(frame@));
                                assert(spec_deque_frames(self.mock.data_in) =~= spec_deque_frames(
                                    old(self).mock.data_in,
                                ) + delivered);
                                assert(delivered + spec_frames(device.host_tx) =~= all_replies);
                            }
                        },
                    }
                }
                proof {
                    assert(spec_pumped(d0, device, all_replies));
                }
                self.device = Some(device);
                proof {
                    assert(self.device->Some_0 == device);
                    assert(spec_pumped(d0, self.device->Some_0, all_replies));
                    assert(spec_deque_frames(self.mock.data_in) == spec_deque_frames(
                        old(self).mock.data_in,
                    ) + all_replies);
                }
            },
        }
    }

    /// Sends one command to the assistant.
    ///
    /// The model link always accepts the frame; a transport over real
    /// hardware can refuse it with the send error instead.
    pub fn send(&mut self, msg: &HostToAssistant) -> (r: Result<(), ConnSendError>)
        ensures
            r is Ok,
            spec_conn_sent(*old(self), *final(self), msg@),
    {
        let frame = encode_host_message(msg);
        let mut wire_copy: Vec<u8> = Vec::new();
        wire_copy.extend_from_slice(frame.as_slice());
        assert(wire_copy@ =~= frame@);
        self.mock.data_out.push_back(wire_copy);
        assert(spec_deque_frames(self.mock.data_out) =~= spec_deque_frames(
            old(self).mock.data_out,
        ).push(spec_encode_host_message(msg@)));
        let delivered = match &mut self.device {
            None => false,
            Some(device) => {
                device.receive_host_frame(frame);
                proof {
                    assert(spec_frames(device.host_rx) =~= spec_frames(
                        old(self).device->Some_0.host_rx,
                    ).push(spec_encode_host_message(msg@)));
                }
                true
            },
        };
        if delivered {
            self.pump();
        }
        Ok(())
    }

    /// Receives one assistant message, taking the oldest pending frame.
    ///
    /// The model link either has a frame ready or never will, so it answers
    /// the timeout error at once when nothing is pending; a transport over
    /// real hardware waits up to `timeout_ms` milliseconds first. A pending
    /// frame that does not decode is the malformed-message error.
    #[allow(unused_variables)]
    pub fn receive(&mut self, timeout_ms: u64) -> (r: Result<AssistantToHost, ConnReceiveError>)
        ensures
            final(self).device == old(self).device,
            final(self).mock.data_out == old(self).mock.data_out,
            spec_deque_frames(old(self).mock.data_in).len() == 0 ==> (r matches Err(e) && e
                == ConnReceiveError::Timeout) && final(self).mock.data_in@ == old(self).mock.data_in@,
            spec_deque_frames(old(self).mock.data_in).len() > 0 ==> spec_deque_frames(
                final(self).mock.data_in,
            ) == spec_deque_frames(old(self).mock.data_in).drop_first() && (match
                spec_decode_assistant_message(spec_deque_frames(old(self).mock.data_in)[0]) {
                Some(v) => r matches Ok(m) && m@ == v,
                None => r matches Err(e) && e == ConnReceiveError::MalformedMessage,
            }),
    {
        match self.mock.data_in.pop_front() {
            None => Err(ConnReceiveError::Timeout),
            Some(frame) => {
                match decode_assistant_message(&frame) {
                    Some(m) => Ok(m),
                    None => Err(ConnReceiveError::MalformedMessage),
                }
            },
        }
    }
}

} // verus!
