//! The bounded inbox between the reader of the input and the owner of the session.
//!
//! Ordinary requests, control requests and the end of the input have lanes of their own. Sending never
//! blocks: a request beyond a lane's capacity ends the input.

use std::collections::VecDeque;
use vstd::prelude::*;
use vstd::std_specs::vecdeque::*;

use crate::error::{fatal_error, ProtocolError};
use crate::request::{is_control_method, Request};
use crate::text::{joined, same_text};

verus! {

pub const DEFAULT_ORDINARY_LANE_CAPACITY: usize = 8;

pub const CONTROL_LANE_CAPACITY: usize = 8;

/// Whether the reader goes on after a request to close.
#[derive(Clone, Copy, Debug, PartialEq, Eq, Structural)]
pub enum ReaderCloseDisposition {
    Resume,
    Stop,
}

/// The reader's pause behind a request to close, known by the number of that request.
#[derive(Debug)]
pub struct ReaderCloseBarrier {
    pub ingress_seq: u128,
}

impl ReaderCloseBarrier {
    /// What the reader that waits behind the numbered request is told. A barrier is resolved once; a
    /// barrier that is dropped instead stops the reader.
    pub fn resolve(self, disposition: ReaderCloseDisposition) -> (r: (u128, ReaderCloseDisposition))
        ensures
            r == (self.ingress_seq, disposition),
    {
        (self.ingress_seq, disposition)
    }
}

/// What the reader tells the owner.
#[derive(Debug)]
pub enum ReaderMessage {
    Request(Request),
    /// A request to close, behind which the reader waits.
    CloseRequest { request: Request, barrier: ReaderCloseBarrier },
    Fatal(ProtocolError),
    Eof,
}

impl ReaderMessage {
    /// Whether the message ends the input.
    pub open spec fn ends_input(self) -> bool {
        self is Fatal || self is Eof
    }

    /// Whether the message overtakes ordinary requests.
    pub open spec fn overtakes(self) -> bool {
        match self {
            ReaderMessage::Request(request) => is_control_method(request.method@),
            ReaderMessage::CloseRequest { .. } => true,
            _ => false,
        }
    }

    pub fn is_terminal(&self) -> (r: bool)
        ensures
            r == self.ends_input(),
    {
        match self {
            ReaderMessage::Fatal(_) | ReaderMessage::Eof => true,
            _ => false,
        }
    }

    pub fn is_control_lane(&self) -> (r: bool)
        ensures
            r == self.overtakes(),
    {
        match self {
            ReaderMessage::Request(request) => request.is_control_lane(),
            ReaderMessage::CloseRequest { .. } => true,
            ReaderMessage::Fatal(_) | ReaderMessage::Eof => false,
        }
    }
}

/// A message with the number of its frame; messages about the input itself have none.
#[derive(Debug)]
pub struct SequencedReaderMessage {
    pub message: ReaderMessage,
    pub ingress_seq: Option<u128>,
}

impl SequencedReaderMessage {
    pub fn request(request: Request, ingress_seq: u128) -> (r: Self)
        ensures
            r == (SequencedReaderMessage {
                message: ReaderMessage::Request(request),
                ingress_seq: Some(ingress_seq),
            }),
    {
        SequencedReaderMessage {
            message: ReaderMessage::Request(request),
            ingress_seq: Some(ingress_seq),
        }
    }

    pub fn close_request(request: Request, ingress_seq: u128) -> (r: Self)
        ensures
            r == (SequencedReaderMessage {
                message: ReaderMessage::CloseRequest {
                    request,
                    barrier: (ReaderCloseBarrier { ingress_seq }),
                },
                ingress_seq: Some(ingress_seq),
            }),
    {
        SequencedReaderMessage {
            message: ReaderMessage::CloseRequest {
                request,
                barrier: ReaderCloseBarrier { ingress_seq },
            },
            ingress_seq: Some(ingress_seq),
        }
    }

    pub fn transport(message: ReaderMessage) -> (r: Self)
        ensures
            r == (SequencedReaderMessage { message, ingress_seq: None }),
    {
        SequencedReaderMessage { message, ingress_seq: None }
    }

    pub fn ingress_sequence(&self) -> (r: Option<u128>)
        ensures
            r == self.ingress_seq,
    {
        self.ingress_seq
    }
}

/// The message that a read of the input makes, where its frame has the given number.
pub fn incoming(read: Result<Option<Request>, ProtocolError>, ingress_seq: u128) -> (message:
    SequencedReaderMessage)
    ensures
        match read {
            Ok(Some(request)) => message == if request.method@ == "session.close"@ {
                SequencedReaderMessage {
                    message: ReaderMessage::CloseRequest {
                        request,
                        barrier: (ReaderCloseBarrier { ingress_seq }),
                    },
                    ingress_seq: Some(ingress_seq),
                }
            } else {
                SequencedReaderMessage {
                    message: ReaderMessage::Request(request),
                    ingress_seq: Some(ingress_seq),
                }
            },
            Ok(None) => message == (SequencedReaderMessage {
                message: ReaderMessage::Eof,
                ingress_seq: None,
            }),
            Err(error) => message == (SequencedReaderMessage {
                message: ReaderMessage::Fatal(error),
                ingress_seq: None,
            }),
        },
{
    match read {
        Ok(Some(request)) => if same_text(request.method.as_str(), "session.close") {
            SequencedReaderMessage::close_request(request, ingress_seq)
        } else {
            SequencedReaderMessage::request(request, ingress_seq)
        },
        Ok(None) => SequencedReaderMessage::transport(ReaderMessage::Eof),
        Err(error) => SequencedReaderMessage::transport(ReaderMessage::Fatal(error)),
    }
}

/// The result of cancelling a request that is still queued.
#[derive(Debug)]
pub enum OrdinaryRequestRemoval {
    Removed(SequencedReaderMessage),
    NotFound,
    /// More than one queued request has the id; all of them stay.
    Ambiguous,
}

/// What became of a message that was sent.
#[derive(Clone, Copy, Debug, PartialEq, Eq, Structural)]
pub enum SendOutcome {
    Continue,
    /// The input has ended.
    Stop,
    /// Nobody receives any more, or the input had ended before.
    Disconnected,
}

/// Why nothing was received.
#[derive(Clone, Copy, Debug, PartialEq, Eq, Structural)]
pub enum TryRecvError {
    Empty,
    Disconnected,
}

/// What the reader does after a message was sent.
#[derive(Clone, Copy, Debug, PartialEq, Eq, Structural)]
pub enum ReaderNext {
    Read,
    /// Wait for the barrier behind a request to close.
    AwaitClose,
    Stop,
}

/// Whether the owner is woken after a message was sent, and what the reader does next.
pub fn after_send(outcome: SendOutcome, is_close: bool) -> (r: (bool, ReaderNext))
    ensures
        r.0 == (outcome != SendOutcome::Disconnected),
        r.1 == if outcome != SendOutcome::Continue {
            ReaderNext::Stop
        } else if is_close {
            ReaderNext::AwaitClose
        } else {
            ReaderNext::Read
        },
{
    match outcome {
        SendOutcome::Continue => (
            true,
            if is_close {
                ReaderNext::AwaitClose
            } else {
                ReaderNext::Read
            },
        ),
        SendOutcome::Stop => (true, ReaderNext::Stop),
        SendOutcome::Disconnected => (false, ReaderNext::Stop),
    }
}

/// What the reader does after the barrier was resolved, or was dropped without being resolved.
pub fn after_close(disposition: Option<ReaderCloseDisposition>) -> (next: ReaderNext)
    ensures
        next == if disposition == Some(ReaderCloseDisposition::Resume) {
            ReaderNext::Read
        } else {
            ReaderNext::Stop
        },
{
    match disposition {
        Some(ReaderCloseDisposition::Resume) => ReaderNext::Read,
        Some(ReaderCloseDisposition::Stop) | None => ReaderNext::Stop,
    }
}

/// The inbox, with both of its ends.
#[derive(Debug)]
pub struct ReaderInbox {
    pub ordinary: VecDeque<SequencedReaderMessage>,
    pub control: VecDeque<SequencedReaderMessage>,
    pub terminal: Option<SequencedReaderMessage>,
    pub ordinary_capacity: usize,
    pub sender_alive: bool,
    pub receiver_alive: bool,
}

/// Whether a queued message is the request with the given id.
pub open spec fn has_id(queued: SequencedReaderMessage, id: Seq<char>) -> bool {
    match queued.message {
        ReaderMessage::Request(request) => request.id@ == id,
        _ => false,
    }
}

/// Whether a message reports that the named lane is full.
pub open spec fn reports_overload(message: SequencedReaderMessage, lane: Seq<char>) -> bool {
    &&& message.ingress_seq is None
    &&& message.message matches ReaderMessage::Fatal(error) && error@ == fatal_error(
        "input_backpressure"@,
        lane + " protocol input lane is saturated"@,
        "none"@,
    )
}

/// An empty inbox with room for the given number of ordinary requests.
pub fn reader_channel(ordinary_capacity: usize) -> (inbox: ReaderInbox)
    requires
        ordinary_capacity > 0,
    ensures
        inbox.wf(),
        inbox.ordinary@.len() == 0,
        inbox.control@.len() == 0,
        inbox.terminal is None,
        inbox.ordinary_capacity == ordinary_capacity,
        inbox.sender_alive && inbox.receiver_alive,
{
    ReaderInbox {
        ordinary: VecDeque::new(),
        control: VecDeque::new(),
        terminal: None,
        ordinary_capacity,
        sender_alive: true,
        receiver_alive: true,
    }
}

impl ReaderInbox {
    /// Each lane holds only its own messages and no more than its capacity.
    pub open spec fn wf(self) -> bool {
        &&& self.ordinary_capacity > 0
        &&& self.ordinary@.len() <= self.ordinary_capacity
        &&& self.control@.len() <= CONTROL_LANE_CAPACITY
        &&& forall|i: int|
            0 <= i < self.ordinary@.len() ==> {
                &&& !(#[trigger] self.ordinary@[i]).message.ends_input()
                &&& !self.ordinary@[i].message.overtakes()
            }
        &&& forall|i: int|
            0 <= i < self.control@.len() ==> (#[trigger] self.control@[i]).message.overtakes()
        &&& self.terminal is Some ==> self.terminal->0.message.ends_input()
    }

    /// Nothing but the end of the input has changed.
    pub open spec fn same_lanes(self, other: Self) -> bool {
        &&& self.ordinary@ == other.ordinary@
        &&& self.control@ == other.control@
        &&& self.ordinary_capacity == other.ordinary_capacity
        &&& self.sender_alive == other.sender_alive
        &&& self.receiver_alive == other.receiver_alive
    }

    fn enqueue_overload(&mut self, lane: &'static str) -> (outcome: SendOutcome)
        requires
            old(self).wf(),
        ensures
            final(self).wf(),
            final(self).same_lanes(*old(self)),
            old(self).terminal is Some ==> outcome == SendOutcome::Disconnected
                && final(self).terminal == old(self).terminal,
            old(self).terminal is None ==> outcome == SendOutcome::Stop
                && final(self).terminal is Some && reports_overload(
                final(self).terminal->0,
                lane@,
            ),
    {
        if self.terminal.is_some() {
            return SendOutcome::Disconnected;
        }
        let error = ProtocolError::fatal(
            "input_backpressure",
            joined(lane, " protocol input lane is saturated").as_str(),
        );
        self.terminal = Some(SequencedReaderMessage::transport(ReaderMessage::Fatal(error)));
        SendOutcome::Stop
    }

    /// Sends a message without blocking.
    pub fn enqueue(&mut self, message: SequencedReaderMessage) -> (outcome: SendOutcome)
        requires
            old(self).wf(),
        ensures
            final(self).wf(),
            final(self).ordinary_capacity == old(self).ordinary_capacity,
            final(self).sender_alive == old(self).sender_alive,
            final(self).receiver_alive == old(self).receiver_alive,
            if !old(self).receiver_alive {
                &&& outcome == SendOutcome::Disconnected
                &&& *final(self) == *old(self)
            } else if message.message.ends_input() {
                &&& final(self).same_lanes(*old(self))
                &&& if old(self).terminal is Some {
                    &&& outcome == SendOutcome::Disconnected
                    &&& final(self).terminal == old(self).terminal
                } else {
                    &&& outcome == SendOutcome::Stop
                    &&& final(self).terminal == Some(message)
                }
            } else if message.message.overtakes() {
                if old(self).control@.len() == CONTROL_LANE_CAPACITY {
                    &&& final(self).same_lanes(*old(self))
                    &&& if old(self).terminal is Some {
                        &&& outcome == SendOutcome::Disconnected
                        &&& final(self).terminal == old(self).terminal
                    } else {
                        &&& outcome == SendOutcome::Stop
                        &&& final(self).terminal is Some
                        &&& reports_overload(final(self).terminal->0, "control"@)
                    }
                } else {
                    &&& outcome == SendOutcome::Continue
                    &&& final(self).control@ == old(self).control@.push(message)
                    &&& final(self).ordinary@ == old(self).ordinary@
                    &&& final(self).terminal == old(self).terminal
                }
            } else if old(self).ordinary@.len() == old(self).ordinary_capacity {
                &&& final(self).same_lanes(*old(self))
                &&& if old(self).terminal is Some {
                    &&& outcome == SendOutcome::Disconnected
                    &&& final(self).terminal == old(self).terminal
                } else {
                    &&& outcome == SendOutcome::Stop
                    &&& final(self).terminal is Some
                    &&& reports_overload(final(self).terminal->0, "ordinary"@)
                }
            } else {
                &&& outcome == SendOutcome::Continue
                &&& final(self).ordinary@ == old(self).ordinary@.push(message)
                &&& final(self).control@ == old(self).control@
                &&& final(self).terminal == old(self).terminal
            },
    {
        if !self.receiver_alive {
            return SendOutcome::Disconnected;
        }
        if message.message.is_terminal() {
            if self.terminal.is_some() {
                return SendOutcome::Disconnected;
            }
            self.terminal = Some(message);
            return SendOutcome::Stop;
        }
        if message.message.is_control_lane() {
            if self.control.len() == CONTROL_LANE_CAPACITY {
                return self.enqueue_overload("control");
            }
            self.control.push_back(message);
        } else {
            if self.ordinary.len() == self.ordinary_capacity {
                return self.enqueue_overload("ordinary");
            }
            self.ordinary.push_back(message);
        }
        SendOutcome::Continue
    }

    /// Receives the next message: the end of the input first, then control requests, then ordinary
    /// ones, each lane in the order in which it was filled.
    pub fn try_recv_sequenced(&mut self) -> (r: Result<SequencedReaderMessage, TryRecvError>)
        requires
            old(self).wf(),
        ensures
            final(self).wf(),
            final(self).ordinary_capacity == old(self).ordinary_capacity,
            final(self).sender_alive == old(self).sender_alive,
            final(self).receiver_alive == old(self).receiver_alive,
            if old(self).terminal is Some {
                &&& r == Ok::<SequencedReaderMessage, TryRecvError>(old(self).terminal->0)
                &&& final(self).terminal is None
                &&& final(self).control@ == old(self).control@
                &&& final(self).ordinary@ == old(self).ordinary@
            } else if old(self).control@.len() > 0 {
                &&& r == Ok::<SequencedReaderMessage, TryRecvError>(old(self).control@[0])
                &&& final(self).terminal is None
                &&& final(self).control@ == old(self).control@.skip(1)
                &&& final(self).ordinary@ == old(self).ordinary@
            } else if old(self).ordinary@.len() > 0 {
                &&& r == Ok::<SequencedReaderMessage, TryRecvError>(old(self).ordinary@[0])
                &&& final(self).terminal is None
                &&& final(self).control@ == old(self).control@
                &&& final(self).ordinary@ == old(self).ordinary@.skip(1)
            } else {
                &&& r == Err::<SequencedReaderMessage, TryRecvError>(
                    if old(self).sender_alive {
                        TryRecvError::Empty
                    } else {
                        TryRecvError::Disconnected
                    },
                )
                &&& final(self).terminal is None
                &&& final(self).control@ == old(self).control@
                &&& final(self).ordinary@ == old(self).ordinary@
            },
    {
        if let Some(message) = self.terminal.take() {
            return Ok(message);
        }
        if let Some(message) = self.control.pop_front() {
            assert(self.control@ =~= old(self).control@.skip(1));
            return Ok(message);
        }
        if let Some(message) = self.ordinary.pop_front() {
            assert(self.ordinary@ =~= old(self).ordinary@.skip(1));
            return Ok(message);
        }
        if self.sender_alive {
            Err(TryRecvError::Empty)
        } else {
            Err(TryRecvError::Disconnected)
        }
    }

    /// Receives the next message without its number.
    pub fn try_recv(&mut self) -> (r: Result<ReaderMessage, TryRecvError>)
        requires
            old(self).wf(),
        ensures
            final(self).wf(),
            final(self).ordinary_capacity == old(self).ordinary_capacity,
            final(self).sender_alive == old(self).sender_alive,
            final(self).receiver_alive == old(self).receiver_alive,
            final(self).terminal is None,
            if old(self).terminal is Some {
                &&& r == Ok::<ReaderMessage, TryRecvError>(old(self).terminal->0.message)
                &&& final(self).control@ == old(self).control@
                &&& final(self).ordinary@ == old(self).ordinary@
            } else if old(self).control@.len() > 0 {
                &&& r == Ok::<ReaderMessage, TryRecvError>(old(self).control@[0].message)
                &&& final(self).control@ == old(self).control@.skip(1)
                &&& final(self).ordinary@ == old(self).ordinary@
            } else if old(self).ordinary@.len() > 0 {
                &&& r == Ok::<ReaderMessage, TryRecvError>(old(self).ordinary@[0].message)
                &&& final(self).control@ == old(self).control@
                &&& final(self).ordinary@ == old(self).ordinary@.skip(1)
            } else {
                &&& r == Err::<ReaderMessage, TryRecvError>(
                    if old(self).sender_alive {
                        TryRecvError::Empty
                    } else {
                        TryRecvError::Disconnected
                    },
                )
                &&& final(self).control@ == old(self).control@
                &&& final(self).ordinary@ == old(self).ordinary@
            },
    {
        match self.try_recv_sequenced() {
            Ok(sequenced) => Ok(sequenced.message),
            Err(error) => Err(error),
        }
    }

    fn position_of(&self, request_id: &str, from: usize) -> (position: usize)
        requires
            from <= self.ordinary@.len(),
        ensures
            from <= position <= self.ordinary@.len(),
            forall|i: int| from <= i < position ==> !has_id(#[trigger] self.ordinary@[i], request_id@),
            position < self.ordinary@.len() ==> has_id(
                self.ordinary@[position as int],
                request_id@,
            ),
    {
        let mut i = from;
        while i < self.ordinary.len()
            invariant
                from <= i <= self.ordinary@.len(),
                forall|j: int| from <= j < i ==> !has_id(#[trigger] self.ordinary@[j], request_id@),
            decreases self.ordinary@.len() - i,
        {
            let found = match &self.ordinary[i].message {
                ReaderMessage::Request(request) => same_text(request.id.as_str(), request_id),
                _ => false,
            };
            if found {
                return i;
            }
            i = i + 1;
        }
        i
    }

    /// Removes the queued ordinary request with the given id. The others keep their order and their
    /// numbers; where more than one has the id, nothing is removed.
    pub fn remove_ordinary_request(&mut self, request_id: &str) -> (removal: OrdinaryRequestRemoval)
        requires
            old(self).wf(),
        ensures
            final(self).wf(),
            final(self).ordinary_capacity == old(self).ordinary_capacity,
            final(self).sender_alive == old(self).sender_alive,
            final(self).receiver_alive == old(self).receiver_alive,
            final(self).terminal == old(self).terminal,
            final(self).control@ == old(self).control@,
            match removal {
                OrdinaryRequestRemoval::Removed(message) => exists|p: int|
                    {
                        &&& 0 <= p < old(self).ordinary@.len()
                        &&& has_id(#[trigger] old(self).ordinary@[p], request_id@)
                        &&& forall|i: int|
                            0 <= i < old(self).ordinary@.len() && i != p ==> !has_id(
                                #[trigger] old(self).ordinary@[i],
                                request_id@,
                            )
                        &&& message == old(self).ordinary@[p]
                        &&& final(self).ordinary@ == old(self).ordinary@.remove(p)
                    },
                OrdinaryRequestRemoval::NotFound => {
                    &&& final(self).ordinary@ == old(self).ordinary@
                    &&& forall|i: int|
                        0 <= i < old(self).ordinary@.len() ==> !has_id(
                            #[trigger] old(self).ordinary@[i],
                            request_id@,
                        )
                },
                OrdinaryRequestRemoval::Ambiguous => {
                    &&& final(self).ordinary@ == old(self).ordinary@
                    &&& exists|p: int, q: int|
                        {
                            &&& 0 <= p < q < old(self).ordinary@.len()
                            &&& has_id(#[trigger] old(self).ordinary@[p], request_id@)
                            &&& has_id(#[trigger] old(self).ordinary@[q], request_id@)
                        }
                },
            },
    {
        let position = self.position_of(request_id, 0);
        if position == self.ordinary.len() {
            return OrdinaryRequestRemoval::NotFound;
        }
        let second = self.position_of(request_id, position + 1);
        if second < self.ordinary.len() {
            assert(has_id(self.ordinary@[position as int], request_id@));
            assert(has_id(self.ordinary@[second as int], request_id@));
            return OrdinaryRequestRemoval::Ambiguous;
        }
        match self.ordinary.remove(position) {
            Some(message) => {
                assert(has_id(old(self).ordinary@[position as int], request_id@));
                assert(self.ordinary@ =~= old(self).ordinary@.remove(position as int));
                assert forall|i: int| 0 <= i < self.ordinary@.len() implies {
                    &&& !(#[trigger] self.ordinary@[i]).message.ends_input()
                    &&& !self.ordinary@[i].message.overtakes()
                } by {
                    if i < position {
                        assert(self.ordinary@[i] == old(self).ordinary@[i]);
                    } else {
                        assert(self.ordinary@[i] == old(self).ordinary@[i + 1]);
                    }
                }
                OrdinaryRequestRemoval::Removed(message)
            },
            None => OrdinaryRequestRemoval::NotFound,
        }
    }

    /// The sending end is gone.
    pub fn drop_sender(&mut self)
        requires
            old(self).wf(),
        ensures
            final(self).wf(),
            *final(self) == (ReaderInbox { sender_alive: false, ..*old(self) }),
    {
        self.sender_alive = false;
    }

    /// The receiving end is gone; what was queued is dropped.
    pub fn drop_receiver(&mut self)
        requires
            old(self).wf(),
        ensures
            final(self).wf(),
            !final(self).receiver_alive,
            final(self).ordinary@.len() == 0,
            final(self).control@.len() == 0,
            final(self).terminal is None,
            final(self).ordinary_capacity == old(self).ordinary_capacity,
            final(self).sender_alive == old(self).sender_alive,
    {
        self.receiver_alive = false;
        self.ordinary.clear();
        self.control.clear();
        self.terminal = None;
    }
}

} // verus!
