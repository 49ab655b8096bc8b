//! Frames to the peer. Each is numbered, encoded as a whole, and ends with its only line feed.

use serde_json::Value;
use vstd::prelude::*;

use crate::error::{ProtocolError, ProtocolErrorView};
use crate::json::{
    clone_value, encode_value, encoded_json, members_json, object_json, optional_text_json,
    optional_text_value, text_value, unsigned_json, unsigned_value, value_json, value_of, JsonView,
    NewValue,
};
use crate::request::{Request, PROTOCOL_VERSION};
use crate::shell::{Response, ResponseView};
use crate::text::{decimal, decimal_text};

verus! {

/// Writes frames to an output. The owner of the output writes the bytes of each frame and reports
/// how that went.
#[derive(Debug)]
pub struct ProtocolWriter<W> {
    pub output: W,
    pub wire_seq: u128,
    pub sequence_exhausted: bool,
    pub write_failed: bool,
}

/// Why no frame can be written.
#[derive(Clone, Copy, Debug, PartialEq, Eq, Structural)]
pub enum WriteError {
    /// An earlier frame may have been written in part.
    Unavailable,
    SequenceExhausted,
}

impl WriteError {
    pub fn to_text(self) -> (text: &'static str)
        ensures
            text@ == match self {
                WriteError::Unavailable =>
                "protocol output is unavailable after a prior write failure"@,
                WriteError::SequenceExhausted => "protocol wire sequence is exhausted"@,
            },
    {
        match self {
            WriteError::Unavailable => "protocol output is unavailable after a prior write failure",
            WriteError::SequenceExhausted => "protocol wire sequence is exhausted",
        }
    }
}

pub fn sequence_exhausted_error() -> (error: WriteError)
    ensures
        error == WriteError::SequenceExhausted,
{
    WriteError::SequenceExhausted
}

/// The head that all frames share.
pub open spec fn frame_head(
    kind: Seq<char>,
    wire_seq: u128,
    id: Option<Seq<char>>,
    session_id: Option<Seq<char>>,
) -> Seq<(Seq<char>, JsonView)> {
    seq![
        ("v"@, unsigned_json(PROTOCOL_VERSION as u64)),
        ("type"@, JsonView::Text(kind)),
        ("wireSeq"@, JsonView::Text(decimal(wire_seq as nat))),
        ("id"@, optional_text_json(id)),
        ("sessionId"@, optional_text_json(session_id)),
    ]
}

/// The frame of a successful response. Counters are written in decimal text, so that no peer rounds
/// them.
pub open spec fn result_frame(
    wire_seq: u128,
    id: Seq<char>,
    session_id: Option<Seq<char>>,
    result: JsonView,
) -> JsonView {
    object_json(
        frame_head("response"@, wire_seq, Some(id), session_id).push(("result"@, result)),
    )
}

/// An error as the peer sees it.
pub open spec fn error_payload(error: ProtocolErrorView) -> JsonView {
    let members = seq![
        ("code"@, JsonView::Text(error.code)),
        ("message"@, JsonView::Text(error.message)),
        ("fatal"@, JsonView::Bool(error.fatal)),
        ("stateEffect"@, JsonView::Text(error.state_effect)),
    ];
    object_json(
        match error.details {
            Some(details) => members.push(("details"@, details)),
            None => members,
        },
    )
}

/// The frame of an error: the response to a request, or an event where it answers none.
pub open spec fn error_frame(
    wire_seq: u128,
    id: Option<Seq<char>>,
    session_id: Option<Seq<char>>,
    error: ProtocolErrorView,
) -> JsonView {
    object_json(
        frame_head(
            if id is Some {
                "response"@
            } else {
                "event"@
            },
            wire_seq,
            id,
            session_id,
        ).push(
            (
                "event"@,
                if id is Some {
                    JsonView::Null
                } else {
                    JsonView::Text("protocol.fatal"@)
                },
            ),
        ).push(("error"@, error_payload(error))),
    )
}

/// The bytes of a frame.
pub open spec fn frame_bytes(frame: JsonView) -> Seq<u8> {
    encoded_json(frame).push(10)
}

/// What an optional text says.
pub open spec fn optional_str(text: Option<&str>) -> Option<Seq<char>> {
    match text {
        Some(text) => Some(text@),
        None => None,
    }
}

fn head(kind: &str, wire_seq: u128, id: Option<&str>, session_id: Option<&str>) -> (members: Vec<
    (String, Value),
>)
    ensures
        members_json(members@) == frame_head(
            kind@,
            wire_seq,
            optional_str(id),
            optional_str(session_id),
        ),
{
    let members = vec![
        ("v".to_owned(), unsigned_value(PROTOCOL_VERSION as u64)),
        ("type".to_owned(), text_value(kind)),
        ("wireSeq".to_owned(), text_value(decimal_text(wire_seq).as_str())),
        ("id".to_owned(), optional_text_value(id)),
        ("sessionId".to_owned(), optional_text_value(session_id)),
    ];
    assert(members_json(members@) =~= frame_head(
        kind@,
        wire_seq,
        optional_str(id),
        optional_str(session_id),
    ));
    members
}

fn add_member(members: &mut Vec<(String, Value)>, name: &str, value: Value)
    ensures
        members_json(final(members)@) == members_json(old(members)@).push(
            (name@, value_json(value)),
        ),
{
    members.push((name.to_owned(), value));
    assert(members_json(members@) =~= members_json(old(members)@).push((name@, value_json(value))));
}

fn error_value(error: &ProtocolError) -> (value: Value)
    ensures
        value_json(value) == error_payload(error@),
{
    let mut members = vec![
        ("code".to_owned(), text_value(error.code)),
        ("message".to_owned(), text_value(error.message.as_str())),
        ("fatal".to_owned(), value_of(NewValue::Bool(error.fatal))),
        ("stateEffect".to_owned(), text_value(error.state_effect)),
    ];
    assert(members_json(members@) =~= seq![
        ("code"@, JsonView::Text(error.code@)),
        ("message"@, JsonView::Text(error.message@)),
        ("fatal"@, JsonView::Bool(error.fatal)),
        ("stateEffect"@, JsonView::Text(error.state_effect@)),
    ]);
    if let Some(details) = &error.details {
        add_member(&mut members, "details", clone_value(details));
    }
    value_of(NewValue::Object(members))
}

fn encode_frame(members: Vec<(String, Value)>) -> (bytes: Vec<u8>)
    ensures
        bytes@ == frame_bytes(object_json(members_json(members@))),
        forall|i: int| 0 <= i < bytes@.len() - 1 ==> bytes@[i] != 10,
{
    let mut bytes = encode_value(&value_of(NewValue::Object(members)));
    bytes.push(10);
    bytes
}

impl<W> ProtocolWriter<W> {
    /// Why the next frame cannot be written.
    pub open spec fn fault(self) -> Option<WriteError> {
        if self.write_failed {
            Some(WriteError::Unavailable)
        } else if self.sequence_exhausted || self.wire_seq == u128::MAX {
            Some(WriteError::SequenceExhausted)
        } else {
            None
        }
    }

    /// The writer after the next frame was asked for.
    pub open spec fn advanced(self) -> Self {
        if self.write_failed || self.sequence_exhausted {
            self
        } else if self.wire_seq == u128::MAX {
            ProtocolWriter { sequence_exhausted: true, ..self }
        } else {
            ProtocolWriter { wire_seq: (self.wire_seq + 1) as u128, ..self }
        }
    }

    pub fn new(output: W) -> (writer: Self)
        ensures
            writer == (ProtocolWriter {
                output,
                wire_seq: 0,
                sequence_exhausted: false,
                write_failed: false,
            }),
    {
        ProtocolWriter::with_wire_sequence(output, 0)
    }

    pub fn with_wire_sequence(output: W, wire_seq: u128) -> (writer: Self)
        ensures
            writer == (ProtocolWriter {
                output,
                wire_seq,
                sequence_exhausted: false,
                write_failed: false,
            }),
    {
        ProtocolWriter { output, wire_seq, sequence_exhausted: false, write_failed: false }
    }

    /// The number of the next frame.
    pub fn next_wire_seq(&mut self) -> (r: Result<u128, WriteError>)
        ensures
            *final(self) == old(self).advanced(),
            match r {
                Ok(wire_seq) => old(self).fault() is None && wire_seq == old(self).wire_seq + 1,
                Err(error) => old(self).fault() == Some(error),
            },
    {
        if self.write_failed {
            return Err(WriteError::Unavailable);
        }
        if self.sequence_exhausted {
            return Err(sequence_exhausted_error());
        }
        match self.wire_seq.checked_add(1) {
            None => {
                self.sequence_exhausted = true;
                Err(sequence_exhausted_error())
            },
            Some(wire_seq) => {
                self.wire_seq = wire_seq;
                Ok(wire_seq)
            },
        }
    }

    /// The bytes of a successful response.
    pub fn result(&mut self, request: &Request, session_id: Option<&str>, result: &Value) -> (r:
        Result<Vec<u8>, WriteError>)
        ensures
            *final(self) == old(self).advanced(),
            match r {
                Ok(bytes) => {
                    &&& old(self).fault() is None
                    &&& bytes@ == frame_bytes(
                        result_frame(
                            (old(self).wire_seq + 1) as u128,
                            request.id@,
                            optional_str(session_id),
                            value_json(*result),
                        ),
                    )
                    &&& bytes@.last() == 10
                    &&& forall|i: int| 0 <= i < bytes@.len() - 1 ==> bytes@[i] != 10
                },
                Err(error) => old(self).fault() == Some(error),
            },
    {
        let wire_seq = self.next_wire_seq()?;
        let mut members = head("response", wire_seq, Some(request.id.as_str()), session_id);
        add_member(&mut members, "result", clone_value(result));
        Ok(encode_frame(members))
    }

    /// The bytes of an error. Without a request it is an event.
    pub fn error(
        &mut self,
        request: Option<&Request>,
        session_id: Option<&str>,
        error: &ProtocolError,
    ) -> (r: Result<Vec<u8>, WriteError>)
        ensures
            *final(self) == old(self).advanced(),
            match r {
                Ok(bytes) => {
                    &&& old(self).fault() is None
                    &&& bytes@ == frame_bytes(
                        error_frame(
                            (old(self).wire_seq + 1) as u128,
                            match request {
                                Some(request) => Some(request.id@),
                                None => None,
                            },
                            optional_str(session_id),
                            error@,
                        ),
                    )
                    &&& bytes@.last() == 10
                    &&& forall|i: int| 0 <= i < bytes@.len() - 1 ==> bytes@[i] != 10
                },
                Err(fault) => old(self).fault() == Some(fault),
            },
    {
        let wire_seq = self.next_wire_seq()?;
        let payload = error_value(error);
        let mut members = match request {
            Some(request) => head(
                "response",
                wire_seq,
                Some(request.id.as_str()),
                session_id,
            ),
            None => head("event", wire_seq, None, session_id),
        };
        let event = match request {
            Some(_) => value_of(NewValue::Null),
            None => text_value("protocol.fatal"),
        };
        add_member(&mut members, "event", event);
        add_member(&mut members, "error", payload);
        Ok(encode_frame(members))
    }

    /// The bytes of a response of the shell.
    pub fn respond(&mut self, response: &Response) -> (r: Result<Vec<u8>, WriteError>)
        requires
            response.outcome is Ok ==> response.request is Some,
        ensures
            *final(self) == old(self).advanced(),
            match r {
                Ok(bytes) => {
                    &&& old(self).fault() is None
                    &&& bytes@ == frame_bytes(
                        response_frame((old(self).wire_seq + 1) as u128, response@),
                    )
                    &&& bytes@.last() == 10
                    &&& forall|i: int| 0 <= i < bytes@.len() - 1 ==> bytes@[i] != 10
                },
                Err(fault) => old(self).fault() == Some(fault),
            },
    {
        match (&response.outcome, &response.request) {
            (Ok(value), Some(request)) => self.result(request, response.session_id, value),
            (Ok(_), None) => Err(WriteError::Unavailable),
            (Err(error), Some(request)) => self.error(Some(request), response.session_id, error),
            (Err(error), None) => self.error(None, response.session_id, error),
        }
    }

    /// Takes up whether a frame was written and flushed. After a failure, a prefix of the frame may
    /// have been written, and nothing is written any more.
    pub fn written(&mut self, succeeded: bool)
        ensures
            *final(self) == (ProtocolWriter {
                write_failed: old(self).write_failed || !succeeded,
                ..*old(self)
            }),
    {
        if !succeeded {
            self.write_failed = true;
        }
    }
}

/// The frame of a response.
pub open spec fn response_frame(wire_seq: u128, response: ResponseView) -> JsonView {
    match response.outcome {
        Ok(json) => result_frame(wire_seq, response.request->0.id@, response.session_id, json),
        Err(error) => error_frame(
            wire_seq,
            match response.request {
                Some(request) => Some(request.id@),
                None => None,
            },
            response.session_id,
            error,
        ),
    }
}

/// The numbers of the frames only grow; a failed write and exhausted numbers stay.
pub proof fn law_writer_only_moves_on<W>(writer: ProtocolWriter<W>)
    ensures
        writer.fault() is None ==> writer.advanced().wire_seq == writer.wire_seq + 1,
        writer.fault() is Some ==> writer.advanced().wire_seq == writer.wire_seq
            && writer.advanced().fault() == writer.fault(),
        writer.write_failed ==> writer.advanced() == writer,
        writer.advanced().output == writer.output,
{
}

} // verus!
