//! Requests of the peer, and how one is decoded from a frame.

use serde_json::Value;
use vstd::prelude::*;
use vstd::string::*;
use vstd::utf8::*;

use crate::error::{fatal_error, ProtocolError, ProtocolErrorView};
use crate::json::{
    byte_fault, clone_value, decode_byte, decode_text, empty_object, layer_of, members_json,
    parse_value, parsed_json, text_fault, unsigned_json, value_json, JsonView, NumberView,
    ValueLayer,
};
use crate::members::{find_repeated_name, repeat_fault, repeat_message, repeated_name};
use crate::text::{decimal, decimal_text, joined, joined3, same_text, text_of, utf8_fault};

verus! {

pub const PROTOCOL_VERSION: u8 = 1;

/// One request of the peer.
#[derive(Debug)]
pub struct Request {
    pub v: u8,
    pub kind: String,
    pub id: String,
    pub session_id: Option<String>,
    pub method: String,
    pub params: Value,
}

/// What a request says.
pub struct RequestView {
    pub v: u8,
    pub kind: Seq<char>,
    pub id: Seq<char>,
    pub session_id: Option<Seq<char>>,
    pub method: Seq<char>,
    pub params: JsonView,
}

/// What an optional text says.
pub open spec fn optional_view(text: Option<String>) -> Option<Seq<char>> {
    match text {
        Some(text) => Some(text@),
        None => None,
    }
}

impl View for Request {
    type V = RequestView;

    open spec fn view(&self) -> RequestView {
        RequestView {
            v: self.v,
            kind: self.kind@,
            id: self.id@,
            session_id: optional_view(self.session_id),
            method: self.method@,
            params: value_json(self.params),
        }
    }
}

/// The methods that overtake ordinary requests.
pub open spec fn is_control_method(method: Seq<char>) -> bool {
    method == "protocol.cancel"@ || method == "session.close"@
}

impl Request {
    pub fn is_control_lane(&self) -> (r: bool)
        ensures
            r == is_control_method(self.method@),
    {
        same_text(self.method.as_str(), "protocol.cancel") || same_text(
            self.method.as_str(),
            "session.close",
        )
    }
}

/// A frame that cannot be taken.
pub open spec fn refused(code: Seq<char>, message: Seq<char>) -> Result<
    RequestView,
    ProtocolErrorView,
> {
    Err(fatal_error(code, message, "none"@))
}

/// ASCII white space.
pub open spec fn is_blank(byte: u8) -> bool {
    byte == 32 || byte == 9 || byte == 10 || byte == 12 || byte == 13
}

/// Whether a frame holds nothing but white space.
pub open spec fn is_blank_frame(frame: Seq<u8>) -> bool {
    forall|i: int| 0 <= i < frame.len() ==> is_blank(#[trigger] frame[i])
}

/// Whether a frame starts with the byte-order mark of UTF-8.
pub open spec fn has_byte_order_mark(frame: Seq<u8>) -> bool {
    frame.len() >= 3 && frame[0] == 0xef && frame[1] == 0xbb && frame[2] == 0xbf
}

/// The fields of an envelope that have been met.
pub struct EnvelopeView {
    pub v: Option<u8>,
    pub kind: Option<Seq<char>>,
    pub id: Option<Seq<char>>,
    pub session_id: Option<Seq<char>>,
    pub method: Option<Seq<char>>,
    pub params: Option<JsonView>,
}

/// A JSON string, or the error for another value.
pub open spec fn text_field(json: JsonView) -> Result<Seq<char>, Seq<char>> {
    match json {
        JsonView::Text(text) => Ok(text),
        _ => Err(text_fault(json)),
    }
}

/// A JSON string or null, or the error for another value.
pub open spec fn optional_text_field(json: JsonView) -> Result<Option<Seq<char>>, Seq<char>> {
    match json {
        JsonView::Null => Ok(None),
        JsonView::Text(text) => Ok(Some(text)),
        _ => Err(text_fault(json)),
    }
}

/// A byte, or the error for another value.
pub open spec fn byte_field(json: JsonView) -> Result<u8, Seq<char>> {
    match json {
        JsonView::Number(NumberView::Unsigned(n)) => if n <= 255 {
            Ok(n as u8)
        } else {
            Err(byte_fault(json))
        },
        _ => Err(byte_fault(json)),
    }
}

/// The fields after one more member of the envelope.
pub open spec fn field_taken(fields: EnvelopeView, name: Seq<char>, json: JsonView) -> Result<
    EnvelopeView,
    Seq<char>,
> {
    if name == "v"@ {
        match byte_field(json) {
            Ok(v) => Ok(EnvelopeView { v: Some(v), ..fields }),
            Err(error) => Err(error),
        }
    } else if name == "type"@ {
        match text_field(json) {
            Ok(text) => Ok(EnvelopeView { kind: Some(text), ..fields }),
            Err(error) => Err(error),
        }
    } else if name == "id"@ {
        match text_field(json) {
            Ok(text) => Ok(EnvelopeView { id: Some(text), ..fields }),
            Err(error) => Err(error),
        }
    } else if name == "sessionId"@ {
        match optional_text_field(json) {
            Ok(text) => Ok(EnvelopeView { session_id: text, ..fields }),
            Err(error) => Err(error),
        }
    } else if name == "method"@ {
        match text_field(json) {
            Ok(text) => Ok(EnvelopeView { method: Some(text), ..fields }),
            Err(error) => Err(error),
        }
    } else if name == "params"@ {
        Ok(EnvelopeView { params: Some(json), ..fields })
    } else {
        Err(
            "unknown field `"@ + name
                + "`, expected one of `v`, `type`, `id`, `sessionId`, `method`, `params`"@,
        )
    }
}

/// The fields after the first `n` members of the envelope.
pub open spec fn fields_taken(members: Seq<(Seq<char>, JsonView)>, n: nat) -> Result<
    EnvelopeView,
    Seq<char>,
>
    decreases n,
{
    if n == 0 {
        Ok(
            EnvelopeView {
                v: None,
                kind: None,
                id: None,
                session_id: None,
                method: None,
                params: None,
            },
        )
    } else {
        match fields_taken(members, (n - 1) as nat) {
            Ok(fields) => field_taken(fields, members[n - 1].0, members[n - 1].1),
            Err(error) => Err(error),
        }
    }
}

/// The request that the fields make; parameters that are left out are the empty object.
pub open spec fn request_of(fields: EnvelopeView) -> Result<RequestView, Seq<char>> {
    match (fields.v, fields.kind, fields.id, fields.method) {
        (None, _, _, _) => Err("missing field `v`"@),
        (_, None, _, _) => Err("missing field `type`"@),
        (_, _, None, _) => Err("missing field `id`"@),
        (_, _, _, None) => Err("missing field `method`"@),
        (Some(v), Some(kind), Some(id), Some(method)) => Ok(
            RequestView {
                v,
                kind,
                id,
                session_id: fields.session_id,
                method,
                params: match fields.params {
                    Some(json) => json,
                    None => JsonView::Object(Seq::empty()),
                },
            },
        ),
    }
}

/// The request that the members of an envelope make.
pub open spec fn envelope_request(members: Seq<(Seq<char>, JsonView)>) -> Result<
    RequestView,
    Seq<char>,
> {
    match fields_taken(members, members.len()) {
        Ok(fields) => request_of(fields),
        Err(error) => Err(error),
    }
}

/// A request whose envelope this protocol supports.
pub open spec fn supported(request: RequestView) -> Result<RequestView, ProtocolErrorView> {
    if request.v != PROTOCOL_VERSION {
        refused(
            "unsupported_protocol"@,
            "unsupported protocol version "@ + decimal(request.v as nat),
        )
    } else if request.kind != "request"@ {
        refused("invalid_envelope"@, "input frame type must be request"@)
    } else if request.id.len() == 0 {
        refused("invalid_envelope"@, "request id must not be empty"@)
    } else {
        Ok(request)
    }
}

/// The request that a JSON value makes.
pub open spec fn value_request(json: JsonView) -> Result<RequestView, ProtocolErrorView> {
    match json {
        JsonView::Object(members) => match envelope_request(members) {
            Ok(request) => supported(request),
            Err(error) => refused("invalid_envelope"@, error),
        },
        _ => refused("invalid_envelope"@, "input frame must be a JSON object"@),
    }
}

/// The request that a text makes, where `repeat` is the end of its first repeated name, if there is one
/// before any fault, and `parsed` what the parser made of the text. The name stays out of the message:
/// it may belong to a sensitive payload.
pub open spec fn text_request(
    text: Seq<u8>,
    repeat: Option<usize>,
    parsed: Result<JsonView, Seq<char>>,
) -> Result<RequestView, ProtocolErrorView> {
    match (repeat, parsed) {
        (Some(end), _) => refused("invalid_json"@, repeat_fault(text, end as int)),
        (None, Err(error)) => refused("invalid_json"@, error),
        (None, Ok(json)) => value_request(json),
    }
}

/// The request that a frame holds, or why it is refused.
pub open spec fn decoded(frame: Seq<u8>) -> Result<RequestView, ProtocolErrorView> {
    if is_blank_frame(frame) {
        refused("empty_frame"@, "empty NDJSON frame"@)
    } else if has_byte_order_mark(frame) {
        refused("unexpected_bom"@, "UTF-8 BOM is not allowed"@)
    } else if !valid_utf8(frame) {
        refused("invalid_utf8"@, utf8_fault(frame))
    } else {
        text_request(frame, repeated_name(frame), parsed_json(decode_utf8(frame)))
    }
}

fn is_blank_input(frame: &Vec<u8>) -> (r: bool)
    ensures
        r == is_blank_frame(frame@),
{
    let mut i: usize = 0;
    while i < frame.len()
        invariant
            i <= frame.len(),
            forall|j: int| 0 <= j < i ==> is_blank(#[trigger] frame@[j]),
        decreases frame.len() - i,
    {
        let byte = frame[i];
        if !(byte == 32 || byte == 9 || byte == 10 || byte == 12 || byte == 13) {
            assert(!is_blank(frame@[i as int]));
            return false;
        }
        i = i + 1;
    }
    true
}

/// The fields of an envelope while its members are read.
struct Envelope {
    v: Option<u8>,
    kind: Option<String>,
    id: Option<String>,
    session_id: Option<String>,
    method: Option<String>,
    params: Option<Value>,
}

impl View for Envelope {
    type V = EnvelopeView;

    closed spec fn view(&self) -> EnvelopeView {
        EnvelopeView {
            v: self.v,
            kind: optional_view(self.kind),
            id: optional_view(self.id),
            session_id: optional_view(self.session_id),
            method: optional_view(self.method),
            params: match self.params {
                Some(value) => Some(value_json(value)),
                None => None,
            },
        }
    }
}

impl Envelope {
    fn take_field(&mut self, name: &str, value: Value) -> (error: Option<String>)
        ensures
            match error {
                None => field_taken(old(self)@, name@, value_json(value)) == Ok::<
                    EnvelopeView,
                    Seq<char>,
                >(final(self)@),
                Some(error) => field_taken(old(self)@, name@, value_json(value)) == Err::<
                    EnvelopeView,
                    Seq<char>,
                >(error@),
            },
    {
        if same_text(name, "v") {
            match decode_byte(value) {
                Ok(v) => {
                    self.v = Some(v);
                    None
                },
                Err(error) => {
                    proof {
                        if let JsonView::Number(NumberView::Unsigned(n)) = value_json(value) {
                            if n <= 255 {
                                assert(value_json(value) == unsigned_json((n as u8) as u64));
                            }
                        }
                    }
                    Some(error)
                },
            }
        } else if same_text(name, "type") {
            match decode_text(value) {
                Ok(text) => {
                    self.kind = Some(text);
                    None
                },
                Err(error) => Some(error),
            }
        } else if same_text(name, "id") {
            match decode_text(value) {
                Ok(text) => {
                    self.id = Some(text);
                    None
                },
                Err(error) => Some(error),
            }
        } else if same_text(name, "sessionId") {
            if let ValueLayer::Null = layer_of(&value) {
                self.session_id = None;
                return None;
            }
            match decode_text(value) {
                Ok(text) => {
                    self.session_id = Some(text);
                    None
                },
                Err(error) => Some(error),
            }
        } else if same_text(name, "method") {
            match decode_text(value) {
                Ok(text) => {
                    self.method = Some(text);
                    None
                },
                Err(error) => Some(error),
            }
        } else if same_text(name, "params") {
            self.params = Some(value);
            None
        } else {
            Some(
                joined3(
                    "unknown field `",
                    name,
                    "`, expected one of `v`, `type`, `id`, `sessionId`, `method`, `params`",
                ),
            )
        }
    }

    fn into_request(self) -> (r: Result<Request, String>)
        ensures
            match r {
                Ok(request) => request_of(self@) == Ok::<RequestView, Seq<char>>(request@),
                Err(error) => request_of(self@) == Err::<RequestView, Seq<char>>(error@),
            },
    {
        let v = match self.v {
            Some(v) => v,
            None => {
                return Err("missing field `v`".to_owned());
            },
        };
        let kind = match self.kind {
            Some(kind) => kind,
            None => {
                return Err("missing field `type`".to_owned());
            },
        };
        let id = match self.id {
            Some(id) => id,
            None => {
                return Err("missing field `id`".to_owned());
            },
        };
        let method = match self.method {
            Some(method) => method,
            None => {
                return Err("missing field `method`".to_owned());
            },
        };
        let params = match self.params {
            Some(params) => params,
            None => empty_object(),
        };
        Ok(Request { v, kind, id, session_id: self.session_id, method, params })
    }
}

fn read_envelope(members: &Vec<(String, Value)>) -> (r: Result<Request, String>)
    ensures
        match r {
            Ok(request) => envelope_request(members_json(members@)) == Ok::<
                RequestView,
                Seq<char>,
            >(request@),
            Err(error) => envelope_request(members_json(members@)) == Err::<
                RequestView,
                Seq<char>,
            >(error@),
        },
{
    let ghost all = members_json(members@);
    let mut envelope = Envelope {
        v: None,
        kind: None,
        id: None,
        session_id: None,
        method: None,
        params: None,
    };
    let mut i: usize = 0;
    while i < members.len()
        invariant
            i <= members.len(),
            all == members_json(members@),
            fields_taken(all, i as nat) == Ok::<EnvelopeView, Seq<char>>(envelope@),
        decreases members.len() - i,
    {
        let name = members[i].0.as_str();
        let value = clone_value(&members[i].1);
        assert(all[i as int] == (name@, value_json(value)));
        if let Some(error) = envelope.take_field(name, value) {
            proof {
                lemma_first_fault(all, i + 1);
            }
            return Err(error);
        }
        i = i + 1;
    }
    envelope.into_request()
}

proof fn lemma_first_fault(members: Seq<(Seq<char>, JsonView)>, n: int)
    requires
        0 <= n <= members.len(),
        fields_taken(members, n as nat) is Err,
    ensures
        fields_taken(members, members.len()) == fields_taken(members, n as nat),
    decreases members.len() - n,
{
    if n < members.len() {
        lemma_first_fault(members, n + 1);
    }
}

fn validate_envelope(request: Request) -> (r: Result<Request, ProtocolError>)
    ensures
        match r {
            Ok(valid) => supported(request@) == Ok::<RequestView, ProtocolErrorView>(valid@),
            Err(error) => supported(request@) == Err::<RequestView, ProtocolErrorView>(error@),
        },
{
    if request.v != PROTOCOL_VERSION {
        return Err(
            ProtocolError::fatal(
                "unsupported_protocol",
                joined(
                    "unsupported protocol version ",
                    decimal_text(request.v as u128).as_str(),
                ).as_str(),
            ),
        );
    }
    if !same_text(request.kind.as_str(), "request") {
        return Err(ProtocolError::fatal("invalid_envelope", "input frame type must be request"));
    }
    if request.id.as_str().unicode_len() == 0 {
        return Err(ProtocolError::fatal("invalid_envelope", "request id must not be empty"));
    }
    Ok(request)
}

/// Makes a request of a JSON value.
pub fn read_value(value: &Value) -> (r: Result<Request, ProtocolError>)
    ensures
        match r {
            Ok(request) => value_request(value_json(*value)) == Ok::<
                RequestView,
                ProtocolErrorView,
            >(request@),
            Err(error) => value_request(value_json(*value)) == Err::<
                RequestView,
                ProtocolErrorView,
            >(error@),
        },
{
    match layer_of(value) {
        ValueLayer::Object(members) => match read_envelope(&members) {
            Ok(request) => validate_envelope(request),
            Err(error) => Err(ProtocolError::fatal("invalid_envelope", error.as_str())),
        },
        _ => Err(ProtocolError::fatal("invalid_envelope", "input frame must be a JSON object")),
    }
}

/// What the parser made of a text, or the text of its error.
pub open spec fn parsed_view(parsed: Result<Value, String>) -> Result<JsonView, Seq<char>> {
    match parsed {
        Ok(value) => Ok(value_json(value)),
        Err(error) => Err(error@),
    }
}

/// Makes a request of a text, given the end of its first repeated name, if there is one before any
/// fault, and what the parser made of it.
pub fn read_text(text: &Vec<u8>, repeat: Option<usize>, parsed: Result<Value, String>) -> (r: Result<
    Request,
    ProtocolError,
>)
    requires
        repeat matches Some(end) ==> end <= text.len(),
    ensures
        match r {
            Ok(request) => text_request(text@, repeat, parsed_view(parsed)) == Ok::<
                RequestView,
                ProtocolErrorView,
            >(request@),
            Err(error) => text_request(text@, repeat, parsed_view(parsed)) == Err::<
                RequestView,
                ProtocolErrorView,
            >(error@),
        },
{
    if let Some(end) = repeat {
        let message = repeat_message(text, end);
        return Err(ProtocolError::fatal("invalid_json", message.as_str()));
    }
    match parsed {
        Ok(value) => read_value(&value),
        Err(error) => Err(ProtocolError::fatal("invalid_json", error.as_str())),
    }
}

/// Decodes one frame. Every refusal is fatal: what follows on the input cannot be trusted.
pub fn decode_request(frame: &Vec<u8>) -> (r: Result<Request, ProtocolError>)
    ensures
        match r {
            Ok(request) => decoded(frame@) == Ok::<RequestView, ProtocolErrorView>(request@),
            Err(error) => decoded(frame@) == Err::<RequestView, ProtocolErrorView>(error@),
        },
{
    if is_blank_input(frame) {
        return Err(ProtocolError::fatal("empty_frame", "empty NDJSON frame"));
    }
    if frame.len() >= 3 && frame[0] == 0xef && frame[1] == 0xbb && frame[2] == 0xbf {
        return Err(ProtocolError::fatal("unexpected_bom", "UTF-8 BOM is not allowed"));
    }
    let text = match text_of(frame) {
        Ok(text) => text,
        Err(error) => {
            return Err(ProtocolError::fatal("invalid_utf8", error.as_str()));
        },
    };
    proof {
        encode_utf8_decode_utf8(text@);
        assert(text@ == decode_utf8(frame@));
    }
    let repeat = find_repeated_name(frame);
    read_text(frame, repeat, parse_value(text))
}

/// A frame of text in which an object repeats a name before any fault is refused for that, whatever
/// the parser makes of the rest; the refusal is fatal, and tells of the name only where it stands.
pub proof fn law_a_repeated_name_refuses_the_frame(frame: Seq<u8>)
    requires
        !is_blank_frame(frame),
        !has_byte_order_mark(frame),
        valid_utf8(frame),
        repeated_name(frame) is Some,
    ensures
        decoded(frame) == Err::<RequestView, ProtocolErrorView>(
            fatal_error(
                "invalid_json"@,
                repeat_fault(frame, repeated_name(frame)->0 as int),
                "none"@,
            ),
        ),
{
}

} // verus!
