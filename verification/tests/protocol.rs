use std::io::{BufRead, BufReader, Cursor, Read, Write};

use serde_json::Value;
use stasis::error::{
    ProtocolError, ProtocolErrorDetailsError, MAX_PROTOCOL_ERROR_DETAILS_BYTES,
    MAX_PROTOCOL_ERROR_DETAILS_DEPTH, MAX_PROTOCOL_ERROR_DETAILS_VALUES,
};
use stasis::frame::{
    read_frame, read_request, FrameStep, ProtocolReader, ReadStep, MAX_FRAME_BYTES,
};
use stasis::inbox::{
    after_close, after_send, incoming, reader_channel, OrdinaryRequestRemoval, ReaderCloseBarrier,
    ReaderCloseDisposition, ReaderInbox, ReaderMessage, ReaderNext, SendOutcome,
    SequencedReaderMessage, TryRecvError, CONTROL_LANE_CAPACITY,
};
use stasis::members::{
    closed_prefix, find_repeat, find_repeated_name, member_sites, read_names, repeat_message,
    MemberSite,
};
use stasis::request::{decode_request, read_text, read_value, Request};
use stasis::shell::Response;
use stasis::writer::{ProtocolWriter, WriteError};

const REQUEST_PREFIX: &[u8] =
    br#"{"v":1,"type":"request","id":"one","method":"x","params":{"padding":""#;
const REQUEST_SUFFIX: &[u8] = br#""}}"#;

fn json(text: &str) -> Value {
    serde_json::from_str(text).unwrap()
}

fn parse(bytes: &[u8]) -> Result<Option<Request>, ProtocolError> {
    read_request(bytes)
}

fn request(method: &str) -> Request {
    let frame = format!(
        "{{\"v\":1,\"type\":\"request\",\"id\":\"{method}\",\"method\":\"{method}\",\"params\":{{}}}}\n"
    );
    parse(frame.as_bytes()).unwrap().unwrap()
}

fn sequenced(method: &str, ingress_seq: u128) -> SequencedReaderMessage {
    SequencedReaderMessage::request(request(method), ingress_seq)
}

fn padded_request(payload_bytes: usize, crlf: bool) -> Vec<u8> {
    assert!(payload_bytes >= REQUEST_PREFIX.len() + REQUEST_SUFFIX.len());
    let mut frame = Vec::with_capacity(payload_bytes + usize::from(crlf) + 1);
    frame.extend_from_slice(REQUEST_PREFIX);
    frame.resize(payload_bytes - REQUEST_SUFFIX.len(), b'a');
    frame.extend_from_slice(REQUEST_SUFFIX);
    if crlf {
        frame.push(b'\r');
    }
    frame.push(b'\n');
    frame
}

fn close_then_ordinary_input() -> Cursor<Vec<u8>> {
    Cursor::new(
        br#"{"v":1,"type":"request","id":"close","method":"session.close","params":{}}
{"v":1,"type":"request","id":"later","method":"dom.query","params":{}}
"#
        .to_vec(),
    )
}

/// Reads the next request as a host does: chunk by chunk.
fn next_request<R: BufRead>(
    reader: &mut ProtocolReader,
    input: &mut R,
) -> Result<Option<Request>, ProtocolError> {
    loop {
        let step = {
            let available = input.fill_buf().unwrap();
            reader.next_request(available)
        };
        match step {
            ReadStep::More { consumed } => input.consume(consumed),
            ReadStep::Request { consumed, request } => {
                input.consume(consumed);
                return Ok(Some(request));
            },
            ReadStep::End => return Ok(None),
            ReadStep::Fault { consumed, error } => {
                input.consume(consumed);
                return Err(error);
            },
        }
    }
}

/// Reads the input into the inbox until the reader stops or waits behind a request to close.
fn read_until_barrier<R: BufRead>(
    reader: &mut ProtocolReader,
    input: &mut R,
    inbox: &mut ReaderInbox,
) -> ReaderNext {
    loop {
        let read = next_request(reader, input);
        let message = incoming(read, reader.ingress_seq);
        let is_close = matches!(message.message, ReaderMessage::CloseRequest { .. });
        let outcome = inbox.enqueue(message);
        let (_, next) = after_send(outcome, is_close);
        if next != ReaderNext::Read {
            return next;
        }
    }
}

/// Writes the bytes of a frame as a host does.
fn send<W: Write>(
    writer: &mut ProtocolWriter<W>,
    frame: Result<Vec<u8>, WriteError>,
) -> Result<(), WriteError> {
    let bytes = frame?;
    let written = writer
        .output
        .write_all(&bytes)
        .and_then(|()| writer.output.flush());
    writer.written(written.is_ok());
    match written {
        Ok(()) => Ok(()),
        Err(_) => Err(WriteError::Unavailable),
    }
}

struct ChunkedReader {
    bytes: Cursor<Vec<u8>>,
    maximum_chunk: usize,
}

impl Read for ChunkedReader {
    fn read(&mut self, output: &mut [u8]) -> std::io::Result<usize> {
        let length = output.len().min(self.maximum_chunk);
        self.bytes.read(&mut output[..length])
    }
}

#[derive(Default)]
struct OneByteWriter {
    bytes: Vec<u8>,
    flushes: usize,
}

impl Write for OneByteWriter {
    fn write(&mut self, bytes: &[u8]) -> std::io::Result<usize> {
        let Some(byte) = bytes.first() else {
            return Ok(0);
        };
        self.bytes.push(*byte);
        Ok(1)
    }

    fn flush(&mut self) -> std::io::Result<()> {
        self.flushes += 1;
        Ok(())
    }
}

struct FailingWriter {
    bytes: Vec<u8>,
    remaining: usize,
}

impl Write for FailingWriter {
    fn write(&mut self, bytes: &[u8]) -> std::io::Result<usize> {
        if self.remaining == 0 {
            return Err(std::io::Error::new(
                std::io::ErrorKind::BrokenPipe,
                "closed",
            ));
        }
        let written = bytes.len().min(self.remaining);
        self.bytes.extend_from_slice(&bytes[..written]);
        self.remaining -= written;
        Ok(written)
    }

    fn flush(&mut self) -> std::io::Result<()> {
        Ok(())
    }
}

#[test]
fn accepts_one_complete_request() {
    let request = parse(
        br#"{"v":1,"type":"request","id":"one","method":"protocol.initialize","params":{}}
"#,
    )
    .unwrap()
    .unwrap();
    assert_eq!(request.id, "one");
}

#[test]
fn incrementally_decodes_chunked_utf8_and_multiple_frames() {
    let mut bytes =
        "{\"v\":1,\"type\":\"request\",\"id\":\"café\",\"method\":\"x\",\"params\":{}}\r\n"
            .as_bytes()
            .to_vec();
    bytes.extend_from_slice(
        "{\"v\":1,\"type\":\"request\",\"id\":\"雪\",\"method\":\"x\",\"params\":{}}\n".as_bytes(),
    );
    let input = ChunkedReader {
        bytes: Cursor::new(bytes),
        maximum_chunk: 1,
    };
    let mut input = BufReader::with_capacity(3, input);
    let mut reader = ProtocolReader::new();

    let first = next_request(&mut reader, &mut input).unwrap().unwrap();
    assert_eq!(reader.ingress_seq, 1);
    let second = next_request(&mut reader, &mut input).unwrap().unwrap();
    assert_eq!(reader.ingress_seq, 2);

    assert_eq!(first.id, "café");
    assert_eq!(second.id, "雪");
    assert!(next_request(&mut reader, &mut input).unwrap().is_none());
}

#[test]
fn accepts_exact_maximum_lf_and_crlf_payloads() {
    assert!(parse(&padded_request(MAX_FRAME_BYTES, false))
        .unwrap()
        .is_some());
    assert!(parse(&padded_request(MAX_FRAME_BYTES, true))
        .unwrap()
        .is_some());
}

#[test]
fn rejects_one_byte_over_the_payload_limit() {
    for crlf in [false, true] {
        let error = parse(&padded_request(MAX_FRAME_BYTES + 1, crlf)).unwrap_err();
        assert_eq!(error.code, "frame_too_large");
        assert!(error.fatal);
    }
}

#[test]
fn preserves_an_id_when_params_need_correlated_validation() {
    let request = parse(
        br#"{"v":1,"type":"request","id":"one","method":"protocol.initialize","params":null}
"#,
    )
    .unwrap()
    .unwrap();
    assert_eq!(request.id, "one");
    assert!(request.params.is_null());
}

#[test]
fn rejects_eof_mid_frame() {
    let error = parse(br#"{"v":1}"#).unwrap_err();
    assert_eq!(error.code, "incomplete_frame");
    assert!(error.fatal);
}

#[test]
fn distinguishes_clean_eof_from_an_incomplete_frame() {
    assert!(parse(b"").unwrap().is_none());
    let error = parse(b" ").unwrap_err();
    assert_eq!(error.code, "incomplete_frame");
}

#[test]
fn rejects_a_bom() {
    let mut frame = vec![0xef, 0xbb, 0xbf];
    frame.extend_from_slice(
        br#"{"v":1,"type":"request","id":"one","method":"x","params":{}}
"#,
    );
    let error = parse(&frame).unwrap_err();
    assert_eq!(error.code, "unexpected_bom");
}

#[test]
fn rejects_invalid_utf8_before_json_decoding() {
    let error = parse(&[0xff, b'\n']).unwrap_err();
    assert_eq!(error.code, "invalid_utf8");
}

#[test]
fn rejects_blank_and_non_object_frames() {
    assert_eq!(parse(b" \t\r\n").unwrap_err().code, "empty_frame");
    assert_eq!(parse(b"[]\n").unwrap_err().code, "invalid_envelope");
}

#[test]
fn rejects_duplicate_members_at_every_object_depth() {
    let top = parse(
        br#"{"v":1,"type":"request","id":"one","id":"two","method":"x","params":{}}
"#,
    )
    .unwrap_err();
    assert_eq!(top.code, "invalid_json");
    assert!(top.message.contains("duplicate JSON object member"));
    assert!(!top.message.contains("\"id\""));

    let nested = parse(
        br#"{"v":1,"type":"request","id":"one","method":"x","params":{"a":1,"a":2}}
"#,
    )
    .unwrap_err();
    assert_eq!(nested.code, "invalid_json");
    assert!(nested.message.contains("duplicate JSON object member"));
    assert!(!nested.message.contains("\"a\""));
}

#[test]
fn sensitive_duplicate_member_never_enters_fatal_diagnostics() {
    let sentinel = "SECRET-SESSION-STATE-CANARY";
    let frame = format!(
        "{{\"v\":1,\"type\":\"request\",\"id\":\"one\",\"method\":\"session.open\",\"params\":{{\"state\":{{\"{sentinel}\":1,\"{sentinel}\":2}}}}}}\n"
    );
    let error = parse(frame.as_bytes()).unwrap_err();
    assert_eq!(error.code, "invalid_json");

    let stderr = format!("stasis shell fatal error: {}", error.message);
    assert!(!stderr.contains(sentinel));

    let output = ProtocolWriter::new(()).error(None, None, &error).unwrap();
    let fatal = String::from_utf8(output).unwrap();
    assert!(!fatal.contains(sentinel));
}

#[test]
fn rejects_unknown_envelope_members_and_trailing_json() {
    let unknown = parse(
        br#"{"v":1,"type":"request","id":"one","method":"x","params":{},"extra":true}
"#,
    )
    .unwrap_err();
    assert_eq!(unknown.code, "invalid_envelope");

    let trailing = parse(
        br#"{"v":1,"type":"request","id":"one","method":"x","params":{}} {}
"#,
    )
    .unwrap_err();
    assert_eq!(trailing.code, "invalid_json");
}

#[test]
fn ingress_sequence_exhaustion_is_checked_and_sticky() {
    let frame = padded_request(REQUEST_PREFIX.len() + REQUEST_SUFFIX.len(), false);
    let mut bytes = frame.clone();
    bytes.extend_from_slice(&frame);
    let mut input = Cursor::new(bytes);
    let mut reader = ProtocolReader::with_ingress_sequence(u128::MAX - 1);

    assert!(next_request(&mut reader, &mut input).unwrap().is_some());
    assert_eq!(reader.ingress_seq, u128::MAX);
    assert_eq!(
        next_request(&mut reader, &mut input).unwrap_err().code,
        "ingress_sequence_exhausted"
    );
    assert!(reader.sequence_exhausted);
    assert_eq!(
        next_request(&mut reader, &mut input).unwrap_err().code,
        "ingress_sequence_exhausted"
    );
}

#[test]
fn accepted_close_stops_input_before_later_frames_and_allows_join() {
    let mut inbox = reader_channel(2);
    let mut reader = ProtocolReader::new();
    let mut input = close_then_ordinary_input();
    assert_eq!(
        read_until_barrier(&mut reader, &mut input, &mut inbox),
        ReaderNext::AwaitClose
    );

    let close = inbox.try_recv().unwrap();
    let ReaderMessage::CloseRequest { request, barrier } = close else {
        panic!("reader did not preserve the close barrier: {close:?}");
    };
    assert_eq!(request.method, "session.close");
    let (ingress_seq, disposition) = barrier.resolve(ReaderCloseDisposition::Stop);
    assert_eq!(ingress_seq, 1);
    assert_eq!(after_close(Some(disposition)), ReaderNext::Stop);
    inbox.drop_sender();
    assert!(matches!(
        inbox.try_recv(),
        Err(TryRecvError::Disconnected)
    ));
}

#[test]
fn rejected_close_resumes_input_without_reordering_later_frames() {
    let mut inbox = reader_channel(2);
    let mut reader = ProtocolReader::new();
    let mut input = close_then_ordinary_input();
    assert_eq!(
        read_until_barrier(&mut reader, &mut input, &mut inbox),
        ReaderNext::AwaitClose
    );

    let close = inbox.try_recv().unwrap();
    let ReaderMessage::CloseRequest { request, barrier } = close else {
        panic!("reader did not preserve the close barrier: {close:?}");
    };
    assert_eq!(request.method, "session.close");
    let (_, disposition) = barrier.resolve(ReaderCloseDisposition::Resume);
    assert_eq!(after_close(Some(disposition)), ReaderNext::Read);
    assert_eq!(
        read_until_barrier(&mut reader, &mut input, &mut inbox),
        ReaderNext::Stop
    );
    inbox.drop_sender();

    assert!(matches!(inbox.try_recv().unwrap(), ReaderMessage::Eof));
    assert!(matches!(
        inbox.try_recv().unwrap(),
        ReaderMessage::Request(request) if request.id == "later"
    ));
    assert!(matches!(
        inbox.try_recv(),
        Err(TryRecvError::Disconnected)
    ));
}

#[test]
fn control_and_close_overtake_a_full_ordinary_lane() {
    let mut inbox = reader_channel(1);
    assert_eq!(
        inbox.enqueue(sequenced("dom.query", 1)),
        SendOutcome::Continue
    );
    assert_eq!(
        inbox.enqueue(sequenced("protocol.cancel", 2)),
        SendOutcome::Continue
    );
    let control = inbox.try_recv_sequenced().unwrap();
    assert_eq!(control.ingress_sequence(), Some(2));
    assert!(matches!(
        control.message,
        ReaderMessage::Request(request) if request.method == "protocol.cancel"
    ));
    assert!(matches!(
        inbox.try_recv().unwrap(),
        ReaderMessage::Request(request) if request.method == "dom.query"
    ));

    assert_eq!(
        inbox.enqueue(sequenced("dom.query", 3)),
        SendOutcome::Continue
    );
    assert_eq!(
        inbox.enqueue(sequenced("session.close", 4)),
        SendOutcome::Continue
    );
    assert!(matches!(
        inbox.try_recv().unwrap(),
        ReaderMessage::Request(request) if request.method == "session.close"
    ));
}

#[test]
fn queued_cancellation_removes_only_the_matching_ordinary_request() {
    let mut inbox = reader_channel(4);
    assert_eq!(inbox.enqueue(sequenced("one", 1)), SendOutcome::Continue);
    assert_eq!(inbox.enqueue(sequenced("two", 2)), SendOutcome::Continue);
    assert_eq!(inbox.enqueue(sequenced("three", 3)), SendOutcome::Continue);

    let OrdinaryRequestRemoval::Removed(removed) = inbox.remove_ordinary_request("two") else {
        panic!("matching ordinary request should be removed");
    };
    assert_eq!(removed.ingress_sequence(), Some(2));
    assert!(matches!(
        removed.message,
        ReaderMessage::Request(request) if request.id == "two"
    ));
    assert!(matches!(
        inbox.remove_ordinary_request("two"),
        OrdinaryRequestRemoval::NotFound
    ));
    assert!(matches!(
        inbox.remove_ordinary_request("stale"),
        OrdinaryRequestRemoval::NotFound
    ));

    assert!(matches!(
        inbox.try_recv().unwrap(),
        ReaderMessage::Request(request) if request.id == "one"
    ));
    let remaining = inbox.try_recv_sequenced().unwrap();
    assert_eq!(remaining.ingress_sequence(), Some(3));
    assert!(matches!(
        remaining.message,
        ReaderMessage::Request(request) if request.id == "three"
    ));
}

#[test]
fn duplicate_queued_ids_are_reported_without_mutating_the_queue() {
    let mut inbox = reader_channel(3);
    assert_eq!(inbox.enqueue(sequenced("same", 1)), SendOutcome::Continue);
    assert_eq!(inbox.enqueue(sequenced("same", 2)), SendOutcome::Continue);
    assert_eq!(inbox.enqueue(sequenced("last", 3)), SendOutcome::Continue);

    assert!(matches!(
        inbox.remove_ordinary_request("same"),
        OrdinaryRequestRemoval::Ambiguous
    ));
    for expected_sequence in [1, 2, 3] {
        assert_eq!(
            inbox.try_recv_sequenced().unwrap().ingress_sequence(),
            Some(expected_sequence)
        );
    }
}

#[test]
fn queued_removal_does_not_change_control_or_terminal_priority() {
    let mut inbox = reader_channel(2);
    assert_eq!(
        inbox.enqueue(sequenced("remove-me", 1)),
        SendOutcome::Continue
    );
    assert_eq!(
        inbox.enqueue(sequenced("ordinary", 2)),
        SendOutcome::Continue
    );
    assert_eq!(
        inbox.enqueue(sequenced("protocol.cancel", 3)),
        SendOutcome::Continue
    );
    assert_eq!(
        inbox.enqueue(SequencedReaderMessage::transport(ReaderMessage::Eof)),
        SendOutcome::Stop
    );

    assert!(matches!(
        inbox.remove_ordinary_request("remove-me"),
        OrdinaryRequestRemoval::Removed(_)
    ));
    assert!(matches!(inbox.try_recv().unwrap(), ReaderMessage::Eof));
    assert!(matches!(
        inbox.try_recv().unwrap(),
        ReaderMessage::Request(request) if request.method == "protocol.cancel"
    ));
    assert!(matches!(
        inbox.try_recv().unwrap(),
        ReaderMessage::Request(request) if request.id == "ordinary"
    ));
}

#[test]
fn terminal_state_overtakes_ordinary_backpressure() {
    let mut inbox = reader_channel(1);
    assert_eq!(inbox.enqueue(sequenced("one", 1)), SendOutcome::Continue);
    assert_eq!(inbox.enqueue(sequenced("two", 2)), SendOutcome::Stop);
    match inbox.try_recv().unwrap() {
        ReaderMessage::Fatal(error) => assert_eq!(error.code, "input_backpressure"),
        message => panic!("expected terminal backpressure, got {message:?}"),
    }
    assert!(matches!(
        inbox.try_recv().unwrap(),
        ReaderMessage::Request(request) if request.method == "one"
    ));
}

#[test]
fn eof_has_a_reserved_terminal_lane() {
    let mut inbox = reader_channel(1);
    assert_eq!(inbox.enqueue(sequenced("one", 1)), SendOutcome::Continue);
    assert_eq!(
        inbox.enqueue(SequencedReaderMessage::transport(ReaderMessage::Eof)),
        SendOutcome::Stop
    );
    assert!(matches!(inbox.try_recv().unwrap(), ReaderMessage::Eof));
}

#[test]
fn exact_counters_are_strings_on_output() {
    let request = parse(
        br#"{"v":1,"type":"request","id":"one","method":"x","params":{}}
"#,
    )
    .unwrap()
    .unwrap();
    let bytes = ProtocolWriter::new(())
        .result(&request, None, &json(r#"{"ok": true}"#))
        .unwrap();
    let value: Value = serde_json::from_slice(&bytes).unwrap();
    assert_eq!(value["wireSeq"], "1");
}

#[test]
fn wire_sequence_is_checked_at_u128_exhaustion() {
    let request = request("x");
    let mut writer = ProtocolWriter::with_wire_sequence(Vec::new(), u128::MAX - 1);
    let frame = writer.result(&request, None, &json("{}"));
    send(&mut writer, frame).unwrap();
    assert_eq!(
        serde_json::from_slice::<Value>(&writer.output).unwrap()["wireSeq"],
        u128::MAX.to_string()
    );
    assert_eq!(
        writer.result(&request, None, &json("{}")).unwrap_err(),
        WriteError::SequenceExhausted
    );
    assert!(writer.sequence_exhausted);
    assert!(writer.result(&request, None, &json("{}")).is_err());
}

#[test]
fn output_is_fully_encoded_then_written_through_short_writes() {
    let request = request("x");
    let mut writer = ProtocolWriter::new(OneByteWriter::default());
    let frame = writer.result(&request, None, &json(r#"{"line": "one\ntwo"}"#));
    send(&mut writer, frame).unwrap();

    assert_eq!(writer.output.flushes, 1);
    assert_eq!(writer.output.bytes.last(), Some(&b'\n'));
    assert_eq!(
        writer
            .output
            .bytes
            .iter()
            .filter(|byte| **byte == b'\n')
            .count(),
        1
    );
    let value: Value = serde_json::from_slice(&writer.output.bytes).unwrap();
    assert_eq!(value["result"]["line"], "one\ntwo");
}

#[test]
fn a_partial_output_failure_permanently_poisons_the_writer() {
    let request = request("x");
    let mut writer = ProtocolWriter::new(FailingWriter {
        bytes: Vec::new(),
        remaining: 7,
    });

    let frame = writer.result(&request, None, &json("{}"));
    assert!(send(&mut writer, frame).is_err());
    let partial_length = writer.output.bytes.len();
    assert_eq!(partial_length, 7);
    let frame = writer.result(&request, None, &json("{}"));
    assert_eq!(send(&mut writer, frame).unwrap_err(), WriteError::Unavailable);
    assert_eq!(writer.output.bytes.len(), partial_length);
}

#[test]
fn operation_errors_preserve_state_effect() {
    let request = parse(
        br#"{"v":1,"type":"request","id":"one","method":"x","params":{}}
"#,
    )
    .unwrap()
    .unwrap();
    let error = ProtocolError::operation("wall_time_limit_exceeded", "limit", "indeterminate");
    let bytes = ProtocolWriter::new(())
        .error(Some(&request), Some("s-1"), &error)
        .unwrap();
    let value: Value = serde_json::from_slice(&bytes).unwrap();
    assert_eq!(value["error"]["code"], "wall_time_limit_exceeded");
    assert_eq!(value["error"]["stateEffect"], "indeterminate");
}

#[test]
fn legacy_error_envelope_is_byte_for_byte_unchanged_without_details() {
    let request = request("one");
    let error = ProtocolError::operation("evaluation_failed", "failure", "none");
    let bytes = ProtocolWriter::new(())
        .error(Some(&request), Some("s-1"), &error)
        .unwrap();

    assert_eq!(
        bytes,
        br#"{"v":1,"type":"response","wireSeq":"1","id":"one","sessionId":"s-1","event":null,"error":{"code":"evaluation_failed","message":"failure","fatal":false,"stateEffect":"none"}}
"#,
    );
}

#[test]
fn structured_error_details_are_validated_bounded_and_emitted() {
    let request = request("one");
    let error = ProtocolError::operation("navigation_limit", "limit", "none")
        .with_details(json(
            r#"{"actual": "21", "limit": 20, "reasons": ["replacement", null]}"#,
        ))
        .unwrap();
    let bytes = ProtocolWriter::new(())
        .error(Some(&request), Some("s-1"), &error)
        .unwrap();
    let value: Value = serde_json::from_slice(&bytes).unwrap();

    assert_eq!(value["error"]["details"]["actual"], "21");
    assert_eq!(value["error"]["details"]["limit"], 20);
    assert_eq!(value["error"]["details"]["reasons"][1], Value::Null);
    assert_eq!(
        ProtocolError::invalid_request("invalid")
            .with_details(json(r#"["not", "an", "object"]"#))
            .unwrap_err(),
        ProtocolErrorDetailsError::NotObject,
    );
    assert_eq!(
        ProtocolError::invalid_request("inexact")
            .with_details(json(r#"{ "counter": 9007199254740992 }"#))
            .unwrap_err(),
        ProtocolErrorDetailsError::IntegerNotExactlyRepresentable,
    );

    let oversized = "x".repeat(MAX_PROTOCOL_ERROR_DETAILS_BYTES);
    assert!(matches!(
        ProtocolError::invalid_request("large")
            .with_details(json(&format!("{{ \"value\": \"{oversized}\" }}"))),
        Err(ProtocolErrorDetailsError::TooLarge { .. }),
    ));
}

/// Details nested `depth` levels below the top object.
fn nested(depth: usize) -> Value {
    let mut text = String::new();
    for _ in 0..depth {
        text.push_str("{\"a\":");
    }
    text.push_str("null");
    for _ in 0..depth {
        text.push('}');
    }
    json(&text)
}

/// An object that holds `values` values in all, itself and its one array included.
fn crowded(values: usize) -> Value {
    let items = vec!["0"; values - 2].join(",");
    json(&format!("{{\"a\":[{items}]}}"))
}

#[test]
fn details_are_accepted_up_to_each_bound() {
    let error = || ProtocolError::invalid_request("bounds");
    assert!(error()
        .with_details(nested(MAX_PROTOCOL_ERROR_DETAILS_DEPTH))
        .is_ok());
    let deep = error()
        .with_details(nested(MAX_PROTOCOL_ERROR_DETAILS_DEPTH + 1))
        .unwrap_err();
    assert_eq!(
        deep,
        ProtocolErrorDetailsError::TooDeep {
            actual: 17,
            limit: 16,
        }
    );
    assert_eq!(deep.to_text(), "protocol error details depth 17 exceeds 16");

    assert!(error()
        .with_details(crowded(MAX_PROTOCOL_ERROR_DETAILS_VALUES))
        .is_ok());
    let many = error()
        .with_details(crowded(MAX_PROTOCOL_ERROR_DETAILS_VALUES + 1))
        .unwrap_err();
    assert_eq!(
        many,
        ProtocolErrorDetailsError::TooManyValues {
            actual: 1025,
            limit: 1024,
        }
    );
    assert_eq!(
        many.to_text(),
        "protocol error details contain 1025 values, exceeding 1024"
    );

    let filler = "x".repeat(MAX_PROTOCOL_ERROR_DETAILS_BYTES - r#"{"a":""}"#.len());
    assert!(error()
        .with_details(json(&format!("{{\"a\":\"{filler}\"}}")))
        .is_ok());
    let large = error()
        .with_details(json(&format!("{{\"a\":\"{filler}x\"}}")))
        .unwrap_err();
    assert_eq!(
        large.to_text(),
        "protocol error details encode to 65537 bytes, exceeding 65536"
    );

    assert!(error()
        .with_details(json(r#"{"n": 9007199254740991, "m": -9007199254740991, "x": 1e300}"#))
        .is_ok());
    assert_eq!(
        error()
            .with_details(json(r#"{"m": -9007199254740992}"#))
            .unwrap_err(),
        ProtocolErrorDetailsError::IntegerNotExactlyRepresentable
    );
    assert_eq!(
        ProtocolErrorDetailsError::NotObject.to_text(),
        "protocol error details must be a JSON object"
    );
}

#[test]
fn chunks_make_no_difference_to_a_frame() {
    let bytes = padded_request(200, true);
    for cut in 0..bytes.len() {
        let mut buffer = Vec::new();
        let mut rest = cut;
        if cut > 0 {
            match read_frame(&mut buffer, &bytes[..cut]) {
                FrameStep::More { consumed } => assert_eq!(consumed, cut),
                step => panic!("a frame ended early: {step:?}"),
            }
        } else {
            rest = 0;
        }
        match read_frame(&mut buffer, &bytes[rest..]) {
            FrameStep::Frame { consumed, frame } => {
                assert_eq!(rest + consumed, bytes.len());
                assert_eq!(frame, bytes[..200]);
            },
            step => panic!("no frame: {step:?}"),
        }
    }
}

#[test]
fn an_oversized_line_is_refused_before_it_ends() {
    let mut buffer = Vec::new();
    let chunk = vec![b' '; MAX_FRAME_BYTES + 2];
    match read_frame(&mut buffer, &chunk) {
        FrameStep::Fault { consumed: 0, error } => assert_eq!(error.code, "frame_too_large"),
        step => panic!("an oversized line was kept: {step:?}"),
    }
}

#[test]
fn envelopes_are_refused_with_their_reasons() {
    let cases: [(&str, &str); 7] = [
        (r#"{"v":2,"type":"request","id":"a","method":"m","params":{}}"#, "unsupported_protocol"),
        (r#"{"v":256,"type":"request","id":"a","method":"m","params":{}}"#, "invalid_envelope"),
        (r#"{"v":1,"type":"response","id":"a","method":"m","params":{}}"#, "invalid_envelope"),
        (r#"{"v":1,"type":"request","id":"","method":"m","params":{}}"#, "invalid_envelope"),
        (r#"{"v":1,"type":"request","id":7,"method":"m","params":{}}"#, "invalid_envelope"),
        (r#"{"v":1,"type":"request","id":"a","params":{}}"#, "invalid_envelope"),
        (r#"{"v":1"#, "invalid_json"),
    ];
    for (frame, code) in cases {
        let error = decode_request(&frame.as_bytes().to_vec()).unwrap_err();
        assert_eq!(error.code, code, "{frame}: {}", error.message);
        assert!(error.fatal);
    }
}

#[test]
fn decoded_requests_keep_every_member() {
    let frame = br#"{"v":1,"type":"request","id":"a","sessionId":"s-1","method":"m:{}","params":{"k":"x: y"}}"#;
    let request = decode_request(&frame.to_vec()).unwrap();
    assert_eq!(request.v, 1);
    assert_eq!(request.kind, "request");
    assert_eq!(request.id, "a");
    assert_eq!(request.session_id.as_deref(), Some("s-1"));
    assert_eq!(request.method, "m:{}");
    assert_eq!(request.params["k"], "x: y");
}

#[test]
fn a_full_control_lane_ends_the_input() {
    let mut inbox = reader_channel(1);
    for sequence in 0..CONTROL_LANE_CAPACITY {
        assert_eq!(
            inbox.enqueue(sequenced("protocol.cancel", sequence as u128)),
            SendOutcome::Continue
        );
    }
    assert_eq!(
        inbox.enqueue(sequenced("protocol.cancel", 99)),
        SendOutcome::Stop
    );
    assert_eq!(
        inbox.enqueue(sequenced("protocol.cancel", 100)),
        SendOutcome::Disconnected
    );
    match inbox.try_recv().unwrap() {
        ReaderMessage::Fatal(error) => {
            assert_eq!(error.message, "control protocol input lane is saturated");
        },
        message => panic!("expected terminal backpressure, got {message:?}"),
    }
}

#[test]
fn an_empty_inbox_tells_whether_more_can_come() {
    let mut inbox = reader_channel(1);
    assert_eq!(inbox.try_recv().unwrap_err(), TryRecvError::Empty);
    inbox.drop_sender();
    assert_eq!(inbox.try_recv().unwrap_err(), TryRecvError::Disconnected);

    let mut inbox = reader_channel(1);
    inbox.drop_receiver();
    assert_eq!(
        inbox.enqueue(sequenced("one", 1)),
        SendOutcome::Disconnected
    );
}

#[test]
fn reads_become_messages() {
    assert!(matches!(
        incoming(Ok(None), 3).message,
        ReaderMessage::Eof
    ));
    let failed = incoming(Err(ProtocolReader::new().input_failed("broken")), 3);
    assert_eq!(failed.ingress_sequence(), None);
    assert!(matches!(
        failed.message,
        ReaderMessage::Fatal(error) if error.code == "input_error" && error.message == "broken"
    ));
    let close = incoming(Ok(Some(request("session.close"))), 3);
    assert_eq!(close.ingress_sequence(), Some(3));
    assert!(matches!(
        close.message,
        ReaderMessage::CloseRequest { barrier: ReaderCloseBarrier { ingress_seq: 3 }, .. }
    ));
    assert_eq!(after_send(SendOutcome::Disconnected, true), (false, ReaderNext::Stop));
    assert_eq!(after_close(None), ReaderNext::Stop);
}

#[test]
fn responses_of_the_shell_are_framed() {
    let mut writer = ProtocolWriter::new(());
    let answered = writer
        .respond(&Response {
            request: Some(request("one")),
            session_id: Some("s-1"),
            outcome: Ok(json(r#"{"ok":true}"#)),
        })
        .unwrap();
    assert_eq!(
        answered,
        br#"{"v":1,"type":"response","wireSeq":"1","id":"one","sessionId":"s-1","result":{"ok":true}}
"#
    );
    let event = writer
        .respond(&Response {
            request: None,
            session_id: None,
            outcome: Err(ProtocolError::fatal("input_error", "broken")),
        })
        .unwrap();
    assert_eq!(
        event,
        br#"{"v":1,"type":"event","wireSeq":"2","id":null,"sessionId":null,"event":"protocol.fatal","error":{"code":"input_error","message":"broken","fatal":true,"stateEffect":"none"}}
"#
    );
    assert_eq!(
        WriteError::SequenceExhausted.to_text(),
        "protocol wire sequence is exhausted"
    );
}

fn refusal(text: &str) -> (&'static str, String) {
    let error = decode_request(&text.as_bytes().to_vec()).unwrap_err();
    assert!(error.fatal);
    (error.code, error.message)
}

fn repeat_at(line: usize, column: usize) -> (&'static str, String) {
    (
        "invalid_json",
        format!("duplicate JSON object member at line {line} column {column}"),
    )
}

#[test]
fn a_repeated_name_is_refused_with_its_place() {
    assert_eq!(refusal(r#"{"a":1,"a":2}"#), repeat_at(1, 10));
    assert_eq!(refusal(r#"{"a":1,"a"}"#), repeat_at(1, 11));
    assert_eq!(refusal("{\"a\":1,\"a\" \t}"), repeat_at(1, 13));
    assert_eq!(refusal("{\"a\":1,\"a\" x"), repeat_at(1, 11));
    assert_eq!(refusal("{\"a\":1,\n\"a\":2}"), repeat_at(2, 3));
    assert_eq!(refusal("{\"a\":1,\n\"a\"\n\n :2}"), repeat_at(4, 1));
    assert_eq!(refusal(r#"[{"a":1,"a":2}]"#), repeat_at(1, 11));
    assert_eq!(refusal(r#"{"é":1,"é":2}"#), repeat_at(1, 12));
}

#[test]
fn a_name_is_repeated_however_it_is_spelled() {
    assert_eq!(refusal(r#"{"\u0061":1,"a":2}"#), repeat_at(1, 15));
    assert_eq!(refusal(r#"{"/":1,"\/":2}"#), repeat_at(1, 11));
    assert_eq!(refusal(r#"{"":1,"":2}"#), repeat_at(1, 8));
}

#[test]
fn a_name_may_stand_in_several_objects() {
    let (code, message) = refusal(r#"{"a":{"a":1},"b":[{"a":1},{"a":2}]}"#);
    assert_eq!(code, "invalid_envelope");
    assert!(message.starts_with("unknown field `a`"));
    let (code, _) = refusal(r#"{"k":"{\"a\":1,\"a\":2}"}"#);
    assert_eq!(code, "invalid_envelope");
}

#[test]
fn whichever_of_a_repeated_name_and_a_fault_comes_first_is_reported() {
    assert_eq!(refusal(r#"{"a":1,"a":2,]"#), repeat_at(1, 10));
    assert_eq!(refusal(r#"{"a":1,"a""#), repeat_at(1, 10));
    assert_eq!(refusal(r#"{"a":1,"a":2} x"#), repeat_at(1, 10));
    for text in [
        r#"{"a":1,]"a":2}"#,
        r#"{"a":1} {"b":1,"b":2}"#,
        r#"{"a":1e,"a":2}"#,
        r#"{"a" "a":2}"#,
        r#"{"a":1,"\x":1,"a":2}"#,
    ] {
        let (code, message) = refusal(text);
        assert_eq!(code, "invalid_json", "{text}");
        assert!(!message.contains("duplicate"), "{text}: {message}");
        assert_eq!(
            message,
            serde_json::from_str::<Value>(text).unwrap_err().to_string()
        );
    }
}

#[test]
fn many_distinct_names_are_accepted() {
    let members: Vec<String> = (0..20_000).map(|n| format!("\"name{n}\":{n}")).collect();
    let text = format!(
        "{{\"v\":1,\"type\":\"request\",\"id\":\"one\",\"method\":\"x\",\"params\":{{{}}}}}",
        members.join(",")
    );
    let request = decode_request(&text.into_bytes()).unwrap();
    assert_eq!(request.params["name19999"], 19_999);
}

#[test]
fn the_scan_finds_the_names_of_members_and_their_objects() {
    let text = br#"{"a":["b",{"c":"d"}],"e":{}}"#.to_vec();
    let sites = member_sites(&text);
    assert_eq!(
        sites,
        vec![
            MemberSite { object: 0, start: 1, end: 4 },
            MemberSite { object: 2, start: 11, end: 14 },
            MemberSite { object: 0, start: 21, end: 24 },
        ]
    );
    assert_eq!(
        read_names(&text, &sites),
        vec![Some("a".to_owned()), Some("c".to_owned()), Some("e".to_owned())]
    );
    assert_eq!(
        closed_prefix(&text, 14),
        br#"{"a":["b",{"c":null}]}"#.to_vec()
    );
    assert_eq!(find_repeated_name(&text), None);
    assert_eq!(find_repeated_name(&br#"{"a":1,"a":2}"#.to_vec()), Some(10));
}

#[test]
fn the_first_repeat_is_found_within_one_object() {
    let site = |object: usize| MemberSite { object, start: 0, end: 2 };
    let name = |text: &str| Some(text.to_owned());
    let sites = vec![site(0), site(1), site(0), site(1), site(0)];
    assert_eq!(
        find_repeat(&sites, &vec![name("a"), name("a"), name("b"), name("b"), name("a")]),
        Some(4)
    );
    assert_eq!(
        find_repeat(&sites, &vec![name("a"), name("b"), name("a"), name("b"), name("a")]),
        Some(2)
    );
    assert_eq!(
        find_repeat(&sites, &vec![None, name("b"), None, name("c"), None]),
        None
    );
}

#[test]
fn a_text_is_read_from_what_the_parser_made_of_it() {
    let text = br#"{"a":1,"a":2}"#.to_vec();
    assert_eq!(
        repeat_message(&text, 10),
        "duplicate JSON object member at line 1 column 10"
    );
    let value = json(r#"{"v":1,"type":"request","id":"one","method":"x"}"#);
    let repeated = read_text(&text, Some(10), Ok(value.clone())).unwrap_err();
    assert_eq!(repeated.code, "invalid_json");
    assert_eq!(
        repeated.message,
        "duplicate JSON object member at line 1 column 10"
    );
    let faulty = read_text(&text, None, Err("a fault".to_owned())).unwrap_err();
    assert_eq!((faulty.code, faulty.message.as_str()), ("invalid_json", "a fault"));
    assert_eq!(read_text(&text, None, Ok(value.clone())).unwrap().id, "one");
    assert_eq!(read_value(&value).unwrap().method, "x");
    assert_eq!(read_value(&json("[]")).unwrap_err().code, "invalid_envelope");
}

#[test]
fn a_frame_that_fails_to_decode_is_numbered() {
    let mut reader = ProtocolReader::with_ingress_sequence(4);
    assert!(matches!(
        reader.next_request(b"{]\n"),
        ReadStep::Fault { consumed: 3, error } if error.code == "invalid_json"
    ));
    assert_eq!(reader.ingress_seq, 5);
    assert!(matches!(reader.next_request(b"{"), ReadStep::More { consumed: 1 }));
    assert!(matches!(
        reader.next_request(b""),
        ReadStep::Fault { consumed: 0, error } if error.code == "incomplete_frame"
    ));
    assert_eq!(reader.ingress_seq, 5);
}

#[test]
fn a_line_begins_anew_after_a_fault() {
    let mut reader = ProtocolReader::new();
    assert!(matches!(reader.next_request(b"{"), ReadStep::More { consumed: 1 }));
    assert!(matches!(
        reader.next_request(b""),
        ReadStep::Fault { consumed: 0, error } if error.code == "incomplete_frame"
    ));
    assert!(matches!(reader.next_request(b""), ReadStep::End));

    let mut buffer = vec![b' '; 10];
    let exact = vec![b' '; MAX_FRAME_BYTES - 9];
    assert!(matches!(
        read_frame(&mut buffer, &exact),
        FrameStep::Fault { consumed, error }
            if consumed == MAX_FRAME_BYTES - 9 && error.code == "frame_too_large"
    ));
    assert!(buffer.is_empty());

    let mut ended = exact.clone();
    ended.extend_from_slice(b"\nrest");
    let mut buffer = vec![b' '; 10];
    assert!(matches!(
        read_frame(&mut buffer, &ended),
        FrameStep::Fault { consumed, .. } if consumed == MAX_FRAME_BYTES - 8
    ));
    assert!(buffer.is_empty());

    assert!(matches!(reader.next_request(b"{"), ReadStep::More { .. }));
    let failed = reader.input_failed("broken");
    assert_eq!((failed.code, failed.message.as_str()), ("input_error", "broken"));
    assert!(matches!(reader.next_request(b""), ReadStep::End));
}
