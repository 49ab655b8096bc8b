//! Frames of the input: one JSON text per line, of bounded length, read in chunks of any size.

use vstd::prelude::*;

use crate::error::{fatal_error, ProtocolError, ProtocolErrorView};
use crate::request::{decode_request, decoded, Request, RequestView};

verus! {

/// The longest frame, without its line terminator.
pub const MAX_FRAME_BYTES: usize = 1_048_576;

/// The position of the first line feed, or the length where there is none.
pub open spec fn first_newline(bytes: Seq<u8>) -> int
    decreases bytes.len(),
{
    if bytes.len() == 0 {
        0
    } else if bytes[0] == 10 {
        0
    } else {
        1 + first_newline(bytes.skip(1))
    }
}

/// A line without the carriage return before its line feed.
pub open spec fn payload(line: Seq<u8>) -> Seq<u8> {
    if line.len() > 0 && line.last() == 13 {
        line.drop_last()
    } else {
        line
    }
}

/// Whether a line can no longer become a frame: only a carriage return may follow the longest
/// payload.
pub open spec fn oversized(line: Seq<u8>) -> bool {
    line.len() > MAX_FRAME_BYTES + 1 || (line.len() == MAX_FRAME_BYTES + 1 && line.last() != 13)
}

/// What one chunk of the input led to; `consumed` bytes of it are used up.
#[derive(Debug)]
pub enum FrameStep {
    More { consumed: usize },
    Frame { consumed: usize, frame: Vec<u8> },
    /// The input ended between two frames.
    End,
    /// The line so far is given up.
    Fault { consumed: usize, error: ProtocolError },
}

/// What a `FrameStep` says.
pub enum FrameStepView {
    More { consumed: nat },
    Frame { consumed: nat, frame: Seq<u8> },
    End,
    Fault { consumed: nat, error: ProtocolErrorView },
}

impl View for FrameStep {
    type V = FrameStepView;

    open spec fn view(&self) -> FrameStepView {
        match *self {
            FrameStep::More { consumed } => FrameStepView::More { consumed: consumed as nat },
            FrameStep::Frame { consumed, frame } => FrameStepView::Frame {
                consumed: consumed as nat,
                frame: frame@,
            },
            FrameStep::End => FrameStepView::End,
            FrameStep::Fault { consumed, error } => FrameStepView::Fault {
                consumed: consumed as nat,
                error: error@,
            },
        }
    }
}

/// A frame beyond the limit.
pub open spec fn too_large() -> ProtocolErrorView {
    fatal_error("frame_too_large"@, "input frame exceeds 1048576 bytes"@, "none"@)
}

/// An input that ended inside a frame.
pub open spec fn incomplete() -> ProtocolErrorView {
    fatal_error("incomplete_frame"@, "stdin ended before the NDJSON frame terminator"@, "none"@)
}

/// How much of a chunk is used up when its line turns out to be oversized: nothing where the line
/// cannot be held, and else what belongs to the line.
pub open spec fn oversized_consumed(line: Seq<u8>, chunk: Seq<u8>) -> nat {
    let n = first_newline(chunk);
    if line.len() > MAX_FRAME_BYTES + 1 {
        0
    } else if n < chunk.len() {
        (n + 1) as nat
    } else {
        chunk.len()
    }
}

/// What a chunk leads to, where `buffer` holds the line so far. An empty chunk is the end of the
/// input. After a fault the next line begins anew.
pub open spec fn frame_step(buffer: Seq<u8>, chunk: Seq<u8>) -> (Seq<u8>, FrameStepView) {
    let n = first_newline(chunk);
    let line = buffer + chunk.take(n);
    if chunk.len() == 0 {
        (
            Seq::empty(),
            if buffer.len() == 0 {
                FrameStepView::End
            } else {
                FrameStepView::Fault { consumed: 0, error: incomplete() }
            },
        )
    } else if oversized(line) {
        (
            Seq::empty(),
            FrameStepView::Fault { consumed: oversized_consumed(line, chunk), error: too_large() },
        )
    } else if n < chunk.len() {
        (
            Seq::empty(),
            FrameStepView::Frame { consumed: (n + 1) as nat, frame: payload(line) },
        )
    } else {
        (line, FrameStepView::More { consumed: chunk.len() })
    }
}

fn frame_too_large() -> (error: ProtocolError)
    ensures
        error@ == too_large(),
{
    ProtocolError::fatal("frame_too_large", "input frame exceeds 1048576 bytes")
}

proof fn lemma_first_newline(bytes: Seq<u8>)
    ensures
        0 <= first_newline(bytes) <= bytes.len(),
        forall|i: int| 0 <= i < first_newline(bytes) ==> bytes[i] != 10,
        first_newline(bytes) < bytes.len() ==> bytes[first_newline(bytes)] == 10,
    decreases bytes.len(),
{
    if bytes.len() > 0 && bytes[0] != 10 {
        lemma_first_newline(bytes.skip(1));
        assert forall|i: int| 0 <= i < first_newline(bytes) implies bytes[i] != 10 by {
            if i > 0 {
                assert(bytes.skip(1)[i - 1] == bytes[i]);
            }
        }
    }
}

proof fn lemma_newline_position(bytes: Seq<u8>, n: int)
    requires
        0 <= n <= bytes.len(),
        forall|i: int| 0 <= i < n ==> bytes[i] != 10,
        n < bytes.len() ==> bytes[n] == 10,
    ensures
        first_newline(bytes) == n,
{
    lemma_first_newline(bytes);
}

fn find_newline(bytes: &[u8]) -> (n: usize)
    ensures
        n == first_newline(bytes@),
        n <= bytes.len(),
{
    let mut n: usize = 0;
    while n < bytes.len()
        invariant
            n <= bytes.len(),
            forall|i: int| 0 <= i < n ==> bytes@[i] != 10,
        decreases bytes.len() - n,
    {
        if bytes[n] == 10 {
            proof {
                lemma_newline_position(bytes@, n as int);
            }
            return n;
        }
        n = n + 1;
    }
    proof {
        lemma_newline_position(bytes@, n as int);
    }
    n
}

/// Takes up a chunk of the input, where `buffer` holds the line so far.
pub fn read_frame(buffer: &mut Vec<u8>, available: &[u8]) -> (step: FrameStep)
    ensures
        (final(buffer)@, step@) == frame_step(old(buffer)@, available@),
{
    if available.len() == 0 {
        if buffer.len() == 0 {
            assert(buffer@ =~= Seq::empty());
            return FrameStep::End;
        }
        buffer.clear();
        return FrameStep::Fault {
            consumed: 0,
            error: ProtocolError::fatal(
                "incomplete_frame",
                "stdin ended before the NDJSON frame terminator",
            ),
        };
    }
    let n = find_newline(available);
    let ghost line = buffer@ + available@.take(n as int);
    let room: usize = if buffer.len() > MAX_FRAME_BYTES {
        0
    } else {
        MAX_FRAME_BYTES + 1 - buffer.len()
    };
    if n > room || buffer.len() > MAX_FRAME_BYTES + 1 {
        buffer.clear();
        return FrameStep::Fault { consumed: 0, error: frame_too_large() };
    }
    if buffer.len() + n == MAX_FRAME_BYTES + 1 {
        let last = if n > 0 {
            available[n - 1]
        } else {
            buffer[buffer.len() - 1]
        };
        assert(line.last() == last);
        if last != 13 {
            buffer.clear();
            let consumed: usize = if n < available.len() {
                n + 1
            } else {
                n
            };
            return FrameStep::Fault { consumed, error: frame_too_large() };
        }
    }
    assert(!oversized(line));
    let mut i: usize = 0;
    while i < n
        invariant
            i <= n <= available.len(),
            buffer@ == old(buffer)@ + available@.take(i as int),
        decreases n - i,
    {
        buffer.push(available[i]);
        i = i + 1;
        assert(buffer@ =~= old(buffer)@ + available@.take(i as int));
    }
    if n == available.len() {
        return FrameStep::More { consumed: n };
    }
    let mut frame: Vec<u8> = Vec::new();
    std::mem::swap(buffer, &mut frame);
    if frame.len() > 0 && frame[frame.len() - 1] == 13 {
        frame.pop();
    }
    assert(frame@ =~= payload(line));
    FrameStep::Frame { consumed: n + 1, frame }
}

/// A step further into the input by `n` bytes; a fault is told by its error alone.
pub open spec fn shifted(step: FrameStepView, n: nat) -> FrameStepView {
    match step {
        FrameStepView::More { consumed } => FrameStepView::More { consumed: consumed + n },
        FrameStepView::Frame { consumed, frame } => FrameStepView::Frame {
            consumed: consumed + n,
            frame,
        },
        FrameStepView::End => step,
        FrameStepView::Fault { error, .. } => FrameStepView::Fault { consumed: 0, error },
    }
}

/// How the input is cut into chunks makes no difference: where one chunk leaves a line unfinished, the
/// next one leads to what both would have led to at once, and else the first one alone decides. Only
/// how much of an oversized line has been used up by then depends on the chunks.
pub proof fn law_chunking_makes_no_difference(buffer: Seq<u8>, first: Seq<u8>, second: Seq<u8>)
    requires
        first.len() > 0,
        second.len() > 0,
    ensures
        ({
            let (rest, step) = frame_step(buffer, first);
            let (whole_rest, whole_step) = frame_step(buffer, first + second);
            if step is More {
                let (next_rest, next_step) = frame_step(rest, second);
                &&& shifted(whole_step, 0) == shifted(next_step, first.len())
                &&& whole_rest == next_rest
            } else {
                shifted(whole_step, 0) == shifted(step, 0) && whole_rest == rest
            }
        }),
{
    let n = first_newline(first);
    let both = first + second;
    lemma_first_newline(first);
    lemma_first_newline(second);
    let line = buffer + first.take(n);
    if n < first.len() {
        lemma_newline_position(both, n);
        assert(both.take(n) =~= first.take(n));
    } else {
        let m = first_newline(second);
        assert forall|i: int| 0 <= i < n + m implies both[i] != 10 by {
            if i >= n {
                assert(both[i] == second[i - n]);
            }
        }
        lemma_newline_position(both, n + m);
        assert(first.take(n) =~= first);
        assert(both.take(n + m) =~= first + second.take(m));
        assert(buffer + both.take(n + m) =~= line + second.take(m));
    }
}

/// A frame is never longer than the limit and holds no line feed, where the line so far holds none.
pub proof fn law_frames_are_bounded_lines(buffer: Seq<u8>, chunk: Seq<u8>)
    requires
        forall|i: int| 0 <= i < buffer.len() ==> buffer[i] != 10,
    ensures
        ({
            let (rest, step) = frame_step(buffer, chunk);
            &&& step matches FrameStepView::Frame { frame, consumed } ==> {
                &&& frame.len() <= MAX_FRAME_BYTES
                &&& consumed <= chunk.len()
                &&& forall|i: int| 0 <= i < frame.len() ==> frame[i] != 10
            }
            &&& forall|i: int| 0 <= i < rest.len() ==> rest[i] != 10
        }),
{
    lemma_first_newline(chunk);
    let line = buffer + chunk.take(first_newline(chunk));
    assert forall|i: int| 0 <= i < line.len() implies line[i] != 10 by {
        if i >= buffer.len() {
            assert(line[i] == chunk[i - buffer.len()]);
        }
    }
}

/// Reads requests: the line so far, and how many frames have been numbered.
#[derive(Debug)]
pub struct ProtocolReader {
    pub buffer: Vec<u8>,
    pub ingress_seq: u128,
    pub sequence_exhausted: bool,
}

/// What a `ProtocolReader` holds.
pub struct ProtocolReaderView {
    pub buffer: Seq<u8>,
    pub ingress_seq: u128,
    pub sequence_exhausted: bool,
}

impl View for ProtocolReader {
    type V = ProtocolReaderView;

    open spec fn view(&self) -> ProtocolReaderView {
        ProtocolReaderView {
            buffer: self.buffer@,
            ingress_seq: self.ingress_seq,
            sequence_exhausted: self.sequence_exhausted,
        }
    }
}

/// What one chunk of the input led to; `consumed` bytes of it are used up.
#[derive(Debug)]
pub enum ReadStep {
    More { consumed: usize },
    Request { consumed: usize, request: Request },
    /// The input ended between two frames.
    End,
    /// The line so far is given up.
    Fault { consumed: usize, error: ProtocolError },
}

/// What a `ReadStep` says.
pub enum ReadStepView {
    More { consumed: nat },
    Request { consumed: nat, request: RequestView },
    End,
    Fault { consumed: nat, error: ProtocolErrorView },
}

impl View for ReadStep {
    type V = ReadStepView;

    open spec fn view(&self) -> ReadStepView {
        match *self {
            ReadStep::More { consumed } => ReadStepView::More { consumed: consumed as nat },
            ReadStep::Request { consumed, request } => ReadStepView::Request {
                consumed: consumed as nat,
                request: request@,
            },
            ReadStep::End => ReadStepView::End,
            ReadStep::Fault { consumed, error } => ReadStepView::Fault {
                consumed: consumed as nat,
                error: error@,
            },
        }
    }
}

/// No further frame can be numbered.
pub open spec fn ingress_exhausted() -> ProtocolErrorView {
    fatal_error(
        "ingress_sequence_exhausted"@,
        "protocol ingress sequence is exhausted"@,
        "none"@,
    )
}

/// What a chunk leads to for a reader.
pub open spec fn read_step(reader: ProtocolReaderView, chunk: Seq<u8>) -> (
    ProtocolReaderView,
    ReadStepView,
) {
    let (buffer, step) = frame_step(reader.buffer, chunk);
    let next = ProtocolReaderView { buffer, ..reader };
    if reader.sequence_exhausted {
        (reader, ReadStepView::Fault { consumed: 0, error: ingress_exhausted() })
    } else {
        match step {
            FrameStepView::More { consumed } => (next, ReadStepView::More { consumed }),
            FrameStepView::End => (next, ReadStepView::End),
            FrameStepView::Fault { consumed, error } => (
                next,
                ReadStepView::Fault { consumed, error },
            ),
            FrameStepView::Frame { consumed, frame } => if reader.ingress_seq == u128::MAX {
                (
                    ProtocolReaderView { sequence_exhausted: true, ..next },
                    ReadStepView::Fault { consumed, error: ingress_exhausted() },
                )
            } else {
                (
                    ProtocolReaderView { ingress_seq: (reader.ingress_seq + 1) as u128, ..next },
                    match decoded(frame) {
                        Ok(request) => ReadStepView::Request { consumed, request },
                        Err(error) => ReadStepView::Fault { consumed, error },
                    },
                )
            },
        }
    }
}

fn ingress_sequence_exhausted() -> (error: ProtocolError)
    ensures
        error@ == ingress_exhausted(),
{
    ProtocolError::fatal("ingress_sequence_exhausted", "protocol ingress sequence is exhausted")
}

impl ProtocolReader {
    pub fn new() -> (reader: ProtocolReader)
        ensures
            reader@ == (ProtocolReaderView {
                buffer: Seq::empty(),
                ingress_seq: 0,
                sequence_exhausted: false,
            }),
    {
        ProtocolReader::with_ingress_sequence(0)
    }

    pub fn with_ingress_sequence(ingress_seq: u128) -> (reader: ProtocolReader)
        ensures
            reader@ == (ProtocolReaderView {
                buffer: Seq::empty(),
                ingress_seq,
                sequence_exhausted: false,
            }),
    {
        ProtocolReader { buffer: Vec::new(), ingress_seq, sequence_exhausted: false }
    }

    /// Takes up a chunk of the input; an empty one is its end. A frame is numbered before it is
    /// decoded.
    pub fn next_request(&mut self, available: &[u8]) -> (step: ReadStep)
        ensures
            (final(self)@, step@) == read_step(old(self)@, available@),
    {
        if self.sequence_exhausted {
            return ReadStep::Fault { consumed: 0, error: ingress_sequence_exhausted() };
        }
        match read_frame(&mut self.buffer, available) {
            FrameStep::More { consumed } => ReadStep::More { consumed },
            FrameStep::End => ReadStep::End,
            FrameStep::Fault { consumed, error } => ReadStep::Fault { consumed, error },
            FrameStep::Frame { consumed, frame } => match self.ingress_seq.checked_add(1) {
                None => {
                    self.sequence_exhausted = true;
                    ReadStep::Fault { consumed, error: ingress_sequence_exhausted() }
                },
                Some(ingress_seq) => {
                    self.ingress_seq = ingress_seq;
                    match decode_request(&frame) {
                        Ok(request) => ReadStep::Request { consumed, request },
                        Err(error) => ReadStep::Fault { consumed, error },
                    }
                },
            },
        }
    }

    /// Takes up that the input could not be read, with the host's diagnostic. The line so far is given
    /// up.
    pub fn input_failed(&mut self, diagnostic: &str) -> (error: ProtocolError)
        ensures
            if old(self)@.sequence_exhausted {
                final(self)@ == old(self)@ && error@ == ingress_exhausted()
            } else {
                &&& final(self)@ == (ProtocolReaderView { buffer: Seq::empty(), ..old(self)@ })
                &&& error@ == fatal_error("input_error"@, diagnostic@, "none"@)
            },
    {
        if self.sequence_exhausted {
            return ingress_sequence_exhausted();
        }
        self.buffer.clear();
        ProtocolError::fatal("input_error", diagnostic)
    }
}

/// Each frame gets the next number before it is decoded, and keeps it where it fails to decode. A
/// fault of the framing, an unfinished frame and the end of the input leave the number as it was. At
/// the last number a frame is refused as exhausted, and so is every later step. After any other fault
/// the next line begins anew.
pub proof fn law_requests_are_numbered_in_order(reader: ProtocolReaderView, chunk: Seq<u8>)
    ensures
        ({
            let (next, step) = read_step(reader, chunk);
            let framed = frame_step(reader.buffer, chunk).1;
            &&& step is Request ==> next.ingress_seq == reader.ingress_seq + 1
            &&& (step is More || step is End) ==> next.ingress_seq == reader.ingress_seq
            &&& framed is Frame && !reader.sequence_exhausted && reader.ingress_seq != u128::MAX
                ==> {
                &&& next.ingress_seq == reader.ingress_seq + 1
                &&& decoded(framed->frame) matches Err(error) ==> step
                    == (ReadStepView::Fault { consumed: framed->Frame_consumed, error })
            }
            &&& framed is Fault && !reader.sequence_exhausted ==> {
                &&& next.ingress_seq == reader.ingress_seq
                &&& step == (ReadStepView::Fault {
                    consumed: framed->Fault_consumed,
                    error: framed->error,
                })
            }
            &&& framed is Frame && reader.ingress_seq == u128::MAX ==> {
                &&& next.sequence_exhausted
                &&& next.ingress_seq == reader.ingress_seq
                &&& step is Fault && step->error == ingress_exhausted()
            }
            &&& reader.ingress_seq <= next.ingress_seq
            &&& reader.sequence_exhausted ==> next == reader && step == (ReadStepView::Fault {
                consumed: 0,
                error: ingress_exhausted(),
            })
            &&& step is Fault && !reader.sequence_exhausted ==> next.buffer == Seq::<u8>::empty()
        }),
{
}

/// What an input that is at hand as a whole holds first.
pub open spec fn first_request(input: Seq<u8>) -> Result<Option<RequestView>, ProtocolErrorView> {
    let start = ProtocolReaderView {
        buffer: Seq::empty(),
        ingress_seq: 0,
        sequence_exhausted: false,
    };
    let (reader, step) = read_step(start, input);
    match step {
        ReadStepView::Request { request, .. } => Ok(Some(request)),
        ReadStepView::End => Ok(None),
        ReadStepView::Fault { error, .. } => Err(error),
        ReadStepView::More { .. } => Err(incomplete()),
    }
}

/// Reads the first request of an input that is at hand as a whole.
pub fn read_request(input: &[u8]) -> (r: Result<Option<Request>, ProtocolError>)
    ensures
        match r {
            Ok(Some(request)) => first_request(input@) == Ok::<
                Option<RequestView>,
                ProtocolErrorView,
            >(Some(request@)),
            Ok(None) => first_request(input@) == Ok::<Option<RequestView>, ProtocolErrorView>(None),
            Err(error) => first_request(input@) == Err::<Option<RequestView>, ProtocolErrorView>(
                error@,
            ),
        },
{
    let mut reader = ProtocolReader::new();
    match reader.next_request(input) {
        ReadStep::Request { request, .. } => Ok(Some(request)),
        ReadStep::End => Ok(None),
        ReadStep::Fault { error, .. } => Err(error),
        ReadStep::More { .. } => Err(
            ProtocolError::fatal(
                "incomplete_frame",
                "stdin ended before the NDJSON frame terminator",
            ),
        ),
    }
}

} // verus!
