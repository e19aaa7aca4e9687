//! Output capture: shared text buffers that accumulate a child's stream
//! output in arrival order.
//!
//! A [`CaptureBuffer`] holds the text read so far from one stream. Each
//! chunk read from the stream is decoded as UTF-8 and appended atomically
//! (callers hold the buffer behind a mutex, one lock per append), so a
//! buffer is always the concatenation, in read order, of the decoded
//! chunks appended to it — the proof functions at the end state that.
//! A chunk that is not valid UTF-8 is rejected and leaves the buffer
//! unchanged; callers treat that as fatal for the test run.

use vstd::prelude::*;

use std::sync::Arc;
use std::sync::Mutex;

verus! {

/// An outside type: `std::sync::Mutex`, the lock under which a capture
/// buffer is shared between a reader task and the test body.
#[verifier::external_type_specification]
#[verifier::external_body]
#[verifier::reject_recursive_types(T)]
pub struct ExMutex<T: ?Sized>(Mutex<T>);

/// The text that a byte sequence decodes to under UTF-8, if it is valid
/// UTF-8; what `str::from_utf8` accepts and returns.
pub uninterp spec fn utf8_text(bytes: Seq<u8>) -> Option<Seq<char>>;

/// Relies on str::from_utf8: returns the UTF-8 decoding of `bytes`, a
/// function of the bytes alone, exactly when they are valid UTF-8; an
/// empty input decodes to the empty string.
#[verifier::external_body]
fn decode_chunk(bytes: &[u8]) -> (r: Option<String>)
    ensures
        r is Some <==> utf8_text(bytes@) is Some,
        r is Some ==> r.unwrap()@ == utf8_text(bytes@).unwrap(),
        bytes@.len() == 0 ==> r is Some && r.unwrap()@.len() == 0,
{
    match str::from_utf8(bytes) {
        Ok(s) => Some(s.to_owned()),
        Err(_) => None,
    }
}

/// Relies on String::push_str: appends the slice's characters at the end
/// of the string.
pub assume_specification[ String::push_str ](s: &mut String, other: &str)
    ensures
        final(s)@ == old(s)@ + other@,
;

/// Why a chunk could not be appended to a capture buffer.
#[derive(Clone, Copy, Debug, PartialEq, Eq, Structural)]
pub enum CaptureError {
    /// The chunk is not valid UTF-8 text.
    InvalidText,
}

/// The text accumulated from one captured stream. Its view is the sequence
/// of characters appended so far, in arrival order.
#[derive(Clone)]
pub struct CaptureBuffer {
    text: String,
}

/// A buffer after one chunk arrives: the decoded chunk is appended when it
/// is valid UTF-8, and the buffer is unchanged when it is not.
pub open spec fn after_append(buf: Seq<char>, chunk: Seq<u8>) -> Seq<char> {
    match utf8_text(chunk) {
        Some(text) => buf + text,
        None => buf,
    }
}

impl View for CaptureBuffer {
    type V = Seq<char>;

    closed spec fn view(&self) -> Seq<char> {
        self.text@
    }
}

impl CaptureBuffer {
    /// An empty buffer, holding no text yet.
    pub fn new() -> (r: CaptureBuffer)
        ensures
            r@ == Seq::<char>::empty(),
    {
        CaptureBuffer { text: String::new() }
    }

    /// Appends one chunk read from the stream. The chunk is decoded as
    /// UTF-8 and its text appended after everything already captured; a
    /// chunk that is not valid UTF-8 is rejected and the buffer is left
    /// unchanged.
    pub fn append_chunk(&mut self, chunk: &[u8]) -> (r: Result<(), CaptureError>)
        ensures
            final(self)@ == after_append(old(self)@, chunk@),
            r is Ok <==> utf8_text(chunk@) is Some,
    {
        match decode_chunk(chunk) {
            Some(text) => {
                self.text.push_str(text.as_str());
                Ok(())
            },
            None => Err(CaptureError::InvalidText),
        }
    }

    /// The text captured so far.
    pub fn current_text(&self) -> (r: String)
        ensures
            r@ == self@,
    {
        self.text.clone()
    }
}

/// Relies on std::sync::Mutex::lock: takes the lock (recovering from a
/// poisoned lock) and returns a copy of the buffer it guards at that
/// moment.
#[verifier::external_body]
fn snapshot_buffer(shared: &Arc<Mutex<CaptureBuffer>>) -> (r: CaptureBuffer) {
    match shared.lock() {
        Ok(guard) => guard.clone(),
        Err(poisoned) => poisoned.into_inner().clone(),
    }
}

/// Which streams of a supervised child to capture: for each of
/// standard-output and standard-error, either no capture, or the shared
/// buffer that a background reader is to fill.
pub struct Capture {
    pub stdout: Option<Arc<Mutex<CaptureBuffer>>>,
    pub stderr: Option<Arc<Mutex<CaptureBuffer>>>,
}

impl Capture {
    /// A configuration that captures neither stream.
    pub fn none() -> (r: Capture)
        ensures
            r.stdout is None,
            r.stderr is None,
    {
        Capture { stdout: None, stderr: None }
    }

    /// The standard-output text captured so far, if that stream is being
    /// captured: a snapshot taken under the buffer's lock.
    pub fn stdout_text(&self) -> (r: Option<String>)
        ensures
            r is Some <==> self.stdout is Some,
    {
        match &self.stdout {
            Some(shared) => Some(snapshot_buffer(shared).current_text()),
            None => None,
        }
    }

    /// The standard-error text captured so far, if that stream is being
    /// captured: a snapshot taken under the buffer's lock.
    pub fn stderr_text(&self) -> (r: Option<String>)
        ensures
            r is Some <==> self.stderr is Some,
    {
        match &self.stderr {
            Some(shared) => Some(snapshot_buffer(shared).current_text()),
            None => None,
        }
    }
}

/// What a capture reader does with one read event.
#[derive(Clone, Copy, Debug, PartialEq, Eq, Structural)]
pub enum ReaderAction {
    /// End-of-data was reached: the reader ends silently, signalling
    /// nobody — the caller discovers completion only by the child itself
    /// exiting.
    Finish,
    /// A chunk of bytes arrived: append it to the shared buffer.
    Append,
    /// The read failed with something other than end-of-data: fail fast,
    /// since a test run whose capture is broken is not trustworthy enough
    /// to continue.
    Abort,
}

/// Decides one step of a capture reader from what the read reported, as
/// plain values: a failed read aborts; end-of-data, or an empty read,
/// ends the reader silently; and a non-empty chunk is appended. The
/// caller performs the action (an append that finds non-text data is
/// then fatal too, as `append_chunk`'s error says).
pub fn reader_step(read_failed: bool, end_of_data: bool, chunk_len: usize) -> (r: ReaderAction)
    ensures
        read_failed ==> r == ReaderAction::Abort,
        !read_failed && (end_of_data || chunk_len == 0) ==> r == ReaderAction::Finish,
        !read_failed && !end_of_data && chunk_len > 0 ==> r == ReaderAction::Append,
{
    if read_failed {
        ReaderAction::Abort
    } else if end_of_data || chunk_len == 0 {
        ReaderAction::Finish
    } else {
        ReaderAction::Append
    }
}

/// The text that one chunk contributes to its buffer: its UTF-8 decoding,
/// or nothing when it is not valid UTF-8.
pub open spec fn chunk_text(chunk: Seq<u8>) -> Seq<char> {
    match utf8_text(chunk) {
        Some(text) => text,
        None => Seq::empty(),
    }
}

/// A buffer after a whole sequence of chunks arrives, oldest first.
pub open spec fn after_appends(buf: Seq<char>, chunks: Seq<Seq<u8>>) -> Seq<char>
    decreases chunks.len(),
{
    if chunks.len() == 0 {
        buf
    } else {
        after_append(after_appends(buf, chunks.drop_last()), chunks.last())
    }
}

/// The concatenation of the texts of a sequence of chunks, oldest first.
pub open spec fn chunks_text(chunks: Seq<Seq<u8>>) -> Seq<char>
    decreases chunks.len(),
{
    if chunks.len() == 0 {
        Seq::empty()
    } else {
        chunks_text(chunks.drop_last()) + chunk_text(chunks.last())
    }
}

/// Appending chunks one at a time, in arrival order, leaves the buffer
/// equal to what it held before followed by the exact concatenation of the
/// chunks' texts: nothing is duplicated, dropped or reordered.
pub proof fn lemma_appends_concatenate(buf: Seq<char>, chunks: Seq<Seq<u8>>)
    ensures
        after_appends(buf, chunks) == buf + chunks_text(chunks),
    decreases chunks.len(),
{
    if chunks.len() == 0 {
        assert(after_appends(buf, chunks) =~= buf + chunks_text(chunks));
    } else {
        lemma_appends_concatenate(buf, chunks.drop_last());
        assert(after_appends(buf, chunks) =~= buf + chunks_text(chunks));
    }
}

/// One interleaved arrival: `true` marks a chunk read from standard-output,
/// `false` one read from standard-error.
pub open spec fn buffers_after(
    bufs: (Seq<char>, Seq<char>),
    events: Seq<(bool, Seq<u8>)>,
) -> (Seq<char>, Seq<char>)
    decreases events.len(),
{
    if events.len() == 0 {
        bufs
    } else {
        let prev = buffers_after(bufs, events.drop_last());
        let event = events.last();
        if event.0 {
            (after_append(prev.0, event.1), prev.1)
        } else {
            (prev.0, after_append(prev.1, event.1))
        }
    }
}

/// The chunks of one stream, in order, within an interleaved arrival
/// sequence.
pub open spec fn stream_chunks(events: Seq<(bool, Seq<u8>)>, which: bool) -> Seq<Seq<u8>>
    decreases events.len(),
{
    if events.len() == 0 {
        Seq::empty()
    } else {
        let rest = stream_chunks(events.drop_last(), which);
        if events.last().0 == which {
            rest.push(events.last().1)
        } else {
            rest
        }
    }
}

/// Interleaving does not corrupt either buffer: however chunk arrivals for
/// the two streams are interleaved, each buffer ends up exactly as if its
/// own stream's chunks had been appended to it alone, in their order.
pub proof fn lemma_streams_independent(
    bufs: (Seq<char>, Seq<char>),
    events: Seq<(bool, Seq<u8>)>,
)
    ensures
        buffers_after(bufs, events).0 == after_appends(bufs.0, stream_chunks(events, true)),
        buffers_after(bufs, events).1 == after_appends(bufs.1, stream_chunks(events, false)),
    decreases events.len(),
{
    if events.len() == 0 {
    } else {
        lemma_streams_independent(bufs, events.drop_last());
        let out_chunks = stream_chunks(events, true);
        let err_chunks = stream_chunks(events, false);
        if events.last().0 {
            assert(out_chunks.drop_last() =~= stream_chunks(events.drop_last(), true));
            assert(err_chunks =~= stream_chunks(events.drop_last(), false));
        } else {
            assert(err_chunks.drop_last() =~= stream_chunks(events.drop_last(), false));
            assert(out_chunks =~= stream_chunks(events.drop_last(), true));
        }
    }
}

} // verus!
