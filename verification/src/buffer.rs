//! The shared log buffer, the flush policy, and a model of the
//! append-only log file it drains into.
//!
//! The buffer is the one resource shared between the worker loop and the
//! UI thread. The mutual-exclusion lock that guards it lives with the
//! caller; a flush attempt is handed the result of the caller's
//! non-blocking lock acquisition as `acquired`, so the flush path never
//! blocks either thread.

use vstd::prelude::*;

verus! {

/// In-memory accumulator of complete, newline-terminated log lines.
pub struct LogBuffer {
    data: Vec<u8>,
}

impl View for LogBuffer {
    type V = Seq<u8>;

    closed spec fn view(&self) -> Seq<u8> {
        self.data@
    }
}

impl LogBuffer {
    pub fn new() -> (b: LogBuffer)
        ensures
            b@ =~= Seq::<u8>::empty(),
    {
        LogBuffer { data: Vec::new() }
    }

    /// Appends the given bytes as one critical section; always succeeds,
    /// there is no backpressure.
    pub fn append(&mut self, bytes: Vec<u8>)
        ensures
            final(self)@ == old(self)@ + bytes@,
    {
        let mut moved = bytes;
        self.data.append(&mut moved);
    }

    /// Number of buffered bytes.
    pub fn len(&self) -> (n: usize)
        ensures
            n == self@.len(),
    {
        self.data.len()
    }

    /// The buffered bytes, without draining them.
    pub fn bytes(&self) -> (r: &[u8])
        ensures
            r@ == self@,
    {
        self.data.as_slice()
    }

    /// Empties the buffer. On the flush path this is called only after
    /// the write succeeded, so a failed write never loses buffered lines.
    pub fn clear(&mut self)
        ensures
            final(self)@ =~= Seq::<u8>::empty(),
    {
        self.data.clear();
    }
}

/// Model of the append-only log file: the bytes persisted so far. The
/// real file I/O lives with the caller; this type states the contract the
/// sink must honour — created empty when absent, never truncated, every
/// write a plain append.
pub struct SinkFile {
    content: Vec<u8>,
}

impl View for SinkFile {
    type V = Seq<u8>;

    closed spec fn view(&self) -> Seq<u8> {
        self.content@
    }
}

/// What an open-for-append leaves in the file: the old content when the
/// file existed, an empty file otherwise.
pub open spec fn opened_content(existing: Option<Seq<u8>>) -> Seq<u8> {
    match existing {
        Some(c) => c,
        None => Seq::empty(),
    }
}

impl SinkFile {
    /// Opens the log file, creating it empty when absent; an existing
    /// file keeps its content untouched.
    pub fn open_for_append(existing: Option<SinkFile>) -> (f: SinkFile)
        ensures
            existing matches Some(g) ==> f@ == g@,
            existing is None ==> f@ =~= Seq::<u8>::empty(),
    {
        match existing {
            Some(f) => f,
            None => SinkFile { content: Vec::new() },
        }
    }

    /// The persisted bytes.
    pub fn bytes(&self) -> (r: &[u8])
        ensures
            r@ == self@,
    {
        self.content.as_slice()
    }
}

/// The file content after a flush attempt: the whole buffer is appended
/// exactly when the lock was obtained and the write went through;
/// otherwise the file gains nothing.
pub open spec fn flushed_sink(buf: Seq<u8>, sink: Seq<u8>, acquired: bool, wrote: bool) -> Seq<
    u8,
> {
    if acquired && wrote {
        sink + buf
    } else {
        sink
    }
}

/// The buffer content after a flush attempt: emptied exactly when the
/// write went through, kept in full otherwise — a failed write never
/// loses buffered lines.
pub open spec fn flushed_buffer(buf: Seq<u8>, acquired: bool, wrote: bool) -> Seq<u8> {
    if acquired && wrote {
        Seq::empty()
    } else {
        buf
    }
}

/// The reported outcome of a flush attempt.
pub open spec fn flush_outcome(acquired: bool, wrote: bool) -> FlushOutcome {
    if !acquired {
        FlushOutcome::Skipped
    } else if wrote {
        FlushOutcome::Flushed
    } else {
        FlushOutcome::WriteFailed
    }
}

/// What a flush attempt reports.
#[derive(Clone, Copy, Debug, PartialEq, Eq, Structural)]
pub enum FlushOutcome {
    /// The lock was obtained and the write went through; the buffer's
    /// content is now in the sink and the buffer is empty.
    Flushed,
    /// The lock was held elsewhere; nothing was touched.
    Skipped,
    /// The lock was obtained but the write failed; the buffer keeps its
    /// bytes, and this attempt is over — the next one retries them.
    WriteFailed,
}

/// One non-blocking flush attempt. `acquired` is the result of the
/// caller's try-acquisition of the buffer's lock; `wrote` is the outcome
/// of the caller's write of the buffered bytes to persistent storage,
/// meaningful only when the lock was obtained. The buffer is cleared
/// exactly when the write succeeded — never before, so a failed write
/// leaves every buffered line in place and the sink without the new
/// bytes. A contended attempt touches nothing and reports itself skipped.
pub fn try_flush(buffer: &mut LogBuffer, sink: &mut SinkFile, acquired: bool, wrote: bool) -> (r:
    FlushOutcome)
    ensures
        final(sink)@ == flushed_sink(old(buffer)@, old(sink)@, acquired, wrote),
        final(buffer)@ == flushed_buffer(old(buffer)@, acquired, wrote),
        r == flush_outcome(acquired, wrote),
{
    if acquired {
        if wrote {
            sink.content.append(&mut buffer.data);
            FlushOutcome::Flushed
        } else {
            FlushOutcome::WriteFailed
        }
    } else {
        FlushOutcome::Skipped
    }
}

/// Law: an append to an empty buffer followed immediately by an
/// uncontended flush whose write succeeds leaves exactly the appended
/// bytes in the sink and an empty buffer.
pub proof fn lemma_append_then_flush(bytes: Seq<u8>, sink: Seq<u8>)
    ensures
        flushed_sink(Seq::<u8>::empty() + bytes, sink, true, true) =~= sink + bytes,
        flushed_sink(Seq::<u8>::empty() + bytes, Seq::<u8>::empty(), true, true) =~= bytes,
        flushed_buffer(Seq::<u8>::empty() + bytes, true, true) =~= Seq::<u8>::empty(),
{
}

/// Law: a flush attempt that does not get the lock changes neither the
/// buffer nor the sink and reports itself as skipped, whatever a write
/// would have done.
pub proof fn lemma_contended_flush_skips(buf: Seq<u8>, sink: Seq<u8>, wrote: bool)
    ensures
        flushed_sink(buf, sink, false, wrote) == sink,
        flushed_buffer(buf, false, wrote) == buf,
        flush_outcome(false, wrote) == FlushOutcome::Skipped,
{
}

/// Law: a flush attempt whose write fails clears nothing — the buffer
/// keeps every byte, the sink gains none, and the failure is surfaced.
pub proof fn lemma_failed_write_keeps_buffer(buf: Seq<u8>, sink: Seq<u8>)
    ensures
        flushed_sink(buf, sink, true, false) == sink,
        flushed_buffer(buf, true, false) == buf,
        flush_outcome(true, false) == FlushOutcome::WriteFailed,
{
}

/// Law: opening the log file is idempotent — an open against an existing
/// file keeps its content exactly, so running the startup sequence twice
/// neither truncates nor duplicates what the file holds.
pub proof fn lemma_open_idempotent(c: Seq<u8>)
    ensures
        opened_content(Some(c)) == c,
        opened_content(Some(opened_content(Some(c)))) == opened_content(Some(c)),
{
}

} // verus!
