use up_down::buffer::{try_flush, FlushOutcome, LogBuffer, SinkFile};

#[test]
fn append_then_flush_uncontended() {
    let mut buffer = LogBuffer::new();
    let mut sink = SinkFile::open_for_append(None);
    buffer.append(b"one line\n".to_vec());
    let outcome = try_flush(&mut buffer, &mut sink, true, true);
    assert_eq!(outcome, FlushOutcome::Flushed);
    assert_eq!(sink.bytes(), b"one line\n".as_slice());
    assert_eq!(buffer.len(), 0);
}

#[test]
fn contended_flush_changes_nothing() {
    let mut buffer = LogBuffer::new();
    let mut sink = SinkFile::open_for_append(None);
    buffer.append(b"kept\n".to_vec());
    let outcome = try_flush(&mut buffer, &mut sink, false, false);
    assert_eq!(outcome, FlushOutcome::Skipped);
    assert_eq!(buffer.bytes(), b"kept\n".as_slice());
    assert_eq!(sink.bytes(), b"".as_slice());
}

#[test]
fn failed_write_keeps_buffer_and_sink() {
    let mut buffer = LogBuffer::new();
    let mut sink = SinkFile::open_for_append(None);
    buffer.append(b"not lost\n".to_vec());
    let outcome = try_flush(&mut buffer, &mut sink, true, false);
    assert_eq!(outcome, FlushOutcome::WriteFailed);
    assert_eq!(buffer.bytes(), b"not lost\n".as_slice());
    assert_eq!(sink.bytes(), b"".as_slice());
    // The retry on the next attempt succeeds with nothing lost.
    let outcome = try_flush(&mut buffer, &mut sink, true, true);
    assert_eq!(outcome, FlushOutcome::Flushed);
    assert_eq!(sink.bytes(), b"not lost\n".as_slice());
    assert_eq!(buffer.len(), 0);
}

#[test]
fn flush_appends_to_existing_file_content() {
    let mut buffer = LogBuffer::new();
    let mut sink = SinkFile::open_for_append(None);
    buffer.append(b"first\n".to_vec());
    try_flush(&mut buffer, &mut sink, true, true);
    buffer.append(b"second\n".to_vec());
    try_flush(&mut buffer, &mut sink, true, true);
    assert_eq!(sink.bytes(), b"first\nsecond\n".as_slice());
}

#[test]
fn open_for_append_is_idempotent() {
    let mut buffer = LogBuffer::new();
    let mut sink = SinkFile::open_for_append(None);
    buffer.append(b"persisted\n".to_vec());
    try_flush(&mut buffer, &mut sink, true, true);
    let reopened = SinkFile::open_for_append(Some(sink));
    assert_eq!(reopened.bytes(), b"persisted\n".as_slice());
    let reopened_again = SinkFile::open_for_append(Some(reopened));
    assert_eq!(reopened_again.bytes(), b"persisted\n".as_slice());
}

#[test]
fn appends_accumulate_in_order() {
    let mut buffer = LogBuffer::new();
    buffer.append(b"a\n".to_vec());
    buffer.append(b"b\n".to_vec());
    assert_eq!(buffer.bytes(), b"a\nb\n".as_slice());
    assert_eq!(buffer.len(), 4);
    buffer.clear();
    assert_eq!(buffer.len(), 0);
}
