use up_down::buffer::LogBuffer;
use up_down::status::Status;
use up_down::worker::{Worker, FLUSH_THRESHOLD};

#[test]
fn end_to_end_probe_sequence() {
    let mut worker = Worker::new(Status::Up);
    let mut buffer = LogBuffer::new();
    let probes = [
        Status::Up,
        Status::Up,
        Status::Down,
        Status::Down,
        Status::Up,
    ];
    for probe in probes {
        let flush = worker.cycle(&mut buffer, probe);
        assert!(!flush);
    }
    let expected = b"Ping still succeeding\n\
                     Ping still succeeding\n\
                     Ping started failing\n\
                     Ping started succeeding again\n";
    assert_eq!(buffer.bytes(), expected.as_slice());
    assert_eq!(worker.counter, expected.len());
}

#[test]
fn exactly_one_flush_when_threshold_crossed() {
    let mut worker = Worker::new(Status::Up);
    let mut buffer = LogBuffer::new();
    let line_len = b"Ping still succeeding\n".len();
    let cycles_to_cross = FLUSH_THRESHOLD / line_len + 1;
    let mut flushes = 0;
    for i in 0..cycles_to_cross {
        let flush = worker.cycle(&mut buffer, Status::Up);
        if flush {
            flushes += 1;
            assert_eq!(i, cycles_to_cross - 1);
            assert_eq!(worker.counter, 0);
        }
    }
    assert_eq!(flushes, 1);
    // The attempt's outcome never reached the worker, yet the count is
    // zero; the next quiet-sized cycle does not flush again.
    let flush = worker.cycle(&mut buffer, Status::Up);
    assert!(!flush);
    assert_eq!(worker.counter, line_len);
}

#[test]
fn counter_tracks_appended_bytes_until_threshold() {
    let mut worker = Worker::new(Status::Up);
    let mut buffer = LogBuffer::new();
    worker.cycle(&mut buffer, Status::Down);
    assert_eq!(worker.counter, b"Ping started failing\n".len());
    worker.cycle(&mut buffer, Status::Down);
    assert_eq!(worker.counter, b"Ping started failing\n".len());
    assert_eq!(buffer.bytes(), b"Ping started failing\n".as_slice());
}
