use gzpipe::codec::decompress;
use gzpipe::pipeline::{
    Action, Driver, Event, FileErrorKind, PipelineError, TransferStatistics,
};

/// Drive one whole transfer against an in-memory source and sink, answering
/// every action honestly, and return the bytes written with the outcome.
fn simulate(
    source: &[u8],
    chunk_size: usize,
) -> (Vec<u8>, Result<TransferStatistics, PipelineError>) {
    let mut driver = Driver::new(chunk_size);
    let mut target: Vec<u8> = Vec::new();
    let mut pos: usize = 0;
    let mut ev = Event::Start;
    loop {
        match driver.step(ev) {
            Action::OpenSource => ev = Event::OpenOk,
            Action::CreateSink => ev = Event::CreateOk,
            Action::ReadChunk(max) => {
                let end = (pos + max).min(source.len());
                let chunk = source[pos..end].to_vec();
                pos = end;
                ev = Event::ReadOk(chunk);
            }
            Action::WriteChunk(bytes) => {
                target.extend_from_slice(&bytes);
                ev = Event::WriteOk;
            }
            Action::CloseSink => ev = Event::SinkClosed(target.len() as u64, 1),
            Action::CloseSource => ev = Event::SourceClosed(source.len() as u64),
            Action::Stop(outcome) => {
                assert!(!driver.source_open);
                assert!(!driver.sink_open);
                return (target, outcome);
            }
        }
    }
}

#[test]
fn transfer_roundtrip() {
    let source = b"streaming bytes from a source through the encoder to a sink".to_vec();
    let (target, outcome) = simulate(&source, 8);
    let stats = outcome.unwrap();
    assert_eq!(stats.source_len, source.len() as u64);
    assert_eq!(stats.target_len, target.len() as u64);
    assert_eq!(decompress(&target).unwrap(), source);
}

#[test]
fn empty_source_minimal_footer() {
    let (target, outcome) = simulate(&[], 1024);
    let stats = outcome.unwrap();
    assert_eq!(stats.source_len, 0);
    assert!(target.len() > 0);
    assert_eq!(target, gzpipe::codec::compress(&[]).unwrap());
    assert_eq!(decompress(&target).unwrap(), Vec::<u8>::new());
}

#[test]
fn repeated_transfer_writes_identical_target() {
    let mut source: Vec<u8> = Vec::new();
    for i in 0..50_000usize {
        source.push((i % 97) as u8);
    }
    let (first, outcome_a) = simulate(&source, 4096);
    let (second, outcome_b) = simulate(&source, 4096);
    assert!(outcome_a.is_ok());
    assert!(outcome_b.is_ok());
    assert_eq!(first, second);
}

#[test]
fn random_source_keeps_every_byte() {
    let mut source = vec![0u8; 10 * 1024 * 1024];
    rand::RngCore::fill_bytes(&mut rand::thread_rng(), &mut source);
    let (target, outcome) = simulate(&source, 64 * 1024);
    assert!(outcome.is_ok());
    // Incompressible input may only grow by the codec's bounded overhead.
    assert!(target.len() >= source.len() - 1024);
    assert!(target.len() <= source.len() + source.len() / 64 + 1024);
    assert_eq!(decompress(&target).unwrap(), source);
}

#[test]
fn repeated_byte_source_shrinks_dramatically() {
    let source = vec![0x61u8; 10 * 1024 * 1024];
    let (target, outcome) = simulate(&source, 64 * 1024);
    assert!(outcome.is_ok());
    assert!(target.len() * 50 < source.len());
    assert_eq!(decompress(&target).unwrap(), source);
}

#[test]
fn missing_source_stops_before_any_target() {
    let mut driver = Driver::new(4096);
    let first = driver.step(Event::Start);
    assert!(matches!(first, Action::OpenSource));
    let second = driver.step(Event::OpenFailed(FileErrorKind::NotFound));
    // The failure is terminal at once: no CreateSink was ever asked for.
    match second {
        Action::Stop(outcome) => assert_eq!(outcome, Err(PipelineError::FileNotFound)),
        _ => panic!("expected the transfer to stop"),
    }
    assert!(!driver.source_open);
    assert!(!driver.sink_open);
}

#[test]
fn unreadable_source_reports_permission() {
    let mut driver = Driver::new(4096);
    let _ = driver.step(Event::Start);
    let second = driver.step(Event::OpenFailed(FileErrorKind::PermissionDenied));
    match second {
        Action::Stop(outcome) => assert_eq!(outcome, Err(PipelineError::PermissionDenied)),
        _ => panic!("expected the transfer to stop"),
    }
}

#[test]
fn unwritable_target_closes_source() {
    let mut driver = Driver::new(4096);
    let _ = driver.step(Event::Start);
    let second = driver.step(Event::OpenOk);
    assert!(matches!(second, Action::CreateSink));
    let third = driver.step(Event::CreateFailed(FileErrorKind::PermissionDenied));
    assert!(matches!(third, Action::CloseSource));
    assert!(driver.source_open);
    let fourth = driver.step(Event::SourceClosed(0));
    match fourth {
        Action::Stop(outcome) => assert_eq!(outcome, Err(PipelineError::PermissionDenied)),
        _ => panic!("expected the transfer to stop"),
    }
    assert!(!driver.source_open);
    assert!(!driver.sink_open);
}

#[test]
fn target_in_missing_place_is_io_error() {
    let mut driver = Driver::new(4096);
    let _ = driver.step(Event::Start);
    let _ = driver.step(Event::OpenOk);
    let third = driver.step(Event::CreateFailed(FileErrorKind::Other));
    assert!(matches!(third, Action::CloseSource));
    let fourth = driver.step(Event::SourceClosed(0));
    match fourth {
        Action::Stop(outcome) => assert_eq!(outcome, Err(PipelineError::IoError)),
        _ => panic!("expected the transfer to stop"),
    }
}

#[test]
fn read_failure_releases_both_handles() {
    let mut driver = Driver::new(4096);
    let _ = driver.step(Event::Start);
    let _ = driver.step(Event::OpenOk);
    let _ = driver.step(Event::CreateOk);
    assert!(driver.source_open && driver.sink_open);
    let after_read = driver.step(Event::ReadFailed);
    assert!(matches!(after_read, Action::CloseSink));
    let after_sink = driver.step(Event::SinkClosed(0, 0));
    assert!(matches!(after_sink, Action::CloseSource));
    let last = driver.step(Event::SourceClosed(0));
    match last {
        Action::Stop(outcome) => assert_eq!(outcome, Err(PipelineError::IoError)),
        _ => panic!("expected the transfer to stop"),
    }
    assert!(!driver.source_open);
    assert!(!driver.sink_open);
}

#[test]
fn write_failure_releases_both_handles() {
    let mut driver = Driver::new(4096);
    let _ = driver.step(Event::Start);
    let _ = driver.step(Event::OpenOk);
    let _ = driver.step(Event::CreateOk);
    let chunk = vec![1u8, 2, 3];
    let action = driver.step(Event::ReadOk(chunk));
    assert!(matches!(action, Action::WriteChunk(_)));
    let after_write = driver.step(Event::WriteFailed);
    assert!(matches!(after_write, Action::CloseSink));
    let after_sink = driver.step(Event::SinkCloseFailed);
    assert!(matches!(after_sink, Action::CloseSource));
    let last = driver.step(Event::SourceCloseFailed);
    match last {
        Action::Stop(outcome) => assert_eq!(outcome, Err(PipelineError::IoError)),
        _ => panic!("expected the transfer to stop"),
    }
    assert!(!driver.source_open);
    assert!(!driver.sink_open);
}

#[test]
fn statistics_carry_reported_sizes_and_time() {
    let mut driver = Driver::new(4096);
    let _ = driver.step(Event::Start);
    let _ = driver.step(Event::OpenOk);
    let _ = driver.step(Event::CreateOk);
    let action = driver.step(Event::ReadOk(Vec::new()));
    assert!(matches!(action, Action::WriteChunk(_)));
    let after_final = driver.step(Event::WriteOk);
    assert!(matches!(after_final, Action::CloseSink));
    let after_sink = driver.step(Event::SinkClosed(20, 777));
    assert!(matches!(after_sink, Action::CloseSource));
    let last = driver.step(Event::SourceClosed(0));
    match last {
        Action::Stop(outcome) => assert_eq!(
            outcome,
            Ok(TransferStatistics { source_len: 0, target_len: 20, elapsed_nanos: 777 })
        ),
        _ => panic!("expected the transfer to stop"),
    }
}
