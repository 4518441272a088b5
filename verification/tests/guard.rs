use offset_guard::GuardError;
use offset_guard::Operation;
use offset_guard::Output;
use offset_guard::Stream;
use offset_guard::StreamError;
use offset_guard::guarded_call;
use offset_guard::peek_exact;
use offset_guard::resolve;

#[test]
fn test_peek_file() {
    let mut f = Stream::new(b"Hello World".to_vec());

    // Peek the first 5 bytes.
    let buf = peek_exact(&mut f, 5).unwrap();
    assert_eq!(b"Hello".to_vec(), buf);

    // The previous peek should not have advanced the position.
    let buf = peek_exact(&mut f, 5).unwrap();
    assert_eq!(b"Hello".to_vec(), buf);

    // Try a read that's too big and will fail.
    assert!(peek_exact(&mut f, 100).is_err());

    // But the position should still be at the beginning of the stream.
    let buf = peek_exact(&mut f, 5).unwrap();
    assert_eq!(b"Hello".to_vec(), buf);
}

#[test]
fn peek_is_idempotent() {
    let mut f = Stream::new(b"abcdef".to_vec());
    let before = f.position();
    let first = peek_exact(&mut f, 4).unwrap();
    let second = peek_exact(&mut f, 4).unwrap();
    assert_eq!(first, second);
    assert_eq!(b"abcd".to_vec(), first);
    assert_eq!(before, f.position());
}

#[test]
fn position_restored_when_operation_fails() {
    let mut f = Stream::new(b"abc".to_vec());
    let r = peek_exact(&mut f, 9);
    assert_eq!(
        r,
        Err(GuardError::OperationFailed {
            operation: StreamError::UnexpectedEof,
            restoration: None,
        })
    );
    assert_eq!(0, f.position());
}

#[test]
fn query_failure_is_a_noop() {
    // A handle that cannot seek at all cannot report its position.
    let mut f = Stream::with_seek_budget(b"abc".to_vec(), 0);
    let r = peek_exact(&mut f, 2);
    assert_eq!(r, Err(GuardError::PositionQueryFailed));
    assert_eq!(0, f.position());
}

#[test]
fn restoration_failure_surfaces_after_success() {
    // The position query spends the only seek, so the operation succeeds
    // and the restoring seek is the one that fails.
    let mut f = Stream::with_seek_budget(b"abc".to_vec(), 1);
    let r = peek_exact(&mut f, 2);
    assert_eq!(
        r,
        Err(GuardError::RestorationFailed(StreamError::NotSeekable))
    );
    // The position stays where the operation left it.
    assert_eq!(2, f.position());
}

#[test]
fn hello_world_scenario() {
    let mut f = Stream::new(b"Hello World".to_vec());
    assert_eq!(0, f.position());

    let first = peek_exact(&mut f, 5).unwrap();
    assert_eq!(b"Hello".to_vec(), first);
    assert_eq!(0, f.position());

    let second = peek_exact(&mut f, 5).unwrap();
    assert_eq!(b"Hello".to_vec(), second);
    assert_eq!(0, f.position());

    let third = peek_exact(&mut f, 100);
    assert!(matches!(
        third,
        Err(GuardError::OperationFailed { operation: StreamError::UnexpectedEof, .. })
    ));
    assert_eq!(0, f.position());
}

#[test]
fn a_guarded_read_equals_a_peek() {
    let mut f = Stream::new(b"Hello World".to_vec());
    let r = guarded_call(&mut f, Operation::ReadExact(5));
    assert!(matches!(r, Ok(Output::Bytes(v)) if v == b"Hello".to_vec()));
    assert_eq!(0, f.position());
}

#[test]
fn a_guarded_write_keeps_the_position() {
    let mut f = Stream::new(b"Hello World".to_vec());
    assert_eq!(Ok(6), f.seek(6));
    let r = guarded_call(&mut f, Operation::WriteAll(b"Earth".to_vec()));
    assert!(matches!(r, Ok(Output::Written)));
    assert_eq!(6, f.position());
    assert_eq!(Ok(0), f.seek(0));
    assert_eq!(Ok(b"Hello Earth".to_vec()), f.read_exact(11));
}

#[test]
fn a_guarded_write_beyond_the_end_zero_fills() {
    let mut f = Stream::new(b"ab".to_vec());
    assert_eq!(Ok(4), f.seek(4));
    let r = guarded_call(&mut f, Operation::WriteAll(b"cd".to_vec()));
    assert!(matches!(r, Ok(Output::Written)));
    assert_eq!(4, f.position());
    assert_eq!(6, f.len());
    assert_eq!(Ok(0), f.seek(0));
    assert_eq!(Ok(b"ab\0\0cd".to_vec()), f.read_exact(6));
}

#[test]
fn a_guarded_write_with_a_failing_restore_surfaces_it() {
    let mut f = Stream::with_seek_budget(b"abc".to_vec(), 1);
    let r = guarded_call(&mut f, Operation::WriteAll(b"xy".to_vec()));
    assert_eq!(
        r,
        Err(GuardError::RestorationFailed(StreamError::NotSeekable))
    );
    // The position stays where the write left it.
    assert_eq!(2, f.position());
}

#[test]
fn resolve_prefers_the_operation_error() {
    let operation: Result<u8, StreamError> = Err(StreamError::UnexpectedEof);
    let restoration: Result<u64, StreamError> = Err(StreamError::NotSeekable);
    assert_eq!(
        resolve(operation, restoration),
        Err(GuardError::OperationFailed {
            operation: StreamError::UnexpectedEof,
            restoration: Some(StreamError::NotSeekable),
        })
    );
}

#[test]
fn resolve_surfaces_a_lone_restoration_failure() {
    let operation: Result<u8, StreamError> = Ok(7);
    let restoration: Result<u64, StreamError> = Err(StreamError::NotSeekable);
    assert_eq!(
        resolve(operation, restoration),
        Err(GuardError::RestorationFailed(StreamError::NotSeekable))
    );
}

#[test]
fn resolve_passes_success_through() {
    let operation: Result<u8, StreamError> = Ok(7);
    let restoration: Result<u64, StreamError> = Ok(0);
    assert_eq!(resolve(operation, restoration), Ok(7));
}

#[test]
fn resolve_keeps_the_operation_error_alone_when_restoration_worked() {
    let operation: Result<u8, StreamError> = Err(StreamError::UnexpectedEof);
    let restoration: Result<u64, StreamError> = Ok(0);
    assert_eq!(
        resolve(operation, restoration),
        Err(GuardError::OperationFailed {
            operation: StreamError::UnexpectedEof,
            restoration: None,
        })
    );
}
