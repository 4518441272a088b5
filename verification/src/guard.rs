//! The scoped offset guard: record the current position, run an operation
//! that may move it, then unconditionally attempt to seek back — on every
//! exit path — and resolve the two outcomes into one result.

use vstd::prelude::*;

use crate::stream::Stream;
use crate::stream::StreamError;
use crate::stream::StreamModel;
use crate::stream::after_seek;
use crate::stream::read_failed_pos;
use crate::stream::read_in_bounds;
use crate::stream::read_value;
use crate::stream::seek_allowed;
use crate::stream::spend_seek;
use crate::stream::write_result;

verus! {

/// Error returned by a guarded call.
#[derive(Clone, Copy, Debug, PartialEq, Eq)]
pub enum GuardError {
    /// The initial position query failed. Nothing was moved, so the
    /// operation was never attempted and no restoration was needed.
    PositionQueryFailed,
    /// The operation itself failed; its error takes priority. The
    /// restoration seek still ran, and if it failed too, that failure is
    /// carried alongside rather than discarded.
    OperationFailed { operation: StreamError, restoration: Option<StreamError> },
    /// The operation succeeded but the position could not be restored: the
    /// stream is left wherever the operation moved it, and the caller must
    /// be told before it reads or writes at the wrong place.
    RestorationFailed(StreamError),
}

/// An operation the guard can run while it holds the saved position.
#[derive(Clone, Debug, PartialEq, Eq)]
pub enum Operation {
    /// Read exactly this many bytes at the current position.
    ReadExact(usize),
    /// Write these bytes at the current position.
    WriteAll(Vec<u8>),
}

/// The mathematical image of an operation.
pub enum OperationModel {
    ReadExact(int),
    WriteAll(Seq<u8>),
}

impl View for Operation {
    type V = OperationModel;

    open spec fn view(&self) -> OperationModel {
        match self {
            Operation::ReadExact(n) => OperationModel::ReadExact(*n as int),
            Operation::WriteAll(bytes) => OperationModel::WriteAll(bytes@),
        }
    }
}

/// What a successful operation yields: the bytes a read returned, or the
/// fact that a write went through.
#[derive(Clone, Debug, PartialEq, Eq)]
pub enum Output {
    Bytes(Vec<u8>),
    Written,
}

/// The mathematical image of an output.
pub enum OutputModel {
    Bytes(Seq<u8>),
    Written,
}

impl View for Output {
    type V = OutputModel;

    open spec fn view(&self) -> OutputModel {
        match self {
            Output::Bytes(v) => OutputModel::Bytes(v@),
            Output::Written => OutputModel::Written,
        }
    }
}

/// Whether the raw operation succeeds in state `m`: an exact read needs the
/// bytes to remain; a write to this in-memory stream always goes through.
pub open spec fn op_succeeds(m: StreamModel, op: OperationModel) -> bool {
    match op {
        OperationModel::ReadExact(n) => read_in_bounds(m, n),
        OperationModel::WriteAll(_) => true,
    }
}

/// What the raw operation yields when it succeeds in state `m`.
pub open spec fn op_output(m: StreamModel, op: OperationModel) -> OutputModel {
    match op {
        OperationModel::ReadExact(n) => OutputModel::Bytes(read_value(m, n)),
        OperationModel::WriteAll(_) => OutputModel::Written,
    }
}

/// The state the raw operation leaves behind when it succeeds in state `m`.
pub open spec fn op_ok_state(m: StreamModel, op: OperationModel) -> StreamModel {
    match op {
        OperationModel::ReadExact(n) => StreamModel { pos: m.pos + n, ..m },
        OperationModel::WriteAll(bytes) => StreamModel {
            data: write_result(m, bytes),
            pos: m.pos + bytes.len(),
            ..m
        },
    }
}

/// The state the raw operation leaves behind when it fails in state `m`:
/// only a read can fail, and it consumes the bytes that remained.
pub open spec fn op_err_state(m: StreamModel, op: OperationModel) -> StreamModel {
    match op {
        OperationModel::ReadExact(_) => StreamModel { pos: read_failed_pos(m), ..m },
        OperationModel::WriteAll(_) => m,
    }
}

/// What one guarded call of `op` does to the mathematical stream state `m`:
/// the result of the call, paired with the state left behind. The position
/// is queried (one seek), the operation runs, and the restoring seek is
/// attempted on both exits of the operation; the operation's error takes
/// priority over a restoration failure.
pub open spec fn guarded_step(m: StreamModel, op: OperationModel) -> (
    Result<OutputModel, GuardError>,
    StreamModel,
) {
    if !seek_allowed(m) {
        (Err(GuardError::PositionQueryFailed), m)
    } else {
        let saved = m.pos;
        let queried = spend_seek(m);
        if op_succeeds(queried, op) {
            let done = op_ok_state(queried, op);
            if seek_allowed(done) {
                (Ok(op_output(queried, op)), after_seek(done, saved))
            } else {
                (Err(GuardError::RestorationFailed(StreamError::NotSeekable)), done)
            }
        } else {
            let failed = op_err_state(queried, op);
            if seek_allowed(failed) {
                (
                    Err(
                        GuardError::OperationFailed {
                            operation: StreamError::UnexpectedEof,
                            restoration: None,
                        },
                    ),
                    after_seek(failed, saved),
                )
            } else {
                (
                    Err(
                        GuardError::OperationFailed {
                            operation: StreamError::UnexpectedEof,
                            restoration: Some(StreamError::NotSeekable),
                        },
                    ),
                    failed,
                )
            }
        }
    }
}

/// The exec result of a guarded call, lifted to the model's result type.
pub open spec fn out_view(r: Result<Output, GuardError>) -> Result<OutputModel, GuardError> {
    match r {
        Ok(out) => Ok(out@),
        Err(e) => Err(e),
    }
}

/// Resolves the operation's outcome against the restoration seek's outcome.
/// The operation's error takes priority; a restoration failure after a
/// successful operation surfaces as `RestorationFailed`; a restoration
/// failure after a failed operation is carried inside `OperationFailed`.
pub fn resolve<T>(operation: Result<T, StreamError>, restoration: Result<u64, StreamError>) -> (r:
    Result<T, GuardError>)
    ensures
        operation matches Ok(v) ==> ({
            &&& restoration is Ok ==> r == Ok::<T, GuardError>(v)
            &&& restoration matches Err(e) ==> r == Err::<T, GuardError>(
                GuardError::RestorationFailed(e),
            )
        }),
        operation matches Err(e) ==> r == Err::<T, GuardError>(
            (GuardError::OperationFailed {
                operation: e,
                restoration: match restoration {
                    Ok(_) => None,
                    Err(e2) => Some(e2),
                },
            }),
        ),
{
    match operation {
        Ok(v) => match restoration {
            Ok(_) => Ok(v),
            Err(e) => Err(GuardError::RestorationFailed(e)),
        },
        Err(e) => Err(
            GuardError::OperationFailed {
                operation: e,
                restoration: match restoration {
                    Ok(_) => None,
                    Err(e2) => Some(e2),
                },
            },
        ),
    }
}

/// Runs `operation` on the stream without moving its position. The position
/// is recorded first; the operation runs; the stream is then sought back to
/// the recorded position whether the operation succeeded or not; and the
/// two outcomes resolve with the operation's error taking priority.
pub fn guarded_call(handle: &mut Stream, operation: Operation) -> (r: Result<Output, GuardError>)
    requires
        operation@ matches OperationModel::WriteAll(bytes) ==> old(handle)@.pos + bytes.len()
            <= usize::MAX,
    ensures
        out_view(r) == guarded_step(old(handle)@, operation@).0,
        final(handle)@ == guarded_step(old(handle)@, operation@).1,
        r is Ok ==> final(handle)@.pos == old(handle)@.pos,
        operation@ is ReadExact ==> final(handle)@.data == old(handle)@.data,
        !seek_allowed(old(handle)@) ==> ({
            &&& r == Err::<Output, GuardError>(GuardError::PositionQueryFailed)
            &&& final(handle)@ == old(handle)@
        }),
{
    let saved: u64 = match handle.stream_position() {
        Ok(p) => p,
        Err(_) => {
            return Err(GuardError::PositionQueryFailed);
        },
    };
    let outcome: Result<Output, StreamError> = match operation {
        Operation::ReadExact(n) => match handle.read_exact(n) {
            Ok(v) => Ok(Output::Bytes(v)),
            Err(e) => Err(e),
        },
        Operation::WriteAll(bytes) => match handle.write_all(&bytes) {
            Ok(_) => Ok(Output::Written),
            Err(e) => Err(e),
        },
    };
    let restoration = handle.seek(saved);
    resolve(outcome, restoration)
}

/// The exec result of a guarded peek, lifted to the model's result type.
pub open spec fn peek_view(r: Result<Vec<u8>, GuardError>) -> Result<OutputModel, GuardError> {
    match r {
        Ok(v) => Ok(OutputModel::Bytes(v@)),
        Err(e) => Err(e),
    }
}

/// Reads `n` bytes at the current position without moving it: the guarded
/// call with an exact read of `n`.
pub fn peek_exact(handle: &mut Stream, n: usize) -> (r: Result<Vec<u8>, GuardError>)
    ensures
        peek_view(r) == guarded_step(old(handle)@, OperationModel::ReadExact(n as int)).0,
        final(handle)@ == guarded_step(old(handle)@, OperationModel::ReadExact(n as int)).1,
        final(handle)@.data == old(handle)@.data,
        r matches Ok(v) ==> ({
            &&& v@ == old(handle)@.data.subrange(old(handle)@.pos, old(handle)@.pos + n)
            &&& final(handle)@.pos == old(handle)@.pos
        }),
        !seek_allowed(old(handle)@) ==> ({
            &&& r == Err::<Vec<u8>, GuardError>(GuardError::PositionQueryFailed)
            &&& final(handle)@ == old(handle)@
        }),
{
    match guarded_call(handle, Operation::ReadExact(n)) {
        Ok(out) => match out {
            Output::Bytes(v) => Ok(v),
            Output::Written => unreached(),
        },
        Err(e) => Err(e),
    }
}

/// Law: peeking is idempotent. On a handle whose seeks all succeed, with
/// `n` no larger than the bytes that remain, two guarded calls in a row
/// with the identical exact read both succeed with the same bytes, and
/// after each call the position is back where it stood before the first.
pub proof fn lemma_peek_idempotent(m: StreamModel, n: int)
    requires
        m.budget is None,
        0 <= m.pos,
        0 <= n,
        m.pos + n <= m.data.len(),
    ensures
        ({
            let (r1, m1) = guarded_step(m, OperationModel::ReadExact(n));
            let (r2, m2) = guarded_step(m1, OperationModel::ReadExact(n));
            &&& r1 == Ok::<OutputModel, GuardError>(
                OutputModel::Bytes(m.data.subrange(m.pos, m.pos + n)),
            )
            &&& r2 == r1
            &&& m1.data == m.data
            &&& m1.pos == m.pos
            &&& m2.data == m.data
            &&& m2.pos == m.pos
        }),
{
}

/// Law: restoration on failure. On a handle whose seeks all succeed, when
/// the read asks for more bytes than remain, the guarded call returns the
/// operation's own error — not a restoration error — and the position is
/// back where it stood before the call.
pub proof fn lemma_restored_on_operation_failure(m: StreamModel, n: int)
    requires
        m.budget is None,
        0 <= m.pos,
        0 <= n,
        m.pos + n > m.data.len(),
    ensures
        guarded_step(m, OperationModel::ReadExact(n)).0 == Err::<OutputModel, GuardError>(
            (GuardError::OperationFailed {
                operation: StreamError::UnexpectedEof,
                restoration: None,
            }),
        ),
        guarded_step(m, OperationModel::ReadExact(n)).1.data == m.data,
        guarded_step(m, OperationModel::ReadExact(n)).1.pos == m.pos,
{
}

/// Law: a failed position query is a no-op. On a handle that cannot seek,
/// the guarded call returns `PositionQueryFailed` and leaves the stream
/// exactly as it was: no operation was attempted and nothing moved.
pub proof fn lemma_query_failure_is_noop(m: StreamModel, op: OperationModel)
    requires
        !seek_allowed(m),
    ensures
        guarded_step(m, op).0 == Err::<OutputModel, GuardError>(GuardError::PositionQueryFailed),
        guarded_step(m, op).1 == m,
{
}

/// Law: a restoration failure after a successful operation surfaces. On a
/// handle whose position query succeeds but whose restoring seek fails,
/// with `n` no larger than the bytes that remain, the guarded call returns
/// `RestorationFailed` — never a success value — and the position stays
/// where the operation left it.
pub proof fn lemma_restoration_failure_surfaces(m: StreamModel, n: int)
    requires
        m.budget == Some(1int),
        0 <= m.pos,
        0 <= n,
        m.pos + n <= m.data.len(),
    ensures
        guarded_step(m, OperationModel::ReadExact(n)).0 == Err::<OutputModel, GuardError>(
            GuardError::RestorationFailed(StreamError::NotSeekable),
        ),
        guarded_step(m, OperationModel::ReadExact(n)).1.data == m.data,
        guarded_step(m, OperationModel::ReadExact(n)).1.pos == m.pos + n,
{
}

} // verus!
