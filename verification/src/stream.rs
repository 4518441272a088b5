//! An in-memory seekable byte stream, with injectable seek faults so that
//! callers can exercise a handle that cannot, or can no longer, reposition.

use vstd::prelude::*;

verus! {

/// Error returned by the stream's own operations.
#[derive(Clone, Copy, Debug, PartialEq, Eq)]
pub enum StreamError {
    /// A seek was refused: the handle cannot (or can no longer) reposition.
    NotSeekable,
    /// An exact read asked for more bytes than remain before the end.
    UnexpectedEof,
}

/// The mathematical state of a stream: its contents, the position at which
/// the next read occurs, and how many more seeks will succeed (`None`: every
/// seek succeeds).
#[verifier::ext_equal]
pub struct StreamModel {
    pub data: Seq<u8>,
    pub pos: int,
    pub budget: Option<int>,
}

/// Whether a seek issued in state `m` succeeds.
pub open spec fn seek_allowed(m: StreamModel) -> bool {
    match m.budget {
        Some(k) => k > 0,
        None => true,
    }
}

/// The state after one successful seek attempt: one unit of budget is spent,
/// position aside.
pub open spec fn spend_seek(m: StreamModel) -> StreamModel {
    StreamModel {
        budget: match m.budget {
            Some(k) => Some(k - 1),
            None => None,
        },
        ..m
    }
}

/// The state after a successful seek to `target`.
pub open spec fn after_seek(m: StreamModel, target: int) -> StreamModel {
    StreamModel { pos: target, ..spend_seek(m) }
}

/// Whether an exact read of `n` bytes lies within the data.
pub open spec fn read_in_bounds(m: StreamModel, n: int) -> bool {
    m.pos + n <= m.data.len()
}

/// The bytes an exact read of `n` bytes returns when it is in bounds.
pub open spec fn read_value(m: StreamModel, n: int) -> Seq<u8> {
    m.data.subrange(m.pos, m.pos + n)
}

/// The position a failed exact read leaves behind: the bytes that remained
/// are consumed, so the position lands at the end of the data (or stays,
/// when it already lay beyond it).
pub open spec fn read_failed_pos(m: StreamModel) -> int {
    if m.pos < m.data.len() {
        m.data.len() as int
    } else {
        m.pos
    }
}

/// The data once the position has been padded out with zeroes: the data
/// itself when the position lies inside it, otherwise the data followed by
/// zeroes up to the position.
pub open spec fn zero_filled(m: StreamModel) -> Seq<u8> {
    if m.pos <= m.data.len() {
        m.data
    } else {
        m.data + Seq::new((m.pos - m.data.len()) as nat, |j: int| 0u8)
    }
}

/// The data after `bytes` are written at the position: a gap beyond the end
/// fills with zeroes, the written span replaces what was there, and whatever
/// lies past the span is kept.
pub open spec fn write_result(m: StreamModel, bytes: Seq<u8>) -> Seq<u8> {
    let filled = zero_filled(m);
    let end = m.pos + bytes.len();
    if end < filled.len() {
        filled.subrange(0, m.pos) + bytes + filled.subrange(end, filled.len() as int)
    } else {
        filled.subrange(0, m.pos) + bytes
    }
}

/// A seekable, readable byte stream held in memory.
pub struct Stream {
    data: Vec<u8>,
    pos: u64,
    seek_budget: Option<u64>,
}

impl View for Stream {
    type V = StreamModel;

    closed spec fn view(&self) -> StreamModel {
        StreamModel {
            data: self.data@,
            pos: self.pos as int,
            budget: match self.seek_budget {
                Some(k) => Some(k as int),
                None => None,
            },
        }
    }
}

impl Stream {
    /// A stream over `data`, at position zero, whose seeks always succeed.
    pub fn new(data: Vec<u8>) -> (s: Stream)
        ensures
            s@.data == data@,
            s@.pos == 0,
            s@.budget is None,
    {
        Stream { data, pos: 0, seek_budget: None }
    }

    /// A stream over `data`, at position zero, whose next `budget` seeks
    /// succeed and whose later seeks all fail. A budget of zero makes a
    /// handle that cannot seek at all.
    pub fn with_seek_budget(data: Vec<u8>, budget: u64) -> (s: Stream)
        ensures
            s@.data == data@,
            s@.pos == 0,
            s@.budget == Some(budget as int),
    {
        Stream { data, pos: 0, seek_budget: Some(budget) }
    }

    /// The position at which the next read occurs. This is the model's own
    /// observer: unlike `stream_position` it is not a seek and cannot fail.
    pub fn position(&self) -> (p: u64)
        ensures
            p as int == self@.pos,
    {
        self.pos
    }

    /// The number of bytes the stream holds.
    pub fn len(&self) -> (n: usize)
        ensures
            n as int == self@.data.len(),
    {
        self.data.len()
    }

    /// Reports the current position, the way a zero-offset relative seek
    /// would: it spends one seek, fails once the budget is exhausted, and
    /// never moves the position.
    pub fn stream_position(&mut self) -> (r: Result<u64, StreamError>)
        ensures
            final(self)@.data == old(self)@.data,
            final(self)@.pos == old(self)@.pos,
            seek_allowed(old(self)@) ==> ({
                &&& r matches Ok(p) && p as int == old(self)@.pos
                &&& final(self)@ == spend_seek(old(self)@)
            }),
            !seek_allowed(old(self)@) ==> ({
                &&& r == Err::<u64, StreamError>(StreamError::NotSeekable)
                &&& final(self)@ == old(self)@
            }),
    {
        match self.seek_budget {
            Some(0) => Err(StreamError::NotSeekable),
            Some(k) => {
                self.seek_budget = Some(k - 1);
                Ok(self.pos)
            }
            None => Ok(self.pos),
        }
    }

    /// Seeks to the absolute position `target` and returns the position the
    /// stream ends at. A refused seek leaves the position unchanged.
    pub fn seek(&mut self, target: u64) -> (r: Result<u64, StreamError>)
        ensures
            final(self)@.data == old(self)@.data,
            seek_allowed(old(self)@) ==> ({
                &&& r == Ok::<u64, StreamError>(target)
                &&& final(self)@ == after_seek(old(self)@, target as int)
            }),
            !seek_allowed(old(self)@) ==> ({
                &&& r == Err::<u64, StreamError>(StreamError::NotSeekable)
                &&& final(self)@ == old(self)@
            }),
    {
        match self.seek_budget {
            Some(0) => Err(StreamError::NotSeekable),
            Some(k) => {
                self.seek_budget = Some(k - 1);
                self.pos = target;
                Ok(target)
            }
            None => {
                self.pos = target;
                Ok(target)
            }
        }
    }

    /// Reads exactly `n` bytes from the current position, advancing it by
    /// `n`. When fewer than `n` bytes remain, the read fails with
    /// `UnexpectedEof` and the bytes that remained are consumed: the
    /// position lands at the end of the data.
    pub fn read_exact(&mut self, n: usize) -> (r: Result<Vec<u8>, StreamError>)
        ensures
            final(self)@.data == old(self)@.data,
            final(self)@.budget == old(self)@.budget,
            read_in_bounds(old(self)@, n as int) ==> ({
                &&& r matches Ok(v) && v@ == read_value(old(self)@, n as int)
                &&& final(self)@.pos == old(self)@.pos + n
            }),
            !read_in_bounds(old(self)@, n as int) ==> ({
                &&& r == Err::<Vec<u8>, StreamError>(StreamError::UnexpectedEof)
                &&& final(self)@.pos == read_failed_pos(old(self)@)
            }),
    {
        let len: usize = self.data.len();
        if self.pos <= len as u64 {
            let start: usize = self.pos as usize;
            if n <= len - start {
                let mut out: Vec<u8> = Vec::new();
                let mut i: usize = 0;
                assert(out@ =~= self.data@.subrange(start as int, start as int));
                while i < n
                    invariant
                        i <= n,
                        len == self.data@.len(),
                        start + n <= len,
                        out@ == self.data@.subrange(start as int, start as int + i as int),
                    decreases n - i,
                {
                    let b: u8 = self.data[start + i];
                    out.push(b);
                    proof {
                        assert(out@ =~= self.data@.subrange(
                            start as int,
                            start as int + (i + 1) as int,
                        ));
                    }
                    i = i + 1;
                }
                self.pos = self.pos + n as u64;
                Ok(out)
            } else {
                self.pos = len as u64;
                Err(StreamError::UnexpectedEof)
            }
        } else {
            Err(StreamError::UnexpectedEof)
        }
    }

    /// Writes every byte of `bytes` at the current position, advancing the
    /// position past them. Writing beyond the end grows the data and fills
    /// the gap with zeroes; in this in-memory model the write itself cannot
    /// fail.
    pub fn write_all(&mut self, bytes: &Vec<u8>) -> (r: Result<(), StreamError>)
        requires
            old(self)@.pos + bytes@.len() <= usize::MAX,
        ensures
            r == Ok::<(), StreamError>(()),
            final(self)@.budget == old(self)@.budget,
            final(self)@.data == write_result(old(self)@, bytes@),
            final(self)@.pos == old(self)@.pos + bytes@.len(),
    {
        let ghost m0 = self@;
        let len: usize = self.data.len();
        let keep: usize = if self.pos <= len as u64 {
            self.pos as usize
        } else {
            len
        };
        let mut result: Vec<u8> = Vec::new();

        // The data up to the position (all of it, when the position lies
        // beyond the end).
        let mut i: usize = 0;
        while i < keep
            invariant
                i <= keep,
                keep <= self.data@.len(),
                result@ == self.data@.subrange(0, i as int),
            decreases keep - i,
        {
            let b: u8 = self.data[i];
            result.push(b);
            proof {
                assert(result@ =~= self.data@.subrange(0, i + 1));
            }
            i = i + 1;
        }

        // Zeroes for any gap between the end of the data and the position.
        while (result.len() as u64) < self.pos
            invariant
                keep == (if m0.pos <= m0.data.len() {
                    m0.pos
                } else {
                    m0.data.len() as int
                }),
                self@ == m0,
                keep <= result@.len(),
                m0.pos <= m0.data.len() ==> result@.len() == keep,
                m0.pos > m0.data.len() ==> result@.len() <= m0.pos,
                result@ == m0.data.subrange(0, keep as int) + Seq::new(
                    (result@.len() - keep) as nat,
                    |j: int| 0u8,
                ),
            decreases m0.pos - result@.len(),
        {
            result.push(0u8);
            proof {
                assert(result@ =~= m0.data.subrange(0, keep as int) + Seq::new(
                    (result@.len() - keep) as nat,
                    |j: int| 0u8,
                ));
            }
        }
        proof {
            assert(result@ =~= zero_filled(m0).subrange(0, m0.pos));
        }

        // The bytes themselves.
        let ghost head = result@;
        let mut j: usize = 0;
        while j < bytes.len()
            invariant
                j <= bytes@.len(),
                result@ == head + bytes@.subrange(0, j as int),
            decreases bytes@.len() - j,
        {
            let b: u8 = bytes[j];
            result.push(b);
            proof {
                assert(result@ =~= head + bytes@.subrange(0, j + 1));
            }
            j = j + 1;
        }
        proof {
            assert(result@ =~= zero_filled(m0).subrange(0, m0.pos) + bytes@);
        }

        // Whatever lay past the written span.
        if self.pos <= len as u64 {
            let start: usize = self.pos as usize;
            if bytes.len() < len - start {
                let ghost body = result@;
                let from: usize = start + bytes.len();
                let mut k: usize = from;
                while k < len
                    invariant
                        from <= k <= len,
                        len == self.data@.len(),
                        result@ == body + self.data@.subrange(from as int, k as int),
                    decreases len - k,
                {
                    let b: u8 = self.data[k];
                    result.push(b);
                    proof {
                        assert(result@ =~= body + self.data@.subrange(from as int, k + 1));
                    }
                    k = k + 1;
                }
            }
        }
        proof {
            assert(result@ =~= write_result(m0, bytes@));
        }

        self.data = result;
        self.pos = self.pos + bytes.len() as u64;
        Ok(())
    }
}

} // verus!
