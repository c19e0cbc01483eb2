use vstd::prelude::*;
use crate::error::SyscallError;

verus! {

/// The most bytes one step of a plain read or write moves.
pub const LINEAR_IO_CHUNK_SIZE: usize = 64 * 1024;
/// The most bytes one step of `copy_file_range` moves.
pub const COPY_CHUNK_SIZE: usize = 16 * 1024;

/// `a` or `b`, whichever is smaller.
pub open spec fn min_usize(a: usize, b: usize) -> usize {
    if a < b {
        a
    } else {
        b
    }
}

/// A read or write of `len` bytes done in chunks of at most `chunk_max` bytes. The caller
/// moves each chunk (to or from user memory at offset `total`) and reports how many bytes
/// moved; a short or empty transfer ends the whole one.
#[derive(Clone, Copy, Debug, PartialEq, Eq, Structural)]
pub struct LinearTransfer {
    pub len: usize,
    pub chunk_max: usize,
    pub total: usize,
    pub done: bool,
}

impl LinearTransfer {
    pub open spec fn wf(self) -> bool {
        &&& self.chunk_max > 0
        &&& self.total <= self.len
        &&& (self.total == self.len ==> self.done)
    }

    /// The next chunk's length, until the transfer is done.
    pub open spec fn chunk_spec(self) -> Option<usize> {
        if self.done {
            None
        } else {
            Some(min_usize((self.len - self.total) as usize, self.chunk_max))
        }
    }

    /// A transfer of `len` bytes in chunks of `chunk_max`.
    pub fn start(len: usize, chunk_max: usize) -> (r: LinearTransfer)
        requires
            chunk_max > 0,
        ensures
            r.wf(),
            r == (LinearTransfer { len, chunk_max, total: 0, done: len == 0 }),
    {
        LinearTransfer { len, chunk_max, total: 0, done: len == 0 }
    }

    /// The next chunk's length, until the transfer is done.
    pub fn next_chunk(&self) -> (r: Option<usize>)
        requires
            self.wf(),
        ensures
            r == self.chunk_spec(),
            r matches Some(c) ==> 0 < c <= self.chunk_max && self.total + c <= self.len,
    {
        if self.done {
            None
        } else {
            let rest = self.len - self.total;
            Some(
                if rest < self.chunk_max {
                    rest
                } else {
                    self.chunk_max
                },
            )
        }
    }

    /// A read of a `chunk`-byte chunk gave `read` bytes: none or fewer than asked ends it.
    pub fn record_read(&mut self, chunk: usize, read: usize)
        requires
            old(self).wf(),
            old(self).chunk_spec() == Some(chunk),
            read <= chunk,
        ensures
            final(self).wf(),
            final(self).len == old(self).len,
            final(self).chunk_max == old(self).chunk_max,
            final(self).total == old(self).total + read,
            final(self).done == (read == 0 || read < chunk || old(self).total + read == old(self).len),
    {
        self.total = self.total + read;
        if read == 0 || read < chunk || self.total == self.len {
            self.done = true;
        }
    }

    /// A write of a `chunk`-byte chunk took `written` bytes: none is `NoSpaceLeft` (and the
    /// transfer stays as it was), fewer than offered ends it.
    pub fn record_write(&mut self, chunk: usize, written: usize) -> (r: Result<(), SyscallError>)
        requires
            old(self).wf(),
            old(self).chunk_spec() == Some(chunk),
            written <= chunk,
        ensures
            final(self).wf(),
            written == 0 ==> r == Err::<(), SyscallError>(SyscallError::NoSpaceLeft) && *final(self)
                == *old(self),
            written > 0 ==> {
                &&& r is Ok
                &&& *final(self) == (LinearTransfer {
                    total: (old(self).total + written) as usize,
                    done: written < chunk || old(self).total + written == old(self).len,
                    ..*old(self)
                })
            },
    {
        if written == 0 {
            return Err(SyscallError::NoSpaceLeft);
        }
        self.total = self.total + written;
        if written < chunk || self.total == self.len {
            self.done = true;
        }
        Ok(())
    }
}

/// The scratch buffer a plain read uses: the thread's buffer, grown to the smaller of the
/// request and one chunk where it is shorter.
pub fn read_scratch_len(len: usize, buffer_len: usize) -> (r: usize)
    ensures
        r == if buffer_len < min_usize(len, LINEAR_IO_CHUNK_SIZE) {
            min_usize(len, LINEAR_IO_CHUNK_SIZE)
        } else {
            buffer_len
        },
{
    let scratch = if len < LINEAR_IO_CHUNK_SIZE {
        len
    } else {
        LINEAR_IO_CHUNK_SIZE
    };
    if buffer_len < scratch {
        scratch
    } else {
        buffer_len
    }
}

/// Every chunk a transfer hands out lies within the request, and the bytes it counts never
/// pass the request's length.
pub proof fn lemma_linear_transfer_bounded(t: LinearTransfer)
    requires
        t.wf(),
    ensures
        t.chunk_spec() matches Some(c) ==> c > 0 && t.total + c <= t.len,
        t.total <= t.len,
{
}

/// What `copy_file_range` and friends do next.
#[derive(Clone, Copy, Debug, PartialEq, Eq, Structural)]
pub enum CopyAction {
    /// Read up to this many bytes into the scratch buffer (at the input offset, if one was
    /// given).
    Read(usize),
    /// Write the scratch buffer's bytes `start..end` (at the output offset, if one was given).
    Write { start: usize, end: usize },
    /// The copy is over; this many bytes were copied.
    Finished(usize),
}

/// A copy of up to `remaining` bytes between two objects through a scratch buffer of
/// `COPY_CHUNK_SIZE` bytes: read a chunk, write all of it (in as many writes as it takes),
/// repeat until a short or empty read or nothing remains.
#[derive(Clone, Copy, Debug, PartialEq, Eq, Structural)]
pub struct CopyTransfer {
    pub remaining: usize,
    pub total: usize,
    /// The chunk being written out: its length as asked, how much was read and how much of
    /// that was written.
    pub chunk: usize,
    pub read: usize,
    pub written: usize,
    pub writing: bool,
    pub done: bool,
}

/// An offset moved on by `n` bytes, or `ValueTooLarge` past `i64::MAX`.
pub open spec fn advanced_offset(offset: i64, n: usize) -> Result<i64, SyscallError> {
    if offset + n > i64::MAX || offset + n < i64::MIN {
        Err(SyscallError::ValueTooLarge)
    } else {
        Ok((offset + n) as i64)
    }
}

/// An offset moved on by `n` bytes, or `ValueTooLarge` past `i64::MAX`.
pub fn advance_offset(offset: i64, n: usize) -> (r: Result<i64, SyscallError>)
    requires
        n <= i64::MAX,
    ensures
        r == advanced_offset(offset, n),
{
    match offset.checked_add(n as i64) {
        Some(v) => Ok(v),
        None => Err(SyscallError::ValueTooLarge),
    }
}

impl CopyTransfer {
    pub open spec fn wf(self) -> bool {
        &&& self.writing ==> 0 < self.read <= self.chunk <= self.remaining && self.written
            < self.read && self.chunk <= COPY_CHUNK_SIZE
        &&& self.total + self.remaining <= usize::MAX
    }

    pub open spec fn action_spec(self) -> CopyAction {
        if self.done || (!self.writing && self.remaining == 0) {
            CopyAction::Finished(self.total)
        } else if self.writing {
            CopyAction::Write { start: self.written, end: self.read }
        } else {
            CopyAction::Read(min_usize(self.remaining, COPY_CHUNK_SIZE))
        }
    }

    /// A copy of up to `remaining` bytes.
    pub fn start(remaining: usize) -> (r: CopyTransfer)
        ensures
            r.wf(),
            r == (CopyTransfer {
                remaining,
                total: 0,
                chunk: 0,
                read: 0,
                written: 0,
                writing: false,
                done: false,
            }),
    {
        CopyTransfer { remaining, total: 0, chunk: 0, read: 0, written: 0, writing: false, done: false }
    }

    /// What to do next.
    pub fn next_action(&self) -> (r: CopyAction)
        requires
            self.wf(),
        ensures
            r == self.action_spec(),
    {
        if self.done || (!self.writing && self.remaining == 0) {
            CopyAction::Finished(self.total)
        } else if self.writing {
            CopyAction::Write { start: self.written, end: self.read }
        } else {
            CopyAction::Read(
                if self.remaining < COPY_CHUNK_SIZE {
                    self.remaining
                } else {
                    COPY_CHUNK_SIZE
                },
            )
        }
    }

    /// A read asked for `chunk` bytes and gave `read`. With an input offset, the offset the
    /// read started at comes back moved on past what was read (or `ValueTooLarge`). An empty
    /// read finishes the copy.
    pub fn record_read(&mut self, chunk: usize, read: usize, input_offset: Option<i64>) -> (r: Result<
        Option<i64>,
        SyscallError,
    >)
        requires
            old(self).wf(),
            old(self).action_spec() == CopyAction::Read(chunk),
            read <= chunk,
        ensures
            final(self).wf(),
            read == 0 ==> r == Ok::<Option<i64>, SyscallError>(None) && *final(self) == (CopyTransfer {
                done: true,
                ..*old(self)
            }),
            read > 0 ==> match input_offset {
                Some(off) => match advanced_offset(off, read) {
                    Err(e) => r == Err::<Option<i64>, SyscallError>(e) && *final(self) == *old(self),
                    Ok(n) => r == Ok::<Option<i64>, SyscallError>(Some(n)) && *final(self) == (
                    CopyTransfer { chunk, read, written: 0, writing: true, ..*old(self) }),
                },
                None => r == Ok::<Option<i64>, SyscallError>(None) && *final(self) == (CopyTransfer {
                    chunk,
                    read,
                    written: 0,
                    writing: true,
                    ..*old(self)
                }),
            },
    {
        if read == 0 {
            self.done = true;
            return Ok(None);
        }
        let new_offset = match input_offset {
            Some(off) => Some(advance_offset(off, read)?),
            None => None,
        };
        self.chunk = chunk;
        self.read = read;
        self.written = 0;
        self.writing = true;
        Ok(new_offset)
    }

    /// A write took `count` bytes of the chunk. Nothing taken is `BrokenPipe`; with an output
    /// offset it comes back moved on (or `ValueTooLarge`). Once the whole chunk is written it
    /// counts, and a short read before it finishes the copy.
    pub fn record_write(&mut self, count: usize, output_offset: Option<i64>) -> (r: Result<
        Option<i64>,
        SyscallError,
    >)
        requires
            old(self).wf(),
            old(self).action_spec() is Write,
            count <= old(self).read - old(self).written,
        ensures
            final(self).wf(),
            r is Err ==> *final(self) == *old(self),
            count == 0 ==> r == Err::<Option<i64>, SyscallError>(SyscallError::BrokenPipe),
            count > 0 ==> match output_offset {
                Some(off) => match advanced_offset(off, count) {
                    Err(e) => r == Err::<Option<i64>, SyscallError>(e),
                    Ok(n) => r == Ok::<Option<i64>, SyscallError>(Some(n)),
                },
                None => r == Ok::<Option<i64>, SyscallError>(None),
            },
            r is Ok ==> {
                let w = (old(self).written + count) as usize;
                if w < old(self).read {
                    *final(self) == CopyTransfer { written: w, ..*old(self) }
                } else {
                    *final(self) == CopyTransfer {
                        total: (old(self).total + old(self).read) as usize,
                        remaining: (old(self).remaining - old(self).read) as usize,
                        written: w,
                        writing: false,
                        done: old(self).read < old(self).chunk,
                        ..*old(self)
                    }
                }
            },
    {
        if count == 0 {
            return Err(SyscallError::BrokenPipe);
        }
        let new_offset = match output_offset {
            Some(off) => Some(advance_offset(off, count)?),
            None => None,
        };
        self.written = self.written + count;
        if self.written == self.read {
            self.total = self.total + self.read;
            self.remaining = self.remaining - self.read;
            self.writing = false;
            if self.read < self.chunk {
                self.done = true;
            }
        }
        Ok(new_offset)
    }
}

/// One user buffer of an iovec array.
#[derive(Clone, Copy, Debug, PartialEq, Eq, Structural)]
pub struct LinuxIovec {
    pub iov_base: u64,
    pub iov_len: usize,
}

/// The most iovecs a vectored read or write takes.
pub const LINUX_IOV_MAX: i32 = 1024;

/// The total length of an iovec array.
pub open spec fn iovecs_total(iovs: Seq<LinuxIovec>) -> nat
    decreases iovs.len(),
{
    if iovs.len() == 0 {
        0
    } else {
        iovecs_total(iovs.drop_last()) + iovs.last().iov_len as nat
    }
}

proof fn lemma_iovecs_total_prefix(iovs: Seq<LinuxIovec>, i: int)
    requires
        0 <= i <= iovs.len(),
    ensures
        iovecs_total(iovs.take(i)) <= iovecs_total(iovs),
    decreases iovs.len() - i,
{
    if i < iovs.len() {
        lemma_iovecs_total_prefix(iovs, i + 1);
        assert(iovs.take(i + 1).drop_last() =~= iovs.take(i));
    } else {
        assert(iovs.take(i) =~= iovs);
    }
}

/// The total length of an iovec array, which must stay below `isize::MAX`.
pub fn iovec_total_len(iovs: &[LinuxIovec]) -> (r: Result<usize, SyscallError>)
    ensures
        r == if iovecs_total(iovs@) > isize::MAX {
            Err::<usize, SyscallError>(SyscallError::InvalidArguments)
        } else {
            Ok(iovecs_total(iovs@) as usize)
        },
{
    let mut total: usize = 0;
    let mut i: usize = 0;
    while i < iovs.len()
        invariant
            i <= iovs.len(),
            total == iovecs_total(iovs@.take(i as int)),
            total <= isize::MAX,
        decreases iovs.len() - i,
    {
        assert(iovs@.take(i + 1).drop_last() =~= iovs@.take(i as int));
        let next = match total.checked_add(iovs[i].iov_len) {
            Some(n) => n,
            None => {
                proof {
                    lemma_iovecs_total_prefix(iovs@, i + 1);
                }
                return Err(SyscallError::InvalidArguments);
            },
        };
        if next as u64 > isize::MAX as u64 {
            proof {
                lemma_iovecs_total_prefix(iovs@, i + 1);
            }
            return Err(SyscallError::InvalidArguments);
        }
        total = next;
        i += 1;
    }
    assert(iovs@.take(iovs@.len() as int) =~= iovs@);
    Ok(total)
}

/// The count of a vectored read or write: between zero and `LINUX_IOV_MAX`, with an array
/// where it is not zero.
pub fn check_iovec_count(iov_is_null: bool, iovcnt: i32) -> (r: Result<(), SyscallError>)
    ensures
        r == if iovcnt < 0 || iovcnt > LINUX_IOV_MAX {
            Err::<(), SyscallError>(SyscallError::InvalidArguments)
        } else if iovcnt > 0 && iov_is_null {
            Err(SyscallError::BadAddress)
        } else {
            Ok(())
        },
{
    if iovcnt < 0 || iovcnt > LINUX_IOV_MAX {
        return Err(SyscallError::InvalidArguments);
    }
    if iovcnt > 0 && iov_is_null {
        return Err(SyscallError::BadAddress);
    }
    Ok(())
}

/// What a vectored transfer does next.
#[derive(Clone, Copy, Debug, PartialEq, Eq, Structural)]
pub enum IovecAction {
    /// Move `len` bytes between user memory at `addr` and the object, at position `at` of the
    /// whole transfer.
    Transfer { addr: u64, len: usize, at: usize },
    /// A buffer that holds bytes has no address.
    Fault,
    /// The transfer is over; this many bytes moved.
    Finished(usize),
}

/// A vectored read or write: buffer after buffer, in chunks of at most `chunk_max` bytes; a
/// short transfer ends it, buffers without bytes are skipped.
pub struct IovecTransfer {
    pub iovs: Vec<LinuxIovec>,
    pub chunk_max: usize,
    pub index: usize,
    pub in_iov: usize,
    pub total: usize,
    pub done: bool,
}

impl IovecTransfer {
    pub open spec fn wf(&self) -> bool {
        &&& self.chunk_max > 0
        &&& self.index <= self.iovs@.len()
        &&& self.index < self.iovs@.len() ==> self.in_iov < self.iovs@[self.index as int].iov_len
            || (self.in_iov == 0)
        &&& self.total + iovecs_total(self.iovs@.skip(self.index as int)) - self.in_iov <= isize::MAX
        &&& self.index == self.iovs@.len() ==> self.in_iov == 0
    }

    /// A transfer over `iovs`, in chunks of at most `chunk_max` bytes, or the error the total
    /// length gives.
    pub fn start(iovs: Vec<LinuxIovec>, chunk_max: usize) -> (r: Result<IovecTransfer, SyscallError>)
        requires
            chunk_max > 0,
        ensures
            match r {
                Ok(t) => t.wf() && t.iovs@ == iovs@ && t.index == 0 && t.in_iov == 0 && t.total
                    == 0 && t.chunk_max == chunk_max && t.done == (iovecs_total(iovs@) == 0)
                    && iovecs_total(iovs@) <= isize::MAX,
                Err(e) => iovecs_total(iovs@) > isize::MAX && e == SyscallError::InvalidArguments,
            },
    {
        let total_len = iovec_total_len(iovs.as_slice())?;
        assert(iovs@.skip(0) =~= iovs@);
        Ok(IovecTransfer { iovs, chunk_max, index: 0, in_iov: 0, total: 0, done: total_len == 0 })
    }
}

proof fn lemma_skip_total(iovs: Seq<LinuxIovec>, i: int)
    requires
        0 <= i < iovs.len(),
    ensures
        iovecs_total(iovs.skip(i)) == iovs[i].iov_len + iovecs_total(iovs.skip(i + 1)),
    decreases iovs.len() - i,
{
    if i + 1 < iovs.len() {
        lemma_skip_total(iovs, i + 1);
        assert(iovs.skip(i).drop_last() =~= iovs.drop_last().skip(i));
        assert(iovs.skip(i + 1).drop_last() =~= iovs.drop_last().skip(i + 1));
        lemma_skip_total(iovs.drop_last(), i);
    } else {
        assert(iovs.skip(i + 1) =~= Seq::<LinuxIovec>::empty());
        assert(iovs.skip(i).drop_last() =~= Seq::<LinuxIovec>::empty());
    }
}

impl IovecTransfer {
    /// Skips buffers without bytes and says what to move next.
    pub fn next_action(&mut self) -> (r: IovecAction)
        requires
            old(self).wf(),
        ensures
            final(self).wf(),
            final(self).iovs@ == old(self).iovs@,
            final(self).total == old(self).total,
            final(self).chunk_max == old(self).chunk_max,
            final(self).done == old(self).done,
            old(self).done ==> r == IovecAction::Finished(old(self).total),
            match r {
                IovecAction::Transfer { addr, len, at } => {
                    &&& !old(self).done
                    &&& final(self).index < final(self).iovs@.len()
                    &&& ({
                        let iov = final(self).iovs@[final(self).index as int];
                        &&& iov.iov_base != 0
                        &&& addr == iov.iov_base.wrapping_add(final(self).in_iov as u64)
                        &&& len == min_usize((iov.iov_len - final(self).in_iov) as usize, final(self).chunk_max)
                        &&& 0 < len
                    })
                    &&& at == final(self).total
                    &&& forall|j: int| old(self).index <= j < final(self).index ==> (#[trigger] final(self).iovs@[j]).iov_len == 0 || j == old(self).index
                },
                IovecAction::Fault => !old(self).done && final(self).index < final(self).iovs@.len()
                    && final(self).iovs@[final(self).index as int].iov_len > 0
                    && final(self).iovs@[final(self).index as int].iov_base == 0,
                IovecAction::Finished(n) => n == old(self).total && (old(self).done || final(self).index == final(self).iovs@.len()),
            },
    {
        if self.done {
            return IovecAction::Finished(self.total);
        }
        while self.index < self.iovs.len() && self.iovs[self.index].iov_len == 0
            invariant
                self.wf(),
                self.iovs@ == old(self).iovs@,
                self.total == old(self).total,
                self.chunk_max == old(self).chunk_max,
                self.done == old(self).done,
                !self.done,
                old(self).index <= self.index,
                forall|j: int| old(self).index <= j < self.index ==> (#[trigger] self.iovs@[j]).iov_len == 0 || j == old(self).index,
            decreases self.iovs.len() - self.index,
        {
            proof {
                lemma_skip_total(self.iovs@, self.index as int);
            }
            self.index = self.index + 1;
            self.in_iov = 0;
        }
        if self.index >= self.iovs.len() {
            return IovecAction::Finished(self.total);
        }
        let iov = self.iovs[self.index];
        if iov.iov_base == 0 {
            return IovecAction::Fault;
        }
        let rest = iov.iov_len - self.in_iov;
        let len = if rest < self.chunk_max {
            rest
        } else {
            self.chunk_max
        };
        proof {
            lemma_skip_total(self.iovs@, self.index as int);
        }
        IovecAction::Transfer { addr: iov.iov_base.wrapping_add(self.in_iov as u64), len, at: self.total }
    }
}


impl IovecTransfer {
    /// Whether `len` is the chunk the last `next_action` handed out.
    pub open spec fn current_chunk(&self, len: usize) -> bool {
        &&& !self.done
        &&& self.index < self.iovs@.len()
        &&& len == min_usize(
            (self.iovs@[self.index as int].iov_len - self.in_iov) as usize,
            self.chunk_max,
        )
        &&& len > 0
    }

    /// The transfer after `n` bytes of the current chunk moved: counted, and past the buffer
    /// once it is full.
    pub open spec fn advanced(&self, n: usize) -> (usize, usize, usize) {
        let in_iov = self.in_iov + n;
        if in_iov == self.iovs@[self.index as int].iov_len {
            ((self.index + 1) as usize, 0usize, (self.total + n) as usize)
        } else {
            (self.index, in_iov as usize, (self.total + n) as usize)
        }
    }

    fn advance(&mut self, len: usize, n: usize)
        requires
            old(self).wf(),
            old(self).current_chunk(len),
            0 < n <= len,
        ensures
            final(self).wf(),
            final(self).iovs@ == old(self).iovs@,
            final(self).chunk_max == old(self).chunk_max,
            final(self).done == old(self).done,
            (final(self).index, final(self).in_iov, final(self).total) == old(self).advanced(n),
    {
        proof {
            lemma_skip_total(self.iovs@, self.index as int);
        }
        let idx = self.index;
        let count = self.iovs.len();
        assert(idx < count);
        self.total = self.total + n;
        self.in_iov = self.in_iov + n;
        if self.in_iov == self.iovs[idx].iov_len {
            self.index = idx + 1;
            self.in_iov = 0;
        }
    }

    /// A read into the current chunk gave `read` bytes: none or fewer than asked ends the
    /// transfer.
    pub fn record_read(&mut self, len: usize, read: usize)
        requires
            old(self).wf(),
            old(self).current_chunk(len),
            read <= len,
        ensures
            final(self).wf(),
            final(self).iovs@ == old(self).iovs@,
            final(self).chunk_max == old(self).chunk_max,
            read == 0 ==> final(self).done && final(self).total == old(self).total,
            read > 0 ==> {
                &&& (final(self).index, final(self).in_iov, final(self).total) == old(self).advanced(read)
                &&& final(self).done == (read < len)
            },
    {
        if read == 0 {
            self.done = true;
            return;
        }
        self.advance(len, read);
        if read < len {
            self.done = true;
        }
    }

    /// A write from the current chunk took `written` bytes: none is `NoSpaceLeft` (and the
    /// transfer stays as it was), fewer than offered ends the transfer.
    pub fn record_write(&mut self, len: usize, written: usize) -> (r: Result<(), SyscallError>)
        requires
            old(self).wf(),
            old(self).current_chunk(len),
            written <= len,
        ensures
            final(self).wf(),
            final(self).iovs@ == old(self).iovs@,
            final(self).chunk_max == old(self).chunk_max,
            written == 0 ==> r == Err::<(), SyscallError>(SyscallError::NoSpaceLeft) && final(self).total
                == old(self).total && final(self).index == old(self).index && final(self).in_iov == old(self).in_iov
                && final(self).done == old(self).done,
            written > 0 ==> {
                &&& r is Ok
                &&& (final(self).index, final(self).in_iov, final(self).total) == old(self).advanced(written)
                &&& final(self).done == (written < len)
            },
    {
        if written == 0 {
            return Err(SyscallError::NoSpaceLeft);
        }
        self.advance(len, written);
        if written < len {
            self.done = true;
        }
        Ok(())
    }
}

/// A vectored transfer never counts more bytes than its buffers hold.
pub proof fn lemma_iovec_transfer_bounded(t: &IovecTransfer)
    requires
        t.wf(),
    ensures
        t.total <= isize::MAX,
{
    if t.index < t.iovs@.len() {
        lemma_skip_total(t.iovs@, t.index as int);
    }
}

/// The pieces, of at most `LINEAR_IO_CHUNK_SIZE` bytes each, in which the buffer of `len`
/// bytes at `base` is read from byte `done` on.
pub open spec fn buffer_chunks(base: u64, len: usize, done: nat) -> Seq<(u64, usize)>
    decreases len - done,
{
    if done >= len {
        Seq::empty()
    } else {
        let n: usize = if len - done < LINEAR_IO_CHUNK_SIZE {
            (len - done) as usize
        } else {
            LINEAR_IO_CHUNK_SIZE
        };
        seq![((base + done) as u64, n)] + buffer_chunks(base, len, (done + n) as nat)
    }
}

/// How an iovec array is checked for readability: the reads to make, in order, up to the
/// first non-empty buffer at address 0, and whether there is one (it is a bad address).
pub open spec fn readable_check_plan(iovs: Seq<LinuxIovec>) -> (Seq<(u64, usize)>, bool)
    decreases iovs.len(),
{
    if iovs.len() == 0 {
        (Seq::empty(), false)
    } else if iovs[0].iov_len == 0 {
        readable_check_plan(iovs.skip(1))
    } else if iovs[0].iov_base == 0 {
        (Seq::empty(), true)
    } else {
        let rest = readable_check_plan(iovs.skip(1));
        (buffer_chunks(iovs[0].iov_base, iovs[0].iov_len, 0) + rest.0, rest.1)
    }
}

/// Every buffer of the array fits in the address space.
pub open spec fn iovecs_in_address_space(iovs: Seq<LinuxIovec>) -> bool {
    forall|i: int| 0 <= i < iovs.len() ==> (#[trigger] iovs[i]).iov_base + iovs[i].iov_len
        <= u64::MAX
}

/// The chunked reads of one buffer.
fn push_buffer_chunks(out: &mut Vec<(u64, usize)>, base: u64, len: usize)
    requires
        base + len <= u64::MAX,
    ensures
        final(out)@ == old(out)@ + buffer_chunks(base, len, 0),
{
    let ghost start = out@;
    let mut checked: usize = 0;
    while checked < len
        invariant
            checked <= len,
            base + len <= u64::MAX,
            out@ + buffer_chunks(base, len, checked as nat) == start + buffer_chunks(base, len, 0),
        decreases len - checked,
    {
        let n = if len - checked < LINEAR_IO_CHUNK_SIZE {
            len - checked
        } else {
            LINEAR_IO_CHUNK_SIZE
        };
        let ghost before = out@;
        out.push((base + checked as u64, n));
        assert(buffer_chunks(base, len, checked as nat) == seq![((base + checked) as u64, n)]
            + buffer_chunks(base, len, (checked + n) as nat));
        assert(before + buffer_chunks(base, len, checked as nat) =~= out@ + buffer_chunks(
            base,
            len,
            (checked + n) as nat,
        ));
        checked = checked + n;
    }
    assert(buffer_chunks(base, len, checked as nat) =~= Seq::<(u64, usize)>::empty());
    assert(out@ =~= start + buffer_chunks(base, len, 0));
}

/// The reads that check an iovec array for readability, and whether a non-empty buffer at
/// address 0 ends the check with a bad address after them.
pub fn validate_iovecs_readable(iovs: &[LinuxIovec]) -> (r: (Vec<(u64, usize)>, bool))
    requires
        iovecs_in_address_space(iovs@),
    ensures
        (r.0@, r.1) == readable_check_plan(iovs@),
{
    let mut out: Vec<(u64, usize)> = Vec::new();
    let mut i: usize = 0;
    assert(iovs@.skip(0) =~= iovs@);
    assert(out@ + readable_check_plan(iovs@).0 =~= readable_check_plan(iovs@).0);
    while i < iovs.len()
        invariant
            i <= iovs@.len(),
            iovecs_in_address_space(iovs@),
            (out@ + readable_check_plan(iovs@.skip(i as int)).0, readable_check_plan(
                iovs@.skip(i as int),
            ).1) == readable_check_plan(iovs@),
        decreases iovs@.len() - i,
    {
        let iov = iovs[i];
        assert(iovs@.skip(i as int)[0] == iov);
        assert(iovs@.skip(i as int).skip(1) =~= iovs@.skip(i + 1));
        if iov.iov_len == 0 {
            i = i + 1;
            continue;
        }
        if iov.iov_base == 0 {
            assert(out@ + Seq::<(u64, usize)>::empty() =~= out@);
            return (out, true);
        }
        assert(iovs@[i as int] == iov);
        let ghost before = out@;
        push_buffer_chunks(&mut out, iov.iov_base, iov.iov_len);
        assert(before + (buffer_chunks(iov.iov_base, iov.iov_len, 0) + readable_check_plan(
            iovs@.skip(i + 1),
        ).0) =~= out@ + readable_check_plan(iovs@.skip(i + 1)).0);
        i = i + 1;
    }
    assert(iovs@.skip(i as int) =~= Seq::<LinuxIovec>::empty());
    assert(out@ + Seq::<(u64, usize)>::empty() =~= out@);
    (out, false)
}

} // verus!
