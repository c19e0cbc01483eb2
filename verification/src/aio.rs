use vstd::prelude::*;
use std::collections::BTreeMap;
use crate::error::SyscallError;

verus! {

broadcast use vstd::std_specs::btree::group_btree_axioms;

/// The only request `io_submit` carries out: a positioned write.
pub const IOCB_CMD_PWRITE: u16 = 1;
/// The request asks for an eventfd to be signalled on completion.
pub const IOCB_FLAG_RESFD: u32 = 1;
/// The magic number of the ring header that `io_setup` lays out.
pub const AIO_CONTEXT_RING_MAGIC: u32 = 0xa10a10a1;
pub const AIO_CONTEXT_RING_HEAD_OFFSET: u64 = 0x08;
pub const AIO_CONTEXT_RING_TAIL_OFFSET: u64 = 0x0c;
pub const AIO_CONTEXT_RING_MAGIC_OFFSET: u64 = 0x10;

/// A request block of `io_submit`, as user space lays it out.
#[derive(Clone, Copy, Debug, PartialEq, Eq, Structural)]
pub struct LinuxIocb {
    pub aio_data: u64,
    pub aio_key: u32,
    pub aio_rw_flags: u32,
    pub aio_lio_opcode: u16,
    pub aio_reqprio: i16,
    pub aio_fildes: u32,
    pub aio_buf: u64,
    pub aio_nbytes: u64,
    pub aio_offset: i64,
    pub aio_reserved2: u64,
    pub aio_flags: u32,
    pub aio_resfd: u32,
}

/// A completion that `io_getevents` hands back.
#[derive(Clone, Copy, Debug, PartialEq, Eq, Structural)]
pub struct LinuxIoEvent {
    pub data: u64,
    pub obj: u64,
    pub res: i64,
    pub res2: i64,
}

/// One context: its capacity and the completions that wait to be collected.
pub struct AioContext {
    pub max_events: u32,
    pub completions: Vec<LinuxIoEvent>,
}

/// What a context holds.
pub struct AioContextView {
    pub max_events: u32,
    pub completions: Seq<LinuxIoEvent>,
}

impl View for AioContext {
    type V = AioContextView;

    open spec fn view(&self) -> AioContextView {
        AioContextView { max_events: self.max_events, completions: self.completions@ }
    }
}

/// The contexts of the system, by the address of their ring.
pub struct AioContexts {
    contexts: BTreeMap<u64, AioContext>,
}

/// A context as `io_setup` creates it.
pub open spec fn fresh_context(max_events: u32) -> AioContextView {
    AioContextView { max_events, completions: Seq::empty() }
}

/// Every context has room for one event at least and holds no more than it has room for.
pub open spec fn contexts_wf(m: Map<u64, AioContextView>) -> bool {
    forall|id: u64| #[trigger] m.contains_key(id) ==> m[id].max_events > 0
        && m[id].completions.len() <= m[id].max_events
}

/// `evs` queued behind what context `id` already holds.
pub open spec fn with_completions(m: Map<u64, AioContextView>, id: u64, evs: Seq<LinuxIoEvent>) -> Map<
    u64,
    AioContextView,
> {
    m.insert(
        id,
        AioContextView { max_events: m[id].max_events, completions: m[id].completions + evs },
    )
}

/// How many completions a call that asks for `nr` of them takes out of context `id`.
pub open spec fn take_count(m: Map<u64, AioContextView>, id: u64, nr: usize) -> int {
    if nr < m[id].completions.len() {
        nr as int
    } else {
        m[id].completions.len() as int
    }
}

/// Context `id` without its `count` oldest completions.
pub open spec fn without_oldest(m: Map<u64, AioContextView>, id: u64, count: int) -> Map<
    u64,
    AioContextView,
> {
    m.insert(
        id,
        AioContextView {
            max_events: m[id].max_events,
            completions: m[id].completions.skip(count),
        },
    )
}

impl AioContexts {
    pub closed spec fn view(&self) -> Map<u64, AioContextView> {
        Map::new(|id: u64| self.contexts@.contains_key(id), |id: u64| self.contexts@[id]@)
    }

    pub open spec fn wf(&self) -> bool {
        contexts_wf(self@)
    }

    /// No context at all.
    pub fn new() -> (r: AioContexts)
        ensures
            r@ == Map::<u64, AioContextView>::empty(),
            r.wf(),
    {
        let r = AioContexts { contexts: BTreeMap::new() };
        assert(r@ =~= Map::<u64, AioContextView>::empty());
        r
    }

    /// Whether `id` names a context.
    pub fn contains(&self, id: u64) -> (r: bool)
        ensures
            r == self@.contains_key(id),
    {
        self.contexts.contains_key(&id)
    }

    /// Registers a context under `id` with room for `max_events` completions.
    pub fn create(&mut self, id: u64, max_events: u32) -> (r: Result<(), SyscallError>)
        requires
            old(self).wf(),
        ensures
            final(self).wf(),
            r is Err <==> (max_events == 0 || id == 0 || old(self)@.contains_key(id)),
            r is Err ==> r == Err::<(), SyscallError>(SyscallError::InvalidArguments)
                && final(self)@ == old(self)@,
            r is Ok ==> final(self)@ == old(self)@.insert(id, fresh_context(max_events)),
    {
        if max_events == 0 {
            return Err(SyscallError::InvalidArguments);
        }
        if id == 0 || self.contexts.contains_key(&id) {
            return Err(SyscallError::InvalidArguments);
        }
        self.contexts.insert(id, AioContext { max_events, completions: Vec::new() });
        assert(self@ =~= old(self)@.insert(id, fresh_context(max_events)));
        Ok(())
    }

    /// Drops the context under `id` with whatever it holds.
    pub fn destroy(&mut self, id: u64) -> (r: Result<(), SyscallError>)
        requires
            old(self).wf(),
        ensures
            final(self).wf(),
            r is Ok <==> old(self)@.contains_key(id),
            r is Err ==> r == Err::<(), SyscallError>(SyscallError::InvalidArguments),
            final(self)@ == old(self)@.remove(id),
    {
        match self.contexts.remove(&id) {
            Some(_context) => {
                assert(self@ =~= old(self)@.remove(id));
                Ok(())
            },
            None => {
                assert(self@ =~= old(self)@.remove(id));
                Err(SyscallError::InvalidArguments)
            },
        }
    }

    /// Queues the completions of one `io_submit` call in context `id`, all or none.
    /// The result is the number of requests that were submitted.
    pub fn commit_completions(&mut self, id: u64, completions: Vec<LinuxIoEvent>) -> (r: Result<
        usize,
        SyscallError,
    >)
        requires
            old(self).wf(),
        ensures
            final(self).wf(),
            !old(self)@.contains_key(id) ==> r == Err::<usize, SyscallError>(
                SyscallError::InvalidArguments,
            ),
            old(self)@.contains_key(id) && old(self)@[id].completions.len() + completions@.len()
                > old(self)@[id].max_events ==> r == Err::<usize, SyscallError>(
                SyscallError::TryAgain,
            ),
            old(self)@.contains_key(id) && old(self)@[id].completions.len() + completions@.len()
                <= old(self)@[id].max_events ==> r == Ok::<usize, SyscallError>(completions.len()),
            r is Ok ==> final(self)@ == with_completions(old(self)@, id, completions@),
            r is Err ==> final(self)@ == old(self)@,
    {
        let mut context = match self.contexts.remove(&id) {
            Some(c) => c,
            None => {
                assert(self@ =~= old(self)@);
                return Err(SyscallError::InvalidArguments);
            },
        };
        assert(context@ == old(self)@[id]);
        assert(old(self)@.contains_key(id));
        assert(context.completions.len() <= context.max_events);
        if completions.len() > context.max_events as usize - context.completions.len() {
            self.contexts.insert(id, context);
            assert(self@ =~= old(self)@);
            return Err(SyscallError::TryAgain);
        }
        let n = completions.len();
        let ghost before = context.completions@;
        let mut i: usize = 0;
        while i < n
            invariant
                n == completions.len(),
                i <= n,
                context.max_events == old(self)@[id].max_events,
                context.completions@ == before + completions@.take(i as int),
            decreases n - i,
        {
            context.completions.push(completions[i]);
            assert(completions@.take(i + 1) =~= completions@.take(i as int).push(completions@[i as int]));
            i = i + 1;
        }
        assert(completions@.take(n as int) =~= completions@);
        self.contexts.insert(id, context);
        assert(self@ =~= with_completions(old(self)@, id, completions@));
        Ok(n)
    }

    /// Takes up to `nr` of the oldest completions out of context `id`. Where fewer than
    /// `min_nr` were there, those taken are dropped and the call fails with `TryAgain`.
    pub fn take_completions(&mut self, id: u64, nr: usize, min_nr: usize) -> (r: Result<
        Vec<LinuxIoEvent>,
        SyscallError,
    >)
        requires
            old(self).wf(),
        ensures
            final(self).wf(),
            !old(self)@.contains_key(id) ==> r == Err::<Vec<LinuxIoEvent>, SyscallError>(
                SyscallError::InvalidArguments,
            ) && final(self)@ == old(self)@,
            old(self)@.contains_key(id) ==> final(self)@ == without_oldest(
                old(self)@,
                id,
                take_count(old(self)@, id, nr),
            ),
            old(self)@.contains_key(id) && take_count(old(self)@, id, nr) < min_nr ==> r
                == Err::<Vec<LinuxIoEvent>, SyscallError>(SyscallError::TryAgain),
            old(self)@.contains_key(id) && take_count(old(self)@, id, nr) >= min_nr ==> r is Ok,
            r matches Ok(v) ==> v@ == old(self)@[id].completions.take(
                take_count(old(self)@, id, nr),
            ),
    {
        let mut context = match self.contexts.remove(&id) {
            Some(c) => c,
            None => {
                assert(self@ =~= old(self)@);
                return Err(SyscallError::InvalidArguments);
            },
        };
        assert(context@ == old(self)@[id]);
        let len = context.completions.len();
        let count = if nr < len {
            nr
        } else {
            len
        };
        let mut ready: Vec<LinuxIoEvent> = Vec::new();
        let mut rest: Vec<LinuxIoEvent> = Vec::new();
        let mut i: usize = 0;
        while i < len
            invariant
                len == context.completions.len(),
                count <= len,
                i <= len,
                ready@ == context.completions@.take(if i < count { i as int } else { count as int }),
                rest@ == context.completions@.subrange(
                    count as int,
                    if i < count { count as int } else { i as int },
                ),
            decreases len - i,
        {
            if i < count {
                ready.push(context.completions[i]);
                assert(context.completions@.take(i + 1) =~= context.completions@.take(
                    i as int,
                ).push(context.completions@[i as int]));
            } else {
                rest.push(context.completions[i]);
                assert(context.completions@.subrange(count as int, i + 1) =~= context.completions@.subrange(
                    count as int,
                    i as int,
                ).push(context.completions@[i as int]));
            }
            i = i + 1;
        }
        assert(rest@ =~= context.completions@.skip(count as int));
        context.completions = rest;
        self.contexts.insert(id, context);
        assert(self@ =~= without_oldest(old(self)@, id, count as int));
        if count < min_nr {
            return Err(SyscallError::TryAgain);
        }
        Ok(ready)
    }
}

/// A context created and destroyed again leaves the other contexts as they were.
pub proof fn lemma_destroy_undoes_create(m: Map<u64, AioContextView>, id: u64, max_events: u32)
    requires
        !m.contains_key(id),
    ensures
        m.insert(id, fresh_context(max_events)).remove(id) == m,
{
    assert(m.insert(id, fresh_context(max_events)).remove(id) =~= m);
}

/// Completions come out of a context in the order in which they were queued: after a
/// commit, asking for everything gives the old completions and then the new ones, and
/// leaves the context empty.
pub proof fn lemma_completions_are_fifo(
    m: Map<u64, AioContextView>,
    id: u64,
    evs: Seq<LinuxIoEvent>,
    nr: usize,
)
    requires
        m.contains_key(id),
        m[id].completions.len() + evs.len() <= nr,
    ensures
        with_completions(m, id, evs)[id].completions.take(
            take_count(with_completions(m, id, evs), id, nr),
        ) == m[id].completions + evs,
        without_oldest(
            with_completions(m, id, evs),
            id,
            take_count(with_completions(m, id, evs), id, nr),
        )[id].completions.len() == 0,
{
    let c = m[id].completions + evs;
    assert(c.take(c.len() as int) =~= c);
}

/// A commit never leaves a context holding more than it has room for.
pub proof fn lemma_commit_keeps_capacity(
    m: Map<u64, AioContextView>,
    id: u64,
    evs: Seq<LinuxIoEvent>,
)
    requires
        contexts_wf(m),
        m.contains_key(id),
        m[id].completions.len() + evs.len() <= m[id].max_events,
    ensures
        contexts_wf(with_completions(m, id, evs)),
{
}

/// The checks of `io_setup` before it allocates the ring.
pub fn io_setup_check(nr_events: u32, ctxp_is_null: bool) -> (r: Result<(), SyscallError>)
    ensures
        ctxp_is_null ==> r == Err::<(), SyscallError>(SyscallError::BadAddress),
        !ctxp_is_null && nr_events == 0 ==> r == Err::<(), SyscallError>(
            SyscallError::InvalidArguments,
        ),
        !ctxp_is_null && nr_events != 0 ==> r is Ok,
{
    if ctxp_is_null {
        return Err(SyscallError::BadAddress);
    }
    if nr_events == 0 {
        return Err(SyscallError::InvalidArguments);
    }
    Ok(())
}

/// The three words that `io_setup` writes at the start of a new ring: head, tail and
/// magic, each as (address, value).
pub fn context_ring_header(ctx: u64) -> (r: Vec<(u64, u32)>)
    requires
        ctx <= u64::MAX - AIO_CONTEXT_RING_MAGIC_OFFSET,
    ensures
        r@ == seq![
            ((ctx + AIO_CONTEXT_RING_HEAD_OFFSET) as u64, 0u32),
            ((ctx + AIO_CONTEXT_RING_TAIL_OFFSET) as u64, 0u32),
            ((ctx + AIO_CONTEXT_RING_MAGIC_OFFSET) as u64, AIO_CONTEXT_RING_MAGIC),
        ],
{
    let r = vec![
        (ctx + AIO_CONTEXT_RING_HEAD_OFFSET, 0u32),
        (ctx + AIO_CONTEXT_RING_TAIL_OFFSET, 0u32),
        (ctx + AIO_CONTEXT_RING_MAGIC_OFFSET, AIO_CONTEXT_RING_MAGIC),
    ];
    assert(r@ =~= seq![
        ((ctx + AIO_CONTEXT_RING_HEAD_OFFSET) as u64, 0u32),
        ((ctx + AIO_CONTEXT_RING_TAIL_OFFSET) as u64, 0u32),
        ((ctx + AIO_CONTEXT_RING_MAGIC_OFFSET) as u64, AIO_CONTEXT_RING_MAGIC),
    ]);
    r
}

/// The checks of one request block before its write is carried out.
pub fn check_iocb(iocb_is_null: bool, iocb: &LinuxIocb) -> (r: Result<(), SyscallError>)
    ensures
        iocb_is_null ==> r == Err::<(), SyscallError>(SyscallError::BadAddress),
        !iocb_is_null && (iocb.aio_lio_opcode != IOCB_CMD_PWRITE || iocb.aio_nbytes
            > usize::MAX) ==> r == Err::<(), SyscallError>(SyscallError::InvalidArguments),
        !iocb_is_null && iocb.aio_lio_opcode == IOCB_CMD_PWRITE && iocb.aio_nbytes
            <= usize::MAX ==> r is Ok,
{
    if iocb_is_null {
        return Err(SyscallError::BadAddress);
    }
    if iocb.aio_lio_opcode != IOCB_CMD_PWRITE || iocb.aio_nbytes > usize::MAX as u64 {
        return Err(SyscallError::InvalidArguments);
    }
    Ok(())
}

/// Whether a completed request asks for its eventfd to be signalled.
pub fn wants_eventfd_signal(iocb: &LinuxIocb) -> (r: bool)
    ensures
        r == (iocb.aio_flags & IOCB_FLAG_RESFD != 0),
{
    iocb.aio_flags & IOCB_FLAG_RESFD != 0
}

/// The completion of a request block at address `iocb_addr` whose write wrote `written` bytes.
pub fn completion_event(iocb: &LinuxIocb, iocb_addr: u64, written: usize) -> (r: LinuxIoEvent)
    ensures
        r == (LinuxIoEvent { data: iocb.aio_data, obj: iocb_addr, res: written as i64, res2: 0 }),
{
    LinuxIoEvent { data: iocb.aio_data, obj: iocb_addr, res: written as i64, res2: 0 }
}

/// The checks of `io_submit` before it reads the request pointers: the number of
/// requests to read, 0 where the call is done at once.
pub fn io_submit_check(nr: i64, iocbpp_is_null: bool) -> (r: Result<u64, SyscallError>)
    ensures
        nr < 0 ==> r == Err::<u64, SyscallError>(SyscallError::InvalidArguments),
        nr == 0 ==> r == Ok::<u64, SyscallError>(0),
        nr > 0 && iocbpp_is_null ==> r == Err::<u64, SyscallError>(SyscallError::BadAddress),
        nr > 0 && !iocbpp_is_null ==> r == Ok::<u64, SyscallError>(nr as u64),
{
    if nr < 0 {
        return Err(SyscallError::InvalidArguments);
    }
    if nr == 0 {
        return Ok(0);
    }
    if iocbpp_is_null {
        return Err(SyscallError::BadAddress);
    }
    Ok(nr as u64)
}

/// What `io_submit` does after one request was tried.
#[derive(Clone, Copy, Debug, PartialEq, Eq, Structural)]
pub enum SubmitStep {
    /// Go on with the next request.
    Continue,
    /// Stop here and commit what was submitted so far.
    Stop,
    /// Fail the whole call with this error.
    Fail(SyscallError),
}

/// Records the outcome of one request: a completion is queued; a failure fails the
/// call where nothing was submitted yet and ends the batch otherwise.
pub fn record_submit_outcome(
    completions: &mut Vec<LinuxIoEvent>,
    outcome: Result<LinuxIoEvent, SyscallError>,
) -> (r: SubmitStep)
    ensures
        outcome matches Ok(ev) ==> r == SubmitStep::Continue && final(completions)@ == old(
            completions,
        )@.push(ev),
        outcome matches Err(e) ==> final(completions)@ == old(completions)@ && (if old(
            completions,
        )@.len() == 0 {
            r == SubmitStep::Fail(e)
        } else {
            r == SubmitStep::Stop
        }),
{
    match outcome {
        Ok(ev) => {
            completions.push(ev);
            SubmitStep::Continue
        },
        Err(e) => {
            if completions.len() == 0 {
                SubmitStep::Fail(e)
            } else {
                SubmitStep::Stop
            }
        },
    }
}

/// The checks of `io_getevents` before it looks at the context: `(min_nr, nr)`, with
/// `nr == 0` where the call is done at once.
pub fn io_getevents_check(min_nr: i64, nr: i64, events_is_null: bool) -> (r: Result<
    (u64, u64),
    SyscallError,
>)
    ensures
        (min_nr < 0 || nr < 0 || min_nr > nr) ==> r == Err::<(u64, u64), SyscallError>(
            SyscallError::InvalidArguments,
        ),
        0 <= min_nr <= nr && nr == 0 ==> r == Ok::<(u64, u64), SyscallError>((0, 0)),
        0 <= min_nr <= nr && nr > 0 && events_is_null ==> r == Err::<(u64, u64), SyscallError>(
            SyscallError::BadAddress,
        ),
        0 <= min_nr <= nr && nr > 0 && !events_is_null ==> r == Ok::<(u64, u64), SyscallError>(
            (min_nr as u64, nr as u64),
        ),
{
    if min_nr < 0 || nr < 0 || min_nr > nr {
        return Err(SyscallError::InvalidArguments);
    }
    if nr == 0 {
        return Ok((0, 0));
    }
    if events_is_null {
        return Err(SyscallError::BadAddress);
    }
    Ok((min_nr as u64, nr as u64))
}

} // verus!
