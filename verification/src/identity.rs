use vstd::prelude::*;
use crate::error::SyscallError;

verus! {

/// The real, effective, saved and file-system ids of a process (user ids or group ids).
#[derive(Clone, Copy, Debug, PartialEq, Eq, Structural)]
pub struct IdSet {
    pub real: u32,
    pub effective: u32,
    pub saved: u32,
    pub fs: u32,
}

/// An id argument of the `set*id` calls: `-1` keeps the id; any other value is looked up in
/// the caller's user namespace, where it may have no kernel id.
#[derive(Clone, Copy, Debug, PartialEq, Eq, Structural)]
pub enum IdArg {
    Keep,
    Mapped(u32),
    Unmapped,
}

/// The id argument for `raw`, given what the namespace maps `raw` to.
pub fn id_arg(raw: i32, mapped: Option<u32>) -> (r: IdArg)
    ensures
        r == if raw == -1 {
            IdArg::Keep
        } else {
            match mapped {
                Some(k) => IdArg::Mapped(k),
                None => IdArg::Unmapped,
            }
        },
{
    if raw == -1 {
        return IdArg::Keep;
    }
    match mapped {
        Some(k) => IdArg::Mapped(k),
        None => IdArg::Unmapped,
    }
}

/// The ids after `setresuid`/`setresgid`: real, then effective (with the fs id), then saved,
/// each kept for `-1`; an id without a mapping stops there with `InvalidArguments`, the ids
/// before it already set.
pub open spec fn setres_ids(ids: IdSet, r: IdArg, e: IdArg, s: IdArg) -> (IdSet, Result<(), SyscallError>) {
    let ids1 = match r {
        IdArg::Mapped(k) => IdSet { real: k, ..ids },
        _ => ids,
    };
    let ids2 = match e {
        IdArg::Mapped(k) => IdSet { effective: k, fs: k, ..ids1 },
        _ => ids1,
    };
    let ids3 = match s {
        IdArg::Mapped(k) => IdSet { saved: k, ..ids2 },
        _ => ids2,
    };
    if r == IdArg::Unmapped {
        (ids, Err(SyscallError::InvalidArguments))
    } else if e == IdArg::Unmapped {
        (ids1, Err(SyscallError::InvalidArguments))
    } else if s == IdArg::Unmapped {
        (ids2, Err(SyscallError::InvalidArguments))
    } else {
        (ids3, Ok(()))
    }
}

/// `setresuid` and `setresgid`.
pub fn setres_ids_update(ids: &mut IdSet, r: IdArg, e: IdArg, s: IdArg) -> (res: Result<(), SyscallError>)
    ensures
        (*final(ids), res) == setres_ids(*old(ids), r, e, s),
{
    match r {
        IdArg::Unmapped => return Err(SyscallError::InvalidArguments),
        IdArg::Mapped(k) => {
            ids.real = k;
        },
        IdArg::Keep => {},
    }
    match e {
        IdArg::Unmapped => return Err(SyscallError::InvalidArguments),
        IdArg::Mapped(k) => {
            ids.effective = k;
            ids.fs = k;
        },
        IdArg::Keep => {},
    }
    match s {
        IdArg::Unmapped => return Err(SyscallError::InvalidArguments),
        IdArg::Mapped(k) => {
            ids.saved = k;
        },
        IdArg::Keep => {},
    }
    Ok(())
}

/// The ids after `setreuid`/`setregid`: real, then effective (with the saved and fs ids),
/// each kept for `-1`; an id without a mapping stops there with `InvalidArguments`.
pub open spec fn setre_ids(ids: IdSet, r: IdArg, e: IdArg) -> (IdSet, Result<(), SyscallError>) {
    let ids1 = match r {
        IdArg::Mapped(k) => IdSet { real: k, ..ids },
        _ => ids,
    };
    let ids2 = match e {
        IdArg::Mapped(k) => IdSet { effective: k, saved: k, fs: k, ..ids1 },
        _ => ids1,
    };
    if r == IdArg::Unmapped {
        (ids, Err(SyscallError::InvalidArguments))
    } else if e == IdArg::Unmapped {
        (ids1, Err(SyscallError::InvalidArguments))
    } else {
        (ids2, Ok(()))
    }
}

/// `setreuid` and `setregid`.
pub fn setre_ids_update(ids: &mut IdSet, r: IdArg, e: IdArg) -> (res: Result<(), SyscallError>)
    ensures
        (*final(ids), res) == setre_ids(*old(ids), r, e),
{
    match r {
        IdArg::Unmapped => return Err(SyscallError::InvalidArguments),
        IdArg::Mapped(k) => {
            ids.real = k;
        },
        IdArg::Keep => {},
    }
    match e {
        IdArg::Unmapped => return Err(SyscallError::InvalidArguments),
        IdArg::Mapped(k) => {
            ids.effective = k;
            ids.saved = k;
            ids.fs = k;
        },
        IdArg::Keep => {},
    }
    Ok(())
}

/// `setuid` and `setgid`: every id becomes the mapped one (an unmapped id is
/// `InvalidArguments` and changes nothing).
pub fn set_all_ids(ids: &mut IdSet, mapped: Option<u32>) -> (res: Result<(), SyscallError>)
    ensures
        match mapped {
            Some(k) => res is Ok && *final(ids) == (IdSet { real: k, effective: k, saved: k, fs: k }),
            None => res == Err::<(), SyscallError>(SyscallError::InvalidArguments) && *final(ids) == *old(ids),
        },
{
    match mapped {
        None => Err(SyscallError::InvalidArguments),
        Some(k) => {
            *ids = IdSet { real: k, effective: k, saved: k, fs: k };
            Ok(())
        },
    }
}

/// `setfsuid` and `setfsgid`: the fs id becomes the mapped one where there is a mapping;
/// the answer is the old fs id as the caller's namespace sees it.
pub fn set_fs_id(ids: &mut IdSet, mapped: Option<u32>, old_fs_in_namespace: u32) -> (r: usize)
    ensures
        r == old_fs_in_namespace,
        *final(ids) == match mapped {
            Some(k) => IdSet { fs: k, ..*old(ids) },
            None => *old(ids),
        },
{
    if let Some(k) = mapped {
        ids.fs = k;
    }
    old_fs_in_namespace as usize
}

/// What `getgroups` does with a buffer of `size` entries when the process has `count`
/// supplementary groups.
#[derive(Clone, Copy, Debug, PartialEq, Eq, Structural)]
pub struct GroupsReply {
    /// Whether the groups are copied to the buffer.
    pub copy: bool,
    pub count: usize,
}

/// `getgroups`: a negative size is invalid, zero asks for the count, a buffer too small is
/// invalid, otherwise the groups are copied (none to copy for none).
pub fn getgroups_reply(size: i32, count: usize) -> (r: Result<GroupsReply, SyscallError>)
    ensures
        r == if size < 0 {
            Err::<GroupsReply, SyscallError>(SyscallError::InvalidArguments)
        } else if size == 0 {
            Ok(GroupsReply { copy: false, count })
        } else if (size as usize) < count {
            Err(SyscallError::InvalidArguments)
        } else if count == 0 {
            Ok(GroupsReply { copy: false, count: 0 })
        } else {
            Ok(GroupsReply { copy: true, count })
        },
{
    if size < 0 {
        return Err(SyscallError::InvalidArguments);
    }
    if size == 0 {
        return Ok(GroupsReply { copy: false, count });
    }
    if (size as usize) < count {
        return Err(SyscallError::InvalidArguments);
    }
    if count == 0 {
        return Ok(GroupsReply { copy: false, count: 0 });
    }
    Ok(GroupsReply { copy: true, count })
}

/// `setgroups`: an empty list clears the groups; otherwise the list must exist. `Ok(true)`
/// when the list is to be read.
pub fn setgroups_reads_list(size: usize, list_is_null: bool) -> (r: Result<bool, SyscallError>)
    ensures
        r == if size == 0 {
            Ok::<bool, SyscallError>(false)
        } else if list_is_null {
            Err(SyscallError::BadAddress)
        } else {
            Ok(true)
        },
{
    if size == 0 {
        Ok(false)
    } else if list_is_null {
        Err(SyscallError::BadAddress)
    } else {
        Ok(true)
    }
}

/// `setresuid` with every argument `-1` leaves the ids as they were.
pub proof fn lemma_setres_keep_all(ids: IdSet)
    ensures
        setres_ids(ids, IdArg::Keep, IdArg::Keep, IdArg::Keep) == (ids, Ok::<(), SyscallError>(())),
{
}

/// After a successful `setresuid`, the effective and fs ids agree whenever the effective id
/// was set.
pub proof fn lemma_setres_fs_follows_effective(ids: IdSet, r: IdArg, k: u32, s: IdArg)
    requires
        setres_ids(ids, r, IdArg::Mapped(k), s).1 is Ok,
    ensures
        setres_ids(ids, r, IdArg::Mapped(k), s).0.effective == k,
        setres_ids(ids, r, IdArg::Mapped(k), s).0.fs == k,
{
}

/// The id a `set*id` argument leaves in a slot that held `old`.
pub open spec fn id_after(arg: IdArg, old: u32) -> u32 {
    match arg {
        IdArg::Mapped(k) => k,
        _ => old,
    }
}

/// `setresuid(r, e, s)` succeeds exactly when every argument is `-1` or mapped; then the
/// real id is `r`, the effective and fs ids are `e`, the saved id is `s`, each kept where
/// its argument is `-1`. A failure never changes an id that comes after the refused one.
pub proof fn lemma_setres_sets_each_id(ids: IdSet, r: IdArg, e: IdArg, s: IdArg)
    ensures
        setres_ids(ids, r, e, s).1 is Ok <==> (r != IdArg::Unmapped && e != IdArg::Unmapped && s
            != IdArg::Unmapped),
        setres_ids(ids, r, e, s).1 is Ok ==> setres_ids(ids, r, e, s).0 == (IdSet {
            real: id_after(r, ids.real),
            effective: id_after(e, ids.effective),
            saved: id_after(s, ids.saved),
            fs: id_after(e, ids.fs),
        }),
        setres_ids(ids, r, e, s).1 is Err ==> setres_ids(ids, r, e, s).0.saved == ids.saved,
        r == IdArg::Unmapped ==> setres_ids(ids, r, e, s).0 == ids,
{
}

/// `setreuid(r, e)` succeeds exactly when both arguments are `-1` or mapped; then the real
/// id is `r` and the effective, saved and fs ids are `e`, each kept where its argument is
/// `-1`.
pub proof fn lemma_setre_sets_each_id(ids: IdSet, r: IdArg, e: IdArg)
    ensures
        setre_ids(ids, r, e).1 is Ok <==> (r != IdArg::Unmapped && e != IdArg::Unmapped),
        setre_ids(ids, r, e).1 is Ok ==> setre_ids(ids, r, e).0 == (IdSet {
            real: id_after(r, ids.real),
            effective: id_after(e, ids.effective),
            saved: id_after(e, ids.saved),
            fs: id_after(e, ids.fs),
        }),
        r == IdArg::Unmapped ==> setre_ids(ids, r, e).0 == ids,
{
}

} // verus!
