use vstd::prelude::*;

verus! {

/// The ids and capabilities a process acts with.
pub struct ProcessCredentials {
    pub real_uid: u32,
    pub real_gid: u32,
    pub effective_uid: u32,
    pub effective_gid: u32,
    pub fs_uid: u32,
    pub fs_gid: u32,
    pub supplementary_groups: Vec<u32>,
    pub capability_effective: [u32; 2],
    pub capability_permitted: [u32; 2],
    pub capability_inheritable: [u32; 2],
    pub capability_bounding: [u32; 2],
}

/// The ids and capabilities one permission check uses.
pub struct AccessCredentials {
    pub uid: u32,
    pub gid: u32,
    pub supplementary_groups: Vec<u32>,
    pub capability_effective: [u32; 2],
}

/// Whether capability `cap` is set in a two-word capability mask.
pub open spec fn cap_set(caps: Seq<u32>, cap: u64) -> bool {
    cap < 64 && caps[(cap / 32) as int] & (1u32 << ((cap % 32) as u32)) != 0
}

impl AccessCredentials {
    pub open spec fn has_cap(&self, cap: u64) -> bool {
        cap_set(self.capability_effective@, cap)
    }

    pub open spec fn in_group(&self, gid: u32) -> bool {
        self.gid == gid || self.supplementary_groups@.contains(gid)
    }
}

/// Whether `v` occurs in `groups`.
pub fn groups_contain(groups: &Vec<u32>, v: u32) -> (r: bool)
    ensures
        r == groups@.contains(v),
{
    let mut i: usize = 0;
    while i < groups.len()
        invariant
            i <= groups.len(),
            forall|j: int| 0 <= j < i ==> groups@[j] != v,
        decreases groups.len() - i,
    {
        if groups[i] == v {
            assert(groups@[i as int] == v);
            return true;
        }
        i += 1;
    }
    false
}

/// Copies a group list.
pub fn copy_groups(groups: &Vec<u32>) -> (r: Vec<u32>)
    ensures
        r@ == groups@,
{
    let mut out: Vec<u32> = Vec::new();
    let mut i: usize = 0;
    while i < groups.len()
        invariant
            i <= groups.len(),
            out@ == groups@.take(i as int),
        decreases groups.len() - i,
    {
        out.push(groups[i]);
        assert(groups@.take(i + 1) =~= groups@.take(i as int).push(groups@[i as int]));
        i += 1;
    }
    assert(groups@.take(i as int) =~= groups@);
    out
}

/// The credentials `access` and `faccessat` check with: the real ids and no capabilities,
/// or, with `AT_EACCESS`, the effective ids and effective capabilities.
pub fn access_credentials(process: &ProcessCredentials, use_effective_ids: bool) -> (r: AccessCredentials)
    ensures
        r.uid == if use_effective_ids { process.effective_uid } else { process.real_uid },
        r.gid == if use_effective_ids { process.effective_gid } else { process.real_gid },
        r.supplementary_groups@ == process.supplementary_groups@,
        r.capability_effective@ == if use_effective_ids {
            process.capability_effective@
        } else {
            seq![0u32, 0u32]
        },
{
    let caps: [u32; 2] = if use_effective_ids {
        [process.capability_effective[0], process.capability_effective[1]]
    } else {
        [0, 0]
    };
    assert(caps@ =~= if use_effective_ids { process.capability_effective@ } else { seq![0u32, 0u32] });
    AccessCredentials {
        uid: if use_effective_ids { process.effective_uid } else { process.real_uid },
        gid: if use_effective_ids { process.effective_gid } else { process.real_gid },
        supplementary_groups: copy_groups(&process.supplementary_groups),
        capability_effective: caps,
    }
}

/// The credentials filesystem operations check with: the fs ids and effective capabilities.
pub fn fs_access_credentials(process: &ProcessCredentials) -> (r: AccessCredentials)
    ensures
        r.uid == process.fs_uid,
        r.gid == process.fs_gid,
        r.supplementary_groups@ == process.supplementary_groups@,
        r.capability_effective@ == process.capability_effective@,
{
    let caps: [u32; 2] = [process.capability_effective[0], process.capability_effective[1]];
    assert(caps@ =~= process.capability_effective@);
    AccessCredentials {
        uid: process.fs_uid,
        gid: process.fs_gid,
        supplementary_groups: copy_groups(&process.supplementary_groups),
        capability_effective: caps,
    }
}

/// The group id new files get.
pub fn fs_gid(process: &ProcessCredentials) -> (r: u32)
    ensures
        r == process.fs_gid,
{
    fs_access_credentials(process).gid
}

/// The user id new files get.
pub fn fs_uid(process: &ProcessCredentials) -> (r: u32)
    ensures
        r == process.fs_uid,
{
    fs_access_credentials(process).uid
}

/// Whether the credentials hold capability `capability` in their effective set.
pub fn has_capability(credentials: &AccessCredentials, capability: u64) -> (r: bool)
    ensures
        r == credentials.has_cap(capability),
{
    let slot = capability / 32;
    if slot >= 2 {
        return false;
    }
    let mask = 1u32 << ((capability % 32) as u32);
    credentials.capability_effective[slot as usize] & mask != 0
}

/// Whether `gid` is the primary group or one of the supplementary groups.
pub fn is_group_member(credentials: &AccessCredentials, gid: u32) -> (r: bool)
    ensures
        r == credentials.in_group(gid),
{
    credentials.gid == gid || groups_contain(&credentials.supplementary_groups, gid)
}

} // verus!
