use vstd::prelude::*;
use crate::credentials::{has_capability, AccessCredentials};
use crate::error::SyscallError;
use crate::flags::{
    MOUNT_FLAGS_ALL, MS_NOATIME, MS_NODEV, MS_NODIRATIME, MS_NOEXEC, MS_NOSUID, MS_NOSYMFOLLOW,
    MS_RDONLY, MS_RELATIME, MS_STRICTATIME, S_IFCHR, S_IFMT,
};

verus! {

pub const CAP_SYS_ADMIN: u64 = 21;
/// The bit old `mount` callers pass for `MS_NOSYMFOLLOW`.
pub const LEGACY_MS_NOSYMFOLLOW: u64 = 1 << 8;

/// `mount` operation flags that pick a propagation type.
pub const MS_UNBINDABLE: u64 = 1 << 17;
pub const MS_PRIVATE: u64 = 1 << 18;
pub const MS_SLAVE: u64 = 1 << 19;
pub const MS_SHARED: u64 = 1 << 20;

/// `mount_setattr` attribute bits.
pub const MOUNT_ATTR_RDONLY: u64 = 0x1;
pub const MOUNT_ATTR_NOSUID: u64 = 0x2;
pub const MOUNT_ATTR_NODEV: u64 = 0x4;
pub const MOUNT_ATTR_NOEXEC: u64 = 0x8;
pub const MOUNT_ATTR__ATIME: u64 = 0x70;
pub const MOUNT_ATTR_NOATIME: u64 = 0x10;
pub const MOUNT_ATTR_STRICTATIME: u64 = 0x20;
pub const MOUNT_ATTR_NODIRATIME: u64 = 0x80;
pub const MOUNT_ATTR_IDMAP: u64 = 0x0010_0000;
pub const MOUNT_ATTR_NOSYMFOLLOW: u64 = 0x0020_0000;

/// `umount2` flags.
pub const UMOUNT_FORCE: i32 = 0x1;
pub const UMOUNT_DETACH: i32 = 0x2;
pub const UMOUNT_EXPIRE: i32 = 0x4;
pub const UMOUNT_NOFOLLOW: i32 = 0x8;

/// How a mount passes mount events on to its peers.
#[derive(Clone, Copy, Debug, PartialEq, Eq, Structural)]
pub enum MountPropagationUpdate {
    Private,
    Shared,
    Slave,
    Unbindable,
}

/// Mounting and unmounting need `CAP_SYS_ADMIN`.
pub fn require_cap_sys_admin(credentials: &AccessCredentials) -> (r: Result<(), SyscallError>)
    ensures
        r == if credentials.has_cap(CAP_SYS_ADMIN) {
            Ok::<(), SyscallError>(())
        } else {
            Err(SyscallError::PermissionDenied)
        },
{
    if has_capability(credentials, CAP_SYS_ADMIN) {
        Ok(())
    } else {
        Err(SyscallError::PermissionDenied)
    }
}

/// Whether a mode names a character device; a bare `S_IFCHR`-carrying permission word
/// without file type bits counts too.
pub fn is_char_device_mode(mode: u32) -> (r: bool)
    ensures
        r == (mode & S_IFMT == S_IFCHR || (mode != 0 && mode & S_IFMT == 0 && mode & S_IFCHR == S_IFCHR)),
{
    mode & S_IFMT == S_IFCHR || mode != 0 && mode & S_IFMT == 0 && mode & S_IFCHR == S_IFCHR
}

/// The mount flags that `mount` bits ask for: the known flags, with the legacy
/// no-symlink-follow bit translated.
pub open spec fn mount_flags_spec(bits: u64) -> u64 {
    (bits & MOUNT_FLAGS_ALL) | (if bits & LEGACY_MS_NOSYMFOLLOW != 0 { MS_NOSYMFOLLOW } else { 0 })
}

pub fn mount_flags_from_mount_bits(bits: u64) -> (r: u64)
    ensures
        r == mount_flags_spec(bits),
{
    (bits & MOUNT_FLAGS_ALL) | (if bits & LEGACY_MS_NOSYMFOLLOW != 0 { MS_NOSYMFOLLOW } else { 0 })
}

/// A bind remount: the flags to set and the mask of flags it changes. It always decides
/// read-only, no-setuid, no-devices and no-exec; relative atime and no-symlink-follow
/// only when asked for.
pub fn remount_bind_flag_update(bits: u64) -> (r: (u64, u64))
    ensures
        r.0 == mount_flags_spec(bits),
        r.1 == (MS_RDONLY | MS_NOSUID | MS_NODEV | MS_NOEXEC)
            | (if mount_flags_spec(bits) & MS_RELATIME != 0 { MS_RELATIME } else { 0 })
            | (if bits & LEGACY_MS_NOSYMFOLLOW != 0 { MS_NOSYMFOLLOW } else { 0 }),
{
    let flags = mount_flags_from_mount_bits(bits);
    let mut mask = MS_RDONLY | MS_NOSUID | MS_NODEV | MS_NOEXEC;
    let ghost base = mask;
    if flags & MS_RELATIME != 0 {
        mask = mask | MS_RELATIME;
    }
    let ghost with_relatime = mask;
    if bits & LEGACY_MS_NOSYMFOLLOW != 0 {
        mask = mask | MS_NOSYMFOLLOW;
    }
    assert(base | 0 == base && with_relatime | 0 == with_relatime) by (bit_vector);
    (flags, mask)
}

pub open spec fn propagation_of(flag: u64) -> MountPropagationUpdate {
    if flag == MS_PRIVATE {
        MountPropagationUpdate::Private
    } else if flag == MS_SHARED {
        MountPropagationUpdate::Shared
    } else if flag == MS_SLAVE {
        MountPropagationUpdate::Slave
    } else {
        MountPropagationUpdate::Unbindable
    }
}

/// The propagation type a `mount` call asks for: `None` when it names none, or more than one.
pub open spec fn propagation_spec(flags: u64) -> Option<MountPropagationUpdate> {
    let p = flags & MS_PRIVATE != 0;
    let sh = flags & MS_SHARED != 0;
    let sl = flags & MS_SLAVE != 0;
    let u = flags & MS_UNBINDABLE != 0;
    let count = (if p { 1int } else { 0 }) + (if sh { 1int } else { 0 }) + (if sl { 1int } else { 0 })
        + (if u { 1int } else { 0 });
    if count != 1 {
        None
    } else if p {
        Some(MountPropagationUpdate::Private)
    } else if sh {
        Some(MountPropagationUpdate::Shared)
    } else if sl {
        Some(MountPropagationUpdate::Slave)
    } else {
        Some(MountPropagationUpdate::Unbindable)
    }
}

pub fn mount_propagation_from_mount_flags(flags: u64) -> (r: Option<MountPropagationUpdate>)
    ensures
        r == propagation_spec(flags),
{
    let mut propagation: Option<MountPropagationUpdate> = None;
    if flags & MS_PRIVATE != 0 {
        propagation = Some(MountPropagationUpdate::Private);
    }
    if flags & MS_SHARED != 0 {
        if propagation.is_some() {
            return None;
        }
        propagation = Some(MountPropagationUpdate::Shared);
    }
    if flags & MS_SLAVE != 0 {
        if propagation.is_some() {
            return None;
        }
        propagation = Some(MountPropagationUpdate::Slave);
    }
    if flags & MS_UNBINDABLE != 0 {
        if propagation.is_some() {
            return None;
        }
        propagation = Some(MountPropagationUpdate::Unbindable);
    }
    propagation
}

/// The attributes `mount_setattr` asks to set and to clear, and the propagation it asks for.
#[derive(Clone, Copy, Debug, PartialEq, Eq, Structural)]
pub struct LinuxMountAttr {
    pub attr_set: u64,
    pub attr_clr: u64,
    pub propagation: u64,
    pub userns_fd: u64,
}

pub open spec fn attr_propagation(value: u64) -> Option<Option<MountPropagationUpdate>> {
    if value == 0 {
        Some(None)
    } else if value == MS_PRIVATE {
        Some(Some(MountPropagationUpdate::Private))
    } else if value == MS_SHARED {
        Some(Some(MountPropagationUpdate::Shared))
    } else if value == MS_SLAVE {
        Some(Some(MountPropagationUpdate::Slave))
    } else if value == MS_UNBINDABLE {
        Some(Some(MountPropagationUpdate::Unbindable))
    } else {
        None
    }
}

pub open spec fn basic_mount_mask() -> u64 {
    MS_RDONLY | MS_NOSUID | MS_NODEV | MS_NOEXEC
}

pub open spec fn atime_mask() -> u64 {
    MS_NOATIME | MS_RELATIME | MS_STRICTATIME
}

/// The flags a `mount_setattr` sets.
pub open spec fn attr_flags_spec(attr: LinuxMountAttr) -> u64 {
    (attr.attr_set & basic_mount_mask())
        | (if attr.attr_clr & MOUNT_ATTR__ATIME != 0 { MS_RELATIME } else { 0 })
        | (if attr.attr_set & MOUNT_ATTR_NOATIME != 0 { MS_NOATIME } else { 0 })
        | (if attr.attr_set & MOUNT_ATTR_STRICTATIME != 0 { MS_STRICTATIME } else { 0 })
        | (if attr.attr_set & MOUNT_ATTR_NODIRATIME != 0 { MS_NODIRATIME } else { 0 })
        | (if attr.attr_set & MOUNT_ATTR_NOSYMFOLLOW != 0 { MS_NOSYMFOLLOW } else { 0 })
}

/// The flags a `mount_setattr` decides (sets or clears).
pub open spec fn attr_mask_spec(attr: LinuxMountAttr) -> u64 {
    ((attr.attr_set | attr.attr_clr) & basic_mount_mask())
        | (if attr.attr_clr & MOUNT_ATTR__ATIME != 0 || attr.attr_set & MOUNT_ATTR_NOATIME != 0
        || attr.attr_set & MOUNT_ATTR_STRICTATIME != 0 { atime_mask() } else { 0 })
        | (if attr.attr_set & MOUNT_ATTR_NODIRATIME != 0 { MS_NODIRATIME } else { 0 })
        | (if attr.attr_set & MOUNT_ATTR_NOSYMFOLLOW != 0 { MS_NOSYMFOLLOW } else { 0 })
}

pub open spec fn supported_set() -> u64 {
    MOUNT_ATTR_RDONLY | MOUNT_ATTR_NOSUID | MOUNT_ATTR_NODEV | MOUNT_ATTR_NOEXEC | MOUNT_ATTR_NOATIME
        | MOUNT_ATTR_STRICTATIME | MOUNT_ATTR_NODIRATIME | MOUNT_ATTR_NOSYMFOLLOW
}

pub open spec fn supported_clr() -> u64 {
    MOUNT_ATTR_RDONLY | MOUNT_ATTR_NOSUID | MOUNT_ATTR_NODEV | MOUNT_ATTR_NOEXEC | MOUNT_ATTR__ATIME
}

/// What `mount_setattr` asks for, as the flags to set, the mask of flags it decides, and
/// the new propagation type. An unknown propagation value is invalid; attributes the
/// kernel does not support (id mapping among them) are refused.
pub fn mount_attr_flag_update(attr: &LinuxMountAttr) -> (r: Result<
    (u64, u64, Option<MountPropagationUpdate>),
    SyscallError,
>)
    ensures
        r == if attr_propagation(attr.propagation) is None {
            Err::<(u64, u64, Option<MountPropagationUpdate>), SyscallError>(SyscallError::InvalidArguments)
        } else if attr.attr_set & !supported_set() != 0 || attr.attr_clr & !supported_clr() != 0
            || attr.attr_set & MOUNT_ATTR_IDMAP != 0 {
            Err(SyscallError::OperationNotSupported)
        } else {
            Ok((attr_flags_spec(*attr), attr_mask_spec(*attr), attr_propagation(attr.propagation)->Some_0))
        },
{
    let supported_basic = MOUNT_ATTR_RDONLY | MOUNT_ATTR_NOSUID | MOUNT_ATTR_NODEV | MOUNT_ATTR_NOEXEC;
    let supported_set = supported_basic | MOUNT_ATTR_NOATIME | MOUNT_ATTR_STRICTATIME
        | MOUNT_ATTR_NODIRATIME | MOUNT_ATTR_NOSYMFOLLOW;
    let supported_clr = supported_basic | MOUNT_ATTR__ATIME;
    let propagation = if attr.propagation == 0 {
        None
    } else if attr.propagation == MS_PRIVATE {
        Some(MountPropagationUpdate::Private)
    } else if attr.propagation == MS_SHARED {
        Some(MountPropagationUpdate::Shared)
    } else if attr.propagation == MS_SLAVE {
        Some(MountPropagationUpdate::Slave)
    } else if attr.propagation == MS_UNBINDABLE {
        Some(MountPropagationUpdate::Unbindable)
    } else {
        return Err(SyscallError::InvalidArguments);
    };
    if attr.attr_set & !supported_set != 0 {
        return Err(SyscallError::OperationNotSupported);
    }
    if attr.attr_clr & !supported_clr != 0 {
        return Err(SyscallError::OperationNotSupported);
    }
    if attr.attr_set & MOUNT_ATTR_IDMAP != 0 {
        return Err(SyscallError::OperationNotSupported);
    }
    let basic_mask = MS_RDONLY | MS_NOSUID | MS_NODEV | MS_NOEXEC;
    let atime = MS_NOATIME | MS_RELATIME | MS_STRICTATIME;
    let clears_atime = attr.attr_clr & MOUNT_ATTR__ATIME != 0;
    let noatime = attr.attr_set & MOUNT_ATTR_NOATIME != 0;
    let strictatime = attr.attr_set & MOUNT_ATTR_STRICTATIME != 0;
    let nodiratime = attr.attr_set & MOUNT_ATTR_NODIRATIME != 0;
    let nosymfollow = attr.attr_set & MOUNT_ATTR_NOSYMFOLLOW != 0;
    let flags = (attr.attr_set & basic_mask) | (if clears_atime { MS_RELATIME } else { 0 }) | (
    if noatime {
        MS_NOATIME
    } else {
        0
    }) | (if strictatime { MS_STRICTATIME } else { 0 }) | (if nodiratime { MS_NODIRATIME } else { 0 })
        | (if nosymfollow { MS_NOSYMFOLLOW } else { 0 });
    let mask = ((attr.attr_set | attr.attr_clr) & basic_mask) | (if clears_atime || noatime
        || strictatime {
        atime
    } else {
        0
    }) | (if nodiratime { MS_NODIRATIME } else { 0 }) | (if nosymfollow { MS_NOSYMFOLLOW } else { 0 });
    Ok((flags, mask, propagation))
}

/// `umount2` accepts only force, detach, expire and no-follow.
pub fn validate_umount_flags(flags: i32) -> (r: Result<i32, SyscallError>)
    ensures
        r == if flags & !(UMOUNT_FORCE | UMOUNT_DETACH | UMOUNT_EXPIRE | UMOUNT_NOFOLLOW) != 0 {
            Err::<i32, SyscallError>(SyscallError::InvalidArguments)
        } else {
            Ok(flags)
        },
{
    let allowed = UMOUNT_FORCE | UMOUNT_DETACH | UMOUNT_EXPIRE | UMOUNT_NOFOLLOW;
    if flags != flags & allowed {
        assert(flags & !allowed != 0) by (bit_vector)
            requires
                flags != flags & allowed,
        ;
        return Err(SyscallError::InvalidArguments);
    }
    assert(flags & !allowed == 0) by (bit_vector)
        requires
            flags == flags & allowed,
    ;
    Ok(flags)
}

} // verus!

verus! {

/// `mount_setattr` only sets flags that it also decides: the flags lie inside the mask.
pub proof fn lemma_attr_flags_within_mask(attr: LinuxMountAttr)
    ensures
        attr_flags_spec(attr) & !attr_mask_spec(attr) == 0,
{
    let set = attr.attr_set;
    let clr = attr.attr_clr;
    let a = clr & 0x70u64 != 0;
    let b = set & 0x10u64 != 0;
    let c = set & 0x20u64 != 0;
    let d = set & 0x80u64 != 0;
    let e = set & 0x20_0000u64 != 0;
    let f = (set & 15u64) | (if a { 0x20_0000u64 } else { 0u64 }) | (if b { 1024u64 } else { 0u64 }) | (
    if c {
        0x100_0000u64
    } else {
        0u64
    }) | (if d { 2048u64 } else { 0u64 }) | (if e { 0x400_0000u64 } else { 0u64 });
    let m = ((set | clr) & 15u64) | (if a || b || c { 0x120_0400u64 } else { 0u64 }) | (if d {
        2048u64
    } else {
        0u64
    }) | (if e { 0x400_0000u64 } else { 0u64 });
    assert(f & !m == 0) by (bit_vector)
        requires
            f == (set & 15u64) | (if a { 0x20_0000u64 } else { 0u64 }) | (if b { 1024u64 } else { 0u64 }) | (
            if c {
                0x100_0000u64
            } else {
                0u64
            }) | (if d { 2048u64 } else { 0u64 }) | (if e { 0x400_0000u64 } else { 0u64 }),
            m == ((set | clr) & 15u64) | (if a || b || c { 0x120_0400u64 } else { 0u64 }) | (if d {
                2048u64
            } else {
                0u64
            }) | (if e { 0x400_0000u64 } else { 0u64 }),
    ;
    assert((1u64 | 2u64 | 4u64 | 8u64) == 15u64) by (bit_vector);
    assert((1u64 << 21u64) == 0x20_0000u64 && (1u64 << 24u64) == 0x100_0000u64 && (1u64 << 26u64)
        == 0x400_0000u64) by (bit_vector);
    assert((1024u64 | 0x20_0000u64 | 0x100_0000u64) == 0x120_0400u64) by (bit_vector);
    assert(attr_flags_spec(attr) == f);
    assert(attr_mask_spec(attr) == m);
}

/// The flags a new mount starts with, and the mask of those it decides: the basic
/// restrictions, the atime mode and no-symlink-follow.
pub fn initial_mount_flag_update(flags: u64) -> (r: (u64, u64))
    ensures
        r == (flags, MS_RDONLY | MS_NOSUID | MS_NODEV | MS_NOEXEC | MS_RELATIME | MS_NOATIME
            | MS_STRICTATIME | MS_NODIRATIME | MS_NOSYMFOLLOW),
{
    (flags, MS_RDONLY | MS_NOSUID | MS_NODEV | MS_NOEXEC | MS_RELATIME | MS_NOATIME
        | MS_STRICTATIME | MS_NODIRATIME | MS_NOSYMFOLLOW)
}

} // verus!
