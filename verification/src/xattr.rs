use vstd::prelude::*;
use crate::error::SyscallError;
use crate::flags::{AT_EMPTY_PATH, AT_SYMLINK_NOFOLLOW};

verus! {

/// `setxattr` flags.
pub const XATTR_CREATE: u32 = 0x1;
pub const XATTR_REPLACE: u32 = 0x2;

/// `setxattr` takes create or replace, not both, and nothing else.
pub fn validate_xattr_flags(flags: u32) -> (r: Result<(), SyscallError>)
    ensures
        r == if flags & !(XATTR_CREATE | XATTR_REPLACE) != 0 || (flags & XATTR_CREATE != 0 && flags
            & XATTR_REPLACE != 0) {
            Err::<(), SyscallError>(SyscallError::InvalidArguments)
        } else {
            Ok(())
        },
{
    let allowed = XATTR_CREATE | XATTR_REPLACE;
    if flags != flags & allowed {
        assert(flags & !allowed != 0) by (bit_vector)
            requires
                flags != flags & allowed,
        ;
        return Err(SyscallError::InvalidArguments);
    }
    assert(flags & !allowed == 0) by (bit_vector)
        requires
            flags == flags & allowed,
    ;
    if flags & XATTR_CREATE != 0 && flags & XATTR_REPLACE != 0 {
        return Err(SyscallError::InvalidArguments);
    }
    Ok(())
}

/// Whether a `setxattr` must create the attribute, and whether it must replace one.
pub fn xattr_flag_modes(flags: u32) -> (r: (bool, bool))
    ensures
        r == (flags & XATTR_CREATE != 0, flags & XATTR_REPLACE != 0),
{
    (flags & XATTR_CREATE != 0, flags & XATTR_REPLACE != 0)
}

/// An attribute name, as read from user space, must not be empty nor hold a NUL.
pub fn xattr_name_from_raw(name: Vec<u8>) -> (r: Result<Vec<u8>, SyscallError>)
    ensures
        r == if name@.len() == 0 || name@.contains(0u8) {
            Err::<Vec<u8>, SyscallError>(SyscallError::InvalidArguments)
        } else {
            Ok(name)
        },
{
    if name.len() == 0 {
        return Err(SyscallError::InvalidArguments);
    }
    let mut i: usize = 0;
    while i < name.len()
        invariant
            i <= name.len(),
            forall|j: int| 0 <= j < i ==> name@[j] != 0u8,
        decreases name.len() - i,
    {
        if name[i] == 0 {
            assert(name@[i as int] == 0u8);
            return Err(SyscallError::InvalidArguments);
        }
        i += 1;
    }
    Ok(name)
}

/// `getxattr` with a buffer of `size` bytes for a value of `len` bytes: a zero size only
/// asks for the length; a short buffer is a range error. The flag says whether the value
/// is to be copied out.
pub fn write_xattr_value(size: usize, len: usize) -> (r: Result<(usize, bool), SyscallError>)
    ensures
        r == if size == 0 {
            Ok::<(usize, bool), SyscallError>((len, false))
        } else if size < len {
            Err(SyscallError::RangeError)
        } else {
            Ok((len, true))
        },
{
    if size == 0 {
        return Ok((len, false));
    }
    if size < len {
        return Err(SyscallError::RangeError);
    }
    Ok((len, true))
}

/// The names, each followed by a NUL, one after the other.
pub open spec fn name_list_bytes(names: Seq<Seq<u8>>) -> Seq<u8>
    decreases names.len(),
{
    if names.len() == 0 {
        Seq::empty()
    } else {
        name_list_bytes(names.drop_last()) + names.last() + seq![0u8]
    }
}

/// `listxattr`: the NUL-terminated names; a zero size only asks for the length, a short
/// buffer is a range error. Returns the length and the bytes to copy out, if any.
pub fn write_xattr_list(size: usize, names: &Vec<Vec<u8>>) -> (r: Result<(usize, Option<Vec<u8>>), SyscallError>)
    requires
        name_list_bytes(names@.map_values(|n: Vec<u8>| n@)).len() <= usize::MAX,
    ensures
        ({
            let bytes = name_list_bytes(names@.map_values(|n: Vec<u8>| n@));
            if size == 0 {
                r is Ok && r->Ok_0.0 == bytes.len() && r->Ok_0.1 is None
            } else if size < bytes.len() {
                r == Err::<(usize, Option<Vec<u8>>), SyscallError>(SyscallError::RangeError)
            } else {
                r is Ok && r->Ok_0.0 == bytes.len() && r->Ok_0.1 is Some && r->Ok_0.1->Some_0@ == bytes
            }
        }),
{
    let ghost all = names@.map_values(|n: Vec<u8>| n@);
    let mut bytes: Vec<u8> = Vec::new();
    let mut i: usize = 0;
    assert(all.take(0) =~= Seq::<Seq<u8>>::empty());
    while i < names.len()
        invariant
            i <= names.len(),
            all == names@.map_values(|n: Vec<u8>| n@),
            bytes@ == name_list_bytes(all.take(i as int)),
            name_list_bytes(all).len() <= usize::MAX,
        decreases names.len() - i,
    {
        proof {
            lemma_name_list_prefix_len(all, i as int + 1);
        }
        let name = &names[i];
        let mut j: usize = 0;
        let ghost start = bytes@;
        assert(all.take(i + 1).drop_last() =~= all.take(i as int));
        assert(all[i as int] == name@);
        assert(all.take(i + 1).last() == name@);
        while j < name.len()
            invariant
                j <= name.len(),
                bytes@ == start + name@.take(j as int),
                start.len() + name@.len() + 1 <= usize::MAX,
            decreases name.len() - j,
        {
            bytes.push(name[j]);
            assert(name@.take(j + 1) =~= name@.take(j as int).push(name@[j as int]));
            j += 1;
        }
        bytes.push(0);
        assert(all.take(i + 1).drop_last() =~= all.take(i as int));
        assert(name@.take(j as int) =~= name@);
        assert(all[i as int] == name@);
        assert(bytes@ =~= name_list_bytes(all.take(i + 1)));
        i += 1;
    }
    assert(all.take(i as int) =~= all);
    let len = bytes.len();
    if size == 0 {
        return Ok((len, None));
    }
    if size < len {
        return Err(SyscallError::RangeError);
    }
    Ok((len, Some(bytes)))
}

/// A prefix of the list takes no more bytes than the whole list.
proof fn lemma_name_list_prefix_len(names: Seq<Seq<u8>>, n: int)
    requires
        0 <= n <= names.len(),
    ensures
        name_list_bytes(names.take(n)).len() <= name_list_bytes(names).len(),
    decreases names.len(),
{
    if n < names.len() {
        lemma_name_list_prefix_len(names.drop_last(), n);
        assert(names.drop_last().take(n) =~= names.take(n));
    } else {
        assert(names.take(n) =~= names);
    }
}

/// File attribute flags the kernel supports: immutable and append-only.
pub const FS_IMMUTABLE_FL: u32 = 0x10;
pub const FS_APPEND_FL: u32 = 0x20;
pub const FS_XFLAG_EXTSIZE: u64 = 0x0000_0800;
pub const FS_XFLAG_COWEXTSIZE: u64 = 0x0001_0000;
pub const SUPPORTED_FILE_XFLAGS: u64 = 0x30;
/// The smallest `file_attr` structure.
pub const FILE_ATTR_SIZE_VER0: usize = 24;
pub const PAGE_SIZE: usize = 4096;

/// The `file_attr` structure of `file_getattr` and `file_setattr`.
#[derive(Clone, Copy, Debug, PartialEq, Eq, Structural)]
pub struct LinuxFileAttr {
    pub fa_xflags: u64,
    pub fa_extsize: u32,
    pub fa_nextents: u32,
    pub fa_projid: u32,
    pub fa_cowextsize: u32,
}

impl LinuxFileAttr {
    /// The structure that reports a file's attribute flags.
    pub fn from_vfs(attributes: u32) -> (r: Self)
        ensures
            r == (LinuxFileAttr {
                fa_xflags: attributes as u64,
                fa_extsize: 0,
                fa_nextents: 0,
                fa_projid: 0,
                fa_cowextsize: 0,
            }),
    {
        LinuxFileAttr {
            fa_xflags: attributes as u64,
            fa_extsize: 0,
            fa_nextents: 0,
            fa_projid: 0,
            fa_cowextsize: 0,
        }
    }

    /// Whether the structure asks for extent sizes or project ids, which are not supported.
    pub fn has_unsupported_fsx_fields(self) -> (r: bool)
        ensures
            r == ((self.fa_xflags & (FS_XFLAG_EXTSIZE | FS_XFLAG_COWEXTSIZE)) != 0 || self.fa_extsize
                != 0 || self.fa_projid != 0 || self.fa_cowextsize != 0),
    {
        (self.fa_xflags & (FS_XFLAG_EXTSIZE | FS_XFLAG_COWEXTSIZE)) != 0 || self.fa_extsize != 0
            || self.fa_projid != 0 || self.fa_cowextsize != 0
    }

    /// The attribute flags to set: only immutable and append-only are supported.
    pub fn vfs_attributes(self) -> (r: Result<u32, SyscallError>)
        ensures
            r == if (self.fa_xflags & (FS_XFLAG_EXTSIZE | FS_XFLAG_COWEXTSIZE)) != 0 || self.fa_extsize
                != 0 || self.fa_projid != 0 || self.fa_cowextsize != 0 || self.fa_xflags
                & !SUPPORTED_FILE_XFLAGS != 0 {
                Err::<u32, SyscallError>(SyscallError::OperationNotSupported)
            } else {
                Ok(self.fa_xflags as u32)
            },
    {
        if self.has_unsupported_fsx_fields() {
            return Err(SyscallError::OperationNotSupported);
        }
        let unsupported_xflags = self.fa_xflags & !SUPPORTED_FILE_XFLAGS;
        if unsupported_xflags != 0 {
            return Err(SyscallError::OperationNotSupported);
        }
        Ok(self.fa_xflags as u32)
    }
}

/// The argument checks of `file_getattr` and `file_setattr`: both pointers set, a size
/// from the first version up to a page, and only the no-follow and empty-path flags.
pub fn validate_file_attr_args(
    path_is_null: bool,
    attr_is_null: bool,
    size: usize,
    at_flags: i32,
) -> (r: Result<(), SyscallError>)
    ensures
        r == if path_is_null || attr_is_null {
            Err::<(), SyscallError>(SyscallError::BadAddress)
        } else if size < FILE_ATTR_SIZE_VER0 {
            Err(SyscallError::InvalidArguments)
        } else if size > PAGE_SIZE {
            Err(SyscallError::ArgumentListTooLong)
        } else if at_flags & !(AT_SYMLINK_NOFOLLOW | AT_EMPTY_PATH) != 0 {
            Err(SyscallError::InvalidArguments)
        } else {
            Ok(())
        },
{
    if path_is_null || attr_is_null {
        return Err(SyscallError::BadAddress);
    }
    if size < FILE_ATTR_SIZE_VER0 {
        return Err(SyscallError::InvalidArguments);
    }
    if size > PAGE_SIZE {
        return Err(SyscallError::ArgumentListTooLong);
    }
    if at_flags & !(AT_SYMLINK_NOFOLLOW | AT_EMPTY_PATH) != 0 {
        return Err(SyscallError::InvalidArguments);
    }
    Ok(())
}

/// A missing attribute is `NoData`; other errors pass through.
pub fn xattr_not_found(err: SyscallError) -> (r: SyscallError)
    ensures
        r == if err == SyscallError::FileNotFound {
            SyscallError::NoData
        } else {
            err
        },
{
    match err {
        SyscallError::FileNotFound => SyscallError::NoData,
        e => e,
    }
}

} // verus!
