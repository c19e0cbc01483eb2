use vstd::prelude::*;
use crate::error::SyscallError;
use crate::keyring::bytes_equal;
use crate::text::push_all;

verus! {

/// What a directory entry names.
#[derive(Clone, Copy, Debug, PartialEq, Eq, Structural)]
pub enum DirectoryContentType {
    Directory,
    File,
    Symlink,
}

/// One entry of a directory listing; an inode of zero means the file system gave none.
pub struct DirEntry {
    pub name: Vec<u8>,
    pub content_type: DirectoryContentType,
    pub inode: u64,
}

/// A directory entry as a mathematical value.
pub struct DirEntryView {
    pub name: Seq<u8>,
    pub content_type: DirectoryContentType,
    pub inode: u64,
}

impl View for DirEntry {
    type V = DirEntryView;

    open spec fn view(&self) -> DirEntryView {
        DirEntryView { name: self.name@, content_type: self.content_type, inode: self.inode }
    }
}

/// The views of a listing.
pub open spec fn entries_view(entries: Seq<DirEntry>) -> Seq<DirEntryView> {
    entries.map_values(|e: DirEntry| e@)
}

/// The `d_type` of an entry.
pub open spec fn dirent_type(t: DirectoryContentType) -> u8 {
    match t {
        DirectoryContentType::Directory => 4,
        DirectoryContentType::File => 8,
        DirectoryContentType::Symlink => 10,
    }
}

/// The `d_type` of an entry.
pub fn dirent_type_code(t: DirectoryContentType) -> (r: u8)
    ensures
        r == dirent_type(t),
{
    match t {
        DirectoryContentType::Directory => 4,
        DirectoryContentType::File => 8,
        DirectoryContentType::Symlink => 10,
    }
}

/// The FNV-1a offset basis and prime.
pub const FNV_OFFSET_BASIS: u64 = 0xcbf2_9ce4_8422_2325;
pub const FNV_PRIME: u64 = 0x0000_0100_0000_01b3;

/// `a * b` modulo 2^64.
pub open spec fn mul_wrap(a: u64, b: u64) -> u64 {
    ((a as nat * b as nat) % 0x1_0000_0000_0000_0000nat) as u64
}

/// The FNV-1a hash of `bytes` from `h` on.
pub open spec fn fnv1a(h: u64, bytes: Seq<u8>) -> u64
    decreases bytes.len(),
{
    if bytes.len() == 0 {
        h
    } else {
        mul_wrap(fnv1a(h, bytes.drop_last()) ^ (bytes.last() as u64), FNV_PRIME)
    }
}

/// The inode a listing reports for an entry without one: a hash of its name, type and
/// position, never zero.
pub open spec fn fallback_inode(e: DirEntryView, offset: u64) -> u64 {
    let h = fnv1a(FNV_OFFSET_BASIS, e.name) ^ (dirent_type(e.content_type) as u64) ^ offset;
    if h < 1 {
        1
    } else {
        h
    }
}

/// The inode a listing reports for an entry without one.
pub fn fallback_dirent_inode(entry: &DirEntry, offset: usize) -> (r: u64)
    ensures
        r == fallback_inode(entry@, offset as u64),
        r != 0,
{
    let mut hash: u64 = FNV_OFFSET_BASIS;
    let mut i: usize = 0;
    while i < entry.name.len()
        invariant
            i <= entry.name.len(),
            hash == fnv1a(FNV_OFFSET_BASIS, entry.name@.take(i as int)),
        decreases entry.name.len() - i,
    {
        hash = hash ^ (entry.name[i] as u64);
        hash = hash.wrapping_mul(FNV_PRIME);
        assert(entry.name@.take(i + 1).drop_last() =~= entry.name@.take(i as int));
        i += 1;
    }
    assert(entry.name@.take(entry.name@.len() as int) =~= entry.name@);
    hash = hash ^ (dirent_type_code(entry.content_type) as u64);
    hash = hash ^ (offset as u64);
    if hash < 1 {
        1
    } else {
        hash
    }
}

/// The inode an entry is listed with.
pub open spec fn listed_inode(e: DirEntryView, index: int) -> u64 {
    if e.inode != 0 {
        e.inode
    } else {
        fallback_inode(e, index as u64)
    }
}

/// The eight bytes of `v`, least significant first.
pub open spec fn le_u64(v: u64) -> Seq<u8> {
    Seq::new(8, |i: int| ((v >> ((8 * i) as u64)) & 0xff) as u8)
}

/// The two bytes of `v`, least significant first.
pub open spec fn le_u16(v: u16) -> Seq<u8> {
    seq![(v & 0xff) as u8, (v >> 8) as u8]
}

/// `n` zero bytes.
pub open spec fn zeros(n: nat) -> Seq<u8> {
    Seq::new(n, |i: int| 0u8)
}

/// `n` rounded up to a multiple of eight.
pub open spec fn round_up8(n: nat) -> nat {
    ((n + 7) / 8) * 8
}

/// The record length of an entry named `name` (the same for both layouts).
pub open spec fn record_len(name: Seq<u8>) -> nat {
    round_up8(20 + name.len())
}

/// The longest name whose record length fits in sixteen bits.
pub const DIRENT_NAME_MAX: usize = 65508;

/// A `linux_dirent64` record: inode, next offset, length, type, the name, a terminator and
/// padding.
pub open spec fn dirent64_record(e: DirEntryView, index: int) -> Seq<u8> {
    let reclen = record_len(e.name);
    le_u64(listed_inode(e, index)) + le_u64((index + 1) as u64) + le_u16(reclen as u16) + seq![
        dirent_type(e.content_type),
    ] + e.name + zeros((reclen - 19 - e.name.len()) as nat)
}

/// A `linux_dirent` record: inode, next offset, length, the name, a terminator and padding,
/// the type in the last byte.
pub open spec fn dirent_record(e: DirEntryView, index: int) -> Seq<u8> {
    let reclen = record_len(e.name);
    le_u64(listed_inode(e, index)) + le_u64((index + 1) as u64) + le_u16(reclen as u16) + e.name
        + zeros((reclen - 19 - e.name.len()) as nat) + seq![dirent_type(e.content_type)]
}

/// The record of the entry at `index` in one layout or the other.
pub open spec fn record_of(e: DirEntryView, index: int, wide: bool) -> Seq<u8> {
    if wide {
        dirent64_record(e, index)
    } else {
        dirent_record(e, index)
    }
}

/// The records of the entries from `index` on that fit, one after another, in `room` bytes.
pub open spec fn records_from(entries: Seq<DirEntryView>, index: int, room: nat, wide: bool) -> Seq<
    Seq<u8>,
>
    decreases entries.len() - index,
{
    if index < 0 || index >= entries.len() {
        Seq::empty()
    } else if record_len(entries[index].name) > room {
        Seq::empty()
    } else {
        seq![record_of(entries[index], index, wide)] + records_from(
            entries,
            index + 1,
            (room - record_len(entries[index].name)) as nat,
            wide,
        )
    }
}

/// What `getdents`/`getdents64` answer for a listing whose offset is `offset`: the records
/// from the offset on that fit in `len` bytes, nothing at the end, and `InvalidArguments`
/// where not even the first record fits.
pub open spec fn dirents_result(
    buf_is_null: bool,
    listing: Result<(Seq<DirEntryView>, usize), SyscallError>,
    len: usize,
    wide: bool,
) -> Result<Seq<Seq<u8>>, SyscallError> {
    if buf_is_null {
        Err(SyscallError::BadAddress)
    } else {
        match listing {
            Err(e) => Err(e),
            Ok((entries, offset)) => if offset >= entries.len() {
                Ok(Seq::empty())
            } else if len < 24 || record_len(entries[offset as int].name) > len {
                Err(SyscallError::InvalidArguments)
            } else {
                Ok(records_from(entries, offset as int, len as nat, wide))
            },
        }
    }
}

/// Appends the eight bytes of `v`, least significant first.
fn push_le_u64(out: &mut Vec<u8>, v: u64)
    ensures
        final(out)@ == old(out)@ + le_u64(v),
{
    let mut i: u64 = 0;
    while i < 8
        invariant
            i <= 8,
            out@ == old(out)@ + le_u64(v).take(i as int),
        decreases 8 - i,
    {
        out.push(((v >> (8 * i)) & 0xff) as u8);
        assert(le_u64(v).take(i + 1) =~= le_u64(v).take(i as int).push(((v >> (8 * i)) & 0xff) as u8));
        i += 1;
        assert(out@ =~= old(out)@ + le_u64(v).take(i as int));
    }
    assert(le_u64(v).take(8) =~= le_u64(v));
}

/// Appends `n` zero bytes.
fn push_zeros(out: &mut Vec<u8>, n: usize)
    ensures
        final(out)@ == old(out)@ + zeros(n as nat),
{
    let mut i: usize = 0;
    while i < n
        invariant
            i <= n,
            out@ == old(out)@ + zeros(i as nat),
        decreases n - i,
    {
        out.push(0);
        i += 1;
        assert(out@ =~= old(out)@ + zeros(i as nat));
    }
}

/// The record of one entry in one layout or the other.
fn encode_record(entry: &DirEntry, index: usize, wide: bool) -> (r: Vec<u8>)
    requires
        entry.name@.len() <= DIRENT_NAME_MAX,
        index < i64::MAX,
    ensures
        r@ == record_of(entry@, index as int, wide),
        r@.len() == record_len(entry@.name),
{
    let n = entry.name.len();
    let reclen: usize = (20 + n + 7) / 8 * 8;
    let inode = if entry.inode != 0 {
        entry.inode
    } else {
        fallback_dirent_inode(entry, index)
    };
    let mut out: Vec<u8> = Vec::new();
    push_le_u64(&mut out, inode);
    push_le_u64(&mut out, index as u64 + 1);
    let len16 = reclen as u16;
    out.push((len16 & 0xff) as u8);
    out.push((len16 >> 8) as u8);
    let type_code = dirent_type_code(entry.content_type);
    if wide {
        out.push(type_code);
        push_all(&mut out, entry.name.as_slice());
        push_zeros(&mut out, reclen - 19 - n);
    } else {
        push_all(&mut out, entry.name.as_slice());
        push_zeros(&mut out, reclen - 19 - n);
        out.push(type_code);
    }
    assert(out@ =~= record_of(entry@, index as int, wide));
    out
}

/// The records `getdents` (`wide` false) or `getdents64` (`wide` true) writes for a listing
/// and its current offset, one per entry, in order; the caller writes them out and advances
/// the offset past each one written. `listing` is what reading the directory gave.
pub fn write_dirents_records(
    buf_is_null: bool,
    listing: Result<(Vec<DirEntry>, usize), SyscallError>,
    len: usize,
    wide: bool,
) -> (r: Result<Vec<Vec<u8>>, SyscallError>)
    requires
        listing matches Ok((entries, _)) ==> entries@.len() <= i64::MAX && forall|i: int|
            0 <= i < entries@.len() ==> (#[trigger] entries@[i]).name@.len() <= DIRENT_NAME_MAX,
    ensures
        match r {
            Ok(records) => dirents_result(
                buf_is_null,
                match listing {
                    Ok((entries, offset)) => Ok((entries_view(entries@), offset)),
                    Err(e) => Err(e),
                },
                len,
                wide,
            ) == Ok::<Seq<Seq<u8>>, SyscallError>(records@.map_values(|v: Vec<u8>| v@)),
            Err(e) => dirents_result(
                buf_is_null,
                match listing {
                    Ok((entries, offset)) => Ok((entries_view(entries@), offset)),
                    Err(e) => Err(e),
                },
                len,
                wide,
            ) == Err::<Seq<Seq<u8>>, SyscallError>(e),
        },
{
    if buf_is_null {
        return Err(SyscallError::BadAddress);
    }
    let (entries, offset) = listing?;
    let ghost ev = entries_view(entries@);
    if offset >= entries.len() {
        let r: Vec<Vec<u8>> = Vec::new();
        assert(r@.map_values(|v: Vec<u8>| v@) =~= Seq::<Seq<u8>>::empty());
        return Ok(r);
    }
    let first_len: usize = (20 + entries[offset].name.len() + 7) / 8 * 8;
    if len < 24 || first_len > len {
        return Err(SyscallError::InvalidArguments);
    }
    let mut out: Vec<Vec<u8>> = Vec::new();
    let mut index: usize = offset;
    let mut written: usize = 0;
    while index < entries.len()
        invariant_except_break
            offset <= index <= entries.len(),
            entries@.len() <= i64::MAX,
            written <= len,
            ev == entries_view(entries@),
            forall|i: int| 0 <= i < entries@.len() ==> (#[trigger] entries@[i]).name@.len() <= DIRENT_NAME_MAX,
            records_from(ev, offset as int, len as nat, wide) == out@.map_values(|v: Vec<u8>| v@)
                + records_from(ev, index as int, (len - written) as nat, wide),
        ensures
            records_from(ev, offset as int, len as nat, wide) == out@.map_values(|v: Vec<u8>| v@),
        decreases entries.len() - index,
    {
        let reclen: usize = (20 + entries[index].name.len() + 7) / 8 * 8;
        if reclen > len - written {
            assert(records_from(ev, index as int, (len - written) as nat, wide) =~= Seq::<Seq<u8>>::empty());
            assert(out@.map_values(|v: Vec<u8>| v@) + Seq::<Seq<u8>>::empty() =~= out@.map_values(
                |v: Vec<u8>| v@,
            ));
            break;
        }
        let record = encode_record(&entries[index], index, wide);
        let ghost before = out@.map_values(|v: Vec<u8>| v@);
        out.push(record);
        assert(out@.map_values(|v: Vec<u8>| v@) =~= before.push(record@));
        assert(before + records_from(ev, index as int, (len - written) as nat, wide) =~= out@.map_values(
            |v: Vec<u8>| v@,
        ) + records_from(ev, index + 1, (len - written - reclen) as nat, wide));
        written = written + reclen;
        index = index + 1;
    }
    if index >= entries.len() {
        assert(records_from(ev, index as int, (len - written) as nat, wide) =~= Seq::<Seq<u8>>::empty());
        assert(out@.map_values(|v: Vec<u8>| v@) + Seq::<Seq<u8>>::empty() =~= out@.map_values(
            |v: Vec<u8>| v@,
        ));
    }
    Ok(out)
}

/// `.` and `..` as names.
pub open spec fn dot_name() -> Seq<u8> {
    seq![0x2eu8]
}

pub open spec fn dotdot_name() -> Seq<u8> {
    seq![0x2eu8, 0x2eu8]
}

/// A listing with `.` and `..` in front where the file system did not list them.
pub open spec fn with_dot_entries(contents: Seq<DirEntryView>) -> Seq<DirEntryView> {
    let has_dot = exists|i: int| 0 <= i < contents.len() && (#[trigger] contents[i]).name == dot_name();
    let has_dotdot = exists|i: int|
        0 <= i < contents.len() && (#[trigger] contents[i]).name == dotdot_name();
    (if has_dot {
        Seq::empty()
    } else {
        seq![DirEntryView { name: dot_name(), content_type: DirectoryContentType::Directory, inode: 0 }]
    }) + (if has_dotdot {
        Seq::empty()
    } else {
        seq![DirEntryView { name: dotdot_name(), content_type: DirectoryContentType::Directory, inode: 0 }]
    }) + contents
}

/// Whether some entry is named `name`.
fn has_entry_named(contents: &Vec<DirEntry>, name: &[u8]) -> (r: bool)
    ensures
        r == exists|i: int| 0 <= i < contents@.len() && (#[trigger] contents@[i])@.name == name@,
{
    let mut i: usize = 0;
    while i < contents.len()
        invariant
            i <= contents.len(),
            forall|j: int| 0 <= j < i ==> (#[trigger] contents@[j])@.name != name@,
        decreases contents.len() - i,
    {
        if bytes_equal(contents[i].name.as_slice(), name) {
            return true;
        }
        i += 1;
    }
    false
}

/// A listing with `.` and `..` in front where the file system did not list them.
pub fn directory_contents_with_dot_entries(contents: Vec<DirEntry>) -> (r: Vec<DirEntry>)
    ensures
        entries_view(r@) == with_dot_entries(entries_view(contents@)),
{
    let dot: [u8; 1] = [0x2e];
    let dotdot: [u8; 2] = [0x2e, 0x2e];
    assert(dot@ =~= dot_name());
    assert(dotdot@ =~= dotdot_name());
    let has_dot = has_entry_named(&contents, &dot);
    let has_dotdot = has_entry_named(&contents, &dotdot);
    let ghost cv = entries_view(contents@);
    assert(has_dot == exists|i: int| 0 <= i < cv.len() && (#[trigger] cv[i]).name == dot_name()) by {
        if has_dot {
            let i = choose|i: int| 0 <= i < contents@.len() && (#[trigger] contents@[i])@.name == dot@;
            assert(cv[i].name == dot_name());
        }
    }
    assert(has_dotdot == exists|i: int| 0 <= i < cv.len() && (#[trigger] cv[i]).name == dotdot_name()) by {
        if has_dotdot {
            let i = choose|i: int| 0 <= i < contents@.len() && (#[trigger] contents@[i])@.name == dotdot@;
            assert(cv[i].name == dotdot_name());
        }
    }
    let mut out: Vec<DirEntry> = Vec::new();
    if !has_dot {
        out.push(DirEntry { name: vec![0x2e], content_type: DirectoryContentType::Directory, inode: 0 });
    }
    if !has_dotdot {
        out.push(
            DirEntry { name: vec![0x2e, 0x2e], content_type: DirectoryContentType::Directory, inode: 0 },
        );
    }
    let ghost front = entries_view(out@);
    let mut rest = contents;
    out.append(&mut rest);
    assert(entries_view(out@) =~= with_dot_entries(cv)) by {
        assert(front =~= (if has_dot {
            Seq::empty()
        } else {
            seq![DirEntryView { name: dot_name(), content_type: DirectoryContentType::Directory, inode: 0 }]
        }) + (if has_dotdot {
            Seq::empty()
        } else {
            seq![DirEntryView { name: dotdot_name(), content_type: DirectoryContentType::Directory, inode: 0 }]
        }));
    }
    out
}

/// The `linux_dirent64` records of `getdents64`; see `write_dirents_records`.
pub fn write_dirents64(
    buf_is_null: bool,
    listing: Result<(Vec<DirEntry>, usize), SyscallError>,
    len: usize,
) -> (r: Result<Vec<Vec<u8>>, SyscallError>)
    requires
        listing matches Ok((entries, _)) ==> entries@.len() <= i64::MAX && forall|i: int|
            0 <= i < entries@.len() ==> (#[trigger] entries@[i]).name@.len() <= DIRENT_NAME_MAX,
    ensures
        match r {
            Ok(records) => dirents_result(
                buf_is_null,
                match listing {
                    Ok((entries, offset)) => Ok((entries_view(entries@), offset)),
                    Err(e) => Err(e),
                },
                len,
                true,
            ) == Ok::<Seq<Seq<u8>>, SyscallError>(records@.map_values(|v: Vec<u8>| v@)),
            Err(e) => dirents_result(
                buf_is_null,
                match listing {
                    Ok((entries, offset)) => Ok((entries_view(entries@), offset)),
                    Err(e) => Err(e),
                },
                len,
                true,
            ) == Err::<Seq<Seq<u8>>, SyscallError>(e),
        },
{
    write_dirents_records(buf_is_null, listing, len, true)
}

/// The `linux_dirent` records of `getdents`; see `write_dirents_records`.
pub fn write_dirents(
    buf_is_null: bool,
    listing: Result<(Vec<DirEntry>, usize), SyscallError>,
    len: usize,
) -> (r: Result<Vec<Vec<u8>>, SyscallError>)
    requires
        listing matches Ok((entries, _)) ==> entries@.len() <= i64::MAX && forall|i: int|
            0 <= i < entries@.len() ==> (#[trigger] entries@[i]).name@.len() <= DIRENT_NAME_MAX,
    ensures
        match r {
            Ok(records) => dirents_result(
                buf_is_null,
                match listing {
                    Ok((entries, offset)) => Ok((entries_view(entries@), offset)),
                    Err(e) => Err(e),
                },
                len,
                false,
            ) == Ok::<Seq<Seq<u8>>, SyscallError>(records@.map_values(|v: Vec<u8>| v@)),
            Err(e) => dirents_result(
                buf_is_null,
                match listing {
                    Ok((entries, offset)) => Ok((entries_view(entries@), offset)),
                    Err(e) => Err(e),
                },
                len,
                false,
            ) == Err::<Seq<Seq<u8>>, SyscallError>(e),
        },
{
    write_dirents_records(buf_is_null, listing, len, false)
}

} // verus!
