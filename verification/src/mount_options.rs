use vstd::prelude::*;
use crate::error::SyscallError;
use crate::keyring::bytes_equal;
use crate::open_path::{has_prefix, starts_with};
use crate::text::{decimal, push_all, push_decimal};

verus! {

/// Whether `b` is a digit of base `radix` (at most ten).
pub open spec fn is_digit(b: u8, radix: nat) -> bool {
    0x30 <= b && (b - 0x30) < radix
}

/// The value of a string of digits of base `radix`.
pub open spec fn digits_value(s: Seq<u8>, radix: nat) -> nat
    decreases s.len(),
{
    if s.len() == 0 {
        0
    } else {
        digits_value(s.drop_last(), radix) * radix + (s.last() - 0x30) as nat
    }
}

/// `s` without one leading `+`.
pub open spec fn unsigned_body(s: Seq<u8>) -> Seq<u8> {
    if s.len() > 0 && s[0] == 0x2bu8 {
        s.drop_first()
    } else {
        s
    }
}

/// What parsing the digits `body` of base `radix` up to `max` gives: at least one digit,
/// nothing else, and a value that fits.
pub open spec fn parse_digits(body: Seq<u8>, radix: nat, max: nat) -> Option<nat> {
    if body.len() == 0 {
        None
    } else if exists|i: int| 0 <= i < body.len() && !is_digit(#[trigger] body[i], radix) {
        None
    } else if digits_value(body, radix) > max {
        None
    } else {
        Some(digits_value(body, radix))
    }
}

/// What parsing `s` as an unsigned number of base `radix` up to `max` gives: an optional
/// `+`, then at least one digit and nothing else, and a value that fits.
pub open spec fn parse_unsigned(s: Seq<u8>, radix: nat, max: nat) -> Option<nat> {
    parse_digits(unsigned_body(s), radix, max)
}

proof fn lemma_digits_value_monotone(s: Seq<u8>, radix: nat, i: int)
    requires
        0 <= i <= s.len(),
        radix >= 1,
        forall|j: int| 0 <= j < s.len() ==> is_digit(#[trigger] s[j], radix),
    ensures
        digits_value(s.take(i), radix) <= digits_value(s, radix),
    decreases s.len() - i,
{
    if i < s.len() {
        lemma_digits_value_monotone(s, radix, i + 1);
        assert(s.take(i + 1).drop_last() =~= s.take(i));
        let v = digits_value(s.take(i), radix);
        assert(v <= v * radix) by (nonlinear_arith)
            requires
                radix >= 1,
        ;
    } else {
        assert(s.take(i) =~= s);
    }
}

/// Parses an unsigned number of base `radix` (two to ten) no larger than `max`.
#[verifier::loop_isolation(false)]
pub fn parse_unsigned_bytes(s: &[u8], radix: u64, max: u64) -> (r: Option<u64>)
    requires
        2 <= radix <= 10,
    ensures
        r matches Some(v) ==> parse_unsigned(s@, radix as nat, max as nat) == Some(v as nat),
        r is None ==> parse_unsigned(s@, radix as nat, max as nat) is None,
{
    let start: usize = if s.len() > 0 && s[0] == 0x2b {
        1
    } else {
        0
    };
    let ghost body = unsigned_body(s@);
    assert(body =~= s@.skip(start as int));
    if start >= s.len() {
        return None;
    }
    let mut value: u64 = 0;
    let mut i: usize = start;
    while i < s.len()
        invariant
            start <= i <= s.len(),
            body == s@.skip(start as int),
            2 <= radix <= 10,
            value as nat == digits_value(body.take(i - start), radix as nat),
            value <= max,
            forall|j: int| 0 <= j < i - start ==> is_digit(#[trigger] body[j], radix as nat),
        decreases s.len() - i,
    {
        let b = s[i];
        assert(body[i - start] == b);
        if b < 0x30 || (b - 0x30) as u64 >= radix {
            assert(!is_digit(body[i - start], radix as nat));
            return None;
        }
        let d = (b - 0x30) as u64;
        assert(is_digit(body[i - start], radix as nat));
        assert(body.take(i - start + 1).drop_last() =~= body.take(i - start));
        assert(body.take(i - start + 1).last() == b);
        assert(digits_value(body.take(i - start + 1), radix as nat) == value * radix + d);
        let next = match value.checked_mul(radix) {
            Some(m) => match m.checked_add(d) {
                Some(n) => n,
                None => {
                    proof {
                        lemma_digits_value_monotone_prefix(body, radix as nat, i - start + 1);
                    }
                    return None;
                },
            },
            None => {
                proof {
                    lemma_digits_value_monotone_prefix(body, radix as nat, i - start + 1);
                }
                return None;
            },
        };
        if next > max {
            proof {
                lemma_digits_value_monotone_prefix(body, radix as nat, i - start + 1);
            }
            return None;
        }
        value = next;
        i += 1;
    }
    assert(body.take(body.len() as int) =~= body);
    Some(value)
}

/// Where every digit of `s` so far is valid, the value of a prefix bounds the whole
/// string's value, or the string has a bad digit further on.
proof fn lemma_digits_value_monotone_prefix(body: Seq<u8>, radix: nat, k: int)
    requires
        0 <= k <= body.len(),
        radix >= 2,
        forall|j: int| 0 <= j < k ==> is_digit(#[trigger] body[j], radix),
    ensures
        (forall|j: int| 0 <= j < body.len() ==> is_digit(#[trigger] body[j], radix)) ==> digits_value(
            body.take(k),
            radix,
        ) <= digits_value(body, radix),
{
    if forall|j: int| 0 <= j < body.len() ==> is_digit(#[trigger] body[j], radix) {
        lemma_digits_value_monotone(body, radix, k);
    }
}

/// The pieces of `s` between separators `sep`, in order (one empty piece for an empty `s`).
pub open spec fn split_pieces(s: Seq<u8>, sep: u8) -> Seq<Seq<u8>>
    decreases s.len(),
{
    if s.len() == 0 {
        seq![Seq::empty()]
    } else if s.last() == sep {
        split_pieces(s.drop_last(), sep).push(Seq::empty())
    } else {
        let p = split_pieces(s.drop_last(), sep);
        p.update(p.len() - 1, p.last().push(s.last()))
    }
}

proof fn lemma_split_pieces_nonempty(s: Seq<u8>, sep: u8)
    ensures
        split_pieces(s, sep).len() >= 1,
    decreases s.len(),
{
    if s.len() > 0 {
        lemma_split_pieces_nonempty(s.drop_last(), sep);
    }
}

/// The pieces of `s` between separators `sep`, in order.
pub fn split_bytes(s: &[u8], sep: u8) -> (r: Vec<Vec<u8>>)
    ensures
        r@.map_values(|v: Vec<u8>| v@) == split_pieces(s@, sep),
{
    let mut pieces: Vec<Vec<u8>> = Vec::new();
    let mut current: Vec<u8> = Vec::new();
    let mut i: usize = 0;
    while i < s.len()
        invariant
            i <= s.len(),
            pieces@.map_values(|v: Vec<u8>| v@).push(current@) == split_pieces(s@.take(i as int), sep),
        decreases s.len() - i,
    {
        let ghost before = split_pieces(s@.take(i as int), sep);
        assert(s@.take(i + 1).drop_last() =~= s@.take(i as int));
        proof {
            lemma_split_pieces_nonempty(s@.take(i as int), sep);
        }
        if s[i] == sep {
            let done = current;
            pieces.push(done);
            current = Vec::new();
            assert(pieces@.map_values(|v: Vec<u8>| v@).push(current@) =~= before.push(Seq::empty()));
        } else {
            let ghost old_pieces = pieces@.map_values(|v: Vec<u8>| v@);
            current.push(s[i]);
            assert(old_pieces.push(current@) =~= before.update(before.len() - 1, before.last().push(s@[i as int])));
        }
        i += 1;
    }
    assert(s@.take(s@.len() as int) =~= s@);
    let mut out = pieces;
    out.push(current);
    out
}

/// `fd=`
pub open spec fn fd_key() -> Seq<u8> {
    seq![0x66u8, 0x64u8, 0x3du8]
}

/// `mode=`
pub open spec fn mode_key() -> Seq<u8> {
    seq![0x6du8, 0x6fu8, 0x64u8, 0x65u8, 0x3du8]
}

/// Options of a FUSE mount that this kernel reads.
#[derive(Clone, Copy, Debug, PartialEq, Eq, Structural)]
pub struct FuseMountOptions {
    pub fd: Option<u64>,
}

/// The `fd=` option of a FUSE mount's data: the last one counts, and any that is not a
/// number is `InvalidArguments`.
pub open spec fn fuse_fd_option(pieces: Seq<Seq<u8>>) -> Result<Option<u64>, SyscallError>
    decreases pieces.len(),
{
    if pieces.len() == 0 {
        Ok(None)
    } else {
        let rest = fuse_fd_option(pieces.drop_last());
        let item = pieces.last();
        if !has_prefix(item, fd_key()) {
            rest
        } else {
            match parse_unsigned(item.skip(3), 10, u64::MAX as nat) {
                None => Err(SyscallError::InvalidArguments),
                Some(v) => match rest {
                    Err(e) => Err(e),
                    Ok(_) => Ok(Some(v as u64)),
                },
            }
        }
    }
}

/// Reads the FUSE mount data (`key=value` items separated by commas).
#[verifier::loop_isolation(false)]
pub fn parse_fuse_mount_options(data: Option<&[u8]>) -> (r: Result<FuseMountOptions, SyscallError>)
    ensures
        match data {
            None => r == Ok::<FuseMountOptions, SyscallError>(FuseMountOptions { fd: None }),
            Some(d) => match fuse_fd_option(split_pieces(d@, 0x2c)) {
                Ok(fd) => r == Ok::<FuseMountOptions, SyscallError>(FuseMountOptions { fd }),
                Err(e) => r == Err::<FuseMountOptions, SyscallError>(e),
            },
        },
{
    let data = match data {
        None => return Ok(FuseMountOptions { fd: None }),
        Some(d) => d,
    };
    let pieces = split_bytes(data, 0x2c);
    let ghost ps = pieces@.map_values(|v: Vec<u8>| v@);
    let key: [u8; 3] = [0x66, 0x64, 0x3d];
    assert(key@ =~= fd_key());
    let mut fd: Option<u64> = None;
    let mut failed = false;
    let mut i: usize = 0;
    while i < pieces.len()
        invariant
            i <= pieces.len(),
            ps == pieces@.map_values(|v: Vec<u8>| v@),
            key@ == fd_key(),
            if failed {
                fuse_fd_option(ps.take(i as int)) == Err::<Option<u64>, SyscallError>(SyscallError::InvalidArguments)
            } else {
                fuse_fd_option(ps.take(i as int)) == Ok::<Option<u64>, SyscallError>(fd)
            },
        decreases pieces.len() - i,
    {
        assert(ps.take(i + 1).drop_last() =~= ps.take(i as int));
        assert(ps[i as int] == pieces[i as int]@);
        let item = pieces[i].as_slice();
        if starts_with(item, &key) {
            let value = vstd::slice::slice_subrange(item, 3, item.len());
            assert(value@ =~= item@.skip(3));
            match parse_unsigned_bytes(value, 10, u64::MAX) {
                None => {
                    failed = true;
                },
                Some(v) => {
                    if !failed {
                        fd = Some(v);
                    }
                },
            }
        }
        i += 1;
    }
    assert(ps.take(ps.len() as int) =~= ps);
    if failed {
        Err(SyscallError::InvalidArguments)
    } else {
        Ok(FuseMountOptions { fd })
    }
}

/// The root mode of a tmpfs from its mount data: the first `mode=` item, in octal.
pub open spec fn tmpfs_mode_option(pieces: Seq<Seq<u8>>) -> Result<Option<u32>, SyscallError>
    decreases pieces.len(),
{
    if pieces.len() == 0 {
        Ok(None)
    } else if has_prefix(pieces[0], mode_key()) {
        match parse_unsigned(pieces[0].skip(5), 8, u32::MAX as nat) {
            None => Err(SyscallError::InvalidArguments),
            Some(v) => Ok(Some(v as u32)),
        }
    } else {
        tmpfs_mode_option(pieces.drop_first())
    }
}

/// The root mode a tmpfs mount asks for in its data, if any.
#[verifier::loop_isolation(false)]
pub fn tmpfs_root_mode_from_mount_data(data: Option<&[u8]>) -> (r: Result<Option<u32>, SyscallError>)
    ensures
        match data {
            None => r == Ok::<Option<u32>, SyscallError>(None),
            Some(d) => r == tmpfs_mode_option(split_pieces(d@, 0x2c)),
        },
{
    let data = match data {
        None => return Ok(None),
        Some(d) => d,
    };
    let pieces = split_bytes(data, 0x2c);
    let ghost ps = pieces@.map_values(|v: Vec<u8>| v@);
    let key: [u8; 5] = [0x6d, 0x6f, 0x64, 0x65, 0x3d];
    assert(key@ =~= mode_key());
    let mut i: usize = 0;
    assert(ps.skip(0) =~= ps);
    while i < pieces.len()
        invariant
            i <= pieces.len(),
            ps == pieces@.map_values(|v: Vec<u8>| v@),
            key@ == mode_key(),
            ps == split_pieces(data@, 0x2c),
            tmpfs_mode_option(ps) == tmpfs_mode_option(ps.skip(i as int)),
        decreases pieces.len() - i,
    {
        assert(ps.skip(i as int)[0] == pieces[i as int]@);
        let item = pieces[i].as_slice();
        if starts_with(item, &key) {
            let value = vstd::slice::slice_subrange(item, 5, item.len());
            assert(value@ =~= item@.skip(5));
            return match parse_unsigned_bytes(value, 8, 0xffff_ffff) {
                None => Err(SyscallError::InvalidArguments),
                Some(v) => Ok(Some(v as u32)),
            };
        }
        assert(ps.skip(i as int).drop_first() =~= ps.skip(i + 1));
        i += 1;
    }
    Ok(None)
}

/// The file system types that `fsopen` and `mount` can create here.
pub open spec fn fs_context_types() -> Seq<Seq<u8>> {
    seq![
        seq![0x70u8, 0x72u8, 0x6fu8, 0x63u8],
        seq![0x73u8, 0x79u8, 0x73u8, 0x66u8, 0x73u8],
        seq![0x64u8, 0x65u8, 0x76u8, 0x74u8, 0x6du8, 0x70u8, 0x66u8, 0x73u8],
        seq![0x74u8, 0x6du8, 0x70u8, 0x66u8, 0x73u8],
        seq![0x64u8, 0x65u8, 0x76u8, 0x70u8, 0x74u8, 0x73u8],
        seq![0x63u8, 0x67u8, 0x72u8, 0x6fu8, 0x75u8, 0x70u8, 0x32u8],
        seq![0x62u8, 0x70u8, 0x66u8],
        seq![0x70u8, 0x73u8, 0x74u8, 0x6fu8, 0x72u8, 0x65u8],
        seq![0x73u8, 0x65u8, 0x63u8, 0x75u8, 0x72u8, 0x69u8, 0x74u8, 0x79u8, 0x66u8, 0x73u8],
        seq![0x65u8, 0x78u8, 0x74u8, 0x32u8],
        seq![0x65u8, 0x78u8, 0x74u8, 0x33u8],
        seq![0x65u8, 0x78u8, 0x74u8, 0x34u8],
        seq![0x72u8, 0x61u8, 0x6du8, 0x66u8, 0x73u8],
    ]
}

/// `fuse` and `fuseblk`.
pub open spec fn fuse_types() -> Seq<Seq<u8>> {
    seq![seq![0x66u8, 0x75u8, 0x73u8, 0x65u8], seq![0x66u8, 0x75u8, 0x73u8, 0x65u8, 0x62u8, 0x6cu8, 0x6bu8]]
}

/// Whether `name` is one of `names`.
fn name_in(name: &[u8], names: &Vec<Vec<u8>>) -> (r: bool)
    ensures
        r == names@.map_values(|v: Vec<u8>| v@).contains(name@),
{
    let ghost ns = names@.map_values(|v: Vec<u8>| v@);
    let mut i: usize = 0;
    while i < names.len()
        invariant
            i <= names.len(),
            ns == names@.map_values(|v: Vec<u8>| v@),
            forall|j: int| 0 <= j < i ==> ns[j] != name@,
        decreases names.len() - i,
    {
        if bytes_equal(names[i].as_slice(), name) {
            assert(ns[i as int] == name@);
            return true;
        }
        i += 1;
    }
    false
}

/// The file system types that `fsopen` and `mount` create here, as bytes.
fn context_type_names() -> (r: Vec<Vec<u8>>)
    ensures
        r@.map_values(|v: Vec<u8>| v@) == fs_context_types(),
{
    let names: Vec<Vec<u8>> = vec![
        vec![0x70, 0x72, 0x6f, 0x63],
        vec![0x73, 0x79, 0x73, 0x66, 0x73],
        vec![0x64, 0x65, 0x76, 0x74, 0x6d, 0x70, 0x66, 0x73],
        vec![0x74, 0x6d, 0x70, 0x66, 0x73],
        vec![0x64, 0x65, 0x76, 0x70, 0x74, 0x73],
        vec![0x63, 0x67, 0x72, 0x6f, 0x75, 0x70, 0x32],
        vec![0x62, 0x70, 0x66],
        vec![0x70, 0x73, 0x74, 0x6f, 0x72, 0x65],
        vec![0x73, 0x65, 0x63, 0x75, 0x72, 0x69, 0x74, 0x79, 0x66, 0x73],
        vec![0x65, 0x78, 0x74, 0x32],
        vec![0x65, 0x78, 0x74, 0x33],
        vec![0x65, 0x78, 0x74, 0x34],
        vec![0x72, 0x61, 0x6d, 0x66, 0x73],
    ];
    assert(names@.map_values(|v: Vec<u8>| v@) =~= fs_context_types());
    names
}

/// Whether `fstype` names a file system type that `fsopen` and `mount` create here.
pub fn is_supported_fs_context_type(fstype: &[u8]) -> (r: bool)
    ensures
        r == fs_context_types().contains(fstype@),
{
    let names = context_type_names();
    name_in(fstype, &names)
}

/// Whether `fstype` can be mounted through the mount API: a context type, or FUSE.
pub fn is_supported_api_mount(fstype: &[u8]) -> (r: bool)
    ensures
        r == (fs_context_types().contains(fstype@) || fuse_types().contains(fstype@)),
{
    if is_supported_fs_context_type(fstype) {
        return true;
    }
    let names: Vec<Vec<u8>> = vec![vec![0x66, 0x75, 0x73, 0x65], vec![0x66, 0x75, 0x73, 0x65, 0x62, 0x6c, 0x6b]];
    assert(names@.map_values(|v: Vec<u8>| v@) =~= fuse_types());
    name_in(fstype, &names)
}

/// `/proc/self/fd/`
pub open spec fn proc_self_fd_prefix() -> Seq<u8> {
    seq![
        0x2fu8,
        0x70u8,
        0x72u8,
        0x6fu8,
        0x63u8,
        0x2fu8,
        0x73u8,
        0x65u8,
        0x6cu8,
        0x66u8,
        0x2fu8,
        0x66u8,
        0x64u8,
        0x2fu8,
    ]
}

/// The descriptor a normalized `/proc/self/fd/<n>` path names: none for other paths (or a
/// deeper one), `FileNotFound` where `<n>` is not a number.
pub open spec fn proc_self_fd_number_spec(path: Seq<u8>) -> Result<Option<u64>, SyscallError> {
    if !has_prefix(path, proc_self_fd_prefix()) {
        Ok(None)
    } else {
        let rest = path.skip(14);
        if rest.len() == 0 || rest.contains(0x2fu8) {
            Ok(None)
        } else {
            match parse_unsigned(rest, 10, u64::MAX as nat) {
                None => Err(SyscallError::FileNotFound),
                Some(v) => Ok(Some(v as u64)),
            }
        }
    }
}

/// The descriptor a normalized `/proc/self/fd/<n>` path names.
#[verifier::loop_isolation(false)]
pub fn proc_self_fd_number(path: &[u8]) -> (r: Result<Option<u64>, SyscallError>)
    ensures
        r == proc_self_fd_number_spec(path@),
{
    let prefix: [u8; 14] = [0x2f, 0x70, 0x72, 0x6f, 0x63, 0x2f, 0x73, 0x65, 0x6c, 0x66, 0x2f, 0x66, 0x64, 0x2f];
    assert(prefix@ =~= proc_self_fd_prefix());
    if !starts_with(path, &prefix) {
        return Ok(None);
    }
    let rest = vstd::slice::slice_subrange(path, 14, path.len());
    assert(rest@ =~= path@.skip(14));
    if rest.len() == 0 {
        return Ok(None);
    }
    let mut i: usize = 0;
    while i < rest.len()
        invariant
            i <= rest.len(),
            forall|j: int| 0 <= j < i ==> rest@[j] != 0x2fu8,
        decreases rest.len() - i,
    {
        if rest[i] == 0x2f {
            assert(rest@.contains(0x2fu8)) by {
                assert(rest@[i as int] == 0x2fu8);
            }
            return Ok(None);
        }
        i += 1;
    }
    match parse_unsigned_bytes(rest, 10, u64::MAX) {
        None => Err(SyscallError::FileNotFound),
        Some(v) => Ok(Some(v)),
    }
}

/// `/run/.api-mounts`, where mounts made through the mount API live.
pub open spec fn api_mount_root() -> Seq<u8> {
    seq![0x2fu8, 0x72u8, 0x75u8, 0x6eu8, 0x2fu8, 0x2eu8, 0x61u8, 0x70u8, 0x69u8, 0x2du8, 0x6du8, 0x6fu8, 0x75u8, 0x6eu8, 0x74u8, 0x73u8]
}

fn api_mount_root_bytes() -> (r: Vec<u8>)
    ensures
        r@ == api_mount_root(),
{
    let r: Vec<u8> = vec![0x2f, 0x72, 0x75, 0x6e, 0x2f, 0x2e, 0x61, 0x70, 0x69, 0x2d, 0x6d, 0x6f, 0x75, 0x6e, 0x74, 0x73];
    assert(r@ =~= api_mount_root());
    r
}

/// Whether a path lies under the mount API's directory.
pub fn is_api_mount_path(path: &[u8]) -> (r: bool)
    ensures
        r == has_prefix(path@, api_mount_root().push(0x2fu8)),
{
    let mut prefix = api_mount_root_bytes();
    prefix.push(0x2f);
    starts_with(path, prefix.as_slice())
}

/// The directory of the `id`-th mount made through the mount API.
pub fn next_api_mount_path(id: u64) -> (r: Vec<u8>)
    ensures
        r@ == api_mount_root().push(0x2fu8) + decimal(id as nat),
{
    let mut out = api_mount_root_bytes();
    out.push(0x2f);
    push_decimal(&mut out, id);
    out
}

/// `/proc/`
pub open spec fn proc_dir_prefix() -> Seq<u8> {
    seq![0x2fu8, 0x70u8, 0x72u8, 0x6fu8, 0x63u8, 0x2fu8]
}

/// `/fd/`
pub open spec fn fd_dir_infix() -> Seq<u8> {
    seq![0x2fu8, 0x66u8, 0x64u8, 0x2fu8]
}

/// Whether `s` holds `part` somewhere.
pub open spec fn contains_bytes(s: Seq<u8>, part: Seq<u8>) -> bool {
    exists|i: int| 0 <= i && i + part.len() <= s.len() && #[trigger] s.subrange(i, i + part.len()) == part
}

/// Whether `s` holds `part` somewhere.
pub fn find_bytes(s: &[u8], part: &[u8]) -> (r: bool)
    ensures
        r == contains_bytes(s@, part@),
{
    if part.len() > s.len() {
        return false;
    }
    let last = s.len() - part.len();
    let mut i: usize = 0;
    loop
        invariant
            last == s.len() - part.len(),
            i <= last,
            forall|k: int| 0 <= k < i ==> #[trigger] s@.subrange(k, k + part@.len()) != part@,
        decreases last - i,
    {
        let window = vstd::slice::slice_subrange(s, i, i + part.len());
        assert(window@ =~= s@.subrange(i as int, i + part@.len()));
        if bytes_equal(window, part) {
            return true;
        }
        if i == last {
            return false;
        }
        i += 1;
    }
}

/// Whether a normalized path names something under a process's `fd` directory in `/proc`.
pub fn is_proc_fd_path(path: &[u8]) -> (r: bool)
    ensures
        r == (has_prefix(path@, proc_dir_prefix()) && contains_bytes(path@, fd_dir_infix())),
{
    let proc: [u8; 6] = [0x2f, 0x70, 0x72, 0x6f, 0x63, 0x2f];
    let fd: [u8; 4] = [0x2f, 0x66, 0x64, 0x2f];
    assert(proc@ =~= proc_dir_prefix());
    assert(fd@ =~= fd_dir_infix());
    starts_with(path, &proc) && find_bytes(path, &fd)
}

/// `.tmpfile-`
pub open spec fn tmpfile_stem() -> Seq<u8> {
    seq![0x2eu8, 0x74u8, 0x6du8, 0x70u8, 0x66u8, 0x69u8, 0x6cu8, 0x65u8, 0x2du8]
}

/// The hidden name an `O_TMPFILE` file gets while it is created in `dir` (a normalized path).
pub open spec fn tmpfile_path(dir: Seq<u8>, id: u64) -> Seq<u8> {
    if dir == seq![0x2fu8] {
        seq![0x2fu8] + tmpfile_stem() + decimal(id as nat)
    } else {
        dir + seq![0x2fu8] + tmpfile_stem() + decimal(id as nat)
    }
}

/// The hidden name an `O_TMPFILE` file gets while it is created in `dir`.
pub fn next_tmpfile_path(dir: &[u8], id: u64) -> (r: Vec<u8>)
    ensures
        r@ == tmpfile_path(dir@, id),
{
    let root: [u8; 1] = [0x2f];
    let stem: [u8; 9] = [0x2e, 0x74, 0x6d, 0x70, 0x66, 0x69, 0x6c, 0x65, 0x2d];
    assert(stem@ =~= tmpfile_stem());
    assert(root@ =~= seq![0x2fu8]);
    let mut out: Vec<u8> = Vec::new();
    if !bytes_equal(dir, &root) {
        push_all(&mut out, dir);
    }
    out.push(0x2f);
    push_all(&mut out, &stem);
    push_decimal(&mut out, id);
    assert(out@ =~= tmpfile_path(dir@, id));
    out
}

/// The file systems that the mount API creates.
#[derive(Clone, Copy, Debug, PartialEq, Eq, Structural)]
pub enum ApiFilesystemKind {
    Proc,
    Sys,
    DevTmp,
    Tmp,
    DevPts,
    Cgroup2,
}

/// The file system a mount API type name stands for: `bpf`, `pstore` and `securityfs`
/// are served by a tmpfs; an unknown name is `NoDevice`.
pub fn create_api_filesystem(fstype: &[u8]) -> (r: Result<ApiFilesystemKind, SyscallError>)
    ensures
        r == if fstype@ == fs_context_types()[0] {
            Ok::<ApiFilesystemKind, SyscallError>(ApiFilesystemKind::Proc)
        } else if fstype@ == fs_context_types()[1] {
            Ok(ApiFilesystemKind::Sys)
        } else if fstype@ == fs_context_types()[2] {
            Ok(ApiFilesystemKind::DevTmp)
        } else if fstype@ == fs_context_types()[3] {
            Ok(ApiFilesystemKind::Tmp)
        } else if fstype@ == fs_context_types()[4] {
            Ok(ApiFilesystemKind::DevPts)
        } else if fstype@ == fs_context_types()[5] {
            Ok(ApiFilesystemKind::Cgroup2)
        } else if fstype@ == fs_context_types()[6] || fstype@ == fs_context_types()[7]
            || fstype@ == fs_context_types()[8] {
            Ok(ApiFilesystemKind::Tmp)
        } else {
            Err(SyscallError::NoDevice)
        },
{
    let names = context_type_names();
    assert(names@.map_values(|v: Vec<u8>| v@).len() == names@.len());
    assert(fs_context_types().len() == 13);
    let mut i: usize = 0;
    while i < 9
        invariant
            names@.map_values(|v: Vec<u8>| v@) == fs_context_types(),
            names@.len() == 13,
            i <= 9,
            forall|j: int| 0 <= j < i ==> fstype@ != fs_context_types()[j],
        decreases 9 - i,
    {
        assert(names@.map_values(|v: Vec<u8>| v@)[i as int] == names@[i as int]@);
        if bytes_equal(names[i].as_slice(), fstype) {
            let kind = if i == 0 {
                ApiFilesystemKind::Proc
            } else if i == 1 {
                ApiFilesystemKind::Sys
            } else if i == 2 {
                ApiFilesystemKind::DevTmp
            } else if i == 4 {
                ApiFilesystemKind::DevPts
            } else if i == 5 {
                ApiFilesystemKind::Cgroup2
            } else {
                ApiFilesystemKind::Tmp
            };
            return Ok(kind);
        }
        i += 1;
    }
    Err(SyscallError::NoDevice)
}

} // verus!
