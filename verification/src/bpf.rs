use vstd::prelude::*;
use crate::error::SyscallError;

verus! {

/// The length of the name field of a map or program.
pub const BPF_OBJ_NAME_LEN: usize = 16;
/// The program type that names no type.
pub const BPF_PROG_TYPE_UNSPEC: u32 = 0;

/// The commands of `bpf` that are carried out.
#[derive(Clone, Copy, Debug, PartialEq, Eq, Structural)]
pub enum BpfCommand {
    MapCreate,
    MapLookupElem,
    MapUpdateElem,
    ProgLoad,
    ProgAttach,
    ProgDetach,
}

impl BpfCommand {
    /// The command's number in the `bpf` ABI.
    pub open spec fn number(self) -> u32 {
        match self {
            BpfCommand::MapCreate => 0,
            BpfCommand::MapLookupElem => 1,
            BpfCommand::MapUpdateElem => 2,
            BpfCommand::ProgLoad => 5,
            BpfCommand::ProgAttach => 8,
            BpfCommand::ProgDetach => 9,
        }
    }

    /// The command with number `cmd`, if there is one.
    pub fn try_from_u32(cmd: u32) -> (r: Option<BpfCommand>)
        ensures
            r matches Some(c) ==> c.number() == cmd,
            r is None ==> forall|c: BpfCommand| c.number() != cmd,
    {
        match cmd {
            0 => Some(BpfCommand::MapCreate),
            1 => Some(BpfCommand::MapLookupElem),
            2 => Some(BpfCommand::MapUpdateElem),
            5 => Some(BpfCommand::ProgLoad),
            8 => Some(BpfCommand::ProgAttach),
            9 => Some(BpfCommand::ProgDetach),
            _ => None,
        }
    }

    /// The size of the attribute block that the command reads.
    pub open spec fn attr_size_spec(self) -> usize {
        match self {
            BpfCommand::MapCreate => 44,
            BpfCommand::MapLookupElem => 32,
            BpfCommand::MapUpdateElem => 32,
            BpfCommand::ProgLoad => 64,
            BpfCommand::ProgAttach => 32,
            BpfCommand::ProgDetach => 32,
        }
    }

    /// The size of the attribute block that the command reads.
    pub fn attr_size(&self) -> (r: usize)
        ensures
            r == self.attr_size_spec(),
    {
        match self {
            BpfCommand::MapCreate => 44,
            BpfCommand::MapLookupElem => 32,
            BpfCommand::MapUpdateElem => 32,
            BpfCommand::ProgLoad => 64,
            BpfCommand::ProgAttach => 32,
            BpfCommand::ProgDetach => 32,
        }
    }
}

/// The attributes of `BPF_MAP_CREATE`.
#[derive(Clone, Copy, Debug)]
pub struct BpfMapCreateAttr {
    pub map_type: u32,
    pub key_size: u32,
    pub value_size: u32,
    pub max_entries: u32,
    pub map_flags: u32,
    pub inner_map_fd: u32,
    pub numa_node: u32,
    pub map_name: [u8; 16],
}

/// The attributes of `BPF_MAP_LOOKUP_ELEM` and `BPF_MAP_UPDATE_ELEM`.
#[derive(Clone, Copy, Debug, PartialEq, Eq, Structural)]
pub struct BpfMapElemAttr {
    pub map_fd: u32,
    pub padding: u32,
    pub key: u64,
    pub value: u64,
    pub flags: u64,
}

/// The attributes of `BPF_PROG_LOAD`.
#[derive(Clone, Copy, Debug)]
pub struct BpfProgLoadAttr {
    pub prog_type: u32,
    pub insn_cnt: u32,
    pub insns: u64,
    pub license: u64,
    pub log_level: u32,
    pub log_size: u32,
    pub log_buf: u64,
    pub kern_version: u32,
    pub prog_flags: u32,
    pub prog_name: [u8; 16],
}

/// The attributes of `BPF_PROG_ATTACH` and `BPF_PROG_DETACH`.
#[derive(Clone, Copy, Debug, PartialEq, Eq, Structural)]
pub struct BpfProgAttachAttr {
    pub target_fd: u32,
    pub attach_bpf_fd: u32,
    pub attach_type: u32,
    pub attach_flags: u32,
    pub replace_bpf_fd: u32,
    pub relative_fd: u32,
    pub expected_revision: u64,
}

/// The dispatch of `bpf`: a null attribute pointer is a bad address, an unknown command
/// is refused.
pub fn bpf_command(cmd: u32, attr_is_null: bool) -> (r: Result<BpfCommand, SyscallError>)
    ensures
        attr_is_null ==> r == Err::<BpfCommand, SyscallError>(SyscallError::BadAddress),
        !attr_is_null ==> match r {
            Ok(c) => c.number() == cmd,
            Err(e) => e == SyscallError::InvalidArguments && forall|c: BpfCommand|
                c.number() != cmd,
        },
{
    if attr_is_null {
        return Err(SyscallError::BadAddress);
    }
    match BpfCommand::try_from_u32(cmd) {
        Some(c) => Ok(c),
        None => Err(SyscallError::InvalidArguments),
    }
}

/// An attribute block must be at least as large as the command's structure.
pub fn check_attr_size(command: BpfCommand, size: usize) -> (r: Result<(), SyscallError>)
    ensures
        r is Ok <==> size >= command.attr_size_spec(),
        r is Err ==> r == Err::<(), SyscallError>(SyscallError::InvalidArguments),
{
    if size < command.attr_size() {
        return Err(SyscallError::InvalidArguments);
    }
    Ok(())
}

/// The checks of `BPF_MAP_CREATE`: keys, values and the table must not be empty.
pub fn map_create_check(attr: &BpfMapCreateAttr) -> (r: Result<(), SyscallError>)
    ensures
        r is Ok <==> (attr.key_size != 0 && attr.value_size != 0 && attr.max_entries != 0),
        r is Err ==> r == Err::<(), SyscallError>(SyscallError::InvalidArguments),
{
    if attr.key_size == 0 || attr.value_size == 0 || attr.max_entries == 0 {
        return Err(SyscallError::InvalidArguments);
    }
    Ok(())
}

/// The checks of `BPF_PROG_LOAD`: a program type and instructions are needed, then the
/// instruction and license pointers.
pub fn prog_load_check(attr: &BpfProgLoadAttr) -> (r: Result<(), SyscallError>)
    ensures
        (attr.prog_type == BPF_PROG_TYPE_UNSPEC || attr.insn_cnt == 0) ==> r == Err::<
            (),
            SyscallError,
        >(SyscallError::InvalidArguments),
        attr.prog_type != BPF_PROG_TYPE_UNSPEC && attr.insn_cnt != 0 && (attr.insns == 0
            || attr.license == 0) ==> r == Err::<(), SyscallError>(SyscallError::BadAddress),
        attr.prog_type != BPF_PROG_TYPE_UNSPEC && attr.insn_cnt != 0 && attr.insns != 0
            && attr.license != 0 ==> r is Ok,
{
    if attr.prog_type == BPF_PROG_TYPE_UNSPEC || attr.insn_cnt == 0 {
        return Err(SyscallError::InvalidArguments);
    }
    if attr.insns == 0 || attr.license == 0 {
        return Err(SyscallError::BadAddress);
    }
    Ok(())
}

/// A descriptor field of an attribute block, read as a signed descriptor number.
pub fn bpf_fd_number(fd: u32) -> (r: Result<u64, SyscallError>)
    ensures
        fd >= 0x8000_0000 ==> r == Err::<u64, SyscallError>(SyscallError::BadFileDescriptor),
        fd < 0x8000_0000 ==> r == Ok::<u64, SyscallError>(fd as u64),
{
    if fd >= 0x8000_0000 {
        return Err(SyscallError::BadFileDescriptor);
    }
    Ok(fd as u64)
}

/// Whether a user buffer of `len` bytes at `ptr` has to be read: nothing is read for an
/// empty one, and a null pointer to a non-empty one is a bad address.
pub fn user_bytes_check(ptr_is_null: bool, len: usize) -> (r: Result<bool, SyscallError>)
    ensures
        len == 0 ==> r == Ok::<bool, SyscallError>(false),
        len != 0 && ptr_is_null ==> r == Err::<bool, SyscallError>(SyscallError::BadAddress),
        len != 0 && !ptr_is_null ==> r == Ok::<bool, SyscallError>(true),
{
    if len == 0 {
        return Ok(false);
    }
    if ptr_is_null {
        return Err(SyscallError::BadAddress);
    }
    Ok(true)
}

} // verus!
