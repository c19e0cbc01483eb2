use vstd::prelude::*;
use vstd::string::StringSliceAdditionalSpecFns;
use crate::error::SyscallError;
use crate::futex::{ThreadId, ThreadManager};

verus! {

/// A kernel object a process holds through a descriptor.
pub type ObjectHandle = u64;

/// The state of the current process that the basic system calls use.
pub struct ProcessState {
    pub pid: u64,
    pub current_directory: String,
    pub objects: Vec<Option<ObjectHandle>>,
}

impl ProcessState {
    /// The object behind descriptor `fd`.
    pub fn get_object(&self, fd: u64) -> (r: Result<ObjectHandle, SyscallError>)
        ensures
            r == if fd < self.objects@.len() && self.objects@[fd as int] is Some {
                Ok::<ObjectHandle, SyscallError>(self.objects@[fd as int]->Some_0)
            } else {
                Err(SyscallError::BadFileDescriptor)
            },
    {
        if fd >= self.objects.len() as u64 {
            return Err(SyscallError::BadFileDescriptor);
        }
        match self.objects[fd as usize] {
            Some(o) => Ok(o),
            None => Err(SyscallError::BadFileDescriptor),
        }
    }
}

/// A transfer between user memory and an object, for the caller to carry out.
#[derive(Clone, Copy, Debug, PartialEq, Eq, Structural)]
pub struct ObjectTransfer {
    pub object: ObjectHandle,
    pub buffer: u64,
    pub len: usize,
}

/// Reads from an object into a user buffer.
pub struct ReadObjectImpl;

impl ReadObjectImpl {
    /// The read of `len` bytes at `buffer` from the object behind `fd`.
    pub fn handle_call(process: &ProcessState, fd: u64, buffer: u64, len: u64) -> (r: Result<
        ObjectTransfer,
        SyscallError,
    >)
        ensures
            r == match process.get_object_spec(fd) {
                Some(o) => Ok::<ObjectTransfer, SyscallError>(
                    ObjectTransfer { object: o, buffer, len: len as usize },
                ),
                None => Err(SyscallError::BadFileDescriptor),
            },
    {
        let object = process.get_object(fd)?;
        Ok(ObjectTransfer { object, buffer, len: len as usize })
    }
}

/// Writes a user buffer to an object.
pub struct WriteObjectImpl;

impl WriteObjectImpl {
    /// The write of `len` bytes at `buffer` to the object behind `fd`.
    pub fn handle_call(process: &ProcessState, fd: u64, buffer: u64, len: u64) -> (r: Result<
        ObjectTransfer,
        SyscallError,
    >)
        ensures
            r == match process.get_object_spec(fd) {
                Some(o) => Ok::<ObjectTransfer, SyscallError>(
                    ObjectTransfer { object: o, buffer, len: len as usize },
                ),
                None => Err(SyscallError::BadFileDescriptor),
            },
    {
        let object = process.get_object(fd)?;
        Ok(ObjectTransfer { object, buffer, len: len as usize })
    }
}

impl ProcessState {
    pub open spec fn get_object_spec(&self, fd: u64) -> Option<ObjectHandle> {
        if fd < self.objects@.len() && self.objects@[fd as int] is Some {
            self.objects@[fd as int]
        } else {
            None
        }
    }
}

/// Closes a descriptor: its slot is emptied, the slots after it keep their numbers.
pub struct RemoveObjectImpl;

impl RemoveObjectImpl {
    pub fn handle_call(process: &mut ProcessState, fd: u64) -> (r: Result<usize, SyscallError>)
        ensures
            (fd as usize) < old(process).objects@.len() ==> r == Ok::<usize, SyscallError>(0)
                && final(process).objects@ == old(process).objects@.update((fd as usize) as int, None),
            (fd as usize) >= old(process).objects@.len() ==> r == Err::<usize, SyscallError>(
                SyscallError::BadFileDescriptor,
            ) && final(process).objects@ == old(process).objects@,
            final(process).pid == old(process).pid,
            final(process).current_directory@ == old(process).current_directory@,
    {
        let index = fd as usize;
        if process.objects.len() > index {
            process.objects.set(index, None);
            Ok(0)
        } else {
            Err(SyscallError::BadFileDescriptor)
        }
    }
}

/// Installs a freshly opened file as the process's next object.
pub struct OpenFileImpl;

impl OpenFileImpl {
    /// `opened` is what opening the path gave. Returns the number of objects plus one.
    pub fn handle_call(
        process: &mut ProcessState,
        opened: Result<ObjectHandle, SyscallError>,
    ) -> (r: Result<usize, SyscallError>)
        requires
            old(process).objects@.len() + 2 <= usize::MAX,
        ensures
            match opened {
                Err(e) => r == Err::<usize, SyscallError>(e) && final(process).objects@ == old(
                    process,
                ).objects@,
                Ok(o) => r == Ok::<usize, SyscallError>((old(process).objects@.len() + 2) as usize)
                    && final(process).objects@ == old(process).objects@.push(Some(o)),
            },
            final(process).pid == old(process).pid,
            final(process).current_directory@ == old(process).current_directory@,
    {
        let object = opened?;
        process.objects.push(Some(object));
        Ok(process.objects.len() + 1)
    }
}

/// Changes the current directory.
pub struct ChangeDirImpl;

impl ChangeDirImpl {
    pub fn handle_call(process: &mut ProcessState, target: &str) -> (r: Result<usize, SyscallError>)
        ensures
            r == Ok::<usize, SyscallError>(0),
            final(process).current_directory@ == target@,
            final(process).objects@ == old(process).objects@,
            final(process).pid == old(process).pid,
    {
        process.current_directory = target.to_owned();
        Ok(0)
    }
}

/// Reports the current directory into a user buffer.
pub struct GetDirImpl;

impl GetDirImpl {
    /// For a buffer of `len` bytes at `buf`: the bytes to store there (the path and a NUL),
    /// when the buffer is longer than the path; the result is the buffer's address.
    pub fn handle_call(process: &ProcessState, buf: u64, len: u64) -> (r: Result<(usize, Vec<u8>), SyscallError>)
        ensures
            ({
                let bytes = vstd::utf8::encode_utf8(process.current_directory@);
                if (len as usize) > bytes.len() {
                    r is Ok && r->Ok_0.0 == buf as usize && r->Ok_0.1@ == bytes.push(0u8)
                } else {
                    r == Err::<(usize, Vec<u8>), SyscallError>(SyscallError::InvalidArguments)
                }
            }),
    {
        let path_bytes = process.current_directory.as_str().as_bytes();
        let path_len = path_bytes.len();
        if len as usize > path_len {
            let mut out: Vec<u8> = Vec::new();
            let mut i: usize = 0;
            while i < path_len
                invariant
                    i <= path_len,
                    path_len == path_bytes@.len(),
                    out@ == path_bytes@.take(i as int),
                decreases path_len - i,
            {
                out.push(path_bytes[i]);
                assert(path_bytes@.take(i + 1) =~= path_bytes@.take(i as int).push(path_bytes@[i as int]));
                i += 1;
            }
            out.push(0);
            assert(path_bytes@.take(i as int) =~= path_bytes@);
            Ok((buf as usize, out))
        } else {
            Err(SyscallError::InvalidArguments)
        }
    }
}

/// Reports the current process's id.
pub struct GetPIDImpl;

impl GetPIDImpl {
    /// There is always a current process when a system call runs.
    pub fn handle_call(current: Option<u64>) -> (r: Result<usize, SyscallError>)
        requires
            current is Some,
        ensures
            r == Ok::<usize, SyscallError>(current->Some_0 as usize),
    {
        Ok(current.unwrap() as usize)
    }
}

/// The entry for reporting the current thread's id. The call has no implementation yet:
/// a caller that reaches it stops the kernel.
pub struct GetTIDImpl;

/// Reports the base of the FS segment.
pub struct GetFSImpl;

impl GetFSImpl {
    /// `fs_base` is the value read from the FS base register.
    pub fn handle_call(fs_base: u64) -> (r: Result<usize, SyscallError>)
        ensures
            r == Ok::<usize, SyscallError>(fs_base as usize),
    {
        Ok(fs_base as usize)
    }
}

/// Ends the calling thread.
pub struct ExitImpl;

impl ExitImpl {
    /// Marks the current thread as a zombie.
    pub fn handle_call(manager: &mut ThreadManager, current: ThreadId) -> (r: Result<usize, SyscallError>)
        ensures
            r == Ok::<usize, SyscallError>(0),
            final(manager).zombies@ == old(manager).zombies@.push(current),
            final(manager).run_queue@ == old(manager).run_queue@,
    {
        manager.mark_as_zombie(current);
        Ok(0)
    }
}

/// The page table flags of user memory, `USER_ACCESSIBLE | PRESENT | WRITABLE` of the
/// `x86_64` crate's `PageTableFlags`, as bits. That crate defines `PRESENT` as bit 0,
/// `WRITABLE` as bit 1 and `USER_ACCESSIBLE` as bit 2, so the union is 7.
#[verifier::external_body]
fn user_page_flag_bits() -> (r: u64)
    ensures
        r == 7,
{
    (x86_64::structures::paging::PageTableFlags::USER_ACCESSIBLE
        | x86_64::structures::paging::PageTableFlags::PRESENT
        | x86_64::structures::paging::PageTableFlags::WRITABLE).bits()
}

/// An allocation of user pages, for the memory manager to carry out.
#[derive(Clone, Copy, Debug, PartialEq, Eq, Structural)]
pub struct UserAllocation {
    pub pages: u64,
    pub flags: u64,
}

/// Allocates pages of user memory.
pub struct AllocMemImpl;

impl AllocMemImpl {
    /// `pages` pages, mapped present, writable and user accessible.
    pub fn handle_call(pages: u64) -> (r: UserAllocation)
        ensures
            r == (UserAllocation { pages, flags: 7 }),
    {
        UserAllocation { pages, flags: user_page_flag_bits() }
    }
}

/// Looks up a file's metadata by path.
pub struct FileInfoImpl;

impl FileInfoImpl {
    /// The path to look up: an absolute path as it is; a relative one, when `arg1` is 1,
    /// appended to the current directory; other relative lookups are not supported.
    pub fn handle_call(arg1: u64, path: &str, current_directory: &str) -> (r: Result<Vec<u8>, SyscallError>)
        ensures
            ({
                let p = path.spec_bytes();
                let cwd = current_directory.spec_bytes();
                if p.len() > 0 && p[0] == 0x2fu8 {
                    r is Ok && r->Ok_0@ == p
                } else if arg1 == 1 {
                    r is Ok && r->Ok_0@ == cwd + p
                } else {
                    r == Err::<Vec<u8>, SyscallError>(SyscallError::Other)
                }
            }),
    {
        let p = path.as_bytes();
        let absolute = p.len() > 0 && p[0] == 0x2f;
        if !absolute && arg1 != 1 {
            return Err(SyscallError::Other);
        }
        let mut out: Vec<u8> = Vec::new();
        if !absolute {
            let cwd = current_directory.as_bytes();
            let mut i: usize = 0;
            while i < cwd.len()
                invariant
                    i <= cwd@.len(),
                    out@ == cwd@.take(i as int),
                decreases cwd@.len() - i,
            {
                out.push(cwd[i]);
                assert(cwd@.take(i + 1) =~= cwd@.take(i as int).push(cwd@[i as int]));
                i += 1;
            }
            assert(cwd@.take(i as int) =~= cwd@);
        }
        let ghost prefix = out@;
        let mut j: usize = 0;
        while j < p.len()
            invariant
                j <= p@.len(),
                out@ == prefix + p@.take(j as int),
            decreases p@.len() - j,
        {
            out.push(p[j]);
            assert(p@.take(j + 1) =~= p@.take(j as int).push(p@[j as int]));
            j += 1;
        }
        assert(p@.take(j as int) =~= p@);
        assert(prefix + p@ =~= out@);
        Ok(out)
    }
}

} // verus!
