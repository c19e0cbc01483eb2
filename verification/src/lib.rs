//! Verified decision logic of the Seele kernel's system calls: futex queues,
//! permission checks, mount flag translation and the other rules that the
//! system call layer applies before it touches kernel objects.
pub mod error;
pub mod futex;
pub mod futex_ops;
pub mod flags;
pub mod credentials;
pub mod access;
pub mod mount_flags;
pub mod utime;
pub mod xattr;
pub mod memory;
pub mod legacy_futex;
pub mod syscalls;
pub mod capability;
pub mod resource;
pub mod open_path;
pub mod keyring;
pub mod text;
pub mod process_clone;
pub mod object_io;
pub mod dirents;
pub mod chunked_io;
pub mod mount_options;
pub mod fs_info;
pub mod identity;
pub mod prctl;
pub mod system;
pub mod scheduler;
pub mod aio;
pub mod rseq;
pub mod anon_fd;
pub mod bpf;
pub mod path_at;
pub mod mount_calls;
pub mod openat;
pub mod descriptors;
pub mod directory_ops;
pub mod arch;
