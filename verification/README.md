# seele_syscalls

The decision logic of the Seele kernel's Linux system call layer, written in Verus
and proved against its contracts: argument checks, flag translation, permission
rules, the futex wait queues, the key registry, descriptor tables and the step
functions of calls that alternate between deciding and touching kernel objects.

The kernel objects themselves (the VFS, processes, address spaces, user memory)
are not part of this crate. Where a call needs them, a function here takes what
the kernel found out as plain values (a mode, a lookup result, whether a pointer
is null) and returns what the kernel has to do next, or the error it answers.

Layout of `src/`:

- `futex`, `futex_ops`, `legacy_futex`: wait queues keyed by address, wake,
  requeue and priority-inheritance steps.
- `keyring`: keys, keyrings, per-user quotas and `keyctl` operations.
- `access`, `credentials`, `identity`, `capability`: permission checks and the
  set*id / capability rules.
- `openat`, `open_path`, `path_at`, `directory_ops`, `descriptors`: opening,
  creating, linking and removing files; descriptor tables.
- `mount_flags`, `mount_options`, `mount_calls`: `mount`, the mount API calls and
  their flags.
- `memory`, `system`, `arch`: memory mapping checks, `brk`, `arch_prctl` and
  other process-wide calls.
- `object_io`, `chunked_io`, `dirents`, `fs_info`, `utime`, `xattr`: reading,
  writing, directory listings, file metadata.
- `syscalls`: the kernel's own basic calls (object read/write, directories,
  process ids, user memory allocation).
- `aio`, `rseq`, `anon_fd`, `bpf`, `prctl`, `resource`, `scheduler`,
  `process_clone`, `text`: the remaining calls.

Tests under `tests/` run the library on concrete values.
