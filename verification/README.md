# substrate

The root-task substrate of an seL4-based operating system runtime: the
bounded state, validation and decoding logic that the initial thread uses to
allocate kernel objects, build isolated tasks, move messages and handle
faults, verified with Verus.

## Layout

- `src/` — the verified library.
  - `free_slots`, `boot`: root CSpace slot accounting with checkpoints and
    rollback; first-fit object creation from boot-time untyped memory.
  - `ipc_state`, `ipc`: badges, bounded messages, receive-slot reservations,
    the implicit reply authority of an endpoint, and the pool of deferred
    reply slots.
  - `fault`: decoding of the AArch64 fault IPC ABI and validated fault
    receipt.
  - `cspace`, `vspace`, `thread`, `task`: delegation validation, CNode and
    VSpace construction, register state and whole-task construction with
    rollback.
  - `root`: the minimal root task's bootstrap sequence.
  - `api`, `errors`: error vocabularies.
- `tests/` — tests of the library on concrete values.
- `app/` — the root-task program and the system calls themselves.

Every kernel operation reaches the library as a closure: the library decides
what to ask of the kernel and what to make of the answer, and its contracts
state what each operation is handed and, for each error, which answer or
which refused allocation caused it; `app/` performs the calls. A task
that cannot be completed is rolled back: every root slot committed since
construction began is deleted, newest first, or the failed deletion is
reported. Objects are
created first fit, trying the untyped regions in boot-information order.
Where a contract must say that the kernel is not asked at all (a receive
while a reply is still owed), the library offers the claim and the
completion of a receive as two separate calls.
