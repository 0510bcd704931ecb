# os_kernel

The decision-making core of a small RISC-V kernel that runs a batch of
applications, as a library verified with Verus, and the kernel program
around it.

- `src/` — the verified library:
  - `batch.rs`: the application table (`AppManager`), which application
    loads next, where its image lies, the slot each application gets,
    the kernel and user stack tops, and the step that enters the next
    application.
  - `task/`: task status and context (`task.rs`, `context.rs`) and the
    round-robin `TaskManager` (`mod.rs`), with the scheduling laws.
  - `trap/`: the trap context (`context.rs`) and the trap handler's
    decision from `scause` (`mod.rs`).
  - `syscall.rs`: which system call a number and its arguments stand for.
  - `timer.rs`: timer deadline and microsecond arithmetic.
  - `console.rs`: text rendered in ANSI colours, handed out character by character.
  - `config.rs`: shared constants.
- `app/` — the kernel program: boot, SBI console and timer, logging,
  copying applications into memory, context switches and trap entry.
- `tests/` — tests of the library on concrete values.
