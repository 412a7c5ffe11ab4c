# sandcrust

Runs wrapped functions in a sandboxed child process that talks to its parent
over pipes.

- `src/` is the verified library:
  - `wire.rs`: the command word (a wrapper's address, or `0` to stop the
    child) and its bincode encoding on the command pipe;
  - `protocol.rs`: the reply of a call, the frames of the `&mut` arguments
    and of the return value, with the law that the caller's `&mut`
    arguments end up as the child left them and nothing else changes;
  - `lifecycle.rs`: the sandbox object, the pipe ends each side of a fork
    keeps or closes, and the decisions taken before a call, at
    initialisation, in the child's command loop, at termination and on
    respawn;
  - `bla.rs`: the shared-memory prototype and its argument labels.
- `app/` makes the pipes, forks, waits, moves serialized values and provides
  the `sandbox!` macros.  It takes the decisions above from the library and
  builds and reads every reply with the library's `store_changed_vars`,
  `reply_len` and `restore_changed_vars`.  The arguments going down are
  written and read in order by the macros themselves.  No syscall filter is
  installed in the child: the `sandheap` backend that did so is not a
  dependency.
- `tests/` runs the library on concrete calls.
