# ipc_guard

Protocols that decide whether a local IPC endpoint may be trusted, verified with Verus.

- `listener`, with `parent`: on Unix, the directory of a listening socket has to be the
  effective user's own and closed to writers, and the bound socket gets an exact mode
  there, which is then read back.
- `pipe`, with `server` and `process`: on Windows, a named pipe is handed out only once
  the process of its server has been found to run as LocalSystem, or has been accepted
  by the caller.
- `listener_laws`, `pipe_laws`: what holds of whole runs, for all replies of the system.
- `paths`, `text`, `status`, `buffer`, `error`: the rules that the protocols share.
- `host`, `win32`: the constants of `libc` and `windows-sys` that enter into a call or a
  decision.

A protocol is a run. `request` names the call that it waits for, with every argument;
`step` takes the reply and returns the run that comes next, or the outcome. A run also
asks to close what it has opened before it ends. The drivers in `app/` make the calls,
hold the descriptors and handles until then, and turn outcomes into `std::io::Error`.

The listener side names constants and types of `libc` that exist on Unix only, and the
modules carry no conditional compilation: the crate as a whole builds for Unix targets.
On Windows the drivers need a build without `host`, `status`, `parent`, `listener` and
`listener_laws`.
