# mio-serial

Serial port I/O for mio, with the decisions verified by Verus.

A serial stream is a terminal device in non-blocking mode. Opening one, reading
it and flushing it are sequences of system calls in which each outcome decides
what comes next. `src/` holds these decisions: an operation is a value that
names the next call (`call`) and takes what came back of it (`advance`) until
it is finished. It makes no system call. `app/` makes the calls, and gives the
streams the traits of mio, serialport and the standard library.

- `src/configure.rs`: switching an open port to non-blocking use.
- `src/open.rs`, `src/pair.rs`: opening a port, and a pair of pseudo terminals.
- `src/transfer.rs`: reading, writing and flushing, undisturbed by signals.
- `src/stream.rs`, `src/control.rs`: what a stream answers by itself, what it
  asks of its port, and which errors of the port reach the caller.
- `src/name.rs`: the name of a stream, through all of these.
- `src/windows.rs`, `src/device_path.rs`: opening a port on Windows.
- `src/error.rs`, `src/platform.rs`: errors, and the numbers of Unix systems.
- `src/step.rs`: how far an operation has come, and what comes of it when it is
  carried on.

The laws of each operation are the public proof functions beside it: which
calls are made, in which order, and with what result, whatever the system
answers.

The library links nix, so it builds on Unix; `app/windows.rs` is the part that
makes the calls of `src/windows.rs`.
