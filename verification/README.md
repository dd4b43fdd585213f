# rustcracker

A library for driving [Firecracker](https://github.com/firecracker-microvm/firecracker)
microVMs, with its logic verified by Verus.

`src/` holds the verified library:

- `http`, `agent`, `pool`, `client`: framing API requests, reading replies and
  their bodies, the request set of a pooled connection and of the client.
- `config`, `microvm`, `machine`, `network`: configurations and their checks.
  File-system facts are handed in as an `FsView`.
- `jailer`, `firecracker`, `launch`, `command_builder`, `jailer_command`:
  where a jailed Firecracker's files live, the command lines that start it
  (the machine's jailer builder and the client's, which passes the NUMA
  node), the plans of hard links into the jail (the machine's and the
  link-files handler's), and the attempts at connecting to the socket.
- `hypervisor`, `handler`: the microVM status machine, a start run step by
  step, the stack of steps that undo a launch, handler lists and what each
  handler comes to.
- `exchange`: one request/reply exchange over the API socket as a state
  machine, with the lock file held around the stream.
- `paths`, `text`, `error`, `options`, `database`: supporting pieces.

`app/` is the plain Rust around it: looking paths up, spawning processes,
socket I/O driven by the exchange machine, connecting with retries, driving
the microVM's lifecycle and undoing a launch, making the planned links, and
serde copies of configurations.
