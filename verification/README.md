# sylva-agent

A headless machine agent: it keeps a machine identity key, pins the first server it
meets, registers with it, and then checks in and listens for pushes until it is told to
stop.

- `src/` is the library, verified with Verus: the configuration, the state, the machine
  key, the registration, the authorised requests, the run loops and the agent itself as a
  function from state and event to next state and action. `src/laws.rs` states what holds
  over whole runs.
- `tests/` exercises the library from outside.
- `app/` is the program: files, network, logging and the location service. It performs the
  library's actions and hands the outcomes back.

The library trusts the behaviour of `ed25519-dalek`, `rand` and `tonic` where it
calls them; each such function says in its comment what it takes for granted.
