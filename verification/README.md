# windbg-mcp-rs

The core of a WinDbg extension that serves the current debugging session over MCP, written and
proved in Verus, and the code around it that talks to the debugger, the file system and the
network.

- `src/` is the verified library. It decides; it performs no I/O.
  - `session`, `target_events`, `notify`, `callback_registration`: what the debugger tells of a
    session, and what follows from it.
  - `target_capture`, `target_snapshot`, `transport`: what the engine's answers say of the target.
  - `snapshot_worker`: when a snapshot is captured, tried again and published.
  - `registry`, `registry_payload`, `registry_write`: the discovery files of an instance.
  - `execution_gate`, `dispatcher`, `plugin_server`, `server_bind`, `server_start`,
    `server_stop`: the life of the server.
  - `extension`, `output`: the `!mcp` command, its replies, and how text reaches the debugger.
  - `text`, `clock`, `dbgeng`: text, time, and the numbers of the debugger engine.
- `tests/` runs the library.
- `app/` holds the threads, the files, the HTTP server and, on Windows, the calls into the
  debugger engine.

A procedure that alternates decisions with outside work is a sequence here: it names the next
action, and takes in what came of it. The contracts say where a sequence goes for every outcome;
public proof functions state what holds of whole runs.
