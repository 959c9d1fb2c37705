# sandbox_backend

The verified core of a server that runs applications in sandboxes and
streams them to the browser. The library (`src/`, checked with Verus) holds
the decisions and encodings the server relies on; `app/` is the server
program around it (HTTP, WebSocket signaling, processes, X11, media).

Library modules:

- `keys`, `xinput` — browser key names to X11 keycodes, keysyms, xdotool
  names and UI keys; XTEST events for keys and buttons; the display's
  keysym table.
- `seccomp` — the BPF denylist program and a model of how the kernel runs
  it; the sandbox filter is proved to answer every system call with the
  policy's verdict.
- `sandbox_fs`, `landlock_calls` — the Landlock rules of a sandboxed
  child. Over the record the Landlock wrappers keep of their calls, the
  proof shows that the ruleset handed to `restrict_self` handles every
  filesystem right and holds the planned rules (data paths with every
  right, system paths read/execute only, paths skipped only when missing
  or unopenable), and that a failure names the call that failed.
- `sandbox` — cgroup locations and limits, application paths, command lines
  of Xvfb, FFmpeg and xdotool, application environments, frame timing.
- `framing`, `protocol` — the length-prefixed control channel (with a
  proved round trip), base64 payloads and IPC lines.
- `app_config` — how an application reads the settings the server gives
  it (proved to read back exactly what the server writes).
- `control` — what an application's frame loop does with each try at its
  control channel (stop, render, or take input).
- `framebuffer`, `wasm_host` — clearing the shared framebuffer, drawing the
  pointer, and the checks on a WebAssembly module's memory.
- `signaling` — the decisions of the signaling channel (a session is
  released on every way out).
- `auth`, `records`, `hex`, `challenges`, `apps`, `text` — request checks,
  stored encodings, identifiers and small text utilities.
