# desktop-mcp

A desktop-control daemon that speaks the Model Context Protocol (JSON-RPC) to an agent,
with its decision logic verified by Verus.

- `src/` is the verified library: configuration and its defaults, the application policy
  (allow and block lists), bearer-token checks, the JSON-RPC dispatcher and tool catalog
  (over a JSON model of its own), and the platform planning logic (key codes, pointer and
  keyboard plans, window selection, accessibility output parsing, pixel conversion, the
  virtual-display registry, firewall steps). Each public function states its result in
  `ensures`; the `law_*` proof functions state properties that span calls.
- `app/` is the daemon around it: the command line, the TOML configuration file, the
  stdio, Unix-socket and HTTP/SSE transports, the serde forms of the library's types, the
  floating-point geometry, and the macOS and Wayland system calls.
- `tests/` runs the library on concrete values.
