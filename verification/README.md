# portal

Portal lets MCP clients reach tools that run on other machines. An agent on
each machine keeps a websocket tunnel to a gateway server; the server
exposes every device of a gateway as one MCP endpoint, routes each tool call
to the device that offers it, and answers for devices that are offline or
slow. A smaller tunnel server and tunnel client do the same for a single
token, and the agent also offers native macOS tools (iMessage).

The decisions of all these parts are verified with Verus:

- `src/` is the library. Every function in it carries a `requires` /
  `ensures` contract that Verus proves. It covers the wire protocol and
  command transport, the JSON-RPC envelopes, the connection registry and
  the table of waiting requests, tool routing, the device and tunnel
  sessions (as step functions from event to action), token handling,
  self-update rules, diagnostics, the iMessage tool surface and the
  dashboard's pages and authentication. Calls into outside crates (semver,
  sha2, hex, chrono, urlencoding, uuid, dashmap, jsonwebtoken, mime_guess)
  stand behind small trusted wrappers whose doc comments say what is
  assumed of them.
- `app/` is the program around the library: command-line handling, sockets,
  HTTP routes, the database, child processes and timers. It performs the
  actions the library's step functions decide and hands the events back.
- `tests/` runs the library on concrete values.

Laws that span several functions are public proof functions named `law_*`,
for example `law_pings_count_from_one` (a tunnel's pings are numbered 1, 2,
3, …), `law_response_delivered_once` and `law_offered_name_routes_back`.
