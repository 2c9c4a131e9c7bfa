# mxlite

The agent side of MetalX Lite, a controller/agent system for managing hosts.
An agent finds its controller (by UDP broadcast, or from a given URL), keeps a
web-socket session with it, and runs what it is asked: shell commands, Lua
scripts and file transfers. It describes its host to the controller when it
connects.

The crate is written in Verus. `src/` is the verified library; `app/` is the
agent program around it, which does the I/O.

## Layout

- `src/utils/`, `src/mailbox.rs`, `src/state.rs`: message mailboxes and state
  stores, with the laws they keep (what a read gives back of a write, which
  messages a full mailbox evicts).
- `src/protocol/`, `src/messages.rs`: the protocol messages; the connection
  handshake header (URL-safe base64).
- `src/discovery.rs`: the discovery round and its bound on requests.
- `src/agent/net.rs`: what the agent does on each session event, and its
  reconnection back-off.
- `src/agent/executor.rs`: which job a request asks for and how it is answered.
- `src/agent/identity.rs`: machine UUIDs from DMI data or the systemd machine
  id, and random identifiers.
- `src/lsblk.rs`, `src/system_info.rs`: the host description assembled from
  what sysfs and the system report.
- `src/hash.rs`: xxh3 and digest hashes of file contents.
- `src/script/`: script values and the `fetch` call scripts use.
- `src/logger.rs`: which log messages are shown.
- `src/text.rs`: trimming, splitting and number parsing on text.

`tests/` runs the library on concrete values.
