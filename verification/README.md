# scada_edge

The edge side of a tag-based SCADA system: the agent that bridges field devices to a
central server over MQTT, and the supervisor that keeps the agent running and restarts
it on central's orders.

The library in `src/` holds the rules of both, each with a contract proved by Verus:

- `domain` — tags, connections, devices and their status, driver types, identifiers,
  and the consecutive-match counter of automations.
- `agent` — its settings from the environment, the MQTT topics, messages and the
  routing of incoming ones, the durable outbox (capacity policy, sealing
  and signing of stored rows, key rotation), the runtime-health alert with its
  hysteresis and duplicate window, the answers to commands from central, action
  planning and deduplication, ESC/POS printing layout and routing, the signed
  configuration envelope, ticket numbering, the broker watchdog and the heartbeat.
- `supervisor` — its settings from the environment, the control channel's orders and
  the step that decides between relaunching the agent and carrying out an order.
- `text`, `keyed`, `json` — strings as character sequences, small keyed maps, and JSON
  values carried through unread.

Hashing, HMAC, AES-GCM and random nonces come from `sha2`, `hmac`, `aes-gcm` and `rand`,
called behind small trusted wrappers in `src/agent/crypto.rs`.

`app/` is the supervisor program, and the agent's input and output around the library:
processes, HTTP, SQLite, the MQTT client and its event loop, files, JSON
(de)serialisation, and the floating-point arithmetic on weights and automation
thresholds. It holds the agent's MQTT bridge (`app/agent/handlers.rs`), but no agent
program: the agent's runtime engine and drivers are not part of this crate, so the tag
writes go to an executor that the caller of the bridge supplies.

`tests/` exercises the library from outside.
