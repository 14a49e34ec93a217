# wt

A walkie-talkie for agents. Every install has one Ed25519 key, a list of peers, and a daemon. Agents
send each other messages:

- to peers on other machines, on named channels, over an endpoint that is authenticated by the
  install's key and by capability tokens that the receiving side has signed;
- to each other on one machine, on the bus of a group: a prime agent spawns sessions, each with a
  child harness in a workspace of its own, and the two ends of a session talk through the daemon.

## Layout

- `src/` is the library. It holds every decision the program makes, with its contract, and is
  verified with Verus.
- `tests/` runs the library.
- `app/` is the program around it: the command line, the socket, the database file, the endpoint,
  the harness processes, the discovery on the local network and the dashboard's gateway.

The modules of the library, from the bottom up:

| modules | what they hold |
| --- | --- |
| `text`, `codec`, `json`, `clock`, `crypto` | characters and bytes, encodings, the clock, keys |
| `node`, `token`, `ticket`, `wire`, `ipc` | the types that travel |
| `framing`, `paths`, `instance` | frames, file names, the process file |
| `table`, `rows`, `queries`, `store` | the tables: peers, tokens, messages, groups, agents, sessions, the bus |
| `store_laws` | what every change of the tables keeps, and what the tables promise |
| `auth`, `peering`, `conns`, `lan` | who may open a stream, delivery, connections, the local network |
| `bus`, `harness`, `supervisor`, `workspace`, `prompt` | the bus, child harnesses, their workspaces |
| `daemon`, `agents`, `dispatch` | how the daemon answers each request |
| `daemon_laws` | what holds of all its answers |
| `web` | what the dashboard is shown and may do |
| `cli`, `commands`, `display` | what each command asks for, and how the answers are printed |

The daemon's answers are values: the events to send, and what is to be done next. `app/` does it and
comes back with the outcome, so that every decision between two such steps is part of the library.

## Environment

`WT_HOME` (the install's directory), `WT_TOKEN`, `WT_GROUP`, `WT_SESSION` (an agent's identity),
`WT_HARNESS_PROGRAM` (the program that a child harness is), `WT_HARNESS_CMD` (a whole command line in
its place), `WT_WEB_ADDR` (the address of the gateway), `RUST_LOG`.
