# catalyst

The verified core of a Taiko preconfirmation node, written in Verus.

`src/` holds the logic, each function with a contract proved by Verus:

- `config`, `settings`, `env`, `parse`: the node configuration built from a
  snapshot of the environment, with every setting parsed and checked in a
  fixed order; unsigned integers, booleans and IPv4 addresses are parsed by
  verified code with the standard library's rules.
- `rpc_url`: classification of RPC endpoints into HTTP and WebSocket
  transports, and the choice of the L2 WebSocket endpoint.
- `trace`: extraction of `error: Some(...)` entries from a debug trace dump and
  the revert message of a failed transaction.
- `protocol_config`: protocol parameters shared between clones.
- `proposal_manager`, `reanchor`, `node_setup`: proposal bookkeeping, block and
  offset checks, the reanchoring walk, and the limits proposals are built
  within.
- `laws`: properties that relate several operations.

`app/` is the runtime glue: reading the process environment, RPC providers,
the periodic refresh task. `tests/` exercises the library on concrete values.
