# modbus-client

A single-user, local Modbus client: a JSON-RPC 2.0 API over a WebSocket, a
registry of Modbus transports, and an embedded web frontend, served from one
binary on `localhost`.

The logic is a Verus library under `src/`, proved against its contracts:

- `json`: JSON values and their mathematical model.
- `text`: decimal numerals, text comparison, leading-slash removal.
- `types`: identifiers, register addressing, transport configuration, Modbus
  exceptions and transport errors.
- `rpc`: JSON-RPC framing (reading a request, building success and error
  envelopes) and the set of dispatched methods.
- `ws`: the dispatcher, which decides for each message whether to answer at
  once, stay silent, or perform a registry call, and how to answer its outcome.
- `engine`: the connection registry (id assignment, registration, lookup,
  listing, closing).
- `driver`: where a transport connects to and how a device's answer becomes a result.
- `assets`: which embedded frontend file answers a request path.
- `protocol`: the parameter shapes of the methods.

`app/` is the program around it: the Axum server and WebSocket loop, the
`tokio-modbus` transport, the serde forms of the library's types, and the
embedded frontend. `tests/` exercises the library on concrete values.
