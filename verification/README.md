# arnelify_server

The Node.js binding of the Arnelify server (HTTP/1.1, HTTP/2, HTTP/3,
WebSocket and WebTransport), with its decisions verified by Verus.

- `src/` is the verified library: the JSON values the binding reads and
  sends (`json`), typed reads of option fields and the report of the first
  field that cannot be read (`options`, `config`), the servers and open
  streams by id (`registry`, `addr_table`), the commands sent over a
  server's local socket (`commands`), what a request, a message or a command
  comes to (`events`), the parse of the options text with `serde_json`
  (`parse`, where the `serde_json` call itself is trusted), the creation of a server (`lifecycle`), the id of a
  request (`clock`) and the laws that relate these (`laws`).
- `app/` is the Neon module that JavaScript loads: it converts the JSON
  values that the servers hand over, runs the servers and their
  sockets on threads and calls the library for every decision. It builds on
  the project's server modules (`ipc`, `tcp1`, `tcp2`).
- `tests/` runs the library on concrete values.
