# skydaddy

A server for in-game computers. A computer connects over TCP, announces
itself with a 20-byte header, is registered in an SQLite database, and is then
polled: every poll sends it a Lua script to evaluate, and every answer is
recorded as a ping.

- `src/` is the verified library (Verus): the header format (`header`), the
  response format (`response`), the records (`models`), the ping row
  (`ping`), the poll script (`script`) and the per-connection logic as a
  state machine (`server`), with the laws it keeps.
- `app/` is the program around it: sockets, timeouts, the database and
  logging. It carries out the actions the state machine asks for.
- `tests/` run the library on concrete values.
