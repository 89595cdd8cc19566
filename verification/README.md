# lib8080_msg

The verified core of 8080_msg, a self-hostable chat server and its terminal
client.

- `src/` is the library, proved against its contracts: the message, user and packet types;
  the length-prefixed framing of encoded packets (with its round-trip proofs);
  the server's roster of connected users with their queues, and its answer to every packet; and the
  client's reading of a typed line.
- `app/` is the program around it: JSON encoding of packets with serde, the TCP
  server on tokio with its SQLite history, and the cursive terminal client.
  Run it as `server`, as `tty --adress <host> --port <port> --username <name>`,
  or as `tty-msg-server` for the older tty_msg protocol.
- `tests/` exercises the library on concrete values.
