# project_core

Client library for a UHF RFID reader on a serial line, verified with Verus.

- `src/frame.rs` — the frame format (header 0xA0, length, address, command,
  data, two's-complement checksum) and `send_protocol_data`, which builds a
  frame.
- `src/commands.rs` — the command frames the client sends.
- `src/response.rs` — decoding of a configuration reply.
- `src/buffer.rs` — the receive buffer of the inventory sessions, which
  cuts packets from a stream of serial reads.
- `src/hex.rs` — EPC bytes to hex text and back.
- `src/session.rs`, `src/connect.rs`, `src/config.rs`, `src/inventory.rs` —
  the sessions of the client as state machines: each `step` takes what
  happened and returns the next action.
- `src/sheet.rs` — the EPC list of a spreadsheet.
- `src/ui.rs`, `src/transfer.rs` — the user-interface trait and the state
  the application shares between commands.
- `app/` — the desktop application: the window, the serial port, and the
  loop that performs the actions of a session.
