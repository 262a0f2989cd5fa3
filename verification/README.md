# sherbus

Frame codec and bus-control decisions for a single-wire packet bus driven by the RP2040 PIO.

- `src/parser.rs`: the frame format. `parse_rx` decodes eight received words into a
  `PacketParsed`, `parse_tx` encodes one for sending; both are specified exactly by the
  spec functions `rx_model` and `tx_model`.
- `src/bus.rs`: the decisions a transfer takes (collision, completion) and the collection of a
  received frame from the FIFO, one read at a time.
- `src/laws.rs`: what encoding then decoding gives back, and range facts about decoded fields.
- `app/lib.rs`: the PIO driver (`SherBusRaw`) on `rp2040-hal`, which installs the PIO programs
  and performs the FIFO and interrupt I/O, asking the library what to do next.
