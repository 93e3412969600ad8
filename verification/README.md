# rak11300-rnode

The logic of an RNode firmware for the RAK11300 (RP2040 + SX1262): a KISS
(TNC-2) link over USB CDC-ACM to a Reticulum host, bridged to a LoRa radio.

- `src/` is the verified library:
  - `kiss.rs`: KISS special bytes, byte stuffing, the data and report frames
    sent to the host;
  - `frame_buffer.rs`: the link's fixed-room buffers (`heapless::Vec`): the
    decoder's frame, a data payload, an outgoing data frame;
  - `command.rs`: what a complete frame from the host asks for, and how it
    changes the radio settings;
  - `radio_params.rs`: the radio settings, and how KISS argument bytes map to
    bandwidth, spreading factor and coding rate;
  - `decoder.rs`: the byte-by-byte KISS decoder;
  - `host_link.rs`: how bytes for the host are laid out in USB packets, and
    the signal-quality reports;
  - `bridge.rs`: the bridge's decisions per USB read and per received packet;
  - `framing_laws.rs`: proved laws of the link (reads compose, frames
    round-trip, the frame buffer stays bounded).
- `app/main.rs` is the firmware around it: hardware set-up, the async event
  loop, the radio driver calls and the USB writes.
- The library allocates nothing on the heap: frames live in `heapless`
  buffers and fixed arrays.
- `tests/` runs the library on concrete inputs.
