# cameleon

Protocol codecs, register maps and host-side decisions for `GenICam` compatible cameras
(`USB3 Vision` and `GigE Vision`), written in Verus: Verus verifies every function of the library, and the public ones carry
contracts that state what they do.

## Layout

- `src/bytes.rs`: big and little endian codecs, a byte cursor, UTF-8 helpers.
- `src/gige/`: `GVCP` commands and acknowledges, `GVSP` stream headers and leaders, the
  bootstrap and stream register layout.
- `src/u3v/`: `USB3 Vision` event packets, USB descriptors and the register layout (ABRM,
  SBRM, SIRM, manifest entries).
- `src/camera/`: the host side: register accessors over `DeviceControl`, the streaming
  configuration, the `GenApi` XML retrieval, the `GigE` command transaction, memory access
  split into commands, the heartbeat and the stream packet loop.
- `src/payload.rs`, `src/common.rs`, `src/control.rs`: payloads, shared value types, errors
  and the device control trait.
- `tests/`: tests of the library on concrete values.
- `app/`: the UDP transport of `GigE Vision` (discovery, commands, memory access, heartbeat
  and stream loops) around the library's decisions, and conversions to other crates' types.
