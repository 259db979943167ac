# beacon_scanner

A Bluetooth beacon scanner whose core is verified with Verus.

- `src/` is the verified library: the `Beacon` record and its binary
  message codec (`beacon`, over the `bytebuffer` crate through the trusted
  items of `byte_buffer`), big-endian number encodings (`wire`), hex field
  parsing (`radix`), beacons built from advertised manufacturer data
  (`scanner`, using the `uuid` crate for the uuid text), the decisions of the
  packet-dump reader (`parser`), and the `Publisher` trait.
- `app/` is the program around it: the BlueZ listener loop, the MQTT and
  STOMP publishers, the dump reader's I/O loop, and a scanning experiment.
- `tests/` runs the library on concrete values.
