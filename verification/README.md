# madquatter

Orientation tracking firmware for a MicroBit v2 with an MPU-6050 and the
on-board LSM303AGR: a Madgwick filter fuses the sensor readings, and each
orientation estimate is serialized with postcard and sent over the UART in a
small frame.

- `src/` is the verified library. `marg.rs` holds the per-tick decisions of
  the two sensor tasks as a step function from the outcome of the last read to
  the next action, with a law on what one tick reads and when it filters and
  publishes. `frame.rs` and `wire.rs` hold the wire framing of those messages. A frame
  is an eight-byte header (the start marker `0x77777777`, then the payload
  length, each least significant byte first) followed by the payload. The
  contracts state the exact bytes, and proof functions show that a frame reads
  back to its marker, length and payload, and that a sequence of messages goes
  out as their frames in order.
- `app/` is the firmware around it: the embassy tasks that perform each
  action the step function returns and report the outcome back,
  the floating-point quaternion and Madgwick filter code, and the UART writes.
- `tests/` runs the framing on concrete payloads, including a postcard-encoded
  orientation.
