# cpaldevice

A playback and capture backend for audio devices whose decisions are verified
with Verus.

- `src/` is the verified library. `device` holds the device settings and chooses
  a device and its stream parameters; `queue` moves samples between device
  callbacks and threads; `playback` and `capture` are the two device threads,
  each written as a state machine from events to actions; `playback_laws` and
  `capture_laws` prove what holds of a thread over its whole life (`trace` holds
  what both need); `message` and `bits` hold the values that are exchanged.
- `app/` runs the threads: it lists devices, builds streams, sends and receives
  on channels, and calls the resampler. What it needs from the rest of a program
  (conversions, meters, the resampler's construction) it takes through the
  `Engine` trait.
- `tests/` runs the library on concrete values.

Floating-point numbers pass through the library as their bit patterns or as a
type parameter. Of one it asks something: whether the period of the rate
adjustment is greater than zero.
