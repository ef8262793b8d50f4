# shurectl

Configures Shure USB microphones: the MVX2U (both generations), the MV6 and the
MV7+. The library is written and verified in Verus; `app/` is the program around
it.

- `src/protocol.rs`, `src/catalog.rs`, `src/token.rs`: the models, their settings
  and the words for setting values.
- `src/value.rs`, `src/number.rs`, `src/decibel.rs`, `src/single.rs`, `src/text.rs`:
  values as users write them. Gains are rounded as single-precision arithmetic
  rounds them, in whole numbers.
- `src/settings.rs`: from a name and a value to the command for the device.
- `src/presets.rs`: presets, and the commands that bring a device to one.
- `src/headless.rs`, `src/json.rs`, `src/error.rs`: commands without a terminal,
  step by step, their answers in JSON, and what can be wrong with them.
- `src/app.rs`, `src/actions.rs`, `src/startup.rs`: the terminal interface, as far
  as it decides anything.
- `src/meter.rs`: the rolling windows behind the input level meter.

`app/` parses the command line, stores presets, draws, captures audio and performs
what the library asks for. It comes without a USB transport: a device is reached
through the traits in `app/device.rs`.
