# ledc

A verified driver core for the LEDC (LED PWM controller) peripheral.

- `src/timer.rs`: timer configuration: duty resolutions, the clock divider
  computation, the REF_TICK fallback of low-speed timers, and the register
  work that programs a timer.
- `src/channel.rs`: channels: constant duty, percentages, and hardware duty
  fades, with the laws that relate them.
- `src/lib.rs`: speed modes and the driver object that hands out the timers
  and channels.
- `src/hw.rs`: the register work the driver queues (`HwOp`) and the status
  reads it asks for (`HwQuery`).
- `src/rate.rs`: frequencies.
- `app/`: carries the queued work out on a bus, and implements the
  embedded-hal PWM traits over a configured channel.

The driver models the ESP32's LEDC (REF_TICK fallback, high-speed timers
and channels, 8 channels, up to 20-bit resolution).  Every driver operation
appends its register and pin-routing work to a queue; its contract states
exactly which operations are appended, with their arguments, so the work
handed to the peripheral is proved, not just what the driver returns.
