# lamp_control

Control logic of a signal lamp: two addressable LED strips, a sound module, a relay
and a heartbeat LED, driven by two switches. The logic is executable Rust whose
behaviour is stated in contracts and proved with Verus; it allocates nothing.

- `src/progress.rs`: the progress bar that the columns of the strips show.
- `src/ws2815.rs`: a frame as pulses on the data line of a strip.
- `src/dfplayer.rs`: commands, packets and byte-by-byte sending for the sound module.
- `src/tracks.rs`: random states, the choice of tracks and their length.
- `src/gpio.rs`: the output pins.
- `src/action.rs`: what the lamp asks of its hardware, as a bounded list.
- `src/lamp.rs`: the state of the lamp and its step.
- `src/laws.rs`: what holds of the lamp over its steps and its pins.
- `app/main.rs`: the firmware around it: clocks, pins, serial line, timer, watchdog.

A step takes a reading of the timer and of the two switch pins, and returns the list
of actions that the firmware then carries out in order.
