# lpm013m126

A frame buffer driver for the Japan Display LPM013M126 display, verified with
Verus.

* `src/` decides. The driver is a state machine: each event is a method call that
  returns the work to be done on the bus, the pins, the alarm and the client.
  `model.rs` says what each event does, `driver.rs` does it, and `laws.rs`,
  `frame_laws.rs` and `system.rs` prove what follows for whole runs. `process.rs`
  does the same for the turn that the main loop gives to a process.
* `app/` carries the work out on a board.
* `tests/` runs the library.
