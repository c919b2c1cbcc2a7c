# rr_driver

The serial side of a robot controller GUI: the settings page that chooses a
serial port and starts or stops link threads, the frame each link writes for a
motor command, and the smoothing that moves the sent values toward the
requested ones.

- `src/` is verified with Verus: `text` (decimal rendering and substring
  search over `Seq<char>`), `interface` (controller buttons and the motor
  packet), `rr_core::utils` (selection box, message log),
  `rr_core::external_driver` (the page as a state machine `update` from state
  and message to next state and action, with its laws),
  `rr_core::external_driver::serial_link` (frames and smoothing, with the
  convergence laws) and `rr_core::external_driver::interface` (messages and
  the identified packet).
- `app/` holds what stays outside: the stick values (floating point), the
  channels and stop flags of the link threads, the serial port I/O through
  `serialport`, and the iced page.
