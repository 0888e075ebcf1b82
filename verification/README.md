# touch_panel

Firmware library of a USB touch button panel: eight mechanical buttons whose
levels are cached in one byte, and eight time-of-flight distance sensors whose
readings become seventeen virtual buttons.

- `src/` is the verified library: single-bit operations on a byte and the
  cached button status (`buttons`), the fixed-capacity flag vector it fills
  (`flags`), sensor offsets, height sections and virtual buttons (`distance`),
  the eight-pin button variant (`models`) and the mapping from shared
  interrupt lines to buttons (`interrupts`).
- `app/` is the firmware around it: the RTIC application, pin interrupts,
  sensor start-up and reads over I2C, and USB.
- `tests/` exercises the library on concrete values.
