# ti84ce

The hardware models of a TI-84 Plus CE emulator core, written in Verus:
each register access, tick and snapshot operation states its effect as an
exact contract over a mathematical model of the device, and the laws that
relate operations (a written register reads back, loading a saved snapshot
reproduces its bytes for the states that port writes lead to, a saved
flash-ready bit aside, an event past its time is reported pending) are
proved.

Layout:

- `src/peripherals/`: the memory-mapped controllers (control ports, flash,
  interrupts, general timers, keypad, LCD, RTC, SHA-256, SPI, watchdog,
  backlight), the `Peripherals` bus that routes port addresses to them, and
  the peripheral snapshot format.
- `src/scheduler.rs`: the event scheduler over the 48/24 MHz, 32 kHz and CPU
  clocks.
- `src/ti_file.rs`: the parser for TI variable files (`**TI83F*` format).
- `src/framebuffer.rs`: conversion of ARGB8888 pixels to RGBA8888 bytes.
- `src/text.rs`, `src/bits.rs`: number rendering and byte-lane helpers.
- `tests/`: executable tests of every module.
