# arduino_lessons

Verified logic of a series of Arduino Uno lessons (LEDs, PWM, buttons,
interrupts, a buzzer, a seven-segment indicator, a shift register and an
HD44780 character display).

- `src/` is the library, verified with Verus. It holds no board code: the
  display and indicator drivers queue the exact line levels and pauses to
  perform, and the other modules compute duties, timer settings and
  decisions from plain values.
  - `bus`: model of the display's 4-bit bus (what the controller latches).
  - `lcd`: the display driver and its command encoding.
  - `glyph`: custom 5x8 characters and their flips.
  - `seven_segment`: digit codes, the indicator and the counter.
  - `brightness`, `pulsar`, `buzzer`, `millis`, `inputs`: the other lessons.
- `tests/` runs the library on concrete values.
- `app/` is the firmware side: pins, timers, interrupts and the serial port,
  which plays what the library computes.
