# gameboy_core

A Game Boy and Game Boy Color emulator core whose behaviour is stated in
`requires` / `ensures` contracts and proved with Verus.

- `src/` is the verified library: the processor (`cpu`), the memory map and the
  cartridge controllers (`mmu`), the display unit (`gpu`), the sound unit
  (`sound`), the timer, the serial port, the joypad and the machine that ties them
  together (`emulator`, `Gameboy` in `lib.rs`). Each unit has a view (`...View`)
  over mathematical values, a well-formedness predicate, and spec functions that
  say what every operation does; laws that relate several operations are public
  proof functions (`lemma_...`).
- `tests/` runs the library on concrete values.
- `app/` is the native front end: it reads a ROM file named on the command line,
  opens an SDL2 window with an OpenGL texture for the screen, maps the keyboard
  (Z, X, Space, Return and the arrow keys) to the buttons, and keeps battery RAM
  and clock data in the user's configuration directory.
