# retrocalc

A Windows 3.1-style standard calculator (`CALC.EXE`), with its logic written
in Verus and proved against its contracts.

- `src/` — the verified library:
  - `binary64.rs`: numbers as binary64 bit patterns, with sign, zero and
    finiteness tests done on the bits.
  - `entry.rs`, `text.rs`: the number being typed, as characters.
  - `engine.rs`: the immediate-execution state machine. Each step that needs
    arithmetic has a `*_request` query naming the computation and takes the
    result as an argument.
  - `keys.rs`, `layout.rs`, `keypad.rs`: the keys, their layout, and the
    press-and-hold handling of mouse and keyboard.
  - `readout.rs`: tidying the caller's decimal and scientific renderings
    for the readout, and trimming pasted text.
  - `laws.rs`: properties across keys and states (error latch, left-to-right
    chains, repeated `=`, memory, layout without overlap, one action per
    key press, …).
- `app/` — the program around it: the saudade window and painting, the
  clipboard (arboard), and the binary64 arithmetic and number formatting.
- `tests/` — the engine and keypad driven by scripted keystrokes.
