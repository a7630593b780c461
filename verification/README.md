# multiemu_definition

Machine definitions for a multi-system emulator, verified with Verus: the
processors, memories and peripherals that make up CHIP-8 and 6502 based
machines, each with contracts stating what every operation does.

## Layout

- `src/` — the verified library.
  - `memory/` — the address space processors read and write through, and
    the memory components: plain read/write memory filled from a map of
    initial contents, mirrors, bank switched ROM, and memory that denies
    every access.
  - `mos6502/` — the 6502 family (6502, 6507, 2A0x, 65C02): decoder,
    instruction semantics, and the cycle by cycle processor with its
    interrupt and ready lines.
  - `m6502/` — the first model of the 6502: instruction set, a decoder that
    takes every opcode (those it does not know decode to `JAM`), the
    interpreter of the instructions it has, and the processor's loop one
    pass at a time, walking operand loads and stores step by step.
  - `chip8/` — the CHIP-8 machine: decoder, processor, screen, delay timer
    and the machine's setup.
  - `intel8080/` — the 8080 family's configurations.
  - `riot.rs` — the MOS 6532 RAM-I/O-Timer.
  - `bounded.rs`, `random.rs` — the fixed capacity vectors of `arrayvec` and
    the random bytes of `rand`, as the library uses them.
- `tests/` — tests of the library.
- `app/` — what is left around it: scheduler loops, snapshot encoding with
  bincode and MessagePack, ROM file backends, keyboard bindings and the
  sound timer's wave.

## Verifying

Run Verus on `src/lib.rs`; the tests run with `cargo test`.
