# gb_disass_rs

A disassembler for Game Boy (SM83) machine code, verified with Verus.

`disassemble(bus, addr, prefs)` reads one operation from a `MemoryBus` and
returns its length in bytes and its text in RGBDS syntax; `decode`,
`next_offset` and `render` are the three steps it is made of.

Layout of `src/`:

- `types.rs`: `Mnemonic`, `Operand`, `Operation`, `Preferences`.
- `bus.rs`: the `MemoryBus` trait, whose reads are named by the spec
  functions `spec_byte` and `spec_word`, and `SimpleBus`, a bus over a byte
  vector.
- `decode.rs`: the opcode tables, specified by the bit fields of the opcode
  (`xx yyy zzz`), and decoding from bytes to an `Operation`.
- `render.rs`: operation length, RGBDS text, and `disassemble`.
- `text.rs`: decimal and hexadecimal numerals and ASCII lower-casing.
- `laws.rs`: properties that span functions, such as "the length of a decoded
  operation is the number of bytes decoding reads from the bus", which
  `decode` and `disassemble` inherit through their contracts.
