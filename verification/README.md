# lib — a verified 6502 core for an NES emulator

The library loads iNES cartridge images and runs 6502 programs on a CPU core
attached to a memory bus. Every function in `src/` carries a contract that
Verus proves.

- `cartridge` — `Rom::parse` reads an iNES image; `parse_spec` states the
  format: header checks, mapper number, mirroring, trainer, ROM sizes.
- `cpu::status` — the status register; `with_flag` and
  `with_zero_and_negative` model its updates.
- `cpu::opcode` — the opcode table (`opcode_spec`), `decode` and
  `build_table`.
- `cpu::bus` — the `BusModel`/`Bus` traits (a bus is modelled by `peek`,
  `poke`, `readable`, `writable`), a flat memory and the NES memory map.
- `cpu` — the core: `step_spec` gives the meaning of one instruction,
  `run_spec` that of a run, `load_spec` and `reset_spec` those of loading
  and resetting.

`app/` gives the error types their `Display` messages.
