# nes_core

The verified core of a cycle-stepped NES emulator, written in Verus.

- `src/cpu.rs` and `src/cpu/`: the 6502 cpu (no decimal mode), one bus cycle at a time,
  documented and undocumented opcodes. Each opcode has a spec function that says what one
  cycle of it does; `NesCpu::cycle` is proved to take one step of `cycle_relation` and to
  change the cpu ram as its bus access says (`ram_effect`).
- `src/motherboard.rs`: cpu ram, video ram, palette ram, the cpu and ppu memory maps and the
  controller ports, four score adapters included.
- `src/emulator_data.rs`: the configuration and the master clock that divides into the cpu
  and ppu clocks, with the frame loop decisions of the debugger.
- `src/genie.rs`: Game Genie codes.
- `src/network.rs`: the network state of the emulator and of its network thread, as state
  machines from message to answer.
- `src/devices.rs`: the traits that the ppu, apu, cartridges and controllers implement, with
  the spec functions that name what the ppu, the apu clock and the controllers do.

`app/` holds the program around the library: the configuration file and the loops that
drive the library. The laws of the library are the public proof functions whose names start
with `law_`.
