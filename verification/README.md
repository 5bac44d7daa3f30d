# rvfm

A small RISC-V fantasy machine and the SDK its programs use, as a library whose behaviour is
stated in contracts and proved with Verus.

- `src/` — the verified library:
  - `hart` — RV32IM instruction decoding and disassembly; the machine-mode CSRs.
  - `interrupt_controller`, `debug`, `gpu`, `machine` — the devices' registers: what each
    access does and what it reads.
  - `gpu::shader_parser`, `gpu::shading_unit`, `gpu::shader_constants` — shader bytecode,
    its integer, copy, stack and buffer instructions, and the filling of constant registers.
  - `gpu::texture`, `gpu::slots` — texture memory (clears, pixel reads and writes, blits)
    and the graphics core's texture and constant sampler slots; `gpu::gpu_core` runs a
    command list's commands on them and names what each asks of the machine.
  - `spu` — the sound unit's envelopes, the engine's envelope routing and mix table, and the
    encodings of its commands.
  - `debugger` — the console's command language.
  - `sdk`, `sgfx` — command list encoders (in place, and by chained calls), device register
    addresses, pipeline state layouts, and the graphics library's resource allocation.
  - `assembler` — the shader assembler: its lexer, operands, register aliases, number
    literals and encoders, the assembly of whole sources, and what the GPU reads back from
    the encoded instructions.
  - `gpu::rasterizer` — the rasterizer's configuration and its flat varyings.
- `app/` — what stays outside: the shared device state behind locks, the GPU's queue and
  thread, console output, the guest's register accesses, the guest spin lock and fences, and
  the floating-point work (conversions, scan conversion and interpolated varyings, the sound
  unit's oscillators, filters and voices).
- `tests/` — tests of the library on concrete values.
