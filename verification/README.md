# axhal

Interrupt routing and time keeping for a small kernel's hardware abstraction
layer, written in Verus.

- `src/` is the verified library: the RISC-V trap-cause routing with its
  once-only timer handler (`riscv_irq`), GIC interrupt enabling and dispatch
  plans (`gic_irq`), virtual interrupt injection through list registers
  (`list_regs`), SGI register values (`sgi`), the tick counter and one-shot
  timer arithmetic (`time`), and the console (`console`).
- `app/` holds what touches hardware: CSR and system register access, the
  platform crates, and the statics that hold the library's state.
- `tests/` runs the library on concrete values.
