//! Hardware abstraction for interrupt routing and time keeping: the
//! decisions of the interrupt controllers and timers, with their contracts.

mod lazy_cell;
pub mod riscv_irq;
pub mod sgi;
pub mod list_regs;
pub mod gic_irq;
pub mod time;
pub mod console;
