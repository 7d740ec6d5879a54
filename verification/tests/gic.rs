use axhal::gic_irq::{
    dispatch_plan, dispatch_steps, fetched_irq, ipi_irq_config, irq_source, set_enable_plan, GicStep, IntcOp,
    IrqConfig, IrqController, IrqSource, Trigger, IPI_IRQ_NUM, MAX_IRQ_COUNT,
};
use axhal::list_regs::{free_list_register, inject_plan, pending_lr_value, LR_VIRTIRQ_MASK};
use axhal::sgi::{sgi1r_value, sgi_all_value, sgi_one_value};

fn config(irq: usize, is_private: bool) -> IrqConfig {
    IrqConfig { irq, trigger: Trigger::LevelHigh, is_private }
}

#[test]
fn gic_constants() {
    assert_eq!(MAX_IRQ_COUNT, 2048);
    assert_eq!(IPI_IRQ_NUM, 0);
    assert_eq!(
        ipi_irq_config(),
        IrqConfig { irq: 1, trigger: Trigger::EdgeBoth, is_private: true }
    );
}

#[test]
fn private_irq_enabled_on_cpu_interface() {
    let plan = set_enable_plan(config(27, true), true, true, 3);
    assert_eq!(plan.controller, IrqController::CpuInterface);
    assert_eq!(
        plan.ops,
        vec![IntcOp::SetTrigger { irq: 27, trigger: Trigger::LevelHigh }, IntcOp::Enable(27)]
    );
    let plan = set_enable_plan(config(27, true), false, true, 3);
    assert_eq!(plan.controller, IrqController::CpuInterface);
    assert_eq!(plan.ops, vec![IntcOp::Disable(27)]);
}

#[test]
fn private_irq_without_local_capability_uses_distributor() {
    let plan = set_enable_plan(config(27, true), true, false, 3);
    assert_eq!(plan.controller, IrqController::Distributor);
    assert_eq!(
        plan.ops,
        vec![
            IntcOp::SetTargetCpu { irq: 27, cpu: 3 },
            IntcOp::SetTrigger { irq: 27, trigger: Trigger::LevelHigh },
            IntcOp::Enable(27)
        ]
    );
}

#[test]
fn shared_irq_routed_then_enabled() {
    let plan = set_enable_plan(config(33, false), true, true, 0x100);
    assert_eq!(plan.controller, IrqController::Distributor);
    assert_eq!(
        plan.ops,
        vec![
            IntcOp::SetTargetCpu { irq: 33, cpu: 0x100 },
            IntcOp::SetTrigger { irq: 33, trigger: Trigger::LevelHigh },
            IntcOp::Enable(33)
        ]
    );
    let plan = set_enable_plan(config(33, false), false, false, 0x100);
    assert_eq!(plan.controller, IrqController::Distributor);
    assert_eq!(plan.ops, vec![IntcOp::Disable(33)]);
}

#[test]
fn dispatch_source_and_steps() {
    assert_eq!(irq_source(0), IrqSource::Acknowledge);
    assert_eq!(irq_source(30), IrqSource::Given(30));
    assert_eq!(
        dispatch_steps(30, false),
        vec![GicStep::Handle(30), GicStep::EndOfInterrupt(30)]
    );
    assert_eq!(
        dispatch_steps(30, true),
        vec![GicStep::Handle(30), GicStep::EndOfInterrupt(30), GicStep::Deactivate(30)]
    );
}

#[test]
fn fetch_irq_defaults_to_zero() {
    assert_eq!(fetched_irq(None), 0);
    assert_eq!(fetched_irq(Some(42)), 42);
}

#[test]
fn free_list_register_lowest_free() {
    // four list registers (ListRegs = 3), registers 0 and 1 in use
    assert_eq!(free_list_register(0b1100, 3), Some(2));
    assert_eq!(free_list_register(0b1111, 3), Some(0));
    // a free bit beyond the announced registers does not count
    assert_eq!(free_list_register(0b1_0000, 3), None);
    assert_eq!(free_list_register(0, 0xf), None);
    assert_eq!(free_list_register(1 << 15, 0xf), Some(15));
    // only the ListRegs field of VTR counts
    assert_eq!(free_list_register(1 << 2, 0xffff_fff1), None);
    assert_eq!(free_list_register(1 << 1, 0xffff_fff1), Some(1));
}

#[test]
fn pending_value_fields() {
    let v = pending_lr_value(27);
    assert_eq!(v, 27 | (1 << 60) | (1 << 62));
    assert_eq!(v & LR_VIRTIRQ_MASK, 27);
    assert_eq!(v >> 62, 1);
    assert_eq!((v >> 60) & 1, 1);
}

#[test]
fn inject_plan_uses_first_free_register() {
    assert_eq!(inject_plan(40, 0b0110, 3), Some((1, 40 | (1 << 60) | (1 << 62))));
    assert_eq!(inject_plan(40, 0, 3), None);
}

#[test]
fn sgi_values() {
    assert_eq!(sgi_one_value(2, 1), (1 << 24) | (1 << 2));
    assert_eq!(sgi_one_value(0, 0x13), (3 << 24) | 1);
    // the destination is taken modulo 256
    assert_eq!(sgi_one_value(256 + 5, 2), (2 << 24) | (1 << 5));
    assert_eq!(sgi_all_value(7), (7 << 24) | 1 | (1 << 40));
    assert_eq!(
        sgi1r_value(0x12, 0x34, 0x56, 4, 9, false),
        (9 << 24) | (1 << 4) | (0x56 << 16) | (0x34 << 32) | (0x12 << 48)
    );
}

#[test]
fn sgi_fields_read_back() {
    let v = sgi1r_value(0xab, 0xcd, 0xef, 15, 0x7b, true);
    assert_eq!(v & 0xffff, 1 << 15);
    assert_eq!((v >> 16) & 0xff, 0xef);
    assert_eq!((v >> 24) & 0xf, 0xb);
    assert_eq!((v >> 32) & 0xff, 0xcd);
    assert_eq!((v >> 40) & 1, 1);
    assert_eq!((v >> 48) & 0xff, 0xab);
    assert_eq!(v >> 56, 0);
}

#[test]
fn dispatch_plan_stops_when_nothing_is_pending() {
    assert_eq!(dispatch_plan(0, None, true), vec![]);
    assert_eq!(
        dispatch_plan(0, Some(27), true),
        vec![GicStep::Handle(27), GicStep::EndOfInterrupt(27), GicStep::Deactivate(27)]
    );
    assert_eq!(
        dispatch_plan(30, None, false),
        vec![GicStep::Handle(30), GicStep::EndOfInterrupt(30)]
    );
    assert_eq!(
        dispatch_plan(30, Some(27), false),
        vec![GicStep::Handle(30), GicStep::EndOfInterrupt(30)]
    );
}
