//! Interrupt routing of the dynamic (device-tree probed) platform with a
//! GIC: how an IRQ is enabled or disabled, and the steps of dispatching one.

use vstd::prelude::*;

verus! {

/// The maximum number of IRQs.
pub const MAX_IRQ_COUNT: usize = 2048;

/// The IPI IRQ number.
pub const IPI_IRQ_NUM: usize = 0;

/// How an interrupt is triggered.
#[derive(Clone, Copy, Debug, PartialEq, Eq, Structural)]
pub enum Trigger {
    EdgeBoth,
    EdgeRising,
    EdgeFailling,
    LevelHigh,
    LevelLow,
}

/// The configuration of an interrupt: its number, its trigger, and whether
/// it is private to a CPU.
#[derive(Clone, Copy, Debug, PartialEq, Eq, Structural)]
pub struct IrqConfig {
    pub irq: usize,
    pub trigger: Trigger,
    pub is_private: bool,
}

/// The controller that an enable or disable goes to.
#[derive(Clone, Copy, Debug, PartialEq, Eq, Structural)]
pub enum IrqController {
    /// The CPU interface, which configures the CPU's private interrupts.
    CpuInterface,
    /// The distributor, which routes shared interrupts to a CPU.
    Distributor,
}

/// One operation on an interrupt controller.
#[derive(Clone, Copy, Debug, PartialEq, Eq, Structural)]
pub enum IntcOp {
    SetTargetCpu { irq: usize, cpu: usize },
    SetTrigger { irq: usize, trigger: Trigger },
    Enable(usize),
    Disable(usize),
}

/// The controller to use and the operations to perform on it, in order.
pub struct EnablePlan {
    pub controller: IrqController,
    pub ops: Vec<IntcOp>,
}

/// The controller that enabling or disabling `irq` goes to: the CPU
/// interface for a private interrupt when it can configure local interrupts,
/// the distributor otherwise.
pub open spec fn enable_controller(irq: IrqConfig, local_capable: bool) -> IrqController {
    if irq.is_private && local_capable {
        IrqController::CpuInterface
    } else {
        IrqController::Distributor
    }
}

/// The operations that enable or disable `irq`: disabling is one `Disable`;
/// enabling sets the trigger and then enables, after routing the interrupt
/// to the CPU `cpu_hard_id` when the distributor handles it.
pub open spec fn enable_ops(irq: IrqConfig, enabled: bool, local_capable: bool, cpu_hard_id: usize) -> Seq<
    IntcOp,
> {
    if !enabled {
        seq![IntcOp::Disable(irq.irq)]
    } else if enable_controller(irq, local_capable) == IrqController::CpuInterface {
        seq![IntcOp::SetTrigger { irq: irq.irq, trigger: irq.trigger }, IntcOp::Enable(irq.irq)]
    } else {
        seq![
            IntcOp::SetTargetCpu { irq: irq.irq, cpu: cpu_hard_id },
            IntcOp::SetTrigger { irq: irq.irq, trigger: irq.trigger },
            IntcOp::Enable(irq.irq),
        ]
    }
}

/// Enables or disables the given IRQ: which controller to drive and how.
/// `local_capable` says whether the CPU interface can configure local
/// interrupts; `cpu_hard_id` is the hardware id of the current CPU.
pub fn set_enable_plan(irq: IrqConfig, enabled: bool, local_capable: bool, cpu_hard_id: usize) -> (plan:
    EnablePlan)
    ensures
        plan.controller == enable_controller(irq, local_capable),
        plan.ops@ == enable_ops(irq, enabled, local_capable, cpu_hard_id),
        (plan.controller == IrqController::CpuInterface) <==> (irq.is_private && local_capable),
        enabled && plan.controller == IrqController::Distributor ==> plan.ops@ == seq![
            IntcOp::SetTargetCpu { irq: irq.irq, cpu: cpu_hard_id },
            IntcOp::SetTrigger { irq: irq.irq, trigger: irq.trigger },
            IntcOp::Enable(irq.irq),
        ],
        enabled && plan.controller == IrqController::CpuInterface ==> plan.ops@ == seq![
            IntcOp::SetTrigger { irq: irq.irq, trigger: irq.trigger },
            IntcOp::Enable(irq.irq),
        ],
        !enabled ==> plan.ops@ == seq![IntcOp::Disable(irq.irq)],
{
    let mut ops: Vec<IntcOp> = Vec::new();
    if irq.is_private && local_capable {
        if enabled {
            ops.push(IntcOp::SetTrigger { irq: irq.irq, trigger: irq.trigger });
            ops.push(IntcOp::Enable(irq.irq));
        } else {
            ops.push(IntcOp::Disable(irq.irq));
        }
        return EnablePlan { controller: IrqController::CpuInterface, ops };
    }
    if enabled {
        ops.push(IntcOp::SetTargetCpu { irq: irq.irq, cpu: cpu_hard_id });
        ops.push(IntcOp::SetTrigger { irq: irq.irq, trigger: irq.trigger });
        ops.push(IntcOp::Enable(irq.irq));
    } else {
        ops.push(IntcOp::Disable(irq.irq));
    }
    EnablePlan { controller: IrqController::Distributor, ops }
}

/// The IRQ that an operation concerns.
pub open spec fn op_irq(op: IntcOp) -> usize {
    match op {
        IntcOp::SetTargetCpu { irq, .. } => irq,
        IntcOp::SetTrigger { irq, .. } => irq,
        IntcOp::Enable(irq) => irq,
        IntcOp::Disable(irq) => irq,
    }
}

/// Every operation of a plan concerns the given IRQ; an enable ends with
/// `Enable` after setting the configured trigger and holds no `Disable`; a
/// disable is a single `Disable`; the target CPU is set only on the
/// distributor.
pub proof fn law_enable_ops(irq: IrqConfig, enabled: bool, local_capable: bool, cpu_hard_id: usize)
    ensures
        ({
            let ops = enable_ops(irq, enabled, local_capable, cpu_hard_id);
            &&& forall|k: int| 0 <= k < ops.len() ==> op_irq(#[trigger] ops[k]) == irq.irq
            &&& enabled ==> ops.last() == IntcOp::Enable(irq.irq) && ops[ops.len() - 2]
                == IntcOp::SetTrigger { irq: irq.irq, trigger: irq.trigger } && forall|k: int|
                0 <= k < ops.len() ==> !(#[trigger] ops[k] is Disable)
            &&& !enabled ==> ops == seq![IntcOp::Disable(irq.irq)]
            &&& (exists|k: int| 0 <= k < ops.len() && #[trigger] ops[k] is SetTargetCpu) ==> enable_controller(
                irq,
                local_capable,
            ) == IrqController::Distributor
        }),
{
}

/// The controller depends on nothing but whether the IRQ is private and
/// whether the CPU interface can configure local IRQs, whatever the IRQ's
/// number and trigger: a private IRQ goes to a capable CPU interface, every
/// other one to the distributor.
pub proof fn law_enable_controller(irq: IrqConfig, local_capable: bool, other: IrqConfig)
    ensures
        (enable_controller(irq, local_capable) == IrqController::CpuInterface) <==> (irq.is_private
            && local_capable),
        (enable_controller(irq, local_capable) == IrqController::Distributor) <==> !(irq.is_private
            && local_capable),
        other.is_private == irq.is_private ==> enable_controller(other, local_capable)
            == enable_controller(irq, local_capable),
{
}

/// Enabling on the distributor first routes the IRQ to the CPU given by
/// `cpu_hard_id`, whatever that CPU is, then sets the configured trigger,
/// then enables; enabling on the CPU interface sets the trigger and enables
/// and routes nothing; disabling is one `Disable` on either controller.
pub proof fn law_enable_ops_by_controller(
    irq: IrqConfig,
    enabled: bool,
    local_capable: bool,
    cpu_hard_id: usize,
)
    ensures
        ({
            let ops = enable_ops(irq, enabled, local_capable, cpu_hard_id);
            &&& (enabled && !(irq.is_private && local_capable)) ==> {
                &&& ops.len() == 3
                &&& ops[0] == IntcOp::SetTargetCpu { irq: irq.irq, cpu: cpu_hard_id }
                &&& ops[1] == IntcOp::SetTrigger { irq: irq.irq, trigger: irq.trigger }
                &&& ops[2] == IntcOp::Enable(irq.irq)
            }
            &&& (enabled && irq.is_private && local_capable) ==> {
                &&& ops.len() == 2
                &&& ops[0] == IntcOp::SetTrigger { irq: irq.irq, trigger: irq.trigger }
                &&& ops[1] == IntcOp::Enable(irq.irq)
            }
            &&& !enabled ==> ops.len() == 1 && ops[0] == IntcOp::Disable(irq.irq)
        }),
{
}

/// Where the interrupt to dispatch comes from.
#[derive(Clone, Copy, Debug, PartialEq, Eq, Structural)]
pub enum IrqSource {
    /// Acknowledge the CPU interface to learn the pending interrupt (and
    /// stop if none is pending).
    Acknowledge,
    /// The interrupt is known: this one.
    Given(usize),
}

/// One step of dispatching an interrupt.
#[derive(Clone, Copy, Debug, PartialEq, Eq, Structural)]
pub enum GicStep {
    /// Run the handler that the common handler table holds for it.
    Handle(usize),
    /// Signal the end of the interrupt (priority drop).
    EndOfInterrupt(usize),
    /// Deactivate the interrupt.
    Deactivate(usize),
}

/// Where dispatching IRQ `irq_no` takes the interrupt from: number 0 asks
/// the CPU interface, any other number is the interrupt itself.
pub fn irq_source(irq_no: usize) -> (source: IrqSource)
    ensures
        source == (if irq_no == 0 {
            IrqSource::Acknowledge
        } else {
            IrqSource::Given(irq_no)
        }),
{
    if irq_no == 0 {
        IrqSource::Acknowledge
    } else {
        IrqSource::Given(irq_no)
    }
}

/// The steps that dispatch `intid`: handle it, signal its end, and, where
/// the CPU interface splits the end of an interrupt in two (`eoi_mode`),
/// deactivate it.
pub open spec fn dispatch_steps_spec(intid: usize, eoi_mode: bool) -> Seq<GicStep> {
    if eoi_mode {
        seq![GicStep::Handle(intid), GicStep::EndOfInterrupt(intid), GicStep::Deactivate(intid)]
    } else {
        seq![GicStep::Handle(intid), GicStep::EndOfInterrupt(intid)]
    }
}

/// Every dispatched interrupt is handled first and then ended, and is
/// deactivated exactly when the end of interrupt is split; each step names
/// the dispatched interrupt.
pub proof fn law_dispatch_steps(intid: usize, eoi_mode: bool)
    ensures
        ({
            let steps = dispatch_steps_spec(intid, eoi_mode);
            &&& steps[0] == GicStep::Handle(intid)
            &&& steps[1] == GicStep::EndOfInterrupt(intid)
            &&& steps.contains(GicStep::Deactivate(intid)) <==> eoi_mode
            &&& forall|k: int|
                0 <= k < steps.len() ==> #[trigger] steps[k] == GicStep::Handle(intid) || steps[k]
                    == GicStep::EndOfInterrupt(intid) || steps[k] == GicStep::Deactivate(intid)
        }),
{
    let steps = dispatch_steps_spec(intid, eoi_mode);
    if eoi_mode {
        assert(steps[2] == GicStep::Deactivate(intid));
    }
}

/// Dispatches `intid`: the steps, in order.
pub fn dispatch_steps(intid: usize, eoi_mode: bool) -> (steps: Vec<GicStep>)
    ensures
        steps@ == dispatch_steps_spec(intid, eoi_mode),
{
    let mut steps: Vec<GicStep> = Vec::new();
    steps.push(GicStep::Handle(intid));
    steps.push(GicStep::EndOfInterrupt(intid));
    if eoi_mode {
        steps.push(GicStep::Deactivate(intid));
    }
    steps
}

/// The steps that dispatch IRQ `irq_no`: for number 0, those of the
/// interrupt that the acknowledge returned (`acked`), and none when it found
/// nothing pending; for any other number, those of that interrupt. `acked`
/// is read only for number 0, the one case in which `irq_source` asks for an
/// acknowledge.
pub open spec fn dispatch_plan_spec(irq_no: usize, acked: Option<usize>, eoi_mode: bool) -> Seq<
    GicStep,
> {
    if irq_no == 0 {
        match acked {
            Some(intid) => dispatch_steps_spec(intid, eoi_mode),
            None => seq![],
        }
    } else {
        dispatch_steps_spec(irq_no, eoi_mode)
    }
}

/// Dispatches IRQ `irq_no`, given what an acknowledge returned when
/// `irq_source` asked for one: the steps, in order; none when the
/// acknowledge found nothing pending.
pub fn dispatch_plan(irq_no: usize, acked: Option<usize>, eoi_mode: bool) -> (steps: Vec<GicStep>)
    ensures
        steps@ == dispatch_plan_spec(irq_no, acked, eoi_mode),
{
    match irq_source(irq_no) {
        IrqSource::Acknowledge => match acked {
            Some(intid) => dispatch_steps(intid, eoi_mode),
            None => Vec::new(),
        },
        IrqSource::Given(intid) => dispatch_steps(intid, eoi_mode),
    }
}

/// Dispatching an IRQ runs the handler of the interrupt it names (or that
/// the acknowledge returned), once, and only after that ends the
/// interrupt, then deactivates it when the end of interrupt is split (as
/// after platform initialisation, which sets that mode); an acknowledge
/// that finds nothing leads to no step at all.
pub proof fn law_dispatch_irq_handles_then_ends(irq_no: usize, acked: Option<usize>, eoi_mode: bool)
    ensures
        ({
            let steps = dispatch_plan_spec(irq_no, acked, eoi_mode);
            let intid = if irq_no == 0 {
                acked->0
            } else {
                irq_no
            };
            &&& (irq_no == 0 && acked is None) ==> steps.len() == 0
            &&& (irq_no != 0 || acked is Some) ==> {
                &&& steps[0] == GicStep::Handle(intid)
                &&& steps[1] == GicStep::EndOfInterrupt(intid)
                &&& eoi_mode ==> steps.len() == 3 && steps[2] == GicStep::Deactivate(intid)
                &&& !eoi_mode ==> steps.len() == 2
            }
        }),
{
}

/// The pending interrupt that an acknowledge returned, or 0 when none was
/// pending.
pub fn fetched_irq(acked: Option<usize>) -> (irq: usize)
    ensures
        irq == match acked {
            Some(v) => v,
            None => 0,
        },
{
    match acked {
        Some(v) => v,
        None => 0,
    }
}

/// The IRQ configuration of inter-processor interrupts: SGI 1, triggered on
/// both edges, private to each CPU.
pub fn ipi_irq_config() -> (config: IrqConfig)
    ensures
        config == (IrqConfig { irq: 1, trigger: Trigger::EdgeBoth, is_private: true }),
{
    IrqConfig { irq: 1, trigger: Trigger::EdgeBoth, is_private: true }
}

} // verus!
