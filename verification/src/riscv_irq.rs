//! Interrupt routing of the RISC-V virt machine, keyed by the trap cause
//! (`scause`): the timer interrupt has a handler of its own, set once;
//! external interrupts go to the common handler table.

use crate::lazy_cell::{lazy_deref, lazy_init_once, lazy_is_inited, lazy_new, lazy_slot};
use lazyinit::LazyInit;
use vstd::prelude::*;

verus! {

/// The `Interrupt` bit of `scause`.
pub const INTC_IRQ_BASE: usize = 1usize << (usize::BITS - 1);

/// Supervisor software interrupt in `scause` (cause code 1; the low bits
/// of the base are clear, so `|` adds the code).
pub const S_SOFT: usize = INTC_IRQ_BASE | 1;

/// Supervisor timer interrupt in `scause`.
pub const S_TIMER: usize = INTC_IRQ_BASE | 5;

/// Supervisor external interrupt in `scause`.
pub const S_EXT: usize = INTC_IRQ_BASE | 9;

/// The maximum number of IRQs.
pub const MAX_IRQ_COUNT: usize = 1024;

/// The timer IRQ number (supervisor timer interrupt in `scause`).
pub const TIMER_IRQ_NUM: usize = S_TIMER;

/// The IPI IRQ number (supervisor software interrupt in `scause`).
pub const IPI_IRQ_NUM: usize = S_SOFT;

/// The cause code of a trap cause: `scause` with the `Interrupt` bit cleared.
pub open spec fn cause_code(scause: usize) -> usize {
    scause & !INTC_IRQ_BASE
}

/// The interrupt causes are distinct, and each one's cause code is the
/// number that the privileged specification gives it: 1, 5 and 9.
pub proof fn lemma_cause_codes()
    ensures
        S_SOFT != S_TIMER,
        S_SOFT != S_EXT,
        S_TIMER != S_EXT,
        cause_code(S_SOFT) == 1,
        cause_code(S_TIMER) == 5,
        cause_code(S_EXT) == 9,
{
    let b: usize = 1usize << ((usize::BITS - 1) as u32);
    assert(INTC_IRQ_BASE == b);
    assert(b | 1 != b | 5 && b | 1 != b | 9 && b | 5 != b | 9 && (b | 1) & !b == 1 && (b | 5) & !b
        == 5 && (b | 9) & !b == 9) by (bit_vector)
        requires
            b == 1usize << ((usize::BITS - 1) as u32),
    ;
}

/// An interrupt handler, named by the address of the function that serves
/// the interrupt.
pub type IrqHandler = usize;

/// A supervisor interrupt source, which its bit in `sie` enables.
#[derive(Clone, Copy, Debug, PartialEq, Eq, Structural)]
pub enum SupervisorInterrupt {
    Software,
    Timer,
    External,
}

/// The bit of `sie` that enables `source`.
pub open spec fn sie_bit(source: SupervisorInterrupt) -> usize {
    match source {
        SupervisorInterrupt::Software => 1,
        SupervisorInterrupt::Timer => 5,
        SupervisorInterrupt::External => 9,
    }
}

/// A change to `sie`: enable or disable one interrupt source.
#[derive(Clone, Copy, Debug, PartialEq, Eq, Structural)]
pub struct SieUpdate {
    pub source: SupervisorInterrupt,
    pub enable: bool,
}

/// The interrupt source that the cause `scause` names, if it names one.
pub open spec fn cause_source(scause: usize) -> Option<SupervisorInterrupt> {
    if scause == S_SOFT {
        Some(SupervisorInterrupt::Software)
    } else if scause == S_TIMER {
        Some(SupervisorInterrupt::Timer)
    } else if scause == S_EXT {
        Some(SupervisorInterrupt::External)
    } else {
        None
    }
}

/// What registering a handler came to.
#[derive(Clone, Copy, Debug, PartialEq, Eq, Structural)]
pub enum Registration {
    /// The timer interrupt: whether the handler was taken (it is refused
    /// once a timer handler is set), and the enabling of the timer
    /// interrupt that a taken handler brings.
    Timer { taken: bool, enable: Option<SieUpdate> },
    /// An external interrupt: the handler goes to the common handler table
    /// under this IRQ number, which decides whether it is taken and enables
    /// the IRQ when it is.
    Common(usize),
}

/// One step of dispatching an interrupt.
#[derive(Clone, Copy, Debug, PartialEq, Eq, Structural)]
pub enum DispatchStep {
    /// Call this handler (the timer handler).
    CallHandler(IrqHandler),
    /// Run the handler that the common handler table holds for this IRQ.
    Handle(usize),
    /// Tell the platform-level interrupt controller that this IRQ, which
    /// it handed out by a claim, is served.
    Complete(usize),
}

/// The per-platform interrupt state: the timer handler, set at most once.
pub struct IrqState {
    timer_handler: LazyInit<usize>,
}

/// The causes that the platform routes: the timer and external interrupts.
/// Any other cause is a fault of the caller, on which routing panics.
pub open spec fn routed_cause(scause: usize) -> bool {
    scause == S_TIMER || scause == S_EXT
}

/// The IRQ number under which an external interrupt's handler is kept in
/// the common table: the cause code of `S_EXT`.
pub open spec fn external_irq_num() -> usize {
    cause_code(S_EXT)
}

/// The timer handler and the result after registering `handler` for
/// `scause`, starting from the timer handler `timer`.
pub open spec fn register_spec(timer: Option<IrqHandler>, scause: usize, handler: IrqHandler) -> (
    Option<IrqHandler>,
    Registration,
) {
    if scause == S_TIMER {
        match timer {
            None => (
                Some(handler),
                Registration::Timer {
                    taken: true,
                    enable: Some(SieUpdate { source: SupervisorInterrupt::Timer, enable: true }),
                },
            ),
            Some(h) => (Some(h), Registration::Timer { taken: false, enable: None }),
        }
    } else {
        (timer, Registration::Common(external_irq_num()))
    }
}

/// The steps that dispatch `scause` under the timer handler `timer`: the
/// timer interrupt calls the timer handler; an external interrupt runs the
/// handler of the IRQ that the interrupt controller's claim returned
/// (`claimed`) and then completes it, and does nothing when the claim
/// found no pending IRQ (number 0).
pub open spec fn dispatch_spec(timer: Option<IrqHandler>, scause: usize, claimed: usize) -> Seq<
    DispatchStep,
> {
    if scause == S_TIMER {
        seq![DispatchStep::CallHandler(timer->0)]
    } else if claimed == 0 {
        seq![]
    } else {
        seq![DispatchStep::Handle(claimed), DispatchStep::Complete(claimed)]
    }
}

impl IrqState {
    /// The timer handler, if one is registered.
    pub closed spec fn timer_handler(self) -> Option<IrqHandler> {
        let slot = lazy_slot(self.timer_handler);
        if slot.len() > 0 {
            Some(slot[0])
        } else {
            None
        }
    }

    /// A state with no timer handler.
    pub fn new() -> (state: Self)
        ensures
            state.timer_handler() is None,
    {
        IrqState { timer_handler: lazy_new() }
    }

    /// Whether a timer handler is registered.
    pub fn has_timer_handler(&self) -> (r: bool)
        ensures
            r == self.timer_handler() is Some,
    {
        lazy_is_inited(&self.timer_handler)
    }
}

/// Enables or disables the given IRQ: the change to `sie` that turns the
/// interrupt source of `scause` on or off, or none when `scause` names no
/// supervisor interrupt.
pub fn set_enable(scause: usize, enabled: bool) -> (update: Option<SieUpdate>)
    ensures
        update == match cause_source(scause) {
            Some(source) => Some(SieUpdate { source, enable: enabled }),
            None => None,
        },
{
    if scause == S_SOFT {
        Some(SieUpdate { source: SupervisorInterrupt::Software, enable: enabled })
    } else if scause == S_TIMER {
        Some(SieUpdate { source: SupervisorInterrupt::Timer, enable: enabled })
    } else if scause == S_EXT {
        Some(SieUpdate { source: SupervisorInterrupt::External, enable: enabled })
    } else {
        None
    }
}

/// Registers an IRQ handler for the given cause.
///
/// The timer handler is taken if none is set yet, and the timer interrupt
/// is then to be enabled; it is refused otherwise. An external interrupt's
/// handler goes to the common handler table under `external_irq_num()`.
pub fn register_handler(state: &mut IrqState, scause: usize, handler: IrqHandler) -> (r:
    Registration)
    requires
        routed_cause(scause),
    ensures
        (final(state).timer_handler(), r) == register_spec(old(state).timer_handler(), scause, handler),
{
    proof {
        lemma_cause_codes();
    }
    if scause == S_TIMER {
        if !lazy_is_inited(&state.timer_handler) {
            lazy_init_once(&mut state.timer_handler, handler);
            Registration::Timer {
                taken: true,
                enable: Some(SieUpdate { source: SupervisorInterrupt::Timer, enable: true }),
            }
        } else {
            Registration::Timer { taken: false, enable: None }
        }
    } else {
        Registration::Common(scause & !INTC_IRQ_BASE)
    }
}

/// Dispatches the IRQ of the given cause: the timer interrupt to the timer
/// handler, which must be registered (reading an unset handler panics); an
/// external interrupt to the handler that the common handler table holds
/// for the IRQ `claimed` from the interrupt controller, which is completed
/// after handling. `claimed` is read for external interrupts only.
pub fn dispatch_irq(state: &IrqState, scause: usize, claimed: usize) -> (steps: Vec<DispatchStep>)
    requires
        routed_cause(scause),
        scause == S_TIMER ==> state.timer_handler() is Some,
    ensures
        steps@ == dispatch_spec(state.timer_handler(), scause, claimed),
{
    proof {
        lemma_cause_codes();
    }
    let mut steps: Vec<DispatchStep> = Vec::new();
    if scause == S_TIMER {
        steps.push(DispatchStep::CallHandler(lazy_deref(&state.timer_handler)));
    } else if claimed != 0 {
        steps.push(DispatchStep::Handle(claimed));
        steps.push(DispatchStep::Complete(claimed));
    }
    steps
}

/// The timer handler is set once: a first registration is taken and
/// enables the timer interrupt; any later one is refused, enables nothing,
/// and leaves the first handler in place.
pub proof fn law_timer_handler_set_once(first: IrqHandler, second: IrqHandler)
    ensures
        ({
            let (after_first, r1) = register_spec(None, S_TIMER, first);
            let (after_second, r2) = register_spec(after_first, S_TIMER, second);
            &&& r1 == Registration::Timer {
                taken: true,
                enable: Some(SieUpdate { source: SupervisorInterrupt::Timer, enable: true }),
            }
            &&& r2 == Registration::Timer { taken: false, enable: None }
            &&& after_second == Some(first)
        }),
{
}

/// Once the timer interrupt has a handler, registering for any routed cause
/// keeps it, and dispatching the timer interrupt calls it, once.
pub proof fn law_timer_dispatch_reads_registration(
    timer: Option<IrqHandler>,
    scause: usize,
    handler: IrqHandler,
    claimed: usize,
)
    requires
        routed_cause(scause),
    ensures
        ({
            let (after, r) = register_spec(timer, scause, handler);
            &&& (scause == S_TIMER ==> after is Some)
            &&& (after is Some ==> dispatch_spec(after, S_TIMER, claimed) == seq![
                DispatchStep::CallHandler(
                    match timer {
                        Some(h) => h,
                        None => handler,
                    },
                ),
            ])
            &&& (r matches Registration::Timer { taken: true, .. } ==> dispatch_spec(
                after,
                S_TIMER,
                claimed,
            ) == seq![DispatchStep::CallHandler(handler)])
        }),
{
}

/// Registering an external interrupt's handler leaves the timer handler as
/// it was and hands the handler to the common table under IRQ number 9;
/// when the interrupt controller then hands out IRQ 9, dispatching the
/// external interrupt runs the handler that the table holds under 9, once,
/// and completes IRQ 9 after it.
pub proof fn law_external_registration_then_dispatch(
    timer: Option<IrqHandler>,
    handler: IrqHandler,
    later: Option<IrqHandler>,
)
    ensures
        register_spec(timer, S_EXT, handler) == (timer, Registration::Common(9)),
        dispatch_spec(later, S_EXT, 9) == seq![
            DispatchStep::Handle(9),
            DispatchStep::Complete(9),
        ],
{
    lemma_cause_codes();
}

/// An external interrupt runs the handler of exactly the claimed IRQ, once,
/// and completes that IRQ after handling it; a claim that finds nothing
/// pending (IRQ 0) runs and completes nothing.
pub proof fn law_external_dispatch_claimed(timer: Option<IrqHandler>, claimed: usize)
    ensures
        ({
            let steps = dispatch_spec(timer, S_EXT, claimed);
            &&& claimed != 0 ==> steps.len() == 2 && steps[0] == DispatchStep::Handle(claimed)
                && steps[1] == DispatchStep::Complete(claimed)
            &&& claimed == 0 ==> steps.len() == 0
        }),
{
    lemma_cause_codes();
}

/// `set_enable` turns exactly the `sie` bit of a cause on or off: the bit
/// of the source that the cause names is the cause's code.
pub proof fn law_set_enable_bit(scause: usize, enabled: bool)
    ensures
        cause_source(scause) matches Some(source) ==> sie_bit(source) == cause_code(scause),
        cause_source(scause) is None <==> (scause != S_SOFT && scause != S_TIMER && scause != S_EXT),
{
    lemma_cause_codes();
}

/// The IRQ number of the timer.
pub fn timer_irq_config() -> (irq: usize)
    ensures
        irq == TIMER_IRQ_NUM,
{
    TIMER_IRQ_NUM
}

/// The IRQ number of inter-processor interrupts.
pub fn ipi_irq_config() -> (irq: usize)
    ensures
        irq == IPI_IRQ_NUM,
{
    IPI_IRQ_NUM
}

} // verus!
