use axhal::riscv_irq::{
    dispatch_irq, ipi_irq_config, register_handler, set_enable, timer_irq_config, DispatchStep,
    IrqState, Registration, SieUpdate, SupervisorInterrupt, INTC_IRQ_BASE, IPI_IRQ_NUM,
    MAX_IRQ_COUNT, S_EXT, S_SOFT, S_TIMER, TIMER_IRQ_NUM,
};

fn timer_taken() -> Registration {
    Registration::Timer {
        taken: true,
        enable: Some(SieUpdate { source: SupervisorInterrupt::Timer, enable: true }),
    }
}

#[test]
fn cause_constants() {
    assert_eq!(INTC_IRQ_BASE, 1usize << (usize::BITS - 1));
    assert_eq!(S_SOFT, INTC_IRQ_BASE + 1);
    assert_eq!(S_TIMER, INTC_IRQ_BASE + 5);
    assert_eq!(S_EXT, INTC_IRQ_BASE + 9);
    assert_eq!(MAX_IRQ_COUNT, 1024);
    assert_eq!(TIMER_IRQ_NUM, S_TIMER);
    assert_eq!(IPI_IRQ_NUM, S_SOFT);
    assert_eq!(timer_irq_config(), S_TIMER);
    assert_eq!(ipi_irq_config(), S_SOFT);
}

#[test]
fn new_state_has_no_timer_handler() {
    let state = IrqState::new();
    assert!(!state.has_timer_handler());
}

#[test]
fn timer_handler_is_taken_once() {
    let mut state = IrqState::new();
    assert_eq!(register_handler(&mut state, S_TIMER, 0x1000), timer_taken());
    assert!(state.has_timer_handler());
    assert_eq!(
        register_handler(&mut state, S_TIMER, 0x2000),
        Registration::Timer { taken: false, enable: None }
    );
    assert_eq!(dispatch_irq(&state, S_TIMER, 0), vec![DispatchStep::CallHandler(0x1000)]);
}

#[test]
fn dispatch_reads_back_registered_timer_handler() {
    let mut state = IrqState::new();
    register_handler(&mut state, S_TIMER, 0xdead_0000);
    assert_eq!(dispatch_irq(&state, S_TIMER, 3), vec![DispatchStep::CallHandler(0xdead_0000)]);
}

#[test]
fn external_registration_goes_to_common_table() {
    let mut state = IrqState::new();
    assert_eq!(register_handler(&mut state, S_EXT, 0x3000), Registration::Common(9));
    assert!(!state.has_timer_handler());
    assert_eq!(
        dispatch_irq(&state, S_EXT, 9),
        vec![DispatchStep::Handle(9), DispatchStep::Complete(9)]
    );
    assert_eq!(register_handler(&mut state, S_TIMER, 0x4000), timer_taken());
    assert_eq!(register_handler(&mut state, S_EXT, 0x5000), Registration::Common(9));
    assert_eq!(dispatch_irq(&state, S_TIMER, 9), vec![DispatchStep::CallHandler(0x4000)]);
}

#[test]
fn external_dispatch_follows_the_claim() {
    let state = IrqState::new();
    assert_eq!(
        dispatch_irq(&state, S_EXT, 33),
        vec![DispatchStep::Handle(33), DispatchStep::Complete(33)]
    );
    assert_eq!(dispatch_irq(&state, S_EXT, 0), vec![]);
}

#[test]
fn set_enable_names_the_sie_bit() {
    assert_eq!(
        set_enable(S_EXT, true),
        Some(SieUpdate { source: SupervisorInterrupt::External, enable: true })
    );
    assert_eq!(
        set_enable(S_TIMER, false),
        Some(SieUpdate { source: SupervisorInterrupt::Timer, enable: false })
    );
    assert_eq!(
        set_enable(S_SOFT, true),
        Some(SieUpdate { source: SupervisorInterrupt::Software, enable: true })
    );
    assert_eq!(set_enable(INTC_IRQ_BASE + 3, true), None);
    assert_eq!(set_enable(9, true), None);
}
