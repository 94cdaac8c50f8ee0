//! The life of the driver-block component as a state machine: entered in
//! `Booting` when the architecture layer calls the entry point, `Running`
//! once future bring-up stages succeed, `Panicking` on any fault, and
//! `Halted` once the architecture layer's panic mechanism takes over.

use vstd::prelude::*;

verus! {

/// The phase the component is in.
#[derive(Clone, Copy, PartialEq, Eq, Structural, Debug)]
pub enum BootState {
    /// The architecture layer has handed control to the entry point.
    Booting,
    /// Runtime bring-up succeeded (future stages; none exist yet).
    Running,
    /// An unrecoverable fault was raised and the relay is delegating it.
    Panicking,
    /// The architecture layer stopped or reset the machine. Terminal.
    Halted,
}

/// What can happen to the component after the architecture layer hands
/// control to the entry point.
#[derive(Clone, Copy, PartialEq, Eq, Structural, Debug)]
pub enum BootEvent {
    /// The future runtime bring-up stages completed.
    RuntimeReady,
    /// Some code of this component raised an unrecoverable fault.
    FaultRaised,
    /// The architecture layer's panic mechanism took over the machine.
    PanicDelegated,
}

/// The transition relation. A fault in any live phase funnels to
/// `Panicking`; `Booting` becomes `Running` only through a completed
/// bring-up; `Panicking` ends in `Halted` when the architecture layer
/// takes over; nothing leaves `Halted`, and no event leads from
/// `Panicking` or `Halted` back to a live phase.
pub open spec fn spec_step(s: BootState, e: BootEvent) -> BootState {
    match (s, e) {
        (BootState::Halted, _) => BootState::Halted,
        (_, BootEvent::FaultRaised) => BootState::Panicking,
        (BootState::Booting, BootEvent::RuntimeReady) => BootState::Running,
        (BootState::Panicking, BootEvent::PanicDelegated) => BootState::Halted,
        (_, _) => s,
    }
}

/// One transition of the component's life.
pub fn step(s: BootState, e: BootEvent) -> (t: BootState)
    ensures
        t == spec_step(s, e),
{
    match (s, e) {
        (BootState::Halted, _) => BootState::Halted,
        (_, BootEvent::FaultRaised) => BootState::Panicking,
        (BootState::Booting, BootEvent::RuntimeReady) => BootState::Running,
        (BootState::Panicking, BootEvent::PanicDelegated) => BootState::Halted,
        (_, _) => s,
    }
}

/// The phase reached from `s` after the events happen in order.
pub open spec fn spec_run(s: BootState, events: Seq<BootEvent>) -> BootState
    decreases events.len(),
{
    if events.len() == 0 {
        s
    } else {
        spec_run(spec_step(s, events[0]), events.drop_first())
    }
}

/// How many unrecoverable faults a sequence of events raises. Every
/// fault is routed to the panic relay, so this also counts how often the
/// relay is reached.
pub open spec fn fault_count(events: Seq<BootEvent>) -> nat
    decreases events.len(),
{
    if events.len() == 0 {
        0
    } else {
        (if events[0] == BootEvent::FaultRaised {
            1 as nat
        } else {
            0 as nat
        }) + fault_count(events.drop_first())
    }
}

/// A fault, whatever live phase the component is in, funnels to
/// `Panicking`: there is exactly one fault path.
pub proof fn lemma_fault_funnels_to_panicking(s: BootState)
    requires
        s != BootState::Halted,
    ensures
        spec_step(s, BootEvent::FaultRaised) == BootState::Panicking,
{
}

/// `Halted` is terminal: no sequence of events leaves it.
pub proof fn lemma_halted_is_terminal(events: Seq<BootEvent>)
    ensures
        spec_run(BootState::Halted, events) == BootState::Halted,
    decreases events.len(),
{
    if events.len() > 0 {
        lemma_halted_is_terminal(events.drop_first());
    }
}

/// There is no way back from `Panicking`: whatever happens after a
/// fault, the component never boots or runs again; it stays `Panicking`
/// or ends `Halted`.
pub proof fn lemma_no_return_from_panicking(events: Seq<BootEvent>)
    ensures
        spec_run(BootState::Panicking, events) == BootState::Panicking
            || spec_run(BootState::Panicking, events) == BootState::Halted,
    decreases events.len(),
{
    if events.len() > 0 {
        let next = spec_step(BootState::Panicking, events[0]);
        if next == BootState::Halted {
            lemma_halted_is_terminal(events.drop_first());
        } else {
            assert(next == BootState::Panicking);
            lemma_no_return_from_panicking(events.drop_first());
        }
    }
}

} // verus!
