//! The handoff contract itself: what the boot entry point decides when
//! the architecture layer calls it, and what the panic relay hands back
//! to the architecture layer's panic mechanism.

use vstd::prelude::*;

use crate::fault::Fault;
use crate::fault::missing_runtime_fault;
use crate::fault::missing_runtime_message;
use crate::state::BootEvent;
use crate::state::BootState;
use crate::state::fault_count;
use crate::state::lemma_no_return_from_panicking;
use crate::state::spec_run;

verus! {

/// What the boot entry point decides on an invocation. `Proceed` is the
/// documented placeholder for handing control to the runtime bring-up
/// stages once they exist; until then every invocation decides
/// `RaiseFault`.
pub enum EntryDecision {
    /// Hand control to runtime bring-up (future stages; none exist yet).
    Proceed,
    /// Raise the fault that the panic relay will delegate.
    RaiseFault(Fault),
}

/// The boot entry point's decision, taken once per boot on the primary
/// boot processor. It assumes nothing of its inputs beyond what the
/// architecture layer guarantees: any CPU identifier and any device-tree
/// address are accepted unexamined, and while runtime bring-up does not
/// exist the decision is, for every input pair, the same loud fault
/// naming the missing implementation — never a silent return.
pub fn boot_entry(_cpu_id: usize, _dtb_pa: usize) -> (d: EntryDecision)
    ensures
        d matches EntryDecision::RaiseFault(f) && f.message@ == missing_runtime_message()
            && f.location is None,
{
    EntryDecision::RaiseFault(missing_runtime_fault())
}

/// What the panic relay hands the architecture layer's panic mechanism.
pub struct PanicDelegation {
    /// The fault description, exactly as it reached the relay.
    pub fault: Fault,
}

/// The panic relay's whole duty: delegate the fault description to the
/// architecture layer unchanged. It performs no recovery and examines
/// nothing. Being verified, it can raise no fault of its own, so
/// handling a fault never re-enters the fault path; the divergence into
/// the architecture layer is performed by the unverified shell around
/// this library.
pub fn relay(fault: Fault) -> (d: PanicDelegation)
    ensures
        d.fault == fault,
{
    PanicDelegation { fault }
}

/// The events of one boot in the placeholder state: the single fault the
/// entry point raises, then the architecture layer's takeover.
pub open spec fn placeholder_boot_events() -> Seq<BootEvent> {
    seq![BootEvent::FaultRaised, BootEvent::PanicDelegated]
}

/// A boot in the placeholder state raises exactly one fault — so the
/// panic relay is reached exactly once — and never returns: the
/// component goes from `Booting` through `Panicking` to `Halted`, and no
/// continuation of a panicking run ever reaches `Running`.
pub proof fn lemma_placeholder_boot_faults_once()
    ensures
        fault_count(placeholder_boot_events()) == 1,
        spec_run(BootState::Booting, placeholder_boot_events()) == BootState::Halted,
        forall|events: Seq<BootEvent>|
            spec_run(BootState::Panicking, events) != BootState::Running,
{
    let evs = placeholder_boot_events();
    let tail = evs.drop_first();
    let rest = tail.drop_first();
    assert(evs[0] == BootEvent::FaultRaised);
    assert(tail =~= seq![BootEvent::PanicDelegated]);
    assert(tail[0] == BootEvent::PanicDelegated);
    assert(rest.len() == 0);
    assert(fault_count(rest) == 0);
    assert(fault_count(tail) == 0);
    assert(fault_count(evs) == 1);
    assert(spec_run(BootState::Halted, rest) == BootState::Halted);
    assert(spec_run(BootState::Panicking, tail) == BootState::Halted);
    assert(spec_run(BootState::Booting, evs) == BootState::Halted);
    assert forall|events: Seq<BootEvent>|
        spec_run(BootState::Panicking, events) != BootState::Running by {
        lemma_no_return_from_panicking(events);
    }
}

} // verus!
