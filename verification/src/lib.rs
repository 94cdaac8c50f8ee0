//! Bootstrap boundary of the driver-block component: the contract of the
//! boot entry point that the architecture layer hands control to, and of
//! the panic relay that hands fatal faults back to it.

mod boot;
mod fault;
mod state;

pub use boot::EntryDecision;
pub use boot::PanicDelegation;
pub use boot::boot_entry;
pub use boot::lemma_placeholder_boot_faults_once;
pub use boot::placeholder_boot_events;
pub use boot::relay;
pub use fault::Fault;
pub use fault::SourceLocation;
pub use fault::missing_runtime_fault;
pub use fault::missing_runtime_message;
pub use state::BootEvent;
pub use state::BootState;
pub use state::fault_count;
pub use state::lemma_fault_funnels_to_panicking;
pub use state::lemma_halted_is_terminal;
pub use state::lemma_no_return_from_panicking;
pub use state::spec_run;
pub use state::spec_step;
pub use state::step;
