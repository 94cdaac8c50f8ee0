use rt_driver_block::BootEvent;
use rt_driver_block::BootState;
use rt_driver_block::EntryDecision;
use rt_driver_block::Fault;
use rt_driver_block::SourceLocation;
use rt_driver_block::boot_entry;
use rt_driver_block::missing_runtime_fault;
use rt_driver_block::relay;
use rt_driver_block::step;

fn expect_fault(d: EntryDecision) -> Fault {
    match d {
        EntryDecision::RaiseFault(f) => f,
        EntryDecision::Proceed => panic!("the placeholder entry point must raise a fault"),
    }
}

#[test]
fn entry_on_primary_cpu_with_device_tree() {
    let f = expect_fault(boot_entry(0, 0x4000_0000));
    assert_eq!(f.message, "runtime bring-up is not implemented");
    assert!(f.location.is_none());
}

#[test]
fn entry_performs_no_address_validation() {
    let with_dtb = expect_fault(boot_entry(0, 0x4000_0000));
    let without_dtb = expect_fault(boot_entry(3, 0));
    assert_eq!(without_dtb.message, with_dtb.message);
    assert!(without_dtb.location.is_none());
}

#[test]
fn missing_runtime_fault_names_the_missing_implementation() {
    let f = missing_runtime_fault();
    assert_eq!(f.message, "runtime bring-up is not implemented");
    assert!(f.location.is_none());
}

#[test]
fn relay_forwards_the_description_unchanged() {
    let fault = Fault {
        message: String::from("page table walk failed"),
        location: Some(SourceLocation { file: String::from("mm.rs"), line: 41, column: 9 }),
    };
    let d = relay(fault);
    assert_eq!(d.fault.message, "page table walk failed");
    let loc = d.fault.location.expect("the location must survive delegation");
    assert_eq!(loc.file, "mm.rs");
    assert_eq!(loc.line, 41);
    assert_eq!(loc.column, 9);
}

#[test]
fn relay_keeps_a_missing_location_missing() {
    let d = relay(Fault { message: String::from("stack overflow"), location: None });
    assert_eq!(d.fault.message, "stack overflow");
    assert!(d.fault.location.is_none());
}

#[test]
fn a_fault_funnels_every_live_state_to_panicking() {
    assert_eq!(step(BootState::Booting, BootEvent::FaultRaised), BootState::Panicking);
    assert_eq!(step(BootState::Running, BootEvent::FaultRaised), BootState::Panicking);
    assert_eq!(step(BootState::Panicking, BootEvent::FaultRaised), BootState::Panicking);
}

#[test]
fn bring_up_moves_booting_to_running_and_nothing_else() {
    assert_eq!(step(BootState::Booting, BootEvent::RuntimeReady), BootState::Running);
    assert_eq!(step(BootState::Running, BootEvent::RuntimeReady), BootState::Running);
    assert_eq!(step(BootState::Panicking, BootEvent::RuntimeReady), BootState::Panicking);
}

#[test]
fn delegation_halts_only_a_panicking_component() {
    assert_eq!(step(BootState::Panicking, BootEvent::PanicDelegated), BootState::Halted);
    assert_eq!(step(BootState::Booting, BootEvent::PanicDelegated), BootState::Booting);
    assert_eq!(step(BootState::Running, BootEvent::PanicDelegated), BootState::Running);
}

#[test]
fn halted_is_terminal() {
    assert_eq!(step(BootState::Halted, BootEvent::FaultRaised), BootState::Halted);
    assert_eq!(step(BootState::Halted, BootEvent::RuntimeReady), BootState::Halted);
    assert_eq!(step(BootState::Halted, BootEvent::PanicDelegated), BootState::Halted);
}

#[test]
fn placeholder_boot_runs_from_booting_to_halted() {
    let mut s = BootState::Booting;
    s = step(s, BootEvent::FaultRaised);
    assert_eq!(s, BootState::Panicking);
    s = step(s, BootEvent::PanicDelegated);
    assert_eq!(s, BootState::Halted);
}
