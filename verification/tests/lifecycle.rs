use extension_host::{
    allocator_export, check_exports, closing_event, entry_point_export, memory_export,
    run_outcome, Capability, ErrorKind, Event, HostError, Phase, IMPORT_COUNT,
};

const PHASES: [Phase; 5] =
    [Phase::Loaded, Phase::Instantiated, Phase::Running, Phase::Completed, Phase::Failed];

const EVENTS: [Event; 4] = [Event::Resolved, Event::Started, Event::Returned, Event::Faulted];

#[test]
fn an_instance_goes_from_loaded_to_completed() {
    let phase = Phase::Loaded;
    let phase = phase.next(Event::Resolved).unwrap();
    assert_eq!(phase, Phase::Instantiated);
    let phase = phase.next(Event::Started).unwrap();
    assert_eq!(phase, Phase::Running);
    let phase = phase.next(Event::Returned).unwrap();
    assert_eq!(phase, Phase::Completed);
    assert!(phase.is_final());
}

#[test]
fn a_fault_ends_in_failed() {
    assert_eq!(Phase::Loaded.next(Event::Faulted), Some(Phase::Failed));
    assert_eq!(Phase::Running.next(Event::Faulted), Some(Phase::Failed));
    assert!(Phase::Failed.is_final());
}

#[test]
fn no_other_move_exists() {
    let moves = [
        (Phase::Loaded, Event::Resolved),
        (Phase::Loaded, Event::Faulted),
        (Phase::Instantiated, Event::Started),
        (Phase::Running, Event::Returned),
        (Phase::Running, Event::Faulted),
    ];
    for phase in PHASES {
        for event in EVENTS {
            assert_eq!(phase.next(event).is_some(), moves.contains(&(phase, event)));
        }
    }
}

#[test]
fn final_phases_stay() {
    for phase in PHASES {
        assert_eq!(phase.is_final(), phase == Phase::Completed || phase == Phase::Failed);
        if phase.is_final() {
            for event in EVENTS {
                assert_eq!(phase.next(event), None);
            }
        }
    }
}

#[test]
fn run_outcomes() {
    assert_eq!(run_outcome(true, None), Ok(()));
    assert_eq!(run_outcome(false, None), Err(HostError::GuestTrap));
    assert_eq!(run_outcome(false, Some(HostError::OutOfBounds)), Err(HostError::OutOfBounds));
    assert_eq!(
        run_outcome(true, Some(HostError::MissingTerminator)),
        Err(HostError::MissingTerminator)
    );
}

#[test]
fn a_run_ends_with_the_event_that_fits_its_outcome() {
    assert_eq!(closing_event(&Ok(())), Event::Returned);
    assert_eq!(closing_event(&Err(HostError::GuestTrap)), Event::Faulted);
    assert_eq!(closing_event(&Err(HostError::OutOfBounds)), Event::Faulted);
    assert_eq!(Phase::Running.next(closing_event(&Ok(()))), Some(Phase::Completed));
    assert_eq!(
        Phase::Running.next(closing_event(&Err(HostError::InvalidText))),
        Some(Phase::Failed)
    );
}

#[test]
fn names_of_the_exports() {
    assert_eq!(entry_point_export(), "main");
    assert_eq!(memory_export(), "memory");
    assert_eq!(allocator_export(), "alloc");
}

#[test]
fn capabilities_have_their_slots() {
    assert_eq!(IMPORT_COUNT, 4);
    let order = [
        Capability::Identify,
        Capability::EmitText,
        Capability::ProduceTransform,
        Capability::EmitTransform,
    ];
    for (slot, capability) in order.into_iter().enumerate() {
        assert_eq!(Capability::at(slot), Some(capability));
        assert_eq!(capability.slot(), slot);
    }
    assert_eq!(Capability::at(4), None);
    assert_eq!(Capability::at(usize::MAX), None);
}

#[test]
fn required_exports() {
    assert_eq!(check_exports(true, true), Ok(()));
    assert_eq!(check_exports(false, true), Err(HostError::MissingEntryPoint));
    assert_eq!(check_exports(true, false), Err(HostError::MissingMemory));
    assert_eq!(check_exports(false, false), Err(HostError::MissingEntryPoint));
}

#[test]
fn every_failure_has_a_family_and_a_cause() {
    let families = [
        (HostError::InstantiationFailed, ErrorKind::Resolution),
        (HostError::MissingEntryPoint, ErrorKind::Resolution),
        (HostError::MissingMemory, ErrorKind::Resolution),
        (HostError::MissingAllocator, ErrorKind::Resolution),
        (HostError::OutOfBounds, ErrorKind::Bounds),
        (HostError::MissingTerminator, ErrorKind::Encoding),
        (HostError::InvalidText, ErrorKind::Encoding),
        (HostError::AllocationFailed, ErrorKind::Allocation),
        (HostError::GuestTrap, ErrorKind::Trap),
    ];
    let mut causes = Vec::new();
    for (error, family) in families {
        assert_eq!(error.kind(), family);
        let cause = error.message();
        assert!(!cause.is_empty());
        assert!(!causes.contains(&cause));
        causes.push(cause);
    }
    assert_eq!(HostError::OutOfBounds.message(), "out of bounds memory access");
    assert_eq!(HostError::MissingMemory.message(), "unable to get wasm memory");
}
