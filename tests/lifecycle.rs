use narictl::session::{
    Action, Event, OpenError, Phase, Session, UsbFailure, Warning, PRODUCT_ID, VENDOR_ID,
};

fn run(session: &mut Session, events: &[Event]) -> Vec<Action> {
    events.iter().map(|e| session.step(*e)).collect()
}

fn bound() -> Session {
    let mut s = Session::new();
    let acts = run(
        &mut s,
        &[
            Event::ContextCreated,
            Event::Candidate(Some((VENDOR_ID, PRODUCT_ID))),
            Event::OpenResult(true),
            Event::KernelDriver(false),
            Event::ClaimResult(true),
        ],
    );
    assert_eq!(acts.last(), Some(&Action::Ready));
    s
}

#[test]
fn identity_constants() {
    assert_eq!(VENDOR_ID, 0x1532);
    assert_eq!(PRODUCT_ID, 0x051a);
}

#[test]
fn context_failure_is_subsystem_error() {
    let mut s = Session::new();
    assert_eq!(s.step(Event::ContextFailed), Action::Fail(OpenError::Subsystem));
    assert_eq!(s.phase(), Phase::Failed);
}

#[test]
fn no_matching_device_is_not_found() {
    let mut s = Session::new();
    let acts = run(
        &mut s,
        &[
            Event::ContextCreated,
            Event::Candidate(Some((0x1234, 0x0001))),
            Event::Candidate(Some((VENDOR_ID, 0x0001))),
            Event::Candidate(None),
            Event::EndOfList,
        ],
    );
    assert_eq!(
        acts,
        vec![
            Action::ListDevices,
            Action::NextCandidate,
            Action::NextCandidate,
            Action::NextCandidate,
            Action::Fail(OpenError::DeviceNotFound { vendor: 0x1532, product: 0x051a }),
        ]
    );
    assert!(!acts.contains(&Action::DetachKernelDriver));
    assert!(!acts.contains(&Action::ClaimInterface));
}

#[test]
fn list_failure_is_not_found() {
    let mut s = Session::new();
    let acts = run(&mut s, &[Event::ContextCreated, Event::ListFailed]);
    assert_eq!(
        acts[1],
        Action::Fail(OpenError::DeviceNotFound { vendor: VENDOR_ID, product: PRODUCT_ID })
    );
}

#[test]
fn open_failure_keeps_scanning() {
    let mut s = Session::new();
    let acts = run(
        &mut s,
        &[
            Event::ContextCreated,
            Event::Candidate(Some((VENDOR_ID, PRODUCT_ID))),
            Event::OpenResult(false),
            Event::Candidate(Some((VENDOR_ID, PRODUCT_ID))),
            Event::OpenResult(true),
        ],
    );
    assert_eq!(
        acts,
        vec![
            Action::ListDevices,
            Action::OpenCandidate,
            Action::NextCandidate,
            Action::OpenCandidate,
            Action::CheckKernelDriver,
        ]
    );
}

#[test]
fn active_driver_is_detached_before_claim() {
    let mut s = Session::new();
    let acts = run(
        &mut s,
        &[
            Event::ContextCreated,
            Event::Candidate(Some((VENDOR_ID, PRODUCT_ID))),
            Event::OpenResult(true),
            Event::KernelDriver(true),
            Event::DetachResult(Ok(())),
            Event::ClaimResult(true),
        ],
    );
    assert_eq!(
        &acts[3..],
        &[Action::DetachKernelDriver, Action::ClaimInterface, Action::Ready]
    );
    assert_eq!(s.phase(), Phase::Bound);
}

#[test]
fn detach_without_driver_is_tolerated() {
    for failure in [UsbFailure::NotFound, UsbFailure::NotSupported] {
        let mut s = Session::new();
        let acts = run(
            &mut s,
            &[
                Event::ContextCreated,
                Event::Candidate(Some((VENDOR_ID, PRODUCT_ID))),
                Event::OpenResult(true),
                Event::KernelDriver(true),
                Event::DetachResult(Err(failure)),
            ],
        );
        assert_eq!(acts[4], Action::ClaimInterface);
    }
}

#[test]
fn detach_failure_is_fatal() {
    let mut s = Session::new();
    let acts = run(
        &mut s,
        &[
            Event::ContextCreated,
            Event::Candidate(Some((VENDOR_ID, PRODUCT_ID))),
            Event::OpenResult(true),
            Event::KernelDriver(true),
            Event::DetachResult(Err(UsbFailure::Other)),
        ],
    );
    assert_eq!(acts[4], Action::Fail(OpenError::DetachFailed));
    assert_eq!(s.phase(), Phase::Failed);
}

#[test]
fn claim_failure_after_detach_rolls_back() {
    for outcome in [Ok(()), Err(UsbFailure::NotFound), Err(UsbFailure::Other)] {
        let mut s = Session::new();
        let acts = run(
            &mut s,
            &[
                Event::ContextCreated,
                Event::Candidate(Some((VENDOR_ID, PRODUCT_ID))),
                Event::OpenResult(true),
                Event::KernelDriver(true),
                Event::DetachResult(Ok(())),
                Event::ClaimResult(false),
                Event::AttachResult(outcome),
            ],
        );
        assert_eq!(
            &acts[4..],
            &[
                Action::ClaimInterface,
                Action::AttachKernelDriver,
                Action::Fail(OpenError::ClaimFailed),
            ]
        );
        assert_eq!(s.phase(), Phase::Failed);
    }
}

#[test]
fn claim_failure_after_tolerated_detach_does_not_reattach() {
    let mut s = Session::new();
    let acts = run(
        &mut s,
        &[
            Event::ContextCreated,
            Event::Candidate(Some((VENDOR_ID, PRODUCT_ID))),
            Event::OpenResult(true),
            Event::KernelDriver(true),
            Event::DetachResult(Err(UsbFailure::NotSupported)),
            Event::ClaimResult(false),
        ],
    );
    assert_eq!(acts[5], Action::Fail(OpenError::ClaimFailed));
    assert!(!acts.contains(&Action::AttachKernelDriver));
}

#[test]
fn detached_session_binds_and_tears_down() {
    let mut s = Session::new();
    let acts = run(
        &mut s,
        &[
            Event::ContextCreated,
            Event::Candidate(Some((VENDOR_ID, PRODUCT_ID))),
            Event::OpenResult(true),
            Event::KernelDriver(true),
            Event::DetachResult(Ok(())),
            Event::ClaimResult(true),
            Event::Close,
            Event::ReleaseResult(true),
            Event::AttachResult(Ok(())),
        ],
    );
    assert_eq!(
        &acts[5..],
        &[
            Action::Ready,
            Action::ReleaseInterface,
            Action::AttachKernelDriver,
            Action::Finish,
        ]
    );
}

#[test]
fn teardown_releases_only_once() {
    let mut s = bound();
    let acts = run(
        &mut s,
        &[
            Event::Close,
            Event::Close,
            Event::ReleaseResult(true),
            Event::ReleaseResult(true),
            Event::AttachResult(Err(UsbFailure::Other)),
            Event::AttachResult(Ok(())),
        ],
    );
    assert_eq!(
        acts,
        vec![
            Action::ReleaseInterface,
            Action::Ignore,
            Action::AttachKernelDriver,
            Action::Ignore,
            Action::Warn(Warning::AttachFailed),
            Action::Ignore,
        ]
    );
}

#[test]
fn claim_failure_is_fatal() {
    let mut s = Session::new();
    let acts = run(
        &mut s,
        &[
            Event::ContextCreated,
            Event::Candidate(Some((VENDOR_ID, PRODUCT_ID))),
            Event::OpenResult(true),
            Event::KernelDriver(false),
            Event::ClaimResult(false),
        ],
    );
    assert_eq!(acts[4], Action::Fail(OpenError::ClaimFailed));
}

#[test]
fn teardown_releases_then_reattaches() {
    let mut s = bound();
    assert_eq!(s.step(Event::Close), Action::ReleaseInterface);
    assert_eq!(s.step(Event::ReleaseResult(true)), Action::AttachKernelDriver);
    assert_eq!(s.step(Event::AttachResult(Ok(()))), Action::Finish);
    assert_eq!(s.phase(), Phase::Closed);
}

#[test]
fn teardown_missing_driver_is_quiet() {
    let mut s = bound();
    s.step(Event::Close);
    s.step(Event::ReleaseResult(true));
    assert_eq!(s.step(Event::AttachResult(Err(UsbFailure::NotFound))), Action::Finish);
}

#[test]
fn teardown_attach_failure_only_warns() {
    let mut s = bound();
    s.step(Event::Close);
    s.step(Event::ReleaseResult(true));
    assert_eq!(
        s.step(Event::AttachResult(Err(UsbFailure::Other))),
        Action::Warn(Warning::AttachFailed)
    );
    assert_eq!(s.phase(), Phase::Closed);
}

#[test]
fn teardown_release_failure_skips_attach() {
    let mut s = bound();
    s.step(Event::Close);
    assert_eq!(s.step(Event::ReleaseResult(false)), Action::Warn(Warning::ReleaseFailed));
    assert_eq!(s.step(Event::AttachResult(Ok(()))), Action::Ignore);
    assert_eq!(s.phase(), Phase::Closed);
}

#[test]
fn events_out_of_turn_are_ignored() {
    let mut s = Session::new();
    assert_eq!(s.step(Event::Close), Action::Ignore);
    assert_eq!(s.step(Event::ClaimResult(true)), Action::Ignore);
    assert_eq!(s.phase(), Phase::Start);
}
