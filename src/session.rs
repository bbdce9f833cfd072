//! The device session's lifecycle as a state machine: discovery, binding
//! (kernel-driver detachment and interface claim) and teardown. The caller
//! performs each action on the USB stack and hands the outcome back as an
//! event.

use vstd::prelude::*;

verus! {

/// Vendor id of the supported headset.
pub const VENDOR_ID: u16 = 0x1532;

/// Product id of the supported headset.
pub const PRODUCT_ID: u16 = 0x051a;

/// Number of the interface that carries the control endpoint.
pub const INTERFACE: u8 = 5;

/// The reasons of a failed USB operation that the lifecycle tells apart.
#[derive(Debug, Clone, Copy, PartialEq, Eq, Structural)]
pub enum UsbFailure {
    /// The entity (here: a kernel driver) was not found.
    NotFound,
    /// The operation is not supported on this platform.
    NotSupported,
    /// Any other failure.
    Other,
}

/// Why a session could not be opened.
#[derive(Debug, Clone, Copy, PartialEq, Eq, Structural)]
pub enum OpenError {
    /// The USB subsystem could not be initialised.
    Subsystem,
    /// No attached device carries the expected identity.
    DeviceNotFound { vendor: u16, product: u16 },
    /// The kernel driver could not be detached from the interface.
    DetachFailed,
    /// The interface could not be claimed.
    ClaimFailed,
}

/// A non-fatal problem met during teardown.
#[derive(Debug, Clone, Copy, PartialEq, Eq, Structural)]
pub enum Warning {
    /// The interface could not be released; the driver was left detached.
    ReleaseFailed,
    /// The kernel driver could not be attached again.
    AttachFailed,
}

/// Where a session stands.
#[derive(Debug, Clone, Copy, PartialEq, Eq, Structural)]
pub enum Phase {
    /// Waiting for the USB context.
    Start,
    /// Walking the attached devices.
    Scanning,
    /// A device with the expected identity is being opened.
    Opening,
    /// A handle is open; whether a kernel driver is bound is asked.
    Opened,
    /// The kernel driver is being detached.
    Detaching,
    /// The interface is being claimed; no kernel driver was detached.
    Claiming,
    /// The interface is being claimed after the kernel driver was detached.
    ClaimingDetached,
    /// The claim failed: the detached kernel driver is being attached again
    /// before opening fails.
    RollingBack,
    /// The session is live.
    Bound,
    /// The interface is being released.
    Releasing,
    /// The kernel driver is being attached again.
    Reattaching,
    /// Teardown is over.
    Closed,
    /// Opening failed.
    Failed,
}

/// The outcome of the latest action.
#[derive(Debug, Clone, Copy)]
pub enum Event {
    /// The USB context was created.
    ContextCreated,
    /// The USB context could not be created.
    ContextFailed,
    /// The device list could not be read.
    ListFailed,
    /// The next attached device, with its (vendor, product) ids, or `None`
    /// where its descriptor could not be read.
    Candidate(Option<(u16, u16)>),
    /// Whether opening the candidate succeeded.
    OpenResult(bool),
    /// No device is left in the list.
    EndOfList,
    /// Whether a kernel driver is bound to the interface.
    KernelDriver(bool),
    /// The outcome of detaching the kernel driver.
    DetachResult(Result<(), UsbFailure>),
    /// Whether claiming the interface succeeded.
    ClaimResult(bool),
    /// The owner gives the session up.
    Close,
    /// Whether releasing the interface succeeded.
    ReleaseResult(bool),
    /// The outcome of attaching the kernel driver again.
    AttachResult(Result<(), UsbFailure>),
}

/// What the caller does next.
#[derive(Debug, Clone, Copy, PartialEq, Eq, Structural)]
pub enum Action {
    /// Read the list of attached devices, then hand in its first entry.
    ListDevices,
    /// Hand in the next entry of the device list.
    NextCandidate,
    /// Open the current candidate.
    OpenCandidate,
    /// Ask whether a kernel driver is bound to the interface.
    CheckKernelDriver,
    /// Detach the kernel driver from the interface.
    DetachKernelDriver,
    /// Claim the interface.
    ClaimInterface,
    /// The session is open: keep the handle.
    Ready,
    /// Opening failed: report the error.
    Fail(OpenError),
    /// Release the interface.
    ReleaseInterface,
    /// Attach the kernel driver to the interface again.
    AttachKernelDriver,
    /// Teardown is over; log the warning.
    Warn(Warning),
    /// Teardown is over.
    Finish,
    /// The event does not apply in this phase: nothing to do.
    Ignore,
}

pub open spec fn not_found_error() -> OpenError {
    OpenError::DeviceNotFound { vendor: VENDOR_ID, product: PRODUCT_ID }
}

/// A detachment failure that only says no driver was there to detach.
pub open spec fn detach_tolerated(res: Result<(), UsbFailure>) -> bool {
    match res {
        Ok(_) => true,
        Err(f) => f != UsbFailure::Other,
    }
}

/// A reattachment failure that only says no driver was there to restore.
pub open spec fn attach_quiet(res: Result<(), UsbFailure>) -> bool {
    match res {
        Ok(_) => true,
        Err(f) => f == UsbFailure::NotFound,
    }
}

/// Whether a device-list entry is the supported headset.
pub open spec fn is_target(ids: Option<(u16, u16)>) -> bool {
    ids == Some((VENDOR_ID, PRODUCT_ID))
}

/// The lifecycle's transition table: the next phase and the action for an
/// event in a phase. An event that does not apply leaves the phase as it is.
pub open spec fn session_step(p: Phase, e: Event) -> (Phase, Action) {
    match (p, e) {
        (Phase::Start, Event::ContextCreated) => (Phase::Scanning, Action::ListDevices),
        (Phase::Start, Event::ContextFailed) => (Phase::Failed, Action::Fail(OpenError::Subsystem)),
        (Phase::Scanning, Event::ListFailed) => (Phase::Failed, Action::Fail(not_found_error())),
        (Phase::Scanning, Event::Candidate(ids)) => if is_target(ids) {
            (Phase::Opening, Action::OpenCandidate)
        } else {
            (Phase::Scanning, Action::NextCandidate)
        },
        (Phase::Scanning, Event::EndOfList) => (Phase::Failed, Action::Fail(not_found_error())),
        (Phase::Opening, Event::OpenResult(ok)) => if ok {
            (Phase::Opened, Action::CheckKernelDriver)
        } else {
            (Phase::Scanning, Action::NextCandidate)
        },
        (Phase::Opened, Event::KernelDriver(active)) => if active {
            (Phase::Detaching, Action::DetachKernelDriver)
        } else {
            (Phase::Claiming, Action::ClaimInterface)
        },
        (Phase::Detaching, Event::DetachResult(res)) => if res is Ok {
            (Phase::ClaimingDetached, Action::ClaimInterface)
        } else if detach_tolerated(res) {
            (Phase::Claiming, Action::ClaimInterface)
        } else {
            (Phase::Failed, Action::Fail(OpenError::DetachFailed))
        },
        (Phase::Claiming, Event::ClaimResult(ok)) => if ok {
            (Phase::Bound, Action::Ready)
        } else {
            (Phase::Failed, Action::Fail(OpenError::ClaimFailed))
        },
        (Phase::ClaimingDetached, Event::ClaimResult(ok)) => if ok {
            (Phase::Bound, Action::Ready)
        } else {
            (Phase::RollingBack, Action::AttachKernelDriver)
        },
        (Phase::RollingBack, Event::AttachResult(_)) => (
            Phase::Failed,
            Action::Fail(OpenError::ClaimFailed),
        ),
        (Phase::Bound, Event::Close) => (Phase::Releasing, Action::ReleaseInterface),
        (Phase::Releasing, Event::ReleaseResult(ok)) => if ok {
            (Phase::Reattaching, Action::AttachKernelDriver)
        } else {
            (Phase::Closed, Action::Warn(Warning::ReleaseFailed))
        },
        (Phase::Reattaching, Event::AttachResult(res)) => if attach_quiet(res) {
            (Phase::Closed, Action::Finish)
        } else {
            (Phase::Closed, Action::Warn(Warning::AttachFailed))
        },
        _ => (p, Action::Ignore),
    }
}

/// The actions taken on a sequence of events from phase `p`.
pub open spec fn session_run(p: Phase, events: Seq<Event>) -> Seq<Action>
    decreases events.len(),
{
    if events.len() == 0 {
        seq![]
    } else {
        let (next, a) = session_step(p, events[0]);
        seq![a] + session_run(next, events.drop_first())
    }
}

fn detach_is_tolerated(res: Result<(), UsbFailure>) -> (r: bool)
    ensures
        r == detach_tolerated(res),
{
    match res {
        Ok(()) => true,
        Err(UsbFailure::NotFound) => true,
        Err(UsbFailure::NotSupported) => true,
        Err(UsbFailure::Other) => false,
    }
}

fn attach_is_quiet(res: Result<(), UsbFailure>) -> (r: bool)
    ensures
        r == attach_quiet(res),
{
    match res {
        Ok(()) => true,
        Err(UsbFailure::NotFound) => true,
        Err(UsbFailure::NotSupported) => false,
        Err(UsbFailure::Other) => false,
    }
}

fn is_target_device(ids: Option<(u16, u16)>) -> (r: bool)
    ensures
        r == is_target(ids),
{
    match ids {
        Some((vendor, product)) => vendor == VENDOR_ID && product == PRODUCT_ID,
        None => false,
    }
}

/// One device session, from discovery to teardown.
pub struct Session {
    phase: Phase,
}

impl Session {
    pub closed spec fn spec_phase(&self) -> Phase {
        self.phase
    }

    /// A session that waits for the USB context.
    pub fn new() -> (s: Self)
        ensures
            s.spec_phase() == Phase::Start,
    {
        Session { phase: Phase::Start }
    }

    pub fn phase(&self) -> (p: Phase)
        ensures
            p == self.spec_phase(),
    {
        self.phase
    }

    /// Takes the outcome of the latest action and decides the next one.
    pub fn step(&mut self, event: Event) -> (a: Action)
        ensures
            (final(self).spec_phase(), a) == session_step(old(self).spec_phase(), event),
    {
        let (next, action) = match (self.phase, event) {
            (Phase::Start, Event::ContextCreated) => (Phase::Scanning, Action::ListDevices),
            (Phase::Start, Event::ContextFailed) => (
                Phase::Failed,
                Action::Fail(OpenError::Subsystem),
            ),
            (Phase::Scanning, Event::ListFailed) | (Phase::Scanning, Event::EndOfList) => (
                Phase::Failed,
                Action::Fail(OpenError::DeviceNotFound { vendor: VENDOR_ID, product: PRODUCT_ID }),
            ),
            (Phase::Scanning, Event::Candidate(ids)) => if is_target_device(ids) {
                (Phase::Opening, Action::OpenCandidate)
            } else {
                (Phase::Scanning, Action::NextCandidate)
            },
            (Phase::Opening, Event::OpenResult(ok)) => if ok {
                (Phase::Opened, Action::CheckKernelDriver)
            } else {
                (Phase::Scanning, Action::NextCandidate)
            },
            (Phase::Opened, Event::KernelDriver(active)) => if active {
                (Phase::Detaching, Action::DetachKernelDriver)
            } else {
                (Phase::Claiming, Action::ClaimInterface)
            },
            (Phase::Detaching, Event::DetachResult(res)) => match res {
                Ok(()) => (Phase::ClaimingDetached, Action::ClaimInterface),
                Err(_) => if detach_is_tolerated(res) {
                    (Phase::Claiming, Action::ClaimInterface)
                } else {
                    (Phase::Failed, Action::Fail(OpenError::DetachFailed))
                },
            },
            (Phase::Claiming, Event::ClaimResult(ok)) => if ok {
                (Phase::Bound, Action::Ready)
            } else {
                (Phase::Failed, Action::Fail(OpenError::ClaimFailed))
            },
            (Phase::ClaimingDetached, Event::ClaimResult(ok)) => if ok {
                (Phase::Bound, Action::Ready)
            } else {
                (Phase::RollingBack, Action::AttachKernelDriver)
            },
            (Phase::RollingBack, Event::AttachResult(_)) => (
                Phase::Failed,
                Action::Fail(OpenError::ClaimFailed),
            ),
            (Phase::Bound, Event::Close) => (Phase::Releasing, Action::ReleaseInterface),
            (Phase::Releasing, Event::ReleaseResult(ok)) => if ok {
                (Phase::Reattaching, Action::AttachKernelDriver)
            } else {
                (Phase::Closed, Action::Warn(Warning::ReleaseFailed))
            },
            (Phase::Reattaching, Event::AttachResult(res)) => if attach_is_quiet(res) {
                (Phase::Closed, Action::Finish)
            } else {
                (Phase::Closed, Action::Warn(Warning::AttachFailed))
            },
            (p, _) => (p, Action::Ignore),
        };
        self.phase = next;
        action
    }
}

/// An event that reports the supported headset in the device list.
pub open spec fn names_target(e: Event) -> bool {
    e matches Event::Candidate(ids) && is_target(ids)
}

/// An action taken while no matching device has been found: it neither
/// touches the kernel driver nor the interface, and any failure it reports is
/// the subsystem's or the missing device's.
pub open spec fn unbound_action(a: Action) -> bool {
    &&& a != Action::OpenCandidate
    &&& a != Action::CheckKernelDriver
    &&& a != Action::DetachKernelDriver
    &&& a != Action::ClaimInterface
    &&& a != Action::Ready
    &&& (a matches Action::Fail(err) ==> err == OpenError::Subsystem || err == not_found_error())
}

proof fn lemma_unbound_run(p: Phase, events: Seq<Event>)
    requires
        p == Phase::Start || p == Phase::Scanning || p == Phase::Failed,
        forall|i: int| 0 <= i < events.len() ==> !names_target(#[trigger] events[i]),
    ensures
        forall|i: int|
            0 <= i < session_run(p, events).len() ==> unbound_action(
                #[trigger] session_run(p, events)[i],
            ),
    decreases events.len(),
{
    if events.len() > 0 {
        let (next, a) = session_step(p, events[0]);
        let rest = events.drop_first();
        assert(!names_target(events[0]));
        assert forall|i: int| 0 <= i < rest.len() implies !names_target(#[trigger] rest[i]) by {
            assert(rest[i] == events[i + 1]);
        }
        lemma_unbound_run(next, rest);
        let run = session_run(p, events);
        assert(run == seq![a] + session_run(next, rest));
        assert forall|i: int| 0 <= i < run.len() implies unbound_action(#[trigger] run[i]) by {
            if i > 0 {
                assert(run[i] == session_run(next, rest)[i - 1]);
            }
        }
    }
}

/// Opening a session on a system where no attached device carries the
/// supported identity never detaches a kernel driver, never claims the
/// interface and never yields a session; the only failures it reports are the
/// subsystem's and the missing device's, the latter naming the expected
/// vendor and product ids.
pub proof fn lemma_no_device_no_binding(events: Seq<Event>)
    requires
        forall|i: int| 0 <= i < events.len() ==> !names_target(#[trigger] events[i]),
    ensures
        forall|i: int|
            0 <= i < session_run(Phase::Start, events).len() ==> unbound_action(
                #[trigger] session_run(Phase::Start, events)[i],
            ),
        session_step(Phase::Scanning, Event::EndOfList) == (
            Phase::Failed,
            Action::Fail(OpenError::DeviceNotFound { vendor: VENDOR_ID, product: PRODUCT_ID }),
        ),
{
    lemma_unbound_run(Phase::Start, events);
}

/// The phases of a live or closing session.
pub open spec fn teardown_phase(p: Phase) -> bool {
    p == Phase::Bound || p == Phase::Releasing || p == Phase::Reattaching || p == Phase::Closed
}

proof fn lemma_teardown_run(p: Phase, events: Seq<Event>)
    requires
        teardown_phase(p),
    ensures
        ({
            let run = session_run(p, events);
            &&& run.len() == events.len()
            &&& forall|j: int| 0 <= j < run.len() ==> !(#[trigger] run[j] is Fail)
            &&& forall|j: int|
                0 <= j < run.len() && #[trigger] run[j] == Action::AttachKernelDriver
                    ==> events[j] == Event::ReleaseResult(true)
            &&& p != Phase::Bound ==> forall|j: int|
                0 <= j < run.len() ==> #[trigger] run[j] != Action::ReleaseInterface
            &&& (p == Phase::Reattaching || p == Phase::Closed) ==> forall|j: int|
                0 <= j < run.len() ==> #[trigger] run[j] != Action::AttachKernelDriver
            &&& forall|i: int, j: int|
                0 <= i < j < run.len() && #[trigger] run[i] == Action::ReleaseInterface
                    ==> #[trigger] run[j] != Action::ReleaseInterface
            &&& forall|i: int, j: int|
                0 <= i < j < run.len() && #[trigger] run[i] == Action::AttachKernelDriver
                    ==> #[trigger] run[j] != Action::AttachKernelDriver
            &&& p == Phase::Bound ==> forall|j: int|
                0 <= j < run.len() && #[trigger] run[j] == Action::AttachKernelDriver
                    ==> exists|i: int| 0 <= i < j && #[trigger] run[i] == Action::ReleaseInterface
        }),
    decreases events.len(),
{
    if events.len() > 0 {
        let (next, a) = session_step(p, events[0]);
        let rest = events.drop_first();
        let run = session_run(p, events);
        let tail = session_run(next, rest);
        lemma_teardown_run(next, rest);
        assert(run == seq![a] + tail);
        assert forall|k: int| 0 < k < run.len() implies run[k] == tail[k - 1] && events[k] == rest[k
            - 1] by {}
        assert forall|j: int|
            0 <= j < run.len() && #[trigger] run[j] == Action::AttachKernelDriver implies events[j]
                == Event::ReleaseResult(true) by {
            if j > 0 {
                assert(tail[j - 1] == Action::AttachKernelDriver);
            }
        }
        assert forall|i: int, j: int|
            0 <= i < j < run.len() && #[trigger] run[i] == Action::ReleaseInterface implies #[trigger] run[j]
                != Action::ReleaseInterface by {
            if i > 0 {
                assert(tail[i - 1] == Action::ReleaseInterface);
            } else {
                assert(next == Phase::Releasing);
                assert(tail[j - 1] != Action::ReleaseInterface);
            }
        }
        assert forall|i: int, j: int|
            0 <= i < j < run.len() && #[trigger] run[i] == Action::AttachKernelDriver implies #[trigger] run[j]
                != Action::AttachKernelDriver by {
            if i > 0 {
                assert(tail[i - 1] == Action::AttachKernelDriver);
            } else {
                assert(next == Phase::Reattaching);
                assert(tail[j - 1] != Action::AttachKernelDriver);
            }
        }
        if p == Phase::Bound {
            assert forall|j: int|
                0 <= j < run.len() && #[trigger] run[j] == Action::AttachKernelDriver implies exists|
                i: int,
            | 0 <= i < j && #[trigger] run[i] == Action::ReleaseInterface by {
                assert(j > 0);
                assert(tail[j - 1] == Action::AttachKernelDriver);
                if next == Phase::Bound {
                    let i0 = choose|i: int|
                        0 <= i < j - 1 && #[trigger] tail[i] == Action::ReleaseInterface;
                    assert(run[i0 + 1] == Action::ReleaseInterface);
                } else {
                    assert(run[0] == Action::ReleaseInterface);
                }
            }
        }
        assert forall|j: int| 0 <= j < run.len() implies !(#[trigger] run[j] is Fail) by {
            if j > 0 {
                assert(run[j] == tail[j - 1]);
            }
        }
    }
}

/// Tearing down a live session asks for the interface to be released at
/// most once, and for the kernel driver to be attached again at most once,
/// only in answer to a successful release and after that release was asked
/// for. No outcome of either step, a failed reattachment included, turns into
/// an error: teardown ends in a warning at worst.
pub proof fn lemma_teardown_release_first(events: Seq<Event>)
    ensures
        ({
            let run = session_run(Phase::Bound, events);
            &&& forall|j: int|
                0 <= j < run.len() && #[trigger] run[j] == Action::AttachKernelDriver
                    ==> events[j] == Event::ReleaseResult(true) && exists|i: int|
                    0 <= i < j && #[trigger] run[i] == Action::ReleaseInterface
            &&& forall|i: int, j: int|
                0 <= i < j < run.len() && #[trigger] run[i] == Action::ReleaseInterface
                    ==> #[trigger] run[j] != Action::ReleaseInterface
            &&& forall|i: int, j: int|
                0 <= i < j < run.len() && #[trigger] run[i] == Action::AttachKernelDriver
                    ==> #[trigger] run[j] != Action::AttachKernelDriver
            &&& forall|j: int| 0 <= j < run.len() ==> !(#[trigger] run[j] is Fail)
        }),
{
    lemma_teardown_run(Phase::Bound, events);
}

/// Opening rolls a kernel-driver detachment back when the claim then fails:
/// after a successful detach, a failed claim asks for the driver to be
/// attached again, and whatever that gives, opening then fails with the
/// claim error. Without a detach, a failed claim fails at once.
pub proof fn lemma_failed_claim_rolls_back(res: Result<(), UsbFailure>)
    ensures
        session_step(Phase::Detaching, Event::DetachResult(Ok(()))) == (
            Phase::ClaimingDetached,
            Action::ClaimInterface,
        ),
        session_step(Phase::ClaimingDetached, Event::ClaimResult(false)) == (
            Phase::RollingBack,
            Action::AttachKernelDriver,
        ),
        session_step(Phase::RollingBack, Event::AttachResult(res)) == (
            Phase::Failed,
            Action::Fail(OpenError::ClaimFailed),
        ),
        session_step(Phase::Claiming, Event::ClaimResult(false)) == (
            Phase::Failed,
            Action::Fail(OpenError::ClaimFailed),
        ),
{
}

} // verus!
