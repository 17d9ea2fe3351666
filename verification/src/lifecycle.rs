//! The lifecycle of one physical device: a background run that establishes a
//! session (with one retry on a transient access-denied condition), probes
//! for a device mode that must not be driven, publishes the session into the
//! handle's slot, then loops reading button reports and unpublishing the
//! session on session-ending errors.
//!
//! The decisions live here as a verified state machine. The runner outside
//! the verified core performs each [`LifecycleAction`] (USB work, the
//! one-second wait, publishing into the shared slot) and feeds the outcome
//! back as a [`LifecycleEvent`]; the machine's `installed` flag mirrors
//! whether the handle's slot holds this run's session.

use vstd::prelude::*;

use crate::packet::ControlPacket;
use crate::session::TransactError;
use crate::transport::TransportError;

verus! {

/// Why a lifecycle run ended. Every end is terminal for the run: a device
/// that comes back is served by a brand-new run, never a revived one.
#[derive(Clone, Copy, PartialEq, Eq, Structural, Debug)]
pub enum EndReason {
    /// Session establishment or the probe exchange failed for good.
    ConnectFailed,
    /// The factory-mode probe came back without error: the device is in a
    /// mode this protocol must not drive, and no session is published for
    /// this connection attempt.
    FactoryMode,
    /// The owning registry dropped the handle; the run has nobody to serve.
    HandleDropped,
}

/// The phase of one lifecycle run.
#[derive(Clone, Copy, PartialEq, Eq, Structural, Debug)]
pub enum LifecyclePhase {
    /// Opening the device, resolving its topology, reading its identity.
    Connecting { retried: bool },
    /// Session built but not yet published; probing for factory mode.
    Probing,
    /// Looping on button reports.
    Active,
    /// Terminal for this run.
    Ended { reason: EndReason },
}

/// What the runner must perform next, and which event each performance
/// produces: opening the device (with or without a one-second wait first)
/// yields `Connected` or `ConnectFailed`; the probe yields `ProbeCompleted`
/// or `ProbeFailed`; publishing the session, clearing the slot and plain
/// looping each end in reading a report, which yields `ReportRead` or
/// `ReportFailed`. A fresh machine's first action is `OpenDevice`.
#[derive(Clone, Copy, PartialEq, Eq, Structural, Debug)]
pub enum LifecycleAction {
    /// Attempt to open the device and build a session.
    OpenDevice,
    /// Wait one second, then attempt to open the device once more.
    RetryAfterDelay,
    /// Issue the factory-mode probe transaction, with no payload.
    SendProbe,
    /// Publish the session into the handle's slot, then read a report.
    InstallSession,
    /// Read the next 2-byte button report.
    ReadReport,
    /// Empty the handle's slot, then keep reading reports.
    InvalidateSlot,
    /// This run is over.
    Exit,
}

/// What the outside world reported back for the last action. The runner
/// feeds `HandleDropped` whenever it observes that the handle's owner is
/// gone, whatever it was doing.
#[derive(Clone, Copy, PartialEq, Eq, Debug)]
pub enum LifecycleEvent {
    /// A session was built and its identity read.
    Connected,
    /// Opening, claiming or identifying the device failed.
    ConnectFailed { error: TransportError },
    /// The factory-mode probe exchange completed with this response.
    ProbeCompleted { response: ControlPacket },
    /// The factory-mode probe exchange itself failed.
    ProbeFailed { fault: TransactError },
    /// A button report arrived.
    ReportRead { report: [u8; 2] },
    /// Reading a button report failed.
    ReportFailed { error: TransportError },
    /// The owning registry dropped the handle.
    HandleDropped,
}

/// The decision core of one lifecycle run: its phase, and whether this run's
/// session is currently published in the handle's slot.
#[derive(Clone, Copy, PartialEq, Eq, Structural, Debug)]
pub struct LifecycleMachine {
    pub phase: LifecyclePhase,
    pub installed: bool,
}

impl LifecycleMachine {
    /// Which events can arrive in which phase; an ended run accepts none.
    pub open spec fn spec_accepts(self, event: LifecycleEvent) -> bool {
        match self.phase {
            LifecyclePhase::Connecting { .. } => event is Connected || event is ConnectFailed
                || event is HandleDropped,
            LifecyclePhase::Probing => event is ProbeCompleted || event is ProbeFailed
                || event is HandleDropped,
            LifecyclePhase::Active => event is ReportRead || event is ReportFailed
                || event is HandleDropped,
            LifecyclePhase::Ended { .. } => false,
        }
    }

    /// The transition relation of the run, one event at a time.
    ///
    /// - A built session moves the run to probing.
    /// - A failed opening is retried exactly once, after a delay, and only
    ///   on the transient access-denied condition; any other failure, or a
    ///   second one, ends the run without publishing anything.
    /// - A probe response **without** error means factory mode: the run ends
    ///   and the session is never published. A response carrying an error is
    ///   the normal outcome; the session is published and the report loop
    ///   begins.
    /// - A failed probe exchange ends the run.
    /// - In the report loop, a timeout is not an error; a device-gone or any
    ///   other transport failure unpublishes the session, and the loop goes
    ///   on reading.
    /// - A dropped handle ends the run from any phase.
    pub open spec fn spec_step(self, event: LifecycleEvent) -> (LifecycleMachine, LifecycleAction) {
        match (self.phase, event) {
            (LifecyclePhase::Connecting { .. }, LifecycleEvent::Connected) => (
                LifecycleMachine { phase: LifecyclePhase::Probing, ..self },
                LifecycleAction::SendProbe,
            ),
            (LifecyclePhase::Connecting { retried }, LifecycleEvent::ConnectFailed { error }) => {
                if error is AccessDenied && !retried {
                    (
                        LifecycleMachine {
                            phase: LifecyclePhase::Connecting { retried: true },
                            ..self
                        },
                        LifecycleAction::RetryAfterDelay,
                    )
                } else {
                    (
                        LifecycleMachine {
                            phase: LifecyclePhase::Ended { reason: EndReason::ConnectFailed },
                            ..self
                        },
                        LifecycleAction::Exit,
                    )
                }
            },
            (LifecyclePhase::Probing, LifecycleEvent::ProbeCompleted { response }) => {
                if !response.spec_has_error() {
                    (
                        LifecycleMachine {
                            phase: LifecyclePhase::Ended { reason: EndReason::FactoryMode },
                            ..self
                        },
                        LifecycleAction::Exit,
                    )
                } else {
                    (
                        LifecycleMachine { phase: LifecyclePhase::Active, installed: true },
                        LifecycleAction::InstallSession,
                    )
                }
            },
            (LifecyclePhase::Probing, LifecycleEvent::ProbeFailed { .. }) => (
                LifecycleMachine {
                    phase: LifecyclePhase::Ended { reason: EndReason::ConnectFailed },
                    ..self
                },
                LifecycleAction::Exit,
            ),
            (LifecyclePhase::Active, LifecycleEvent::ReportRead { .. }) => (
                self,
                LifecycleAction::ReadReport,
            ),
            (LifecyclePhase::Active, LifecycleEvent::ReportFailed { error }) => {
                if error is Timeout {
                    (self, LifecycleAction::ReadReport)
                } else {
                    (
                        LifecycleMachine { phase: LifecyclePhase::Active, installed: false },
                        LifecycleAction::InvalidateSlot,
                    )
                }
            },
            (_, LifecycleEvent::HandleDropped) => (
                LifecycleMachine {
                    phase: LifecyclePhase::Ended { reason: EndReason::HandleDropped },
                    ..self
                },
                LifecycleAction::Exit,
            ),
            _ => (self, LifecycleAction::Exit),
        }
    }

    /// A fresh run: connecting, nothing retried, nothing published.
    pub fn new() -> (m: LifecycleMachine)
        ensures
            m.phase == (LifecyclePhase::Connecting { retried: false }),
            !m.installed,
    {
        LifecycleMachine { phase: LifecyclePhase::Connecting { retried: false }, installed: false }
    }

    /// Consumes one event and hands the runner its next action, exactly as
    /// the transition relation says.
    pub fn step(&mut self, event: LifecycleEvent) -> (action: LifecycleAction)
        requires
            old(self).spec_accepts(event),
        ensures
            (*final(self), action) == old(self).spec_step(event),
    {
        let next: (LifecycleMachine, LifecycleAction) = match (self.phase, event) {
            (LifecyclePhase::Connecting { .. }, LifecycleEvent::Connected) => (
                LifecycleMachine { phase: LifecyclePhase::Probing, installed: self.installed },
                LifecycleAction::SendProbe,
            ),
            (LifecyclePhase::Connecting { retried }, LifecycleEvent::ConnectFailed { error }) => {
                if matches!(error, TransportError::AccessDenied) && !retried {
                    (
                        LifecycleMachine {
                            phase: LifecyclePhase::Connecting { retried: true },
                            installed: self.installed,
                        },
                        LifecycleAction::RetryAfterDelay,
                    )
                } else {
                    (
                        LifecycleMachine {
                            phase: LifecyclePhase::Ended { reason: EndReason::ConnectFailed },
                            installed: self.installed,
                        },
                        LifecycleAction::Exit,
                    )
                }
            },
            (LifecyclePhase::Probing, LifecycleEvent::ProbeCompleted { response }) => {
                if !response.has_error() {
                    (
                        LifecycleMachine {
                            phase: LifecyclePhase::Ended { reason: EndReason::FactoryMode },
                            installed: self.installed,
                        },
                        LifecycleAction::Exit,
                    )
                } else {
                    (
                        LifecycleMachine { phase: LifecyclePhase::Active, installed: true },
                        LifecycleAction::InstallSession,
                    )
                }
            },
            (LifecyclePhase::Probing, LifecycleEvent::ProbeFailed { .. }) => (
                LifecycleMachine {
                    phase: LifecyclePhase::Ended { reason: EndReason::ConnectFailed },
                    installed: self.installed,
                },
                LifecycleAction::Exit,
            ),
            (LifecyclePhase::Active, LifecycleEvent::ReportRead { .. }) => (
                *self,
                LifecycleAction::ReadReport,
            ),
            (LifecyclePhase::Active, LifecycleEvent::ReportFailed { error }) => {
                if matches!(error, TransportError::Timeout) {
                    (*self, LifecycleAction::ReadReport)
                } else {
                    (
                        LifecycleMachine { phase: LifecyclePhase::Active, installed: false },
                        LifecycleAction::InvalidateSlot,
                    )
                }
            },
            (_, LifecycleEvent::HandleDropped) => (
                LifecycleMachine {
                    phase: LifecyclePhase::Ended { reason: EndReason::HandleDropped },
                    installed: self.installed,
                },
                LifecycleAction::Exit,
            ),
            _ => (*self, LifecycleAction::Exit),
        };
        self.phase = next.0.phase;
        self.installed = next.0.installed;
        next.1
    }
}

/// Law: a factory-mode probe that comes back without error never results in
/// a published session for this connection attempt. The run ends at once,
/// nothing is published, and the ended run accepts no further event, so the
/// handle stays unready for good.
pub proof fn lemma_factory_mode_never_ready(m: LifecycleMachine, response: ControlPacket)
    requires
        m.phase is Probing,
        !m.installed,
        !response.spec_has_error(),
    ensures
        !m.spec_step(LifecycleEvent::ProbeCompleted { response }).0.installed,
        m.spec_step(LifecycleEvent::ProbeCompleted { response }).0.phase == (LifecyclePhase::Ended {
            reason: EndReason::FactoryMode,
        }),
        forall|e: LifecycleEvent|
            !m.spec_step(LifecycleEvent::ProbeCompleted { response }).0.spec_accepts(e),
{
}

/// Law: a device-gone transport error during the report loop unpublishes
/// the session — the runner is told to clear the slot, flipping readiness to
/// false — and the loop keeps reading rather than ending the run.
pub proof fn lemma_device_gone_invalidates(m: LifecycleMachine)
    requires
        m.phase is Active,
    ensures
        !m.spec_step(
            LifecycleEvent::ReportFailed { error: TransportError::DeviceGone },
        ).0.installed,
        m.spec_step(LifecycleEvent::ReportFailed { error: TransportError::DeviceGone }).1
            == LifecycleAction::InvalidateSlot,
        m.spec_step(LifecycleEvent::ReportFailed { error: TransportError::DeviceGone }).0.phase
            is Active,
{
}

/// Law: the only step that publishes a session is the probe transition on a
/// response that carries an error (the normal, non-factory-mode outcome).
/// No other accepted event ever turns an unpublished run into a published
/// one.
pub proof fn lemma_install_only_from_probe(m: LifecycleMachine, event: LifecycleEvent)
    requires
        !m.installed,
        m.spec_accepts(event),
    ensures
        m.spec_step(event).0.installed ==> (m.phase is Probing && (event
            matches LifecycleEvent::ProbeCompleted { response } && response.spec_has_error())
            && m.spec_step(event).1 == LifecycleAction::InstallSession),
{
}

} // verus!
