//! Decisions of the controller that owns the Raft engine of a member.
use crate::cluster_readiness::{ClusterRaftReadiness, ClusterRaftReadinessStatus};
use crate::error::{ambiguous_error, BrokerError, BrokerErrorCode, BrokerErrorView};
use crate::raft_errors::RaftMode;
use vstd::prelude::*;

verus! {

/// What a controller is asked for.
#[derive(Debug, Clone, Copy, PartialEq, Eq, Structural)]
pub enum RequestKind {
    Propose,
    ProposeIdentified,
    AcquireCommandSessionOwner,
    Progress,
    Readiness,
    GroupDirectory,
    TriggerSnapshot,
    Shutdown,
}

/// What a controller meets.
#[derive(Debug, PartialEq, Eq)]
pub enum ControllerEvent {
    /// The engine could not be started.
    OpenFailed(BrokerError),
    /// The engine runs, and its start can be reported.
    Opened,
    /// The one who started the controller is gone.
    StarterGone,
    /// A request arrived. The flag says whether its deadline has passed.
    Request { kind: RequestKind, deadline_passed: bool },
    /// No request can arrive any more.
    Disconnected,
}

/// What a controller does next.
#[derive(Debug, PartialEq, Eq)]
pub enum ControllerAction {
    /// Report that the start failed, and end.
    ReportFailure(BrokerError),
    /// Report the progress of the started engine, then wait for requests.
    ReportProgress,
    /// Do what was asked and reply, then wait for the next request.
    Serve(RequestKind),
    /// Reply with this observation without asking the engine, then wait for the next request.
    ReplyReadiness(ClusterRaftReadiness),
    /// Stop the engine, reply, and end.
    StopAndReply,
    /// Stop the engine and end.
    StopAndEnd,
}

/// What a controller does on an event. A probe whose deadline has passed is not served.
pub open spec fn controller_action(event: ControllerEvent) -> ControllerAction {
    match event {
        ControllerEvent::OpenFailed(error) => ControllerAction::ReportFailure(error),
        ControllerEvent::Opened => ControllerAction::ReportProgress,
        ControllerEvent::StarterGone => ControllerAction::StopAndEnd,
        ControllerEvent::Disconnected => ControllerAction::StopAndEnd,
        ControllerEvent::Request { kind, deadline_passed } => match kind {
            RequestKind::Shutdown => ControllerAction::StopAndReply,
            RequestKind::Readiness => if deadline_passed {
                ControllerAction::ReplyReadiness(
                    ClusterRaftReadiness {
                        status: ClusterRaftReadinessStatus::ProbeTimedOut,
                        progress: None,
                    },
                )
            } else {
                ControllerAction::Serve(kind)
            },
            _ => ControllerAction::Serve(kind),
        },
    }
}

/// Decide what a controller does on an event.
pub fn decide_controller(event: ControllerEvent) -> (r: ControllerAction)
    ensures
        r == controller_action(event),
{
    match event {
        ControllerEvent::OpenFailed(error) => ControllerAction::ReportFailure(error),
        ControllerEvent::Opened => ControllerAction::ReportProgress,
        ControllerEvent::StarterGone => ControllerAction::StopAndEnd,
        ControllerEvent::Disconnected => ControllerAction::StopAndEnd,
        ControllerEvent::Request { kind, deadline_passed } => match kind {
            RequestKind::Shutdown => ControllerAction::StopAndReply,
            RequestKind::Readiness => if deadline_passed {
                ControllerAction::ReplyReadiness(
                    ClusterRaftReadiness {
                        status: ClusterRaftReadinessStatus::ProbeTimedOut,
                        progress: None,
                    },
                )
            } else {
                ControllerAction::Serve(kind)
            },
            _ => ControllerAction::Serve(kind),
        },
    }
}

/// Whether a controller ends after an action.
pub open spec fn ends(action: ControllerAction) -> bool {
    match action {
        ControllerAction::ReportFailure(_) => true,
        ControllerAction::StopAndReply => true,
        ControllerAction::StopAndEnd => true,
        _ => false,
    }
}

/// A controller that ends has either never had an engine or stops it first.
pub proof fn law_a_controller_never_leaves_a_running_engine(event: ControllerEvent)
    requires
        ends(controller_action(event)),
    ensures
        event is OpenFailed || controller_action(event) == ControllerAction::StopAndReply
            || controller_action(event) == ControllerAction::StopAndEnd,
{
}

/// A fault between an adapter and its controller.
#[derive(Debug, Clone, Copy, PartialEq, Eq, Structural)]
pub enum ControllerFault {
    /// The controller thread could not be started.
    ThreadNotStarted,
    /// The runtime of the engine could not be built.
    RuntimeNotBuilt,
    /// The controller ended while it was starting.
    EndedDuringStartup,
    /// A request could not be handed over.
    Unavailable,
    /// A request was handed over, but its reply was dropped.
    ReplyDropped,
    /// The durable store could not be opened.
    StoreNotOpened,
    /// The directory of the durable store could not be made.
    DirectoryNotMade,
    /// The engine could not be shut down.
    ShutdownFailed,
    /// The server for the calls of other members could not be started.
    ListenerNotBound,
    /// The server for the calls of other members could not be stopped.
    ListenerNotStopped,
}

/// The code of a fault.
pub open spec fn fault_code(fault: ControllerFault) -> BrokerErrorCode {
    match fault {
        ControllerFault::Unavailable => BrokerErrorCode::PersistenceError,
        ControllerFault::ReplyDropped => BrokerErrorCode::PersistenceError,
        ControllerFault::StoreNotOpened => BrokerErrorCode::PersistenceError,
        ControllerFault::DirectoryNotMade => BrokerErrorCode::PersistenceError,
        ControllerFault::ListenerNotBound => BrokerErrorCode::TransportError,
        ControllerFault::ListenerNotStopped => BrokerErrorCode::TransportError,
        _ => BrokerErrorCode::InternalError,
    }
}

/// The text of a fault up to its cause.
pub open spec fn fault_text(mode: RaftMode, fault: ControllerFault) -> Seq<char> {
    match fault {
        ControllerFault::ThreadNotStarted => "failed to start "@ + mode.text()
            + " Raft controller thread: "@,
        ControllerFault::RuntimeNotBuilt => "failed to build "@ + mode.text()
            + " Raft Tokio runtime: "@,
        ControllerFault::EndedDuringStartup => mode.text()
            + " Raft controller exited during startup: "@,
        ControllerFault::Unavailable => mode.text() + " Raft controller is unavailable: "@,
        ControllerFault::ReplyDropped => mode.text()
            + " Raft controller dropped the response: "@,
        ControllerFault::StoreNotOpened => "failed to open "@ + mode.text() + " Raft redb store: "@,
        ControllerFault::DirectoryNotMade => "failed to create "@ + mode.text()
            + " Raft state directory: "@,
        ControllerFault::ShutdownFailed => match mode {
            RaftMode::Cluster => "cluster Raft shutdown failed: "@,
            RaftMode::OneNode => "one-node Raft shutdown join failed: "@,
        },
        ControllerFault::ListenerNotBound => "failed to bind "@ + mode.text()
            + " Raft RPC listener: "@,
        ControllerFault::ListenerNotStopped => mode.text() + " Raft RPC server shutdown failed: "@,
    }
}

/// The error for a fault.
pub open spec fn fault(mode: RaftMode, kind: ControllerFault, cause: Seq<char>) -> BrokerErrorView {
    ambiguous_error(fault_code(kind), fault_text(mode, kind) + cause)
}

/// The error for a fault between an adapter and its controller.
pub fn controller_error(mode: RaftMode, kind: ControllerFault, cause: &str) -> (r: BrokerError)
    ensures
        r@ == fault(mode, kind, cause@),
{
    let group = mode.as_str();
    let message = match kind {
        ControllerFault::ThreadNotStarted => {
            "failed to start ".to_owned().concat(group).concat(" Raft controller thread: ")
        },
        ControllerFault::RuntimeNotBuilt => {
            "failed to build ".to_owned().concat(group).concat(" Raft Tokio runtime: ")
        },
        ControllerFault::EndedDuringStartup => {
            group.to_owned().concat(" Raft controller exited during startup: ")
        },
        ControllerFault::Unavailable => group.to_owned().concat(
            " Raft controller is unavailable: ",
        ),
        ControllerFault::ReplyDropped => {
            group.to_owned().concat(" Raft controller dropped the response: ")
        },
        ControllerFault::StoreNotOpened => {
            "failed to open ".to_owned().concat(group).concat(" Raft redb store: ")
        },
        ControllerFault::DirectoryNotMade => {
            "failed to create ".to_owned().concat(group).concat(" Raft state directory: ")
        },
        ControllerFault::ShutdownFailed => match mode {
            RaftMode::Cluster => "cluster Raft shutdown failed: ".to_owned(),
            RaftMode::OneNode => "one-node Raft shutdown join failed: ".to_owned(),
        },
        ControllerFault::ListenerNotBound => {
            "failed to bind ".to_owned().concat(group).concat(" Raft RPC listener: ")
        },
        ControllerFault::ListenerNotStopped => {
            group.to_owned().concat(" Raft RPC server shutdown failed: ")
        },
    };
    let message = message.concat(cause);
    let code = match kind {
        ControllerFault::Unavailable => BrokerErrorCode::PersistenceError,
        ControllerFault::ReplyDropped => BrokerErrorCode::PersistenceError,
        ControllerFault::StoreNotOpened => BrokerErrorCode::PersistenceError,
        ControllerFault::DirectoryNotMade => BrokerErrorCode::PersistenceError,
        ControllerFault::ListenerNotBound => BrokerErrorCode::TransportError,
        ControllerFault::ListenerNotStopped => BrokerErrorCode::TransportError,
        _ => BrokerErrorCode::InternalError,
    };
    BrokerError::new(code, message.as_str())
}

} // verus!
