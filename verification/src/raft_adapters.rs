//! Synchronous consensus adapters in front of a Raft controller.
use crate::cluster_readiness::ClusterRaftProgress;
use crate::command_identity::{
    CommandIdentity, CommandSessionId, SessionOwnerEpoch, SessionOwnerInstanceId,
};
use crate::commands::BrokerCommand;
use crate::consensus::ConsensusAdapter;
use crate::domain::{Revision, Term};
use crate::error::{
    ambiguous_error, stable_code, BrokerError, BrokerErrorCode, BrokerErrorDisposition,
    BrokerErrorView, ConsumerGroupErrorKind, StateMachineErrorKind, TaskTransitionErrorKind,
};
use crate::one_node::{OneNodeProposeReply, OneNodeRaftProgress};
use crate::raft_errors::RaftMode;
use crate::results::{BrokerMutationResult, ConsumerGroupDirectory};
use vstd::prelude::*;

verus! {

/// The error of an adapter that has stopped for good.
pub open spec fn adapter_stopped(mode: RaftMode) -> BrokerErrorView {
    ambiguous_error(
        BrokerErrorCode::PersistenceError,
        mode.text() + " Raft consensus adapter is fail-stopped after an engine failure"@,
    )
}

/// The error for a term command, which only Raft may issue.
pub open spec fn term_is_owned(mode: RaftMode) -> BrokerErrorView {
    ambiguous_error(
        BrokerErrorCode::InvalidRequest,
        "Broker term is owned by Raft in "@ + mode.text() + " consensus mode"@,
    )
}

fn adapter_stopped_error(mode: RaftMode) -> (r: BrokerError)
    ensures
        r@ == adapter_stopped(mode),
{
    let message = mode.as_str().to_owned().concat(
        " Raft consensus adapter is fail-stopped after an engine failure",
    );
    BrokerError::new(BrokerErrorCode::PersistenceError, message.as_str())
}

fn term_is_owned_error(mode: RaftMode) -> (r: BrokerError)
    ensures
        r@ == term_is_owned(mode),
{
    let message = "Broker term is owned by Raft in ".to_owned().concat(mode.as_str()).concat(
        " consensus mode",
    );
    BrokerError::new(BrokerErrorCode::InvalidRequest, message.as_str())
}

/// Whether an error stops the adapter: the durable state or the member itself can no longer be
/// trusted.
pub open spec fn poisons(error: BrokerErrorView) -> bool {
    error.code == BrokerErrorCode::PersistenceError || error.code == BrokerErrorCode::InternalError
}

/// Test whether an error stops the adapter.
pub fn should_poison(error: &BrokerError) -> (r: bool)
    ensures
        r == poisons(error@),
        r <==> error@.code == BrokerErrorCode::PersistenceError || error@.code
            == BrokerErrorCode::InternalError,
{
    match error.code() {
        BrokerErrorCode::PersistenceError => true,
        BrokerErrorCode::InternalError => true,
        _ => false,
    }
}

fn is_term_command(command: &BrokerCommand) -> (r: bool)
    ensures
        r == (*command is AdvanceTerm),
{
    match command {
        BrokerCommand::AdvanceTerm(_) => true,
        _ => false,
    }
}

/// Whether an answer of the controller stops the adapter. An outer error means that the controller
/// could not be reached.
pub open spec fn stops<T>(answer: Result<Result<T, BrokerError>, BrokerError>) -> bool {
    match answer {
        Err(_) => true,
        Ok(Err(error)) => poisons(error@),
        Ok(Ok(_)) => false,
    }
}

/// What the adapter reports of an answer of the controller.
pub open spec fn reported<T>(answer: Result<Result<T, BrokerError>, BrokerError>) -> Result<
    T,
    BrokerError,
> {
    match answer {
        Err(error) => Err(error),
        Ok(reply) => reply,
    }
}

fn settle<T>(answer: Result<Result<T, BrokerError>, BrokerError>) -> (r: (
    Result<T, BrokerError>,
    bool,
))
    ensures
        r.0 == reported(answer),
        r.1 == stops(answer),
{
    match answer {
        Err(error) => (Err(error), true),
        Ok(Ok(value)) => (Ok(value), false),
        Ok(Err(error)) => {
            let stopped = should_poison(&error);
            (Err(error), stopped)
        },
    }
}

/// Controller of a cluster member. An outer error means that it could not be reached.
pub trait ClusterController: Sized {
    /// Whether consensus on the member was seen to have stopped, by the adapter or by an observer.
    fn is_fail_stopped(&self) -> bool;

    /// Let the adapter and every observer see that consensus on the member has stopped.
    fn latch_fail_stop(&mut self);

    /// The committed Broker term that the member shows, or `None` if it is no term.
    fn observed_term(&self) -> Option<Term>;

    fn observed_revision(&self) -> Revision;

    fn propose(&mut self, command: BrokerCommand) -> Result<
        Result<BrokerMutationResult, BrokerError>,
        BrokerError,
    >;

    fn propose_identified(&mut self, identity: CommandIdentity, command: BrokerCommand) -> Result<
        Result<BrokerMutationResult, BrokerError>,
        BrokerError,
    >;

    fn acquire_command_session_owner(
        &mut self,
        session_id: CommandSessionId,
        expected_owner_epoch: SessionOwnerEpoch,
        owner_instance_id: SessionOwnerInstanceId,
    ) -> Result<Result<SessionOwnerEpoch, BrokerError>, BrokerError>;

    fn progress(&mut self) -> Result<Result<ClusterRaftProgress, BrokerError>, BrokerError>;

    fn group_directory(&mut self) -> Result<
        Result<ConsumerGroupDirectory, BrokerError>,
        BrokerError,
    >;
}

/// Adapter in front of one member of a cluster.
pub struct ClusterRaftConsensusAdapter<K: ClusterController> {
    node_id: u64,
    controller: K,
    fail_stopped: bool,
}

impl<K: ClusterController> ClusterRaftConsensusAdapter<K> {
    pub closed spec fn spec_node_id(&self) -> u64 {
        self.node_id
    }

    pub closed spec fn spec_controller(&self) -> K {
        self.controller
    }

    pub closed spec fn spec_fail_stopped(&self) -> bool {
        self.fail_stopped
    }

    /// An adapter in front of the running controller of member `node_id`.
    pub fn new(node_id: u64, controller: K) -> (r: Self)
        ensures
            r.spec_node_id() == node_id,
            r.spec_controller() == controller,
            !r.spec_fail_stopped(),
    {
        ClusterRaftConsensusAdapter { node_id, controller, fail_stopped: false }
    }

    pub fn is_fail_stopped(&self) -> (r: bool)
        ensures
            r == self.spec_fail_stopped(),
    {
        self.fail_stopped
    }

    /// Whether the adapter has stopped: it did so itself, or an observer saw consensus stop.
    fn has_stopped(&self) -> (r: bool)
        ensures
            exists|latched: bool| #[trigger]
                call_ensures(K::is_fail_stopped, (&self.spec_controller(),), latched) && r == (
                self.spec_fail_stopped() || latched),
    {
        let latched = self.controller.is_fail_stopped();
        assert(call_ensures(K::is_fail_stopped, (&self.spec_controller(),), latched));
        self.fail_stopped || latched
    }

    /// Stop for good if `stopped`, for the adapter itself and for every observer.
    fn settle_stop(&mut self, stopped: bool)
        ensures
            final(self).spec_node_id() == old(self).spec_node_id(),
            if stopped {
                final(self).spec_fail_stopped() && exists|told: &mut K|
                    *told == old(self).spec_controller()
                        && *final(told) == final(self).spec_controller()
                        && #[trigger] call_ensures(K::latch_fail_stop, (told,), ())
            } else {
                *final(self) == *old(self)
            },
    {
        if stopped {
            self.controller.latch_fail_stop();
            self.fail_stopped = true;
        }
    }

    /// The progress of the member. A failure to read it does not stop the adapter.
    pub fn progress(&mut self) -> (r: Result<ClusterRaftProgress, BrokerError>)
        ensures
            final(self).spec_node_id() == old(self).spec_node_id(),
            final(self).spec_fail_stopped() == old(self).spec_fail_stopped(),
            exists|latched: bool|
                {
                    &&& #[trigger] call_ensures(
                        K::is_fail_stopped,
                        (&old(self).spec_controller(),),
                        latched,
                    )
                    &&& {
                        if old(self).spec_fail_stopped() || latched {
                            *final(self) == *old(self) && (r matches Err(error) && error@
                                == adapter_stopped(RaftMode::Cluster))
                        } else {
                            exists|
                                controller: &mut K,
                                answer: Result<Result<ClusterRaftProgress, BrokerError>, BrokerError>,
                            |
                                {
                                    &&& *controller == old(self).spec_controller()
                                    &&& *final(controller) == final(self).spec_controller()
                                    &&& #[trigger] call_ensures(K::progress, (controller,), answer)
                                    &&& r == reported(answer)
                                }
                        }
                    }
                },
    {
        if self.has_stopped() {
            return Err(adapter_stopped_error(RaftMode::Cluster));
        }
        let answer = self.controller.progress();
        let (reply, _stopped) = settle(answer);
        reply
    }

    /// Give the controller up, for its shutdown.
    pub fn into_controller(self) -> (r: K)
        ensures
            r == self.spec_controller(),
    {
        self.controller
    }
}

impl<K: ClusterController> ConsensusAdapter for ClusterRaftConsensusAdapter<K> {
    fn term(&self) -> (r: Term)
        ensures
            exists|observed: Option<Term>| #[trigger]
                call_ensures(K::observed_term, (&self.spec_controller(),), observed)
                    && match observed {
                    Some(term) => r == term,
                    None => r@ == 1,
                },
    {
        let observed = self.controller.observed_term();
        assert(call_ensures(K::observed_term, (&self.spec_controller(),), observed));
        match observed {
            Some(term) => term,
            None => Term::initial(),
        }
    }

    fn revision(&self) -> (r: Revision)
        ensures
            call_ensures(K::observed_revision, (&self.spec_controller(),), r),
    {
        self.controller.observed_revision()
    }

    fn group_directory(&mut self) -> (r: Result<ConsumerGroupDirectory, BrokerError>)
        ensures
            final(self).spec_node_id() == old(self).spec_node_id(),
            final(self).spec_fail_stopped() == old(self).spec_fail_stopped(),
            exists|latched: bool|
                {
                    &&& #[trigger] call_ensures(
                        K::is_fail_stopped,
                        (&old(self).spec_controller(),),
                        latched,
                    )
                    &&& {
                        if old(self).spec_fail_stopped() || latched {
                            *final(self) == *old(self) && (r matches Err(error) && error@
                                == adapter_stopped(RaftMode::Cluster))
                        } else {
                            exists|
                                controller: &mut K,
                                answer: Result<Result<ConsumerGroupDirectory, BrokerError>, BrokerError>,
                            |
                                {
                                    &&& *controller == old(self).spec_controller()
                                    &&& *final(controller) == final(self).spec_controller()
                                    &&& #[trigger] call_ensures(
                                        K::group_directory,
                                        (controller,),
                                        answer,
                                    )
                                    &&& r == reported(answer)
                                }
                        }
                    }
                },
    {
        if self.has_stopped() {
            return Err(adapter_stopped_error(RaftMode::Cluster));
        }
        let answer = self.controller.group_directory();
        let (reply, _stopped) = settle(answer);
        reply
    }

    fn maintenance_authority(&mut self) -> (r: Result<bool, BrokerError>)
        ensures
            exists|adapter: &mut Self, progress: Result<ClusterRaftProgress, BrokerError>|
                {
                    &&& *adapter == *old(self)
                    &&& *final(adapter) == *final(self)
                    &&& #[trigger] call_ensures(
                        ClusterRaftConsensusAdapter::<K>::progress,
                        (adapter,),
                        progress,
                    )
                    &&& r == match progress {
                        Ok(progress) => Ok(
                            progress.current_leader == Some(old(self).spec_node_id()),
                        ),
                        Err(error) => Err(error),
                    }
                },
    {
        let progress = ClusterRaftConsensusAdapter::<K>::progress(self);
        match progress {
            Ok(progress) => match progress.current_leader {
                Some(leader) => Ok(leader == self.node_id),
                None => Ok(false),
            },
            Err(error) => Err(error),
        }
    }

    fn propose(&mut self, command: BrokerCommand) -> (r: Result<BrokerMutationResult, BrokerError>)
        ensures
            final(self).spec_node_id() == old(self).spec_node_id(),
            exists|latched: bool|
                {
                    &&& #[trigger] call_ensures(
                        K::is_fail_stopped,
                        (&old(self).spec_controller(),),
                        latched,
                    )
                    &&& {
                        if old(self).spec_fail_stopped() || latched {
                            *final(self) == *old(self) && (r matches Err(error) && error@
                                == adapter_stopped(RaftMode::Cluster))
                        } else if command is AdvanceTerm {
                            *final(self) == *old(self) && (r matches Err(error) && error@
                                == term_is_owned(RaftMode::Cluster))
                        } else {
                            exists|
                                controller: &mut K,
                                answer: Result<Result<BrokerMutationResult, BrokerError>, BrokerError>,
                            |
                                {
                                    &&& *controller == old(self).spec_controller()
                                    &&& #[trigger] call_ensures(
                                        K::propose,
                                        (controller, command),
                                        answer,
                                    )
                                    &&& r == reported(answer)
                                    &&& final(self).spec_fail_stopped() == stops(answer)
                                    &&& {
                                        if stops(answer) {
                                            exists|told: &mut K|
                                                *told == *final(controller) && *final(told)
                                                    == final(self).spec_controller()
                                                    && #[trigger] call_ensures(
                                                    K::latch_fail_stop,
                                                    (told,),
                                                    (),
                                                )
                                        } else {
                                            *final(controller) == final(self).spec_controller()
                                        }
                                    }
                                }
                        }
                    }
                },
    {
        if self.has_stopped() {
            return Err(adapter_stopped_error(RaftMode::Cluster));
        }
        if is_term_command(&command) {
            return Err(term_is_owned_error(RaftMode::Cluster));
        }
        let answer = self.controller.propose(command);
        let (reply, stopped) = settle(answer);
        self.settle_stop(stopped);
        reply
    }

    fn propose_identified(
        &mut self,
        identity: CommandIdentity,
        command: BrokerCommand,
    ) -> (r: Result<BrokerMutationResult, BrokerError>)
        ensures
            final(self).spec_node_id() == old(self).spec_node_id(),
            exists|latched: bool|
                {
                    &&& #[trigger] call_ensures(
                        K::is_fail_stopped,
                        (&old(self).spec_controller(),),
                        latched,
                    )
                    &&& {
                        if old(self).spec_fail_stopped() || latched {
                            *final(self) == *old(self) && (r matches Err(error) && error@
                                == adapter_stopped(RaftMode::Cluster))
                        } else if command is AdvanceTerm {
                            *final(self) == *old(self) && (r matches Err(error) && error@
                                == term_is_owned(RaftMode::Cluster))
                        } else {
                            exists|
                                controller: &mut K,
                                answer: Result<Result<BrokerMutationResult, BrokerError>, BrokerError>,
                            |
                                {
                                    &&& *controller == old(self).spec_controller()
                                    &&& #[trigger] call_ensures(
                                        K::propose_identified,
                                        (controller, identity, command),
                                        answer,
                                    )
                                    &&& r == reported(answer)
                                    &&& final(self).spec_fail_stopped() == stops(answer)
                                    &&& {
                                        if stops(answer) {
                                            exists|told: &mut K|
                                                *told == *final(controller) && *final(told)
                                                    == final(self).spec_controller()
                                                    && #[trigger] call_ensures(
                                                    K::latch_fail_stop,
                                                    (told,),
                                                    (),
                                                )
                                        } else {
                                            *final(controller) == final(self).spec_controller()
                                        }
                                    }
                                }
                        }
                    }
                },
    {
        if self.has_stopped() {
            return Err(adapter_stopped_error(RaftMode::Cluster));
        }
        if is_term_command(&command) {
            return Err(term_is_owned_error(RaftMode::Cluster));
        }
        let answer = self.controller.propose_identified(identity, command);
        let (reply, stopped) = settle(answer);
        self.settle_stop(stopped);
        reply
    }

    fn acquire_command_session_owner(
        &mut self,
        session_id: CommandSessionId,
        expected_owner_epoch: SessionOwnerEpoch,
        owner_instance_id: SessionOwnerInstanceId,
    ) -> (r: Result<SessionOwnerEpoch, BrokerError>)
        ensures
            final(self).spec_node_id() == old(self).spec_node_id(),
            exists|latched: bool|
                {
                    &&& #[trigger] call_ensures(
                        K::is_fail_stopped,
                        (&old(self).spec_controller(),),
                        latched,
                    )
                    &&& {
                        if old(self).spec_fail_stopped() || latched {
                            *final(self) == *old(self) && (r matches Err(error) && error@
                                == adapter_stopped(RaftMode::Cluster))
                        } else {
                            exists|
                                controller: &mut K,
                                answer: Result<Result<SessionOwnerEpoch, BrokerError>, BrokerError>,
                            |
                                {
                                    &&& *controller == old(self).spec_controller()
                                    &&& #[trigger] call_ensures(
                                        K::acquire_command_session_owner,
                                        (
                                            controller,
                                            session_id,
                                            expected_owner_epoch,
                                            owner_instance_id,
                                        ),
                                        answer,
                                    )
                                    &&& r == reported(answer)
                                    &&& final(self).spec_fail_stopped() == stops(answer)
                                    &&& {
                                        if stops(answer) {
                                            exists|told: &mut K|
                                                *told == *final(controller) && *final(told)
                                                    == final(self).spec_controller()
                                                    && #[trigger] call_ensures(
                                                    K::latch_fail_stop,
                                                    (told,),
                                                    (),
                                                )
                                        } else {
                                            *final(controller) == final(self).spec_controller()
                                        }
                                    }
                                }
                        }
                    }
                },
    {
        if self.has_stopped() {
            return Err(adapter_stopped_error(RaftMode::Cluster));
        }
        let answer = self.controller.acquire_command_session_owner(
            session_id,
            expected_owner_epoch,
            owner_instance_id,
        );
        let (reply, stopped) = settle(answer);
        self.settle_stop(stopped);
        reply
    }
}

/// Controller of a one-node group. An outer error means that it could not be reached.
pub trait OneNodeController: Sized {
    fn propose(&mut self, command: BrokerCommand) -> Result<
        Result<OneNodeProposeReply, BrokerError>,
        BrokerError,
    >;

    fn progress(&mut self) -> Result<Result<OneNodeRaftProgress, BrokerError>, BrokerError>;

    fn trigger_snapshot(&mut self) -> Result<Result<OneNodeRaftProgress, BrokerError>, BrokerError>;
}

/// Adapter in front of a one-node group.
pub struct OneNodeRaftConsensusAdapter<K: OneNodeController> {
    controller: K,
    term: Term,
    revision: Revision,
    poisoned: bool,
}

impl<K: OneNodeController> OneNodeRaftConsensusAdapter<K> {
    pub closed spec fn spec_controller(&self) -> K {
        self.controller
    }

    pub closed spec fn spec_term(&self) -> Term {
        self.term
    }

    pub closed spec fn spec_revision(&self) -> Revision {
        self.revision
    }

    pub closed spec fn spec_poisoned(&self) -> bool {
        self.poisoned
    }

    /// An adapter in front of a running controller that reported `progress`.
    pub fn new(controller: K, progress: OneNodeRaftProgress) -> (r: Self)
        ensures
            r.spec_controller() == controller,
            r.spec_term() == progress.broker_term,
            r.spec_revision() == progress.broker_revision,
            !r.spec_poisoned(),
    {
        OneNodeRaftConsensusAdapter {
            controller,
            term: progress.broker_term,
            revision: progress.broker_revision,
            poisoned: false,
        }
    }

    pub fn is_poisoned(&self) -> (r: bool)
        ensures
            r == self.spec_poisoned(),
    {
        self.poisoned
    }

    /// The progress of the group.
    pub fn progress(&mut self) -> (r: Result<OneNodeRaftProgress, BrokerError>)
        ensures
            final(self).spec_poisoned() == old(self).spec_poisoned(),
            if old(self).spec_poisoned() {
                *final(self) == *old(self) && (r matches Err(error) && error@ == adapter_stopped(
                    RaftMode::OneNode,
                ))
            } else {
                exists|
                    controller: &mut K,
                    answer: Result<Result<OneNodeRaftProgress, BrokerError>, BrokerError>,
                |
                    {
                        &&& *controller == old(self).spec_controller()
                        &&& *final(controller) == final(self).spec_controller()
                        &&& #[trigger] call_ensures(K::progress, (controller,), answer)
                        &&& r == reported(answer)
                        &&& match r {
                            Ok(progress) => final(self).spec_term() == progress.broker_term
                                && final(self).spec_revision() == progress.broker_revision,
                            Err(_) => final(self).spec_term() == old(self).spec_term()
                                && final(self).spec_revision() == old(self).spec_revision(),
                        }
                    }
            },
    {
        if self.poisoned {
            return Err(adapter_stopped_error(RaftMode::OneNode));
        }
        let answer = self.controller.progress();
        let (reply, _stopped) = settle(answer);
        match &reply {
            Ok(progress) => {
                self.term = progress.broker_term;
                self.revision = progress.broker_revision;
            },
            Err(_) => {},
        }
        reply
    }

    /// Take a snapshot and wait until it covers what was applied.
    pub fn trigger_snapshot(&mut self) -> (r: Result<OneNodeRaftProgress, BrokerError>)
        ensures
            final(self).spec_poisoned() == old(self).spec_poisoned(),
            if old(self).spec_poisoned() {
                *final(self) == *old(self) && (r matches Err(error) && error@ == adapter_stopped(
                    RaftMode::OneNode,
                ))
            } else {
                exists|
                    controller: &mut K,
                    answer: Result<Result<OneNodeRaftProgress, BrokerError>, BrokerError>,
                |
                    {
                        &&& *controller == old(self).spec_controller()
                        &&& *final(controller) == final(self).spec_controller()
                        &&& #[trigger] call_ensures(K::trigger_snapshot, (controller,), answer)
                        &&& r == reported(answer)
                        &&& match r {
                            Ok(progress) => final(self).spec_term() == progress.broker_term
                                && final(self).spec_revision() == progress.broker_revision,
                            Err(_) => final(self).spec_term() == old(self).spec_term()
                                && final(self).spec_revision() == old(self).spec_revision(),
                        }
                    }
            },
    {
        if self.poisoned {
            return Err(adapter_stopped_error(RaftMode::OneNode));
        }
        let answer = self.controller.trigger_snapshot();
        let (reply, _stopped) = settle(answer);
        match &reply {
            Ok(progress) => {
                self.term = progress.broker_term;
                self.revision = progress.broker_revision;
            },
            Err(_) => {},
        }
        reply
    }

    /// Give the controller up, for its shutdown.
    pub fn into_controller(self) -> (r: K)
        ensures
            r == self.spec_controller(),
    {
        self.controller
    }
}

impl<K: OneNodeController> ConsensusAdapter for OneNodeRaftConsensusAdapter<K> {
    fn term(&self) -> (r: Term)
        ensures
            r == self.spec_term(),
    {
        self.term
    }

    fn revision(&self) -> (r: Revision)
        ensures
            r == self.spec_revision(),
    {
        self.revision
    }

    fn propose(&mut self, command: BrokerCommand) -> (r: Result<BrokerMutationResult, BrokerError>)
        ensures
            if old(self).spec_poisoned() {
                *final(self) == *old(self) && (r matches Err(error) && error@ == adapter_stopped(
                    RaftMode::OneNode,
                ))
            } else if command is AdvanceTerm {
                *final(self) == *old(self) && (r matches Err(error) && error@ == term_is_owned(
                    RaftMode::OneNode,
                ))
            } else {
                exists|
                    controller: &mut K,
                    answer: Result<Result<OneNodeProposeReply, BrokerError>, BrokerError>,
                |
                    {
                        &&& *controller == old(self).spec_controller()
                        &&& *final(controller) == final(self).spec_controller()
                        &&& #[trigger] call_ensures(K::propose, (controller, command), answer)
                        &&& match reported(answer) {
                            Ok(reply) => r == reply.result
                                && !final(self).spec_poisoned()
                                && final(self).spec_term() == reply.progress.broker_term
                                && final(self).spec_revision() == reply.progress.broker_revision,
                            Err(error) => r == Err::<BrokerMutationResult, _>(error)
                                && final(self).spec_poisoned()
                                && final(self).spec_term() == old(self).spec_term()
                                && final(self).spec_revision() == old(self).spec_revision(),
                        }
                    }
            },
    {
        if self.poisoned {
            return Err(adapter_stopped_error(RaftMode::OneNode));
        }
        if is_term_command(&command) {
            return Err(term_is_owned_error(RaftMode::OneNode));
        }
        let answer = self.controller.propose(command);
        let (reply, _stopped) = settle(answer);
        match reply {
            Ok(reply) => {
                self.term = reply.progress.broker_term;
                self.revision = reply.progress.broker_revision;
                reply.result
            },
            Err(error) => {
                self.poisoned = true;
                Err(error)
            },
        }
    }
}

/// An answered request stops the adapter exactly when its error says that the durable state failed
/// or that the member itself did. A success never stops it, and a controller that could not be
/// reached always does.
pub proof fn law_only_broken_members_stop<T>(answer: Result<Result<T, BrokerError>, BrokerError>)
    ensures
        answer is Err ==> stops(answer),
        answer matches Ok(Ok(_)) ==> !stops(answer),
        answer matches Ok(Err(error)) ==> match error@.code {
            BrokerErrorCode::InvalidRequest
            | BrokerErrorCode::NotFound
            | BrokerErrorCode::Conflict
            | BrokerErrorCode::CapacityExceeded
            | BrokerErrorCode::StaleFence
            | BrokerErrorCode::TransportError
            | BrokerErrorCode::CommitOutcomeUnknown => !stops(answer),
            BrokerErrorCode::PersistenceError | BrokerErrorCode::InternalError => stops(answer),
        },
{
}

/// Neither the text of an error nor its disposition decides whether it stops the adapter.
pub proof fn law_the_code_alone_stops(first: BrokerErrorView, second: BrokerErrorView)
    requires
        first.code == second.code,
    ensures
        poisons(first) == poisons(second),
{
}

/// What the Broker refuses for the sake of its rules leaves the adapter running; only a fault of
/// the Broker itself stops it.
pub proof fn law_business_refusals_leave_the_adapter_running(
    kind: StateMachineErrorKind,
    message: Seq<char>,
    disposition: BrokerErrorDisposition,
)
    ensures
        poisons(BrokerErrorView { code: stable_code(kind), message, disposition }) <==> match kind {
            StateMachineErrorKind::TaskCountUnderflow => true,
            StateMachineErrorKind::FencingValue => true,
            StateMachineErrorKind::ConsumerGroupTransition(inner) => inner
                == ConsumerGroupErrorKind::FencingValue,
            StateMachineErrorKind::TaskTransition(inner) => inner
                == TaskTransitionErrorKind::FencingValue,
            _ => false,
        },
{
}

/// The adapter reports the reply of its controller as it is, and its own failure otherwise.
pub proof fn law_replies_are_reported_as_they_are<T>(
    answer: Result<Result<T, BrokerError>, BrokerError>,
)
    ensures
        answer matches Ok(Ok(value)) ==> reported(answer) == Ok::<T, BrokerError>(value),
        answer matches Ok(Err(error)) ==> reported(answer) == Err::<T, BrokerError>(error),
        answer matches Err(error) ==> reported(answer) == Err::<T, BrokerError>(error),
{
}

/// What a stopped adapter answers would itself stop an adapter; the refusal of a term command would
/// not. Neither says what became of the command.
pub proof fn law_refusals_of_the_adapter(mode: RaftMode)
    ensures
        poisons(adapter_stopped(mode)),
        adapter_stopped(mode).code == BrokerErrorCode::PersistenceError,
        adapter_stopped(mode).disposition == BrokerErrorDisposition::Unknown,
        !poisons(term_is_owned(mode)),
        term_is_owned(mode).code == BrokerErrorCode::InvalidRequest,
        term_is_owned(mode).disposition == BrokerErrorDisposition::Unknown,
{
}

} // verus!
