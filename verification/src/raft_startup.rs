//! Decisions while a member starts: waiting, bootstrap and convergence of the membership.
use crate::error::{ambiguous_error, BrokerError, BrokerErrorCode, BrokerErrorView};
use crate::one_node::{one_node_leaderless, one_node_leaderless_error};
use crate::raft_errors::{
    engine_failure, engine_stopped, raft_engine_error, raft_fatal_error, RaftMode,
};
use crate::text::{decimal, push_decimal};
use vstd::prelude::*;

verus! {

/// What follows one look while waiting.
#[derive(Debug, Clone, Copy, PartialEq, Eq, Structural)]
pub enum WaitStep {
    Reached,
    TimedOut,
    PollAgain,
}

/// What follows a look. Having reached the goal counts before the deadline.
pub open spec fn wait_step(reached: bool, deadline_passed: bool) -> WaitStep {
    if reached {
        WaitStep::Reached
    } else if deadline_passed {
        WaitStep::TimedOut
    } else {
        WaitStep::PollAgain
    }
}

/// Decide what follows a look for the leadership of `node_id`.
pub fn await_leader(node_id: u64, leader: Option<u64>, deadline_passed: bool) -> (r: WaitStep)
    ensures
        r == wait_step(leader == Some(node_id), deadline_passed),
{
    let reached = match leader {
        Some(leader) => leader == node_id,
        None => false,
    };
    if reached {
        WaitStep::Reached
    } else if deadline_passed {
        WaitStep::TimedOut
    } else {
        WaitStep::PollAgain
    }
}

/// Whether the applied entries have reached the committed ones.
pub open spec fn caught_up(committed_index: Option<u64>, applied_index: Option<u64>) -> bool {
    match committed_index {
        None => true,
        Some(committed) => applied_index matches Some(applied) && applied >= committed,
    }
}

/// The error of a member whose committed entries were not applied in time.
pub open spec fn not_applied_in_time(mode: RaftMode) -> BrokerErrorView {
    ambiguous_error(
        BrokerErrorCode::PersistenceError,
        mode.text() + " Raft committed log was not applied before the startup deadline"@,
    )
}

/// Decide what follows a look at the applied entries: go on, look again, or give up.
pub fn await_applied(
    mode: RaftMode,
    committed_index: Option<u64>,
    applied_index: Option<u64>,
    deadline_passed: bool,
) -> (r: Result<bool, BrokerError>)
    ensures
        match wait_step(caught_up(committed_index, applied_index), deadline_passed) {
            WaitStep::Reached => r == Ok::<bool, BrokerError>(true),
            WaitStep::PollAgain => r == Ok::<bool, BrokerError>(false),
            WaitStep::TimedOut => r matches Err(error) && error@ == not_applied_in_time(mode),
        },
{
    let reached = match (committed_index, applied_index) {
        (None, _) => true,
        (Some(committed), Some(applied)) => applied >= committed,
        (Some(_), None) => false,
    };
    if reached {
        return Ok(true);
    }
    if deadline_passed {
        let message = mode.as_str().to_owned().concat(
            " Raft committed log was not applied before the startup deadline",
        );
        return Err(BrokerError::new(BrokerErrorCode::PersistenceError, message.as_str()));
    }
    Ok(false)
}

/// Compare two lists of node ids.
pub fn same_ids(left: &Vec<u64>, right: &Vec<u64>) -> (r: bool)
    ensures
        r == (left@ == right@),
{
    let length: usize = left.len();
    if length != right.len() {
        return false;
    }
    let mut index: usize = 0;
    while index < length
        invariant
            length == left@.len(),
            length == right@.len(),
            index <= length,
            forall|i: int| 0 <= i < index ==> left@[i] == right@[i],
        decreases length - index,
    {
        if left[index] != right[index] {
            return false;
        }
        index = index + 1;
    }
    assert(left@ =~= right@);
    true
}

/// Look for a node id in a list.
pub fn contains_id(ids: &Vec<u64>, id: u64) -> (r: bool)
    ensures
        r == ids@.contains(id),
{
    let mut index: usize = 0;
    while index < ids.len()
        invariant
            index <= ids@.len(),
            forall|i: int| 0 <= i < index ==> ids@[i] != id,
        decreases ids.len() - index,
    {
        if ids[index] == id {
            assert(ids@[index as int] == id);
            return true;
        }
        index = index + 1;
    }
    false
}

/// One step in the bootstrap of a member.
#[derive(Debug, Clone, Copy, PartialEq, Eq, Structural)]
pub enum BootstrapStep {
    /// Found the group with this member alone.
    Initialize,
    /// Wait for a moment to become the leader of the group.
    AwaitLeader,
    /// Call an election.
    Elect,
    /// Wait until the deadline to become the leader.
    AwaitElected,
    /// Add the missing nodes as learners.
    AddLearners,
    /// Make all nodes voters.
    Converge,
    /// The membership is as desired.
    Done,
}

/// What the bootstrap of member `node_id` begins with, or the error it ends with.
pub open spec fn bootstrap_start(
    node_id: u64,
    desired: Seq<u64>,
    initialized: Result<bool, String>,
    voters: Seq<u64>,
) -> Result<BootstrapStep, BrokerErrorView> {
    match initialized {
        Err(error) => Err(engine_stopped(RaftMode::Cluster, error@)),
        Ok(true) => if voters == desired {
            Ok(BootstrapStep::Done)
        } else {
            Ok(BootstrapStep::AwaitLeader)
        },
        Ok(false) => if desired.contains(node_id) {
            Ok(BootstrapStep::Initialize)
        } else {
            Err(
                ambiguous_error(
                    BrokerErrorCode::InvalidRequest,
                    "bootstrap topology is missing the local node"@,
                ),
            )
        },
    }
}

/// Decide what the bootstrap of member `node_id` begins with. `desired` and `voters` are in
/// ascending order.
pub fn plan_bootstrap(
    node_id: u64,
    desired: &Vec<u64>,
    initialized: Result<bool, String>,
    voters: &Vec<u64>,
) -> (r: Result<BootstrapStep, BrokerError>)
    ensures
        match (r, bootstrap_start(node_id, desired@, initialized, voters@)) {
            (Ok(start), Ok(expected)) => start == expected,
            (Err(error), Err(failure)) => error@ == failure,
            _ => false,
        },
{
    match initialized {
        Err(error) => Err(raft_fatal_error(RaftMode::Cluster, error.as_str())),
        Ok(true) => if same_ids(voters, desired) {
            Ok(BootstrapStep::Done)
        } else {
            Ok(BootstrapStep::AwaitLeader)
        },
        Ok(false) => if contains_id(desired, node_id) {
            Ok(BootstrapStep::Initialize)
        } else {
            Err(
                BrokerError::new(
                    BrokerErrorCode::InvalidRequest,
                    "bootstrap topology is missing the local node",
                ),
            )
        },
    }
}

/// The error of a bootstrap node that did not become the leader.
pub open spec fn never_led(node_id: u64) -> BrokerErrorView {
    ambiguous_error(
        BrokerErrorCode::TransportError,
        "cluster bootstrap node "@ + decimal(node_id as nat)
            + " did not become leader before the deadline"@,
    )
}

/// The step that follows `done`, or `None` if the bootstrap cannot go on. `leads` says whether the
/// member is the leader after a wait, `as_desired` whether the voters are as desired.
pub open spec fn next_bootstrap_step(done: BootstrapStep, leads: bool, as_desired: bool) -> Option<
    BootstrapStep,
> {
    match done {
        BootstrapStep::Initialize => Some(BootstrapStep::AwaitLeader),
        BootstrapStep::AwaitLeader => if leads {
            Some(with_leadership(as_desired))
        } else {
            Some(BootstrapStep::Elect)
        },
        BootstrapStep::Elect => Some(BootstrapStep::AwaitElected),
        BootstrapStep::AwaitElected => if leads {
            Some(with_leadership(as_desired))
        } else {
            None
        },
        BootstrapStep::AddLearners => Some(BootstrapStep::Converge),
        BootstrapStep::Converge => Some(BootstrapStep::Done),
        BootstrapStep::Done => Some(BootstrapStep::Done),
    }
}

/// The step of a member that has become the leader.
pub open spec fn with_leadership(as_desired: bool) -> BootstrapStep {
    if as_desired {
        BootstrapStep::Done
    } else {
        BootstrapStep::AddLearners
    }
}

/// Decide the next step in the bootstrap of member `node_id`. `desired` and `voters` are in
/// ascending order.
pub fn bootstrap_step(
    node_id: u64,
    done: BootstrapStep,
    leads: bool,
    desired: &Vec<u64>,
    voters: &Vec<u64>,
) -> (r: Result<BootstrapStep, BrokerError>)
    ensures
        match next_bootstrap_step(done, leads, voters@ == desired@) {
            Some(step) => r == Ok::<BootstrapStep, BrokerError>(step),
            None => r matches Err(error) && error@ == never_led(node_id),
        },
{
    match done {
        BootstrapStep::Initialize => Ok(BootstrapStep::AwaitLeader),
        BootstrapStep::AwaitLeader | BootstrapStep::AwaitElected => {
            if leads {
                if same_ids(voters, desired) {
                    return Ok(BootstrapStep::Done);
                }
                return Ok(BootstrapStep::AddLearners);
            }
            if done == BootstrapStep::AwaitLeader {
                return Ok(BootstrapStep::Elect);
            }
            let mut message = "cluster bootstrap node ".to_owned();
            push_decimal(&mut message, node_id);
            message.append(" did not become leader before the deadline");
            Err(BrokerError::new(BrokerErrorCode::TransportError, message.as_str()))
        },
        BootstrapStep::Elect => Ok(BootstrapStep::AwaitElected),
        BootstrapStep::AddLearners => Ok(BootstrapStep::Converge),
        BootstrapStep::Converge => Ok(BootstrapStep::Done),
        BootstrapStep::Done => Ok(BootstrapStep::Done),
    }
}

/// How many steps a bootstrap has left at most.
pub open spec fn bootstrap_steps_left(done: BootstrapStep) -> nat {
    match done {
        BootstrapStep::Initialize => 6,
        BootstrapStep::AwaitLeader => 5,
        BootstrapStep::Elect => 4,
        BootstrapStep::AwaitElected => 3,
        BootstrapStep::AddLearners => 2,
        BootstrapStep::Converge => 1,
        BootstrapStep::Done => 0,
    }
}

/// A bootstrap comes to an end. It is done only once the membership has converged, or when a leader
/// finds the desired voters.
pub proof fn law_bootstraps_end(done: BootstrapStep, leads: bool, as_desired: bool)
    requires
        done != BootstrapStep::Done,
    ensures
        next_bootstrap_step(done, leads, as_desired) matches Some(step) ==> bootstrap_steps_left(
            step,
        ) < bootstrap_steps_left(done),
        next_bootstrap_step(done, leads, as_desired) == Some(BootstrapStep::Done) ==> done
            == BootstrapStep::Converge || (leads && as_desired),
{
}

/// The nodes that have to be added as learners: those of the topology that are neither this member
/// nor members already, in topology order.
pub open spec fn missing_nodes(nodes: Seq<u64>, node_id: u64, members: Seq<u64>) -> Seq<u64>
    decreases nodes.len(),
{
    if nodes.len() == 0 {
        Seq::empty()
    } else {
        let before = missing_nodes(nodes.drop_last(), node_id, members);
        let last = nodes.last();
        if last == node_id || members.contains(last) {
            before
        } else {
            before.push(last)
        }
    }
}

/// List the nodes that have to be added as learners.
pub fn missing_learners(nodes: &Vec<u64>, node_id: u64, members: &Vec<u64>) -> (r: Vec<u64>)
    ensures
        r@ == missing_nodes(nodes@, node_id, members@),
{
    let mut missing: Vec<u64> = Vec::new();
    let mut index: usize = 0;
    assert(nodes@.take(0) =~= Seq::<u64>::empty());
    while index < nodes.len()
        invariant
            index <= nodes@.len(),
            missing@ == missing_nodes(nodes@.take(index as int), node_id, members@),
        decreases nodes.len() - index,
    {
        assert(nodes@.take(index + 1).drop_last() =~= nodes@.take(index as int));
        let candidate: u64 = nodes[index];
        if candidate != node_id && !contains_id(members, candidate) {
            missing.push(candidate);
        }
        index = index + 1;
    }
    assert(nodes@.take(index as int) =~= nodes@);
    missing
}

/// What follows an attempt to change the membership.
#[derive(Debug, Clone, Copy, PartialEq, Eq, Structural)]
pub enum ChangeStep {
    /// Look at the voters.
    Look,
    /// Pause, then look at the voters.
    PauseAndLook,
}

/// What follows a look at the voters.
#[derive(Debug, Clone, Copy, PartialEq, Eq, Structural)]
pub enum ConvergeStep {
    /// The membership is as desired.
    Done,
    /// Change the membership again.
    TryAgain,
}

/// The error of a membership that did not converge in time.
pub open spec fn never_converged() -> BrokerErrorView {
    ambiguous_error(
        BrokerErrorCode::TransportError,
        "cluster membership did not converge to three voters before the deadline"@,
    )
}

/// What follows an attempt to change the membership. A failure is passed over until the deadline.
pub open spec fn change_step(change: Result<(), String>, deadline_passed: bool) -> Result<
    ChangeStep,
    BrokerErrorView,
> {
    match change {
        Ok(_) => Ok(ChangeStep::Look),
        Err(error) => if deadline_passed {
            Err(engine_failure(RaftMode::Cluster, "change cluster membership"@, error@))
        } else {
            Ok(ChangeStep::PauseAndLook)
        },
    }
}

/// Decide what follows an attempt to change the membership. `deadline_passed` says whether the
/// deadline had passed right after the attempt.
pub fn judge_change(change: Result<(), String>, deadline_passed: bool) -> (r: Result<
    ChangeStep,
    BrokerError,
>)
    ensures
        match (r, change_step(change, deadline_passed)) {
            (Ok(step), Ok(expected)) => step == expected,
            (Err(error), Err(failure)) => error@ == failure,
            _ => false,
        },
{
    match change {
        Ok(_) => Ok(ChangeStep::Look),
        Err(error) => {
            if deadline_passed {
                return Err(
                    raft_engine_error(
                        RaftMode::Cluster,
                        "change cluster membership",
                        error.as_str(),
                    ),
                );
            }
            Ok(ChangeStep::PauseAndLook)
        },
    }
}

/// What follows a look at the voters. The desired voters count before the deadline.
pub open spec fn converge_step(deadline_passed: bool, converged: bool) -> Result<
    ConvergeStep,
    BrokerErrorView,
> {
    if converged {
        Ok(ConvergeStep::Done)
    } else if deadline_passed {
        Err(never_converged())
    } else {
        Ok(ConvergeStep::TryAgain)
    }
}

/// Decide what follows a look at the voters, which comes after each change and after the pause that
/// a failed change asks for.
pub fn judge_voters(deadline_passed: bool, converged: bool) -> (r: Result<
    ConvergeStep,
    BrokerError,
>)
    ensures
        match (r, converge_step(deadline_passed, converged)) {
            (Ok(step), Ok(expected)) => step == expected,
            (Err(error), Err(failure)) => error@ == failure,
            _ => false,
        },
{
    if converged {
        return Ok(ConvergeStep::Done);
    }
    if deadline_passed {
        return Err(
            BrokerError::new(
                BrokerErrorCode::TransportError,
                "cluster membership did not converge to three voters before the deadline",
            ),
        );
    }
    Ok(ConvergeStep::TryAgain)
}

/// After the deadline no other change is made: a failed one ends the convergence, and a look either
/// finds the desired voters or gives up.
pub proof fn law_no_change_follows_the_deadline(change: Result<(), String>, converged: bool)
    ensures
        change is Err ==> change_step(change, true) is Err,
        converge_step(true, converged) != Ok::<_, BrokerErrorView>(ConvergeStep::TryAgain),
{
}

/// A bootstrap that finds the desired voters changes nothing, so that it can be repeated.
pub proof fn law_bootstrap_is_idempotent(node_id: u64, desired: Seq<u64>)
    ensures
        bootstrap_start(node_id, desired, Ok(true), desired) == Ok::<_, BrokerErrorView>(
            BootstrapStep::Done,
        ),
{
}

/// After the missing nodes were added, every node of the topology is a member or this member.
pub proof fn law_added_learners_complete_the_topology(
    nodes: Seq<u64>,
    node_id: u64,
    members: Seq<u64>,
    candidate: u64,
)
    requires
        nodes.contains(candidate),
    ensures
        candidate == node_id || members.contains(candidate) || missing_nodes(
            nodes,
            node_id,
            members,
        ).contains(candidate),
    decreases nodes.len(),
{
    if nodes.len() > 0 {
        let before = missing_nodes(nodes.drop_last(), node_id, members);
        let all = missing_nodes(nodes, node_id, members);
        if nodes.last() == candidate {
            if candidate != node_id && !members.contains(candidate) {
                assert(all.last() == candidate);
            }
        } else {
            let i = choose|i: int| 0 <= i < nodes.len() && nodes[i] == candidate;
            assert(nodes.drop_last()[i] == candidate);
            law_added_learners_complete_the_topology(
                nodes.drop_last(),
                node_id,
                members,
                candidate,
            );
            if before.contains(candidate) {
                let j = choose|j: int| 0 <= j < before.len() && before[j] == candidate;
                assert(all[j] == candidate);
            }
        }
    }
}

/// One step in the start of a cluster member whose engine and server run.
#[derive(Debug, Clone, Copy, PartialEq, Eq, Structural)]
pub enum ClusterStartStep {
    Bootstrap,
    AwaitApplied,
    SyncTerm,
    Run,
}

/// The step that follows `done`. `leads` says whether the member is the leader now.
pub open spec fn next_cluster_step(
    done: Option<ClusterStartStep>,
    bootstrap: bool,
    leads: bool,
) -> ClusterStartStep {
    match done {
        None => if bootstrap {
            ClusterStartStep::Bootstrap
        } else {
            ClusterStartStep::AwaitApplied
        },
        Some(ClusterStartStep::Bootstrap) => ClusterStartStep::AwaitApplied,
        Some(ClusterStartStep::AwaitApplied) => if leads {
            ClusterStartStep::SyncTerm
        } else {
            ClusterStartStep::Run
        },
        Some(ClusterStartStep::SyncTerm) => ClusterStartStep::Run,
        Some(ClusterStartStep::Run) => ClusterStartStep::Run,
    }
}

/// Decide the next step in the start of a cluster member.
pub fn cluster_start_step(done: Option<ClusterStartStep>, bootstrap: bool, leads: bool) -> (r:
    ClusterStartStep)
    ensures
        r == next_cluster_step(done, bootstrap, leads),
{
    match done {
        None => if bootstrap {
            ClusterStartStep::Bootstrap
        } else {
            ClusterStartStep::AwaitApplied
        },
        Some(ClusterStartStep::Bootstrap) => ClusterStartStep::AwaitApplied,
        Some(ClusterStartStep::AwaitApplied) => if leads {
            ClusterStartStep::SyncTerm
        } else {
            ClusterStartStep::Run
        },
        Some(ClusterStartStep::SyncTerm) => ClusterStartStep::Run,
        Some(ClusterStartStep::Run) => ClusterStartStep::Run,
    }
}

/// A member does not run before its committed entries were applied, and a leader not before its
/// term was brought in line.
pub proof fn law_members_run_only_when_caught_up(
    done: Option<ClusterStartStep>,
    bootstrap: bool,
    leads: bool,
)
    requires
        done != Some(ClusterStartStep::Run),
        next_cluster_step(done, bootstrap, leads) == ClusterStartStep::Run,
    ensures
        done == Some(ClusterStartStep::SyncTerm) || (done == Some(ClusterStartStep::AwaitApplied)
            && !leads),
{
}

/// One step in the start of a one-node group whose engine runs.
#[derive(Debug, Clone, Copy, PartialEq, Eq, Structural)]
pub enum OneNodeStartStep {
    Initialize,
    AwaitLeader,
    Elect,
    AwaitElected,
    AwaitApplied,
    SyncTerm,
    CheckRemote,
    Run,
}

/// The step that follows `done`, or `None` if the group cannot start. `initialized` says whether
/// the group was founded before, `leads` whether its node is the leader after a wait.
pub open spec fn next_one_node_step(
    done: Option<OneNodeStartStep>,
    initialized: bool,
    leads: bool,
) -> Option<OneNodeStartStep> {
    match done {
        None => if initialized {
            Some(OneNodeStartStep::AwaitLeader)
        } else {
            Some(OneNodeStartStep::Initialize)
        },
        Some(OneNodeStartStep::Initialize) => Some(OneNodeStartStep::AwaitLeader),
        Some(OneNodeStartStep::AwaitLeader) => if leads {
            Some(OneNodeStartStep::AwaitApplied)
        } else {
            Some(OneNodeStartStep::Elect)
        },
        Some(OneNodeStartStep::Elect) => Some(OneNodeStartStep::AwaitElected),
        Some(OneNodeStartStep::AwaitElected) => if leads {
            Some(OneNodeStartStep::AwaitApplied)
        } else {
            None
        },
        Some(OneNodeStartStep::AwaitApplied) => Some(OneNodeStartStep::SyncTerm),
        Some(OneNodeStartStep::SyncTerm) => Some(OneNodeStartStep::CheckRemote),
        Some(OneNodeStartStep::CheckRemote) => Some(OneNodeStartStep::Run),
        Some(OneNodeStartStep::Run) => Some(OneNodeStartStep::Run),
    }
}

/// Decide the next step in the start of a one-node group.
pub fn one_node_start_step(
    done: Option<OneNodeStartStep>,
    initialized: bool,
    leads: bool,
) -> (r: Result<OneNodeStartStep, BrokerError>)
    ensures
        match next_one_node_step(done, initialized, leads) {
            Some(step) => r == Ok::<OneNodeStartStep, BrokerError>(step),
            None => r matches Err(error) && error@ == one_node_leaderless(),
        },
{
    let step = match done {
        None => if initialized {
            OneNodeStartStep::AwaitLeader
        } else {
            OneNodeStartStep::Initialize
        },
        Some(OneNodeStartStep::Initialize) => OneNodeStartStep::AwaitLeader,
        Some(OneNodeStartStep::AwaitLeader) => if leads {
            OneNodeStartStep::AwaitApplied
        } else {
            OneNodeStartStep::Elect
        },
        Some(OneNodeStartStep::Elect) => OneNodeStartStep::AwaitElected,
        Some(OneNodeStartStep::AwaitElected) => {
            if !leads {
                return Err(one_node_leaderless_error());
            }
            OneNodeStartStep::AwaitApplied
        },
        Some(OneNodeStartStep::AwaitApplied) => OneNodeStartStep::SyncTerm,
        Some(OneNodeStartStep::SyncTerm) => OneNodeStartStep::CheckRemote,
        Some(OneNodeStartStep::CheckRemote) => OneNodeStartStep::Run,
        Some(OneNodeStartStep::Run) => OneNodeStartStep::Run,
    };
    Ok(step)
}

/// How many steps a start has left at most.
pub open spec fn one_node_steps_left(done: Option<OneNodeStartStep>) -> nat {
    match done {
        None => 8,
        Some(OneNodeStartStep::Initialize) => 7,
        Some(OneNodeStartStep::AwaitLeader) => 6,
        Some(OneNodeStartStep::Elect) => 5,
        Some(OneNodeStartStep::AwaitElected) => 4,
        Some(OneNodeStartStep::AwaitApplied) => 3,
        Some(OneNodeStartStep::SyncTerm) => 2,
        Some(OneNodeStartStep::CheckRemote) => 1,
        Some(OneNodeStartStep::Run) => 0,
    }
}

/// A start comes to an end, and before it runs it has applied its entries, synchronised its term
/// and checked that no other node was contacted.
pub proof fn law_one_node_starts_end(done: Option<OneNodeStartStep>, initialized: bool, leads: bool)
    requires
        done != Some(OneNodeStartStep::Run),
    ensures
        next_one_node_step(done, initialized, leads) matches Some(step) ==> one_node_steps_left(
            Some(step),
        ) < one_node_steps_left(done),
        next_one_node_step(done, initialized, leads) == Some(OneNodeStartStep::Run)
            ==> done == Some(
            OneNodeStartStep::CheckRemote,
        ),
        next_one_node_step(done, initialized, leads) == Some(OneNodeStartStep::CheckRemote)
            ==> done == Some(OneNodeStartStep::SyncTerm),
        next_one_node_step(done, initialized, leads) == Some(OneNodeStartStep::SyncTerm)
            ==> done == Some(OneNodeStartStep::AwaitApplied),
{
}

} // verus!
