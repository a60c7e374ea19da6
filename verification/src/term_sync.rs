//! Bringing the committed Broker term in line with the term of the Raft engine.
use crate::commands::{AdvanceTermCommand, BrokerCommand};
use crate::debug_form::{domain_result_form, domain_result_text};
use crate::domain::{zero_error, Term};
use crate::error::{ambiguous_error, BrokerError, BrokerErrorCode, BrokerErrorView};
use crate::raft_errors::{
    engine_failure, engine_stopped, internal_error, internal_fault, raft_engine_error,
    raft_fatal_error, RaftMode,
};
use crate::replicated_command::WireCommand;
use crate::replicated_proposal::ReplicatedBrokerProposalV1;
use crate::replicated_response::{
    application_error, response_finding, ReplicatedBrokerMutationResultV1,
    ReplicatedBrokerResponseV1,
};
use crate::text::{decimal, push_decimal};
use vstd::prelude::*;

verus! {

/// What has to be done before a command may be proposed.
#[derive(Debug, PartialEq, Eq)]
pub enum TermPlan {
    /// The Broker term is the Raft term.
    Synced,
    /// The Broker term has to be advanced by this proposal.
    Advance(ReplicatedBrokerProposalV1),
}

/// The text for a Raft term behind the Broker term.
pub open spec fn term_behind_text(mode: RaftMode, raft_term: u64, broker_term: u64) -> Seq<char> {
    (match mode {
        RaftMode::Cluster => "cluster Raft term "@,
        RaftMode::OneNode => "Raft term "@,
    }) + decimal(raft_term as nat) + " is behind committed Broker term "@ + decimal(
        broker_term as nat,
    )
}

/// What the Raft term and the committed Broker term ask for: nothing, or an advance from the Broker
/// term to the Raft term. An error stops the proposal.
pub open spec fn term_plan(
    mode: RaftMode,
    raft_term: Result<u64, Seq<char>>,
    broker_term: u64,
) -> Result<Option<(u64, u64)>, BrokerErrorView> {
    match raft_term {
        Err(error) => Err(engine_stopped(mode, error)),
        Ok(raft_term) => if broker_term == 0 {
            Err(ambiguous_error(BrokerErrorCode::InternalError, zero_error("Broker term"@)))
        } else if raft_term < broker_term {
            Err(
                ambiguous_error(
                    BrokerErrorCode::PersistenceError,
                    term_behind_text(mode, raft_term, broker_term),
                ),
            )
        } else if raft_term == broker_term {
            Ok(None)
        } else {
            Ok(Some((broker_term, raft_term)))
        },
    }
}

/// The error that the answer to a term advance leads to, or `None` if the term was advanced. A
/// domain result of another kind is written out.
pub open spec fn advance_failure(
    mode: RaftMode,
    answer: Result<ReplicatedBrokerResponseV1, Seq<char>>,
) -> Option<BrokerErrorView> {
    match answer {
        Err(error) => Some(engine_failure(mode, "term synchronization"@, error)),
        Ok(response) => match response_finding(response) {
            Some(finding) => Some(
                internal_fault(
                    match mode {
                        RaftMode::Cluster => "failed to decode cluster term response: "@,
                        RaftMode::OneNode => "failed to decode internal Raft term response: "@,
                    },
                    finding,
                ),
            ),
            None => match response {
                ReplicatedBrokerResponseV1::ApplicationError(error) => Some(
                    internal_fault(
                        match mode {
                            RaftMode::Cluster => "cluster term synchronization was rejected: "@,
                            RaftMode::OneNode => {
                                "Raft term synchronization was rejected by Broker state: "@
                            },
                        },
                        application_error(error).message,
                    ),
                ),
                ReplicatedBrokerResponseV1::Success(
                    ReplicatedBrokerMutationResultV1::TermAdvanced { .. },
                ) => None,
                ReplicatedBrokerResponseV1::Success(result) => Some(
                    internal_fault(
                        match mode {
                            RaftMode::Cluster => {
                                "cluster term synchronization returned unexpected result: "@
                            },
                            RaftMode::OneNode => {
                                "Raft term synchronization returned unexpected result: "@
                            },
                        },
                        domain_result_text(result),
                    ),
                ),
                _ => None,
            },
        },
    }
}

/// The plain values of an answer of the engine.
pub open spec fn term_text(term: Result<u64, String>) -> Result<u64, Seq<char>> {
    match term {
        Ok(value) => Ok(value),
        Err(error) => Err(error@),
    }
}

/// The plain values of an answer of the engine to a write.
pub open spec fn answer_text(answer: Result<ReplicatedBrokerResponseV1, String>) -> Result<
    ReplicatedBrokerResponseV1,
    Seq<char>,
> {
    match answer {
        Ok(response) => Ok(response),
        Err(error) => Err(error@),
    }
}

/// Decide how the Broker term is brought in line with the Raft term. `raft_term` is what the engine
/// reports, or why it has stopped.
pub fn plan_term_sync(
    mode: RaftMode,
    raft_term: Result<u64, String>,
    broker_term: u64,
) -> (r: Result<TermPlan, BrokerError>)
    ensures
        match (r, term_plan(mode, term_text(raft_term), broker_term)) {
            (Ok(TermPlan::Synced), Ok(None)) => true,
            (Ok(TermPlan::Advance(proposal)), Ok(Some((expected_term, new_term)))) => {
                &&& proposal.identity is None
                &&& proposal.command@ == (WireCommand::AdvanceTerm { expected_term, new_term })
            },
            (Err(error), Err(failure)) => error@ == failure,
            _ => false,
        },
{
    let raft_term: u64 = match raft_term {
        Ok(raft_term) => raft_term,
        Err(error) => return Err(raft_fatal_error(mode, error.as_str())),
    };
    let expected_term = match Term::new(broker_term) {
        Ok(term) => term,
        Err(error) => {
            return Err(
                BrokerError::new(BrokerErrorCode::InternalError, error.message().as_str()),
            );
        },
    };
    if raft_term < broker_term {
        let mut message = match mode {
            RaftMode::Cluster => "cluster Raft term ".to_owned(),
            RaftMode::OneNode => "Raft term ".to_owned(),
        };
        push_decimal(&mut message, raft_term);
        message.append(" is behind committed Broker term ");
        push_decimal(&mut message, broker_term);
        return Err(BrokerError::new(BrokerErrorCode::PersistenceError, message.as_str()));
    }
    if raft_term == broker_term {
        return Ok(TermPlan::Synced);
    }
    let new_term = match Term::new(raft_term) {
        Ok(term) => term,
        Err(error) => {
            let what = match mode {
                RaftMode::Cluster => "cluster Raft produced invalid Broker fencing term: ",
                RaftMode::OneNode => "Raft produced an invalid Broker fencing term: ",
            };
            return Err(internal_error(what, error.message().as_str()));
        },
    };
    let command = BrokerCommand::AdvanceTerm(AdvanceTermCommand { expected_term, new_term });
    Ok(TermPlan::Advance(ReplicatedBrokerProposalV1::from_command(&command)))
}

/// Judge the answer of the engine to a term advance.
pub fn conclude_term_sync(mode: RaftMode, answer: Result<ReplicatedBrokerResponseV1, String>) -> (r:
    Result<(), BrokerError>)
    ensures
        match r {
            Ok(_) => advance_failure(mode, answer_text(answer)) is None,
            Err(error) => advance_failure(mode, answer_text(answer)) == Some(error@),
        },
{
    let response = match answer {
        Ok(response) => response,
        Err(error) => {
            return Err(raft_engine_error(mode, "term synchronization", error.as_str()));
        },
    };
    match response.application_result() {
        Err(refusal) => {
            let what = match mode {
                RaftMode::Cluster => "failed to decode cluster term response: ",
                RaftMode::OneNode => "failed to decode internal Raft term response: ",
            };
            Err(internal_error(what, refusal.message()))
        },
        Ok(Ok(_)) => match &response {
            ReplicatedBrokerResponseV1::Success(
                ReplicatedBrokerMutationResultV1::TermAdvanced { .. },
            ) => Ok(()),
            ReplicatedBrokerResponseV1::Success(result) => {
                let what = match mode {
                    RaftMode::Cluster => {
                        "cluster term synchronization returned unexpected result: "
                    },
                    RaftMode::OneNode => "Raft term synchronization returned unexpected result: ",
                };
                Err(internal_error(what, domain_result_form(result).as_str()))
            },
            _ => Ok(()),
        },
        Ok(Err(error)) => {
            let what = match mode {
                RaftMode::Cluster => "cluster term synchronization was rejected: ",
                RaftMode::OneNode => "Raft term synchronization was rejected by Broker state: ",
            };
            Err(internal_error(what, error.message()))
        },
    }
}

/// A planned advance starts at the committed Broker term and ends above it, at the Raft term.
pub proof fn law_terms_only_move_forward(
    mode: RaftMode,
    raft_term: u64,
    broker_term: u64,
)
    ensures
        term_plan(mode, Ok(raft_term), broker_term) matches Ok(Some((expected_term, new_term)))
            ==> expected_term == broker_term && new_term == raft_term && new_term > expected_term,
{
}

/// Once the advance was applied, nothing is left to be done at the same Raft term.
pub proof fn law_an_advanced_term_is_synced(mode: RaftMode, raft_term: u64, broker_term: u64)
    requires
        term_plan(mode, Ok(raft_term), broker_term) is Ok,
    ensures
        term_plan(
            mode,
            Ok(raft_term),
            raft_term,
        ) == Ok::<Option<(u64, u64)>, BrokerErrorView>(None),
{
}

} // verus!
