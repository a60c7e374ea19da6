//! What holds of readiness documents, of the choice of a leader and of retries, whatever is asked.
use crate::client_error::{client_outcome, is_connection_failure, ClientError};
use crate::durable_client::{attempt_decision, AttemptDecision};
use crate::error::BrokerErrorDisposition;
use crate::json::{json_document, JsonView};
use crate::protocol::{ResponseDecodeError, SuccessPayload};
use crate::router::{allows_rediscovery, is_followed, routed_answer};
use crate::router_config::{
    is_finding, is_selection, probe_finding, readiness, ready_ids, router_flaw, ProbeReply,
    RoutingErrorView, StaticClusterNode, StaticClusterRouterConfig, StaticClusterRoutingError,
};
use vstd::prelude::*;

verus! {

/// A member of an object is the value of the first entry with its name. An object without such an
/// entry has no such member, and what is no object has no members.
pub proof fn law_members_are_first_entries(
    entries: Seq<(Seq<char>, JsonView)>,
    name: Seq<char>,
    index: int,
)
    requires
        0 <= index <= entries.len(),
        forall|i: int| 0 <= i < index ==> (#[trigger] entries[i]).0 != name,
        index < entries.len() ==> entries[index].0 == name,
    ensures
        JsonView::Object(entries).spec_get(name) == (if index < entries.len() {
            Some(entries[index].1)
        } else {
            None::<JsonView>
        }),
{
    lemma_first_entry(entries, name, 0, index);
}

proof fn lemma_first_entry(
    entries: Seq<(Seq<char>, JsonView)>,
    name: Seq<char>,
    from: int,
    index: int,
)
    requires
        0 <= from <= index <= entries.len(),
        forall|i: int| from <= i < index ==> (#[trigger] entries[i]).0 != name,
        index < entries.len() ==> entries[index].0 == name,
    ensures
        crate::json::find_key(entries, name, from) == (if index < entries.len() {
            Some(index)
        } else {
            None::<int>
        }),
    decreases index - from,
{
    if from < index {
        lemma_first_entry(entries, name, from + 1, index);
    }
}

/// The header that every readiness document has to carry.
pub open spec fn is_readiness_document(document: JsonView) -> bool {
    &&& document is Object
    &&& document.spec_get("schema_version"@) == Some(JsonView::Number(Some(1u64)))
    &&& document.spec_get("operation"@) == Some(JsonView::Text("readiness"@))
}

/// A readiness document that says it is not write-ready is no leader and no error, for every node
/// and whatever else it says.
pub proof fn law_a_node_that_is_not_ready_is_no_error(node_id: u64, document: JsonView)
    requires
        is_readiness_document(document),
        document.spec_get("write_ready"@) == Some(JsonView::Bool(false)),
    ensures
        readiness(node_id, document) == Ok::<bool, Seq<char>>(false),
{
}

/// A document proves the leadership of a node exactly when it claims readiness in every part and
/// its progress names that node as reporter and as leader.
pub proof fn law_leadership_is_proved_by_every_part(node_id: u64, document: JsonView)
    ensures
        readiness(node_id, document) == Ok::<bool, Seq<char>>(true) <==> {
            &&& is_readiness_document(document)
            &&& document.spec_get("write_ready"@) == Some(JsonView::Bool(true))
            &&& document.spec_get("live"@) == Some(JsonView::Bool(true))
            &&& document.spec_get("reason"@) == Some(JsonView::Text("ready"@))
            &&& document.spec_get("maintenance_authority"@) == Some(JsonView::Bool(true))
            &&& document.spec_get("consensus"@) matches Some(consensus)
            &&& consensus is Object
            &&& consensus.spec_get("status"@) == Some(JsonView::Text("ready"@))
            &&& consensus.spec_get("write_ready"@) == Some(JsonView::Bool(true))
            &&& consensus.spec_get("progress"@) matches Some(progress)
            &&& progress is Object
            &&& progress.spec_get("node_id"@) == Some(JsonView::Number(Some(node_id)))
            &&& progress.spec_get("current_leader"@) == Some(JsonView::Number(Some(node_id)))
        },
{
}

/// A document is accepted as not ready only if it is a readiness document that says so.
pub proof fn law_only_a_denial_is_not_ready(node_id: u64, document: JsonView)
    requires
        readiness(node_id, document) == Ok::<bool, Seq<char>>(false),
    ensures
        is_readiness_document(document),
        document.spec_get("write_ready"@) == Some(JsonView::Bool(false)),
{
}

/// A document that does not claim readiness is judged alike for all nodes.
pub proof fn law_only_claims_depend_on_the_node(first: u64, second: u64, document: JsonView)
    requires
        document.spec_get("write_ready"@) != Some(JsonView::Bool(true)),
    ensures
        readiness(first, document) == readiness(second, document),
{
}

/// A node that cannot be reached is not ready, and an answer over the bound is an error.
pub proof fn law_silence_is_not_ready(node_id: u64)
    ensures
        probe_finding(node_id, ProbeReply::Unavailable) == Ok::<bool, Seq<char>>(false),
        probe_finding(node_id, ProbeReply::FrameTooLarge) is Err,
{
}

/// A finding is reported as it is: readiness as readiness, and a refusal as one of that node.
pub proof fn law_findings_are_reported(
    node_id: u64,
    finding: Result<bool, Seq<char>>,
    r: Result<bool, StaticClusterRoutingError>,
)
    requires
        is_finding(node_id, finding, r),
    ensures
        match r {
            Ok(ready) => finding == Ok::<bool, Seq<char>>(ready),
            Err(error) => finding matches Err(reason) && error@
                == (RoutingErrorView::InvalidOperationsResponse { node_id, reason }),
        },
{
}

proof fn lemma_none_ready(nodes: Seq<StaticClusterNode>, ready: Seq<bool>)
    requires
        nodes.len() == ready.len(),
        forall|i: int| 0 <= i < ready.len() ==> !(#[trigger] ready[i]),
    ensures
        ready_ids(nodes, ready) == Seq::<u64>::empty(),
    decreases nodes.len(),
{
    if nodes.len() > 0 {
        lemma_none_ready(nodes.drop_last(), ready.drop_last());
        assert(!ready[ready.len() - 1]);
    }
}

proof fn lemma_one_ready(nodes: Seq<StaticClusterNode>, ready: Seq<bool>, leader: int)
    requires
        nodes.len() == ready.len(),
        0 <= leader < nodes.len(),
        ready[leader],
        forall|i: int| 0 <= i < ready.len() && i != leader ==> !(#[trigger] ready[i]),
    ensures
        ready_ids(nodes, ready).len() == 1,
    decreases nodes.len(),
{
    if leader == nodes.len() - 1 {
        lemma_none_ready(nodes.drop_last(), ready.drop_last());
    } else {
        assert(!ready[ready.len() - 1]);
        lemma_one_ready(nodes.drop_last(), ready.drop_last(), leader);
    }
}

/// Where exactly one node is ready, that node is selected.
pub proof fn law_the_one_ready_node_is_selected(
    nodes: Seq<StaticClusterNode>,
    ready: Seq<bool>,
    leader: int,
    r: Result<StaticClusterNode, StaticClusterRoutingError>,
)
    requires
        nodes.len() == ready.len(),
        0 <= leader < nodes.len(),
        ready[leader],
        forall|i: int| 0 <= i < ready.len() && i != leader ==> !(#[trigger] ready[i]),
        is_selection(nodes, ready, r),
    ensures
        r == Ok::<StaticClusterNode, StaticClusterRoutingError>(nodes[leader]),
{
    lemma_one_ready(nodes, ready, leader);
    if r is Ok {
        let i = choose|i: int| 0 <= i < nodes.len() && ready[i] && nodes[i] == r->Ok_0;
        assert(i == leader);
    }
}

/// Where no node is ready there is no leader.
pub proof fn law_no_ready_node_is_no_leader(
    nodes: Seq<StaticClusterNode>,
    ready: Seq<bool>,
    r: Result<StaticClusterNode, StaticClusterRoutingError>,
)
    requires
        nodes.len() == ready.len(),
        forall|i: int| 0 <= i < ready.len() ==> !(#[trigger] ready[i]),
        is_selection(nodes, ready, r),
    ensures
        r matches Err(error) && error@ == RoutingErrorView::NoWriteReadyLeader,
{
    lemma_none_ready(nodes, ready);
}

proof fn lemma_listed(nodes: Seq<StaticClusterNode>, ready: Seq<bool>, i: int)
    requires
        nodes.len() == ready.len(),
        0 <= i < nodes.len(),
        ready[i],
    ensures
        ready_ids(nodes, ready).contains(nodes[i].node_id),
    decreases nodes.len(),
{
    let before = ready_ids(nodes.drop_last(), ready.drop_last());
    let all = ready_ids(nodes, ready);
    if i == nodes.len() - 1 {
        assert(all[all.len() - 1] == nodes[i].node_id);
    } else {
        lemma_listed(nodes.drop_last(), ready.drop_last(), i);
        let k = choose|k: int| 0 <= k < before.len() && before[k] == nodes[i].node_id;
        assert(all[k] == nodes[i].node_id);
    }
}

/// Two ready nodes are never resolved to one: the error names them both.
pub proof fn law_two_ready_nodes_are_refused(
    nodes: Seq<StaticClusterNode>,
    ready: Seq<bool>,
    first: int,
    second: int,
    r: Result<StaticClusterNode, StaticClusterRoutingError>,
)
    requires
        nodes.len() == ready.len(),
        0 <= first < nodes.len(),
        0 <= second < nodes.len(),
        nodes[first].node_id != nodes[second].node_id,
        ready[first],
        ready[second],
        is_selection(nodes, ready, r),
    ensures
        r matches Err(error) && (error@ matches RoutingErrorView::MultipleWriteReadyLeaders(ids)
            && ids.contains(nodes[first].node_id) && ids.contains(nodes[second].node_id)),
{
    lemma_listed(nodes, ready, first);
    lemma_listed(nodes, ready, second);
    let ids = ready_ids(nodes, ready);
    if ids.len() == 1 {
        let a = choose|k: int| 0 <= k < ids.len() && ids[k] == nodes[first].node_id;
        let b = choose|k: int| 0 <= k < ids.len() && ids[k] == nodes[second].node_id;
        assert(a == b);
    }
}

/// A topology is accepted exactly when its timeout is positive, its bound is within 4096 and
/// 1048576 bytes, every node has a positive id and two different loopback endpoints, and no two
/// nodes share an id or an endpoint.
pub proof fn law_accepted_topologies(config: StaticClusterRouterConfig)
    ensures
        router_flaw(config) is None <==> {
            &&& config.timeout@ > 0
            &&& 4096 <= config.max_response_frame_bytes <= 1_048_576
            &&& forall|i: int|
                0 <= i < 3 ==> {
                    let node = #[trigger] config.nodes@[i];
                    &&& node.node_id > 0
                    &&& node.broker_address.spec_is_loopback()
                    &&& node.operations_address.spec_is_loopback()
                    &&& node.broker_address != node.operations_address
                }
            &&& forall|i: int, j: int|
                #![trigger config.nodes@[i], config.nodes@[j]]
                0 <= i < 3 && 0 <= j < 3 && i != j ==> {
                    &&& config.nodes@[i].node_id != config.nodes@[j].node_id
                    &&& config.nodes@[i].broker_address != config.nodes@[j].broker_address
                    &&& config.nodes@[i].operations_address != config.nodes@[j].operations_address
                }
        },
{
    let nodes = config.nodes@;
    if router_flaw(config) is None {
        assert forall|i: int, j: int|
            #![trigger nodes[i], nodes[j]]
            0 <= i < 3 && 0 <= j < 3 && i != j implies {
            &&& nodes[i].node_id != nodes[j].node_id
            &&& nodes[i].broker_address != nodes[j].broker_address
            &&& nodes[i].operations_address != nodes[j].operations_address
        } by {
            assert(!crate::router_config::collide(nodes[i], nodes[j]) || j < i);
            assert(!crate::router_config::collide(nodes[j], nodes[i]) || i < j);
        }
    } else {
        let accepted = config.timeout@ > 0 && 4096 <= config.max_response_frame_bytes <= 1_048_576;
        if accepted && crate::router_config::node_flaw(nodes[0]) is None
            && crate::router_config::node_flaw(nodes[1]) is None
            && crate::router_config::node_flaw(nodes[2]) is None {
            let (i, j) = choose|i: int, j: int|
                0 <= i < j < 3 && #[trigger] crate::router_config::collide(nodes[i], nodes[j]);
            assert(nodes[i] == config.nodes@[i] && nodes[j] == config.nodes@[j]);
        }
    }
}

/// Another attempt follows an answer exactly when the leader was found, the outcome is a lost
/// exchange or an unknown Broker outcome, and attempts are left.
pub proof fn law_attempts_follow_unknown_outcomes<P>(
    answer: Result<Result<P, ClientError>, StaticClusterRoutingError>,
    attempt: usize,
    max_attempts: usize,
)
    ensures
        is_followed(answer, attempt, max_attempts) <==> {
            &&& attempt < max_attempts
            &&& match answer {
                Ok(Err(ClientError::Transport(_))) => true,
                Ok(Err(ClientError::Broker(error))) => error@.disposition
                    == BrokerErrorDisposition::Unknown,
                _ => false,
            }
        },
{
}

/// A failure allows another leader exactly when its outcome is unknown.
pub proof fn law_unknown_outcomes_allow_rediscovery(error: ClientError)
    ensures
        match error {
            ClientError::Transport(_) => allows_rediscovery(error),
            ClientError::Broker(refusal) => allows_rediscovery(error) == (refusal@.disposition
                == BrokerErrorDisposition::Unknown),
            ClientError::Protocol(_) => !allows_rediscovery(error),
            ClientError::UnexpectedPayload(_) => !allows_rediscovery(error),
            ClientError::RequestIdExhausted => !allows_rediscovery(error),
        },
{
}

/// A router reports the value of a successful answer and the error of a failed one, and nothing
/// else.
pub proof fn law_routed_answers_are_passed_on<P>(
    answer: Result<Result<P, ClientError>, StaticClusterRoutingError>,
)
    ensures
        match routed_answer(answer) {
            Ok(value) => answer matches Ok(Ok(found)) && found == value,
            Err(StaticClusterRoutingError::Client(error)) => (answer matches Ok(Err(found)) && found
                == error) || (answer matches Err(StaticClusterRoutingError::Client(found)) && found
                == error),
            Err(error) => answer matches Err(found) && found == error,
        },
{
}

/// Every outcome of an attempt is settled: what the Broker has stored is acknowledged, what it has
/// rejected is released, and what is unknown is sent again or kept.
pub proof fn law_outcomes_settle_the_reservation(
    outcome: Result<SuccessPayload, ClientError>,
    attempt: usize,
    max_attempts: usize,
)
    ensures
        ({
            let decision = attempt_decision(outcome, attempt, max_attempts);
            match outcome {
                Ok(_) => decision == AttemptDecision::Acknowledge,
                Err(ClientError::Broker(error)) => {
                    &&& error@.disposition == BrokerErrorDisposition::Committed ==> decision
                        == AttemptDecision::Acknowledge
                    &&& error@.disposition == BrokerErrorDisposition::Rejected ==> decision
                        == AttemptDecision::Release
                    &&& error@.disposition == BrokerErrorDisposition::Unknown && attempt
                        < max_attempts ==> decision == AttemptDecision::Retry
                    &&& error@.disposition == BrokerErrorDisposition::Unknown && attempt
                        >= max_attempts ==> decision == AttemptDecision::Report
                },
                Err(ClientError::Transport(_)) => if attempt < max_attempts {
                    decision == AttemptDecision::Retry
                } else {
                    decision == AttemptDecision::Report
                },
                Err(_) => decision == AttemptDecision::Report,
            }
        }),
{
}

/// A decoded answer is passed on: a payload as it is, a Broker refusal as one of the Broker, and an
/// unreadable answer as one of the protocol. Only a lost or unreadable exchange closes the
/// connection.
pub proof fn law_decoded_answers_are_passed_on<P>(decoded: Result<P, ResponseDecodeError>)
    ensures
        match decoded {
            Ok(payload) => {
                &&& client_outcome(decoded) == Ok::<P, ClientError>(payload)
                &&& !is_connection_failure(client_outcome(decoded))
            },
            Err(ResponseDecodeError::Broker(error)) => {
                &&& client_outcome(decoded) == Err::<P, _>(ClientError::Broker(error))
                &&& !is_connection_failure(client_outcome(decoded))
            },
            Err(ResponseDecodeError::Protocol(error)) => {
                &&& client_outcome(decoded) == Err::<P, _>(ClientError::Protocol(error))
                &&& is_connection_failure(client_outcome(decoded))
            },
        },
{
}

/// What a node that is no leader may answer: nothing, or a readiness document that says so.
pub open spec fn is_follower_reply(reply: ProbeReply) -> bool {
    match reply {
        ProbeReply::Unavailable => true,
        ProbeReply::FrameTooLarge => false,
        ProbeReply::Frame(frame) => match json_document(frame@) {
            Ok(document) => is_readiness_document(document) && document.spec_get("write_ready"@)
                == Some(JsonView::Bool(false)),
            Err(_) => false,
        },
    }
}

/// Where one node proves its leadership and every other node is silent or says that it is not
/// ready, whatever reason it gives, that node is selected.
pub proof fn law_followers_do_not_hinder_the_leader(
    nodes: Seq<StaticClusterNode>,
    replies: Seq<ProbeReply>,
    ready: Seq<bool>,
    leader: int,
    r: Result<StaticClusterNode, StaticClusterRoutingError>,
)
    requires
        nodes.len() == replies.len(),
        nodes.len() == ready.len(),
        0 <= leader < nodes.len(),
        probe_finding(nodes[leader].node_id, replies[leader]) == Ok::<bool, Seq<char>>(true),
        forall|i: int|
            0 <= i < nodes.len() && i != leader ==> is_follower_reply(#[trigger] replies[i]),
        forall|i: int|
            0 <= i < nodes.len() && probe_finding((#[trigger] nodes[i]).node_id, replies[i]) is Ok
                ==> probe_finding(nodes[i].node_id, replies[i]) == Ok::<bool, Seq<char>>(ready[i]),
        is_selection(nodes, ready, r),
    ensures
        r == Ok::<StaticClusterNode, StaticClusterRoutingError>(nodes[leader]),
{
    assert(nodes[leader].node_id == nodes[leader].node_id);
    assert forall|i: int| 0 <= i < ready.len() && i != leader implies !(#[trigger] ready[i]) by {
        let node = nodes[i];
        law_follower_replies_are_not_ready(node.node_id, replies[i]);
    }
    law_the_one_ready_node_is_selected(nodes, ready, leader, r);
}

/// A node that is silent or says that it is not ready is found not ready.
pub proof fn law_follower_replies_are_not_ready(node_id: u64, reply: ProbeReply)
    requires
        is_follower_reply(reply),
    ensures
        probe_finding(node_id, reply) == Ok::<bool, Seq<char>>(false),
{
    if let ProbeReply::Frame(frame) = reply {
        law_a_node_that_is_not_ready_is_no_error(node_id, json_document(frame@)->Ok_0);
    }
}

/// Why a document is refused: the first part that it lacks is named.
pub proof fn law_refused_documents_name_what_they_lack(node_id: u64, document: JsonView)
    ensures
        !(document is Object) ==> readiness(node_id, document) == Err::<bool, Seq<char>>(
            "response must be a JSON object"@,
        ),
        document is Object && !is_readiness_document(document) ==> readiness(node_id, document)
            == Err::<bool, Seq<char>>("schema_version/operation mismatch"@),
        is_readiness_document(document) && !(document.spec_get("write_ready"@) matches Some(
            JsonView::Bool(_),
        ))
            ==> readiness(node_id, document) == Err::<bool, Seq<char>>(
                "write_ready must be boolean"@,
            ),
{
}

/// A frame that is no JSON is refused, and so is one over the bound.
pub proof fn law_unreadable_frames_are_refused(node_id: u64, frame: Vec<u8>)
    ensures
        json_document(frame@) matches Err(error) ==> probe_finding(
            node_id,
            ProbeReply::Frame(frame),
        ) == Err::<bool, Seq<char>>("invalid JSON: "@ + error),
        json_document(frame@) matches Ok(document) ==> probe_finding(
            node_id,
            ProbeReply::Frame(frame),
        ) == readiness(node_id, document),
{
}

} // verus!
