//! What refusals and forms say: for all values, the text holds those values in their places.
use crate::client_config::{is_invalid_request, RequestSource};
use crate::client_error::ClientError;
use crate::cluster_config::{
    engine_refusal, identified_write_flaw, rpc_connect_flaw, snapshot_policy_flaw, timing_flaw,
    topology_flaw, AdvertisedAddress, RaftTiming,
};
use crate::cluster_readiness::ClusterRaftReadinessStatus;
use crate::cluster_tls::{
    anchors_of, certificate_file_text, certificates_in, client_flaw, key_file_text, key_in,
    material_of, pins_of, server_flaw, server_name_text, setup_of, tls_config_flaw, TlsConfigView,
    TlsFiles, TlsMaterialView,
};
use crate::command_identity::IdentityView;
use crate::command_sessions::SessionView;
use crate::debug_form::{
    domain_fields, domain_metadata_text, fields_text, metadata_text, quoted_text, result_fields,
    result_kind, result_text, status_text,
};
use crate::domain::TextKind;
use crate::engine_laws::ends_with;
use crate::error::BrokerErrorCode;
use crate::one_node::{one_node_leaderless, remote_attempted, OneNodePhase};
use crate::raft_adapters::{adapter_stopped, term_is_owned};
use crate::raft_controller::{fault_text, ControllerFault};
use crate::raft_errors::{
    engine_failure, engine_stopped, internal_fault, not_leader, storage_failure, RaftMode,
};
use crate::raft_proposal::deadline_text;
use crate::raft_startup::{never_converged, never_led, not_applied_in_time};
use crate::replicated_command::{
    client_request, count_finding, term_finding, text_finding, WireCommand,
};
use crate::replicated_response::{
    response_text_finding, ReplicatedBrokerMutationResultV1, ReplicatedMutationMetadataV1,
    ReplicatedTaskStatusV1,
};
use crate::router::{is_refusal, node_client_config};
use crate::router_config::{
    joined_numbers, listed, router_flaw, RoutingErrorView, StaticClusterNode,
    StaticClusterRouterConfig, StaticClusterRoutingError,
};
use crate::service::unexpected_result_error;
use crate::session_rules::{acquisition, admission, AcquisitionView, AdmissionView};
use crate::session_state::wrong_epoch_text;
use crate::standalone::fail_stopped_error;
use crate::term_sync::term_behind_text;
use crate::text::decimal;
use crate::tls_crypto::{
    pem_certificate_list, pem_private_key_of, PrivateKeyView, TlsSetupFailure, TlsVersionView,
};
use vstd::prelude::*;

verus! {

/// A command of a known session that is refused is told which session it is about and what does not
/// fit: the epoch, the instance, an older sequence, another content or a sequence that does not
/// start over.
pub proof fn law_what_known_sessions_say(
    sessions: Map<Seq<char>, SessionView>,
    identity: IdentityView,
    command: WireCommand,
)
    requires
        sessions.dom().contains(identity.session_id),
    ensures
        ({
            let record = sessions[identity.session_id];
            let told = admission(sessions, identity, command);
            if identity.owner_epoch != record.owner_epoch {
                told == AdmissionView::Reject(
                    BrokerErrorCode::StaleFence,
                    "command session "@ + identity.session_id + " owner epoch "@ + decimal(
                        identity.owner_epoch as nat,
                    ) + " does not match broker-authoritative epoch "@ + decimal(
                        record.owner_epoch as nat,
                    ),
                )
            } else if identity.owner_instance_id != record.owner_instance_id {
                told == AdmissionView::Reject(
                    BrokerErrorCode::StaleFence,
                    "command session "@ + identity.session_id
                        + " owner instance does not match broker-authoritative owner instance"@,
                )
            } else {
                match record.last_outcome {
                    None => identity.sequence != 1 ==> told == AdmissionView::Reject(
                        BrokerErrorCode::StaleFence,
                        "new owner epoch "@ + decimal(identity.owner_epoch as nat)
                            + " for session "@ + identity.session_id
                            + " must restart command_sequence at 1, got "@ + decimal(
                            identity.sequence as nat,
                        ),
                    ),
                    Some(outcome) => {
                        &&& identity.sequence < outcome.sequence ==> told == AdmissionView::Reject(
                            BrokerErrorCode::StaleFence,
                            "command_sequence "@ + decimal(identity.sequence as nat)
                                + " is older than committed sequence "@ + decimal(
                                outcome.sequence as nat,
                            ) + " for session "@ + identity.session_id,
                        )
                        &&& identity.sequence == outcome.sequence && client_request(command)
                            != client_request(outcome.command) ==> told == AdmissionView::Reject(
                            BrokerErrorCode::Conflict,
                            "command_sequence "@ + decimal(identity.sequence as nat)
                                + " for session "@ + identity.session_id
                                + " is already committed with different command content"@,
                        )
                    },
                }
            }
        }),
{
}

/// A command of a new session that is refused is told why the session cannot begin so.
pub proof fn law_what_new_sessions_say(
    sessions: Map<Seq<char>, SessionView>,
    identity: IdentityView,
    command: WireCommand,
)
    requires
        !sessions.dom().contains(identity.session_id),
    ensures
        ({
            let told = admission(sessions, identity, command);
            if identity.owner_epoch != 1 {
                told == AdmissionView::Reject(
                    BrokerErrorCode::StaleFence,
                    "new command session "@ + identity.session_id
                        + " must begin at broker-authoritative owner epoch 1, got "@ + decimal(
                        identity.owner_epoch as nat,
                    ),
                )
            } else if identity.owner_instance_id is Some {
                told == AdmissionView::Reject(
                    BrokerErrorCode::StaleFence,
                    "new command session "@ + identity.session_id
                        + " cannot self-authorize an owner instance before broker acquisition"@,
                )
            } else if sessions.dom().len() >= 4096 {
                told == AdmissionView::Reject(
                    BrokerErrorCode::CapacityExceeded,
                    "command session capacity reached: max 4096 active sessions"@,
                )
            } else {
                told == AdmissionView::Apply
            }
        }),
{
}

/// A refused acquisition is told which epoch the session has, that its epochs are exhausted, or why
/// the session cannot begin so.
pub proof fn law_what_refused_acquisitions_say(
    sessions: Map<Seq<char>, SessionView>,
    session_id: Seq<char>,
    expected: u64,
    instance: Seq<char>,
    code: BrokerErrorCode,
    message: Seq<char>,
)
    requires
        acquisition(sessions, session_id, expected, instance) == AcquisitionView::Reject(
            code,
            message,
        ),
    ensures
        if sessions.dom().contains(session_id) {
            let epoch = sessions[session_id].owner_epoch;
            if epoch != expected {
                message == "command session "@ + session_id + " expected owner epoch "@ + decimal(
                    expected as nat,
                ) + " but broker-authoritative epoch is "@ + decimal(epoch as nat)
            } else {
                message == "command session "@ + session_id + " owner epoch is exhausted"@
            }
        } else if expected != 1 {
            message == "new command session "@ + session_id
                + " must begin at broker-authoritative owner epoch 1, got "@ + decimal(
                expected as nat,
            )
        } else {
            message == "command session capacity reached: max 4096 active sessions"@
        },
{
}

/// An epoch that cannot answer an acquisition, a term that is behind and a command past its
/// deadline are told with their numbers.
pub proof fn law_what_odd_numbers_say(
    expected: u64,
    actual: u64,
    session_id: Seq<char>,
    sequence: u64,
    mode: RaftMode,
)
    ensures
        wrong_epoch_text(expected, actual) == "Broker returned owner epoch "@ + decimal(
            actual as nat,
        ) + " for expected epoch "@ + decimal(expected as nat),
        ends_with(
            term_behind_text(mode, actual, expected),
            "Raft term "@ + decimal(actual as nat) + " is behind committed Broker term "@ + decimal(
                expected as nat,
            ),
        ),
        ends_with(
            deadline_text(session_id, sequence),
            "session="@ + session_id + " sequence="@ + decimal(sequence as nat),
        ),
{
    reveal_strlit("cluster Raft term ");
    reveal_strlit("Raft term ");
    let behind = term_behind_text(mode, actual, expected);
    let tail = "Raft term "@ + decimal(actual as nat) + " is behind committed Broker term "@
        + decimal(expected as nat);
    assert("cluster Raft term "@.skip(8) =~= "Raft term "@);
    assert(behind.skip(behind.len() - tail.len()) =~= tail);
    reveal_strlit("identified mutation response deadline elapsed after submission: session=");
    reveal_strlit("session=");
    let late = deadline_text(session_id, sequence);
    let tail = "session="@ + session_id + " sequence="@ + decimal(sequence as nat);
    let start = "identified mutation response deadline elapsed after submission: session="@;
    assert(start.skip(start.len() - 8) =~= "session="@);
    assert(late.skip(late.len() - tail.len()) =~= tail);
}

/// Every flaw of a member configuration has its own words.
pub proof fn law_what_flawed_configurations_say(
    node_id: u64,
    nodes: Map<u64, AdvertisedAddress>,
    interval: u64,
    lag_threshold: u64,
    timeout: nat,
    timing: RaftTiming,
    tls: TlsConfigView,
)
    ensures
        node_id == 0 ==> topology_flaw(node_id, nodes) == Some(
            "cluster Raft node_id must be greater than zero"@,
        ),
        node_id > 0 && nodes.len() != 3 ==> topology_flaw(node_id, nodes) == Some(
            "initial Agent Broker cluster topology must contain exactly three nodes"@,
        ),
        node_id > 0 && nodes.len() == 3 && !nodes.contains_key(node_id) ==> topology_flaw(
            node_id,
            nodes,
        ) == Some("cluster Raft topology does not contain the local node_id"@),
        interval == 0 ==> snapshot_policy_flaw(interval, lag_threshold) == Some(
            "cluster Raft snapshot log interval must be greater than zero"@,
        ),
        interval > 0 && lag_threshold <= interval ==> snapshot_policy_flaw(interval, lag_threshold)
            == Some(
            "cluster Raft replication lag threshold must exceed the snapshot log interval"@,
        ),
        identified_write_flaw(timeout) is Some ==> identified_write_flaw(timeout) == Some(
            "cluster identified write timeout must be between 1ns and 60s"@,
        ),
        rpc_connect_flaw(timeout) is Some ==> rpc_connect_flaw(timeout) == Some(
            "cluster Raft RPC connect timeout must be between 1ns and 30s"@,
        ),
        timing.election_timeout_min_ms >= timing.election_timeout_max_ms ==> timing_flaw(timing)
            == Some("cluster election_timeout_min must be below election_timeout_max"@),
        timing.election_timeout_min_ms < timing.election_timeout_max_ms
            && timing.election_timeout_min_ms <= timing.heartbeat_interval_ms
                ==> timing_flaw(timing)
            == Some("cluster election_timeout_min must be greater than heartbeat_interval"@),
        tls.directory.len() == 0 ==> tls_config_flaw(tls) == Some(
            "cluster Raft TLS directory must not be empty"@,
        ),
        tls.directory.len() > 0 && (tls.handshake_timeout == 0 || tls.handshake_timeout
            > 30_000_000_000) ==> tls_config_flaw(tls) == Some(
            "cluster Raft TLS handshake timeout must be between 1ns and 30s"@,
        ),
{
}

/// The files and the name of a node are told apart by what stands behind its number.
pub proof fn law_how_nodes_are_named(node_id: u64)
    ensures
        certificate_file_text(node_id) == "node-"@ + decimal(node_id as nat) + ".pem"@,
        key_file_text(node_id) == "node-"@ + decimal(node_id as nat) + "-key.pem"@,
        server_name_text(node_id) == "node-"@ + decimal(node_id as nat)
            + ".agent-broker.internal"@,
{
}

/// A certificate file is read exactly when it is there and its text is proper, and a key file when
/// it holds a key besides.
pub proof fn law_which_tls_files_are_read(file: Option<Vec<u8>>)
    ensures
        match certificates_in(file) {
            Ok(certificates) => file is Some
                && pem_certificate_list(file->0@) == Some(certificates),
            Err(_) => file is None || pem_certificate_list(file->0@) is None,
        },
        match key_in(file) {
            Ok(key) => file is Some && pem_private_key_of(file->0@) == Some(Some(key)),
            Err(_) => file is None || pem_private_key_of(file->0@) is None || pem_private_key_of(
                file->0@,
            ) == Some(None::<PrivateKeyView>),
        },
{
}

/// Both sides of a connection speak TLS 1.3 only, demand a certificate of their peer, trust the
/// anchors of the bundle and show the chain of the member.
pub proof fn law_connections_are_mutual(material: TlsMaterialView)
    ensures
        setup_of(material).versions == seq![TlsVersionView::Tls13],
        setup_of(material).demands_peer_certificate,
        setup_of(material).anchors == material.anchors,
        setup_of(material).chain == material.chain,
        setup_of(material).key == material.key,
{
}

/// A setup that fails is told by what failed.
pub proof fn law_what_failed_setups_say(failure: TlsSetupFailure)
    ensures
        failure is Protocol ==> client_flaw(failure)
            == "cluster Raft TLS client protocol configuration failed"@ && server_flaw(failure)
            == "cluster Raft TLS server protocol configuration failed"@,
        !(failure is Protocol) ==> client_flaw(failure)
            == "cluster Raft TLS client identity is invalid"@,
        failure is Identity ==> server_flaw(failure)
            == "cluster Raft TLS server identity is invalid"@,
        failure is Verifier ==> server_flaw(failure)
            == "cluster Raft TLS client verifier configuration failed"@,
{
}

/// The client of a node speaks to its Broker endpoint within the limits of the router.
pub proof fn law_clients_of_nodes_keep_the_limits(
    config: StaticClusterRouterConfig,
    node: StaticClusterNode,
)
    ensures
        node_client_config(config, node).address == node.broker_address,
        node_client_config(config, node).timeout == config.timeout,
        node_client_config(config, node).max_response_frame_bytes
            == config.max_response_frame_bytes,
{
}

/// Every flaw of a topology has its own words.
pub proof fn law_what_flawed_topologies_say(config: StaticClusterRouterConfig)
    ensures
        config.timeout@ == 0 ==> router_flaw(config) == Some(
            "static cluster router timeout must be positive"@,
        ),
        config.timeout@ > 0 && !(4096 <= config.max_response_frame_bytes <= 1_048_576)
            ==> router_flaw(config) == Some(
            "static cluster router max_response_frame_bytes must be in 4096..=1048576"@,
        ),
        config.timeout@ > 0 && 4096 <= config.max_response_frame_bytes <= 1_048_576
            && config.nodes@[0].node_id == 0 ==> router_flaw(config) == Some(
            "static cluster node_id must be positive"@,
        ),
{
}

/// A malformed answer is told as one of its node, with its reason.
pub proof fn law_malformed_answers_name_their_node(
    node_id: u64,
    reason: Seq<char>,
    r: Result<StaticClusterNode, StaticClusterRoutingError>,
)
    requires
        is_refusal(node_id, reason, r),
    ensures
        r matches Err(error) && error@ == (RoutingErrorView::InvalidOperationsResponse {
            node_id,
            reason,
        }),
{
}

/// An invalid request is told with its reason.
pub proof fn law_invalid_requests_are_told_with_their_reason(error: ClientError, reason: Seq<char>)
    requires
        is_invalid_request(error, reason),
    ensures
        error.text() == reason,
{
}

/// The sources of requests are told apart by how their ids begin.
pub proof fn law_request_sources_are_told_apart(first: RequestSource, second: RequestSource)
    requires
        first.prefix() == second.prefix(),
    ensures
        first == second,
{
    reveal_strlit("rust-client-");
    reveal_strlit("rust-async-client-");
    reveal_strlit("rust-cluster-router-");
    reveal_strlit("rust-async-cluster-router-");
    assert("rust-client-"@.len() == 12);
    assert("rust-async-client-"@.len() == 18);
    assert("rust-cluster-router-"@.len() == 20);
    assert("rust-async-cluster-router-"@.len() == 26);
}

/// A routing error says what it is about: the flaw, the node and the reason, the leaders, or the
/// error of the exchange.
pub proof fn law_what_routing_errors_say(error: RoutingErrorView)
    ensures
        match error {
            RoutingErrorView::InvalidConfiguration(reason) => ends_with(error.text(), reason),
            RoutingErrorView::InvalidOperationsResponse { node_id, reason } => ends_with(
                error.text(),
                " node "@ + decimal(node_id as nat) + ": "@ + reason,
            ),
            RoutingErrorView::NoWriteReadyLeader => error.text()
                == "static cluster has no observed write-ready leader"@,
            RoutingErrorView::MultipleWriteReadyLeaders(ids) => ends_with(
                error.text(),
                listed(ids),
            ),
            RoutingErrorView::Client(inner) => error.text() == inner.text(),
        },
{
    let text = error.text();
    match error {
        RoutingErrorView::InvalidConfiguration(reason) => {
            assert(text.skip(text.len() - reason.len()) =~= reason);
        },
        RoutingErrorView::InvalidOperationsResponse { node_id, reason } => {
            reveal_strlit("invalid operations-v1 response from node ");
            reveal_strlit(" node ");
            let start = "invalid operations-v1 response from node "@;
            assert(start.skip(start.len() - 6) =~= " node "@);
            let tail = " node "@ + decimal(node_id as nat) + ": "@ + reason;
            assert(text.skip(text.len() - tail.len()) =~= tail);
        },
        RoutingErrorView::MultipleWriteReadyLeaders(ids) => {
            assert(text.skip(text.len() - listed(ids).len()) =~= listed(ids));
        },
        _ => {},
    }
}

/// A status is written as its own word.
pub proof fn law_statuses_are_written_apart(
    first: ReplicatedTaskStatusV1,
    second: ReplicatedTaskStatusV1,
)
    requires
        status_text(first) == status_text(second),
    ensures
        first == second,
{
    reveal_strlit("Queued");
    reveal_strlit("Leased");
    reveal_strlit("Completed");
    assert("Queued"@[0] == 'Q' && "Leased"@[0] == 'L' && "Completed"@[0] == 'C');
}

/// The form of a durable result names every field of it, in order, with its value.
pub proof fn law_forms_of_durable_results_name_every_field(result: ReplicatedBrokerMutationResultV1)
    ensures
        ({
            let fields = result_fields(result);
            match result {
            ReplicatedBrokerMutationResultV1::Namespace {
                metadata,
                namespace_id,
                namespace_revision,
            } => {
                &&& fields.len() == 3
                &&& fields[0].0 == "metadata"@
                &&& fields[0].1 == metadata_text(metadata)
                &&& fields[1].0 == "namespace_id"@
                &&& fields[1].1 == quoted_text(namespace_id@)
                &&& fields[2].0 == "namespace_revision"@
                &&& fields[2].1 == decimal(namespace_revision as nat)
            },
            ReplicatedBrokerMutationResultV1::TaskPublished {
                metadata,
                task_id,
                task_revision,
                status,
            } => {
                &&& fields.len() == 4
                &&& fields[0].0 == "metadata"@
                &&& fields[0].1 == metadata_text(metadata)
                &&& fields[1].0 == "task_id"@
                &&& fields[1].1 == quoted_text(task_id@)
                &&& fields[2].0 == "task_revision"@
                &&& fields[2].1 == decimal(task_revision as nat)
                &&& fields[3].0 == "status"@
                &&& fields[3].1 == status_text(status)
            },
            ReplicatedBrokerMutationResultV1::ConsumerGroup {
                metadata,
                group_id,
                generation,
                group_revision,
                member_count,
            } => {
                &&& fields.len() == 5
                &&& fields[0].0 == "metadata"@
                &&& fields[0].1 == metadata_text(metadata)
                &&& fields[1].0 == "group_id"@
                &&& fields[1].1 == quoted_text(group_id@)
                &&& fields[2].0 == "generation"@
                &&& fields[2].1 == decimal(generation as nat)
                &&& fields[3].0 == "group_revision"@
                &&& fields[3].1 == decimal(group_revision as nat)
                &&& fields[4].0 == "member_count"@
                &&& fields[4].1 == decimal(member_count as nat)
            },
            ReplicatedBrokerMutationResultV1::Heartbeat {
                metadata,
                group_id,
                member_id,
                generation,
                member_revision,
            } => {
                &&& fields.len() == 5
                &&& fields[0].0 == "metadata"@
                &&& fields[0].1 == metadata_text(metadata)
                &&& fields[1].0 == "group_id"@
                &&& fields[1].1 == quoted_text(group_id@)
                &&& fields[2].0 == "member_id"@
                &&& fields[2].1 == quoted_text(member_id@)
                &&& fields[3].0 == "generation"@
                &&& fields[3].1 == decimal(generation as nat)
                &&& fields[4].0 == "member_revision"@
                &&& fields[4].1 == decimal(member_revision as nat)
            },
            ReplicatedBrokerMutationResultV1::StaleMembersReaped {
                metadata,
                reaped_count,
                affected_group_count,
            } => {
                &&& fields.len() == 3
                &&& fields[0].0 == "metadata"@
                &&& fields[0].1 == metadata_text(metadata)
                &&& fields[1].0 == "reaped_count"@
                &&& fields[1].1 == decimal(reaped_count as nat)
                &&& fields[2].0 == "affected_group_count"@
                &&& fields[2].1 == decimal(affected_group_count as nat)
            },
            ReplicatedBrokerMutationResultV1::TaskClaim {
                metadata,
                task_id,
                objective,
                task_revision,
                lease_id,
                lease_epoch,
                lease_expires_at_ms,
                generation,
            } => {
                &&& fields.len() == 8
                &&& fields[0].0 == "metadata"@
                &&& fields[0].1 == metadata_text(metadata)
                &&& fields[1].0 == "task_id"@
                &&& fields[1].1 == (
                    if task_id is Some {
                        "Some("@ + quoted_text(task_id->0@) + ")"@
                    } else { "None"@ }
                )
                &&& fields[2].0 == "objective"@
                &&& fields[2].1 == (
                    if objective is Some {
                        "Some("@ + quoted_text(objective->0@) + ")"@
                    } else { "None"@ }
                )
                &&& fields[3].0 == "task_revision"@
                &&& fields[3].1 == (
                    if task_revision is Some {
                        "Some("@ + decimal(task_revision->0 as nat) + ")"@
                    } else { "None"@ }
                )
                &&& fields[4].0 == "lease_id"@
                &&& fields[4].1 == (
                    if lease_id is Some {
                        "Some("@ + quoted_text(lease_id->0@) + ")"@
                    } else { "None"@ }
                )
                &&& fields[5].0 == "lease_epoch"@
                &&& fields[5].1 == (
                    if lease_epoch is Some {
                        "Some("@ + decimal(lease_epoch->0 as nat) + ")"@
                    } else { "None"@ }
                )
                &&& fields[6].0 == "lease_expires_at_ms"@
                &&& fields[6].1 == (
                    if lease_expires_at_ms is Some {
                        "Some("@ + decimal(lease_expires_at_ms->0 as nat) + ")"@
                    } else { "None"@ }
                )
                &&& fields[7].0 == "generation"@
                &&& fields[7].1 == decimal(generation as nat)
            },
            ReplicatedBrokerMutationResultV1::TaskLeaseRenewed {
                metadata,
                task_id,
                task_revision,
                lease_id,
                lease_epoch,
                lease_expires_at_ms,
                generation,
            } => {
                &&& fields.len() == 7
                &&& fields[0].0 == "metadata"@
                &&& fields[0].1 == metadata_text(metadata)
                &&& fields[1].0 == "task_id"@
                &&& fields[1].1 == quoted_text(task_id@)
                &&& fields[2].0 == "task_revision"@
                &&& fields[2].1 == decimal(task_revision as nat)
                &&& fields[3].0 == "lease_id"@
                &&& fields[3].1 == quoted_text(lease_id@)
                &&& fields[4].0 == "lease_epoch"@
                &&& fields[4].1 == decimal(lease_epoch as nat)
                &&& fields[5].0 == "lease_expires_at_ms"@
                &&& fields[5].1 == decimal(lease_expires_at_ms as nat)
                &&& fields[6].0 == "generation"@
                &&& fields[6].1 == decimal(generation as nat)
            },
            ReplicatedBrokerMutationResultV1::TaskCompleted {
                metadata,
                task_id,
                task_revision,
                status,
            } => {
                &&& fields.len() == 4
                &&& fields[0].0 == "metadata"@
                &&& fields[0].1 == metadata_text(metadata)
                &&& fields[1].0 == "task_id"@
                &&& fields[1].1 == quoted_text(task_id@)
                &&& fields[2].0 == "task_revision"@
                &&& fields[2].1 == decimal(task_revision as nat)
                &&& fields[3].0 == "status"@
                &&& fields[3].1 == status_text(status)
            },
            ReplicatedBrokerMutationResultV1::CompletedTasksPruned { metadata, pruned_count } => {
                &&& fields.len() == 2
                &&& fields[0].0 == "metadata"@
                &&& fields[0].1 == metadata_text(metadata)
                &&& fields[1].0 == "pruned_count"@
                &&& fields[1].1 == decimal(pruned_count as nat)
            },
            ReplicatedBrokerMutationResultV1::TermAdvanced { metadata } => {
                &&& fields.len() == 1
                &&& fields[0].0 == "metadata"@
                &&& fields[0].1 == metadata_text(metadata)
            },
            }
        }),
{
}

/// The form of a domain result names every field of it, in order, with the type and the value of
/// each.
pub proof fn law_forms_of_domain_results_name_every_field(result: ReplicatedBrokerMutationResultV1)
    ensures
        ({
            let fields = domain_fields(result);
            match result {
            ReplicatedBrokerMutationResultV1::Namespace {
                metadata,
                namespace_id,
                namespace_revision,
            } => {
                &&& fields.len() == 3
                &&& fields[0].0 == "metadata"@
                &&& fields[0].1 == domain_metadata_text(metadata)
                &&& fields[1].0 == "namespace_id"@
                &&& fields[1].1 == "NamespaceId"@ + "("@ + quoted_text(namespace_id@) + ")"@
                &&& fields[2].0 == "namespace_revision"@
                &&& fields[2].1 == "Revision"@ + "("@ + decimal(namespace_revision as nat) + ")"@
            },
            ReplicatedBrokerMutationResultV1::TaskPublished {
                metadata,
                task_id,
                task_revision,
                status,
            } => {
                &&& fields.len() == 4
                &&& fields[0].0 == "metadata"@
                &&& fields[0].1 == domain_metadata_text(metadata)
                &&& fields[1].0 == "task_id"@
                &&& fields[1].1 == "TaskId"@ + "("@ + quoted_text(task_id@) + ")"@
                &&& fields[2].0 == "task_revision"@
                &&& fields[2].1 == "Revision"@ + "("@ + decimal(task_revision as nat) + ")"@
                &&& fields[3].0 == "status"@
                &&& fields[3].1 == status_text(status)
            },
            ReplicatedBrokerMutationResultV1::ConsumerGroup {
                metadata,
                group_id,
                generation,
                group_revision,
                member_count,
            } => {
                &&& fields.len() == 5
                &&& fields[0].0 == "metadata"@
                &&& fields[0].1 == domain_metadata_text(metadata)
                &&& fields[1].0 == "group_id"@
                &&& fields[1].1 == "ConsumerGroupId"@ + "("@ + quoted_text(group_id@) + ")"@
                &&& fields[2].0 == "generation"@
                &&& fields[2].1 == "Generation"@ + "("@ + decimal(generation as nat) + ")"@
                &&& fields[3].0 == "group_revision"@
                &&& fields[3].1 == "Revision"@ + "("@ + decimal(group_revision as nat) + ")"@
                &&& fields[4].0 == "member_count"@
                &&& fields[4].1 == decimal(member_count as nat)
            },
            ReplicatedBrokerMutationResultV1::Heartbeat {
                metadata,
                group_id,
                member_id,
                generation,
                member_revision,
            } => {
                &&& fields.len() == 5
                &&& fields[0].0 == "metadata"@
                &&& fields[0].1 == domain_metadata_text(metadata)
                &&& fields[1].0 == "group_id"@
                &&& fields[1].1 == "ConsumerGroupId"@ + "("@ + quoted_text(group_id@) + ")"@
                &&& fields[2].0 == "member_id"@
                &&& fields[2].1 == "ConsumerId"@ + "("@ + quoted_text(member_id@) + ")"@
                &&& fields[3].0 == "generation"@
                &&& fields[3].1 == "Generation"@ + "("@ + decimal(generation as nat) + ")"@
                &&& fields[4].0 == "member_revision"@
                &&& fields[4].1 == "Revision"@ + "("@ + decimal(member_revision as nat) + ")"@
            },
            ReplicatedBrokerMutationResultV1::StaleMembersReaped {
                metadata,
                reaped_count,
                affected_group_count,
            } => {
                &&& fields.len() == 3
                &&& fields[0].0 == "metadata"@
                &&& fields[0].1 == domain_metadata_text(metadata)
                &&& fields[1].0 == "reaped_count"@
                &&& fields[1].1 == decimal(reaped_count as nat)
                &&& fields[2].0 == "affected_group_count"@
                &&& fields[2].1 == decimal(affected_group_count as nat)
            },
            ReplicatedBrokerMutationResultV1::TaskClaim {
                metadata,
                task_id,
                objective,
                task_revision,
                lease_id,
                lease_epoch,
                lease_expires_at_ms,
                generation,
            } => {
                &&& fields.len() == 8
                &&& fields[0].0 == "metadata"@
                &&& fields[0].1 == domain_metadata_text(metadata)
                &&& fields[1].0 == "task_id"@
                &&& fields[1].1 == (
                    if task_id is Some {
                        "Some("@ + ("TaskId"@ + "("@ + quoted_text(task_id->0@) + ")"@) + ")"@
                    } else { "None"@ }
                )
                &&& fields[2].0 == "objective"@
                &&& fields[2].1 == (
                    if objective is Some {
                        "Some("@ + (
                            "TaskObjective"@ + "("@ + quoted_text(objective->0@) + ")"@
                        ) + ")"@
                    } else { "None"@ }
                )
                &&& fields[3].0 == "task_revision"@
                &&& fields[3].1 == (
                    if task_revision is Some {
                        "Some("@ + (
                            "Revision"@ + "("@ + decimal(task_revision->0 as nat) + ")"@
                        ) + ")"@
                    } else { "None"@ }
                )
                &&& fields[4].0 == "lease_id"@
                &&& fields[4].1 == (
                    if lease_id is Some {
                        "Some("@ + ("LeaseId"@ + "("@ + quoted_text(lease_id->0@) + ")"@) + ")"@
                    } else { "None"@ }
                )
                &&& fields[5].0 == "lease_epoch"@
                &&& fields[5].1 == (
                    if lease_epoch is Some {
                        "Some("@ + (
                            "LeaseEpoch"@ + "("@ + decimal(lease_epoch->0 as nat) + ")"@
                        ) + ")"@
                    } else { "None"@ }
                )
                &&& fields[6].0 == "lease_expires_at_ms"@
                &&& fields[6].1 == (
                    if lease_expires_at_ms is Some {
                        "Some("@ + (
                            "TimestampMs"@ + "("@ + decimal(lease_expires_at_ms->0 as nat) + ")"@
                        ) + ")"@
                    } else { "None"@ }
                )
                &&& fields[7].0 == "generation"@
                &&& fields[7].1 == "Generation"@ + "("@ + decimal(generation as nat) + ")"@
            },
            ReplicatedBrokerMutationResultV1::TaskLeaseRenewed {
                metadata,
                task_id,
                task_revision,
                lease_id,
                lease_epoch,
                lease_expires_at_ms,
                generation,
            } => {
                &&& fields.len() == 7
                &&& fields[0].0 == "metadata"@
                &&& fields[0].1 == domain_metadata_text(metadata)
                &&& fields[1].0 == "task_id"@
                &&& fields[1].1 == "TaskId"@ + "("@ + quoted_text(task_id@) + ")"@
                &&& fields[2].0 == "task_revision"@
                &&& fields[2].1 == "Revision"@ + "("@ + decimal(task_revision as nat) + ")"@
                &&& fields[3].0 == "lease_id"@
                &&& fields[3].1 == "LeaseId"@ + "("@ + quoted_text(lease_id@) + ")"@
                &&& fields[4].0 == "lease_epoch"@
                &&& fields[4].1 == "LeaseEpoch"@ + "("@ + decimal(lease_epoch as nat) + ")"@
                &&& fields[5].0 == "lease_expires_at_ms"@
                &&& fields[5].1 == "TimestampMs"@ + "("@ + decimal(
                    lease_expires_at_ms as nat,
                ) + ")"@
                &&& fields[6].0 == "generation"@
                &&& fields[6].1 == "Generation"@ + "("@ + decimal(generation as nat) + ")"@
            },
            ReplicatedBrokerMutationResultV1::TaskCompleted {
                metadata,
                task_id,
                task_revision,
                status,
            } => {
                &&& fields.len() == 4
                &&& fields[0].0 == "metadata"@
                &&& fields[0].1 == domain_metadata_text(metadata)
                &&& fields[1].0 == "task_id"@
                &&& fields[1].1 == "TaskId"@ + "("@ + quoted_text(task_id@) + ")"@
                &&& fields[2].0 == "task_revision"@
                &&& fields[2].1 == "Revision"@ + "("@ + decimal(task_revision as nat) + ")"@
                &&& fields[3].0 == "status"@
                &&& fields[3].1 == status_text(status)
            },
            ReplicatedBrokerMutationResultV1::CompletedTasksPruned { metadata, pruned_count } => {
                &&& fields.len() == 2
                &&& fields[0].0 == "metadata"@
                &&& fields[0].1 == domain_metadata_text(metadata)
                &&& fields[1].0 == "pruned_count"@
                &&& fields[1].1 == decimal(pruned_count as nat)
            },
            ReplicatedBrokerMutationResultV1::TermAdvanced { metadata } => {
                &&& fields.len() == 1
                &&& fields[0].0 == "metadata"@
                &&& fields[0].1 == domain_metadata_text(metadata)
            },
            }
        }),
{
}

/// The form of a result starts with its kind.
pub proof fn law_forms_start_with_the_kind(result: ReplicatedBrokerMutationResultV1)
    ensures
        result is Namespace ==> result_kind(result) == "Namespace"@,
        result is TaskPublished ==> result_kind(result) == "TaskPublished"@,
        result is ConsumerGroup ==> result_kind(result) == "ConsumerGroup"@,
        result is Heartbeat ==> result_kind(result) == "Heartbeat"@,
        result is StaleMembersReaped ==> result_kind(result) == "StaleMembersReaped"@,
        result is TaskClaim ==> result_kind(result) == "TaskClaim"@,
        result is TaskLeaseRenewed ==> result_kind(result) == "TaskLeaseRenewed"@,
        result is TaskCompleted ==> result_kind(result) == "TaskCompleted"@,
        result is CompletedTasksPruned ==> result_kind(result) == "CompletedTasksPruned"@,
        result is TermAdvanced ==> result_kind(result) == "TermAdvanced"@,
        starts_with(result_text(result), result_kind(result) + " { "@),
        ends_with(result_text(result), " }"@),
{
    let text = result_text(result);
    let start = result_kind(result) + " { "@;
    assert(text.take(start.len() as int) =~= start);
    assert(text.skip(text.len() - " }"@.len()) =~= " }"@);
}

/// Whether a text starts with another.
pub open spec fn starts_with(text: Seq<char>, start: Seq<char>) -> bool {
    text.len() >= start.len() && text.take(start.len() as int) == start
}

/// What the failures of a running member say, with what failed in its place.
pub proof fn law_what_member_failures_say(
    mode: RaftMode,
    operation: Seq<char>,
    error: Seq<char>,
    node_id: u64,
    leader: u64,
)
    ensures
        storage_failure(mode, error).message == mode.text() + " Raft storage failed: "@ + error,
        engine_stopped(mode, error).message == mode.text() + " Raft engine failed: "@ + error,
        engine_failure(mode, operation, error).message == mode.text() + " Raft "@ + operation
            + " failed: "@ + error,
        internal_fault(operation, error).message == operation + error,
        not_leader(node_id, Some(leader)).message == "cluster node "@ + decimal(node_id as nat)
            + " is not leader; current leader is "@ + decimal(leader as nat),
        not_leader(node_id, None).message == "cluster node "@ + decimal(node_id as nat)
            + " is not leader and no current leader is known"@,
        not_applied_in_time(mode).message == mode.text()
            + " Raft committed log was not applied before the startup deadline"@,
        never_led(node_id).message == "cluster bootstrap node "@ + decimal(node_id as nat)
            + " did not become leader before the deadline"@,
        adapter_stopped(mode).message == mode.text()
            + " Raft consensus adapter is fail-stopped after an engine failure"@,
        term_is_owned(mode).message == "Broker term is owned by Raft in "@ + mode.text()
            + " consensus mode"@,
        engine_refusal(error).message == "invalid cluster Raft configuration: "@ + error,
        unexpected_result_error(error).message
            == "consensus returned an unexpected result variant; expected "@ + error,
        mode == RaftMode::Cluster ==> mode.text() == "cluster"@,
        mode == RaftMode::OneNode ==> mode.text() == "one-node"@,
{
}

/// What the failures of a start and of a lone Broker say.
pub proof fn law_what_failed_starts_say(phase: OneNodePhase)
    ensures
        never_converged().message
            == "cluster membership did not converge to three voters before the deadline"@,
        one_node_leaderless().message
            == "one-node Raft did not elect node 1 as leader within the startup deadline"@,
        phase == OneNodePhase::Startup ==> remote_attempted(phase).message
            == "one-node Raft unexpectedly attempted a remote RPC during startup"@,
        phase == OneNodePhase::Commit ==> remote_attempted(phase).message
            == "one-node Raft unexpectedly attempted a remote RPC while committing a command"@,
        fail_stopped_error().message
            == "Standalone Broker is fail-stopped after a durability failure."@,
{
}

/// What faults between an adapter and its controller say: which part failed, then the cause.
pub proof fn law_what_controller_faults_say(mode: RaftMode, kind: ControllerFault)
    ensures
        fault_text(mode, kind) == match kind {
            ControllerFault::ThreadNotStarted => "failed to start "@ + mode.text()
                + " Raft controller thread: "@,
            ControllerFault::RuntimeNotBuilt => "failed to build "@ + mode.text()
                + " Raft Tokio runtime: "@,
            ControllerFault::EndedDuringStartup => mode.text()
                + " Raft controller exited during startup: "@,
            ControllerFault::Unavailable => mode.text() + " Raft controller is unavailable: "@,
            ControllerFault::ReplyDropped => mode.text()
                + " Raft controller dropped the response: "@,
            ControllerFault::StoreNotOpened => "failed to open "@ + mode.text()
                + " Raft redb store: "@,
            ControllerFault::DirectoryNotMade => "failed to create "@ + mode.text()
                + " Raft state directory: "@,
            ControllerFault::ShutdownFailed => if mode == RaftMode::Cluster {
                "cluster Raft shutdown failed: "@
            } else {
                "one-node Raft shutdown join failed: "@
            },
            ControllerFault::ListenerNotBound => "failed to bind "@ + mode.text()
                + " Raft RPC listener: "@,
            ControllerFault::ListenerNotStopped => mode.text()
                + " Raft RPC server shutdown failed: "@,
        },
{
}

/// What unreadable TLS files say.
pub proof fn law_what_unreadable_tls_files_say(file: Option<Vec<u8>>)
    ensures
        file is None ==> certificates_in(file) == Err::<Seq<Seq<u8>>, Seq<char>>(
            "cluster Raft TLS certificate file is unavailable"@,
        ) && key_in(file) == Err::<PrivateKeyView, Seq<char>>(
            "cluster Raft TLS identity key file is unavailable"@,
        ),
        file is Some && pem_certificate_list(file->0@) is None ==> certificates_in(file) == Err::<
            Seq<Seq<u8>>,
            Seq<char>,
        >("cluster Raft TLS certificate PEM is invalid"@),
        file is Some && pem_private_key_of(file->0@) is None ==> key_in(file) == Err::<
            PrivateKeyView,
            Seq<char>,
        >("cluster Raft TLS identity key PEM is invalid"@),
        file is Some && pem_private_key_of(file->0@) == Some(None::<PrivateKeyView>) ==> key_in(
            file,
        ) == Err::<PrivateKeyView, Seq<char>>(
            "cluster Raft TLS identity key file contains no key"@,
        ),
{
}

/// What incomplete TLS material says: the first part that is missing.
pub proof fn law_what_incomplete_tls_material_says(local_node_id: u64, files: TlsFiles)
    ensures
        ({
            let material = material_of(local_node_id, files);
            let authorities = certificates_in(files.ca);
            let chain = certificates_in(files.certificates);
            match authorities {
                Err(message) => material == Err::<TlsMaterialView, Seq<char>>(message),
                Ok(list) => if list.len() == 0 {
                    material == Err::<TlsMaterialView, Seq<char>>(
                        "cluster Raft TLS CA bundle must contain at least one certificate"@,
                    )
                } else if anchors_of(list) is None {
                    material == Err::<TlsMaterialView, Seq<char>>(
                        "cluster Raft TLS CA certificate is invalid"@,
                    )
                } else {
                    match chain {
                        Err(message) => material == Err::<TlsMaterialView, Seq<char>>(message),
                        Ok(own) => if own.len() == 0 {
                            material == Err::<TlsMaterialView, Seq<char>>(
                                "cluster Raft TLS local certificate chain is empty"@,
                            )
                        } else if key_in(files.key) is Err {
                            material == Err::<TlsMaterialView, Seq<char>>(
                                key_in(files.key)->Err_0,
                            )
                        } else if pins_of(files.peers@) is Err {
                            material == Err::<TlsMaterialView, Seq<char>>(
                                pins_of(files.peers@)->Err_0,
                            )
                        } else {
                            !pins_of(files.peers@)->Ok_0.contains_key(local_node_id) ==> material
                                == Err::<TlsMaterialView, Seq<char>>(
                                "cluster Raft TLS peer certificate map does not contain local node id"@,
                            )
                        },
                    }
                },
            }
        }),
{
}

/// What refused stored values say: the kind of value, and what is wrong with it.
pub proof fn law_what_refused_stored_values_say<K: TextKind>(
    text: Seq<char>,
    reason: Seq<char>,
    term: u64,
    count: u64,
    field: Seq<char>,
)
    requires
        K::flaw(text) == Some(reason),
    ensures
        text_finding::<K>(text) == Some(
            "replicated Broker command failed domain validation: "@ + ("invalid "@ + K::label()
                + ": "@ + reason),
        ),
        response_text_finding::<K>(text) == Some(
            "replicated Broker response failed domain validation: "@ + ("invalid "@ + K::label()
                + ": "@ + reason),
        ),
        term_finding(0) == Some(
            "replicated Broker command failed domain validation: "@ + ("Broker term"@
                + " must be greater than zero"@),
        ),
        term > 0 ==> term_finding(term) is None,
        count > usize::MAX ==> count_finding(count, field) == Some(
            field + " exceeds platform usize"@,
        ),
        count <= usize::MAX ==> count_finding(count, field) is None,
{
}

/// The statuses of a member are written apart.
pub proof fn law_readiness_is_written_apart(status: ClusterRaftReadinessStatus)
    ensures
        status.text() == match status {
            ClusterRaftReadinessStatus::Ready => "ready"@,
            ClusterRaftReadinessStatus::Follower => "follower"@,
            ClusterRaftReadinessStatus::NoLeader => "no_leader"@,
            ClusterRaftReadinessStatus::QuorumUnavailable => "quorum_unavailable"@,
            ClusterRaftReadinessStatus::ConsensusFailStopped => "consensus_fail_stopped"@,
            ClusterRaftReadinessStatus::ConsensusUnavailable => "consensus_unavailable"@,
            ClusterRaftReadinessStatus::ObservationSaturated => "observation_saturated"@,
            ClusterRaftReadinessStatus::ProbeTimedOut => "probe_timed_out"@,
        },
{
}

/// A list of numbers is written with commas between them.
pub proof fn law_lists_are_written_with_commas(numbers: Seq<u64>, next: u64)
    ensures
        listed(Seq::<u64>::empty()) == "["@ + Seq::<char>::empty() + "]"@,
        listed(seq![next]) == "["@ + decimal(next as nat) + "]"@,
        numbers.len() > 0 ==> listed(numbers.push(next)) == "["@ + (joined_numbers(numbers) + ", "@
            + decimal(next as nat)) + "]"@,
{
    assert(numbers.push(next).drop_last() =~= numbers);
}

/// Fields are written by name and value, with commas between them.
pub proof fn law_fields_are_written_with_commas(
    fields: Seq<(Seq<char>, Seq<char>)>,
    name: Seq<char>,
    value: Seq<char>,
)
    ensures
        fields_text(Seq::empty()) == Seq::<char>::empty(),
        fields_text(seq![(name, value)]) == name + ": "@ + value,
        fields.len() > 0 ==> fields_text(fields.push((name, value))) == fields_text(fields) + ", "@
            + name + ": "@ + value,
{
    assert(fields.push((name, value)).drop_last() =~= fields);
}

/// The metadata of a result is written with its term and its revision.
pub proof fn law_metadata_is_written_whole(metadata: ReplicatedMutationMetadataV1)
    ensures
        metadata_text(metadata) == "ReplicatedMutationMetadataV1"@ + " { "@ + ("term"@ + ": "@
            + decimal(metadata.term as nat) + ", "@ + "revision"@ + ": "@ + decimal(
            metadata.revision as nat,
        )) + " }"@,
        domain_metadata_text(metadata) == "MutationMetadata"@ + " { "@ + ("term"@ + ": "@ + ("Term"@
            + "("@ + decimal(metadata.term as nat) + ")"@) + ", "@ + "revision"@ + ": "@ + (
        "Revision"@ + "("@ + decimal(metadata.revision as nat) + ")"@)) + " }"@,
{
    let number = decimal(metadata.term as nat);
    let last = decimal(metadata.revision as nat);
    law_fields_are_written_with_commas(seq![("term"@, number)], "revision"@, last);
    law_fields_are_written_with_commas(Seq::empty(), "term"@, number);
    assert(seq![("term"@, number)].push(("revision"@, last)) =~= seq![
        ("term"@, number),
        ("revision"@, last),
    ]);
    let number = "Term"@ + "("@ + number + ")"@;
    let last = "Revision"@ + "("@ + last + ")"@;
    law_fields_are_written_with_commas(seq![("term"@, number)], "revision"@, last);
    law_fields_are_written_with_commas(Seq::empty(), "term"@, number);
    assert(seq![("term"@, number)].push(("revision"@, last)) =~= seq![
        ("term"@, number),
        ("revision"@, last),
    ]);
}

} // verus!
