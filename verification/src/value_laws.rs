//! What holds of the answers that the application service and the client hand on, and of the values
//! that they are made of.
use crate::address::SocketAddress;
use crate::client_config::{config_flaw, request_id_text, BrokerClientConfig, RequestSource};
use crate::command_identity::{
    identifier_flaw, is_ascii_alphanumeric_byte, is_identifier_byte, CommandSessionId,
    SessionOwnerInstanceId,
};
use crate::command_sessions::{entries_ascend, entries_map, SessionEntry};
use crate::domain::{
    capabilities_flaw, domain_identifier_flaw, prose_flaw, CapabilityKind, ConsumerGroupKind,
    ConsumerKind, LeaseKind, NamespaceKind, ObjectiveKind, OutcomeKind, TaskKind, TextKind,
};
use crate::engine_laws::ends_with;
use crate::error::{BrokerError, BrokerErrorCode, BrokerErrorDisposition};
use crate::protocol::{BrokerRequest, Operation};
use crate::results::{
    BrokerMutationResult, CompletedTasksPrunedResult, ConsumerGroupResult, HeartbeatResult,
    NamespaceResult, StaleMembersReapedResult, TaskClaimResult, TaskCompletedResult,
    TaskLeaseRenewedResult, TaskPublishedResult, TermAdvancedResult,
};
use crate::router_config::default_node;
use crate::service::{
    is_narrowed, picked_completed_tasks_pruned, picked_consumer_group, picked_heartbeat,
    picked_namespace, picked_stale_members_reaped, picked_task_claim, picked_task_completed,
    picked_task_lease_renewed, picked_task_published, picked_term_advanced,
};
use crate::text::{decimal, text_less};
use vstd::prelude::*;
use vstd::utf8::encode_utf8;

verus! {

/// A caller that expects a `Namespace` result gets exactly the one that consensus returned. An
/// error of
/// consensus is passed on as it is, and a result of another kind is a fault.
pub proof fn law_namespace_results_are_passed_on(
    answer: Result<BrokerMutationResult, BrokerError>,
    expected: Seq<char>,
    outcome: Result<NamespaceResult, BrokerError>,
)
    requires
        is_narrowed(answer, picked_namespace(answer), expected, outcome),
    ensures
        match answer {
            Ok(BrokerMutationResult::Namespace(value)) => outcome == Ok::<_, BrokerError>(value),
            Ok(_) => outcome matches Err(error) && error@.code == BrokerErrorCode::InternalError
                && error@.disposition == BrokerErrorDisposition::Unknown,
            Err(error) => outcome == Err::<NamespaceResult, _>(error),
        },
{
}

/// A caller that expects a `TaskPublished` result gets exactly the one that consensus returned. An
/// error of
/// consensus is passed on as it is, and a result of another kind is a fault.
pub proof fn law_task_published_results_are_passed_on(
    answer: Result<BrokerMutationResult, BrokerError>,
    expected: Seq<char>,
    outcome: Result<TaskPublishedResult, BrokerError>,
)
    requires
        is_narrowed(answer, picked_task_published(answer), expected, outcome),
    ensures
        match answer {
            Ok(
                BrokerMutationResult::TaskPublished(value),
            ) => outcome == Ok::<_, BrokerError>(value),
            Ok(_) => outcome matches Err(error) && error@.code == BrokerErrorCode::InternalError
                && error@.disposition == BrokerErrorDisposition::Unknown,
            Err(error) => outcome == Err::<TaskPublishedResult, _>(error),
        },
{
}

/// A caller that expects a `ConsumerGroup` result gets exactly the one that consensus returned. An
/// error of
/// consensus is passed on as it is, and a result of another kind is a fault.
pub proof fn law_consumer_group_results_are_passed_on(
    answer: Result<BrokerMutationResult, BrokerError>,
    expected: Seq<char>,
    outcome: Result<ConsumerGroupResult, BrokerError>,
)
    requires
        is_narrowed(answer, picked_consumer_group(answer), expected, outcome),
    ensures
        match answer {
            Ok(
                BrokerMutationResult::ConsumerGroup(value),
            ) => outcome == Ok::<_, BrokerError>(value),
            Ok(_) => outcome matches Err(error) && error@.code == BrokerErrorCode::InternalError
                && error@.disposition == BrokerErrorDisposition::Unknown,
            Err(error) => outcome == Err::<ConsumerGroupResult, _>(error),
        },
{
}

/// A caller that expects a `Heartbeat` result gets exactly the one that consensus returned. An
/// error of
/// consensus is passed on as it is, and a result of another kind is a fault.
pub proof fn law_heartbeat_results_are_passed_on(
    answer: Result<BrokerMutationResult, BrokerError>,
    expected: Seq<char>,
    outcome: Result<HeartbeatResult, BrokerError>,
)
    requires
        is_narrowed(answer, picked_heartbeat(answer), expected, outcome),
    ensures
        match answer {
            Ok(BrokerMutationResult::Heartbeat(value)) => outcome == Ok::<_, BrokerError>(value),
            Ok(_) => outcome matches Err(error) && error@.code == BrokerErrorCode::InternalError
                && error@.disposition == BrokerErrorDisposition::Unknown,
            Err(error) => outcome == Err::<HeartbeatResult, _>(error),
        },
{
}

/// A caller that expects a `StaleMembersReaped` result gets exactly the one that consensus
/// returned. An error of
/// consensus is passed on as it is, and a result of another kind is a fault.
pub proof fn law_stale_members_reaped_results_are_passed_on(
    answer: Result<BrokerMutationResult, BrokerError>,
    expected: Seq<char>,
    outcome: Result<StaleMembersReapedResult, BrokerError>,
)
    requires
        is_narrowed(answer, picked_stale_members_reaped(answer), expected, outcome),
    ensures
        match answer {
            Ok(
                BrokerMutationResult::StaleMembersReaped(value),
            ) => outcome == Ok::<_, BrokerError>(value),
            Ok(_) => outcome matches Err(error) && error@.code == BrokerErrorCode::InternalError
                && error@.disposition == BrokerErrorDisposition::Unknown,
            Err(error) => outcome == Err::<StaleMembersReapedResult, _>(error),
        },
{
}

/// A caller that expects a `TaskClaim` result gets exactly the one that consensus returned. An
/// error of
/// consensus is passed on as it is, and a result of another kind is a fault.
pub proof fn law_task_claim_results_are_passed_on(
    answer: Result<BrokerMutationResult, BrokerError>,
    expected: Seq<char>,
    outcome: Result<TaskClaimResult, BrokerError>,
)
    requires
        is_narrowed(answer, picked_task_claim(answer), expected, outcome),
    ensures
        match answer {
            Ok(BrokerMutationResult::TaskClaim(value)) => outcome == Ok::<_, BrokerError>(value),
            Ok(_) => outcome matches Err(error) && error@.code == BrokerErrorCode::InternalError
                && error@.disposition == BrokerErrorDisposition::Unknown,
            Err(error) => outcome == Err::<TaskClaimResult, _>(error),
        },
{
}

/// A caller that expects a `TaskLeaseRenewed` result gets exactly the one that consensus returned.
/// An error of
/// consensus is passed on as it is, and a result of another kind is a fault.
pub proof fn law_task_lease_renewed_results_are_passed_on(
    answer: Result<BrokerMutationResult, BrokerError>,
    expected: Seq<char>,
    outcome: Result<TaskLeaseRenewedResult, BrokerError>,
)
    requires
        is_narrowed(answer, picked_task_lease_renewed(answer), expected, outcome),
    ensures
        match answer {
            Ok(
                BrokerMutationResult::TaskLeaseRenewed(value),
            ) => outcome == Ok::<_, BrokerError>(value),
            Ok(_) => outcome matches Err(error) && error@.code == BrokerErrorCode::InternalError
                && error@.disposition == BrokerErrorDisposition::Unknown,
            Err(error) => outcome == Err::<TaskLeaseRenewedResult, _>(error),
        },
{
}

/// A caller that expects a `TaskCompleted` result gets exactly the one that consensus returned. An
/// error of
/// consensus is passed on as it is, and a result of another kind is a fault.
pub proof fn law_task_completed_results_are_passed_on(
    answer: Result<BrokerMutationResult, BrokerError>,
    expected: Seq<char>,
    outcome: Result<TaskCompletedResult, BrokerError>,
)
    requires
        is_narrowed(answer, picked_task_completed(answer), expected, outcome),
    ensures
        match answer {
            Ok(
                BrokerMutationResult::TaskCompleted(value),
            ) => outcome == Ok::<_, BrokerError>(value),
            Ok(_) => outcome matches Err(error) && error@.code == BrokerErrorCode::InternalError
                && error@.disposition == BrokerErrorDisposition::Unknown,
            Err(error) => outcome == Err::<TaskCompletedResult, _>(error),
        },
{
}

/// A caller that expects a `CompletedTasksPruned` result gets exactly the one that consensus
/// returned. An error of
/// consensus is passed on as it is, and a result of another kind is a fault.
pub proof fn law_completed_tasks_pruned_results_are_passed_on(
    answer: Result<BrokerMutationResult, BrokerError>,
    expected: Seq<char>,
    outcome: Result<CompletedTasksPrunedResult, BrokerError>,
)
    requires
        is_narrowed(answer, picked_completed_tasks_pruned(answer), expected, outcome),
    ensures
        match answer {
            Ok(
                BrokerMutationResult::CompletedTasksPruned(value),
            ) => outcome == Ok::<_, BrokerError>(value),
            Ok(_) => outcome matches Err(error) && error@.code == BrokerErrorCode::InternalError
                && error@.disposition == BrokerErrorDisposition::Unknown,
            Err(error) => outcome == Err::<CompletedTasksPrunedResult, _>(error),
        },
{
}

/// A caller that expects a `TermAdvanced` result gets exactly the one that consensus returned. An
/// error of
/// consensus is passed on as it is, and a result of another kind is a fault.
pub proof fn law_term_advanced_results_are_passed_on(
    answer: Result<BrokerMutationResult, BrokerError>,
    expected: Seq<char>,
    outcome: Result<TermAdvancedResult, BrokerError>,
)
    requires
        is_narrowed(answer, picked_term_advanced(answer), expected, outcome),
    ensures
        match answer {
            Ok(BrokerMutationResult::TermAdvanced(value)) => outcome == Ok::<_, BrokerError>(value),
            Ok(_) => outcome matches Err(error) && error@.code == BrokerErrorCode::InternalError
                && error@.disposition == BrokerErrorDisposition::Unknown,
            Err(error) => outcome == Err::<TermAdvancedResult, _>(error),
        },
{
}

/// A client configuration is accepted exactly when it stays on the loopback interface, bounds an
/// answer between 4096 and 1048576 bytes, and waits for a positive time.
pub proof fn law_accepted_client_configurations(config: BrokerClientConfig)
    ensures
        config_flaw(config) is None <==> {
            &&& match config.address {
                SocketAddress::V4 { a, .. } => a == 127,
                SocketAddress::V6 { bits, .. } => bits == 1,
            }
            &&& 4096 <= config.max_response_frame_bytes <= 1_048_576
            &&& config.timeout@ > 0
        },
{
}

/// The id of a request ends with its number, counted from one.
pub proof fn law_request_ids_count_from_one(source: RequestSource, previous: u64)
    ensures
        ends_with(request_id_text(source, previous), decimal(previous as nat + 1)),
{
    let whole = request_id_text(source, previous);
    let number = decimal(previous as nat + 1);
    assert(whole.skip(whole.len() - number.len()) =~= number);
}

/// Every request names the operation of its body.
pub proof fn law_requests_name_their_operation(request: BrokerRequest)
    ensures
        request.spec_operation() == Operation::Health <==> request.body is Health,
        request.spec_operation() == Operation::EnsureNamespace <==> request.body is EnsureNamespace,
        request.spec_operation() == Operation::PublishTask <==> request.body is PublishTask,
        request.spec_operation() == Operation::EnsureConsumerGroup <==> request.body
            is EnsureConsumerGroup,
        request.spec_operation() == Operation::JoinConsumerGroup <==> request.body
            is JoinConsumerGroup,
        request.spec_operation() == Operation::Heartbeat <==> request.body is Heartbeat,
        request.spec_operation() == Operation::LeaveConsumerGroup <==> request.body
            is LeaveConsumerGroup,
        request.spec_operation() == Operation::ClaimTask <==> request.body is ClaimTask,
        request.spec_operation() == Operation::RenewTaskLease <==> request.body is RenewTaskLease,
        request.spec_operation() == Operation::CompleteTask <==> request.body is CompleteTask,
{
}

/// An identifier is exactly a text of one to `max_bytes` bytes that starts with an ASCII letter or
/// digit and goes on with letters, digits, `_`, `.`, `:` and `-`.
pub proof fn law_what_identifiers_are(bytes: Seq<u8>, max_bytes: int)
    ensures
        identifier_flaw(bytes, max_bytes) is None <==> {
            &&& 1 <= bytes.len() <= max_bytes
            &&& is_letter_or_digit(bytes[0])
            &&& forall|i: int|
                1 <= i < bytes.len() ==> is_letter_or_digit(#[trigger] bytes[i]) || bytes[i]
                    == '_' as u8 || bytes[i] == '.' as u8 || bytes[i] == ':' as u8 || bytes[i]
                    == '-' as u8
        },
{
    assert('_' as u8 == 95 && '.' as u8 == 46 && ':' as u8 == 58 && '-' as u8 == 45);
    assert('0' as u8 == 48 && '9' as u8 == 57 && 'A' as u8 == 65 && 'Z' as u8 == 90);
    assert('a' as u8 == 97 && 'z' as u8 == 122);
    assert forall|byte: u8| #[trigger] is_identifier_byte(byte) == (is_letter_or_digit(byte) || byte
        == 95 || byte == 46 || byte == 58 || byte == 45) by {
        assert(is_ascii_alphanumeric_byte(byte) == is_letter_or_digit(byte));
    }
    if bytes.len() > 0 {
        assert(is_ascii_alphanumeric_byte(bytes[0]) == is_letter_or_digit(bytes[0]));
    }
    if 1 <= bytes.len() <= max_bytes && is_letter_or_digit(bytes[0]) {
        if identifier_flaw(bytes, max_bytes) is None {
            assert forall|i: int| 1 <= i < bytes.len() implies is_letter_or_digit(
                #[trigger] bytes[i],
            ) || bytes[i] == '_' as u8 || bytes[i] == '.' as u8 || bytes[i] == ':' as u8 || bytes[i]
                == '-' as u8 by {
                assert(is_identifier_byte(bytes[i]));
            }
        } else {
            let i = choose|i: int|
                1 <= i < bytes.len() && !is_identifier_byte(#[trigger] bytes[i]);
            assert(!is_letter_or_digit(bytes[i]));
        }
    }
}

/// ASCII letters and digits.
pub open spec fn is_letter_or_digit(byte: u8) -> bool {
    ||| '0' as u8 <= byte <= '9' as u8
    ||| 'A' as u8 <= byte <= 'Z' as u8
    ||| 'a' as u8 <= byte <= 'z' as u8
}

/// Sessions, their owners and the items of the Broker are named by identifiers of at most 128
/// bytes.
pub proof fn law_names_have_at_most_128_bytes(text: Seq<char>)
    ensures
        CommandSessionId::flaw(text) is None ==> 1 <= encode_utf8(text).len() <= 128,
        (CommandSessionId::flaw(text) is None) == (identifier_flaw(encode_utf8(text), 128) is None),
        (SessionOwnerInstanceId::flaw(text) is None) == (identifier_flaw(encode_utf8(text), 128)
            is None),
        (domain_identifier_flaw(text) is None) == (identifier_flaw(encode_utf8(text), 128) is None),
{
}

/// A longer bound refuses no identifier that a shorter one accepts.
pub proof fn law_longer_bounds_accept_more(bytes: Seq<u8>, shorter: int, longer: int)
    requires
        shorter <= longer,
        identifier_flaw(bytes, shorter) is None,
    ensures
        identifier_flaw(bytes, longer) is None,
{
}

/// Prose is any text but the empty one.
pub proof fn law_prose_is_not_empty(text: Seq<char>)
    ensures
        prose_flaw(text) is None <==> text != Seq::<char>::empty(),
{
    if text.len() == 0 {
        assert(text =~= Seq::<char>::empty());
    }
}

/// A list of capabilities is accepted exactly when each of them is.
pub proof fn law_capabilities_are_judged_one_by_one(texts: Seq<Seq<char>>)
    ensures
        capabilities_flaw(texts) is None <==> forall|i: int|
            0 <= i < texts.len() ==> CapabilityKind::flaw(#[trigger] texts[i]) is None,
    decreases texts.len(),
{
    if texts.len() > 0 {
        let rest = texts.drop_last();
        law_capabilities_are_judged_one_by_one(rest);
        if capabilities_flaw(texts) is None {
            assert forall|i: int| 0 <= i < texts.len() implies CapabilityKind::flaw(
                #[trigger] texts[i],
            ) is None by {
                if i < rest.len() {
                    assert(rest[i] == texts[i]);
                }
            }
        } else if capabilities_flaw(rest) is Some {
            let i = choose|i: int|
                0 <= i < rest.len() && !(CapabilityKind::flaw(#[trigger] rest[i]) is None);
            assert(texts[i] == rest[i]);
        } else {
            assert(texts[texts.len() - 1] == texts.last());
        }
    }
}

/// Texts are ordered strictly: none is below itself, of two different ones one is below the other
/// and not the other way round.
pub proof fn law_texts_are_ordered(left: Seq<char>, right: Seq<char>)
    ensures
        !text_less(left, left),
        text_less(left, right) ==> !text_less(right, left),
        left != right ==> text_less(left, right) || text_less(right, left),
    decreases left.len(),
{
    if left.len() > 0 {
        if right.len() > 0 {
            law_texts_are_ordered(left.drop_first(), right.drop_first());
            if left[0] == right[0] && left.drop_first() == right.drop_first() {
                assert(left =~= seq![left[0]] + left.drop_first());
                assert(right =~= seq![right[0]] + right.drop_first());
            }
        } else {
            law_texts_are_ordered(left.drop_first(), right);
        }
    } else if right.len() == 0 {
        assert(left =~= right);
    }
}

/// A number is written with its digits: the last one is its remainder by ten, and what stands
/// before is its tenth.
pub proof fn law_decimals_are_written_by_digits(number: nat)
    ensures
        decimal(number).len() > 0,
        decimal(number).last() as nat == '0' as nat + number % 10,
        number < 10 ==> decimal(number).len() == 1,
        number >= 10 ==> decimal(number).drop_last() == decimal(number / 10),
{
    if number >= 10 {
        assert(decimal(number).drop_last() =~= decimal(number / 10));
    }
}

/// Namespaces, Tasks, Consumer Groups, members, leases and capabilities are named by identifiers of
/// at most 128 bytes. Objectives and results are any text but the empty one.
pub proof fn law_how_items_are_named(text: Seq<char>)
    ensures
        ({
            let named = identifier_flaw(encode_utf8(text), 128) is None;
            &&& (NamespaceKind::flaw(text) is None) == named
            &&& (TaskKind::flaw(text) is None) == named
            &&& (ConsumerGroupKind::flaw(text) is None) == named
            &&& (ConsumerKind::flaw(text) is None) == named
            &&& (LeaseKind::flaw(text) is None) == named
            &&& (CapabilityKind::flaw(text) is None) == named
        }),
        (ObjectiveKind::flaw(text) is None) == (text.len() > 0),
        (OutcomeKind::flaw(text) is None) == (text.len() > 0),
{
}

/// Every flaw of an identifier has its own words, the first one found.
pub proof fn law_what_flawed_identifiers_say(bytes: Seq<u8>, max_bytes: int)
    ensures
        bytes.len() == 0 ==> identifier_flaw(bytes, max_bytes) == Some("must not be empty"@),
        0 < bytes.len() && bytes.len() > max_bytes ==> identifier_flaw(bytes, max_bytes) == Some(
            "must be at most 128 ASCII bytes"@,
        ),
        0 < bytes.len() <= max_bytes && !is_letter_or_digit(bytes[0]) ==> identifier_flaw(
            bytes,
            max_bytes,
        ) == Some("must start with an ASCII alphanumeric character"@),
{
    assert('0' as u8 == 48 && '9' as u8 == 57 && 'A' as u8 == 65 && 'Z' as u8 == 90);
    assert('a' as u8 == 97 && 'z' as u8 == 122);
    if bytes.len() > 0 {
        assert(is_ascii_alphanumeric_byte(bytes[0]) == is_letter_or_digit(bytes[0]));
    }
}

/// The default nodes count from one, each on its own pair of local ports.
pub proof fn law_default_nodes_are_counted(index: int)
    requires
        0 <= index < 3,
    ensures
        default_node(index).node_id == index + 1,
        default_node(index).broker_address == (SocketAddress::V4 {
            a: 127,
            b: 0,
            c: 0,
            d: 1,
            port: (8811 + index) as u16,
        }),
        default_node(index).operations_address == (SocketAddress::V4 {
            a: 127,
            b: 0,
            c: 0,
            d: 1,
            port: (9811 + index) as u16,
        }),
{
}

/// The sessions of a list are those that stand in it, each under its own id.
pub proof fn law_lists_hold_their_sessions(entries: Seq<SessionEntry>, index: int)
    requires
        entries_ascend(entries),
        0 <= index < entries.len(),
    ensures
        entries_map(entries).contains_key(entries[index].session_id@),
        entries_map(entries)[entries[index].session_id@] == entries[index].record@,
{
    crate::command_sessions::lemma_entry_at(entries, index);
}

/// A session that stands nowhere in a list is none of its sessions.
pub proof fn law_lists_hold_no_other_sessions(entries: Seq<SessionEntry>, id: Seq<char>)
    requires
        forall|i: int| 0 <= i < entries.len() ==> (#[trigger] entries[i]).session_id@ != id,
    ensures
        !entries_map(entries).contains_key(id),
{
    if entries_map(entries).contains_key(id) {
        let keys = crate::command_sessions::entry_keys(entries);
        let i = choose|i: int| 0 <= i < keys.len() && keys[i] == id;
        assert(entries[i].session_id@ == id);
    }
}

} // verus!
