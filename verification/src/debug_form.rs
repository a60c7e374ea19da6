//! Results written out with all their values, for messages: in their durable form, and as the
//! domain results that they stand for.
use crate::replicated_response::{
    ReplicatedBrokerMutationResultV1, ReplicatedMutationMetadataV1, ReplicatedTaskStatusV1,
};
use crate::text::{decimal, push_decimal};
use vstd::prelude::*;

verus! {

/// A text as the `Debug` form of `str` shows it: in quotation marks, with escapes.
pub uninterp spec fn quoted_text(text: Seq<char>) -> Seq<char>;

/// `<str as std::fmt::Debug>::fmt`. The quoted form depends on the text alone. Which characters are
/// escaped is not stated.
#[verifier::external_body]
fn quote(text: &str) -> (r: String)
    ensures
        r@ == quoted_text(text@),
{
    format!("{text:?}")
}

/// Names and values, separated by commas.
pub open spec fn fields_text(fields: Seq<(Seq<char>, Seq<char>)>) -> Seq<char>
    decreases fields.len(),
{
    if fields.len() == 0 {
        Seq::empty()
    } else if fields.len() == 1 {
        fields[0].0 + ": "@ + fields[0].1
    } else {
        fields_text(fields.drop_last()) + ", "@ + fields.last().0 + ": "@ + fields.last().1
    }
}

/// A named record with its fields.
pub open spec fn record_text(name: Seq<char>, fields: Seq<(Seq<char>, Seq<char>)>) -> Seq<char> {
    name + " { "@ + fields_text(fields) + " }"@
}

/// The plain values of a list of fields.
pub open spec fn field_list(fields: Seq<(&'static str, String)>) -> Seq<(Seq<char>, Seq<char>)> {
    fields.map_values(|field: (&'static str, String)| (field.0@, field.1@))
}

fn record_form(name: &str, fields: &Vec<(&'static str, String)>) -> (r: String)
    ensures
        r@ == record_text(name@, field_list(fields@)),
{
    let mut out = name.to_owned().concat(" { ");
    let ghost head = out@;
    let ghost all = field_list(fields@);
    let mut index: usize = 0;
    assert(head + fields_text(all.take(0)) =~= head);
    while index < fields.len()
        invariant
            index <= fields@.len(),
            all == field_list(fields@),
            out@ == head + fields_text(all.take(index as int)),
        decreases fields.len() - index,
    {
        let ghost taken = all.take(index + 1);
        assert(taken.drop_last() =~= all.take(index as int));
        let field = &fields[index];
        assert(taken.last() == (field.0@, field.1@));
        if index > 0 {
            out.append(", ");
        }
        out.append(field.0);
        out.append(": ");
        out.append(field.1.as_str());
        assert(out@ =~= head + fields_text(taken));
        index = index + 1;
    }
    assert(all.take(index as int) =~= all);
    out.append(" }");
    assert(out@ =~= record_text(name@, all));
    out
}

fn number_form(number: u64) -> (r: String)
    ensures
        r@ == decimal(number as nat),
{
    let mut out = "".to_owned();
    push_decimal(&mut out, number);
    proof {
        reveal_strlit("");
    }
    assert(out@ =~= decimal(number as nat));
    out
}

/// An optional value.
pub open spec fn optional_value_text(value: Option<Seq<char>>) -> Seq<char> {
    match value {
        Some(text) => "Some("@ + text + ")"@,
        None => "None"@,
    }
}

/// An optional text in quotation marks, if there is one.
pub open spec fn quoted_option(value: Option<String>) -> Option<Seq<char>> {
    match value {
        Some(text) => Some(quoted_text(text@)),
        None => None,
    }
}

/// The digits of an optional number, if there is one.
pub open spec fn number_option(value: Option<u64>) -> Option<Seq<char>> {
    match value {
        Some(number) => Some(decimal(number as nat)),
        None => None,
    }
}

/// An optional text in quotation marks.
pub open spec fn optional_quoted_text(value: Option<String>) -> Seq<char> {
    optional_value_text(quoted_option(value))
}

/// An optional number.
pub open spec fn optional_number_text(value: Option<u64>) -> Seq<char> {
    optional_value_text(number_option(value))
}

fn optional_quoted_form(value: &Option<String>) -> (r: String)
    ensures
        r@ == optional_quoted_text(*value),
{
    match value {
        Some(text) => "Some(".to_owned().concat(quote(text.as_str()).as_str()).concat(")"),
        None => "None".to_owned(),
    }
}

fn optional_number_form(value: Option<u64>) -> (r: String)
    ensures
        r@ == optional_number_text(value),
{
    match value {
        Some(number) => "Some(".to_owned().concat(number_form(number).as_str()).concat(")"),
        None => "None".to_owned(),
    }
}

/// The term and revision of a durable result.
pub open spec fn metadata_text(metadata: ReplicatedMutationMetadataV1) -> Seq<char> {
    record_text(
        "ReplicatedMutationMetadataV1"@,
        seq![
            ("term"@, decimal(metadata.term as nat)),
            ("revision"@, decimal(metadata.revision as nat)),
        ],
    )
}

fn metadata_form(metadata: ReplicatedMutationMetadataV1) -> (r: String)
    ensures
        r@ == metadata_text(metadata),
{
    let fields = vec![
        ("term", number_form(metadata.term)),
        ("revision", number_form(metadata.revision)),
    ];
    assert(field_list(fields@) =~= seq![
        ("term"@, decimal(metadata.term as nat)),
        ("revision"@, decimal(metadata.revision as nat)),
    ]);
    record_form("ReplicatedMutationMetadataV1", &fields)
}

/// The lifecycle state of a Task.
pub open spec fn status_text(status: ReplicatedTaskStatusV1) -> Seq<char> {
    match status {
        ReplicatedTaskStatusV1::Queued => "Queued"@,
        ReplicatedTaskStatusV1::Leased => "Leased"@,
        ReplicatedTaskStatusV1::Completed => "Completed"@,
    }
}

fn status_form(status: ReplicatedTaskStatusV1) -> (r: &'static str)
    ensures
        r@ == status_text(status),
{
    match status {
        ReplicatedTaskStatusV1::Queued => "Queued",
        ReplicatedTaskStatusV1::Leased => "Leased",
        ReplicatedTaskStatusV1::Completed => "Completed",
    }
}

/// The fields of a durable result with their values.
pub open spec fn result_fields(result: ReplicatedBrokerMutationResultV1) -> Seq<
    (Seq<char>, Seq<char>),
> {
    match result {
        ReplicatedBrokerMutationResultV1::Namespace {
            metadata,
            namespace_id,
            namespace_revision,
        } => seq![
            ("metadata"@, metadata_text(metadata)),
            ("namespace_id"@, quoted_text(namespace_id@)),
            ("namespace_revision"@, decimal(namespace_revision as nat)),
        ],
        ReplicatedBrokerMutationResultV1::TaskPublished {
            metadata,
            task_id,
            task_revision,
            status,
        } => seq![
            ("metadata"@, metadata_text(metadata)),
            ("task_id"@, quoted_text(task_id@)),
            ("task_revision"@, decimal(task_revision as nat)),
            ("status"@, status_text(status)),
        ],
        ReplicatedBrokerMutationResultV1::ConsumerGroup {
            metadata,
            group_id,
            generation,
            group_revision,
            member_count,
        } => seq![
            ("metadata"@, metadata_text(metadata)),
            ("group_id"@, quoted_text(group_id@)),
            ("generation"@, decimal(generation as nat)),
            ("group_revision"@, decimal(group_revision as nat)),
            ("member_count"@, decimal(member_count as nat)),
        ],
        ReplicatedBrokerMutationResultV1::Heartbeat {
            metadata,
            group_id,
            member_id,
            generation,
            member_revision,
        } => seq![
            ("metadata"@, metadata_text(metadata)),
            ("group_id"@, quoted_text(group_id@)),
            ("member_id"@, quoted_text(member_id@)),
            ("generation"@, decimal(generation as nat)),
            ("member_revision"@, decimal(member_revision as nat)),
        ],
        ReplicatedBrokerMutationResultV1::StaleMembersReaped {
            metadata,
            reaped_count,
            affected_group_count,
        } => seq![
            ("metadata"@, metadata_text(metadata)),
            ("reaped_count"@, decimal(reaped_count as nat)),
            ("affected_group_count"@, decimal(affected_group_count as nat)),
        ],
        ReplicatedBrokerMutationResultV1::TaskClaim {
            metadata,
            task_id,
            objective,
            task_revision,
            lease_id,
            lease_epoch,
            lease_expires_at_ms,
            generation,
        } => seq![
            ("metadata"@, metadata_text(metadata)),
            ("task_id"@, optional_quoted_text(task_id)),
            ("objective"@, optional_quoted_text(objective)),
            ("task_revision"@, optional_number_text(task_revision)),
            ("lease_id"@, optional_quoted_text(lease_id)),
            ("lease_epoch"@, optional_number_text(lease_epoch)),
            ("lease_expires_at_ms"@, optional_number_text(lease_expires_at_ms)),
            ("generation"@, decimal(generation as nat)),
        ],
        ReplicatedBrokerMutationResultV1::TaskLeaseRenewed {
            metadata,
            task_id,
            task_revision,
            lease_id,
            lease_epoch,
            lease_expires_at_ms,
            generation,
        } => seq![
            ("metadata"@, metadata_text(metadata)),
            ("task_id"@, quoted_text(task_id@)),
            ("task_revision"@, decimal(task_revision as nat)),
            ("lease_id"@, quoted_text(lease_id@)),
            ("lease_epoch"@, decimal(lease_epoch as nat)),
            ("lease_expires_at_ms"@, decimal(lease_expires_at_ms as nat)),
            ("generation"@, decimal(generation as nat)),
        ],
        ReplicatedBrokerMutationResultV1::TaskCompleted {
            metadata,
            task_id,
            task_revision,
            status,
        } => seq![
            ("metadata"@, metadata_text(metadata)),
            ("task_id"@, quoted_text(task_id@)),
            ("task_revision"@, decimal(task_revision as nat)),
            ("status"@, status_text(status)),
        ],
        ReplicatedBrokerMutationResultV1::CompletedTasksPruned { metadata, pruned_count } => seq![
            ("metadata"@, metadata_text(metadata)),
            ("pruned_count"@, decimal(pruned_count as nat)),
        ],
        ReplicatedBrokerMutationResultV1::TermAdvanced { metadata } => seq![
            ("metadata"@, metadata_text(metadata)),
        ],
    }
}

/// The kind of a durable result.
pub open spec fn result_kind(result: ReplicatedBrokerMutationResultV1) -> Seq<char> {
    match result {
        ReplicatedBrokerMutationResultV1::Namespace { .. } => "Namespace"@,
        ReplicatedBrokerMutationResultV1::TaskPublished { .. } => "TaskPublished"@,
        ReplicatedBrokerMutationResultV1::ConsumerGroup { .. } => "ConsumerGroup"@,
        ReplicatedBrokerMutationResultV1::Heartbeat { .. } => "Heartbeat"@,
        ReplicatedBrokerMutationResultV1::StaleMembersReaped { .. } => "StaleMembersReaped"@,
        ReplicatedBrokerMutationResultV1::TaskClaim { .. } => "TaskClaim"@,
        ReplicatedBrokerMutationResultV1::TaskLeaseRenewed { .. } => "TaskLeaseRenewed"@,
        ReplicatedBrokerMutationResultV1::TaskCompleted { .. } => "TaskCompleted"@,
        ReplicatedBrokerMutationResultV1::CompletedTasksPruned { .. } => "CompletedTasksPruned"@,
        ReplicatedBrokerMutationResultV1::TermAdvanced { .. } => "TermAdvanced"@,
    }
}

/// A durable result with all its values.
pub open spec fn result_text(result: ReplicatedBrokerMutationResultV1) -> Seq<char> {
    record_text(result_kind(result), result_fields(result))
}

/// Write out a durable result.
pub fn result_form(result: &ReplicatedBrokerMutationResultV1) -> (r: String)
    ensures
        r@ == result_text(*result),
{
    match result {
        ReplicatedBrokerMutationResultV1::Namespace {
            metadata,
            namespace_id,
            namespace_revision,
        } => {
            let fields = vec![
                ("metadata", metadata_form(*metadata)),
                ("namespace_id", quote(namespace_id.as_str())),
                ("namespace_revision", number_form(*namespace_revision)),
            ];
            assert(field_list(fields@) =~= result_fields(*result));
            record_form("Namespace", &fields)
        },
        ReplicatedBrokerMutationResultV1::TaskPublished {
            metadata,
            task_id,
            task_revision,
            status,
        } => {
            let fields = vec![
                ("metadata", metadata_form(*metadata)),
                ("task_id", quote(task_id.as_str())),
                ("task_revision", number_form(*task_revision)),
                ("status", status_form(*status).to_owned()),
            ];
            assert(field_list(fields@) =~= result_fields(*result));
            record_form("TaskPublished", &fields)
        },
        ReplicatedBrokerMutationResultV1::ConsumerGroup {
            metadata,
            group_id,
            generation,
            group_revision,
            member_count,
        } => {
            let fields = vec![
                ("metadata", metadata_form(*metadata)),
                ("group_id", quote(group_id.as_str())),
                ("generation", number_form(*generation)),
                ("group_revision", number_form(*group_revision)),
                ("member_count", number_form(*member_count)),
            ];
            assert(field_list(fields@) =~= result_fields(*result));
            record_form("ConsumerGroup", &fields)
        },
        ReplicatedBrokerMutationResultV1::Heartbeat {
            metadata,
            group_id,
            member_id,
            generation,
            member_revision,
        } => {
            let fields = vec![
                ("metadata", metadata_form(*metadata)),
                ("group_id", quote(group_id.as_str())),
                ("member_id", quote(member_id.as_str())),
                ("generation", number_form(*generation)),
                ("member_revision", number_form(*member_revision)),
            ];
            assert(field_list(fields@) =~= result_fields(*result));
            record_form("Heartbeat", &fields)
        },
        ReplicatedBrokerMutationResultV1::StaleMembersReaped {
            metadata,
            reaped_count,
            affected_group_count,
        } => {
            let fields = vec![
                ("metadata", metadata_form(*metadata)),
                ("reaped_count", number_form(*reaped_count)),
                ("affected_group_count", number_form(*affected_group_count)),
            ];
            assert(field_list(fields@) =~= result_fields(*result));
            record_form("StaleMembersReaped", &fields)
        },
        ReplicatedBrokerMutationResultV1::TaskClaim {
            metadata,
            task_id,
            objective,
            task_revision,
            lease_id,
            lease_epoch,
            lease_expires_at_ms,
            generation,
        } => {
            let fields = vec![
                ("metadata", metadata_form(*metadata)),
                ("task_id", optional_quoted_form(task_id)),
                ("objective", optional_quoted_form(objective)),
                ("task_revision", optional_number_form(*task_revision)),
                ("lease_id", optional_quoted_form(lease_id)),
                ("lease_epoch", optional_number_form(*lease_epoch)),
                ("lease_expires_at_ms", optional_number_form(*lease_expires_at_ms)),
                ("generation", number_form(*generation)),
            ];
            assert(field_list(fields@) =~= result_fields(*result));
            record_form("TaskClaim", &fields)
        },
        ReplicatedBrokerMutationResultV1::TaskLeaseRenewed {
            metadata,
            task_id,
            task_revision,
            lease_id,
            lease_epoch,
            lease_expires_at_ms,
            generation,
        } => {
            let fields = vec![
                ("metadata", metadata_form(*metadata)),
                ("task_id", quote(task_id.as_str())),
                ("task_revision", number_form(*task_revision)),
                ("lease_id", quote(lease_id.as_str())),
                ("lease_epoch", number_form(*lease_epoch)),
                ("lease_expires_at_ms", number_form(*lease_expires_at_ms)),
                ("generation", number_form(*generation)),
            ];
            assert(field_list(fields@) =~= result_fields(*result));
            record_form("TaskLeaseRenewed", &fields)
        },
        ReplicatedBrokerMutationResultV1::TaskCompleted {
            metadata,
            task_id,
            task_revision,
            status,
        } => {
            let fields = vec![
                ("metadata", metadata_form(*metadata)),
                ("task_id", quote(task_id.as_str())),
                ("task_revision", number_form(*task_revision)),
                ("status", status_form(*status).to_owned()),
            ];
            assert(field_list(fields@) =~= result_fields(*result));
            record_form("TaskCompleted", &fields)
        },
        ReplicatedBrokerMutationResultV1::CompletedTasksPruned { metadata, pruned_count } => {
            let fields = vec![
                ("metadata", metadata_form(*metadata)),
                ("pruned_count", number_form(*pruned_count)),
            ];
            assert(field_list(fields@) =~= result_fields(*result));
            record_form("CompletedTasksPruned", &fields)
        },
        ReplicatedBrokerMutationResultV1::TermAdvanced { metadata } => {
            let fields = vec![
                ("metadata", metadata_form(*metadata)),
            ];
            assert(field_list(fields@) =~= result_fields(*result));
            record_form("TermAdvanced", &fields)
        },
    }
}

/// A value inside the name of its type.
pub open spec fn wrapped_text(name: Seq<char>, value: Seq<char>) -> Seq<char> {
    name + "("@ + value + ")"@
}

fn wrapped_form(name: &str, value: String) -> (r: String)
    ensures
        r@ == wrapped_text(name@, value@),
{
    name.to_owned().concat("(").concat(value.as_str()).concat(")")
}

/// An optional value inside the name of its type.
pub open spec fn optional_wrapped_text(name: Seq<char>, value: Option<Seq<char>>) -> Seq<char> {
    optional_value_text(
        match value {
            Some(text) => Some(wrapped_text(name, text)),
            None => None,
        },
    )
}

fn optional_wrapped_quoted_form(name: &str, value: &Option<String>) -> (r: String)
    ensures
        r@ == optional_wrapped_text(name@, quoted_option(*value)),
{
    match value {
        Some(text) => {
            let wrapped = wrapped_form(name, quote(text.as_str()));
            "Some(".to_owned().concat(wrapped.as_str()).concat(")")
        },
        None => "None".to_owned(),
    }
}

fn optional_wrapped_number_form(name: &str, value: Option<u64>) -> (r: String)
    ensures
        r@ == optional_wrapped_text(name@, number_option(value)),
{
    match value {
        Some(number) => {
            let wrapped = wrapped_form(name, number_form(number));
            "Some(".to_owned().concat(wrapped.as_str()).concat(")")
        },
        None => "None".to_owned(),
    }
}

/// The term and revision of a domain result.
pub open spec fn domain_metadata_text(metadata: ReplicatedMutationMetadataV1) -> Seq<char> {
    record_text(
        "MutationMetadata"@,
        seq![
            ("term"@, wrapped_text("Term"@, decimal(metadata.term as nat))),
            ("revision"@, wrapped_text("Revision"@, decimal(metadata.revision as nat))),
        ],
    )
}

fn domain_metadata_form(metadata: ReplicatedMutationMetadataV1) -> (r: String)
    ensures
        r@ == domain_metadata_text(metadata),
{
    let fields = vec![
        ("term", wrapped_form("Term", number_form(metadata.term))),
        ("revision", wrapped_form("Revision", number_form(metadata.revision))),
    ];
    assert(field_list(fields@) =~= seq![
        ("term"@, wrapped_text("Term"@, decimal(metadata.term as nat))),
        ("revision"@, wrapped_text("Revision"@, decimal(metadata.revision as nat))),
    ]);
    record_form("MutationMetadata", &fields)
}

/// The fields of the domain result that a durable result stands for.
pub open spec fn domain_fields(result: ReplicatedBrokerMutationResultV1) -> Seq<
    (Seq<char>, Seq<char>),
> {
    match result {
        ReplicatedBrokerMutationResultV1::Namespace {
            metadata,
            namespace_id,
            namespace_revision,
        } => seq![
            ("metadata"@, domain_metadata_text(metadata)),
            ("namespace_id"@, wrapped_text("NamespaceId"@, quoted_text(namespace_id@))),
            ("namespace_revision"@, wrapped_text("Revision"@, decimal(namespace_revision as nat))),
        ],
        ReplicatedBrokerMutationResultV1::TaskPublished {
            metadata,
            task_id,
            task_revision,
            status,
        } => seq![
            ("metadata"@, domain_metadata_text(metadata)),
            ("task_id"@, wrapped_text("TaskId"@, quoted_text(task_id@))),
            ("task_revision"@, wrapped_text("Revision"@, decimal(task_revision as nat))),
            ("status"@, status_text(status)),
        ],
        ReplicatedBrokerMutationResultV1::ConsumerGroup {
            metadata,
            group_id,
            generation,
            group_revision,
            member_count,
        } => seq![
            ("metadata"@, domain_metadata_text(metadata)),
            ("group_id"@, wrapped_text("ConsumerGroupId"@, quoted_text(group_id@))),
            ("generation"@, wrapped_text("Generation"@, decimal(generation as nat))),
            ("group_revision"@, wrapped_text("Revision"@, decimal(group_revision as nat))),
            ("member_count"@, decimal(member_count as nat)),
        ],
        ReplicatedBrokerMutationResultV1::Heartbeat {
            metadata,
            group_id,
            member_id,
            generation,
            member_revision,
        } => seq![
            ("metadata"@, domain_metadata_text(metadata)),
            ("group_id"@, wrapped_text("ConsumerGroupId"@, quoted_text(group_id@))),
            ("member_id"@, wrapped_text("ConsumerId"@, quoted_text(member_id@))),
            ("generation"@, wrapped_text("Generation"@, decimal(generation as nat))),
            ("member_revision"@, wrapped_text("Revision"@, decimal(member_revision as nat))),
        ],
        ReplicatedBrokerMutationResultV1::StaleMembersReaped {
            metadata,
            reaped_count,
            affected_group_count,
        } => seq![
            ("metadata"@, domain_metadata_text(metadata)),
            ("reaped_count"@, decimal(reaped_count as nat)),
            ("affected_group_count"@, decimal(affected_group_count as nat)),
        ],
        ReplicatedBrokerMutationResultV1::TaskClaim {
            metadata,
            task_id,
            objective,
            task_revision,
            lease_id,
            lease_epoch,
            lease_expires_at_ms,
            generation,
        } => seq![
            ("metadata"@, domain_metadata_text(metadata)),
            ("task_id"@, optional_wrapped_text("TaskId"@, quoted_option(task_id))),
            ("objective"@, optional_wrapped_text("TaskObjective"@, quoted_option(objective))),
            ("task_revision"@, optional_wrapped_text("Revision"@, number_option(task_revision))),
            ("lease_id"@, optional_wrapped_text("LeaseId"@, quoted_option(lease_id))),
            ("lease_epoch"@, optional_wrapped_text("LeaseEpoch"@, number_option(lease_epoch))),
            (
                "lease_expires_at_ms"@,
                optional_wrapped_text("TimestampMs"@, number_option(lease_expires_at_ms)),
            ),
            ("generation"@, wrapped_text("Generation"@, decimal(generation as nat))),
        ],
        ReplicatedBrokerMutationResultV1::TaskLeaseRenewed {
            metadata,
            task_id,
            task_revision,
            lease_id,
            lease_epoch,
            lease_expires_at_ms,
            generation,
        } => seq![
            ("metadata"@, domain_metadata_text(metadata)),
            ("task_id"@, wrapped_text("TaskId"@, quoted_text(task_id@))),
            ("task_revision"@, wrapped_text("Revision"@, decimal(task_revision as nat))),
            ("lease_id"@, wrapped_text("LeaseId"@, quoted_text(lease_id@))),
            ("lease_epoch"@, wrapped_text("LeaseEpoch"@, decimal(lease_epoch as nat))),
            (
                "lease_expires_at_ms"@,
                wrapped_text("TimestampMs"@, decimal(lease_expires_at_ms as nat)),
            ),
            ("generation"@, wrapped_text("Generation"@, decimal(generation as nat))),
        ],
        ReplicatedBrokerMutationResultV1::TaskCompleted {
            metadata,
            task_id,
            task_revision,
            status,
        } => seq![
            ("metadata"@, domain_metadata_text(metadata)),
            ("task_id"@, wrapped_text("TaskId"@, quoted_text(task_id@))),
            ("task_revision"@, wrapped_text("Revision"@, decimal(task_revision as nat))),
            ("status"@, status_text(status)),
        ],
        ReplicatedBrokerMutationResultV1::CompletedTasksPruned { metadata, pruned_count } => seq![
            ("metadata"@, domain_metadata_text(metadata)),
            ("pruned_count"@, decimal(pruned_count as nat)),
        ],
        ReplicatedBrokerMutationResultV1::TermAdvanced { metadata } => seq![
            ("metadata"@, domain_metadata_text(metadata)),
        ],
    }
}

/// The domain result that a durable result stands for, with all its values: the variant, and in it
/// the record of its kind, whose identifiers and numbers stand inside the names of their types.
pub open spec fn domain_result_text(result: ReplicatedBrokerMutationResultV1) -> Seq<char> {
    wrapped_text(
        result_kind(result),
        record_text(result_kind(result) + "Result"@, domain_fields(result)),
    )
}

fn domain_form(kind: &str, fields: &Vec<(&'static str, String)>) -> (r: String)
    ensures
        r@ == wrapped_text(kind@, record_text(kind@ + "Result"@, field_list(fields@))),
{
    let record = kind.to_owned().concat("Result");
    wrapped_form(kind, record_form(record.as_str(), fields))
}

/// Write out the domain result that a durable result stands for.
#[verifier::rlimit(60)]
#[verifier::spinoff_prover]
pub fn domain_result_form(result: &ReplicatedBrokerMutationResultV1) -> (r: String)
    ensures
        r@ == domain_result_text(*result),
{
    match result {
        ReplicatedBrokerMutationResultV1::Namespace {
            metadata,
            namespace_id,
            namespace_revision,
        } => {
            let fields = vec![
                ("metadata", domain_metadata_form(*metadata)),
                ("namespace_id", wrapped_form("NamespaceId", quote(namespace_id.as_str()))),
                ("namespace_revision", wrapped_form("Revision", number_form(*namespace_revision))),
            ];
            assert(field_list(fields@) =~= domain_fields(*result));
            domain_form("Namespace", &fields)
        },
        ReplicatedBrokerMutationResultV1::TaskPublished {
            metadata,
            task_id,
            task_revision,
            status,
        } => {
            let fields = vec![
                ("metadata", domain_metadata_form(*metadata)),
                ("task_id", wrapped_form("TaskId", quote(task_id.as_str()))),
                ("task_revision", wrapped_form("Revision", number_form(*task_revision))),
                ("status", status_form(*status).to_owned()),
            ];
            assert(field_list(fields@) =~= domain_fields(*result));
            domain_form("TaskPublished", &fields)
        },
        ReplicatedBrokerMutationResultV1::ConsumerGroup {
            metadata,
            group_id,
            generation,
            group_revision,
            member_count,
        } => {
            let fields = vec![
                ("metadata", domain_metadata_form(*metadata)),
                ("group_id", wrapped_form("ConsumerGroupId", quote(group_id.as_str()))),
                ("generation", wrapped_form("Generation", number_form(*generation))),
                ("group_revision", wrapped_form("Revision", number_form(*group_revision))),
                ("member_count", number_form(*member_count)),
            ];
            assert(field_list(fields@) =~= domain_fields(*result));
            domain_form("ConsumerGroup", &fields)
        },
        ReplicatedBrokerMutationResultV1::Heartbeat {
            metadata,
            group_id,
            member_id,
            generation,
            member_revision,
        } => {
            let fields = vec![
                ("metadata", domain_metadata_form(*metadata)),
                ("group_id", wrapped_form("ConsumerGroupId", quote(group_id.as_str()))),
                ("member_id", wrapped_form("ConsumerId", quote(member_id.as_str()))),
                ("generation", wrapped_form("Generation", number_form(*generation))),
                ("member_revision", wrapped_form("Revision", number_form(*member_revision))),
            ];
            assert(field_list(fields@) =~= domain_fields(*result));
            domain_form("Heartbeat", &fields)
        },
        ReplicatedBrokerMutationResultV1::StaleMembersReaped {
            metadata,
            reaped_count,
            affected_group_count,
        } => {
            let fields = vec![
                ("metadata", domain_metadata_form(*metadata)),
                ("reaped_count", number_form(*reaped_count)),
                ("affected_group_count", number_form(*affected_group_count)),
            ];
            assert(field_list(fields@) =~= domain_fields(*result));
            domain_form("StaleMembersReaped", &fields)
        },
        ReplicatedBrokerMutationResultV1::TaskClaim {
            metadata,
            task_id,
            objective,
            task_revision,
            lease_id,
            lease_epoch,
            lease_expires_at_ms,
            generation,
        } => {
            let fields = vec![
                ("metadata", domain_metadata_form(*metadata)),
                ("task_id", optional_wrapped_quoted_form("TaskId", task_id)),
                ("objective", optional_wrapped_quoted_form("TaskObjective", objective)),
                ("task_revision", optional_wrapped_number_form("Revision", *task_revision)),
                ("lease_id", optional_wrapped_quoted_form("LeaseId", lease_id)),
                ("lease_epoch", optional_wrapped_number_form("LeaseEpoch", *lease_epoch)),
                (
                    "lease_expires_at_ms",
                    optional_wrapped_number_form("TimestampMs", *lease_expires_at_ms),
                ),
                ("generation", wrapped_form("Generation", number_form(*generation))),
            ];
            assert(field_list(fields@) =~= domain_fields(*result));
            domain_form("TaskClaim", &fields)
        },
        ReplicatedBrokerMutationResultV1::TaskLeaseRenewed {
            metadata,
            task_id,
            task_revision,
            lease_id,
            lease_epoch,
            lease_expires_at_ms,
            generation,
        } => {
            let fields = vec![
                ("metadata", domain_metadata_form(*metadata)),
                ("task_id", wrapped_form("TaskId", quote(task_id.as_str()))),
                ("task_revision", wrapped_form("Revision", number_form(*task_revision))),
                ("lease_id", wrapped_form("LeaseId", quote(lease_id.as_str()))),
                ("lease_epoch", wrapped_form("LeaseEpoch", number_form(*lease_epoch))),
                (
                    "lease_expires_at_ms",
                    wrapped_form("TimestampMs", number_form(*lease_expires_at_ms)),
                ),
                ("generation", wrapped_form("Generation", number_form(*generation))),
            ];
            assert(field_list(fields@) =~= domain_fields(*result));
            domain_form("TaskLeaseRenewed", &fields)
        },
        ReplicatedBrokerMutationResultV1::TaskCompleted {
            metadata,
            task_id,
            task_revision,
            status,
        } => {
            let fields = vec![
                ("metadata", domain_metadata_form(*metadata)),
                ("task_id", wrapped_form("TaskId", quote(task_id.as_str()))),
                ("task_revision", wrapped_form("Revision", number_form(*task_revision))),
                ("status", status_form(*status).to_owned()),
            ];
            assert(field_list(fields@) =~= domain_fields(*result));
            domain_form("TaskCompleted", &fields)
        },
        ReplicatedBrokerMutationResultV1::CompletedTasksPruned { metadata, pruned_count } => {
            let fields = vec![
                ("metadata", domain_metadata_form(*metadata)),
                ("pruned_count", number_form(*pruned_count)),
            ];
            assert(field_list(fields@) =~= domain_fields(*result));
            domain_form("CompletedTasksPruned", &fields)
        },
        ReplicatedBrokerMutationResultV1::TermAdvanced { metadata } => {
            let fields = vec![
                ("metadata", domain_metadata_form(*metadata)),
            ];
            assert(field_list(fields@) =~= domain_fields(*result));
            domain_form("TermAdvanced", &fields)
        },
    }
}

} // verus!
