//! Topology, errors and readiness rules of a static three-node cluster.
use crate::address::SocketAddress;
use crate::client_config::{MAX_FRAME_BYTES, MIN_FRAME_BYTES};
use crate::client_error::ClientError;
use crate::json::{json_document, Json, JsonView};
use crate::text::{decimal, push_decimal};
use crate::time_span::{TimeSpan, NANOS_PER_SECOND};
use vstd::prelude::*;

verus! {

pub const OPERATIONS_SCHEMA_VERSION: u64 = 1;

pub const DEFAULT_ROUTER_TIMEOUT_SECONDS: u64 = 2;

pub const DEFAULT_ROUTER_FRAME_BYTES: usize = 131_072;

pub const DEFAULT_ROUTING_ATTEMPTS: usize = 3;

/// One member of the cluster.
#[derive(Debug, Clone, Copy, PartialEq, Eq, Structural)]
pub struct StaticClusterNode {
    pub node_id: u64,
    pub broker_address: SocketAddress,
    pub operations_address: SocketAddress,
}

/// Bound on the attempts to route one frame.
#[derive(Debug, Clone, Copy, PartialEq, Eq, Structural)]
pub struct StaticClusterRoutingRetryPolicy {
    max_attempts: usize,
}

impl View for StaticClusterRoutingRetryPolicy {
    type V = usize;

    closed spec fn view(&self) -> usize {
        self.max_attempts
    }
}

impl StaticClusterRoutingRetryPolicy {
    /// At least one attempt is made.
    #[verifier::type_invariant]
    spec fn wf(&self) -> bool {
        self.max_attempts > 0
    }

    /// A policy of `max_attempts` attempts, of which there must be one.
    pub fn new(max_attempts: usize) -> (r: Option<Self>)
        ensures
            match r {
                Some(policy) => policy@ == max_attempts && max_attempts > 0,
                None => max_attempts == 0,
            },
    {
        if max_attempts == 0 {
            None
        } else {
            Some(StaticClusterRoutingRetryPolicy { max_attempts })
        }
    }

    pub fn max_attempts(self) -> (r: usize)
        ensures
            r == self@,
            r > 0,
    {
        proof {
            use_type_invariant(&self);
        }
        self.max_attempts
    }
}

impl Default for StaticClusterRoutingRetryPolicy {
    fn default() -> (r: Self)
        ensures
            r@ == DEFAULT_ROUTING_ATTEMPTS,
    {
        StaticClusterRoutingRetryPolicy { max_attempts: DEFAULT_ROUTING_ATTEMPTS }
    }
}

/// Configuration of the discovery of the one write-ready node.
#[derive(Debug, Clone, Copy, PartialEq, Eq)]
pub struct StaticClusterRouterConfig {
    pub nodes: [StaticClusterNode; 3],
    pub timeout: TimeSpan,
    pub max_response_frame_bytes: usize,
    pub retry_policy: StaticClusterRoutingRetryPolicy,
}

/// Why a request could not be routed.
#[derive(Debug, PartialEq, Eq)]
pub enum StaticClusterRoutingError {
    InvalidConfiguration(String),
    InvalidOperationsResponse { node_id: u64, reason: String },
    NoWriteReadyLeader,
    MultipleWriteReadyLeaders(Vec<u64>),
    Client(ClientError),
}

/// The plain values of a routing failure.
pub enum RoutingErrorView {
    InvalidConfiguration(Seq<char>),
    InvalidOperationsResponse { node_id: u64, reason: Seq<char> },
    NoWriteReadyLeader,
    MultipleWriteReadyLeaders(Seq<u64>),
    Client(ClientError),
}

impl View for StaticClusterRoutingError {
    type V = RoutingErrorView;

    open spec fn view(&self) -> RoutingErrorView {
        match self {
            StaticClusterRoutingError::InvalidConfiguration(reason) => {
                RoutingErrorView::InvalidConfiguration(reason@)
            },
            StaticClusterRoutingError::InvalidOperationsResponse { node_id, reason } => {
                RoutingErrorView::InvalidOperationsResponse { node_id: *node_id, reason: reason@ }
            },
            StaticClusterRoutingError::NoWriteReadyLeader => RoutingErrorView::NoWriteReadyLeader,
            StaticClusterRoutingError::MultipleWriteReadyLeaders(node_ids) => {
                RoutingErrorView::MultipleWriteReadyLeaders(node_ids@)
            },
            StaticClusterRoutingError::Client(error) => RoutingErrorView::Client(*error),
        }
    }
}

/// A list of numbers in brackets, separated by commas.
pub open spec fn listed(numbers: Seq<u64>) -> Seq<char> {
    "["@ + joined_numbers(numbers) + "]"@
}

/// Numbers separated by commas.
pub open spec fn joined_numbers(numbers: Seq<u64>) -> Seq<char>
    decreases numbers.len(),
{
    if numbers.len() == 0 {
        Seq::empty()
    } else if numbers.len() == 1 {
        decimal(numbers[0] as nat)
    } else {
        joined_numbers(numbers.drop_last()) + ", "@ + decimal(numbers.last() as nat)
    }
}

impl RoutingErrorView {
    /// The text of a routing failure.
    pub open spec fn text(self) -> Seq<char> {
        match self {
            RoutingErrorView::InvalidConfiguration(reason) => {
                "invalid static cluster router configuration: "@ + reason
            },
            RoutingErrorView::InvalidOperationsResponse { node_id, reason } => {
                "invalid operations-v1 response from node "@ + decimal(node_id as nat) + ": "@
                    + reason
            },
            RoutingErrorView::NoWriteReadyLeader => {
                "static cluster has no observed write-ready leader"@
            },
            RoutingErrorView::MultipleWriteReadyLeaders(node_ids) => {
                "static cluster reported multiple write-ready leaders: "@ + listed(node_ids)
            },
            RoutingErrorView::Client(error) => error.text(),
        }
    }
}

fn push_numbers(text: &mut String, numbers: &Vec<u64>)
    ensures
        final(text)@ == old(text)@ + joined_numbers(numbers@),
{
    let ghost start = text@;
    let mut index: usize = 0;
    assert(numbers@.take(0) =~= Seq::<u64>::empty());
    assert(text@ =~= start + joined_numbers(numbers@.take(0)));
    while index < numbers.len()
        invariant
            index <= numbers@.len(),
            text@ == start + joined_numbers(numbers@.take(index as int)),
        decreases numbers.len() - index,
    {
        let ghost taken = numbers@.take(index + 1);
        assert(taken.drop_last() =~= numbers@.take(index as int));
        if index > 0 {
            text.append(", ");
        }
        push_decimal(text, numbers[index]);
        assert(text@ =~= start + joined_numbers(taken));
        index = index + 1;
    }
    assert(numbers@.take(index as int) =~= numbers@);
}

impl StaticClusterRoutingError {
    /// Render the failure for people.
    pub fn message(&self) -> (r: String)
        ensures
            r@ == self@.text(),
    {
        match self {
            StaticClusterRoutingError::InvalidConfiguration(reason) => {
                "invalid static cluster router configuration: ".to_owned().concat(reason.as_str())
            },
            StaticClusterRoutingError::InvalidOperationsResponse { node_id, reason } => {
                let mut text = "invalid operations-v1 response from node ".to_owned();
                push_decimal(&mut text, *node_id);
                text.append(": ");
                text.append(reason.as_str());
                text
            },
            StaticClusterRoutingError::NoWriteReadyLeader => {
                "static cluster has no observed write-ready leader".to_owned()
            },
            StaticClusterRoutingError::MultipleWriteReadyLeaders(node_ids) => {
                let mut text = "static cluster reported multiple write-ready leaders: ".to_owned();
                text.append("[");
                push_numbers(&mut text, node_ids);
                text.append("]");
                proof {
                    let head = "static cluster reported multiple write-ready leaders: "@;
                    assert(text@ =~= head + listed(node_ids@));
                }
                text
            },
            StaticClusterRoutingError::Client(error) => error.message(),
        }
    }
}

/// Why one node is refused, or `None` if it is valid.
pub open spec fn node_flaw(node: StaticClusterNode) -> Option<Seq<char>> {
    if node.node_id == 0 {
        Some("static cluster node_id must be positive"@)
    } else if !node.broker_address.spec_is_loopback()
        || !node.operations_address.spec_is_loopback() {
        Some("static cluster Broker and operations addresses must be loopback-only"@)
    } else if node.broker_address == node.operations_address {
        Some("static cluster Broker and operations addresses must be distinct"@)
    } else {
        None
    }
}

/// Whether two nodes share an id or an endpoint.
pub open spec fn collide(left: StaticClusterNode, right: StaticClusterNode) -> bool {
    left.node_id == right.node_id || left.broker_address == right.broker_address
        || left.operations_address == right.operations_address
}

/// Why a configuration is refused, or `None` if it is valid.
pub open spec fn router_flaw(config: StaticClusterRouterConfig) -> Option<Seq<char>> {
    let nodes = config.nodes@;
    if config.timeout@ == 0 {
        Some("static cluster router timeout must be positive"@)
    } else if !(MIN_FRAME_BYTES <= config.max_response_frame_bytes <= MAX_FRAME_BYTES) {
        Some("static cluster router max_response_frame_bytes must be in 4096..=1048576"@)
    } else if node_flaw(nodes[0]) is Some {
        node_flaw(nodes[0])
    } else if node_flaw(nodes[1]) is Some {
        node_flaw(nodes[1])
    } else if node_flaw(nodes[2]) is Some {
        node_flaw(nodes[2])
    } else if exists|i: int, j: int| 0 <= i < j < 3 && #[trigger] collide(nodes[i], nodes[j]) {
        Some("static cluster node IDs and endpoint addresses must be unique"@)
    } else {
        None
    }
}

fn find_node_flaw(node: &StaticClusterNode) -> (r: Option<&'static str>)
    ensures
        match r {
            Some(reason) => node_flaw(*node) == Some(reason@),
            None => node_flaw(*node) is None,
        },
{
    if node.node_id == 0 {
        Some("static cluster node_id must be positive")
    } else if !node.broker_address.is_loopback() || !node.operations_address.is_loopback() {
        Some("static cluster Broker and operations addresses must be loopback-only")
    } else if node.broker_address == node.operations_address {
        Some("static cluster Broker and operations addresses must be distinct")
    } else {
        None
    }
}

fn invalid_configuration(reason: &str) -> (r: StaticClusterRoutingError)
    ensures
        r@ == RoutingErrorView::InvalidConfiguration(reason@),
{
    StaticClusterRoutingError::InvalidConfiguration(reason.to_owned())
}

impl StaticClusterRouterConfig {
    /// Check the timeout, the answer bound, each node and that no two nodes share anything.
    pub fn validate(self) -> (r: Result<Self, StaticClusterRoutingError>)
        ensures
            match router_flaw(self) {
                None => r == Ok::<Self, StaticClusterRoutingError>(self),
                Some(reason) => r matches Err(error) && error@
                    == RoutingErrorView::InvalidConfiguration(reason),
            },
    {
        if self.timeout.is_zero() {
            return Err(invalid_configuration("static cluster router timeout must be positive"));
        }
        if self.max_response_frame_bytes < MIN_FRAME_BYTES || self.max_response_frame_bytes
            > MAX_FRAME_BYTES {
            return Err(
                invalid_configuration(
                    "static cluster router max_response_frame_bytes must be in 4096..=1048576",
                ),
            );
        }
        let mut index: usize = 0;
        while index < 3
            invariant
                index <= 3,
                self.timeout@ > 0,
                MIN_FRAME_BYTES <= self.max_response_frame_bytes <= MAX_FRAME_BYTES,
                forall|i: int| 0 <= i < index ==> node_flaw(#[trigger] self.nodes@[i]) is None,
            decreases 3 - index,
        {
            match find_node_flaw(&self.nodes[index]) {
                Some(reason) => return Err(invalid_configuration(reason)),
                None => {},
            }
            index = index + 1;
        }
        assert(node_flaw(self.nodes@[0]) is None && node_flaw(self.nodes@[1]) is None && node_flaw(
            self.nodes@[2],
        ) is None);
        let mut left: usize = 0;
        while left < 3
            invariant
                left <= 3,
                self.timeout@ > 0,
                MIN_FRAME_BYTES <= self.max_response_frame_bytes <= MAX_FRAME_BYTES,
                node_flaw(self.nodes@[0]) is None,
                node_flaw(self.nodes@[1]) is None,
                node_flaw(self.nodes@[2]) is None,
                forall|i: int, j: int|
                    0 <= i < j < 3 && i < left ==> !#[trigger] collide(
                        self.nodes@[i],
                        self.nodes@[j],
                    ),
            decreases 3 - left,
        {
            let mut right: usize = left + 1;
            while right < 3
                invariant
                    left < 3,
                    left < right <= 3,
                    self.timeout@ > 0,
                    MIN_FRAME_BYTES <= self.max_response_frame_bytes <= MAX_FRAME_BYTES,
                    node_flaw(self.nodes@[0]) is None,
                    node_flaw(self.nodes@[1]) is None,
                    node_flaw(self.nodes@[2]) is None,
                    forall|i: int, j: int|
                        0 <= i < j < 3 && (i < left || (i == left && j < right))
                            ==> !#[trigger] collide(self.nodes@[i], self.nodes@[j]),
                decreases 3 - right,
            {
                if self.nodes[left].node_id == self.nodes[right].node_id
                    || self.nodes[left].broker_address == self.nodes[right].broker_address
                    || self.nodes[left].operations_address == self.nodes[right].operations_address {
                    assert(collide(self.nodes@[left as int], self.nodes@[right as int]));
                    return Err(
                        invalid_configuration(
                            "static cluster node IDs and endpoint addresses must be unique",
                        ),
                    );
                }
                right = right + 1;
            }
            left = left + 1;
        }
        Ok(self)
    }
}

/// The node of the default topology at position `index`.
pub open spec fn default_node(index: int) -> StaticClusterNode {
    StaticClusterNode {
        node_id: (index + 1) as u64,
        broker_address: SocketAddress::spec_localhost((8811 + index) as u16),
        operations_address: SocketAddress::spec_localhost((9811 + index) as u16),
    }
}

impl Default for StaticClusterRouterConfig {
    fn default() -> (r: Self)
        ensures
            forall|i: int| 0 <= i < 3 ==> #[trigger] r.nodes@[i] == default_node(i),
            r.timeout@ == DEFAULT_ROUTER_TIMEOUT_SECONDS * NANOS_PER_SECOND,
            r.max_response_frame_bytes == DEFAULT_ROUTER_FRAME_BYTES,
            r.retry_policy@ == DEFAULT_ROUTING_ATTEMPTS,
            router_flaw(r) is None,
    {
        let config = StaticClusterRouterConfig {
            nodes: [
                StaticClusterNode {
                    node_id: 1,
                    broker_address: SocketAddress::localhost(8_811),
                    operations_address: SocketAddress::localhost(9_811),
                },
                StaticClusterNode {
                    node_id: 2,
                    broker_address: SocketAddress::localhost(8_812),
                    operations_address: SocketAddress::localhost(9_812),
                },
                StaticClusterNode {
                    node_id: 3,
                    broker_address: SocketAddress::localhost(8_813),
                    operations_address: SocketAddress::localhost(9_813),
                },
            ],
            timeout: TimeSpan::from_secs(DEFAULT_ROUTER_TIMEOUT_SECONDS),
            max_response_frame_bytes: DEFAULT_ROUTER_FRAME_BYTES,
            retry_policy: StaticClusterRoutingRetryPolicy::default(),
        };
        config
    }
}

/// What a readiness document says of node `node_id`: whether it is the write leader, or why the
/// document is refused. A node that claims to be ready must agree with itself in every part.
pub open spec fn readiness(node_id: u64, document: JsonView) -> Result<bool, Seq<char>> {
    if !(document is Object) {
        Err("response must be a JSON object"@)
    } else if document.spec_unsigned("schema_version"@) != Some(OPERATIONS_SCHEMA_VERSION)
        || !document.spec_has_text("operation"@, "readiness"@) {
        Err("schema_version/operation mismatch"@)
    } else {
        match document.spec_get("write_ready"@) {
            Some(JsonView::Bool(false)) => Ok(false),
            Some(JsonView::Bool(true)) => claimed_readiness(node_id, document),
            _ => Err("write_ready must be boolean"@),
        }
    }
}

/// What the document of a node that claims to be write-ready says.
pub open spec fn claimed_readiness(node_id: u64, document: JsonView) -> Result<bool, Seq<char>> {
    if !document.spec_has_bool("live"@, true) || !document.spec_has_text("reason"@, "ready"@)
        || !document.spec_has_bool("maintenance_authority"@, true) {
        Err("write-ready response lacked live/ready/maintenance authority"@)
    } else {
        match document.spec_get("consensus"@) {
            Some(JsonView::Object(parts)) => {
                let consensus = JsonView::Object(parts);
                if !consensus.spec_has_text("status"@, "ready"@) || !consensus.spec_has_bool(
                    "write_ready"@,
                    true,
                ) {
                    Err("write-ready response had non-ready consensus"@)
                } else {
                    match consensus.spec_get("progress"@) {
                        Some(JsonView::Object(steps)) => leadership(
                            node_id,
                            JsonView::Object(steps),
                        ),
                        _ => Err("write-ready consensus lacked progress"@),
                    }
                }
            },
            _ => Err("consensus must be an object"@),
        }
    }
}

/// What the progress of a write-ready node says of its leadership.
pub open spec fn leadership(node_id: u64, progress: JsonView) -> Result<bool, Seq<char>> {
    match progress.spec_unsigned("node_id"@) {
        None => Err("progress.node_id must be unsigned"@),
        Some(reported) => match progress.spec_unsigned("current_leader"@) {
            None => Err("progress.current_leader must be unsigned"@),
            Some(leader) => if reported != node_id || leader != node_id {
                Err(
                    "write-ready identity mismatch: configured="@ + decimal(node_id as nat)
                        + ", reported="@ + decimal(reported as nat) + ", current_leader="@
                        + decimal(leader as nat),
                )
            } else {
                Ok(true)
            },
        },
    }
}

fn invalid_operations(node_id: u64, reason: &str) -> (r: StaticClusterRoutingError)
    ensures
        r@ == (RoutingErrorView::InvalidOperationsResponse { node_id, reason: reason@ }),
{
    StaticClusterRoutingError::InvalidOperationsResponse { node_id, reason: reason.to_owned() }
}

/// Whether `r` is what a finding about node `node_id` leads to.
pub open spec fn is_finding(
    node_id: u64,
    finding: Result<bool, Seq<char>>,
    r: Result<bool, StaticClusterRoutingError>,
) -> bool {
    match finding {
        Ok(ready) => r == Ok::<bool, StaticClusterRoutingError>(ready),
        Err(reason) => r matches Err(error) && error@
            == (RoutingErrorView::InvalidOperationsResponse { node_id, reason }),
    }
}

fn validate_leadership(
    node_id: u64,
    progress: &Json,
) -> (r: Result<bool, StaticClusterRoutingError>)
    ensures
        is_finding(node_id, leadership(node_id, progress@), r),
{
    let reported: u64 = match progress.unsigned("node_id") {
        Some(reported) => reported,
        None => return Err(invalid_operations(node_id, "progress.node_id must be unsigned")),
    };
    let leader: u64 = match progress.unsigned("current_leader") {
        Some(leader) => leader,
        None => {
            return Err(invalid_operations(node_id, "progress.current_leader must be unsigned"));
        },
    };
    if reported != node_id || leader != node_id {
        let mut reason = "write-ready identity mismatch: configured=".to_owned();
        push_decimal(&mut reason, node_id);
        reason.append(", reported=");
        push_decimal(&mut reason, reported);
        reason.append(", current_leader=");
        push_decimal(&mut reason, leader);
        return Err(invalid_operations(node_id, reason.as_str()));
    }
    Ok(true)
}

fn validate_claim(node_id: u64, document: &Json) -> (r: Result<bool, StaticClusterRoutingError>)
    ensures
        is_finding(node_id, claimed_readiness(node_id, document@), r),
{
    if !document.has_bool("live", true) || !document.has_text("reason", "ready")
        || !document.has_bool("maintenance_authority", true) {
        return Err(
            invalid_operations(
                node_id,
                "write-ready response lacked live/ready/maintenance authority",
            ),
        );
    }
    let consensus = match document.get("consensus") {
        Some(consensus) => consensus,
        None => return Err(invalid_operations(node_id, "consensus must be an object")),
    };
    if !consensus.is_object() {
        return Err(invalid_operations(node_id, "consensus must be an object"));
    }
    if !consensus.has_text("status", "ready") || !consensus.has_bool("write_ready", true) {
        return Err(
            invalid_operations(node_id, "write-ready response had non-ready consensus"),
        );
    }
    let progress = match consensus.get("progress") {
        Some(progress) => progress,
        None => {
            return Err(invalid_operations(node_id, "write-ready consensus lacked progress"));
        },
    };
    if !progress.is_object() {
        return Err(invalid_operations(node_id, "write-ready consensus lacked progress"));
    }
    validate_leadership(node_id, progress)
}

/// Check a readiness document: whether it proves that `node` is the write leader.
pub fn validate_readiness(node: &StaticClusterNode, document: &Json) -> (r: Result<
    bool,
    StaticClusterRoutingError,
>)
    ensures
        is_finding(node.node_id, readiness(node.node_id, document@), r),
        document@ is Object && document@.spec_get("schema_version"@) == Some(
            JsonView::Number(Some(1u64)),
        ) && document@.spec_get("operation"@) == Some(JsonView::Text("readiness"@))
            && document@.spec_get("write_ready"@) == Some(JsonView::Bool(false)) ==> r == Ok::<
            bool,
            StaticClusterRoutingError,
        >(false),
{
    let node_id: u64 = node.node_id;
    if !document.is_object() {
        return Err(invalid_operations(node_id, "response must be a JSON object"));
    }
    if document.unsigned("schema_version") != Some(OPERATIONS_SCHEMA_VERSION)
        || !document.has_text("operation", "readiness") {
        return Err(invalid_operations(node_id, "schema_version/operation mismatch"));
    }
    match document.get("write_ready") {
        Some(Json::Bool(ready)) => {
            if *ready {
                validate_claim(node_id, document)
            } else {
                Ok(false)
            }
        },
        _ => Err(invalid_operations(node_id, "write_ready must be boolean")),
    }
}

/// What came back from an operations endpoint.
#[derive(Debug, PartialEq, Eq)]
pub enum ProbeReply {
    /// The endpoint could not be reached or broke off.
    Unavailable,
    /// The answer was longer than allowed.
    FrameTooLarge,
    /// A complete answer frame.
    Frame(Vec<u8>),
}

/// What a reply says of node `node_id`. An endpoint that cannot be reached is not ready; a
/// malformed answer is an error.
pub open spec fn probe_finding(node_id: u64, reply: ProbeReply) -> Result<bool, Seq<char>> {
    match reply {
        ProbeReply::Unavailable => Ok(false),
        ProbeReply::FrameTooLarge => Err("response frame exceeded configured bound"@),
        ProbeReply::Frame(frame) => match json_document(frame@) {
            Ok(document) => readiness(node_id, document),
            Err(error) => Err("invalid JSON: "@ + error),
        },
    }
}

/// Judge what came back from the operations endpoint of `node`.
pub fn judge_probe(node: &StaticClusterNode, reply: &ProbeReply) -> (r: Result<
    bool,
    StaticClusterRoutingError,
>)
    ensures
        is_finding(node.node_id, probe_finding(node.node_id, *reply), r),
{
    match reply {
        ProbeReply::Unavailable => Ok(false),
        ProbeReply::FrameTooLarge => Err(
            invalid_operations(node.node_id, "response frame exceeded configured bound"),
        ),
        ProbeReply::Frame(frame) => match Json::parse(frame.as_slice()) {
            Ok(document) => validate_readiness(node, &document),
            Err(error) => {
                let reason = "invalid JSON: ".to_owned().concat(error.as_str());
                Err(invalid_operations(node.node_id, reason.as_str()))
            },
        },
    }
}

/// The ids of the nodes that were found ready, in configured order.
pub open spec fn ready_ids(nodes: Seq<StaticClusterNode>, ready: Seq<bool>) -> Seq<u64>
    decreases nodes.len(),
{
    if nodes.len() == 0 || ready.len() != nodes.len() {
        Seq::empty()
    } else {
        let before = ready_ids(nodes.drop_last(), ready.drop_last());
        if ready.last() {
            before.push(nodes.last().node_id)
        } else {
            before
        }
    }
}

/// Whether `r` is the selection among `nodes`: the one ready node, and otherwise an error.
pub open spec fn is_selection(
    nodes: Seq<StaticClusterNode>,
    ready: Seq<bool>,
    r: Result<StaticClusterNode, StaticClusterRoutingError>,
) -> bool {
    let ids = ready_ids(nodes, ready);
    match r {
        Ok(leader) => ids.len() == 1 && exists|i: int|
            0 <= i < nodes.len() && ready[i] && nodes[i] == leader,
        Err(error) => if ids.len() == 0 {
            error@ == RoutingErrorView::NoWriteReadyLeader
        } else {
            ids.len() > 1 && error@ == RoutingErrorView::MultipleWriteReadyLeaders(ids)
        },
    }
}

/// Select the one node that was found ready.
pub fn select_write_leader(nodes: &[StaticClusterNode; 3], ready: &[bool; 3]) -> (r: Result<
    StaticClusterNode,
    StaticClusterRoutingError,
>)
    ensures
        is_selection(nodes@, ready@, r),
{
    let mut ids: Vec<u64> = Vec::new();
    let mut found: usize = 0;
    let mut index: usize = 0;
    while index < 3
        invariant
            index <= 3,
            found < 3,
            ids@ == ready_ids(nodes@.take(index as int), ready@.take(index as int)),
            ids@.len() > 0 ==> found < index && ready@[found as int],
        decreases 3 - index,
    {
        proof {
            assert(nodes@.take(index + 1).drop_last() =~= nodes@.take(index as int));
            assert(ready@.take(index + 1).drop_last() =~= ready@.take(index as int));
        }
        if ready[index] {
            ids.push(nodes[index].node_id);
            found = index;
        }
        index = index + 1;
    }
    assert(nodes@.take(3) =~= nodes@);
    assert(ready@.take(3) =~= ready@);
    if ids.len() == 0 {
        Err(StaticClusterRoutingError::NoWriteReadyLeader)
    } else if ids.len() == 1 {
        assert(nodes@[found as int] == nodes[found as int]);
        Ok(nodes[found])
    } else {
        Err(StaticClusterRoutingError::MultipleWriteReadyLeaders(ids))
    }
}

} // verus!
