//! Wire representation of GQL values and the lossless mapping to and from
//! the internal value model.
//!
//! A wire value carries an optional `kind`: an absent kind denotes NULL, and
//! absent sub-messages denote defaults. The view of a wire value is the
//! internal model (`ValV`) it denotes. Encoding always produces a *dense*
//! wire value: every optional sub-message populated. On dense wire values
//! the denotation is one-to-one, which makes the mapping lossless:
//! `Value::from_wire(v.to_wire())` has exactly the model of `v`.

use vstd::prelude::*;

use crate::temporal::{
    spec_date_from_wire_opt, spec_local_time_from_wire_opt, Date, Duration, LocalDateTime,
    LocalTime, WireDate, WireDuration, WireLocalDateTime, WireLocalTime, WireZonedDateTime,
    WireZonedTime, ZonedDateTime, ZonedTime,
};
use crate::value::{
    lemma_view_edge_seq, lemma_view_field_seq, lemma_view_node_seq, lemma_view_prop_seq,
    lemma_view_value_seq, view_edge, view_edge_seq, view_field_seq, view_labels, view_node,
    view_node_seq, view_prop_seq, view_value, view_value_seq, Edge, EdgeV, Field, FieldV, Node,
    NodeV, Path, PathV, Record, ValV, Value,
};

verus! {

broadcast use vstd::std_specs::vec::group_vec_axioms;

/// A value as it travels on the wire: an optional tagged payload.
#[derive(Debug, PartialEq)]
pub struct WireValue {
    /// The payload; absent means NULL.
    pub kind: Option<WireKind>,
}

/// The tagged payload of a wire value.
#[derive(Debug, PartialEq)]
pub enum WireKind {
    /// Explicit NULL.
    NullValue,
    /// Boolean value.
    BooleanValue(bool),
    /// Signed integer.
    IntegerValue(i64),
    /// Unsigned integer.
    UnsignedIntegerValue(u64),
    /// Floating point, as the IEEE-754 bit pattern of the 64-bit value.
    FloatValue(u64),
    /// String value.
    StringValue(String),
    /// Byte string.
    BytesValue(Vec<u8>),
    /// Calendar date.
    DateValue(WireDate),
    /// Time without timezone.
    LocalTimeValue(WireLocalTime),
    /// Time with timezone offset.
    ZonedTimeValue(WireZonedTime),
    /// Datetime without timezone.
    LocalDatetimeValue(WireLocalDateTime),
    /// Datetime with timezone offset.
    ZonedDatetimeValue(WireZonedDateTime),
    /// Temporal duration.
    DurationValue(WireDuration),
    /// Ordered list of values.
    ListValue(WireList),
    /// Named record with fields.
    RecordValue(WireRecord),
    /// Property graph node.
    NodeValue(WireNode),
    /// Property graph edge.
    EdgeValue(WireEdge),
    /// Path through a graph.
    PathValue(WirePath),
    /// Arbitrary-precision decimal.
    DecimalValue(WireDecimal),
    /// Extended-precision integer.
    BigIntegerValue(WireBigInteger),
    /// Extended-precision float.
    BigFloatValue(WireBigFloat),
}

/// Wire form of a list of values.
#[derive(Debug, PartialEq)]
pub struct WireList {
    /// The elements in order.
    pub elements: Vec<WireValue>,
}

/// Wire form of a record field; the value may be absent, denoting NULL.
#[derive(Debug, PartialEq)]
pub struct WireField {
    /// Field name.
    pub name: String,
    /// Field value; absent denotes NULL.
    pub value: Option<WireValue>,
}

/// Wire form of a record.
#[derive(Debug, PartialEq)]
pub struct WireRecord {
    /// Fields in order.
    pub fields: Vec<WireField>,
}

/// Wire form of a node.
#[derive(Debug, PartialEq)]
pub struct WireNode {
    /// Opaque element identifier.
    pub id: Vec<u8>,
    /// Label set.
    pub labels: Vec<String>,
    /// Property map, as name/value entries.
    pub properties: Vec<(String, WireValue)>,
}

/// Wire form of an edge.
#[derive(Debug, PartialEq)]
pub struct WireEdge {
    /// Opaque element identifier.
    pub id: Vec<u8>,
    /// Label set.
    pub labels: Vec<String>,
    /// Source node ID.
    pub source_node_id: Vec<u8>,
    /// Target node ID.
    pub target_node_id: Vec<u8>,
    /// Whether this is an undirected edge.
    pub undirected: bool,
    /// Property map, as name/value entries.
    pub properties: Vec<(String, WireValue)>,
}

/// Wire form of a path.
#[derive(Debug, PartialEq)]
pub struct WirePath {
    /// Nodes in the path.
    pub nodes: Vec<WireNode>,
    /// Edges connecting consecutive nodes.
    pub edges: Vec<WireEdge>,
}

/// Wire form of a decimal.
#[derive(Debug, PartialEq)]
pub struct WireDecimal {
    /// Big-endian two's complement of the unscaled value.
    pub unscaled: Vec<u8>,
    /// Number of digits after the decimal point.
    pub scale: i32,
}

/// Wire form of an extended-precision integer.
#[derive(Debug, PartialEq)]
pub struct WireBigInteger {
    /// Big-endian two's complement encoding.
    pub value: Vec<u8>,
    /// Whether this is a signed integer type.
    pub is_signed: bool,
}

/// Wire form of an extended-precision float.
#[derive(Debug, PartialEq)]
pub struct WireBigFloat {
    /// IEEE 754 encoding.
    pub value: Vec<u8>,
    /// Bit width.
    pub width: u32,
}

// ============================================================================
// Denotation: the model a wire value stands for
// ============================================================================

/// The internal model denoted by a wire value; an absent kind denotes NULL.
pub open spec fn view_wire_value(w: WireValue) -> ValV
    decreases w,
    via view_wire_value_decreases
{
    match w.kind {
        None => ValV::Null,
        Some(k) => match k {
            WireKind::NullValue => ValV::Null,
            WireKind::BooleanValue(b) => ValV::Boolean(b),
            WireKind::IntegerValue(i) => ValV::Integer(i),
            WireKind::UnsignedIntegerValue(u) => ValV::UnsignedInteger(u),
            WireKind::FloatValue(bits) => ValV::Float(bits),
            WireKind::StringValue(s) => ValV::Text(s@),
            WireKind::BytesValue(b) => ValV::Bytes(b@),
            WireKind::DateValue(d) => ValV::Date(
                Date { year: d.year, month: d.month, day: d.day },
            ),
            WireKind::LocalTimeValue(t) => ValV::LocalTime(
                LocalTime {
                    hour: t.hour,
                    minute: t.minute,
                    second: t.second,
                    nanosecond: t.nanosecond,
                },
            ),
            WireKind::ZonedTimeValue(t) => ValV::ZonedTime(
                ZonedTime {
                    time: spec_local_time_from_wire_opt(t.time),
                    offset_minutes: t.offset_minutes,
                },
            ),
            WireKind::LocalDatetimeValue(t) => ValV::LocalDateTime(
                LocalDateTime {
                    date: spec_date_from_wire_opt(t.date),
                    time: spec_local_time_from_wire_opt(t.time),
                },
            ),
            WireKind::ZonedDatetimeValue(t) => ValV::ZonedDateTime(
                ZonedDateTime {
                    date: spec_date_from_wire_opt(t.date),
                    time: spec_local_time_from_wire_opt(t.time),
                    offset_minutes: t.offset_minutes,
                },
            ),
            WireKind::DurationValue(d) => ValV::Duration(
                Duration { months: d.months, nanoseconds: d.nanoseconds },
            ),
            WireKind::ListValue(l) => ValV::List(view_wire_value_seq(l.elements@)),
            WireKind::RecordValue(r) => ValV::Record(view_wire_field_seq(r.fields@)),
            WireKind::NodeValue(n) => ValV::Node(view_wire_node(n)),
            WireKind::EdgeValue(e) => ValV::Edge(view_wire_edge(e)),
            WireKind::PathValue(p) => ValV::Path(
                PathV {
                    nodes: view_wire_node_seq(p.nodes@),
                    edges: view_wire_edge_seq(p.edges@),
                },
            ),
            WireKind::DecimalValue(d) => ValV::Decimal {
                unscaled: d.unscaled@,
                scale: d.scale,
            },
            WireKind::BigIntegerValue(b) => ValV::BigInteger {
                value: b.value@,
                is_signed: b.is_signed,
            },
            WireKind::BigFloatValue(b) => ValV::BigFloat { value: b.value@, width: b.width },
        },
    }
}

/// The models denoted by a sequence of wire values, pointwise.
pub open spec fn view_wire_value_seq(s: Seq<WireValue>) -> Seq<ValV>
    decreases s,
    via view_wire_value_seq_decreases
{
    if s.len() == 0 {
        Seq::empty()
    } else {
        seq![view_wire_value(s[0])] + view_wire_value_seq(s.drop_first())
    }
}

/// The field model denoted by a wire field; an absent value denotes NULL.
pub open spec fn view_wire_field(f: WireField) -> FieldV
    decreases f,
    via view_wire_field_decreases
{
    FieldV {
        name: f.name@,
        value: match f.value {
            Some(w) => view_wire_value(w),
            None => ValV::Null,
        },
    }
}

/// The field models denoted by a sequence of wire fields, pointwise.
pub open spec fn view_wire_field_seq(s: Seq<WireField>) -> Seq<FieldV>
    decreases s,
    via view_wire_field_seq_decreases
{
    if s.len() == 0 {
        Seq::empty()
    } else {
        seq![view_wire_field(s[0])] + view_wire_field_seq(s.drop_first())
    }
}

/// The property models denoted by a sequence of wire properties, pointwise.
pub open spec fn view_wire_prop_seq(s: Seq<(String, WireValue)>) -> Seq<(Seq<char>, ValV)>
    decreases s,
    via view_wire_prop_seq_decreases
{
    if s.len() == 0 {
        Seq::empty()
    } else {
        seq![(s[0].0@, view_wire_value(s[0].1))] + view_wire_prop_seq(s.drop_first())
    }
}

/// The node model denoted by a wire node.
pub open spec fn view_wire_node(n: WireNode) -> NodeV
    decreases n,
    via view_wire_node_decreases
{
    NodeV {
        id: n.id@,
        labels: view_labels(n.labels@),
        properties: view_wire_prop_seq(n.properties@),
    }
}

/// The node models denoted by a sequence of wire nodes, pointwise.
pub open spec fn view_wire_node_seq(s: Seq<WireNode>) -> Seq<NodeV>
    decreases s,
    via view_wire_node_seq_decreases
{
    if s.len() == 0 {
        Seq::empty()
    } else {
        seq![view_wire_node(s[0])] + view_wire_node_seq(s.drop_first())
    }
}

/// The edge model denoted by a wire edge.
pub open spec fn view_wire_edge(e: WireEdge) -> EdgeV
    decreases e,
    via view_wire_edge_decreases
{
    EdgeV {
        id: e.id@,
        labels: view_labels(e.labels@),
        source_node_id: e.source_node_id@,
        target_node_id: e.target_node_id@,
        undirected: e.undirected,
        properties: view_wire_prop_seq(e.properties@),
    }
}

/// The edge models denoted by a sequence of wire edges, pointwise.
pub open spec fn view_wire_edge_seq(s: Seq<WireEdge>) -> Seq<EdgeV>
    decreases s,
    via view_wire_edge_seq_decreases
{
    if s.len() == 0 {
        Seq::empty()
    } else {
        seq![view_wire_edge(s[0])] + view_wire_edge_seq(s.drop_first())
    }
}

#[via_fn]
proof fn view_wire_value_decreases(w: WireValue) {
    broadcast use vstd::seq::axiom_seq_index_decreases;

    if let Some(k) = w.kind {
        assert(decreases_to!(w => k));
        match k {
            WireKind::ListValue(l) => {
                assert(decreases_to!(k => l));
                assert(decreases_to!(l => l.elements));
                assert(decreases_to!(l.elements => l.elements@));
            },
            WireKind::RecordValue(r) => {
                assert(decreases_to!(k => r));
                assert(decreases_to!(r => r.fields));
                assert(decreases_to!(r.fields => r.fields@));
            },
            WireKind::NodeValue(n) => {
                assert(decreases_to!(k => n));
            },
            WireKind::EdgeValue(e) => {
                assert(decreases_to!(k => e));
            },
            WireKind::PathValue(p) => {
                assert(decreases_to!(k => p));
                assert(decreases_to!(p => p.nodes));
                assert(decreases_to!(p.nodes => p.nodes@));
                assert(decreases_to!(p => p.edges));
                assert(decreases_to!(p.edges => p.edges@));
            },
            _ => {},
        }
    }
}

#[via_fn]
proof fn view_wire_value_seq_decreases(s: Seq<WireValue>) {
    broadcast use vstd::seq::axiom_seq_index_decreases, vstd::seq::axiom_seq_subrange_decreases;

    if s.len() > 0 {
        assert(decreases_to!(s => s[0]));
        assert(decreases_to!(s => s.drop_first()));
    }
}

#[via_fn]
proof fn view_wire_field_decreases(f: WireField) {
    if let Some(w) = f.value {
        assert(decreases_to!(f => f.value));
        assert(decreases_to!(f.value => w));
    }
}

#[via_fn]
proof fn view_wire_field_seq_decreases(s: Seq<WireField>) {
    broadcast use vstd::seq::axiom_seq_index_decreases, vstd::seq::axiom_seq_subrange_decreases;

    if s.len() > 0 {
        assert(decreases_to!(s => s[0]));
        assert(decreases_to!(s => s.drop_first()));
    }
}

#[via_fn]
proof fn view_wire_prop_seq_decreases(s: Seq<(String, WireValue)>) {
    broadcast use vstd::seq::axiom_seq_index_decreases, vstd::seq::axiom_seq_subrange_decreases;

    if s.len() > 0 {
        assert(decreases_to!(s => s[0]));
        assert(decreases_to!(s[0] => s[0].1));
        assert(decreases_to!(s => s.drop_first()));
    }
}

#[via_fn]
proof fn view_wire_node_decreases(n: WireNode) {
    assert(decreases_to!(n => n.properties));
    assert(decreases_to!(n.properties => n.properties@));
}

#[via_fn]
proof fn view_wire_node_seq_decreases(s: Seq<WireNode>) {
    broadcast use vstd::seq::axiom_seq_index_decreases, vstd::seq::axiom_seq_subrange_decreases;

    if s.len() > 0 {
        assert(decreases_to!(s => s[0]));
        assert(decreases_to!(s => s.drop_first()));
    }
}

#[via_fn]
proof fn view_wire_edge_decreases(e: WireEdge) {
    assert(decreases_to!(e => e.properties));
    assert(decreases_to!(e.properties => e.properties@));
}

#[via_fn]
proof fn view_wire_edge_seq_decreases(s: Seq<WireEdge>) {
    broadcast use vstd::seq::axiom_seq_index_decreases, vstd::seq::axiom_seq_subrange_decreases;

    if s.len() > 0 {
        assert(decreases_to!(s => s[0]));
        assert(decreases_to!(s => s.drop_first()));
    }
}

impl View for WireValue {
    type V = ValV;

    open spec fn view(&self) -> ValV {
        view_wire_value(*self)
    }
}

impl View for WireNode {
    type V = NodeV;

    open spec fn view(&self) -> NodeV {
        view_wire_node(*self)
    }
}

impl View for WireEdge {
    type V = EdgeV;

    open spec fn view(&self) -> EdgeV {
        view_wire_edge(*self)
    }
}

impl View for WirePath {
    type V = PathV;

    open spec fn view(&self) -> PathV {
        PathV { nodes: view_wire_node_seq(self.nodes@), edges: view_wire_edge_seq(self.edges@) }
    }
}

impl View for WireRecord {
    type V = Seq<FieldV>;

    open spec fn view(&self) -> Seq<FieldV> {
        view_wire_field_seq(self.fields@)
    }
}

// ============================================================================
// Pointwise lemmas for the wire views
// ============================================================================

/// The denoted value sequence indexes pointwise.
pub proof fn lemma_view_wire_value_seq(s: Seq<WireValue>)
    ensures
        view_wire_value_seq(s).len() == s.len(),
        forall|i: int| 0 <= i < s.len() ==> view_wire_value_seq(s)[i] == view_wire_value(s[i]),
    decreases s.len(),
{
    if s.len() > 0 {
        lemma_view_wire_value_seq(s.drop_first());
    }
}

/// The denoted field sequence indexes pointwise.
pub proof fn lemma_view_wire_field_seq(s: Seq<WireField>)
    ensures
        view_wire_field_seq(s).len() == s.len(),
        forall|i: int| 0 <= i < s.len() ==> view_wire_field_seq(s)[i] == view_wire_field(s[i]),
    decreases s.len(),
{
    if s.len() > 0 {
        lemma_view_wire_field_seq(s.drop_first());
    }
}

/// The denoted property sequence indexes pointwise.
pub proof fn lemma_view_wire_prop_seq(s: Seq<(String, WireValue)>)
    ensures
        view_wire_prop_seq(s).len() == s.len(),
        forall|i: int|
            0 <= i < s.len() ==> view_wire_prop_seq(s)[i] == (s[i].0@, view_wire_value(s[i].1)),
    decreases s.len(),
{
    if s.len() > 0 {
        lemma_view_wire_prop_seq(s.drop_first());
    }
}

/// The denoted node sequence indexes pointwise.
pub proof fn lemma_view_wire_node_seq(s: Seq<WireNode>)
    ensures
        view_wire_node_seq(s).len() == s.len(),
        forall|i: int| 0 <= i < s.len() ==> view_wire_node_seq(s)[i] == view_wire_node(s[i]),
    decreases s.len(),
{
    if s.len() > 0 {
        lemma_view_wire_node_seq(s.drop_first());
    }
}

/// The denoted edge sequence indexes pointwise.
pub proof fn lemma_view_wire_edge_seq(s: Seq<WireEdge>)
    ensures
        view_wire_edge_seq(s).len() == s.len(),
        forall|i: int| 0 <= i < s.len() ==> view_wire_edge_seq(s)[i] == view_wire_edge(s[i]),
    decreases s.len(),
{
    if s.len() > 0 {
        lemma_view_wire_edge_seq(s.drop_first());
    }
}

// ============================================================================
// Density: every optional sub-message populated
// ============================================================================

/// Whether a wire value is fully populated: the kind and every optional
/// sub-message below it are present. On dense wire values the denotation
/// is one-to-one.
pub open spec fn dense_value(w: WireValue) -> bool
    decreases w,
    via dense_value_decreases
{
    match w.kind {
        None => false,
        Some(k) => match k {
            WireKind::ZonedTimeValue(t) => t.time is Some,
            WireKind::LocalDatetimeValue(t) => t.date is Some && t.time is Some,
            WireKind::ZonedDatetimeValue(t) => t.date is Some && t.time is Some,
            WireKind::ListValue(l) => dense_value_seq(l.elements@),
            WireKind::RecordValue(r) => dense_field_seq(r.fields@),
            WireKind::NodeValue(n) => dense_prop_seq(n.properties@),
            WireKind::EdgeValue(e) => dense_prop_seq(e.properties@),
            WireKind::PathValue(p) => dense_node_seq(p.nodes@) && dense_edge_seq(p.edges@),
            _ => true,
        },
    }
}

/// Density of a sequence of wire values.
pub open spec fn dense_value_seq(s: Seq<WireValue>) -> bool
    decreases s,
    via dense_value_seq_decreases
{
    if s.len() == 0 {
        true
    } else {
        dense_value(s[0]) && dense_value_seq(s.drop_first())
    }
}

/// Density of a wire field: the value is present and dense.
pub open spec fn dense_field(f: WireField) -> bool
    decreases f,
    via dense_field_decreases
{
    match f.value {
        Some(w) => dense_value(w),
        None => false,
    }
}

/// Density of a sequence of wire fields.
pub open spec fn dense_field_seq(s: Seq<WireField>) -> bool
    decreases s,
    via dense_field_seq_decreases
{
    if s.len() == 0 {
        true
    } else {
        dense_field(s[0]) && dense_field_seq(s.drop_first())
    }
}

/// Density of a sequence of wire properties.
pub open spec fn dense_prop_seq(s: Seq<(String, WireValue)>) -> bool
    decreases s,
    via dense_prop_seq_decreases
{
    if s.len() == 0 {
        true
    } else {
        dense_value(s[0].1) && dense_prop_seq(s.drop_first())
    }
}

/// Density of a wire node.
pub open spec fn dense_node(n: WireNode) -> bool
    decreases n,
    via dense_node_decreases
{
    dense_prop_seq(n.properties@)
}

/// Density of a sequence of wire nodes.
pub open spec fn dense_node_seq(s: Seq<WireNode>) -> bool
    decreases s,
    via dense_node_seq_decreases
{
    if s.len() == 0 {
        true
    } else {
        dense_node(s[0]) && dense_node_seq(s.drop_first())
    }
}

/// Density of a wire edge.
pub open spec fn dense_edge(e: WireEdge) -> bool
    decreases e,
    via dense_edge_decreases
{
    dense_prop_seq(e.properties@)
}

/// Density of a sequence of wire edges.
pub open spec fn dense_edge_seq(s: Seq<WireEdge>) -> bool
    decreases s,
    via dense_edge_seq_decreases
{
    if s.len() == 0 {
        true
    } else {
        dense_edge(s[0]) && dense_edge_seq(s.drop_first())
    }
}

#[via_fn]
proof fn dense_value_decreases(w: WireValue) {
    if let Some(k) = w.kind {
        assert(decreases_to!(w => k));
        match k {
            WireKind::ListValue(l) => {
                assert(decreases_to!(k => l));
                assert(decreases_to!(l => l.elements));
                assert(decreases_to!(l.elements => l.elements@));
            },
            WireKind::RecordValue(r) => {
                assert(decreases_to!(k => r));
                assert(decreases_to!(r => r.fields));
                assert(decreases_to!(r.fields => r.fields@));
            },
            WireKind::NodeValue(n) => {
                assert(decreases_to!(k => n));
            },
            WireKind::EdgeValue(e) => {
                assert(decreases_to!(k => e));
            },
            WireKind::PathValue(p) => {
                assert(decreases_to!(k => p));
                assert(decreases_to!(p => p.nodes));
                assert(decreases_to!(p.nodes => p.nodes@));
                assert(decreases_to!(p => p.edges));
                assert(decreases_to!(p.edges => p.edges@));
            },
            _ => {},
        }
    }
}

#[via_fn]
proof fn dense_value_seq_decreases(s: Seq<WireValue>) {
    broadcast use vstd::seq::axiom_seq_index_decreases, vstd::seq::axiom_seq_subrange_decreases;

    if s.len() > 0 {
        assert(decreases_to!(s => s[0]));
        assert(decreases_to!(s => s.drop_first()));
    }
}

#[via_fn]
proof fn dense_field_decreases(f: WireField) {
    if let Some(w) = f.value {
        assert(decreases_to!(f => f.value));
        assert(decreases_to!(f.value => w));
    }
}

#[via_fn]
proof fn dense_field_seq_decreases(s: Seq<WireField>) {
    broadcast use vstd::seq::axiom_seq_index_decreases, vstd::seq::axiom_seq_subrange_decreases;

    if s.len() > 0 {
        assert(decreases_to!(s => s[0]));
        assert(decreases_to!(s => s.drop_first()));
    }
}

#[via_fn]
proof fn dense_prop_seq_decreases(s: Seq<(String, WireValue)>) {
    broadcast use vstd::seq::axiom_seq_index_decreases, vstd::seq::axiom_seq_subrange_decreases;

    if s.len() > 0 {
        assert(decreases_to!(s => s[0]));
        assert(decreases_to!(s[0] => s[0].1));
        assert(decreases_to!(s => s.drop_first()));
    }
}

#[via_fn]
proof fn dense_node_decreases(n: WireNode) {
    assert(decreases_to!(n => n.properties));
    assert(decreases_to!(n.properties => n.properties@));
}

#[via_fn]
proof fn dense_node_seq_decreases(s: Seq<WireNode>) {
    broadcast use vstd::seq::axiom_seq_index_decreases, vstd::seq::axiom_seq_subrange_decreases;

    if s.len() > 0 {
        assert(decreases_to!(s => s[0]));
        assert(decreases_to!(s => s.drop_first()));
    }
}

#[via_fn]
proof fn dense_edge_decreases(e: WireEdge) {
    assert(decreases_to!(e => e.properties));
    assert(decreases_to!(e.properties => e.properties@));
}

#[via_fn]
proof fn dense_edge_seq_decreases(s: Seq<WireEdge>) {
    broadcast use vstd::seq::axiom_seq_index_decreases, vstd::seq::axiom_seq_subrange_decreases;

    if s.len() > 0 {
        assert(decreases_to!(s => s[0]));
        assert(decreases_to!(s => s.drop_first()));
    }
}

/// A value sequence is dense exactly when each element is.
pub proof fn lemma_dense_value_seq(s: Seq<WireValue>)
    ensures
        dense_value_seq(s) <==> (forall|i: int| 0 <= i < s.len() ==> dense_value(s[i])),
    decreases s.len(),
{
    if s.len() > 0 {
        lemma_dense_value_seq(s.drop_first());
        if dense_value(s[0]) && dense_value_seq(s.drop_first()) {
            assert forall|i: int| 0 <= i < s.len() implies dense_value(s[i]) by {
                if i > 0 {
                    assert(s.drop_first()[i - 1] == s[i]);
                }
            }
        } else {
            if dense_value(s[0]) {
                let j = choose|j: int|
                    0 <= j < s.drop_first().len() && !(dense_value(s.drop_first()[j]));
                assert(s.drop_first()[j] == s[j + 1]);
            }
        }
    }
}

/// A field sequence is dense exactly when each field is.
pub proof fn lemma_dense_field_seq(s: Seq<WireField>)
    ensures
        dense_field_seq(s) <==> (forall|i: int| 0 <= i < s.len() ==> dense_field(s[i])),
    decreases s.len(),
{
    if s.len() > 0 {
        lemma_dense_field_seq(s.drop_first());
        if dense_field(s[0]) && dense_field_seq(s.drop_first()) {
            assert forall|i: int| 0 <= i < s.len() implies dense_field(s[i]) by {
                if i > 0 {
                    assert(s.drop_first()[i - 1] == s[i]);
                }
            }
        } else {
            if dense_field(s[0]) {
                let j = choose|j: int|
                    0 <= j < s.drop_first().len() && !(dense_field(s.drop_first()[j]));
                assert(s.drop_first()[j] == s[j + 1]);
            }
        }
    }
}

/// A property sequence is dense exactly when each value is.
pub proof fn lemma_dense_prop_seq(s: Seq<(String, WireValue)>)
    ensures
        dense_prop_seq(s) <==> (forall|i: int| 0 <= i < s.len() ==> dense_value(s[i].1)),
    decreases s.len(),
{
    if s.len() > 0 {
        lemma_dense_prop_seq(s.drop_first());
        if dense_value(s[0].1) && dense_prop_seq(s.drop_first()) {
            assert forall|i: int| 0 <= i < s.len() implies dense_value(s[i].1) by {
                if i > 0 {
                    assert(s.drop_first()[i - 1] == s[i]);
                }
            }
        } else {
            if dense_value(s[0].1) {
                let j = choose|j: int|
                    0 <= j < s.drop_first().len() && !(dense_value(s.drop_first()[j].1));
                assert(s.drop_first()[j] == s[j + 1]);
            }
        }
    }
}

/// A node sequence is dense exactly when each node is.
pub proof fn lemma_dense_node_seq(s: Seq<WireNode>)
    ensures
        dense_node_seq(s) <==> (forall|i: int| 0 <= i < s.len() ==> dense_node(s[i])),
    decreases s.len(),
{
    if s.len() > 0 {
        lemma_dense_node_seq(s.drop_first());
        if dense_node(s[0]) && dense_node_seq(s.drop_first()) {
            assert forall|i: int| 0 <= i < s.len() implies dense_node(s[i]) by {
                if i > 0 {
                    assert(s.drop_first()[i - 1] == s[i]);
                }
            }
        } else {
            if dense_node(s[0]) {
                let j = choose|j: int|
                    0 <= j < s.drop_first().len() && !(dense_node(s.drop_first()[j]));
                assert(s.drop_first()[j] == s[j + 1]);
            }
        }
    }
}

/// An edge sequence is dense exactly when each edge is.
pub proof fn lemma_dense_edge_seq(s: Seq<WireEdge>)
    ensures
        dense_edge_seq(s) <==> (forall|i: int| 0 <= i < s.len() ==> dense_edge(s[i])),
    decreases s.len(),
{
    if s.len() > 0 {
        lemma_dense_edge_seq(s.drop_first());
        if dense_edge(s[0]) && dense_edge_seq(s.drop_first()) {
            assert forall|i: int| 0 <= i < s.len() implies dense_edge(s[i]) by {
                if i > 0 {
                    assert(s.drop_first()[i - 1] == s[i]);
                }
            }
        } else {
            if dense_edge(s[0]) {
                let j = choose|j: int|
                    0 <= j < s.drop_first().len() && !(dense_edge(s.drop_first()[j]));
                assert(s.drop_first()[j] == s[j + 1]);
            }
        }
    }
}

// ============================================================================
// Encoding: internal -> wire
// ============================================================================

/// Encode a property list.
pub fn props_to_wire(src: &Vec<(String, Value)>) -> (r: Vec<(String, WireValue)>)
    ensures
        view_wire_prop_seq(r@) == view_prop_seq(src@),
        dense_prop_seq(r@),
    decreases *src,
{
    let mut out: Vec<(String, WireValue)> = Vec::new();
    let mut i: usize = 0;
    #[verifier::loop_isolation(false)]
    while i < src.len()
        invariant
            i <= src@.len(),
            out@.len() == i as int,
            forall|j: int|
                0 <= j < i ==> out@[j].0@ == src@[j].0@ && view_wire_value(#[trigger] out@[j].1)
                    == view_value(src@[j].1) && dense_value(out@[j].1),
        decreases src@.len() - i,
    {
        proof {
            broadcast use vstd::seq::axiom_seq_index_decreases;

            assert(decreases_to!(*src => src@));
            assert(decreases_to!(src@ => src@[i as int]));
            assert(decreases_to!(src@[i as int] => src@[i as int].1));
        }
        let pair = &src[i];
        let w = pair.1.to_wire();
        out.push((pair.0.clone(), w));
        i = i + 1;
    }
    proof {
        lemma_view_wire_prop_seq(out@);
        lemma_view_prop_seq(src@);
        assert(view_wire_prop_seq(out@) =~= view_prop_seq(src@));
        lemma_dense_prop_seq(out@);
    }
    out
}

/// Encode a list of values.
fn values_to_wire(src: &Vec<Value>) -> (r: Vec<WireValue>)
    ensures
        view_wire_value_seq(r@) == view_value_seq(src@),
        dense_value_seq(r@),
    decreases *src,
{
    let mut out: Vec<WireValue> = Vec::new();
    let mut i: usize = 0;
    #[verifier::loop_isolation(false)]
    while i < src.len()
        invariant
            i <= src@.len(),
            out@.len() == i as int,
            forall|j: int|
                0 <= j < i ==> view_wire_value(#[trigger] out@[j]) == view_value(src@[j])
                    && dense_value(out@[j]),
        decreases src@.len() - i,
    {
        proof {
            broadcast use vstd::seq::axiom_seq_index_decreases;

            assert(decreases_to!(*src => src@));
            assert(decreases_to!(src@ => src@[i as int]));
        }
        let w = src[i].to_wire();
        out.push(w);
        i = i + 1;
    }
    proof {
        lemma_view_wire_value_seq(out@);
        lemma_view_value_seq(src@);
        assert(view_wire_value_seq(out@) =~= view_value_seq(src@));
        lemma_dense_value_seq(out@);
    }
    out
}

/// Encode record fields; every encoded field carries its value.
fn fields_to_wire(src: &Vec<Field>) -> (r: Vec<WireField>)
    ensures
        view_wire_field_seq(r@) == view_field_seq(src@),
        dense_field_seq(r@),
    decreases *src,
{
    let mut out: Vec<WireField> = Vec::new();
    let mut i: usize = 0;
    #[verifier::loop_isolation(false)]
    while i < src.len()
        invariant
            i <= src@.len(),
            out@.len() == i as int,
            forall|j: int|
                0 <= j < i ==> view_wire_field(#[trigger] out@[j]) == (FieldV {
                    name: src@[j].name@,
                    value: view_value(src@[j].value),
                }) && dense_field(out@[j]),
        decreases src@.len() - i,
    {
        proof {
            broadcast use vstd::seq::axiom_seq_index_decreases;

            assert(decreases_to!(*src => src@));
            assert(decreases_to!(src@ => src@[i as int]));
            assert(decreases_to!(src@[i as int] => src@[i as int].value));
        }
        let f = &src[i];
        let w = f.value.to_wire();
        out.push(WireField { name: f.name.clone(), value: Some(w) });
        i = i + 1;
    }
    proof {
        lemma_view_wire_field_seq(out@);
        lemma_view_field_seq(src@);
        assert(view_wire_field_seq(out@) =~= view_field_seq(src@));
        lemma_dense_field_seq(out@);
    }
    out
}

impl Node {
    /// Encode this node in its wire form.
    pub fn to_wire(&self) -> (w: WireNode)
        ensures
            w@ == self@,
            dense_node(w),
        decreases *self,
    {
        proof {
            assert(decreases_to!(*self => self.properties));
        }
        let w = WireNode {
            id: crate::util::clone_bytes(&self.id),
            labels: crate::util::clone_strings(&self.labels),
            properties: props_to_wire(&self.properties),
        };
        proof {
            assert(view_labels(w.labels@) =~= view_labels(self.labels@));
            assert(view_wire_node(w) =~= view_node(*self));
        }
        w
    }
}

/// Encode a list of nodes.
fn nodes_to_wire(src: &Vec<Node>) -> (r: Vec<WireNode>)
    ensures
        view_wire_node_seq(r@) == view_node_seq(src@),
        dense_node_seq(r@),
    decreases *src,
{
    let mut out: Vec<WireNode> = Vec::new();
    let mut i: usize = 0;
    #[verifier::loop_isolation(false)]
    while i < src.len()
        invariant
            i <= src@.len(),
            out@.len() == i as int,
            forall|j: int|
                0 <= j < i ==> view_wire_node(#[trigger] out@[j]) == view_node(src@[j])
                    && dense_node(out@[j]),
        decreases src@.len() - i,
    {
        proof {
            broadcast use vstd::seq::axiom_seq_index_decreases;

            assert(decreases_to!(*src => src@));
            assert(decreases_to!(src@ => src@[i as int]));
        }
        let w = src[i].to_wire();
        out.push(w);
        i = i + 1;
    }
    proof {
        lemma_view_wire_node_seq(out@);
        lemma_view_node_seq(src@);
        assert(view_wire_node_seq(out@) =~= view_node_seq(src@));
        lemma_dense_node_seq(out@);
    }
    out
}

impl Edge {
    /// Encode this edge in its wire form.
    pub fn to_wire(&self) -> (w: WireEdge)
        ensures
            w@ == self@,
            dense_edge(w),
        decreases *self,
    {
        proof {
            assert(decreases_to!(*self => self.properties));
        }
        let w = WireEdge {
            id: crate::util::clone_bytes(&self.id),
            labels: crate::util::clone_strings(&self.labels),
            source_node_id: crate::util::clone_bytes(&self.source_node_id),
            target_node_id: crate::util::clone_bytes(&self.target_node_id),
            undirected: self.undirected,
            properties: props_to_wire(&self.properties),
        };
        proof {
            assert(view_labels(w.labels@) =~= view_labels(self.labels@));
            assert(view_wire_edge(w) =~= view_edge(*self));
        }
        w
    }
}

/// Encode a list of edges.
fn edges_to_wire(src: &Vec<Edge>) -> (r: Vec<WireEdge>)
    ensures
        view_wire_edge_seq(r@) == view_edge_seq(src@),
        dense_edge_seq(r@),
    decreases *src,
{
    let mut out: Vec<WireEdge> = Vec::new();
    let mut i: usize = 0;
    #[verifier::loop_isolation(false)]
    while i < src.len()
        invariant
            i <= src@.len(),
            out@.len() == i as int,
            forall|j: int|
                0 <= j < i ==> view_wire_edge(#[trigger] out@[j]) == view_edge(src@[j])
                    && dense_edge(out@[j]),
        decreases src@.len() - i,
    {
        proof {
            broadcast use vstd::seq::axiom_seq_index_decreases;

            assert(decreases_to!(*src => src@));
            assert(decreases_to!(src@ => src@[i as int]));
        }
        let w = src[i].to_wire();
        out.push(w);
        i = i + 1;
    }
    proof {
        lemma_view_wire_edge_seq(out@);
        lemma_view_edge_seq(src@);
        assert(view_wire_edge_seq(out@) =~= view_edge_seq(src@));
        lemma_dense_edge_seq(out@);
    }
    out
}

impl Path {
    /// Encode this path in its wire form.
    pub fn to_wire(&self) -> (w: WirePath)
        ensures
            w@ == self@,
            dense_node_seq(w.nodes@),
            dense_edge_seq(w.edges@),
        decreases *self,
    {
        proof {
            assert(decreases_to!(*self => self.nodes));
            assert(decreases_to!(*self => self.edges));
        }
        let w = WirePath {
            nodes: nodes_to_wire(&self.nodes),
            edges: edges_to_wire(&self.edges),
        };
        w
    }
}

impl Record {
    /// Encode this record in its wire form.
    pub fn to_wire(&self) -> (w: WireRecord)
        ensures
            w@ == self@,
            dense_field_seq(w.fields@),
        decreases *self,
    {
        proof {
            assert(decreases_to!(*self => self.fields));
        }
        WireRecord { fields: fields_to_wire(&self.fields) }
    }
}

impl Value {
    /// Encode this value in its wire form.
    ///
    /// The encoding is dense (every optional sub-message populated) and
    /// denotes exactly this value's model, so decoding it gives the model
    /// back: the mapping is lossless.
    pub fn to_wire(&self) -> (w: WireValue)
        ensures
            w@ == self@,
            dense_value(w),
        decreases *self,
    {
        match self {
            Value::Null => WireValue { kind: Some(WireKind::NullValue) },
            Value::Boolean(b) => WireValue { kind: Some(WireKind::BooleanValue(*b)) },
            Value::Integer(i) => WireValue { kind: Some(WireKind::IntegerValue(*i)) },
            Value::UnsignedInteger(u) => WireValue {
                kind: Some(WireKind::UnsignedIntegerValue(*u)),
            },
            Value::Float(bits) => WireValue { kind: Some(WireKind::FloatValue(*bits)) },
            Value::String(s) => WireValue { kind: Some(WireKind::StringValue(s.clone())) },
            Value::Bytes(b) => WireValue {
                kind: Some(WireKind::BytesValue(crate::util::clone_bytes(b))),
            },
            Value::Date(d) => WireValue { kind: Some(WireKind::DateValue((*d).to_wire())) },
            Value::LocalTime(t) => WireValue {
                kind: Some(WireKind::LocalTimeValue((*t).to_wire())),
            },
            Value::ZonedTime(t) => WireValue {
                kind: Some(WireKind::ZonedTimeValue((*t).to_wire())),
            },
            Value::LocalDateTime(t) => WireValue {
                kind: Some(WireKind::LocalDatetimeValue((*t).to_wire())),
            },
            Value::ZonedDateTime(t) => WireValue {
                kind: Some(WireKind::ZonedDatetimeValue((*t).to_wire())),
            },
            Value::Duration(d) => WireValue { kind: Some(WireKind::DurationValue((*d).to_wire())) },
            Value::List(elems) => {
                proof {
                    assert(decreases_to!(*self => *elems));
                }
                WireValue {
                    kind: Some(WireKind::ListValue(WireList { elements: values_to_wire(elems) })),
                }
            },
            Value::Record(rec) => {
                proof {
                    assert(decreases_to!(*self => *rec));
                    assert(decreases_to!(*rec => rec.fields));
                }
                WireValue {
                    kind: Some(
                        WireKind::RecordValue(WireRecord { fields: fields_to_wire(&rec.fields) }),
                    ),
                }
            },
            Value::Node(n) => {
                proof {
                    assert(decreases_to!(*self => *n));
                }
                WireValue { kind: Some(WireKind::NodeValue(n.to_wire())) }
            },
            Value::Edge(e) => {
                proof {
                    assert(decreases_to!(*self => *e));
                }
                WireValue { kind: Some(WireKind::EdgeValue(e.to_wire())) }
            },
            Value::Path(p) => {
                proof {
                    assert(decreases_to!(*self => *p));
                    assert(decreases_to!(*p => p.nodes));
                    assert(decreases_to!(*p => p.edges));
                }
                WireValue {
                    kind: Some(
                        WireKind::PathValue(
                            WirePath {
                                nodes: nodes_to_wire(&p.nodes),
                                edges: edges_to_wire(&p.edges),
                            },
                        ),
                    ),
                }
            },
            Value::Decimal { unscaled, scale } => WireValue {
                kind: Some(
                    WireKind::DecimalValue(
                        WireDecimal {
                            unscaled: crate::util::clone_bytes(unscaled),
                            scale: *scale,
                        },
                    ),
                ),
            },
            Value::BigInteger { value, is_signed } => WireValue {
                kind: Some(
                    WireKind::BigIntegerValue(
                        WireBigInteger {
                            value: crate::util::clone_bytes(value),
                            is_signed: *is_signed,
                        },
                    ),
                ),
            },
            Value::BigFloat { value, width } => WireValue {
                kind: Some(
                    WireKind::BigFloatValue(
                        WireBigFloat { value: crate::util::clone_bytes(value), width: *width },
                    ),
                ),
            },
        }
    }
}

// ============================================================================
// Decoding: wire -> internal
// ============================================================================

/// Decode a property list.
pub fn props_from_wire(src: &Vec<(String, WireValue)>) -> (r: Vec<(String, Value)>)
    ensures
        view_prop_seq(r@) == view_wire_prop_seq(src@),
    decreases *src,
{
    let mut out: Vec<(String, Value)> = Vec::new();
    let mut i: usize = 0;
    #[verifier::loop_isolation(false)]
    while i < src.len()
        invariant
            i <= src@.len(),
            out@.len() == i as int,
            forall|j: int|
                0 <= j < i ==> out@[j].0@ == src@[j].0@ && view_value(#[trigger] out@[j].1)
                    == view_wire_value(src@[j].1),
        decreases src@.len() - i,
    {
        proof {
            broadcast use vstd::seq::axiom_seq_index_decreases;

            assert(decreases_to!(*src => src@));
            assert(decreases_to!(src@ => src@[i as int]));
            assert(decreases_to!(src@[i as int] => src@[i as int].1));
        }
        let pair = &src[i];
        let v = Value::from_wire(&pair.1);
        out.push((pair.0.clone(), v));
        i = i + 1;
    }
    proof {
        lemma_view_prop_seq(out@);
        lemma_view_wire_prop_seq(src@);
        assert(view_prop_seq(out@) =~= view_wire_prop_seq(src@));
    }
    out
}

/// Decode a list of values.
fn values_from_wire(src: &Vec<WireValue>) -> (r: Vec<Value>)
    ensures
        view_value_seq(r@) == view_wire_value_seq(src@),
    decreases *src,
{
    let mut out: Vec<Value> = Vec::new();
    let mut i: usize = 0;
    #[verifier::loop_isolation(false)]
    while i < src.len()
        invariant
            i <= src@.len(),
            out@.len() == i as int,
            forall|j: int|
                0 <= j < i ==> view_value(#[trigger] out@[j]) == view_wire_value(src@[j]),
        decreases src@.len() - i,
    {
        proof {
            broadcast use vstd::seq::axiom_seq_index_decreases;

            assert(decreases_to!(*src => src@));
            assert(decreases_to!(src@ => src@[i as int]));
        }
        let v = Value::from_wire(&src[i]);
        out.push(v);
        i = i + 1;
    }
    proof {
        lemma_view_value_seq(out@);
        lemma_view_wire_value_seq(src@);
        assert(view_value_seq(out@) =~= view_wire_value_seq(src@));
    }
    out
}

/// Decode record fields; an absent field value decodes to NULL.
fn fields_from_wire(src: &Vec<WireField>) -> (r: Vec<Field>)
    ensures
        view_field_seq(r@) == view_wire_field_seq(src@),
    decreases *src,
{
    let mut out: Vec<Field> = Vec::new();
    let mut i: usize = 0;
    #[verifier::loop_isolation(false)]
    while i < src.len()
        invariant
            i <= src@.len(),
            out@.len() == i as int,
            forall|j: int|
                0 <= j < i ==> (FieldV {
                    name: (#[trigger] out@[j]).name@,
                    value: view_value(out@[j].value),
                }) == view_wire_field(src@[j]),
        decreases src@.len() - i,
    {
        proof {
            broadcast use vstd::seq::axiom_seq_index_decreases;

            assert(decreases_to!(*src => src@));
            assert(decreases_to!(src@ => src@[i as int]));
        }
        let f = &src[i];
        let v = match &f.value {
            Some(wv) => {
                proof {
                    broadcast use vstd::seq::axiom_seq_index_decreases;

                    assert(decreases_to!(src@[i as int] => src@[i as int].value));
                    assert(decreases_to!(src@[i as int].value => *wv));
                }
                Value::from_wire(wv)
            },
            None => Value::Null,
        };
        out.push(Field { name: f.name.clone(), value: v });
        i = i + 1;
    }
    proof {
        lemma_view_field_seq(out@);
        lemma_view_wire_field_seq(src@);
        assert(view_field_seq(out@) =~= view_wire_field_seq(src@));
    }
    out
}

impl Node {
    /// Decode a wire node.
    pub fn from_wire(w: &WireNode) -> (n: Node)
        ensures
            n@ == w@,
        decreases *w,
    {
        proof {
            assert(decreases_to!(*w => w.properties));
        }
        let n = Node {
            id: crate::util::clone_bytes(&w.id),
            labels: crate::util::clone_strings(&w.labels),
            properties: props_from_wire(&w.properties),
        };
        proof {
            assert(view_labels(n.labels@) =~= view_labels(w.labels@));
            assert(view_node(n) =~= view_wire_node(*w));
        }
        n
    }
}

/// Decode a list of nodes.
fn nodes_from_wire(src: &Vec<WireNode>) -> (r: Vec<Node>)
    ensures
        view_node_seq(r@) == view_wire_node_seq(src@),
    decreases *src,
{
    let mut out: Vec<Node> = Vec::new();
    let mut i: usize = 0;
    #[verifier::loop_isolation(false)]
    while i < src.len()
        invariant
            i <= src@.len(),
            out@.len() == i as int,
            forall|j: int|
                0 <= j < i ==> view_node(#[trigger] out@[j]) == view_wire_node(src@[j]),
        decreases src@.len() - i,
    {
        proof {
            broadcast use vstd::seq::axiom_seq_index_decreases;

            assert(decreases_to!(*src => src@));
            assert(decreases_to!(src@ => src@[i as int]));
        }
        let n = Node::from_wire(&src[i]);
        out.push(n);
        i = i + 1;
    }
    proof {
        lemma_view_node_seq(out@);
        lemma_view_wire_node_seq(src@);
        assert(view_node_seq(out@) =~= view_wire_node_seq(src@));
    }
    out
}

impl Edge {
    /// Decode a wire edge.
    pub fn from_wire(w: &WireEdge) -> (e: Edge)
        ensures
            e@ == w@,
        decreases *w,
    {
        proof {
            assert(decreases_to!(*w => w.properties));
        }
        let e = Edge {
            id: crate::util::clone_bytes(&w.id),
            labels: crate::util::clone_strings(&w.labels),
            source_node_id: crate::util::clone_bytes(&w.source_node_id),
            target_node_id: crate::util::clone_bytes(&w.target_node_id),
            undirected: w.undirected,
            properties: props_from_wire(&w.properties),
        };
        proof {
            assert(view_labels(e.labels@) =~= view_labels(w.labels@));
            assert(view_edge(e) =~= view_wire_edge(*w));
        }
        e
    }
}

/// Decode a list of edges.
fn edges_from_wire(src: &Vec<WireEdge>) -> (r: Vec<Edge>)
    ensures
        view_edge_seq(r@) == view_wire_edge_seq(src@),
    decreases *src,
{
    let mut out: Vec<Edge> = Vec::new();
    let mut i: usize = 0;
    #[verifier::loop_isolation(false)]
    while i < src.len()
        invariant
            i <= src@.len(),
            out@.len() == i as int,
            forall|j: int|
                0 <= j < i ==> view_edge(#[trigger] out@[j]) == view_wire_edge(src@[j]),
        decreases src@.len() - i,
    {
        proof {
            broadcast use vstd::seq::axiom_seq_index_decreases;

            assert(decreases_to!(*src => src@));
            assert(decreases_to!(src@ => src@[i as int]));
        }
        let e = Edge::from_wire(&src[i]);
        out.push(e);
        i = i + 1;
    }
    proof {
        lemma_view_edge_seq(out@);
        lemma_view_wire_edge_seq(src@);
        assert(view_edge_seq(out@) =~= view_wire_edge_seq(src@));
    }
    out
}

impl Path {
    /// Decode a wire path.
    pub fn from_wire(w: &WirePath) -> (p: Path)
        ensures
            p@ == w@,
        decreases *w,
    {
        proof {
            assert(decreases_to!(*w => w.nodes));
            assert(decreases_to!(*w => w.edges));
        }
        Path { nodes: nodes_from_wire(&w.nodes), edges: edges_from_wire(&w.edges) }
    }
}

impl Record {
    /// Decode a wire record; absent field values decode to NULL.
    pub fn from_wire(w: &WireRecord) -> (r: Record)
        ensures
            r@ == w@,
        decreases *w,
    {
        proof {
            assert(decreases_to!(*w => w.fields));
        }
        Record { fields: fields_from_wire(&w.fields) }
    }
}

impl Value {
    /// Decode a wire value: an absent kind or payload decodes to NULL,
    /// absent temporal sub-messages decode to defaults.
    ///
    /// The result's model is exactly the wire value's denotation, so
    /// decoding an encoded value gives the original model back.
    pub fn from_wire(w: &WireValue) -> (v: Value)
        ensures
            v@ == w@,
        decreases *w,
    {
        match &w.kind {
            None => Value::Null,
            Some(k) => {
                proof {
                    assert(decreases_to!(*w => w.kind));
                    assert(decreases_to!(w.kind => *k));
                }
                match k {
                    WireKind::NullValue => Value::Null,
                    WireKind::BooleanValue(b) => Value::Boolean(*b),
                    WireKind::IntegerValue(i) => Value::Integer(*i),
                    WireKind::UnsignedIntegerValue(u) => Value::UnsignedInteger(*u),
                    WireKind::FloatValue(bits) => Value::Float(*bits),
                    WireKind::StringValue(s) => Value::String(s.clone()),
                    WireKind::BytesValue(b) => Value::Bytes(crate::util::clone_bytes(b)),
                    WireKind::DateValue(d) => Value::Date(Date::from_wire(*d)),
                    WireKind::LocalTimeValue(t) => Value::LocalTime(LocalTime::from_wire(*t)),
                    WireKind::ZonedTimeValue(t) => Value::ZonedTime(ZonedTime::from_wire(*t)),
                    WireKind::LocalDatetimeValue(t) => Value::LocalDateTime(
                        LocalDateTime::from_wire(*t),
                    ),
                    WireKind::ZonedDatetimeValue(t) => Value::ZonedDateTime(
                        ZonedDateTime::from_wire(*t),
                    ),
                    WireKind::DurationValue(d) => Value::Duration(Duration::from_wire(*d)),
                    WireKind::ListValue(l) => {
                        proof {
                            assert(decreases_to!(*k => *l));
                            assert(decreases_to!(*l => l.elements));
                        }
                        Value::List(values_from_wire(&l.elements))
                    },
                    WireKind::RecordValue(r) => {
                        proof {
                            assert(decreases_to!(*k => *r));
                            assert(decreases_to!(*r => r.fields));
                        }
                        Value::Record(Record { fields: fields_from_wire(&r.fields) })
                    },
                    WireKind::NodeValue(n) => {
                        proof {
                            assert(decreases_to!(*k => *n));
                        }
                        Value::Node(Node::from_wire(n))
                    },
                    WireKind::EdgeValue(e) => {
                        proof {
                            assert(decreases_to!(*k => *e));
                        }
                        Value::Edge(Edge::from_wire(e))
                    },
                    WireKind::PathValue(p) => {
                        proof {
                            assert(decreases_to!(*k => *p));
                            assert(decreases_to!(*p => p.nodes));
                            assert(decreases_to!(*p => p.edges));
                        }
                        Value::Path(
                            Path {
                                nodes: nodes_from_wire(&p.nodes),
                                edges: edges_from_wire(&p.edges),
                            },
                        )
                    },
                    WireKind::DecimalValue(d) => Value::Decimal {
                        unscaled: crate::util::clone_bytes(&d.unscaled),
                        scale: d.scale,
                    },
                    WireKind::BigIntegerValue(b) => Value::BigInteger {
                        value: crate::util::clone_bytes(&b.value),
                        is_signed: b.is_signed,
                    },
                    WireKind::BigFloatValue(b) => Value::BigFloat {
                        value: crate::util::clone_bytes(&b.value),
                        width: b.width,
                    },
                }
            },
        }
    }
}

} // verus!
