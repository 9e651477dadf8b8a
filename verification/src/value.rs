//! The core GQL value type: a closed tagged union of all GQL value kinds,
//! together with records, nodes, edges and paths.
//!
//! Every type here has a mathematical model (`ValV`, `NodeV`, ...) reached
//! through its view; contracts elsewhere in the crate speak of those models.
//! A 64-bit float value is carried as its IEEE-754 bit pattern, so that the
//! mapping logic stays exact.

use vstd::prelude::*;

use crate::temporal::{Date, Duration, LocalDateTime, LocalTime, ZonedDateTime, ZonedTime};

verus! {

broadcast use vstd::std_specs::vec::group_vec_axioms;

/// A GQL value - the discriminated union of all types that can appear
/// in query results, parameters, or property maps.
#[derive(Debug, PartialEq)]
pub enum Value {
    /// GQL NULL.
    Null,
    /// Boolean value.
    Boolean(bool),
    /// Signed integer (INT8 through INT64).
    Integer(i64),
    /// Unsigned integer (UINT8 through UINT64).
    UnsignedInteger(u64),
    /// Floating point (FLOAT32/64), carried as the IEEE-754 bit pattern of
    /// the 64-bit value.
    Float(u64),
    /// String value.
    String(String),
    /// Byte string.
    Bytes(Vec<u8>),
    /// Calendar date.
    Date(Date),
    /// Time without timezone.
    LocalTime(LocalTime),
    /// Time with timezone offset.
    ZonedTime(ZonedTime),
    /// Datetime without timezone.
    LocalDateTime(LocalDateTime),
    /// Datetime with timezone offset.
    ZonedDateTime(ZonedDateTime),
    /// Temporal duration.
    Duration(Duration),
    /// Ordered list of values.
    List(Vec<Value>),
    /// Named record with fields.
    Record(Record),
    /// Property graph node.
    Node(Node),
    /// Property graph edge.
    Edge(Edge),
    /// Path through a graph.
    Path(Path),
    /// Arbitrary-precision decimal (unscaled big-endian two's complement + scale).
    Decimal {
        /// Big-endian two's complement of the unscaled value.
        unscaled: Vec<u8>,
        /// Number of digits after the decimal point.
        scale: i32,
    },
    /// Extended-precision integer (INT128/256, UINT128/256).
    BigInteger {
        /// Big-endian two's complement encoding.
        value: Vec<u8>,
        /// Whether this is a signed integer type.
        is_signed: bool,
    },
    /// Extended-precision float (FLOAT128/256).
    BigFloat {
        /// IEEE 754 encoding.
        value: Vec<u8>,
        /// Bit width (128 or 256).
        width: u32,
    },
}

/// A single field within a record.
#[derive(Debug, PartialEq)]
pub struct Field {
    /// Field name.
    pub name: String,
    /// Field value.
    pub value: Value,
}

/// A named collection of fields (GQL record type).
#[derive(Debug, PartialEq)]
pub struct Record {
    /// Fields in order.
    pub fields: Vec<Field>,
}

/// A property graph node with an opaque ID, labels, and properties.
#[derive(Debug, PartialEq)]
pub struct Node {
    /// Opaque element identifier.
    pub id: Vec<u8>,
    /// Label set.
    pub labels: Vec<String>,
    /// Property map, as name/value entries.
    pub properties: Vec<(String, Value)>,
}

/// A property graph edge with an opaque ID, labels, endpoints, and properties.
#[derive(Debug, PartialEq)]
pub struct Edge {
    /// Opaque element identifier.
    pub id: Vec<u8>,
    /// Label set.
    pub labels: Vec<String>,
    /// Source node ID (directed) or endpoint A (undirected).
    pub source_node_id: Vec<u8>,
    /// Target node ID (directed) or endpoint B (undirected).
    pub target_node_id: Vec<u8>,
    /// Whether this is an undirected edge.
    pub undirected: bool,
    /// Property map, as name/value entries.
    pub properties: Vec<(String, Value)>,
}

/// A path through a property graph.
///
/// Consists of an alternating sequence of nodes and edges where
/// `edges[i]` connects `nodes[i]` and `nodes[i+1]`.
#[derive(Debug, PartialEq)]
pub struct Path {
    /// Nodes in the path (length = `edges.len()` + 1 for non-empty paths).
    pub nodes: Vec<Node>,
    /// Edges connecting consecutive nodes.
    pub edges: Vec<Edge>,
}

// ============================================================================
// Mathematical models
// ============================================================================

/// Model of a `Value`.
#[verifier::ext_equal]
pub enum ValV {
    /// GQL NULL.
    Null,
    /// Boolean value.
    Boolean(bool),
    /// Signed integer.
    Integer(i64),
    /// Unsigned integer.
    UnsignedInteger(u64),
    /// Floating point, as the IEEE-754 bit pattern.
    Float(u64),
    /// String value.
    Text(Seq<char>),
    /// Byte string.
    Bytes(Seq<u8>),
    /// Calendar date.
    Date(Date),
    /// Time without timezone.
    LocalTime(LocalTime),
    /// Time with timezone offset.
    ZonedTime(ZonedTime),
    /// Datetime without timezone.
    LocalDateTime(LocalDateTime),
    /// Datetime with timezone offset.
    ZonedDateTime(ZonedDateTime),
    /// Temporal duration.
    Duration(Duration),
    /// Ordered list of values.
    List(Seq<ValV>),
    /// Named record with fields.
    Record(Seq<FieldV>),
    /// Property graph node.
    Node(NodeV),
    /// Property graph edge.
    Edge(EdgeV),
    /// Path through a graph.
    Path(PathV),
    /// Arbitrary-precision decimal.
    Decimal {
        /// Big-endian two's complement of the unscaled value.
        unscaled: Seq<u8>,
        /// Number of digits after the decimal point.
        scale: i32,
    },
    /// Extended-precision integer.
    BigInteger {
        /// Big-endian two's complement encoding.
        value: Seq<u8>,
        /// Whether this is a signed integer type.
        is_signed: bool,
    },
    /// Extended-precision float.
    BigFloat {
        /// IEEE 754 encoding.
        value: Seq<u8>,
        /// Bit width.
        width: u32,
    },
}

/// Model of a record field.
#[verifier::ext_equal]
pub struct FieldV {
    /// Field name.
    pub name: Seq<char>,
    /// Field value.
    pub value: ValV,
}

/// Model of a node.
#[verifier::ext_equal]
pub struct NodeV {
    /// Opaque element identifier.
    pub id: Seq<u8>,
    /// Label set.
    pub labels: Seq<Seq<char>>,
    /// Property map, as name/value entries.
    pub properties: Seq<(Seq<char>, ValV)>,
}

/// Model of an edge.
#[verifier::ext_equal]
pub struct EdgeV {
    /// Opaque element identifier.
    pub id: Seq<u8>,
    /// Label set.
    pub labels: Seq<Seq<char>>,
    /// Source node ID.
    pub source_node_id: Seq<u8>,
    /// Target node ID.
    pub target_node_id: Seq<u8>,
    /// Whether this is an undirected edge.
    pub undirected: bool,
    /// Property map, as name/value entries.
    pub properties: Seq<(Seq<char>, ValV)>,
}

/// Model of a path.
#[verifier::ext_equal]
pub struct PathV {
    /// Nodes in the path.
    pub nodes: Seq<NodeV>,
    /// Edges connecting consecutive nodes.
    pub edges: Seq<EdgeV>,
}

// ============================================================================
// Views
// ============================================================================

/// The model of a label list.
pub open spec fn view_labels(s: Seq<String>) -> Seq<Seq<char>> {
    Seq::new(s.len(), |i: int| s[i]@)
}

/// The model of a value.
pub open spec fn view_value(v: Value) -> ValV
    decreases v,
    via view_value_decreases
{
    match v {
        Value::Null => ValV::Null,
        Value::Boolean(b) => ValV::Boolean(b),
        Value::Integer(i) => ValV::Integer(i),
        Value::UnsignedInteger(u) => ValV::UnsignedInteger(u),
        Value::Float(bits) => ValV::Float(bits),
        Value::String(s) => ValV::Text(s@),
        Value::Bytes(b) => ValV::Bytes(b@),
        Value::Date(d) => ValV::Date(d),
        Value::LocalTime(t) => ValV::LocalTime(t),
        Value::ZonedTime(t) => ValV::ZonedTime(t),
        Value::LocalDateTime(t) => ValV::LocalDateTime(t),
        Value::ZonedDateTime(t) => ValV::ZonedDateTime(t),
        Value::Duration(d) => ValV::Duration(d),
        Value::List(elems) => ValV::List(view_value_seq(elems@)),
        Value::Record(r) => ValV::Record(view_field_seq(r.fields@)),
        Value::Node(n) => ValV::Node(view_node(n)),
        Value::Edge(e) => ValV::Edge(view_edge(e)),
        Value::Path(p) => ValV::Path(
            PathV { nodes: view_node_seq(p.nodes@), edges: view_edge_seq(p.edges@) },
        ),
        Value::Decimal { unscaled, scale } => ValV::Decimal { unscaled: unscaled@, scale },
        Value::BigInteger { value, is_signed } => ValV::BigInteger { value: value@, is_signed },
        Value::BigFloat { value, width } => ValV::BigFloat { value: value@, width },
    }
}

/// The models of a sequence of values, pointwise.
pub open spec fn view_value_seq(s: Seq<Value>) -> Seq<ValV>
    decreases s,
    via view_value_seq_decreases
{
    if s.len() == 0 {
        Seq::empty()
    } else {
        seq![view_value(s[0])] + view_value_seq(s.drop_first())
    }
}

/// The models of a sequence of fields, pointwise.
pub open spec fn view_field_seq(s: Seq<Field>) -> Seq<FieldV>
    decreases s,
    via view_field_seq_decreases
{
    if s.len() == 0 {
        Seq::empty()
    } else {
        seq![FieldV { name: s[0].name@, value: view_value(s[0].value) }] + view_field_seq(
            s.drop_first(),
        )
    }
}

/// The models of a sequence of property entries, pointwise.
pub open spec fn view_prop_seq(s: Seq<(String, Value)>) -> Seq<(Seq<char>, ValV)>
    decreases s,
    via view_prop_seq_decreases
{
    if s.len() == 0 {
        Seq::empty()
    } else {
        seq![(s[0].0@, view_value(s[0].1))] + view_prop_seq(s.drop_first())
    }
}

/// The model of a node.
pub open spec fn view_node(n: Node) -> NodeV
    decreases n,
    via view_node_decreases
{
    NodeV { id: n.id@, labels: view_labels(n.labels@), properties: view_prop_seq(n.properties@) }
}

/// The models of a sequence of nodes, pointwise.
pub open spec fn view_node_seq(s: Seq<Node>) -> Seq<NodeV>
    decreases s,
    via view_node_seq_decreases
{
    if s.len() == 0 {
        Seq::empty()
    } else {
        seq![view_node(s[0])] + view_node_seq(s.drop_first())
    }
}

/// The model of an edge.
pub open spec fn view_edge(e: Edge) -> EdgeV
    decreases e,
    via view_edge_decreases
{
    EdgeV {
        id: e.id@,
        labels: view_labels(e.labels@),
        source_node_id: e.source_node_id@,
        target_node_id: e.target_node_id@,
        undirected: e.undirected,
        properties: view_prop_seq(e.properties@),
    }
}

/// The models of a sequence of edges, pointwise.
pub open spec fn view_edge_seq(s: Seq<Edge>) -> Seq<EdgeV>
    decreases s,
    via view_edge_seq_decreases
{
    if s.len() == 0 {
        Seq::empty()
    } else {
        seq![view_edge(s[0])] + view_edge_seq(s.drop_first())
    }
}

#[via_fn]
proof fn view_value_decreases(v: Value) {
    broadcast use vstd::seq::axiom_seq_index_decreases;

    match v {
        Value::List(elems) => {
            assert(decreases_to!(v => elems));
            assert(decreases_to!(elems => elems@));
        },
        Value::Record(r) => {
            assert(decreases_to!(v => r));
            assert(decreases_to!(r => r.fields));
            assert(decreases_to!(r.fields => r.fields@));
        },
        Value::Path(p) => {
            assert(decreases_to!(v => p));
            assert(decreases_to!(p => p.nodes));
            assert(decreases_to!(p.nodes => p.nodes@));
            assert(decreases_to!(p => p.edges));
            assert(decreases_to!(p.edges => p.edges@));
        },
        _ => {},
    }
}

#[via_fn]
proof fn view_value_seq_decreases(s: Seq<Value>) {
    broadcast use vstd::seq::axiom_seq_index_decreases, vstd::seq::axiom_seq_subrange_decreases;

    if s.len() > 0 {
        assert(decreases_to!(s => s[0]));
        assert(decreases_to!(s => s.drop_first()));
    }
}

#[via_fn]
proof fn view_field_seq_decreases(s: Seq<Field>) {
    broadcast use vstd::seq::axiom_seq_index_decreases, vstd::seq::axiom_seq_subrange_decreases;

    if s.len() > 0 {
        assert(decreases_to!(s => s[0]));
        assert(decreases_to!(s[0] => s[0].value));
        assert(decreases_to!(s => s.drop_first()));
    }
}

#[via_fn]
proof fn view_prop_seq_decreases(s: Seq<(String, Value)>) {
    broadcast use vstd::seq::axiom_seq_index_decreases, vstd::seq::axiom_seq_subrange_decreases;

    if s.len() > 0 {
        assert(decreases_to!(s => s[0]));
        assert(decreases_to!(s[0] => s[0].1));
        assert(decreases_to!(s => s.drop_first()));
    }
}

#[via_fn]
proof fn view_node_decreases(n: Node) {
    assert(decreases_to!(n => n.properties));
    assert(decreases_to!(n.properties => n.properties@));
}

#[via_fn]
proof fn view_node_seq_decreases(s: Seq<Node>) {
    broadcast use vstd::seq::axiom_seq_index_decreases, vstd::seq::axiom_seq_subrange_decreases;

    if s.len() > 0 {
        assert(decreases_to!(s => s[0]));
        assert(decreases_to!(s => s.drop_first()));
    }
}

#[via_fn]
proof fn view_edge_decreases(e: Edge) {
    assert(decreases_to!(e => e.properties));
    assert(decreases_to!(e.properties => e.properties@));
}

#[via_fn]
proof fn view_edge_seq_decreases(s: Seq<Edge>) {
    broadcast use vstd::seq::axiom_seq_index_decreases, vstd::seq::axiom_seq_subrange_decreases;

    if s.len() > 0 {
        assert(decreases_to!(s => s[0]));
        assert(decreases_to!(s => s.drop_first()));
    }
}

impl View for Value {
    type V = ValV;

    open spec fn view(&self) -> ValV {
        view_value(*self)
    }
}

impl View for Field {
    type V = FieldV;

    open spec fn view(&self) -> FieldV {
        FieldV { name: self.name@, value: view_value(self.value) }
    }
}

impl View for Record {
    type V = Seq<FieldV>;

    open spec fn view(&self) -> Seq<FieldV> {
        view_field_seq(self.fields@)
    }
}

impl View for Node {
    type V = NodeV;

    open spec fn view(&self) -> NodeV {
        view_node(*self)
    }
}

impl View for Edge {
    type V = EdgeV;

    open spec fn view(&self) -> EdgeV {
        view_edge(*self)
    }
}

impl View for Path {
    type V = PathV;

    open spec fn view(&self) -> PathV {
        PathV { nodes: view_node_seq(self.nodes@), edges: view_edge_seq(self.edges@) }
    }
}

// ============================================================================
// Pointwise view lemmas
// ============================================================================

/// The model of a value sequence indexes pointwise.
pub proof fn lemma_view_value_seq(s: Seq<Value>)
    ensures
        view_value_seq(s).len() == s.len(),
        forall|i: int| 0 <= i < s.len() ==> view_value_seq(s)[i] == view_value(s[i]),
    decreases s.len(),
{
    if s.len() > 0 {
        lemma_view_value_seq(s.drop_first());
    }
}

/// The model of a field sequence indexes pointwise.
pub proof fn lemma_view_field_seq(s: Seq<Field>)
    ensures
        view_field_seq(s).len() == s.len(),
        forall|i: int|
            0 <= i < s.len() ==> view_field_seq(s)[i] == (FieldV {
                name: s[i].name@,
                value: view_value(s[i].value),
            }),
    decreases s.len(),
{
    if s.len() > 0 {
        lemma_view_field_seq(s.drop_first());
    }
}

/// The model of a property sequence indexes pointwise.
pub proof fn lemma_view_prop_seq(s: Seq<(String, Value)>)
    ensures
        view_prop_seq(s).len() == s.len(),
        forall|i: int|
            0 <= i < s.len() ==> view_prop_seq(s)[i] == (s[i].0@, view_value(s[i].1)),
    decreases s.len(),
{
    if s.len() > 0 {
        lemma_view_prop_seq(s.drop_first());
    }
}

/// The model of a node sequence indexes pointwise.
pub proof fn lemma_view_node_seq(s: Seq<Node>)
    ensures
        view_node_seq(s).len() == s.len(),
        forall|i: int| 0 <= i < s.len() ==> view_node_seq(s)[i] == view_node(s[i]),
    decreases s.len(),
{
    if s.len() > 0 {
        lemma_view_node_seq(s.drop_first());
    }
}

/// The model of an edge sequence indexes pointwise.
pub proof fn lemma_view_edge_seq(s: Seq<Edge>)
    ensures
        view_edge_seq(s).len() == s.len(),
        forall|i: int| 0 <= i < s.len() ==> view_edge_seq(s)[i] == view_edge(s[i]),
    decreases s.len(),
{
    if s.len() > 0 {
        lemma_view_edge_seq(s.drop_first());
    }
}

// ============================================================================
// Lookup in property maps and records
// ============================================================================

/// The value bound to `name` in a property list: the first entry wins.
pub open spec fn spec_prop_lookup(props: Seq<(Seq<char>, ValV)>, name: Seq<char>) -> Option<ValV>
    decreases props.len(),
{
    if props.len() == 0 {
        None
    } else if props[0].0 == name {
        Some(props[0].1)
    } else {
        spec_prop_lookup(props.drop_first(), name)
    }
}

/// The value bound to `name` among record fields: the first field wins.
pub open spec fn spec_field_lookup(fields: Seq<FieldV>, name: Seq<char>) -> Option<ValV>
    decreases fields.len(),
{
    if fields.len() == 0 {
        None
    } else if fields[0].name == name {
        Some(fields[0].value)
    } else {
        spec_field_lookup(fields.drop_first(), name)
    }
}

/// Whether a label list contains `label`.
pub open spec fn spec_has_label(labels: Seq<Seq<char>>, label: Seq<char>) -> bool {
    exists|i: int| 0 <= i < labels.len() && labels[i] == label
}

// ============================================================================
// Lookup lemmas for fields
// ============================================================================

/// The field lookup returns the field at the first index whose name matches.
pub proof fn lemma_field_lookup_at(fields: Seq<FieldV>, name: Seq<char>, i: int)
    requires
        0 <= i < fields.len(),
        fields[i].name == name,
        forall|j: int| 0 <= j < i ==> (#[trigger] fields[j]).name != name,
    ensures
        spec_field_lookup(fields, name) == Some(fields[i].value),
    decreases i,
{
    if i > 0 {
        assert(fields.drop_first()[i - 1] == fields[i]);
        assert forall|j: int| 0 <= j < i - 1 implies (#[trigger] fields.drop_first()[j]).name
            != name by {
            assert(fields.drop_first()[j] == fields[j + 1]);
        }
        lemma_field_lookup_at(fields.drop_first(), name, i - 1);
    }
}

/// The field lookup misses when no field's name matches.
pub proof fn lemma_field_lookup_absent(fields: Seq<FieldV>, name: Seq<char>)
    requires
        forall|j: int| 0 <= j < fields.len() ==> (#[trigger] fields[j]).name != name,
    ensures
        spec_field_lookup(fields, name) is None,
    decreases fields.len(),
{
    if fields.len() > 0 {
        assert forall|j: int|
            0 <= j < fields.drop_first().len() implies (#[trigger] fields.drop_first()[j]).name
            != name by {
            assert(fields.drop_first()[j] == fields[j + 1]);
        }
        lemma_field_lookup_absent(fields.drop_first(), name);
    }
}

// ============================================================================
// Builders and accessors
// ============================================================================

impl Node {
    /// Create a new node with the given ID.
    pub fn new(id: Vec<u8>) -> (r: Node)
        ensures
            r.id == id,
            r.labels@ == Seq::<String>::empty(),
            r.properties@ == Seq::<(String, Value)>::empty(),
    {
        Node { id, labels: Vec::new(), properties: Vec::new() }
    }

    /// Add a label to the node.
    pub fn with_label(self, label: &str) -> (r: Node)
        ensures
            r.id == self.id,
            r.properties == self.properties,
            r.labels@.len() == self.labels@.len() + 1,
            r.labels@[r.labels@.len() - 1]@ == label@,
            forall|i: int| 0 <= i < self.labels@.len() ==> r.labels@[i] == self.labels@[i],
    {
        let mut n = self;
        n.labels.push(label.to_owned());
        n
    }

    /// Add a property to the node; an existing property of the same name is
    /// replaced.
    pub fn with_property(self, name: &str, value: Value) -> (r: Node)
        ensures
            r.id == self.id,
            r.labels == self.labels,
            crate::registry::spec_lookup(r.properties@, name@) == Some(value),
            forall|n2: Seq<char>|
                n2 != name@ ==> #[trigger] crate::registry::spec_lookup(r.properties@, n2)
                    == crate::registry::spec_lookup(self.properties@, n2),
    {
        let mut n = self;
        set_property(&mut n.properties, name, value);
        n
    }

    /// Get a property value by name.
    pub fn property(&self, name: &str) -> (r: Option<&Value>)
        ensures
            match r {
                Some(v) => crate::registry::spec_lookup(self.properties@, name@) == Some(*v),
                None => crate::registry::spec_lookup(self.properties@, name@) is None,
            },
    {
        get_property(&self.properties, name)
    }

    /// Check if the node has a specific label.
    pub fn has_label(&self, label: &str) -> (r: bool)
        ensures
            r == spec_has_label(view_labels(self.labels@), label@),
    {
        has_label_in(&self.labels, label)
    }
}

impl Edge {
    /// Create a new directed edge.
    pub fn directed(id: Vec<u8>, source: Vec<u8>, target: Vec<u8>) -> (r: Edge)
        ensures
            r.id == id,
            r.labels@ == Seq::<String>::empty(),
            r.source_node_id == source,
            r.target_node_id == target,
            !r.undirected,
            r.properties@ == Seq::<(String, Value)>::empty(),
    {
        Edge {
            id,
            labels: Vec::new(),
            source_node_id: source,
            target_node_id: target,
            undirected: false,
            properties: Vec::new(),
        }
    }

    /// Create a new undirected edge.
    pub fn undirected(id: Vec<u8>, endpoint_a: Vec<u8>, endpoint_b: Vec<u8>) -> (r: Edge)
        ensures
            r.id == id,
            r.labels@ == Seq::<String>::empty(),
            r.source_node_id == endpoint_a,
            r.target_node_id == endpoint_b,
            r.undirected,
            r.properties@ == Seq::<(String, Value)>::empty(),
    {
        Edge {
            id,
            labels: Vec::new(),
            source_node_id: endpoint_a,
            target_node_id: endpoint_b,
            undirected: true,
            properties: Vec::new(),
        }
    }

    /// Add a label to the edge.
    pub fn with_label(self, label: &str) -> (r: Edge)
        ensures
            r.id == self.id,
            r.source_node_id == self.source_node_id,
            r.target_node_id == self.target_node_id,
            r.undirected == self.undirected,
            r.properties == self.properties,
            r.labels@.len() == self.labels@.len() + 1,
            r.labels@[r.labels@.len() - 1]@ == label@,
            forall|i: int| 0 <= i < self.labels@.len() ==> r.labels@[i] == self.labels@[i],
    {
        let mut e = self;
        e.labels.push(label.to_owned());
        e
    }

    /// Add a property to the edge; an existing property of the same name is
    /// replaced.
    pub fn with_property(self, name: &str, value: Value) -> (r: Edge)
        ensures
            r.id == self.id,
            r.labels == self.labels,
            r.source_node_id == self.source_node_id,
            r.target_node_id == self.target_node_id,
            r.undirected == self.undirected,
            crate::registry::spec_lookup(r.properties@, name@) == Some(value),
            forall|n2: Seq<char>|
                n2 != name@ ==> #[trigger] crate::registry::spec_lookup(r.properties@, n2)
                    == crate::registry::spec_lookup(self.properties@, n2),
    {
        let mut e = self;
        set_property(&mut e.properties, name, value);
        e
    }

    /// Get a property value by name.
    pub fn property(&self, name: &str) -> (r: Option<&Value>)
        ensures
            match r {
                Some(v) => crate::registry::spec_lookup(self.properties@, name@) == Some(*v),
                None => crate::registry::spec_lookup(self.properties@, name@) is None,
            },
    {
        get_property(&self.properties, name)
    }
}

impl Path {
    /// Create a path from a single node (length-0 path).
    pub fn from_node(node: Node) -> (r: Path)
        ensures
            r.nodes@.len() == 1,
            r.nodes@[0] == node,
            r.edges@ == Seq::<Edge>::empty(),
    {
        let mut nodes: Vec<Node> = Vec::new();
        nodes.push(node);
        Path { nodes, edges: Vec::new() }
    }

    /// Extend the path with an edge and a destination node.
    pub fn with_step(self, edge: Edge, node: Node) -> (r: Path)
        ensures
            r.nodes@ == self.nodes@.push(node),
            r.edges@ == self.edges@.push(edge),
    {
        let mut p = self;
        p.edges.push(edge);
        p.nodes.push(node);
        p
    }

    /// Returns the number of edges in the path.
    pub fn len(&self) -> (r: usize)
        ensures
            r == self.edges@.len(),
    {
        self.edges.len()
    }

    /// Returns true if the path has no edges (single-node path).
    pub fn is_empty(&self) -> (r: bool)
        ensures
            r == (self.edges@.len() == 0),
    {
        self.edges.len() == 0
    }

    /// Returns the start node of the path, if any.
    pub fn start(&self) -> (r: Option<&Node>)
        ensures
            match r {
                Some(n) => self.nodes@.len() > 0 && *n == self.nodes@[0],
                None => self.nodes@.len() == 0,
            },
    {
        if self.nodes.len() > 0 {
            Some(&self.nodes[0])
        } else {
            None
        }
    }

    /// Returns the end node of the path, if any.
    pub fn end(&self) -> (r: Option<&Node>)
        ensures
            match r {
                Some(n) => self.nodes@.len() > 0 && *n == self.nodes@[self.nodes@.len() - 1],
                None => self.nodes@.len() == 0,
            },
    {
        if self.nodes.len() > 0 {
            Some(&self.nodes[self.nodes.len() - 1])
        } else {
            None
        }
    }
}

impl Record {
    /// Create an empty record.
    pub fn new() -> (r: Record)
        ensures
            r.fields@ == Seq::<Field>::empty(),
    {
        Record { fields: Vec::new() }
    }

    /// Add a field to the record.
    pub fn with_field(self, name: &str, value: Value) -> (r: Record)
        ensures
            r.fields@.len() == self.fields@.len() + 1,
            r.fields@[r.fields@.len() - 1].name@ == name@,
            r.fields@[r.fields@.len() - 1].value == value,
            forall|i: int| 0 <= i < self.fields@.len() ==> r.fields@[i] == self.fields@[i],
    {
        let mut rec = self;
        rec.fields.push(Field { name: name.to_owned(), value });
        rec
    }

    /// Get a field value by name; the first field of that name wins.
    pub fn get(&self, name: &str) -> (r: Option<&Value>)
        ensures
            match r {
                Some(v) => spec_field_lookup(self@, name@) == Some(view_value(*v)),
                None => spec_field_lookup(self@, name@) is None,
            },
    {
        proof {
            lemma_view_field_seq(self.fields@);
        }
        let mut i: usize = 0;
        while i < self.fields.len()
            invariant
                i <= self.fields@.len(),
                view_field_seq(self.fields@).len() == self.fields@.len(),
                forall|j: int|
                    0 <= j < self.fields@.len() ==> #[trigger] view_field_seq(self.fields@)[j]
                        == (FieldV {
                        name: self.fields@[j].name@,
                        value: view_value(self.fields@[j].value),
                    }),
                forall|j: int| 0 <= j < i ==> (#[trigger] self.fields@[j]).name@ != name@,
            decreases self.fields@.len() - i,
        {
            if crate::util::str_eq(self.fields[i].name.as_str(), name) {
                proof {
                    assert forall|j: int|
                        0 <= j < i implies (#[trigger] view_field_seq(self.fields@)[j]).name
                        != name@ by {}
                    lemma_field_lookup_at(view_field_seq(self.fields@), name@, i as int);
                }
                return Some(&self.fields[i].value);
            }
            i = i + 1;
        }
        proof {
            assert forall|j: int|
                0 <= j < view_field_seq(self.fields@).len() implies (#[trigger] view_field_seq(
                self.fields@,
            )[j]).name != name@ by {}
            lemma_field_lookup_absent(view_field_seq(self.fields@), name@);
        }
        None
    }

    /// Returns the number of fields.
    pub fn len(&self) -> (r: usize)
        ensures
            r == self.fields@.len(),
    {
        self.fields.len()
    }

    /// Returns true if the record has no fields.
    pub fn is_empty(&self) -> (r: bool)
        ensures
            r == (self.fields@.len() == 0),
    {
        self.fields.len() == 0
    }
}

impl Default for Record {
    /// An empty record.
    fn default() -> (r: Record)
        ensures
            r.fields@ == Seq::<Field>::empty(),
    {
        Record::new()
    }
}

/// Bind `name` to `value` in a property list: the first entry of that name
/// is replaced, or a new entry appended.
fn set_property(props: &mut Vec<(String, Value)>, name: &str, value: Value)
    ensures
        crate::registry::spec_lookup(final(props)@, name@) == Some(value),
        forall|n2: Seq<char>|
            n2 != name@ ==> #[trigger] crate::registry::spec_lookup(final(props)@, n2)
                == crate::registry::spec_lookup(old(props)@, n2),
{
    let key = name.to_owned();
    match crate::registry::find_index(props, name) {
        Some(i) => {
            proof {
                crate::registry::lemma_lookup_update(props@, i as int, (key, value));
            }
            props.set(i, (key, value));
        },
        None => {
            proof {
                crate::registry::lemma_lookup_push(props@, (key, value));
            }
            props.push((key, value));
        },
    }
}

/// Look up `name` in a property list: the first entry of that name wins.
fn get_property<'a>(props: &'a Vec<(String, Value)>, name: &str) -> (r: Option<&'a Value>)
    ensures
        match r {
            Some(v) => crate::registry::spec_lookup(props@, name@) == Some(*v),
            None => crate::registry::spec_lookup(props@, name@) is None,
        },
{
    match crate::registry::find_index(props, name) {
        Some(i) => {
            proof {
                crate::registry::lemma_lookup_at(props@, name@, i as int);
            }
            Some(&props[i].1)
        },
        None => {
            proof {
                crate::registry::lemma_lookup_absent(props@, name@);
            }
            None
        },
    }
}

/// Whether any label in the list reads `label`.
fn has_label_in(labels: &Vec<String>, label: &str) -> (r: bool)
    ensures
        r == spec_has_label(view_labels(labels@), label@),
{
    let mut i: usize = 0;
    while i < labels.len()
        invariant
            i <= labels@.len(),
            forall|j: int| 0 <= j < i ==> view_labels(labels@)[j] != label@,
        decreases labels@.len() - i,
    {
        if crate::util::str_eq(labels[i].as_str(), label) {
            proof {
                assert(view_labels(labels@)[i as int] == label@);
            }
            return true;
        }
        proof {
            assert(view_labels(labels@)[i as int] == labels@[i as int]@);
        }
        i = i + 1;
    }
    false
}

// ============================================================================
// Conversions from common Rust types
// ============================================================================

impl From<bool> for Value {
    fn from(v: bool) -> (r: Value) {
        Value::Boolean(v)
    }
}

impl vstd::std_specs::convert::FromSpecImpl<bool> for Value {
    open spec fn obeys_from_spec() -> bool {
        true
    }

    open spec fn from_spec(v: bool) -> Value {
        Value::Boolean(v)
    }
}

impl From<i64> for Value {
    fn from(v: i64) -> (r: Value) {
        Value::Integer(v)
    }
}

impl vstd::std_specs::convert::FromSpecImpl<i64> for Value {
    open spec fn obeys_from_spec() -> bool {
        true
    }

    open spec fn from_spec(v: i64) -> Value {
        Value::Integer(v)
    }
}

impl From<i32> for Value {
    fn from(v: i32) -> (r: Value) {
        Value::Integer(v as i64)
    }
}

impl vstd::std_specs::convert::FromSpecImpl<i32> for Value {
    open spec fn obeys_from_spec() -> bool {
        true
    }

    open spec fn from_spec(v: i32) -> Value {
        Value::Integer(v as i64)
    }
}

impl From<u64> for Value {
    fn from(v: u64) -> (r: Value) {
        Value::UnsignedInteger(v)
    }
}

impl vstd::std_specs::convert::FromSpecImpl<u64> for Value {
    open spec fn obeys_from_spec() -> bool {
        true
    }

    open spec fn from_spec(v: u64) -> Value {
        Value::UnsignedInteger(v)
    }
}

impl From<u32> for Value {
    fn from(v: u32) -> (r: Value) {
        Value::UnsignedInteger(v as u64)
    }
}

impl vstd::std_specs::convert::FromSpecImpl<u32> for Value {
    open spec fn obeys_from_spec() -> bool {
        true
    }

    open spec fn from_spec(v: u32) -> Value {
        Value::UnsignedInteger(v as u64)
    }
}

impl From<String> for Value {
    fn from(v: String) -> (r: Value) {
        Value::String(v)
    }
}

impl vstd::std_specs::convert::FromSpecImpl<String> for Value {
    open spec fn obeys_from_spec() -> bool {
        true
    }

    open spec fn from_spec(v: String) -> Value {
        Value::String(v)
    }
}

impl From<&str> for Value {
    fn from(v: &str) -> (r: Value)
        ensures
            r@ == ValV::Text(v@),
    {
        Value::String(v.to_owned())
    }
}

impl vstd::std_specs::convert::FromSpecImpl<&str> for Value {
    open spec fn obeys_from_spec() -> bool {
        false
    }

    open spec fn from_spec(v: &str) -> Value {
        Value::Null
    }
}

impl From<Vec<u8>> for Value {
    fn from(v: Vec<u8>) -> (r: Value) {
        Value::Bytes(v)
    }
}

impl vstd::std_specs::convert::FromSpecImpl<Vec<u8>> for Value {
    open spec fn obeys_from_spec() -> bool {
        true
    }

    open spec fn from_spec(v: Vec<u8>) -> Value {
        Value::Bytes(v)
    }
}

impl From<Vec<Value>> for Value {
    fn from(v: Vec<Value>) -> (r: Value) {
        Value::List(v)
    }
}

impl vstd::std_specs::convert::FromSpecImpl<Vec<Value>> for Value {
    open spec fn obeys_from_spec() -> bool {
        true
    }

    open spec fn from_spec(v: Vec<Value>) -> Value {
        Value::List(v)
    }
}

impl From<Node> for Value {
    fn from(v: Node) -> (r: Value) {
        Value::Node(v)
    }
}

impl vstd::std_specs::convert::FromSpecImpl<Node> for Value {
    open spec fn obeys_from_spec() -> bool {
        true
    }

    open spec fn from_spec(v: Node) -> Value {
        Value::Node(v)
    }
}

impl From<Edge> for Value {
    fn from(v: Edge) -> (r: Value) {
        Value::Edge(v)
    }
}

impl vstd::std_specs::convert::FromSpecImpl<Edge> for Value {
    open spec fn obeys_from_spec() -> bool {
        true
    }

    open spec fn from_spec(v: Edge) -> Value {
        Value::Edge(v)
    }
}

impl From<Path> for Value {
    fn from(v: Path) -> (r: Value) {
        Value::Path(v)
    }
}

impl vstd::std_specs::convert::FromSpecImpl<Path> for Value {
    open spec fn obeys_from_spec() -> bool {
        true
    }

    open spec fn from_spec(v: Path) -> Value {
        Value::Path(v)
    }
}

} // verus!
