use gwp::value::{Edge, Node, Path, Record, Value};
use gwp::wire::{WireEdge, WireNode, WirePath, WireRecord};

#[test]
fn node_builder_pattern() {
    let node = Node::new(1_i64.to_be_bytes().to_vec())
        .with_label("Person")
        .with_label("Employee")
        .with_property("name", Value::from("Alice"))
        .with_property("age", Value::from(30_i64));

    assert!(node.has_label("Person"));
    assert!(node.has_label("Employee"));
    assert!(!node.has_label("Company"));
    assert_eq!(
        node.property("name"),
        Some(&Value::String("Alice".to_owned()))
    );
    assert_eq!(node.property("age"), Some(&Value::Integer(30)));
    assert_eq!(node.property("missing"), None);
}

#[test]
fn node_round_trip() {
    let node = Node::new(vec![0x01, 0x02])
        .with_label("Person")
        .with_property("name", Value::from("Bob"));

    let wire: WireNode = node.to_wire();
    let back: Node = Node::from_wire(&wire);
    assert_eq!(node, back);
}

#[test]
fn directed_edge() {
    let edge = Edge::directed(vec![0x10], vec![0x01], vec![0x02])
        .with_label("knows")
        .with_property("since", Value::from(2020_i64));

    assert!(!edge.undirected);
    assert_eq!(edge.labels, vec!["knows"]);
    assert_eq!(edge.property("since"), Some(&Value::Integer(2020)));
}

#[test]
fn undirected_edge() {
    let edge = Edge::undirected(vec![0x10], vec![0x01], vec![0x02]).with_label("friends_with");

    assert!(edge.undirected);
}

#[test]
fn edge_round_trip() {
    let edge = Edge::directed(vec![0x10], vec![0x01], vec![0x02])
        .with_label("knows")
        .with_property("weight", Value::Float(f64::to_bits(0.5)));

    let wire: WireEdge = edge.to_wire();
    let back: Edge = Edge::from_wire(&wire);
    assert_eq!(edge, back);
}

#[test]
fn single_node_path() {
    let path = Path::from_node(Node::new(vec![0x01]).with_label("Person"));
    assert_eq!(path.len(), 0);
    assert!(path.is_empty());
    assert!(path.start().is_some());
    assert_eq!(path.start(), path.end());
}

#[test]
fn multi_step_path() {
    let a = Node::new(vec![0x01]).with_label("Person");
    let b = Node::new(vec![0x02]).with_label("Person");
    let c = Node::new(vec![0x03]).with_label("Company");
    let e1 = Edge::directed(vec![0x10], vec![0x01], vec![0x02]).with_label("knows");
    let e2 = Edge::directed(vec![0x11], vec![0x02], vec![0x03]).with_label("worksAt");

    let path = Path::from_node(a).with_step(e1, b).with_step(e2, c);

    assert_eq!(path.len(), 2);
    assert!(!path.is_empty());
    assert_eq!(path.nodes.len(), 3);
    assert!(path.start().unwrap().has_label("Person"));
    assert!(path.end().unwrap().has_label("Company"));
}

#[test]
fn path_round_trip() {
    let path = Path::from_node(Node::new(vec![0x01]).with_label("A")).with_step(
        Edge::directed(vec![0x10], vec![0x01], vec![0x02]).with_label("to"),
        Node::new(vec![0x02]).with_label("B"),
    );

    let wire: WirePath = path.to_wire();
    let back: Path = Path::from_wire(&wire);
    assert_eq!(path, back);
}

#[test]
fn record_builder_pattern() {
    let rec = Record::new()
        .with_field("name", Value::from("Alice"))
        .with_field("age", Value::from(30_i64));

    assert_eq!(rec.len(), 2);
    assert!(!rec.is_empty());
    assert_eq!(rec.get("name"), Some(&Value::String("Alice".to_owned())));
    assert_eq!(rec.get("age"), Some(&Value::Integer(30)));
    assert_eq!(rec.get("missing"), None);
}

#[test]
fn empty_record() {
    let rec = Record::new();
    assert!(rec.is_empty());
    assert_eq!(rec.len(), 0);
}

#[test]
fn record_round_trip() {
    let rec = Record::new()
        .with_field("x", Value::from(1_i64))
        .with_field("y", Value::from("hello"));

    let wire: WireRecord = rec.to_wire();
    let back: Record = Record::from_wire(&wire);
    assert_eq!(rec, back);
}

#[test]
fn node_display() {
    let node = Node::new(vec![0x01])
        .with_label("Person")
        .with_property("name", Value::from("Ann"));
    assert_eq!(node.to_wire().labels, vec!["Person"]);
    let mut out = String::new();
    gwp::display::write_node(&mut out, &node);
    assert_eq!(out, "(:Person {name: Ann})");
}

#[test]
fn nested_value_round_trip() {
    let node = Node::new(vec![0x09]).with_property(
        "tags",
        Value::List(vec![Value::from("a"), Value::from("b")]),
    );
    let rec = Record::new().with_field("node", Value::Node(node));
    let v = Value::Record(rec);
    let wire = v.to_wire();
    let back = Value::from_wire(&wire);
    assert_eq!(v, back);
}
