use rre_backend::schemas::node_type::{
    AppliesTo, BranchSpec, Category, Control, Field, NodeKind, NodeManifest, NodeTypeSpec, Output,
    DisplayConfig,
};
use rre_backend::schemas::rule_graph::{
    CanvasGraph, DeviceOperator, DeviceValue, Node, Position, ProcessorConfig, RuleGraph,
};

fn field(name: &str, label: &str, control: Control, required: bool) -> Field {
    Field {
        name: name.to_string(),
        label: label.to_string(),
        control,
        required,
        required_unless: None,
        default: None,
        placeholder: None,
        options: Vec::new(),
        required_message: None,
    }
}

fn spec(kind: &str, label: &str, fields: Vec<Field>) -> NodeTypeSpec {
    NodeTypeSpec {
        kind: kind.to_string(),
        label: label.to_string(),
        category: "content".to_string(),
        applies_to: AppliesTo::default(),
        node_kind: NodeKind::default(),
        summary: "s".to_string(),
        fields,
        output: Output {
            branches: vec![
                BranchSpec { id: "yes".to_string(), label: "Yes".to_string() },
                BranchSpec { id: "no".to_string(), label: "No".to_string() },
            ],
        },
    }
}

/// `index` keys every spec by its snake_case kind for lookup.
#[test]
fn index_maps_kind_to_spec() {
    let manifest = NodeManifest {
        categories: vec![Category {
            id: "content".to_string(),
            label: "Content".to_string(),
            coming_soon: false,
        }],
        node_types: vec![spec(
            "article_url",
            "Article URL",
            vec![field("value", "Value", Control::Text, true)],
        )],
        display: DisplayConfig::default(),
    };

    let idx = manifest.index();
    let found = idx.iter().find(|(k, _)| *k == "article_url").map(|(_, s)| *s);
    assert!(found.is_some());
    assert_eq!(found.unwrap().fields[0].control, Control::Text);
}

#[test]
fn index_keeps_the_later_spec_of_a_repeated_kind() {
    let manifest = NodeManifest {
        categories: Vec::new(),
        node_types: vec![
            spec("meta_tags", "First", Vec::new()),
            spec("device_type", "Device", Vec::new()),
            spec("meta_tags", "Second", Vec::new()),
        ],
        display: DisplayConfig::default(),
    };
    let idx = manifest.index();
    assert_eq!(idx.len(), 2);
    let meta = idx.iter().find(|(k, _)| *k == "meta_tags").unwrap().1;
    assert_eq!(meta.label, "Second");
    assert_eq!(manifest.display.value_max_chars, 10);
    assert_eq!(manifest.node_types[0].applies_to, AppliesTo::All);
    assert_eq!(manifest.node_types[0].node_kind, NodeKind::Decision);
}

#[test]
fn canvases_are_named_in_order() {
    let mut g = RuleGraph::default();
    g.registered.root_node_id = Some("r".to_string());
    let names: Vec<&str> = g.canvases().iter().map(|(n, _)| *n).collect();
    assert_eq!(names, ["anonymous", "registered", "customer"]);
    assert_eq!(g.canvases()[1].1.root_node_id.as_deref(), Some("r"));
    let empty = CanvasGraph::default();
    assert!(empty.nodes.is_empty() && empty.edges.is_empty());
}

#[test]
fn node_ids_and_kinds() {
    let pos = Position { x_bits: 40f64.to_bits(), y_bits: 200f64.to_bits() };
    let decision = Node::Decision {
        id: "n_dev".to_string(),
        processor: ProcessorConfig::DeviceType {
            operator: DeviceOperator::Equals,
            value: DeviceValue::Mobile,
        },
        position: pos,
    };
    let outcome = Node::Outcome { id: "o1".to_string(), outcome_id: 7, position: pos };
    assert_eq!(decision.id(), "n_dev");
    assert!(!decision.is_outcome());
    assert_eq!(outcome.id(), "o1");
    assert!(outcome.is_outcome());
}
