//! Rule graphs: one decision canvas per user class.
//!
//! A version's rule graph holds three independent canvases (anonymous,
//! registered, customer readers). Each canvas is a directed graph of nodes
//! joined by yes/no edges: decision nodes carry a processor, outcome nodes
//! reference an outcome of the version.

use vstd::prelude::*;

verus! {

/// Canvas coordinates of a node, as the IEEE-754 bit patterns of the two
/// `f64` coordinates (the library never computes with them).
#[derive(Debug, Clone, Copy)]
pub struct Position {
    /// Bits of the horizontal coordinate.
    pub x_bits: u64,
    /// Bits of the vertical coordinate.
    pub y_bits: u64,
}

/// Comparison operator of the meta-tags processor.
#[derive(Debug, Clone, Copy, PartialEq, Eq, Structural)]
pub enum MetaTagsOperator {
    /// Substring match.
    Contains,
    /// Exact match.
    Equals,
    /// Presence check (value ignored).
    Exists,
}

/// Comparison operator of the device-type processor.
#[derive(Debug, Clone, Copy, PartialEq, Eq, Structural)]
pub enum DeviceOperator {
    /// Exact match.
    Equals,
    /// Substring match.
    Contains,
}

/// Comparison operator of the article-url processor.
#[derive(Debug, Clone, Copy, PartialEq, Eq, Structural)]
pub enum ArticleUrlOperator {
    /// Substring match.
    Contains,
    /// Regular-expression match.
    Matches,
    /// Prefix match.
    StartsWith,
    /// Exact match.
    Equals,
}

/// Device class operand.
#[derive(Debug, Clone, Copy, PartialEq, Eq, Structural)]
pub enum DeviceValue {
    /// Mobile phone.
    Mobile,
    /// Desktop or laptop.
    Desktop,
    /// Tablet.
    Tablet,
}

/// A decision processor, tagged by `type`.
#[derive(Debug, Clone)]
pub enum ProcessorConfig {
    /// Match against an HTML `<meta>` tag's `content` attribute.
    MetaTags {
        /// The `name` of the meta tag to read.
        tag_name: String,
        /// How to compare the tag content.
        operator: MetaTagsOperator,
        /// Comparison operand (unused for `exists`).
        value: Option<String>,
    },
    /// Match against the request's device class.
    DeviceType {
        /// How to compare the device.
        operator: DeviceOperator,
        /// Target device class.
        value: DeviceValue,
    },
    /// Match against the request's article URL (path).
    ArticleUrl {
        /// How to compare the URL.
        operator: ArticleUrlOperator,
        /// Comparison operand (a regex pattern for `matches`).
        value: String,
    },
}

/// The branch label of an edge.
#[derive(Debug, Clone, Copy, PartialEq, Eq, Structural)]
pub enum Branch {
    /// The "true" branch out of a decision node.
    Yes,
    /// The "false" branch out of a decision node.
    No,
}

/// A directed edge between two nodes, labelled with its branch.
#[derive(Debug, Clone)]
pub struct Edge {
    /// Edge id.
    pub id: String,
    /// Source node id.
    pub source_node_id: String,
    /// Target node id.
    pub target_node_id: String,
    /// The branch this edge represents.
    pub branch: Branch,
}

/// A canvas node, tagged by `kind`.
#[derive(Debug, Clone)]
pub enum Node {
    /// A decision node with outgoing yes/no branches.
    Decision {
        /// Node id.
        id: String,
        /// The processor evaluated at this node.
        processor: ProcessorConfig,
        /// Canvas coordinates.
        position: Position,
    },
    /// A terminal node referencing an outcome of the version.
    Outcome {
        /// Node id.
        id: String,
        /// The referenced outcome id.
        outcome_id: u128,
        /// Canvas coordinates.
        position: Position,
    },
}

/// The id of a node, whatever its kind.
pub open spec fn node_id(n: Node) -> String {
    match n {
        Node::Decision { id, .. } => id,
        Node::Outcome { id, .. } => id,
    }
}

impl Node {
    /// The node's id, regardless of variant.
    pub fn id(&self) -> (res: &str)
        ensures
            res@ == node_id(*self)@,
    {
        match self {
            Node::Decision { id, .. } => id.as_str(),
            Node::Outcome { id, .. } => id.as_str(),
        }
    }

    /// Whether this is an outcome (terminal) node.
    pub fn is_outcome(&self) -> (res: bool)
        ensures
            res == (*self is Outcome),
    {
        match self {
            Node::Outcome { .. } => true,
            Node::Decision { .. } => false,
        }
    }
}

/// One decision canvas: nodes, edges and an optional designated root.
#[derive(Debug, Clone, Default)]
pub struct CanvasGraph {
    /// Graph nodes.
    pub nodes: Vec<Node>,
    /// Directed, branch-labelled edges.
    pub edges: Vec<Edge>,
    /// Optional entry node id; must exist in `nodes` when set.
    pub root_node_id: Option<String>,
}

/// A version's rule graph: one canvas per user class.
#[derive(Debug, Clone, Default)]
pub struct RuleGraph {
    /// Canvas evaluated for anonymous users.
    pub anonymous: CanvasGraph,
    /// Canvas evaluated for registered (logged-in, non-paying) users.
    pub registered: CanvasGraph,
    /// Canvas evaluated for paying customers.
    pub customer: CanvasGraph,
}

impl RuleGraph {
    /// The three canvases with their stable names, in the order anonymous,
    /// registered, customer.
    pub fn canvases(&self) -> (res: [(&'static str, &CanvasGraph); 3])
        ensures
            res@[0].0@ == "anonymous"@,
            *res@[0].1 == self.anonymous,
            res@[1].0@ == "registered"@,
            *res@[1].1 == self.registered,
            res@[2].0@ == "customer"@,
            *res@[2].1 == self.customer,
    {
        [("anonymous", &self.anonymous), ("registered", &self.registered), ("customer", &self.customer)]
    }
}

} // verus!
