//! The node-type manifest: the palette categories and every canvas node type
//! with its configuration fields and output branches.

use vstd::prelude::*;

verus! {

/// Server-owned canvas display rules.
#[derive(Debug, Clone)]
pub struct DisplayConfig {
    /// Characters after which a value token is truncated on the canvas.
    pub value_max_chars: usize,
}

impl Default for DisplayConfig {
    fn default() -> (res: Self)
        ensures
            res.value_max_chars == 10,
    {
        DisplayConfig { value_max_chars: 10 }
    }
}

/// One palette category; `coming_soon` categories render as disabled chips.
#[derive(Debug, Clone)]
pub struct Category {
    /// Category id.
    pub id: String,
    /// Human label.
    pub label: String,
    /// Whether the category's chips are disabled.
    pub coming_soon: bool,
}

/// Feature-type gate for palette availability.
#[derive(Debug, Clone, Copy, PartialEq, Eq, Default, Structural)]
pub enum AppliesTo {
    /// Available for any feature type (the default).
    #[default]
    All,
    /// Available only for HTML features.
    Html,
    /// Available only for JSON features.
    Json,
}

/// The node taxonomy a manifest entry maps to.
#[derive(Debug, Clone, Copy, PartialEq, Eq, Default, Structural)]
pub enum NodeKind {
    /// A routing node with yes/no branches (the default).
    #[default]
    Decision,
    /// A body-action node that performs one action and continues.
    Expression,
}

/// Form controls of a configuration field.
#[derive(Debug, Clone, Copy, PartialEq, Eq, Structural)]
pub enum Control {
    /// Dropdown of the field's options.
    Select,
    /// Free-text input.
    Text,
    /// Numeric input.
    Number,
    /// Dynamic dropdown of the version's outcomes.
    OutcomeSelect,
    /// Dynamic searchable single-select of configured sites.
    SiteSelect,
    /// Dynamic searchable single-select of configured products.
    ProductSelect,
}

/// Conditional requirement: required unless a sibling field equals a value.
#[derive(Debug)]
pub struct RequiredUnless {
    /// Sibling field name whose value is inspected.
    pub field: String,
    /// The value that makes this field optional.
    pub value: serde_json::Value,
}

/// One `select` option.
#[derive(Debug)]
#[allow(non_camel_case_types)]
pub struct Option_ {
    /// The wire value stored on the processor.
    pub value: serde_json::Value,
    /// Human label.
    pub label: String,
    /// Optional compact operator glyph shown on the canvas.
    pub symbol: Option<String>,
}

/// One configuration control of a node type.
#[derive(Debug)]
pub struct Field {
    /// Wire key inside the processor object.
    pub name: String,
    /// Form label.
    pub label: String,
    /// Control kind.
    pub control: Control,
    /// Whether the field must have a non-empty value.
    pub required: bool,
    /// Conditional requirement.
    pub required_unless: Option<RequiredUnless>,
    /// Default value for a freshly dropped node.
    pub default: Option<serde_json::Value>,
    /// Placeholder for text and number inputs.
    pub placeholder: Option<String>,
    /// Options of a `select` control.
    pub options: Vec<Option_>,
    /// Message shown when a requirement fails.
    pub required_message: Option<String>,
}

/// One output branch (`yes` | `no`).
#[derive(Debug, Clone)]
pub struct BranchSpec {
    /// Branch id.
    pub id: String,
    /// Human label.
    pub label: String,
}

/// A node type's output branches.
#[derive(Debug, Clone)]
pub struct Output {
    /// Output branches.
    pub branches: Vec<BranchSpec>,
}

/// One node-type specification.
#[derive(Debug)]
pub struct NodeTypeSpec {
    /// Canonical snake_case identifier (== rule-graph processor `type`).
    pub kind: String,
    /// Node title and palette chip label.
    pub label: String,
    /// Category id.
    pub category: String,
    /// Feature-type gate.
    pub applies_to: AppliesTo,
    /// Node taxonomy.
    pub node_kind: NodeKind,
    /// Tooltip input info.
    pub summary: String,
    /// Ordered configuration fields.
    pub fields: Vec<Field>,
    /// Output branches.
    pub output: Output,
}

/// The full manifest: palette categories and node types, in palette order.
#[derive(Debug)]
pub struct NodeManifest {
    /// Palette categories.
    pub categories: Vec<Category>,
    /// Node-type specifications.
    pub node_types: Vec<NodeTypeSpec>,
    /// Canvas display rules.
    pub display: DisplayConfig,
}

/// The position of the last spec of kind `k` among `specs` (the spec that a
/// `kind → spec` map built in order keeps), or -1 when there is none.
pub open spec fn last_of_kind(specs: Seq<NodeTypeSpec>, k: Seq<char>) -> int
    decreases specs.len(),
{
    if specs.len() == 0 {
        -1
    } else if specs.last().kind@ == k {
        specs.len() - 1
    } else {
        last_of_kind(specs.drop_last(), k)
    }
}

/// A `kind → spec` index: distinct kinds, each mapped to the last spec of
/// that kind, and every kind of `specs` present.
pub open spec fn is_kind_index(index: Seq<(&str, &NodeTypeSpec)>, specs: Seq<NodeTypeSpec>) -> bool {
    &&& forall|i: int, j: int|
        0 <= i < index.len() && 0 <= j < index.len() && i != j ==> (#[trigger] index[i]).0@ != (
        #[trigger] index[j]).0@
    &&& forall|i: int|
        0 <= i < index.len() ==> 0 <= last_of_kind(specs, (#[trigger] index[i]).0@) && *index[i].1
            == specs[last_of_kind(specs, index[i].0@)]
    &&& forall|t: int|
        0 <= t < specs.len() ==> exists|i: int|
            0 <= i < index.len() && (#[trigger] index[i]).0@ == (#[trigger] specs[t]).kind@
}

/// The last spec of a kind lies in the prefix it was searched in.
proof fn lemma_last_of_kind_bound(specs: Seq<NodeTypeSpec>, k: Seq<char>)
    ensures
        -1 <= last_of_kind(specs, k) < specs.len(),
        last_of_kind(specs, k) >= 0 ==> specs[last_of_kind(specs, k)].kind@ == k,
    decreases specs.len(),
{
    if specs.len() > 0 && specs.last().kind@ != k {
        lemma_last_of_kind_bound(specs.drop_last(), k);
    }
}

/// String equality of two slices.
fn str_eq(a: &str, b: &str) -> (res: bool)
    ensures
        res == (a@ == b@),
{
    a.to_owned() == b.to_owned()
}

impl NodeManifest {
    /// Builds a `kind → spec` index for lookup during validation, as
    /// `(kind, spec)` entries with distinct kinds; when two specs share a
    /// kind, the later one is kept.
    pub fn index(&self) -> (res: Vec<(&str, &NodeTypeSpec)>)
        ensures
            is_kind_index(res@, self.node_types@),
    {
        let mut out: Vec<(&str, &NodeTypeSpec)> = Vec::new();
        let n = self.node_types.len();
        let ghost specs = self.node_types@;
        let mut t: usize = 0;
        while t < n
            invariant
                n == specs.len(),
                specs == self.node_types@,
                0 <= t <= n,
                is_kind_index(out@, specs.take(t as int)),
            decreases n - t,
        {
            let spec = &self.node_types[t];
            let k = spec.kind.as_str();
            let ghost prev = out@;
            let ghost pre = specs.take(t as int);
            let ghost post = specs.take(t + 1);
            proof {
                assert(post.drop_last() =~= pre);
                assert(post.last() == specs[t as int]);
                assert forall|q: Seq<char>| #[trigger] last_of_kind(post, q) == if specs[t as int].kind@
                    == q {
                    t as int
                } else {
                    last_of_kind(pre, q)
                } by {}
                assert forall|s: int| 0 <= s < t implies #[trigger] post[s] == pre[s] && pre[s]
                    == specs[s] by {}
            }
            let mut j: usize = 0;
            while j < out.len() && !str_eq(out[j].0, k)
                invariant
                    out@ == prev,
                    0 <= j <= out@.len(),
                    (t as int) < specs.len(),
                    k@ == specs[t as int].kind@,
                    forall|i: int| 0 <= i < j ==> (#[trigger] out@[i]).0@ != k@,
                decreases out@.len() - j,
            {
                j = j + 1;
            }
            let found = j < out.len();
            proof {
                lemma_last_of_kind_bound(pre, k@);
            }
            if found {
                out.set(j, (k, spec));
                proof {
                    assert forall|i: int| 0 <= i < out@.len() && i != j implies #[trigger] out@[i]
                        == prev[i] by {}
                    assert forall|i: int|
                        0 <= i < out@.len() implies 0 <= last_of_kind(post, (#[trigger] out@[i]).0@)
                        && *out@[i].1 == post[last_of_kind(post, out@[i].0@)] by {
                        if i != j {
                            lemma_last_of_kind_bound(pre, out@[i].0@);
                            assert(out@[i] == prev[i]);
                            assert(prev[i].0@ != prev[j as int].0@);
                            let l = last_of_kind(pre, prev[i].0@);
                            assert(last_of_kind(post, prev[i].0@) == l);
                            assert(post[l] == pre[l]);
                        } else {
                            assert(last_of_kind(post, k@) == t);
                        }
                    }
                    assert forall|s: int| 0 <= s < post.len() implies exists|i: int|
                        0 <= i < out@.len() && (#[trigger] out@[i]).0@ == (#[trigger] post[s]).kind@ by {
                        if s < t {
                            let i = choose|i: int|
                                0 <= i < prev.len() && (#[trigger] prev[i]).0@ == (
                                #[trigger] pre[s]).kind@;
                            assert(out@[i].0@ == prev[i].0@);
                        } else {
                            assert(out@[j as int].0@ == post[s].kind@);
                        }
                    }
                }
            } else {
                out.push((k, spec));
                proof {
                    assert forall|i: int| 0 <= i < prev.len() implies #[trigger] out@[i] == prev[i] by {}
                    assert forall|i: int|
                        0 <= i < out@.len() implies 0 <= last_of_kind(post, (#[trigger] out@[i]).0@)
                        && *out@[i].1 == post[last_of_kind(post, out@[i].0@)] by {
                        if i < prev.len() {
                            lemma_last_of_kind_bound(pre, out@[i].0@);
                            assert(out@[i] == prev[i]);
                            assert(prev[i].0@ != k@);
                            let l = last_of_kind(pre, prev[i].0@);
                            assert(last_of_kind(post, prev[i].0@) == l);
                            assert(post[l] == pre[l]);
                        } else {
                            assert(out@[i].0@ == k@);
                            assert(last_of_kind(post, k@) == t);
                        }
                    }
                    assert forall|s: int| 0 <= s < post.len() implies exists|i: int|
                        0 <= i < out@.len() && (#[trigger] out@[i]).0@ == (#[trigger] post[s]).kind@ by {
                        if s < t {
                            let i = choose|i: int|
                                0 <= i < prev.len() && (#[trigger] prev[i]).0@ == (
                                #[trigger] pre[s]).kind@;
                            assert(out@[i].0@ == prev[i].0@);
                        } else {
                            assert(out@[prev.len() as int].0@ == post[s].kind@);
                        }
                    }
                }
            }
            t = t + 1;
        }
        proof {
            assert(specs.take(n as int) =~= specs);
        }
        out
    }
}

} // verus!
