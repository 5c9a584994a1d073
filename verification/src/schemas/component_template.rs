//! Component-template request and response shapes, and the resolution of a
//! template's default version.
//!
//! A template's default is either the version with the highest number
//! (`latest`) or the pinned version (`pinned`, while that version still
//! exists). Reads mark the default version and report the highest number.

use vstd::prelude::*;

use crate::models::component_template::{ComponentTemplate, ComponentTemplateVersion};
use crate::models::enums::DefaultMode;

verus! {

/// One declared template variable. `name` is the mustache key; `title` and
/// `description` are author metadata for the rule-side population UI.
#[derive(Debug, Clone)]
pub struct ComponentVariable {
    /// Mustache key (`{{name}}`).
    pub name: String,
    /// Author-facing title.
    pub title: String,
    /// Optional author-facing help text.
    pub description: Option<String>,
}

/// Request body for `POST /component-templates`: creates the template and its
/// version 1, seeded from `html_body` and `variables`.
#[derive(Debug, Clone)]
pub struct ComponentTemplateCreate {
    /// Slug (kebab-case, lowercase, 3..=120 chars).
    pub slug: String,
    /// Human-readable name.
    pub name: String,
    /// Optional description.
    pub description: Option<String>,
    /// Seed mustache body for version 1.
    pub html_body: Option<String>,
    /// Seed declared variables for version 1.
    pub variables: Option<Vec<ComponentVariable>>,
}

/// Request body for `PATCH /component-templates/{cid}`: metadata plus the
/// movable default pointer.
#[derive(Debug, Clone, Default)]
pub struct ComponentTemplateUpdate {
    /// New name.
    pub name: Option<String>,
    /// New description.
    pub description: Option<String>,
    /// New default mode.
    pub default_mode: Option<DefaultMode>,
    /// The version to pin as default (required when pinning).
    pub default_version_number: Option<i32>,
}

impl ComponentTemplateUpdate {
    /// Whether the update carries no fields (a no-op PATCH).
    pub fn is_empty(&self) -> (res: bool)
        ensures
            res == (self.name is None && self.description is None && self.default_mode is None
                && self.default_version_number is None),
    {
        self.name.is_none() && self.description.is_none() && self.default_mode.is_none()
            && self.default_version_number.is_none()
    }
}

/// Request body for `POST /component-templates/{cid}/versions`. Omitted body
/// and variables are cloned from the current default; `make_default`
/// re-points the default at the new version.
#[derive(Debug, Clone, Default)]
pub struct VersionCreate {
    /// Optional per-version description.
    pub description: Option<String>,
    /// Mustache body.
    pub html_body: Option<String>,
    /// Declared variables.
    pub variables: Option<Vec<ComponentVariable>>,
    /// Whether to re-point the default at the new version.
    pub make_default: bool,
}

/// Request body for `PATCH /component-templates/{cid}/versions/{vnum}`.
#[derive(Debug, Clone, Default)]
pub struct VersionUpdate {
    /// New per-version description.
    pub description: Option<String>,
    /// New mustache body.
    pub html_body: Option<String>,
    /// New declared variables.
    pub variables: Option<Vec<ComponentVariable>>,
}

impl VersionUpdate {
    /// Whether the update carries no fields (a no-op PATCH).
    pub fn is_empty(&self) -> (res: bool)
        ensures
            res == (self.description is None && self.html_body is None && self.variables is None),
    {
        self.description.is_none() && self.html_body.is_none() && self.variables.is_none()
    }
}

/// A version summary embedded in [`ComponentTemplateRead::versions`].
#[derive(Debug, Clone)]
pub struct ComponentTemplateVersionSummary {
    /// Version id.
    pub id: u128,
    /// Per-template version number.
    pub version_number: i32,
    /// Optional per-version description.
    pub description: Option<String>,
    /// Whether this version is the template's current default.
    pub is_default: bool,
    /// Creation time.
    pub created_at: i64,
    /// Last-update time.
    pub updated_at: i64,
}

/// Full template read: metadata, default pointer and all version summaries.
#[derive(Debug, Clone)]
pub struct ComponentTemplateRead {
    /// Template id.
    pub id: u128,
    /// Slug.
    pub slug: String,
    /// Name.
    pub name: String,
    /// Optional description.
    pub description: Option<String>,
    /// How the default resolves.
    pub default_mode: DefaultMode,
    /// The current default's version number.
    pub default_version_number: Option<i32>,
    /// The highest version number present (0 when there is none).
    pub latest_version_number: i32,
    /// All version summaries, in the order of the given rows.
    pub versions: Vec<ComponentTemplateVersionSummary>,
    /// Creation time.
    pub created_at: i64,
    /// Last-update time.
    pub updated_at: i64,
}

/// List-row summary for `GET /component-templates`.
#[derive(Debug, Clone)]
pub struct ComponentTemplateSummary {
    /// Template id.
    pub id: u128,
    /// Slug.
    pub slug: String,
    /// Name.
    pub name: String,
    /// Optional description.
    pub description: Option<String>,
    /// The current default's version number.
    pub default_version_number: Option<i32>,
    /// The highest version number present.
    pub latest_version_number: i32,
    /// Last-update time.
    pub updated_at: i64,
}

/// Full version read: body, variables and default flag.
#[derive(Debug)]
pub struct ComponentTemplateVersionRead {
    /// Version id.
    pub id: u128,
    /// Per-template version number.
    pub version_number: i32,
    /// Optional per-version description.
    pub description: Option<String>,
    /// Mustache template body.
    pub html_body: String,
    /// Declared variables.
    pub variables: serde_json::Value,
    /// Whether this version is the template's current default.
    pub is_default: bool,
    /// Creation time.
    pub created_at: i64,
    /// Last-update time.
    pub updated_at: i64,
}

/// Proxy-facing resolve payload.
#[derive(Debug)]
pub struct ResolvedComponentRead {
    /// The resolved version number.
    pub version_number: i32,
    /// The resolved mustache body.
    pub html_body: String,
    /// The resolved declared variables.
    pub variables: serde_json::Value,
}

/// The index of the last version carrying the highest number (the element
/// that `Iterator::max_by_key` yields); 0 when there are fewer than two.
pub open spec fn last_max_index(vs: Seq<ComponentTemplateVersion>) -> int
    decreases vs.len(),
{
    if vs.len() <= 1 {
        0
    } else {
        let k = last_max_index(vs.drop_last());
        if vs.last().version_number >= vs[k].version_number {
            vs.len() - 1
        } else {
            k
        }
    }
}

/// Some version in `vs` has id `id`.
pub open spec fn has_version_id(vs: Seq<ComponentTemplateVersion>, id: u128) -> bool {
    exists|j: int| 0 <= j < vs.len() && vs[j].id == id
}

/// The id of the template's current default version among `vs`: the last
/// version with the highest number for `latest`; the pinned id for `pinned`,
/// when a version with that id is present.
pub open spec fn default_version_id(c: ComponentTemplate, vs: Seq<ComponentTemplateVersion>) -> Option<
    u128,
> {
    match c.default_mode {
        DefaultMode::Latest => if vs.len() == 0 {
            None
        } else {
            Some(vs[last_max_index(vs)].id)
        },
        DefaultMode::Pinned => match c.default_version_id {
            Some(id) => if has_version_id(vs, id) {
                Some(id)
            } else {
                None
            },
            None => None,
        },
    }
}

/// The highest version number in `vs`, or 0 when `vs` is empty.
pub open spec fn latest_number(vs: Seq<ComponentTemplateVersion>) -> i32 {
    if vs.len() == 0 {
        0
    } else {
        vs[last_max_index(vs)].version_number
    }
}

/// The number of the first version in `vs` with id `id`.
pub open spec fn number_of_id(vs: Seq<ComponentTemplateVersion>, id: u128) -> Option<i32>
    decreases vs.len(),
{
    if vs.len() == 0 {
        None
    } else if vs[0].id == id {
        Some(vs[0].version_number)
    } else {
        number_of_id(vs.drop_first(), id)
    }
}

/// Whether `id` is the given default id.
pub open spec fn is_default_id(id: u128, default_id: Option<u128>) -> bool {
    default_id == Some(id)
}

/// A summary carries the version's id, number, description and times, and
/// the given default flag.
pub open spec fn summarizes(
    s: ComponentTemplateVersionSummary,
    v: ComponentTemplateVersion,
    is_default: bool,
) -> bool {
    &&& s.id == v.id
    &&& s.version_number == v.version_number
    &&& s.description == v.description
    &&& s.is_default == is_default
    &&& s.created_at == v.created_at
    &&& s.updated_at == v.updated_at
}

/// `last_max_index` picks a version of the highest number, and every later
/// version has a lower number.
pub proof fn lemma_last_max_index(vs: Seq<ComponentTemplateVersion>)
    requires
        vs.len() > 0,
    ensures
        0 <= last_max_index(vs) < vs.len(),
        forall|j: int|
            0 <= j < vs.len() ==> #[trigger] vs[j].version_number <= vs[last_max_index(
                vs,
            )].version_number,
        forall|j: int|
            last_max_index(vs) < j < vs.len() ==> #[trigger] vs[j].version_number < vs[last_max_index(
                vs,
            )].version_number,
    decreases vs.len(),
{
    if vs.len() > 1 {
        let p = vs.drop_last();
        lemma_last_max_index(p);
        let m = last_max_index(vs);
        assert forall|j: int| 0 <= j < vs.len() implies #[trigger] vs[j].version_number
            <= vs[m].version_number by {
            if j < vs.len() - 1 {
                assert(p[j] == vs[j]);
            }
        }
        assert forall|j: int| m < j < vs.len() implies #[trigger] vs[j].version_number
            < vs[m].version_number by {
            if j < vs.len() - 1 {
                assert(p[j] == vs[j]);
            }
        }
    }
}

/// No two version rows share an id.
pub open spec fn distinct_version_ids(vs: Seq<ComponentTemplateVersion>) -> bool {
    forall|i: int, j: int|
        0 <= i < vs.len() && 0 <= j < vs.len() && #[trigger] vs[i].id == #[trigger] vs[j].id ==> i
            == j
}

/// With distinct ids, looking a row's id up gives that row's number.
pub proof fn lemma_number_of_own_id(vs: Seq<ComponentTemplateVersion>, k: int)
    requires
        distinct_version_ids(vs),
        0 <= k < vs.len(),
    ensures
        number_of_id(vs, vs[k].id) == Some(vs[k].version_number),
    decreases vs.len(),
{
    if k > 0 {
        let r = vs.drop_first();
        assert(vs[0].id != vs[k].id);
        assert(r[k - 1] == vs[k]);
        assert forall|i: int, j: int|
            0 <= i < r.len() && 0 <= j < r.len() && #[trigger] r[i].id == #[trigger] r[j].id implies i
                == j by {
            assert(r[i] == vs[i + 1] && r[j] == vs[j + 1]);
        }
        lemma_number_of_own_id(r, k - 1);
    }
}

/// Under `latest`, the default of a non-empty set of versions is the last
/// version carrying the highest number.
pub proof fn law_latest_default_is_highest(c: ComponentTemplate, vs: Seq<ComponentTemplateVersion>)
    requires
        c.default_mode is Latest,
        vs.len() > 0,
    ensures
        ({
            let k = last_max_index(vs);
            &&& 0 <= k < vs.len()
            &&& default_version_id(c, vs) == Some(vs[k].id)
            &&& forall|j: int| 0 <= j < vs.len() ==> #[trigger] vs[j].version_number <= vs[k].version_number
            &&& forall|j: int| k < j < vs.len() ==> #[trigger] vs[j].version_number < vs[k].version_number
            &&& latest_number(vs) == vs[k].version_number
        }),
{
    lemma_last_max_index(vs);
}

/// The resolved default, when there is one, is always the id of one of the
/// given versions; under `pinned` it is the pinned id.
pub proof fn law_default_is_present(c: ComponentTemplate, vs: Seq<ComponentTemplateVersion>)
    ensures
        default_version_id(c, vs) matches Some(id) ==> has_version_id(vs, id),
        c.default_mode is Pinned ==> (default_version_id(c, vs) matches Some(id)
            ==> c.default_version_id == Some(id)),
{
    if c.default_mode is Latest && vs.len() > 0 {
        lemma_last_max_index(vs);
        assert(vs[last_max_index(vs)].id == vs[last_max_index(vs)].id);
    }
}

/// For rows with distinct ids, a template read marks exactly one version as
/// the default when a default resolves (none otherwise), and reports that
/// version's number; under `latest` that number is the highest one.
pub proof fn law_read_marks_one_default(c: ComponentTemplate, vs: Seq<ComponentTemplateVersion>)
    requires
        distinct_version_ids(vs),
    ensures
        ({
            let d = default_version_id(c, vs);
            &&& d is None ==> forall|i: int| 0 <= i < vs.len() ==> !is_default_id(#[trigger] vs[i].id, d)
            &&& d matches Some(id) ==> exists|k: int|
                0 <= k < vs.len() && vs[k].id == id && number_of_id(vs, id) == Some(vs[k].version_number)
                && forall|i: int| 0 <= i < vs.len() && is_default_id(#[trigger] vs[i].id, d) ==> i == k
            &&& (c.default_mode is Latest && vs.len() > 0) ==> (d matches Some(id) && number_of_id(vs, id)
                == Some(latest_number(vs)))
        }),
{
    let d = default_version_id(c, vs);
    law_default_is_present(c, vs);
    if let Some(id) = d {
        let k = choose|k: int| 0 <= k < vs.len() && vs[k].id == id;
        lemma_number_of_own_id(vs, k);
        assert forall|i: int| 0 <= i < vs.len() && is_default_id(#[trigger] vs[i].id, d) implies i
            == k by {
            assert(vs[i].id == vs[k].id);
        }
        if c.default_mode is Latest && vs.len() > 0 {
            lemma_last_max_index(vs);
            lemma_number_of_own_id(vs, last_max_index(vs));
        }
    }
}

/// Copy of an optional string.
fn clone_opt_string(o: &Option<String>) -> (res: Option<String>)
    ensures
        res == *o,
{
    match o {
        Some(s) => Some(s.clone()),
        None => None,
    }
}

/// Resolves which version id is the template's current default among the
/// given version rows: `latest` → the (last) version with the highest
/// number; `pinned` → the pinned id while a version with it is present.
pub fn resolve_default_id(
    component: &ComponentTemplate,
    versions: &[ComponentTemplateVersion],
) -> (res: Option<u128>)
    ensures
        res == default_version_id(*component, versions@),
{
    match component.default_mode {
        DefaultMode::Latest => {
            if versions.len() == 0 {
                return None;
            }
            let mut best: usize = 0;
            let mut i: usize = 1;
            while i < versions.len()
                invariant
                    1 <= i <= versions@.len(),
                    best as int == last_max_index(versions@.take(i as int)),
                decreases versions@.len() - i,
            {
                proof {
                    let t = versions@.take(i as int);
                    lemma_last_max_index(t);
                    assert(versions@.take(i + 1).drop_last() =~= t);
                }
                if versions[i].version_number >= versions[best].version_number {
                    best = i;
                }
                i = i + 1;
            }
            proof {
                lemma_last_max_index(versions@.take(i as int));
                assert(versions@.take(i as int) =~= versions@);
            }
            Some(versions[best].id)
        },
        DefaultMode::Pinned => match component.default_version_id {
            Some(id) => {
                let mut i: usize = 0;
                while i < versions.len()
                    invariant
                        0 <= i <= versions@.len(),
                        component.default_mode is Pinned,
                        component.default_version_id == Some(id),
                        forall|j: int| 0 <= j < i ==> versions@[j].id != id,
                    decreases versions@.len() - i,
                {
                    if versions[i].id == id {
                        assert(versions@[i as int].id == id);
                        assert(has_version_id(versions@, id));
                        return Some(id);
                    }
                    i = i + 1;
                }
                None
            },
            None => None,
        },
    }
}

impl ComponentTemplateVersionSummary {
    /// Maps a version row and its default flag to the summary.
    pub fn from_row(v: &ComponentTemplateVersion, is_default: bool) -> (res: Self)
        ensures
            summarizes(res, *v, is_default),
            res.id == v.id,
            res.version_number == v.version_number,
            res.description == v.description,
            res.is_default == is_default,
            res.created_at == v.created_at,
            res.updated_at == v.updated_at,
    {
        ComponentTemplateVersionSummary {
            id: v.id,
            version_number: v.version_number,
            description: clone_opt_string(&v.description),
            is_default,
            created_at: v.created_at,
            updated_at: v.updated_at,
        }
    }
}

impl ComponentTemplateVersionRead {
    /// Maps a version row and its default flag to the read shape.
    pub fn from_row(v: ComponentTemplateVersion, is_default: bool) -> (res: Self)
        ensures
            res.id == v.id,
            res.version_number == v.version_number,
            res.description == v.description,
            res.html_body == v.html_body,
            res.variables == v.variables,
            res.is_default == is_default,
            res.created_at == v.created_at,
            res.updated_at == v.updated_at,
    {
        ComponentTemplateVersionRead {
            id: v.id,
            version_number: v.version_number,
            description: v.description,
            html_body: v.html_body,
            variables: v.variables,
            is_default,
            created_at: v.created_at,
            updated_at: v.updated_at,
        }
    }
}

impl ResolvedComponentRead {
    /// Maps a version row to the proxy-facing resolve payload.
    pub fn from_row(v: ComponentTemplateVersion) -> (res: Self)
        ensures
            res.version_number == v.version_number,
            res.html_body == v.html_body,
            res.variables == v.variables,
    {
        ResolvedComponentRead {
            version_number: v.version_number,
            html_body: v.html_body,
            variables: v.variables,
        }
    }
}

/// The highest version number among the rows, 0 when there is none.
fn latest_version_number_of(versions: &Vec<ComponentTemplateVersion>) -> (res: i32)
    ensures
        res == latest_number(versions@),
{
    if versions.len() == 0 {
        return 0;
    }
    let mut best: usize = 0;
    let mut i: usize = 1;
    while i < versions.len()
        invariant
            1 <= i <= versions@.len(),
            best as int == last_max_index(versions@.take(i as int)),
        decreases versions@.len() - i,
    {
        proof {
            let t = versions@.take(i as int);
            lemma_last_max_index(t);
            assert(versions@.take(i + 1).drop_last() =~= t);
        }
        if versions[i].version_number >= versions[best].version_number {
            best = i;
        }
        i = i + 1;
    }
    proof {
        lemma_last_max_index(versions@.take(i as int));
        assert(versions@.take(i as int) =~= versions@);
    }
    versions[best].version_number
}

/// The number of the first row whose id is `id`.
fn number_of(versions: &Vec<ComponentTemplateVersion>, id: u128) -> (res: Option<i32>)
    ensures
        res == number_of_id(versions@, id),
{
    let mut i: usize = 0;
    assert(versions@.subrange(0, versions@.len() as int) =~= versions@);
    while i < versions.len()
        invariant
            0 <= i <= versions@.len(),
            number_of_id(versions@, id) == number_of_id(
                versions@.subrange(i as int, versions@.len() as int),
                id,
            ),
        decreases versions@.len() - i,
    {
        let ghost rest = versions@.subrange(i as int, versions@.len() as int);
        assert(rest.drop_first() =~= versions@.subrange(i + 1, versions@.len() as int));
        if versions[i].id == id {
            return Some(versions[i].version_number);
        }
        i = i + 1;
    }
    assert(versions@.subrange(i as int, versions@.len() as int) =~= Seq::<
        ComponentTemplateVersion,
    >::empty());
    None
}

/// Assembles a [`ComponentTemplateRead`] from a template row and its version
/// rows: the highest number, the resolved default (its number and the
/// per-summary flag) and one summary per row, in row order.
pub fn build_read(
    component: ComponentTemplate,
    versions: Vec<ComponentTemplateVersion>,
) -> (res: ComponentTemplateRead)
    ensures
        res.id == component.id,
        res.slug == component.slug,
        res.name == component.name,
        res.description == component.description,
        res.default_mode == component.default_mode,
        res.created_at == component.created_at,
        res.updated_at == component.updated_at,
        res.latest_version_number == latest_number(versions@),
        res.default_version_number == (match default_version_id(component, versions@) {
            Some(id) => number_of_id(versions@, id),
            None => None,
        }),
        res.versions@.len() == versions@.len(),
        forall|i: int|
            0 <= i < versions@.len() ==> summarizes(
                #[trigger] res.versions@[i],
                versions@[i],
                is_default_id(versions@[i].id, default_version_id(component, versions@)),
            ),
        forall|i: int|
            0 <= i < versions@.len() ==> {
                let s = #[trigger] res.versions@[i];
                let v = versions@[i];
                &&& s.id == v.id
                &&& s.version_number == v.version_number
                &&& s.description == v.description
                &&& s.created_at == v.created_at
                &&& s.updated_at == v.updated_at
                &&& s.is_default == (default_version_id(component, versions@) == Some(v.id))
            },
{
    let latest_version_number = latest_version_number_of(&versions);
    let default_id = resolve_default_id(&component, versions.as_slice());
    let default_version_number = match default_id {
        Some(id) => number_of(&versions, id),
        None => None,
    };
    let mut summaries: Vec<ComponentTemplateVersionSummary> = Vec::new();
    let mut i: usize = 0;
    while i < versions.len()
        invariant
            0 <= i <= versions@.len(),
            summaries@.len() == i,
            default_id == default_version_id(component, versions@),
            forall|j: int|
                0 <= j < i ==> summarizes(
                    #[trigger] summaries@[j],
                    versions@[j],
                    is_default_id(versions@[j].id, default_id),
                ),
            forall|j: int|
                0 <= j < i ==> {
                    let s = #[trigger] summaries@[j];
                    let v = versions@[j];
                    &&& s.id == v.id
                    &&& s.version_number == v.version_number
                    &&& s.description == v.description
                    &&& s.created_at == v.created_at
                    &&& s.updated_at == v.updated_at
                    &&& s.is_default == (default_id == Some(v.id))
                },
        decreases versions@.len() - i,
    {
        let v = &versions[i];
        let is_default = match default_id {
            Some(d) => d == v.id,
            None => false,
        };
        summaries.push(ComponentTemplateVersionSummary::from_row(v, is_default));
        i = i + 1;
    }
    ComponentTemplateRead {
        id: component.id,
        slug: component.slug,
        name: component.name,
        description: component.description,
        default_mode: component.default_mode,
        default_version_number,
        latest_version_number,
        versions: summaries,
        created_at: component.created_at,
        updated_at: component.updated_at,
    }
}

} // verus!
