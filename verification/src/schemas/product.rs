//! Product request and response shapes.

use vstd::prelude::*;

use crate::models::product::Product;

verus! {

/// Request body for `POST /products`.
#[derive(Debug, Clone)]
pub struct ProductCreate {
    /// Snake_case label primary key, immutable after create.
    pub label: String,
    /// Human-readable name.
    pub name: String,
    /// Optional description.
    pub description: Option<String>,
}

/// Request body for `PATCH /products/{label}`; every field is optional.
#[derive(Debug, Clone, Default)]
pub struct ProductUpdate {
    /// New human-readable name.
    pub name: Option<String>,
    /// New description.
    pub description: Option<String>,
}

impl ProductUpdate {
    /// Whether the update carries no fields (a no-op PATCH).
    pub fn is_empty(&self) -> (res: bool)
        ensures
            res == (self.name is None && self.description is None),
    {
        self.name.is_none() && self.description.is_none()
    }
}

/// Response shape for a product.
#[derive(Debug, Clone)]
pub struct ProductRead {
    /// Snake_case label primary key.
    pub label: String,
    /// Human-readable name.
    pub name: String,
    /// Optional description.
    pub description: Option<String>,
    /// Creation time.
    pub created_at: i64,
    /// Last-update time.
    pub updated_at: i64,
}

impl From<Product> for ProductRead {
    fn from(p: Product) -> (res: Self)
        ensures
            res.label == p.label,
            res.name == p.name,
            res.description == p.description,
            res.created_at == p.created_at,
            res.updated_at == p.updated_at,
    {
        ProductRead {
            label: p.label,
            name: p.name,
            description: p.description,
            created_at: p.created_at,
            updated_at: p.updated_at,
        }
    }
}

impl vstd::std_specs::convert::FromSpecImpl<Product> for ProductRead {
    open spec fn obeys_from_spec() -> bool {
        true
    }

    open spec fn from_spec(p: Product) -> ProductRead {
        ProductRead {
            label: p.label,
            name: p.name,
            description: p.description,
            created_at: p.created_at,
            updated_at: p.updated_at,
        }
    }
}

} // verus!
