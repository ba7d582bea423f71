use vstd::prelude::*;
use crate::data_pull::serde_models;

verus! {

/// A row of the `league` table.
#[derive(Debug, Clone, PartialEq)]
pub struct League {
    pub id: i32,
    pub ext_id: i64,
    pub slug: String,
    pub name: String,
    pub region: String,
    pub image_url: String,
}

/// The row for a league of the API, not yet stored (id 0).
pub open spec fn league_row(value: serde_models::League) -> League {
    League {
        id: 0,
        ext_id: value.id.0,
        slug: value.slug,
        name: value.name,
        region: value.region,
        image_url: value.image,
    }
}

impl League {
    /// The row for a league of the API, not yet stored.
    pub fn from_serde(value: &serde_models::League) -> (r: League)
        ensures
            r == league_row(*value),
    {
        League {
            id: 0,
            ext_id: value.id.0,
            slug: value.slug.clone(),
            name: value.name.clone(),
            region: value.region.clone(),
            image_url: value.image.clone(),
        }
    }
}

} // verus!
