use vstd::prelude::*;
use crate::data_pull::serde_models;

verus! {

/// A row of the `team` table.
#[derive(Debug, Clone, PartialEq)]
pub struct Team {
    pub id: i32,
    pub ext_id: i64,
    pub name: String,
    pub slug: String,
    pub code: String,
    pub image_url: String,
    pub alt_image_url: Option<String>,
    pub bg_image_url: Option<String>,
    pub home_league: Option<i64>,
}

/// The row for a team of the API, not yet stored (id 0), without a home
/// league.
pub open spec fn team_row(value: serde_models::Team) -> Team {
    Team {
        id: 0,
        ext_id: value.id.0,
        name: value.name,
        slug: value.slug,
        code: value.code,
        image_url: value.image,
        alt_image_url: value.alternative_image,
        bg_image_url: value.background_image,
        home_league: None,
    }
}

fn copy_option(s: &Option<String>) -> (r: Option<String>)
    ensures
        r == *s,
{
    match s {
        Some(v) => Some(v.clone()),
        None => None,
    }
}

impl Team {
    /// The row for a team of the API, not yet stored, without a home league.
    pub fn from_serde(value: &serde_models::Team) -> (r: Team)
        ensures
            r == team_row(*value),
    {
        Team {
            id: 0,
            ext_id: value.id.0,
            name: value.name.clone(),
            slug: value.slug.clone(),
            code: value.code.clone(),
            image_url: value.image.clone(),
            alt_image_url: copy_option(&value.alternative_image),
            bg_image_url: copy_option(&value.background_image),
            home_league: None,
        }
    }
}

} // verus!
