use vstd::prelude::*;
use crate::data_pull::serde_models;

verus! {

/// A row of the `stream` table: a stream of a stored event.
#[derive(Debug, Clone, PartialEq)]
pub struct Stream {
    pub id: i32,
    pub event_id: i32,
    pub provider: String,
    pub parameter: String,
    pub locale: String,
    pub english_name: String,
}

/// The row for a stream of the API, not yet stored (id 0) nor attached to an
/// event (event id 0).
pub open spec fn stream_row(value: serde_models::Stream) -> Stream {
    Stream {
        id: 0,
        event_id: 0,
        provider: value.provider,
        parameter: value.parameter,
        locale: value.media_locale.locale,
        english_name: value.media_locale.english_name,
    }
}

impl Stream {
    /// The row for a stream of the API, not yet stored nor attached.
    pub fn from_serde(value: &serde_models::Stream) -> (r: Stream)
        ensures
            r == stream_row(*value),
    {
        Stream {
            id: 0,
            event_id: 0,
            provider: value.provider.clone(),
            parameter: value.parameter.clone(),
            locale: value.media_locale.locale.clone(),
            english_name: value.media_locale.english_name.clone(),
        }
    }
}

} // verus!
