//! Remote catalog records, as plain values.
//!
//! The remote service answers with loosely structured payloads; outside the
//! library they are deserialized into these shapes, with a field optional
//! exactly where the remote treats it as optional. A summary whose shape does
//! not match carries `None` and is skipped by the fetch planner.

use vstd::prelude::*;

verus! {

/// A genre descriptor as the remote sends it with a record.
#[derive(Debug)]
pub struct FilmGenre {
    /// Natural key, stable across syncs.
    pub id: String,
    pub title: String,
}

impl FilmGenre {
    /// Returns the film genre's id.
    pub fn id(&self) -> (r: &str)
        ensures
            r@ == self.id@,
    {
        self.id.as_str()
    }

    /// Returns the film genre's title.
    pub fn title(&self) -> (r: &str)
        ensures
            r@ == self.title@,
    {
        self.title.as_str()
    }
}

/// A country descriptor as the remote sends it with a record.
#[derive(Debug)]
pub struct FilmCountry {
    pub title: String,
    /// Natural key, stable across syncs.
    pub code: String,
}

impl FilmCountry {
    pub fn title(&self) -> (r: &str)
        ensures
            r@ == self.title@,
    {
        self.title.as_str()
    }

    pub fn code(&self) -> (r: &str)
        ensures
            r@ == self.code@,
    {
        self.code.as_str()
    }
}

/// The year/product grouping attached to a record.
#[derive(Debug)]
pub struct FilmYear {
    /// Remote-assigned id of the grouping.
    pub id: u64,
    pub title: Option<String>,
    pub product_id: Option<u64>,
}

/// One thumbnail of a record: a resolution key and its URL.
#[derive(Debug)]
pub struct FilmThumbnail {
    pub resolution: String,
    pub url: String,
}

/// The detailed payload of one film record.
#[derive(Debug)]
pub struct GetFilmResponseData {
    pub title: Option<String>,
    pub original_title: Option<String>,
    pub director: Option<String>,
    pub production_year: Option<u64>,
    pub duration: Option<u64>,
    pub description: Option<String>,
    pub age_restriction: Option<String>,
    pub thumbnails: Vec<FilmThumbnail>,
    pub genres: Vec<FilmGenre>,
    pub countries: Vec<FilmCountry>,
    pub year: FilmYear,
    pub competitions: Vec<String>,
}

/// The status object of one film record.
#[derive(Debug)]
pub struct GetFilmResponseStatus {
    /// The general status of a response.
    pub status: String,
    /// The opaque media identifier, if any.
    pub vimeo_id: Option<String>,
    /// The media identifier of the producer's greeting video, if any.
    pub greeting_vimeo_id: Option<String>,
}

/// One fully detailed film record, as handed to the ingest pipeline.
#[derive(Debug)]
pub struct GetFilmResponse {
    pub data: GetFilmResponseData,
    pub status: GetFilmResponseStatus,
}

/// One entry of the remote catalog list.
#[derive(Debug)]
pub struct FilmSummary {
    /// The remote id of the entry; `None` when the entry was malformed
    /// (not an object, or its id missing or not an unsigned number).
    pub id: Option<u64>,
}

/// The remote catalog list.
#[derive(Debug)]
pub struct FilmListing {
    /// The entries of the list's data field; `None` when the response
    /// carried no such field.
    pub data: Option<Vec<FilmSummary>>,
}

} // verus!
