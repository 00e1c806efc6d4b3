//! Catalog records as supplied by an external media database: movies, series,
//! external-id cross references and trailers.

use vstd::prelude::*;
use vstd::string::StringExecFns;

verus! {

/// A score (average rating or popularity) held in tenths of a point, so that
/// a value such as 7.2 is the exact integer 72.
#[derive(Clone, Copy, Debug, PartialEq, Eq, Structural, Default)]
pub struct Rating {
    pub tenths: u32,
}

/// Catalog record for a series, as fetched from the external catalog.
#[derive(Clone, Debug, Default)]
pub struct Series {
    pub id: u32,
    pub name: String,
    pub original_language: String,
    pub overview: String,
    pub popularity: Rating,
    pub poster_path: Option<String>,
    pub first_air_date: String,
    pub vote_average: Rating,
}

/// Catalog record for a movie, as fetched from the external catalog.
#[derive(Clone, Debug, Default)]
pub struct Movie {
    pub id: u32,
    pub title: String,
    pub original_language: String,
    pub overview: String,
    pub popularity: Rating,
    pub poster_path: Option<String>,
    pub release_date: String,
    pub vote_average: Rating,
    pub vote_count: u32,
    pub adult: bool,
}

/// A catalog record of either kind. An id is unique only within its kind:
/// a movie and a series may share an id.
#[derive(Clone)]
pub enum Production {
    Movie(Movie),
    Series(Series),
}

/// Cross-reference record: external-system identifiers for the record with
/// the same id. Every field is optional; the record is purely informational.
#[derive(Clone, Debug)]
pub struct ProductionIds {
    pub id: u32,
    pub facebook_id: Option<String>,
    pub freebase_id: Option<String>,
    pub freebase_mid: Option<String>,
    pub imdb_id: Option<String>,
    pub instagram_id: Option<String>,
    pub tvdb_id: Option<u32>,
    pub tvrage_id: Option<u32>,
    pub twitter_id: Option<String>,
    pub wikidata_id: Option<String>,
}

/// A trailer reference: the playable URL is derived from the key alone.
#[derive(Clone, Debug)]
pub struct Trailer {
    pub name: String,
    pub key: String,
    pub published_at: String,
    pub site: String,
    pub size: u32,
    pub official: bool,
}

impl Trailer {
    /// The playable URL, a pure function of the provider key.
    pub fn youtube_url(&self) -> (r: String)
        ensures
            r@ == "https://youtube.com/watch?v="@ + self.key@,
    {
        let mut url = String::from_str("https://youtube.com/watch?v=");
        url.append(self.key.as_str());
        url
    }
}

} // verus!
