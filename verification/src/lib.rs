//! A personal media-catalog annotation store: catalog records for movies and
//! series, a user-authored annotation hierarchy over them, a durable text
//! encoding of the full annotation set, and a kind-erased list projection
//! for browsing.

pub mod catalog;
pub mod json;
pub mod listing;
pub mod store;
pub mod notes;
