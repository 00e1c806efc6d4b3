//! The annotation hierarchy: a user-authored overlay (rating, note, and for
//! series a per-season, per-episode note tree) on a catalog record. The tree
//! grows monotonically through explicit "ensure at least N" operations and
//! never shrinks.

use vstd::prelude::*;
use crate::catalog::{Movie, Rating, Series};

verus! {

/// A user's annotation of a movie: the catalog record plus rating and note.
#[derive(Clone, Debug)]
pub struct UserMovie {
    pub movie: Movie,
    pub user_rating: Rating,
    pub note: String,
}

/// A user's annotation of a series: the catalog record plus rating, note,
/// and one `SeasonNotes` per known season (index 0 is season 1).
#[derive(Clone, Debug)]
pub struct UserSeries {
    pub series: Series,
    pub user_rating: Rating,
    pub note: String,
    pub season_notes: Vec<SeasonNotes>,
}

/// Notes for one season: an overall note and one free-text note per episode
/// (index 0 is episode 1).
#[derive(Clone, Debug)]
pub struct SeasonNotes {
    pub note: String,
    pub episode_notes: Vec<String>,
}

impl SeasonNotes {
    /// A fresh, empty season: empty note, no episode notes yet.
    pub fn new() -> (r: SeasonNotes)
        ensures
            r.note@ == Seq::<char>::empty(),
            r.episode_notes@ == Seq::<String>::empty(),
    {
        SeasonNotes { note: String::new(), episode_notes: Vec::new() }
    }

    /// Grows the episode list to at least `len` entries, appending empty
    /// notes; a no-op when the list is already long enough. Existing notes
    /// are kept verbatim, so growth is monotonic and idempotent.
    pub fn ensure_episodes(&mut self, len: usize)
        ensures
            final(self).note == old(self).note,
            final(self).episode_notes@.len() == if old(self).episode_notes@.len() >= len {
                old(self).episode_notes@.len()
            } else {
                len as nat
            },
            forall|i: int|
                0 <= i < old(self).episode_notes@.len() ==> final(self).episode_notes@[i]
                    == old(self).episode_notes@[i],
            forall|i: int|
                old(self).episode_notes@.len() <= i < final(self).episode_notes@.len()
                    ==> final(self).episode_notes@[i]@ == Seq::<char>::empty(),
    {
        while self.episode_notes.len() < len
            invariant
                self.note == old(self).note,
                old(self).episode_notes@.len() <= self.episode_notes@.len(),
                self.episode_notes@.len() <= vstd::math::max(
                    old(self).episode_notes@.len() as int,
                    len as int,
                ),
                forall|i: int|
                    0 <= i < old(self).episode_notes@.len() ==> self.episode_notes@[i]
                        == old(self).episode_notes@[i],
                forall|i: int|
                    old(self).episode_notes@.len() <= i < self.episode_notes@.len()
                        ==> self.episode_notes@[i]@ == Seq::<char>::empty(),
            decreases len - self.episode_notes.len(),
        {
            self.episode_notes.push(String::new());
        }
    }
}

impl UserSeries {
    /// Grows the season list to at least `len` entries, appending freshly
    /// initialized seasons (empty note, empty episode list); a no-op when the
    /// list is already long enough. Existing seasons are kept verbatim, so
    /// growth is monotonic and idempotent.
    pub fn ensure_seasons(&mut self, len: usize)
        ensures
            final(self).series == old(self).series,
            final(self).user_rating == old(self).user_rating,
            final(self).note == old(self).note,
            final(self).season_notes@.len() == if old(self).season_notes@.len() >= len {
                old(self).season_notes@.len()
            } else {
                len as nat
            },
            forall|i: int|
                0 <= i < old(self).season_notes@.len() ==> final(self).season_notes@[i]
                    == old(self).season_notes@[i],
            forall|i: int|
                old(self).season_notes@.len() <= i < final(self).season_notes@.len() ==> {
                    &&& final(self).season_notes@[i].note@ == Seq::<char>::empty()
                    &&& final(self).season_notes@[i].episode_notes@ == Seq::<String>::empty()
                },
    {
        while self.season_notes.len() < len
            invariant
                self.series == old(self).series,
                self.user_rating == old(self).user_rating,
                self.note == old(self).note,
                old(self).season_notes@.len() <= self.season_notes@.len(),
                self.season_notes@.len() <= vstd::math::max(
                    old(self).season_notes@.len() as int,
                    len as int,
                ),
                forall|i: int|
                    0 <= i < old(self).season_notes@.len() ==> self.season_notes@[i]
                        == old(self).season_notes@[i],
                forall|i: int|
                    old(self).season_notes@.len() <= i < self.season_notes@.len() ==> {
                        &&& self.season_notes@[i].note@ == Seq::<char>::empty()
                        &&& self.season_notes@[i].episode_notes@ == Seq::<String>::empty()
                    },
            decreases len - self.season_notes.len(),
        {
            self.season_notes.push(SeasonNotes::new());
        }
    }
}

} // verus!
