//! The unified list projection: a flat, kind-erased view of catalog records
//! (name, artwork reference, rating, stable identity) with selection
//! resolution across kinds and the supported orderings.

use vstd::prelude::*;
use crate::catalog::{Movie, Rating, Series};

verus! {

/// Tagged identity of a list entry. A movie id never matches a series id,
/// even when the numbers coincide, and `NoSelection` matches nothing at all.
#[derive(Clone, Copy, Debug, PartialEq, Eq, Structural, Default)]
pub enum EntryType {
    Movie(u32),
    Series(u32),
    #[default]
    NoSelection,
}

/// An ephemeral, kind-erased projection of a catalog record for rendering.
#[derive(Clone, Debug)]
pub struct ListEntry {
    pub production_id: EntryType,
    pub name: String,
    pub poster_path: Option<String>,
    pub rating: Rating,
}

/// When two identities name the same selection: the kind matches, the id
/// matches, and neither is `NoSelection`.
pub open spec fn same_selection(a: EntryType, b: EntryType) -> bool {
    match (a, b) {
        (EntryType::Movie(x), EntryType::Movie(y)) => x == y,
        (EntryType::Series(x), EntryType::Series(y)) => x == y,
        _ => false,
    }
}

/// Identity is confined to a kind: a movie identity and a series identity
/// never name the same selection, whatever the ids, and a `NoSelection` identity
/// matches nothing, not even another `NoSelection`.
pub proof fn lemma_selection_kinds_disjoint(movie_id: u32, series_id: u32, other: EntryType)
    ensures
        !same_selection(EntryType::Movie(movie_id), EntryType::Series(series_id)),
        !same_selection(EntryType::Series(series_id), EntryType::Movie(movie_id)),
        !same_selection(EntryType::NoSelection, other),
        !same_selection(other, EntryType::NoSelection),
{
}

impl ListEntry {
    /// Projects a movie: the entry shows the title and the average rating
    /// and carries a movie identity with the movie's id.
    pub fn from_movie(movie: &Movie) -> (r: ListEntry)
        ensures
            r.production_id == EntryType::Movie(movie.id),
            r.name@ == movie.title@,
            r.poster_path == movie.poster_path,
            r.rating == movie.vote_average,
    {
        ListEntry {
            production_id: EntryType::Movie(movie.id),
            name: movie.title.clone(),
            poster_path: clone_opt_string(&movie.poster_path),
            rating: movie.vote_average,
        }
    }

    /// Projects a series: the entry shows the name and the average rating
    /// and carries a series identity with the series' id.
    pub fn from_series(series: &Series) -> (r: ListEntry)
        ensures
            r.production_id == EntryType::Series(series.id),
            r.name@ == series.name@,
            r.poster_path == series.poster_path,
            r.rating == series.vote_average,
    {
        ListEntry {
            production_id: EntryType::Series(series.id),
            name: series.name.clone(),
            poster_path: clone_opt_string(&series.poster_path),
            rating: series.vote_average,
        }
    }

    /// Whether this entry is the one named by `entry`: true exactly when
    /// kind and id both match, and never for a `NoSelection` identity.
    pub fn is_selected(&self, entry: &EntryType) -> (r: bool)
        ensures
            r == same_selection(self.production_id, *entry),
    {
        match entry {
            EntryType::Movie(selected_id) => {
                match &self.production_id {
                    EntryType::Movie(list_entry_id) => *selected_id == *list_entry_id,
                    _ => false,
                }
            },
            EntryType::Series(selected_id) => {
                match &self.production_id {
                    EntryType::Series(list_entry_id) => *selected_id == *list_entry_id,
                    _ => false,
                }
            },
            EntryType::NoSelection => false,
        }
    }
}

/// The orderings the central list supports. `UserDefined` keeps the list's
/// own persisted insertion order; the others are stateless sort transforms.
#[derive(Clone, Copy, Debug)]
pub enum CentralListOrdering {
    UserDefined,
    Alphabetic,
    RatingAscending,
    RatingDescending,
}

fn clone_opt_string(o: &Option<String>) -> (r: Option<String>)
    ensures
        r == *o,
{
    match o {
        Option::Some(s) => Option::Some(s.clone()),
        Option::None => Option::None,
    }
}


// ---------------------------------------------------------------------------
// Orderings over the projected list
// ---------------------------------------------------------------------------

broadcast use vstd::seq_lib::group_to_multiset_ensures;

/// Lexicographic order on names, by Unicode code point.
pub open spec fn lex_le(a: Seq<char>, b: Seq<char>) -> bool
    decreases a.len(),
{
    if a.len() == 0 {
        true
    } else if b.len() == 0 {
        false
    } else if (a[0] as u32) < (b[0] as u32) {
        true
    } else if a[0] == b[0] {
        lex_le(a.skip(1), b.skip(1))
    } else {
        false
    }
}

pub proof fn lemma_lex_le_total(a: Seq<char>, b: Seq<char>)
    ensures
        lex_le(a, b) || lex_le(b, a),
    decreases a.len(),
{
    if a.len() == 0 {
    } else if b.len() == 0 {
    } else if a[0] == b[0] {
        lemma_lex_le_total(a.skip(1), b.skip(1));
    } else {
        if (a[0] as u32) == (b[0] as u32) {
            vstd::utf8::char_u32_cast(a[0], a[0] as u32);
            vstd::utf8::char_u32_cast(b[0], b[0] as u32);
            assert(a[0] == b[0]);
        }
    }
}

pub proof fn lemma_lex_le_trans(a: Seq<char>, b: Seq<char>, c: Seq<char>)
    requires
        lex_le(a, b),
        lex_le(b, c),
    ensures
        lex_le(a, c),
    decreases a.len(),
{
    if a.len() == 0 {
    } else if b.len() == 0 {
    } else if c.len() == 0 {
    } else if a[0] == b[0] && b[0] == c[0] {
        lemma_lex_le_trans(a.skip(1), b.skip(1), c.skip(1));
    }
}

/// The order one entry stands in before another, per the chosen ordering.
/// Under `UserDefined` every arrangement is in order: the list's own
/// insertion order is kept as it is.
pub open spec fn entry_le(ord: CentralListOrdering, a: ListEntry, b: ListEntry) -> bool {
    match ord {
        CentralListOrdering::UserDefined => true,
        CentralListOrdering::Alphabetic => lex_le(a.name@, b.name@),
        CentralListOrdering::RatingAscending => a.rating.tenths <= b.rating.tenths,
        CentralListOrdering::RatingDescending => b.rating.tenths <= a.rating.tenths,
    }
}

pub open spec fn sorted_by(ord: CentralListOrdering, s: Seq<ListEntry>) -> bool {
    forall|x: int, y: int| 0 <= x < y < s.len() ==> entry_le(ord, s[x], s[y])
}

pub proof fn lemma_entry_le_total(ord: CentralListOrdering, a: ListEntry, b: ListEntry)
    ensures
        entry_le(ord, a, b) || entry_le(ord, b, a),
{
    if ord is Alphabetic {
        lemma_lex_le_total(a.name@, b.name@);
    }
}

pub proof fn lemma_entry_le_trans(ord: CentralListOrdering, a: ListEntry, b: ListEntry, c: ListEntry)
    requires
        entry_le(ord, a, b),
        entry_le(ord, b, c),
    ensures
        entry_le(ord, a, c),
{
    if ord is Alphabetic {
        lemma_lex_le_trans(a.name@, b.name@, c.name@);
    }
}

fn name_le(a: &str, b: &str) -> (r: bool)
    ensures
        r == lex_le(a@, b@),
{
    let na = a.unicode_len();
    let nb = b.unicode_len();
    proof {
        assert(a@.skip(0) =~= a@);
        assert(b@.skip(0) =~= b@);
    }
    let mut k: usize = 0;
    loop
        invariant
            k <= na,
            k <= nb,
            na == a@.len(),
            nb == b@.len(),
            lex_le(a@, b@) == lex_le(a@.skip(k as int), b@.skip(k as int)),
        decreases na - k,
    {
        if k == na {
            proof {
                assert(a@.skip(k as int) =~= Seq::<char>::empty());
            }
            return true;
        }
        if k == nb {
            proof {
                assert(b@.skip(k as int) =~= Seq::<char>::empty());
                assert(a@.skip(k as int).len() > 0);
            }
            return false;
        }
        let ca = a.get_char(k);
        let cb = b.get_char(k);
        proof {
            assert(a@.skip(k as int)[0] == ca);
            assert(b@.skip(k as int)[0] == cb);
        }
        if ca == cb {
            proof {
                assert(a@.skip(k as int).skip(1) =~= a@.skip(k as int + 1));
                assert(b@.skip(k as int).skip(1) =~= b@.skip(k as int + 1));
            }
            k = k + 1;
        } else if (ca as u32) < (cb as u32) {
            return true;
        } else {
            return false;
        }
    }
}

fn entry_le_exec(ord: &CentralListOrdering, a: &ListEntry, b: &ListEntry) -> (r: bool)
    ensures
        r == entry_le(*ord, *a, *b),
{
    match ord {
        CentralListOrdering::UserDefined => true,
        CentralListOrdering::Alphabetic => name_le(a.name.as_str(), b.name.as_str()),
        CentralListOrdering::RatingAscending => a.rating.tenths <= b.rating.tenths,
        CentralListOrdering::RatingDescending => b.rating.tenths <= a.rating.tenths,
    }
}

fn clone_entry(e: &ListEntry) -> (r: ListEntry)
    ensures
        r == *e,
{
    ListEntry {
        production_id: e.production_id,
        name: e.name.clone(),
        poster_path: clone_opt_string(&e.poster_path),
        rating: e.rating,
    }
}

/// The stateless sort transform over projected entries: the result holds
/// exactly the given entries, arranged per the chosen ordering; under
/// `UserDefined` the list comes back unchanged. The catalog records behind
/// the entries are untouched.
#[verifier::rlimit(100)]
pub fn sort_entries(ord: &CentralListOrdering, list: &Vec<ListEntry>) -> (r: Vec<ListEntry>)
    ensures
        r@.to_multiset() == list@.to_multiset(),
        sorted_by(*ord, r@),
        *ord is UserDefined ==> r@ == list@,
{
    let mut out: Vec<ListEntry> = Vec::new();
    let mut idx: usize = 0;
    while idx < list.len()
        invariant
            idx <= list@.len(),
            out@.to_multiset() == list@.take(idx as int).to_multiset(),
            sorted_by(*ord, out@),
            *ord is UserDefined ==> out@ == list@.take(idx as int),
        decreases list@.len() - idx,
    {
        let x = clone_entry(&list[idx]);
        let mut j: usize = 0;
        while j < out.len() && entry_le_exec(ord, &out[j], &x)
            invariant
                j <= out@.len(),
                forall|m: int| 0 <= m < j ==> entry_le(*ord, out@[m], x),
            decreases out@.len() - j,
        {
            j = j + 1;
        }
        let ghost out0 = out@;
        out.insert(j, x);
        proof {
            assert(out@.remove(j as int) =~= out0);
            assert(out@[j as int] == x);
            assert(out@.to_multiset().count(x) > 0);
            assert(out@.to_multiset() =~= out0.to_multiset().insert(x));
            assert(list@.take(idx as int + 1) =~= list@.take(idx as int).push(list@[idx as int]));
            assert forall|u: int, w: int|
                0 <= u < w < out@.len() implies entry_le(*ord, out@[u], out@[w]) by {
                if w < j {
                } else if u < j && w == j {
                } else if u < j && w > j {
                } else if u == j {
                    lemma_entry_le_total(*ord, out0[j as int], x);
                    if w > j + 1 {
                        lemma_entry_le_trans(*ord, x, out0[j as int], out0[w - 1]);
                    }
                } else {
                }
            }
            if ord is UserDefined {
                assert(j == out0.len());
                assert(out@ =~= out0.push(x));
            }
        }
        idx = idx + 1;
    }
    proof {
        assert(list@.take(list@.len() as int) =~= list@);
    }
    out
}

} // verus!
