//! The durable store's document format: one text document holding every
//! annotated series and movie. The encoder is canonical; the parser reads
//! the canonical form back (proved by `lemma_round_trip`) and tolerates
//! members it does not know, for forward compatibility. File handling
//! (writing to a temporary path, the atomic rename) stays outside: this
//! module turns collections into text and text into collections.

use vstd::prelude::*;
use crate::catalog::{Movie, Rating, Series};
use crate::json::{
    chars_to_string, emit_bool, emit_opt_string, emit_string, emit_tenths, emit_u32,
    parse_bool, parse_member, parse_obj_end, parse_opt_string, parse_string, parse_tenths,
    parse_u32, str_to_chars,
    enc_bool, enc_memc, enc_mem, enc_opt_string, enc_string, enc_tenths, enc_u32,
    sp_bool, sp_member, sp_mem_at, sp_obj_end, sp_opt_string, sp_string, sp_tenths, sp_u32,
    lemma_sp_bool_enc, lemma_sp_obj_end_enc,
    lemma_sp_opt_string_enc, lemma_sp_string_enc, lemma_sp_tenths_enc, lemma_sp_u32_enc,
    lemma_step_mem_head, lemma_step_memc, lemma_subrange_cat,
};
use crate::notes::{SeasonNotes, UserMovie, UserSeries};

verus! {

/// The load-side error: the document was malformed or incomplete. I/O
/// failures are a different error and belong to whoever reads the file.
#[derive(Clone, Copy, Debug, PartialEq, Eq, Structural)]
pub struct DecodeError;

// ---------------------------------------------------------------------------
// Views: the mathematical shape of the stored records
// ---------------------------------------------------------------------------

pub struct SeriesV {
    pub id: u32,
    pub name: Seq<char>,
    pub original_language: Seq<char>,
    pub overview: Seq<char>,
    pub popularity: Rating,
    pub poster_path: Option<Seq<char>>,
    pub first_air_date: Seq<char>,
    pub vote_average: Rating,
}

pub struct MovieV {
    pub id: u32,
    pub title: Seq<char>,
    pub original_language: Seq<char>,
    pub overview: Seq<char>,
    pub popularity: Rating,
    pub poster_path: Option<Seq<char>>,
    pub release_date: Seq<char>,
    pub vote_average: Rating,
    pub vote_count: u32,
    pub adult: bool,
}

pub struct SeasonNotesV {
    pub note: Seq<char>,
    pub episode_notes: Seq<Seq<char>>,
}

pub struct UserSeriesV {
    pub series: SeriesV,
    pub user_rating: Rating,
    pub note: Seq<char>,
    pub season_notes: Seq<SeasonNotesV>,
}

pub struct UserMovieV {
    pub movie: MovieV,
    pub user_rating: Rating,
    pub note: Seq<char>,
}

pub open spec fn opt_view(o: Option<String>) -> Option<Seq<char>> {
    match o {
        Option::None => Option::None,
        Option::Some(s) => Option::Some(s@),
    }
}

impl View for Series {
    type V = SeriesV;

    open spec fn view(&self) -> SeriesV {
        SeriesV {
            id: self.id,
            name: self.name@,
            original_language: self.original_language@,
            overview: self.overview@,
            popularity: self.popularity,
            poster_path: opt_view(self.poster_path),
            first_air_date: self.first_air_date@,
            vote_average: self.vote_average,
        }
    }
}

impl View for Movie {
    type V = MovieV;

    open spec fn view(&self) -> MovieV {
        MovieV {
            id: self.id,
            title: self.title@,
            original_language: self.original_language@,
            overview: self.overview@,
            popularity: self.popularity,
            poster_path: opt_view(self.poster_path),
            release_date: self.release_date@,
            vote_average: self.vote_average,
            vote_count: self.vote_count,
            adult: self.adult,
        }
    }
}

impl View for SeasonNotes {
    type V = SeasonNotesV;

    open spec fn view(&self) -> SeasonNotesV {
        SeasonNotesV {
            note: self.note@,
            episode_notes: Seq::new(self.episode_notes@.len(), |k: int| self.episode_notes@[k]@),
        }
    }
}

impl View for UserSeries {
    type V = UserSeriesV;

    open spec fn view(&self) -> UserSeriesV {
        UserSeriesV {
            series: self.series@,
            user_rating: self.user_rating,
            note: self.note@,
            season_notes: Seq::new(self.season_notes@.len(), |k: int| self.season_notes@[k]@),
        }
    }
}

impl View for UserMovie {
    type V = UserMovieV;

    open spec fn view(&self) -> UserMovieV {
        UserMovieV { movie: self.movie@, user_rating: self.user_rating, note: self.note@ }
    }
}

pub open spec fn series_views(v: Seq<UserSeries>) -> Seq<UserSeriesV> {
    Seq::new(v.len(), |k: int| v[k]@)
}

pub open spec fn movie_views(v: Seq<UserMovie>) -> Seq<UserMovieV> {
    Seq::new(v.len(), |k: int| v[k]@)
}

// ---------------------------------------------------------------------------
// Canonical encoding of the schema
// ---------------------------------------------------------------------------

#[verifier::opaque]
pub open spec fn enc_series(v: SeriesV) -> Seq<char> {
    seq!['{'] + (enc_mem("id"@, enc_u32(v.id)) + (enc_memc("name"@, enc_string(v.name)) + (enc_memc("original_language"@, enc_string(v.original_language)) + (enc_memc("overview"@, enc_string(v.overview)) + (enc_memc("popularity"@, enc_tenths(v.popularity.tenths)) + (enc_memc("poster_path"@, enc_opt_string(v.poster_path)) + (enc_memc("first_air_date"@, enc_string(v.first_air_date)) + (enc_memc("vote_average"@, enc_tenths(v.vote_average.tenths)) + (seq!['}'])))))))))
}

#[verifier::opaque]
pub open spec fn enc_movie(v: MovieV) -> Seq<char> {
    seq!['{'] + (enc_mem("id"@, enc_u32(v.id)) + (enc_memc("title"@, enc_string(v.title)) + (enc_memc("original_language"@, enc_string(v.original_language)) + (enc_memc("overview"@, enc_string(v.overview)) + (enc_memc("popularity"@, enc_tenths(v.popularity.tenths)) + (enc_memc("poster_path"@, enc_opt_string(v.poster_path)) + (enc_memc("release_date"@, enc_string(v.release_date)) + (enc_memc("vote_average"@, enc_tenths(v.vote_average.tenths)) + (enc_memc("vote_count"@, enc_u32(v.vote_count)) + (enc_memc("adult"@, enc_bool(v.adult)) + (seq!['}'])))))))))))
}

/// Items of an array of strings, commas between them, closed by the bracket.
pub open spec fn enc_str_items(vs: Seq<Seq<char>>) -> Seq<char>
    decreases vs.len(),
{
    if vs.len() == 0 {
        seq![']']
    } else if vs.len() == 1 {
        enc_string(vs[0]) + seq![']']
    } else {
        enc_string(vs[0]) + (seq![','] + enc_str_items(vs.skip(1)))
    }
}

pub open spec fn enc_str_arr(vs: Seq<Seq<char>>) -> Seq<char> {
    seq!['['] + enc_str_items(vs)
}

#[verifier::opaque]
pub open spec fn enc_season_notes(v: SeasonNotesV) -> Seq<char> {
    seq!['{'] + (enc_mem("note"@, enc_string(v.note)) + (enc_memc("episode_notes"@, enc_str_arr(v.episode_notes)) + (seq!['}'])))
}

pub open spec fn enc_season_items(vs: Seq<SeasonNotesV>) -> Seq<char>
    decreases vs.len(),
{
    if vs.len() == 0 {
        seq![']']
    } else if vs.len() == 1 {
        enc_season_notes(vs[0]) + seq![']']
    } else {
        enc_season_notes(vs[0]) + (seq![','] + enc_season_items(vs.skip(1)))
    }
}

pub open spec fn enc_season_arr(vs: Seq<SeasonNotesV>) -> Seq<char> {
    seq!['['] + enc_season_items(vs)
}

#[verifier::opaque]
pub open spec fn enc_user_series(v: UserSeriesV) -> Seq<char> {
    seq!['{'] + (enc_mem("series"@, enc_series(v.series)) + (enc_memc("user_rating"@, enc_tenths(v.user_rating.tenths)) + (enc_memc("note"@, enc_string(v.note)) + (enc_memc("season_notes"@, enc_season_arr(v.season_notes)) + (seq!['}'])))))
}

#[verifier::opaque]
pub open spec fn enc_user_movie(v: UserMovieV) -> Seq<char> {
    seq!['{'] + (enc_mem("movie"@, enc_movie(v.movie)) + (enc_memc("user_rating"@, enc_tenths(v.user_rating.tenths)) + (enc_memc("note"@, enc_string(v.note)) + (seq!['}']))))
}

pub open spec fn enc_user_series_items(vs: Seq<UserSeriesV>) -> Seq<char>
    decreases vs.len(),
{
    if vs.len() == 0 {
        seq![']']
    } else if vs.len() == 1 {
        enc_user_series(vs[0]) + seq![']']
    } else {
        enc_user_series(vs[0]) + (seq![','] + enc_user_series_items(vs.skip(1)))
    }
}

pub open spec fn enc_user_series_arr(vs: Seq<UserSeriesV>) -> Seq<char> {
    seq!['['] + enc_user_series_items(vs)
}

pub open spec fn enc_user_movie_items(vs: Seq<UserMovieV>) -> Seq<char>
    decreases vs.len(),
{
    if vs.len() == 0 {
        seq![']']
    } else if vs.len() == 1 {
        enc_user_movie(vs[0]) + seq![']']
    } else {
        enc_user_movie(vs[0]) + (seq![','] + enc_user_movie_items(vs.skip(1)))
    }
}

pub open spec fn enc_user_movie_arr(vs: Seq<UserMovieV>) -> Seq<char> {
    seq!['['] + enc_user_movie_items(vs)
}

/// The whole document: the series array and the movie array, both always
/// present, under one object.
pub open spec fn enc_doc(ser: Seq<UserSeriesV>, mov: Seq<UserMovieV>) -> Seq<char> {
    seq!['{'] + (enc_mem("series"@, enc_user_series_arr(ser)) + (enc_memc("movies"@, enc_user_movie_arr(mov)) + (seq!['}'])))
}

// ---------------------------------------------------------------------------
// Spec parsers for the schema, with their completeness lemmas
// ---------------------------------------------------------------------------

#[verifier::opaque]
pub open spec fn sp_series_tail(s: Seq<char>, i: int, fuel: nat) -> Option<(
    (u32, Option<Seq<char>>, Seq<char>, u32),
    int,
)> {
    match sp_mem_at(s, i, "popularity"@, fuel) {
        None => None,
        Some(j0) => match sp_tenths(s, j0) {
            None => None,
            Some((popularity, j1)) => match sp_mem_at(s, j1, "poster_path"@, fuel) {
                None => None,
                Some(j2) => match sp_opt_string(s, j2) {
                    None => None,
                    Some((poster_path, j3)) => match sp_mem_at(s, j3, "first_air_date"@, fuel) {
                        None => None,
                        Some(j4) => match sp_string(s, j4) {
                            None => None,
                            Some((first_air_date, j5)) => match sp_mem_at(
                                s,
                                j5,
                                "vote_average"@,
                                fuel,
                            ) {
                                None => None,
                                Some(j6) => match sp_tenths(s, j6) {
                                    None => None,
                                    Some((vote_average, j7)) => match sp_obj_end(s, j7, fuel) {
                                        None => None,
                                        Some(j8) => Some(
                                            (
                                                (popularity, poster_path, first_air_date,
                                                vote_average),
                                                j8,
                                            ),
                                        ),
                                    },
                                },
                            },
                        },
                    },
                },
            },
        },
    }
}

#[verifier::opaque]
pub open spec fn sp_series(s: Seq<char>, i: int, fuel: nat) -> Option<(SeriesV, int)> {
    if !(0 <= i < s.len() && s[i] == '{') {
        None
    } else {
        match sp_member(s, i + 1, "id"@, fuel) {
            None => None,
            Some(j0) => match sp_u32(s, j0) {
                None => None,
                Some((id, j1)) => match sp_mem_at(s, j1, "name"@, fuel) {
                    None => None,
                    Some(j2) => match sp_string(s, j2) {
                        None => None,
                        Some((name, j3)) => match sp_mem_at(s, j3, "original_language"@, fuel) {
                            None => None,
                            Some(j4) => match sp_string(s, j4) {
                                None => None,
                                Some((original_language, j5)) => match sp_mem_at(
                                    s,
                                    j5,
                                    "overview"@,
                                    fuel,
                                ) {
                                    None => None,
                                    Some(j6) => match sp_string(s, j6) {
                                        None => None,
                                        Some((overview, j7)) => match sp_series_tail(
                                            s,
                                            j7,
                                            fuel,
                                        ) {
                                            None => None,
                                            Some(
                                                ((popularity, poster_path, first_air_date,
                                                vote_average), j8),
                                            ) => Some(
                                                (
                                                    SeriesV {
                                                        id,
                                                        name,
                                                        original_language,
                                                        overview,
                                                        popularity: Rating { tenths: popularity },
                                                        poster_path,
                                                        first_air_date,
                                                        vote_average: Rating {
                                                            tenths: vote_average,
                                                        },
                                                    },
                                                    j8,
                                                ),
                                            ),
                                        },
                                    },
                                },
                            },
                        },
                    },
                },
            },
        }
    }
}


#[verifier::opaque]
pub open spec fn sp_movie_tail(s: Seq<char>, i: int, fuel: nat) -> Option<((u32, u32, bool), int)> {
    match sp_mem_at(s, i, "vote_average"@, fuel) {
        None => None,
        Some(j0) => match sp_tenths(s, j0) {
            None => None,
            Some((vote_average, j1)) => match sp_mem_at(s, j1, "vote_count"@, fuel) {
                None => None,
                Some(j2) => match sp_u32(s, j2) {
                    None => None,
                    Some((vote_count, j3)) => match sp_mem_at(s, j3, "adult"@, fuel) {
                        None => None,
                        Some(j4) => match sp_bool(s, j4) {
                            None => None,
                            Some((adult, j5)) => match sp_obj_end(s, j5, fuel) {
                                None => None,
                                Some(j6) => Some(((vote_average, vote_count, adult), j6)),
                            },
                        },
                    },
                },
            },
        },
    }
}

#[verifier::opaque]
pub open spec fn sp_movie_mid(s: Seq<char>, i: int, fuel: nat) -> Option<(
    (u32, Option<Seq<char>>, Seq<char>, u32, u32, bool),
    int,
)> {
    match sp_mem_at(s, i, "popularity"@, fuel) {
        None => None,
        Some(j0) => match sp_tenths(s, j0) {
            None => None,
            Some((popularity, j1)) => match sp_mem_at(s, j1, "poster_path"@, fuel) {
                None => None,
                Some(j2) => match sp_opt_string(s, j2) {
                    None => None,
                    Some((poster_path, j3)) => match sp_mem_at(s, j3, "release_date"@, fuel) {
                        None => None,
                        Some(j4) => match sp_string(s, j4) {
                            None => None,
                            Some((release_date, j5)) => match sp_movie_tail(s, j5, fuel) {
                                None => None,
                                Some(((vote_average, vote_count, adult), j6)) => Some(
                                    (
                                        (popularity, poster_path, release_date, vote_average,
                                        vote_count, adult),
                                        j6,
                                    ),
                                ),
                            },
                        },
                    },
                },
            },
        },
    }
}

#[verifier::opaque]
pub open spec fn sp_movie(s: Seq<char>, i: int, fuel: nat) -> Option<(MovieV, int)> {
    if !(0 <= i < s.len() && s[i] == '{') {
        None
    } else {
        match sp_member(s, i + 1, "id"@, fuel) {
            None => None,
            Some(j0) => match sp_u32(s, j0) {
                None => None,
                Some((id, j1)) => match sp_mem_at(s, j1, "title"@, fuel) {
                    None => None,
                    Some(j2) => match sp_string(s, j2) {
                        None => None,
                        Some((title, j3)) => match sp_mem_at(s, j3, "original_language"@, fuel) {
                            None => None,
                            Some(j4) => match sp_string(s, j4) {
                                None => None,
                                Some((original_language, j5)) => match sp_mem_at(
                                    s,
                                    j5,
                                    "overview"@,
                                    fuel,
                                ) {
                                    None => None,
                                    Some(j6) => match sp_string(s, j6) {
                                        None => None,
                                        Some((overview, j7)) => match sp_movie_mid(s, j7, fuel) {
                                            None => None,
                                            Some(
                                                ((popularity, poster_path, release_date,
                                                vote_average, vote_count, adult), j8),
                                            ) => Some(
                                                (
                                                    MovieV {
                                                        id,
                                                        title,
                                                        original_language,
                                                        overview,
                                                        popularity: Rating { tenths: popularity },
                                                        poster_path,
                                                        release_date,
                                                        vote_average: Rating {
                                                            tenths: vote_average,
                                                        },
                                                        vote_count,
                                                        adult,
                                                    },
                                                    j8,
                                                ),
                                            ),
                                        },
                                    },
                                },
                            },
                        },
                    },
                },
            },
        }
    }
}



pub open spec fn sp_str_items(s: Seq<char>, i: int, fuel: nat) -> Option<(Seq<Seq<char>>, int)>
    decreases fuel,
{
    if fuel == 0 {
        None
    } else {
        match sp_string(s, i) {
            None => None,
            Some((x, j)) => {
                if j < s.len() && s[j] == ',' {
                    match sp_str_items(s, j + 1, (fuel - 1) as nat) {
                        None => None,
                        Some((xs, j2)) => Some((seq![x] + xs, j2)),
                    }
                } else if j < s.len() && s[j] == ']' {
                    Some((seq![x], j + 1))
                } else {
                    None
                }
            },
        }
    }
}

pub open spec fn sp_str_arr(s: Seq<char>, i: int, fuel: nat) -> Option<(Seq<Seq<char>>, int)> {
    if !(0 <= i < s.len() && s[i] == '[') {
        None
    } else if i + 1 < s.len() && s[i + 1] == ']' {
        Some((Seq::<Seq<char>>::empty(), i + 2))
    } else {
        sp_str_items(s, i + 1, fuel)
    }
}

#[verifier::rlimit(100)]
pub proof fn lemma_sp_str_items_enc(s: Seq<char>, i: int, vs: Seq<Seq<char>>, fuel: nat)
    requires
        vs.len() >= 1,
        fuel >= 1 + enc_str_items(vs).len(),
        0 <= i,
        i + enc_str_items(vs).len() <= s.len(),
        s.subrange(i, i + enc_str_items(vs).len()) == enc_str_items(vs),
    ensures
        sp_str_items(s, i, fuel) == Some((vs, i + enc_str_items(vs).len())),
    decreases vs.len(),
{
    let head = enc_string(vs[0]);
    if vs.len() == 1 {
        lemma_subrange_cat(s, i, head, seq![']']);
        lemma_sp_string_enc(s, i, vs[0]);
        let j = i + head.len();
        assert(s.subrange(j, j + 1)[0] == ']');
        assert(seq![vs[0]] =~= vs);
    } else {
        let tail = enc_str_items(vs.skip(1));
        lemma_subrange_cat(s, i, head, seq![','] + tail);
        let j = i + head.len();
        lemma_subrange_cat(s, j, seq![','], tail);
        assert(s.subrange(j, j + 1)[0] == ',');
        lemma_sp_string_enc(s, i, vs[0]);
        lemma_sp_str_items_enc(s, j + 1, vs.skip(1), (fuel - 1) as nat);
        assert(seq![vs[0]] + vs.skip(1) =~= vs);
    }
}

#[verifier::rlimit(100)]
pub proof fn lemma_sp_str_arr_enc(s: Seq<char>, i: int, vs: Seq<Seq<char>>, fuel: nat)
    requires
        fuel >= 1 + enc_str_arr(vs).len(),
        0 <= i,
        i + enc_str_arr(vs).len() <= s.len(),
        s.subrange(i, i + enc_str_arr(vs).len()) == enc_str_arr(vs),
    ensures
        sp_str_arr(s, i, fuel) == Some((vs, i + enc_str_arr(vs).len())),
{
    lemma_subrange_cat(s, i, seq!['['], enc_str_items(vs));
    assert(s.subrange(i, i + 1)[0] == '[');
    if vs.len() == 0 {
        assert(s.subrange(i + 1, i + 2)[0] == ']');
        assert(vs =~= Seq::<Seq<char>>::empty());
    } else {
        assert(enc_str_items(vs)[0] == enc_string(vs[0])[0]);
        assert(enc_string(vs[0])[0] == '"');
        assert(s.subrange(i + 1, i + 1 + enc_str_items(vs).len())[0] == '"');
        lemma_sp_str_items_enc(s, i + 1, vs, fuel);
    }
}

#[verifier::opaque]
pub open spec fn sp_season_notes(s: Seq<char>, i: int, fuel: nat) -> Option<(SeasonNotesV, int)> {
    if !(0 <= i < s.len() && s[i] == '{') {
        None
    } else {
        match sp_member(s, i + 1, "note"@, fuel) { None => None, Some(j0) => match sp_string(s, j0) { None => None, Some((note, j1)) => match sp_mem_at(s, j1, "episode_notes"@, fuel) { None => None, Some(j2) => match sp_str_arr(s, j2, fuel) { None => None, Some((episode_notes, j3)) => match sp_obj_end(s, j3, fuel) { None => None, Some(jend) => Some((SeasonNotesV { note, episode_notes }, jend)) } } } } }
    }
}

/// A canonical record parses back to its view.
#[verifier::rlimit(100)]
pub proof fn lemma_sp_season_notes_enc(s: Seq<char>, i: int, v: SeasonNotesV, fuel: nat)
    requires
        fuel >= 1 + enc_season_notes(v).len(),
        0 <= i,
        i + enc_season_notes(v).len() <= s.len(),
        s.subrange(i, i + enc_season_notes(v).len()) == enc_season_notes(v),
    ensures
        sp_season_notes(s, i, fuel) == Some((v, i + enc_season_notes(v).len())),
{
    reveal(sp_season_notes);
    reveal(enc_season_notes);
    let m0 = enc_mem("note"@, enc_string(v.note));
    let m1 = enc_memc("episode_notes"@, enc_str_arr(v.episode_notes));
    let r2 = seq!['}'];
    let r1 = m1 + r2;
    let r0 = m0 + r1;
    let p0 = i + 1;
    let p1 = p0 + m0.len();
    let p2 = p1 + m1.len();
    lemma_subrange_cat(s, i, seq!['{'], r0);
    assert(s.subrange(i, i + 1)[0] == '{');
    lemma_step_mem_head(s, p0, "note"@, enc_string(v.note), r1, fuel);
    lemma_step_memc(s, p1, "episode_notes"@, enc_str_arr(v.episode_notes), r2, fuel);
    assert(s.subrange(p2, p2 + r2.len())[0] == '}');
    lemma_sp_string_enc(s, p0 + enc_string("note"@).len() + 1, v.note);
    lemma_sp_str_arr_enc(s, p1 + 2 + enc_string("episode_notes"@).len(), v.episode_notes, fuel);
    lemma_sp_obj_end_enc(s, p2, fuel);
}

pub open spec fn sp_season_items(s: Seq<char>, i: int, fuel: nat) -> Option<(Seq<SeasonNotesV>, int)>
    decreases fuel,
{
    if fuel == 0 {
        None
    } else {
        match sp_season_notes(s, i, fuel) {
            None => None,
            Some((x, j)) => {
                if j < s.len() && s[j] == ',' {
                    match sp_season_items(s, j + 1, (fuel - 1) as nat) {
                        None => None,
                        Some((xs, j2)) => Some((seq![x] + xs, j2)),
                    }
                } else if j < s.len() && s[j] == ']' {
                    Some((seq![x], j + 1))
                } else {
                    None
                }
            },
        }
    }
}

pub open spec fn sp_season_arr(s: Seq<char>, i: int, fuel: nat) -> Option<(Seq<SeasonNotesV>, int)> {
    if !(0 <= i < s.len() && s[i] == '[') {
        None
    } else if i + 1 < s.len() && s[i + 1] == ']' {
        Some((Seq::<SeasonNotesV>::empty(), i + 2))
    } else {
        sp_season_items(s, i + 1, fuel)
    }
}

#[verifier::rlimit(100)]
pub proof fn lemma_sp_season_items_enc(s: Seq<char>, i: int, vs: Seq<SeasonNotesV>, fuel: nat)
    requires
        vs.len() >= 1,
        fuel >= 1 + enc_season_items(vs).len(),
        0 <= i,
        i + enc_season_items(vs).len() <= s.len(),
        s.subrange(i, i + enc_season_items(vs).len()) == enc_season_items(vs),
    ensures
        sp_season_items(s, i, fuel) == Some((vs, i + enc_season_items(vs).len())),
    decreases vs.len(),
{
    let head = enc_season_notes(vs[0]);
    if vs.len() == 1 {
        lemma_subrange_cat(s, i, head, seq![']']);
        lemma_sp_season_notes_enc(s, i, vs[0], fuel);
        let j = i + head.len();
        assert(s.subrange(j, j + 1)[0] == ']');
        assert(seq![vs[0]] =~= vs);
    } else {
        let tail = enc_season_items(vs.skip(1));
        lemma_subrange_cat(s, i, head, seq![','] + tail);
        let j = i + head.len();
        lemma_subrange_cat(s, j, seq![','], tail);
        assert(s.subrange(j, j + 1)[0] == ',');
        lemma_sp_season_notes_enc(s, i, vs[0], fuel);
        lemma_sp_season_items_enc(s, j + 1, vs.skip(1), (fuel - 1) as nat);
        assert(seq![vs[0]] + vs.skip(1) =~= vs);
    }
}

#[verifier::rlimit(100)]
pub proof fn lemma_sp_season_arr_enc(s: Seq<char>, i: int, vs: Seq<SeasonNotesV>, fuel: nat)
    requires
        fuel >= 1 + enc_season_arr(vs).len(),
        0 <= i,
        i + enc_season_arr(vs).len() <= s.len(),
        s.subrange(i, i + enc_season_arr(vs).len()) == enc_season_arr(vs),
    ensures
        sp_season_arr(s, i, fuel) == Some((vs, i + enc_season_arr(vs).len())),
{
    lemma_subrange_cat(s, i, seq!['['], enc_season_items(vs));
    assert(s.subrange(i, i + 1)[0] == '[');
    if vs.len() == 0 {
        assert(s.subrange(i + 1, i + 2)[0] == ']');
        assert(vs =~= Seq::<SeasonNotesV>::empty());
    } else {
        reveal(enc_season_notes);
        assert(enc_season_items(vs)[0] == enc_season_notes(vs[0])[0]);
        assert(enc_season_notes(vs[0])[0] == '{');
        assert(s.subrange(i + 1, i + 1 + enc_season_items(vs).len())[0] == '{');
        lemma_sp_season_items_enc(s, i + 1, vs, fuel);
    }
}

#[verifier::opaque]
pub open spec fn sp_user_series(s: Seq<char>, i: int, fuel: nat) -> Option<(UserSeriesV, int)> {
    if !(0 <= i < s.len() && s[i] == '{') {
        None
    } else {
        match sp_member(s, i + 1, "series"@, fuel) { None => None, Some(j0) => match sp_series(s, j0, fuel) { None => None, Some((series, j1)) => match sp_mem_at(s, j1, "user_rating"@, fuel) { None => None, Some(j2) => match sp_tenths(s, j2) { None => None, Some((user_rating, j3)) => match sp_mem_at(s, j3, "note"@, fuel) { None => None, Some(j4) => match sp_string(s, j4) { None => None, Some((note, j5)) => match sp_mem_at(s, j5, "season_notes"@, fuel) { None => None, Some(j6) => match sp_season_arr(s, j6, fuel) { None => None, Some((season_notes, j7)) => match sp_obj_end(s, j7, fuel) { None => None, Some(jend) => Some((UserSeriesV { series, user_rating: Rating { tenths: user_rating }, note, season_notes }, jend)) } } } } } } } } }
    }
}


pub open spec fn sp_user_series_items(s: Seq<char>, i: int, fuel: nat) -> Option<(Seq<UserSeriesV>, int)>
    decreases fuel,
{
    if fuel == 0 {
        None
    } else {
        match sp_user_series(s, i, fuel) {
            None => None,
            Some((x, j)) => {
                if j < s.len() && s[j] == ',' {
                    match sp_user_series_items(s, j + 1, (fuel - 1) as nat) {
                        None => None,
                        Some((xs, j2)) => Some((seq![x] + xs, j2)),
                    }
                } else if j < s.len() && s[j] == ']' {
                    Some((seq![x], j + 1))
                } else {
                    None
                }
            },
        }
    }
}

pub open spec fn sp_user_series_arr(s: Seq<char>, i: int, fuel: nat) -> Option<(Seq<UserSeriesV>, int)> {
    if !(0 <= i < s.len() && s[i] == '[') {
        None
    } else if i + 1 < s.len() && s[i + 1] == ']' {
        Some((Seq::<UserSeriesV>::empty(), i + 2))
    } else {
        sp_user_series_items(s, i + 1, fuel)
    }
}


#[verifier::opaque]
pub open spec fn sp_user_movie(s: Seq<char>, i: int, fuel: nat) -> Option<(UserMovieV, int)> {
    if !(0 <= i < s.len() && s[i] == '{') {
        None
    } else {
        match sp_member(s, i + 1, "movie"@, fuel) { None => None, Some(j0) => match sp_movie(s, j0, fuel) { None => None, Some((movie, j1)) => match sp_mem_at(s, j1, "user_rating"@, fuel) { None => None, Some(j2) => match sp_tenths(s, j2) { None => None, Some((user_rating, j3)) => match sp_mem_at(s, j3, "note"@, fuel) { None => None, Some(j4) => match sp_string(s, j4) { None => None, Some((note, j5)) => match sp_obj_end(s, j5, fuel) { None => None, Some(jend) => Some((UserMovieV { movie, user_rating: Rating { tenths: user_rating }, note }, jend)) } } } } } } }
    }
}


pub open spec fn sp_user_movie_items(s: Seq<char>, i: int, fuel: nat) -> Option<(Seq<UserMovieV>, int)>
    decreases fuel,
{
    if fuel == 0 {
        None
    } else {
        match sp_user_movie(s, i, fuel) {
            None => None,
            Some((x, j)) => {
                if j < s.len() && s[j] == ',' {
                    match sp_user_movie_items(s, j + 1, (fuel - 1) as nat) {
                        None => None,
                        Some((xs, j2)) => Some((seq![x] + xs, j2)),
                    }
                } else if j < s.len() && s[j] == ']' {
                    Some((seq![x], j + 1))
                } else {
                    None
                }
            },
        }
    }
}

pub open spec fn sp_user_movie_arr(s: Seq<char>, i: int, fuel: nat) -> Option<(Seq<UserMovieV>, int)> {
    if !(0 <= i < s.len() && s[i] == '[') {
        None
    } else if i + 1 < s.len() && s[i + 1] == ']' {
        Some((Seq::<UserMovieV>::empty(), i + 2))
    } else {
        sp_user_movie_items(s, i + 1, fuel)
    }
}



// ---------------------------------------------------------------------------
// Completeness of the record parsers on canonical encodings
// ---------------------------------------------------------------------------

#[verifier::rlimit(100)]
proof fn lemma_sp_series_enc_part0(s: Seq<char>, i: int, v: SeriesV, fuel: nat)
    requires
        fuel >= 1,
        0 <= i,
        i + enc_series(v).len() <= s.len(),
        s.subrange(i, i + enc_series(v).len()) == enc_series(v),
    ensures
        s[i] == '{',
        sp_member(s, i + 1, "id"@, fuel) == Some(i + 1 + enc_string("id"@).len() + 1),
        sp_u32(s, i + 1 + enc_string("id"@).len() + 1) == Some((v.id, i + 1 + enc_mem("id"@, enc_u32(v.id)).len())),
        sp_mem_at(s, i + 1 + enc_mem("id"@, enc_u32(v.id)).len(), "name"@, fuel) == Some(i + 1 + enc_mem("id"@, enc_u32(v.id)).len() + 2 + enc_string("name"@).len()),
        sp_string(s, i + 1 + enc_mem("id"@, enc_u32(v.id)).len() + 2 + enc_string("name"@).len()) == Some((v.name, i + 1 + enc_mem("id"@, enc_u32(v.id)).len() + enc_memc("name"@, enc_string(v.name)).len())),
        s.subrange(i + 1 + enc_mem("id"@, enc_u32(v.id)).len() + enc_memc("name"@, enc_string(v.name)).len(), i + enc_series(v).len()) == enc_memc("original_language"@, enc_string(v.original_language)) + (enc_memc("overview"@, enc_string(v.overview)) + (enc_memc("popularity"@, enc_tenths(v.popularity.tenths)) + (enc_memc("poster_path"@, enc_opt_string(v.poster_path)) + (enc_memc("first_air_date"@, enc_string(v.first_air_date)) + (enc_memc("vote_average"@, enc_tenths(v.vote_average.tenths)) + (seq!['}'])))))),
{
    reveal(enc_series);
    let m0 = enc_mem("id"@, enc_u32(v.id));
    let m1 = enc_memc("name"@, enc_string(v.name));
    let m2 = enc_memc("original_language"@, enc_string(v.original_language));
    let m3 = enc_memc("overview"@, enc_string(v.overview));
    let m4 = enc_memc("popularity"@, enc_tenths(v.popularity.tenths));
    let m5 = enc_memc("poster_path"@, enc_opt_string(v.poster_path));
    let m6 = enc_memc("first_air_date"@, enc_string(v.first_air_date));
    let m7 = enc_memc("vote_average"@, enc_tenths(v.vote_average.tenths));
    let r8 = seq!['}'];
    let r7 = m7 + r8;
    let r6 = m6 + r7;
    let r5 = m5 + r6;
    let r4 = m4 + r5;
    let r3 = m3 + r4;
    let r2 = m2 + r3;
    let r1 = m1 + r2;
    let r0 = m0 + r1;
    let p0 = i + 1;
    let p1 = p0 + m0.len();
    let p2 = p1 + m1.len();
    let p3 = p2 + m2.len();
    let p4 = p3 + m3.len();
    let p5 = p4 + m4.len();
    let p6 = p5 + m5.len();
    let p7 = p6 + m6.len();
    let p8 = p7 + m7.len();
    lemma_subrange_cat(s, i, seq!['{'], r0);
    assert(s.subrange(i, i + 1)[0] == '{');
    lemma_step_mem_head(s, p0, "id"@, enc_u32(v.id), r1, fuel);
    lemma_step_memc(s, p1, "name"@, enc_string(v.name), r2, fuel);
    lemma_step_memc(s, p2, "original_language"@, enc_string(v.original_language), r3, fuel);
    lemma_sp_u32_enc(s, p0 + enc_string("id"@).len() + 1, v.id);
    lemma_sp_string_enc(s, p1 + 2 + enc_string("name"@).len(), v.name);
}

#[verifier::rlimit(100)]
proof fn lemma_sp_series_enc_part1(s: Seq<char>, i: int, v: SeriesV, fuel: nat)
    requires
        fuel >= 1,
        0 <= i,
        i + enc_series(v).len() <= s.len(),
        s.subrange(i, i + enc_series(v).len()) == enc_series(v),
        s.subrange(i + 1 + enc_mem("id"@, enc_u32(v.id)).len() + enc_memc("name"@, enc_string(v.name)).len(), i + enc_series(v).len()) == enc_memc("original_language"@, enc_string(v.original_language)) + (enc_memc("overview"@, enc_string(v.overview)) + (enc_memc("popularity"@, enc_tenths(v.popularity.tenths)) + (enc_memc("poster_path"@, enc_opt_string(v.poster_path)) + (enc_memc("first_air_date"@, enc_string(v.first_air_date)) + (enc_memc("vote_average"@, enc_tenths(v.vote_average.tenths)) + (seq!['}'])))))),
    ensures
        sp_mem_at(s, i + 1 + enc_mem("id"@, enc_u32(v.id)).len() + enc_memc("name"@, enc_string(v.name)).len(), "original_language"@, fuel) == Some(i + 1 + enc_mem("id"@, enc_u32(v.id)).len() + enc_memc("name"@, enc_string(v.name)).len() + 2 + enc_string("original_language"@).len()),
        sp_string(s, i + 1 + enc_mem("id"@, enc_u32(v.id)).len() + enc_memc("name"@, enc_string(v.name)).len() + 2 + enc_string("original_language"@).len()) == Some((v.original_language, i + 1 + enc_mem("id"@, enc_u32(v.id)).len() + enc_memc("name"@, enc_string(v.name)).len() + enc_memc("original_language"@, enc_string(v.original_language)).len())),
        sp_mem_at(s, i + 1 + enc_mem("id"@, enc_u32(v.id)).len() + enc_memc("name"@, enc_string(v.name)).len() + enc_memc("original_language"@, enc_string(v.original_language)).len(), "overview"@, fuel) == Some(i + 1 + enc_mem("id"@, enc_u32(v.id)).len() + enc_memc("name"@, enc_string(v.name)).len() + enc_memc("original_language"@, enc_string(v.original_language)).len() + 2 + enc_string("overview"@).len()),
        sp_string(s, i + 1 + enc_mem("id"@, enc_u32(v.id)).len() + enc_memc("name"@, enc_string(v.name)).len() + enc_memc("original_language"@, enc_string(v.original_language)).len() + 2 + enc_string("overview"@).len()) == Some((v.overview, i + 1 + enc_mem("id"@, enc_u32(v.id)).len() + enc_memc("name"@, enc_string(v.name)).len() + enc_memc("original_language"@, enc_string(v.original_language)).len() + enc_memc("overview"@, enc_string(v.overview)).len())),
        s.subrange(i + 1 + enc_mem("id"@, enc_u32(v.id)).len() + enc_memc("name"@, enc_string(v.name)).len() + enc_memc("original_language"@, enc_string(v.original_language)).len() + enc_memc("overview"@, enc_string(v.overview)).len(), i + enc_series(v).len()) == enc_memc("popularity"@, enc_tenths(v.popularity.tenths)) + (enc_memc("poster_path"@, enc_opt_string(v.poster_path)) + (enc_memc("first_air_date"@, enc_string(v.first_air_date)) + (enc_memc("vote_average"@, enc_tenths(v.vote_average.tenths)) + (seq!['}'])))),
{
    reveal(enc_series);
    let m0 = enc_mem("id"@, enc_u32(v.id));
    let m1 = enc_memc("name"@, enc_string(v.name));
    let m2 = enc_memc("original_language"@, enc_string(v.original_language));
    let m3 = enc_memc("overview"@, enc_string(v.overview));
    let m4 = enc_memc("popularity"@, enc_tenths(v.popularity.tenths));
    let m5 = enc_memc("poster_path"@, enc_opt_string(v.poster_path));
    let m6 = enc_memc("first_air_date"@, enc_string(v.first_air_date));
    let m7 = enc_memc("vote_average"@, enc_tenths(v.vote_average.tenths));
    let r8 = seq!['}'];
    let r7 = m7 + r8;
    let r6 = m6 + r7;
    let r5 = m5 + r6;
    let r4 = m4 + r5;
    let r3 = m3 + r4;
    let r2 = m2 + r3;
    let r1 = m1 + r2;
    let r0 = m0 + r1;
    let p0 = i + 1;
    let p1 = p0 + m0.len();
    let p2 = p1 + m1.len();
    let p3 = p2 + m2.len();
    let p4 = p3 + m3.len();
    let p5 = p4 + m4.len();
    let p6 = p5 + m5.len();
    let p7 = p6 + m6.len();
    let p8 = p7 + m7.len();
    lemma_step_memc(s, p2, "original_language"@, enc_string(v.original_language), r3, fuel);
    lemma_step_memc(s, p3, "overview"@, enc_string(v.overview), r4, fuel);
    lemma_step_memc(s, p4, "popularity"@, enc_tenths(v.popularity.tenths), r5, fuel);
    lemma_sp_string_enc(s, p2 + 2 + enc_string("original_language"@).len(), v.original_language);
    lemma_sp_string_enc(s, p3 + 2 + enc_string("overview"@).len(), v.overview);
}

#[verifier::rlimit(100)]
proof fn lemma_sp_series_enc_part2(s: Seq<char>, i: int, v: SeriesV, fuel: nat)
    requires
        fuel >= 1,
        0 <= i,
        i + enc_series(v).len() <= s.len(),
        s.subrange(i, i + enc_series(v).len()) == enc_series(v),
        s.subrange(i + 1 + enc_mem("id"@, enc_u32(v.id)).len() + enc_memc("name"@, enc_string(v.name)).len() + enc_memc("original_language"@, enc_string(v.original_language)).len() + enc_memc("overview"@, enc_string(v.overview)).len(), i + enc_series(v).len()) == enc_memc("popularity"@, enc_tenths(v.popularity.tenths)) + (enc_memc("poster_path"@, enc_opt_string(v.poster_path)) + (enc_memc("first_air_date"@, enc_string(v.first_air_date)) + (enc_memc("vote_average"@, enc_tenths(v.vote_average.tenths)) + (seq!['}'])))),
    ensures
        sp_mem_at(s, i + 1 + enc_mem("id"@, enc_u32(v.id)).len() + enc_memc("name"@, enc_string(v.name)).len() + enc_memc("original_language"@, enc_string(v.original_language)).len() + enc_memc("overview"@, enc_string(v.overview)).len(), "popularity"@, fuel) == Some(i + 1 + enc_mem("id"@, enc_u32(v.id)).len() + enc_memc("name"@, enc_string(v.name)).len() + enc_memc("original_language"@, enc_string(v.original_language)).len() + enc_memc("overview"@, enc_string(v.overview)).len() + 2 + enc_string("popularity"@).len()),
        sp_tenths(s, i + 1 + enc_mem("id"@, enc_u32(v.id)).len() + enc_memc("name"@, enc_string(v.name)).len() + enc_memc("original_language"@, enc_string(v.original_language)).len() + enc_memc("overview"@, enc_string(v.overview)).len() + 2 + enc_string("popularity"@).len()) == Some((v.popularity.tenths, i + 1 + enc_mem("id"@, enc_u32(v.id)).len() + enc_memc("name"@, enc_string(v.name)).len() + enc_memc("original_language"@, enc_string(v.original_language)).len() + enc_memc("overview"@, enc_string(v.overview)).len() + enc_memc("popularity"@, enc_tenths(v.popularity.tenths)).len())),
        sp_mem_at(s, i + 1 + enc_mem("id"@, enc_u32(v.id)).len() + enc_memc("name"@, enc_string(v.name)).len() + enc_memc("original_language"@, enc_string(v.original_language)).len() + enc_memc("overview"@, enc_string(v.overview)).len() + enc_memc("popularity"@, enc_tenths(v.popularity.tenths)).len(), "poster_path"@, fuel) == Some(i + 1 + enc_mem("id"@, enc_u32(v.id)).len() + enc_memc("name"@, enc_string(v.name)).len() + enc_memc("original_language"@, enc_string(v.original_language)).len() + enc_memc("overview"@, enc_string(v.overview)).len() + enc_memc("popularity"@, enc_tenths(v.popularity.tenths)).len() + 2 + enc_string("poster_path"@).len()),
        sp_opt_string(s, i + 1 + enc_mem("id"@, enc_u32(v.id)).len() + enc_memc("name"@, enc_string(v.name)).len() + enc_memc("original_language"@, enc_string(v.original_language)).len() + enc_memc("overview"@, enc_string(v.overview)).len() + enc_memc("popularity"@, enc_tenths(v.popularity.tenths)).len() + 2 + enc_string("poster_path"@).len()) == Some((v.poster_path, i + 1 + enc_mem("id"@, enc_u32(v.id)).len() + enc_memc("name"@, enc_string(v.name)).len() + enc_memc("original_language"@, enc_string(v.original_language)).len() + enc_memc("overview"@, enc_string(v.overview)).len() + enc_memc("popularity"@, enc_tenths(v.popularity.tenths)).len() + enc_memc("poster_path"@, enc_opt_string(v.poster_path)).len())),
        s.subrange(i + 1 + enc_mem("id"@, enc_u32(v.id)).len() + enc_memc("name"@, enc_string(v.name)).len() + enc_memc("original_language"@, enc_string(v.original_language)).len() + enc_memc("overview"@, enc_string(v.overview)).len() + enc_memc("popularity"@, enc_tenths(v.popularity.tenths)).len() + enc_memc("poster_path"@, enc_opt_string(v.poster_path)).len(), i + enc_series(v).len()) == enc_memc("first_air_date"@, enc_string(v.first_air_date)) + (enc_memc("vote_average"@, enc_tenths(v.vote_average.tenths)) + (seq!['}'])),
{
    reveal(enc_series);
    let m0 = enc_mem("id"@, enc_u32(v.id));
    let m1 = enc_memc("name"@, enc_string(v.name));
    let m2 = enc_memc("original_language"@, enc_string(v.original_language));
    let m3 = enc_memc("overview"@, enc_string(v.overview));
    let m4 = enc_memc("popularity"@, enc_tenths(v.popularity.tenths));
    let m5 = enc_memc("poster_path"@, enc_opt_string(v.poster_path));
    let m6 = enc_memc("first_air_date"@, enc_string(v.first_air_date));
    let m7 = enc_memc("vote_average"@, enc_tenths(v.vote_average.tenths));
    let r8 = seq!['}'];
    let r7 = m7 + r8;
    let r6 = m6 + r7;
    let r5 = m5 + r6;
    let r4 = m4 + r5;
    let r3 = m3 + r4;
    let r2 = m2 + r3;
    let r1 = m1 + r2;
    let r0 = m0 + r1;
    let p0 = i + 1;
    let p1 = p0 + m0.len();
    let p2 = p1 + m1.len();
    let p3 = p2 + m2.len();
    let p4 = p3 + m3.len();
    let p5 = p4 + m4.len();
    let p6 = p5 + m5.len();
    let p7 = p6 + m6.len();
    let p8 = p7 + m7.len();
    lemma_step_memc(s, p4, "popularity"@, enc_tenths(v.popularity.tenths), r5, fuel);
    lemma_step_memc(s, p5, "poster_path"@, enc_opt_string(v.poster_path), r6, fuel);
    lemma_step_memc(s, p6, "first_air_date"@, enc_string(v.first_air_date), r7, fuel);
    lemma_sp_tenths_enc(s, p4 + 2 + enc_string("popularity"@).len(), v.popularity.tenths);
    lemma_sp_opt_string_enc(s, p5 + 2 + enc_string("poster_path"@).len(), v.poster_path);
}

#[verifier::rlimit(100)]
proof fn lemma_sp_series_enc_part3(s: Seq<char>, i: int, v: SeriesV, fuel: nat)
    requires
        fuel >= 1,
        0 <= i,
        i + enc_series(v).len() <= s.len(),
        s.subrange(i, i + enc_series(v).len()) == enc_series(v),
        s.subrange(i + 1 + enc_mem("id"@, enc_u32(v.id)).len() + enc_memc("name"@, enc_string(v.name)).len() + enc_memc("original_language"@, enc_string(v.original_language)).len() + enc_memc("overview"@, enc_string(v.overview)).len() + enc_memc("popularity"@, enc_tenths(v.popularity.tenths)).len() + enc_memc("poster_path"@, enc_opt_string(v.poster_path)).len(), i + enc_series(v).len()) == enc_memc("first_air_date"@, enc_string(v.first_air_date)) + (enc_memc("vote_average"@, enc_tenths(v.vote_average.tenths)) + (seq!['}'])),
    ensures
        sp_mem_at(s, i + 1 + enc_mem("id"@, enc_u32(v.id)).len() + enc_memc("name"@, enc_string(v.name)).len() + enc_memc("original_language"@, enc_string(v.original_language)).len() + enc_memc("overview"@, enc_string(v.overview)).len() + enc_memc("popularity"@, enc_tenths(v.popularity.tenths)).len() + enc_memc("poster_path"@, enc_opt_string(v.poster_path)).len(), "first_air_date"@, fuel) == Some(i + 1 + enc_mem("id"@, enc_u32(v.id)).len() + enc_memc("name"@, enc_string(v.name)).len() + enc_memc("original_language"@, enc_string(v.original_language)).len() + enc_memc("overview"@, enc_string(v.overview)).len() + enc_memc("popularity"@, enc_tenths(v.popularity.tenths)).len() + enc_memc("poster_path"@, enc_opt_string(v.poster_path)).len() + 2 + enc_string("first_air_date"@).len()),
        sp_string(s, i + 1 + enc_mem("id"@, enc_u32(v.id)).len() + enc_memc("name"@, enc_string(v.name)).len() + enc_memc("original_language"@, enc_string(v.original_language)).len() + enc_memc("overview"@, enc_string(v.overview)).len() + enc_memc("popularity"@, enc_tenths(v.popularity.tenths)).len() + enc_memc("poster_path"@, enc_opt_string(v.poster_path)).len() + 2 + enc_string("first_air_date"@).len()) == Some((v.first_air_date, i + 1 + enc_mem("id"@, enc_u32(v.id)).len() + enc_memc("name"@, enc_string(v.name)).len() + enc_memc("original_language"@, enc_string(v.original_language)).len() + enc_memc("overview"@, enc_string(v.overview)).len() + enc_memc("popularity"@, enc_tenths(v.popularity.tenths)).len() + enc_memc("poster_path"@, enc_opt_string(v.poster_path)).len() + enc_memc("first_air_date"@, enc_string(v.first_air_date)).len())),
        sp_mem_at(s, i + 1 + enc_mem("id"@, enc_u32(v.id)).len() + enc_memc("name"@, enc_string(v.name)).len() + enc_memc("original_language"@, enc_string(v.original_language)).len() + enc_memc("overview"@, enc_string(v.overview)).len() + enc_memc("popularity"@, enc_tenths(v.popularity.tenths)).len() + enc_memc("poster_path"@, enc_opt_string(v.poster_path)).len() + enc_memc("first_air_date"@, enc_string(v.first_air_date)).len(), "vote_average"@, fuel) == Some(i + 1 + enc_mem("id"@, enc_u32(v.id)).len() + enc_memc("name"@, enc_string(v.name)).len() + enc_memc("original_language"@, enc_string(v.original_language)).len() + enc_memc("overview"@, enc_string(v.overview)).len() + enc_memc("popularity"@, enc_tenths(v.popularity.tenths)).len() + enc_memc("poster_path"@, enc_opt_string(v.poster_path)).len() + enc_memc("first_air_date"@, enc_string(v.first_air_date)).len() + 2 + enc_string("vote_average"@).len()),
        sp_tenths(s, i + 1 + enc_mem("id"@, enc_u32(v.id)).len() + enc_memc("name"@, enc_string(v.name)).len() + enc_memc("original_language"@, enc_string(v.original_language)).len() + enc_memc("overview"@, enc_string(v.overview)).len() + enc_memc("popularity"@, enc_tenths(v.popularity.tenths)).len() + enc_memc("poster_path"@, enc_opt_string(v.poster_path)).len() + enc_memc("first_air_date"@, enc_string(v.first_air_date)).len() + 2 + enc_string("vote_average"@).len()) == Some((v.vote_average.tenths, i + 1 + enc_mem("id"@, enc_u32(v.id)).len() + enc_memc("name"@, enc_string(v.name)).len() + enc_memc("original_language"@, enc_string(v.original_language)).len() + enc_memc("overview"@, enc_string(v.overview)).len() + enc_memc("popularity"@, enc_tenths(v.popularity.tenths)).len() + enc_memc("poster_path"@, enc_opt_string(v.poster_path)).len() + enc_memc("first_air_date"@, enc_string(v.first_air_date)).len() + enc_memc("vote_average"@, enc_tenths(v.vote_average.tenths)).len())),
        sp_obj_end(s, i + 1 + enc_mem("id"@, enc_u32(v.id)).len() + enc_memc("name"@, enc_string(v.name)).len() + enc_memc("original_language"@, enc_string(v.original_language)).len() + enc_memc("overview"@, enc_string(v.overview)).len() + enc_memc("popularity"@, enc_tenths(v.popularity.tenths)).len() + enc_memc("poster_path"@, enc_opt_string(v.poster_path)).len() + enc_memc("first_air_date"@, enc_string(v.first_air_date)).len() + enc_memc("vote_average"@, enc_tenths(v.vote_average.tenths)).len(), fuel) == Some(i + enc_series(v).len()),
{
    reveal(enc_series);
    let m0 = enc_mem("id"@, enc_u32(v.id));
    let m1 = enc_memc("name"@, enc_string(v.name));
    let m2 = enc_memc("original_language"@, enc_string(v.original_language));
    let m3 = enc_memc("overview"@, enc_string(v.overview));
    let m4 = enc_memc("popularity"@, enc_tenths(v.popularity.tenths));
    let m5 = enc_memc("poster_path"@, enc_opt_string(v.poster_path));
    let m6 = enc_memc("first_air_date"@, enc_string(v.first_air_date));
    let m7 = enc_memc("vote_average"@, enc_tenths(v.vote_average.tenths));
    let r8 = seq!['}'];
    let r7 = m7 + r8;
    let r6 = m6 + r7;
    let r5 = m5 + r6;
    let r4 = m4 + r5;
    let r3 = m3 + r4;
    let r2 = m2 + r3;
    let r1 = m1 + r2;
    let r0 = m0 + r1;
    let p0 = i + 1;
    let p1 = p0 + m0.len();
    let p2 = p1 + m1.len();
    let p3 = p2 + m2.len();
    let p4 = p3 + m3.len();
    let p5 = p4 + m4.len();
    let p6 = p5 + m5.len();
    let p7 = p6 + m6.len();
    let p8 = p7 + m7.len();
    lemma_step_memc(s, p6, "first_air_date"@, enc_string(v.first_air_date), r7, fuel);
    lemma_step_memc(s, p7, "vote_average"@, enc_tenths(v.vote_average.tenths), r8, fuel);
    assert(s.subrange(p8, p8 + r8.len())[0] == '}');
    lemma_sp_string_enc(s, p6 + 2 + enc_string("first_air_date"@).len(), v.first_air_date);
    lemma_sp_tenths_enc(s, p7 + 2 + enc_string("vote_average"@).len(), v.vote_average.tenths);
    lemma_sp_obj_end_enc(s, p8, fuel);
}

#[verifier::rlimit(100)]
proof fn lemma_sp_series_tail_enc(s: Seq<char>, i: int, v: SeriesV, fuel: nat)
    requires
        fuel >= 1,
        0 <= i,
        i + enc_series(v).len() <= s.len(),
        s.subrange(i, i + enc_series(v).len()) == enc_series(v),
        s.subrange(i + 1 + enc_mem("id"@, enc_u32(v.id)).len() + enc_memc("name"@, enc_string(v.name)).len() + enc_memc("original_language"@, enc_string(v.original_language)).len() + enc_memc("overview"@, enc_string(v.overview)).len(), i + enc_series(v).len()) == enc_memc("popularity"@, enc_tenths(v.popularity.tenths)) + (enc_memc("poster_path"@, enc_opt_string(v.poster_path)) + (enc_memc("first_air_date"@, enc_string(v.first_air_date)) + (enc_memc("vote_average"@, enc_tenths(v.vote_average.tenths)) + (seq!['}'])))),
    ensures
        sp_series_tail(s, i + 1 + enc_mem("id"@, enc_u32(v.id)).len() + enc_memc("name"@, enc_string(v.name)).len() + enc_memc("original_language"@, enc_string(v.original_language)).len() + enc_memc("overview"@, enc_string(v.overview)).len(), fuel) == Some(((v.popularity.tenths, v.poster_path, v.first_air_date, v.vote_average.tenths), i + enc_series(v).len())),
{
    reveal(sp_series_tail);
    lemma_sp_series_enc_part2(s, i, v, fuel);
    lemma_sp_series_enc_part3(s, i, v, fuel);
}

/// A canonical series record parses back to its view.
#[verifier::rlimit(100)]
pub proof fn lemma_sp_series_enc(s: Seq<char>, i: int, v: SeriesV, fuel: nat)
    requires
        fuel >= 1,
        0 <= i,
        i + enc_series(v).len() <= s.len(),
        s.subrange(i, i + enc_series(v).len()) == enc_series(v),
    ensures
        sp_series(s, i, fuel) == Some((v, i + enc_series(v).len())),
{
    reveal(sp_series);
    lemma_sp_series_enc_part0(s, i, v, fuel);
    lemma_sp_series_enc_part1(s, i, v, fuel);
    lemma_sp_series_tail_enc(s, i, v, fuel);
}

#[verifier::rlimit(100)]
proof fn lemma_sp_movie_enc_part0(s: Seq<char>, i: int, v: MovieV, fuel: nat)
    requires
        fuel >= 1,
        0 <= i,
        i + enc_movie(v).len() <= s.len(),
        s.subrange(i, i + enc_movie(v).len()) == enc_movie(v),
    ensures
        s[i] == '{',
        sp_member(s, i + 1, "id"@, fuel) == Some(i + 1 + enc_string("id"@).len() + 1),
        sp_u32(s, i + 1 + enc_string("id"@).len() + 1) == Some((v.id, i + 1 + enc_mem("id"@, enc_u32(v.id)).len())),
        sp_mem_at(s, i + 1 + enc_mem("id"@, enc_u32(v.id)).len(), "title"@, fuel) == Some(i + 1 + enc_mem("id"@, enc_u32(v.id)).len() + 2 + enc_string("title"@).len()),
        sp_string(s, i + 1 + enc_mem("id"@, enc_u32(v.id)).len() + 2 + enc_string("title"@).len()) == Some((v.title, i + 1 + enc_mem("id"@, enc_u32(v.id)).len() + enc_memc("title"@, enc_string(v.title)).len())),
        s.subrange(i + 1 + enc_mem("id"@, enc_u32(v.id)).len() + enc_memc("title"@, enc_string(v.title)).len(), i + enc_movie(v).len()) == enc_memc("original_language"@, enc_string(v.original_language)) + (enc_memc("overview"@, enc_string(v.overview)) + (enc_memc("popularity"@, enc_tenths(v.popularity.tenths)) + (enc_memc("poster_path"@, enc_opt_string(v.poster_path)) + (enc_memc("release_date"@, enc_string(v.release_date)) + (enc_memc("vote_average"@, enc_tenths(v.vote_average.tenths)) + (enc_memc("vote_count"@, enc_u32(v.vote_count)) + (enc_memc("adult"@, enc_bool(v.adult)) + (seq!['}'])))))))),
{
    reveal(enc_movie);
    let m0 = enc_mem("id"@, enc_u32(v.id));
    let m1 = enc_memc("title"@, enc_string(v.title));
    let m2 = enc_memc("original_language"@, enc_string(v.original_language));
    let m3 = enc_memc("overview"@, enc_string(v.overview));
    let m4 = enc_memc("popularity"@, enc_tenths(v.popularity.tenths));
    let m5 = enc_memc("poster_path"@, enc_opt_string(v.poster_path));
    let m6 = enc_memc("release_date"@, enc_string(v.release_date));
    let m7 = enc_memc("vote_average"@, enc_tenths(v.vote_average.tenths));
    let m8 = enc_memc("vote_count"@, enc_u32(v.vote_count));
    let m9 = enc_memc("adult"@, enc_bool(v.adult));
    let r10 = seq!['}'];
    let r9 = m9 + r10;
    let r8 = m8 + r9;
    let r7 = m7 + r8;
    let r6 = m6 + r7;
    let r5 = m5 + r6;
    let r4 = m4 + r5;
    let r3 = m3 + r4;
    let r2 = m2 + r3;
    let r1 = m1 + r2;
    let r0 = m0 + r1;
    let p0 = i + 1;
    let p1 = p0 + m0.len();
    let p2 = p1 + m1.len();
    let p3 = p2 + m2.len();
    let p4 = p3 + m3.len();
    let p5 = p4 + m4.len();
    let p6 = p5 + m5.len();
    let p7 = p6 + m6.len();
    let p8 = p7 + m7.len();
    let p9 = p8 + m8.len();
    let p10 = p9 + m9.len();
    lemma_subrange_cat(s, i, seq!['{'], r0);
    assert(s.subrange(i, i + 1)[0] == '{');
    lemma_step_mem_head(s, p0, "id"@, enc_u32(v.id), r1, fuel);
    lemma_step_memc(s, p1, "title"@, enc_string(v.title), r2, fuel);
    lemma_step_memc(s, p2, "original_language"@, enc_string(v.original_language), r3, fuel);
    lemma_sp_u32_enc(s, p0 + enc_string("id"@).len() + 1, v.id);
    lemma_sp_string_enc(s, p1 + 2 + enc_string("title"@).len(), v.title);
}

#[verifier::rlimit(100)]
proof fn lemma_sp_movie_enc_part1(s: Seq<char>, i: int, v: MovieV, fuel: nat)
    requires
        fuel >= 1,
        0 <= i,
        i + enc_movie(v).len() <= s.len(),
        s.subrange(i, i + enc_movie(v).len()) == enc_movie(v),
        s.subrange(i + 1 + enc_mem("id"@, enc_u32(v.id)).len() + enc_memc("title"@, enc_string(v.title)).len(), i + enc_movie(v).len()) == enc_memc("original_language"@, enc_string(v.original_language)) + (enc_memc("overview"@, enc_string(v.overview)) + (enc_memc("popularity"@, enc_tenths(v.popularity.tenths)) + (enc_memc("poster_path"@, enc_opt_string(v.poster_path)) + (enc_memc("release_date"@, enc_string(v.release_date)) + (enc_memc("vote_average"@, enc_tenths(v.vote_average.tenths)) + (enc_memc("vote_count"@, enc_u32(v.vote_count)) + (enc_memc("adult"@, enc_bool(v.adult)) + (seq!['}'])))))))),
    ensures
        sp_mem_at(s, i + 1 + enc_mem("id"@, enc_u32(v.id)).len() + enc_memc("title"@, enc_string(v.title)).len(), "original_language"@, fuel) == Some(i + 1 + enc_mem("id"@, enc_u32(v.id)).len() + enc_memc("title"@, enc_string(v.title)).len() + 2 + enc_string("original_language"@).len()),
        sp_string(s, i + 1 + enc_mem("id"@, enc_u32(v.id)).len() + enc_memc("title"@, enc_string(v.title)).len() + 2 + enc_string("original_language"@).len()) == Some((v.original_language, i + 1 + enc_mem("id"@, enc_u32(v.id)).len() + enc_memc("title"@, enc_string(v.title)).len() + enc_memc("original_language"@, enc_string(v.original_language)).len())),
        sp_mem_at(s, i + 1 + enc_mem("id"@, enc_u32(v.id)).len() + enc_memc("title"@, enc_string(v.title)).len() + enc_memc("original_language"@, enc_string(v.original_language)).len(), "overview"@, fuel) == Some(i + 1 + enc_mem("id"@, enc_u32(v.id)).len() + enc_memc("title"@, enc_string(v.title)).len() + enc_memc("original_language"@, enc_string(v.original_language)).len() + 2 + enc_string("overview"@).len()),
        sp_string(s, i + 1 + enc_mem("id"@, enc_u32(v.id)).len() + enc_memc("title"@, enc_string(v.title)).len() + enc_memc("original_language"@, enc_string(v.original_language)).len() + 2 + enc_string("overview"@).len()) == Some((v.overview, i + 1 + enc_mem("id"@, enc_u32(v.id)).len() + enc_memc("title"@, enc_string(v.title)).len() + enc_memc("original_language"@, enc_string(v.original_language)).len() + enc_memc("overview"@, enc_string(v.overview)).len())),
        s.subrange(i + 1 + enc_mem("id"@, enc_u32(v.id)).len() + enc_memc("title"@, enc_string(v.title)).len() + enc_memc("original_language"@, enc_string(v.original_language)).len() + enc_memc("overview"@, enc_string(v.overview)).len(), i + enc_movie(v).len()) == enc_memc("popularity"@, enc_tenths(v.popularity.tenths)) + (enc_memc("poster_path"@, enc_opt_string(v.poster_path)) + (enc_memc("release_date"@, enc_string(v.release_date)) + (enc_memc("vote_average"@, enc_tenths(v.vote_average.tenths)) + (enc_memc("vote_count"@, enc_u32(v.vote_count)) + (enc_memc("adult"@, enc_bool(v.adult)) + (seq!['}'])))))),
{
    reveal(enc_movie);
    let m0 = enc_mem("id"@, enc_u32(v.id));
    let m1 = enc_memc("title"@, enc_string(v.title));
    let m2 = enc_memc("original_language"@, enc_string(v.original_language));
    let m3 = enc_memc("overview"@, enc_string(v.overview));
    let m4 = enc_memc("popularity"@, enc_tenths(v.popularity.tenths));
    let m5 = enc_memc("poster_path"@, enc_opt_string(v.poster_path));
    let m6 = enc_memc("release_date"@, enc_string(v.release_date));
    let m7 = enc_memc("vote_average"@, enc_tenths(v.vote_average.tenths));
    let m8 = enc_memc("vote_count"@, enc_u32(v.vote_count));
    let m9 = enc_memc("adult"@, enc_bool(v.adult));
    let r10 = seq!['}'];
    let r9 = m9 + r10;
    let r8 = m8 + r9;
    let r7 = m7 + r8;
    let r6 = m6 + r7;
    let r5 = m5 + r6;
    let r4 = m4 + r5;
    let r3 = m3 + r4;
    let r2 = m2 + r3;
    let r1 = m1 + r2;
    let r0 = m0 + r1;
    let p0 = i + 1;
    let p1 = p0 + m0.len();
    let p2 = p1 + m1.len();
    let p3 = p2 + m2.len();
    let p4 = p3 + m3.len();
    let p5 = p4 + m4.len();
    let p6 = p5 + m5.len();
    let p7 = p6 + m6.len();
    let p8 = p7 + m7.len();
    let p9 = p8 + m8.len();
    let p10 = p9 + m9.len();
    lemma_step_memc(s, p2, "original_language"@, enc_string(v.original_language), r3, fuel);
    lemma_step_memc(s, p3, "overview"@, enc_string(v.overview), r4, fuel);
    lemma_step_memc(s, p4, "popularity"@, enc_tenths(v.popularity.tenths), r5, fuel);
    lemma_sp_string_enc(s, p2 + 2 + enc_string("original_language"@).len(), v.original_language);
    lemma_sp_string_enc(s, p3 + 2 + enc_string("overview"@).len(), v.overview);
}

#[verifier::rlimit(100)]
proof fn lemma_sp_movie_enc_part2(s: Seq<char>, i: int, v: MovieV, fuel: nat)
    requires
        fuel >= 1,
        0 <= i,
        i + enc_movie(v).len() <= s.len(),
        s.subrange(i, i + enc_movie(v).len()) == enc_movie(v),
        s.subrange(i + 1 + enc_mem("id"@, enc_u32(v.id)).len() + enc_memc("title"@, enc_string(v.title)).len() + enc_memc("original_language"@, enc_string(v.original_language)).len() + enc_memc("overview"@, enc_string(v.overview)).len(), i + enc_movie(v).len()) == enc_memc("popularity"@, enc_tenths(v.popularity.tenths)) + (enc_memc("poster_path"@, enc_opt_string(v.poster_path)) + (enc_memc("release_date"@, enc_string(v.release_date)) + (enc_memc("vote_average"@, enc_tenths(v.vote_average.tenths)) + (enc_memc("vote_count"@, enc_u32(v.vote_count)) + (enc_memc("adult"@, enc_bool(v.adult)) + (seq!['}'])))))),
    ensures
        sp_mem_at(s, i + 1 + enc_mem("id"@, enc_u32(v.id)).len() + enc_memc("title"@, enc_string(v.title)).len() + enc_memc("original_language"@, enc_string(v.original_language)).len() + enc_memc("overview"@, enc_string(v.overview)).len(), "popularity"@, fuel) == Some(i + 1 + enc_mem("id"@, enc_u32(v.id)).len() + enc_memc("title"@, enc_string(v.title)).len() + enc_memc("original_language"@, enc_string(v.original_language)).len() + enc_memc("overview"@, enc_string(v.overview)).len() + 2 + enc_string("popularity"@).len()),
        sp_tenths(s, i + 1 + enc_mem("id"@, enc_u32(v.id)).len() + enc_memc("title"@, enc_string(v.title)).len() + enc_memc("original_language"@, enc_string(v.original_language)).len() + enc_memc("overview"@, enc_string(v.overview)).len() + 2 + enc_string("popularity"@).len()) == Some((v.popularity.tenths, i + 1 + enc_mem("id"@, enc_u32(v.id)).len() + enc_memc("title"@, enc_string(v.title)).len() + enc_memc("original_language"@, enc_string(v.original_language)).len() + enc_memc("overview"@, enc_string(v.overview)).len() + enc_memc("popularity"@, enc_tenths(v.popularity.tenths)).len())),
        sp_mem_at(s, i + 1 + enc_mem("id"@, enc_u32(v.id)).len() + enc_memc("title"@, enc_string(v.title)).len() + enc_memc("original_language"@, enc_string(v.original_language)).len() + enc_memc("overview"@, enc_string(v.overview)).len() + enc_memc("popularity"@, enc_tenths(v.popularity.tenths)).len(), "poster_path"@, fuel) == Some(i + 1 + enc_mem("id"@, enc_u32(v.id)).len() + enc_memc("title"@, enc_string(v.title)).len() + enc_memc("original_language"@, enc_string(v.original_language)).len() + enc_memc("overview"@, enc_string(v.overview)).len() + enc_memc("popularity"@, enc_tenths(v.popularity.tenths)).len() + 2 + enc_string("poster_path"@).len()),
        sp_opt_string(s, i + 1 + enc_mem("id"@, enc_u32(v.id)).len() + enc_memc("title"@, enc_string(v.title)).len() + enc_memc("original_language"@, enc_string(v.original_language)).len() + enc_memc("overview"@, enc_string(v.overview)).len() + enc_memc("popularity"@, enc_tenths(v.popularity.tenths)).len() + 2 + enc_string("poster_path"@).len()) == Some((v.poster_path, i + 1 + enc_mem("id"@, enc_u32(v.id)).len() + enc_memc("title"@, enc_string(v.title)).len() + enc_memc("original_language"@, enc_string(v.original_language)).len() + enc_memc("overview"@, enc_string(v.overview)).len() + enc_memc("popularity"@, enc_tenths(v.popularity.tenths)).len() + enc_memc("poster_path"@, enc_opt_string(v.poster_path)).len())),
        s.subrange(i + 1 + enc_mem("id"@, enc_u32(v.id)).len() + enc_memc("title"@, enc_string(v.title)).len() + enc_memc("original_language"@, enc_string(v.original_language)).len() + enc_memc("overview"@, enc_string(v.overview)).len() + enc_memc("popularity"@, enc_tenths(v.popularity.tenths)).len() + enc_memc("poster_path"@, enc_opt_string(v.poster_path)).len(), i + enc_movie(v).len()) == enc_memc("release_date"@, enc_string(v.release_date)) + (enc_memc("vote_average"@, enc_tenths(v.vote_average.tenths)) + (enc_memc("vote_count"@, enc_u32(v.vote_count)) + (enc_memc("adult"@, enc_bool(v.adult)) + (seq!['}'])))),
{
    reveal(enc_movie);
    let m0 = enc_mem("id"@, enc_u32(v.id));
    let m1 = enc_memc("title"@, enc_string(v.title));
    let m2 = enc_memc("original_language"@, enc_string(v.original_language));
    let m3 = enc_memc("overview"@, enc_string(v.overview));
    let m4 = enc_memc("popularity"@, enc_tenths(v.popularity.tenths));
    let m5 = enc_memc("poster_path"@, enc_opt_string(v.poster_path));
    let m6 = enc_memc("release_date"@, enc_string(v.release_date));
    let m7 = enc_memc("vote_average"@, enc_tenths(v.vote_average.tenths));
    let m8 = enc_memc("vote_count"@, enc_u32(v.vote_count));
    let m9 = enc_memc("adult"@, enc_bool(v.adult));
    let r10 = seq!['}'];
    let r9 = m9 + r10;
    let r8 = m8 + r9;
    let r7 = m7 + r8;
    let r6 = m6 + r7;
    let r5 = m5 + r6;
    let r4 = m4 + r5;
    let r3 = m3 + r4;
    let r2 = m2 + r3;
    let r1 = m1 + r2;
    let r0 = m0 + r1;
    let p0 = i + 1;
    let p1 = p0 + m0.len();
    let p2 = p1 + m1.len();
    let p3 = p2 + m2.len();
    let p4 = p3 + m3.len();
    let p5 = p4 + m4.len();
    let p6 = p5 + m5.len();
    let p7 = p6 + m6.len();
    let p8 = p7 + m7.len();
    let p9 = p8 + m8.len();
    let p10 = p9 + m9.len();
    lemma_step_memc(s, p4, "popularity"@, enc_tenths(v.popularity.tenths), r5, fuel);
    lemma_step_memc(s, p5, "poster_path"@, enc_opt_string(v.poster_path), r6, fuel);
    lemma_step_memc(s, p6, "release_date"@, enc_string(v.release_date), r7, fuel);
    lemma_sp_tenths_enc(s, p4 + 2 + enc_string("popularity"@).len(), v.popularity.tenths);
    lemma_sp_opt_string_enc(s, p5 + 2 + enc_string("poster_path"@).len(), v.poster_path);
}

#[verifier::rlimit(100)]
proof fn lemma_sp_movie_enc_part3(s: Seq<char>, i: int, v: MovieV, fuel: nat)
    requires
        fuel >= 1,
        0 <= i,
        i + enc_movie(v).len() <= s.len(),
        s.subrange(i, i + enc_movie(v).len()) == enc_movie(v),
        s.subrange(i + 1 + enc_mem("id"@, enc_u32(v.id)).len() + enc_memc("title"@, enc_string(v.title)).len() + enc_memc("original_language"@, enc_string(v.original_language)).len() + enc_memc("overview"@, enc_string(v.overview)).len() + enc_memc("popularity"@, enc_tenths(v.popularity.tenths)).len() + enc_memc("poster_path"@, enc_opt_string(v.poster_path)).len(), i + enc_movie(v).len()) == enc_memc("release_date"@, enc_string(v.release_date)) + (enc_memc("vote_average"@, enc_tenths(v.vote_average.tenths)) + (enc_memc("vote_count"@, enc_u32(v.vote_count)) + (enc_memc("adult"@, enc_bool(v.adult)) + (seq!['}'])))),
    ensures
        sp_mem_at(s, i + 1 + enc_mem("id"@, enc_u32(v.id)).len() + enc_memc("title"@, enc_string(v.title)).len() + enc_memc("original_language"@, enc_string(v.original_language)).len() + enc_memc("overview"@, enc_string(v.overview)).len() + enc_memc("popularity"@, enc_tenths(v.popularity.tenths)).len() + enc_memc("poster_path"@, enc_opt_string(v.poster_path)).len(), "release_date"@, fuel) == Some(i + 1 + enc_mem("id"@, enc_u32(v.id)).len() + enc_memc("title"@, enc_string(v.title)).len() + enc_memc("original_language"@, enc_string(v.original_language)).len() + enc_memc("overview"@, enc_string(v.overview)).len() + enc_memc("popularity"@, enc_tenths(v.popularity.tenths)).len() + enc_memc("poster_path"@, enc_opt_string(v.poster_path)).len() + 2 + enc_string("release_date"@).len()),
        sp_string(s, i + 1 + enc_mem("id"@, enc_u32(v.id)).len() + enc_memc("title"@, enc_string(v.title)).len() + enc_memc("original_language"@, enc_string(v.original_language)).len() + enc_memc("overview"@, enc_string(v.overview)).len() + enc_memc("popularity"@, enc_tenths(v.popularity.tenths)).len() + enc_memc("poster_path"@, enc_opt_string(v.poster_path)).len() + 2 + enc_string("release_date"@).len()) == Some((v.release_date, i + 1 + enc_mem("id"@, enc_u32(v.id)).len() + enc_memc("title"@, enc_string(v.title)).len() + enc_memc("original_language"@, enc_string(v.original_language)).len() + enc_memc("overview"@, enc_string(v.overview)).len() + enc_memc("popularity"@, enc_tenths(v.popularity.tenths)).len() + enc_memc("poster_path"@, enc_opt_string(v.poster_path)).len() + enc_memc("release_date"@, enc_string(v.release_date)).len())),
        s.subrange(i + 1 + enc_mem("id"@, enc_u32(v.id)).len() + enc_memc("title"@, enc_string(v.title)).len() + enc_memc("original_language"@, enc_string(v.original_language)).len() + enc_memc("overview"@, enc_string(v.overview)).len() + enc_memc("popularity"@, enc_tenths(v.popularity.tenths)).len() + enc_memc("poster_path"@, enc_opt_string(v.poster_path)).len() + enc_memc("release_date"@, enc_string(v.release_date)).len(), i + enc_movie(v).len()) == enc_memc("vote_average"@, enc_tenths(v.vote_average.tenths)) + (enc_memc("vote_count"@, enc_u32(v.vote_count)) + (enc_memc("adult"@, enc_bool(v.adult)) + (seq!['}']))),
{
    reveal(enc_movie);
    let m0 = enc_mem("id"@, enc_u32(v.id));
    let m1 = enc_memc("title"@, enc_string(v.title));
    let m2 = enc_memc("original_language"@, enc_string(v.original_language));
    let m3 = enc_memc("overview"@, enc_string(v.overview));
    let m4 = enc_memc("popularity"@, enc_tenths(v.popularity.tenths));
    let m5 = enc_memc("poster_path"@, enc_opt_string(v.poster_path));
    let m6 = enc_memc("release_date"@, enc_string(v.release_date));
    let m7 = enc_memc("vote_average"@, enc_tenths(v.vote_average.tenths));
    let m8 = enc_memc("vote_count"@, enc_u32(v.vote_count));
    let m9 = enc_memc("adult"@, enc_bool(v.adult));
    let r10 = seq!['}'];
    let r9 = m9 + r10;
    let r8 = m8 + r9;
    let r7 = m7 + r8;
    let r6 = m6 + r7;
    let r5 = m5 + r6;
    let r4 = m4 + r5;
    let r3 = m3 + r4;
    let r2 = m2 + r3;
    let r1 = m1 + r2;
    let r0 = m0 + r1;
    let p0 = i + 1;
    let p1 = p0 + m0.len();
    let p2 = p1 + m1.len();
    let p3 = p2 + m2.len();
    let p4 = p3 + m3.len();
    let p5 = p4 + m4.len();
    let p6 = p5 + m5.len();
    let p7 = p6 + m6.len();
    let p8 = p7 + m7.len();
    let p9 = p8 + m8.len();
    let p10 = p9 + m9.len();
    lemma_step_memc(s, p6, "release_date"@, enc_string(v.release_date), r7, fuel);
    lemma_step_memc(s, p7, "vote_average"@, enc_tenths(v.vote_average.tenths), r8, fuel);
    lemma_sp_string_enc(s, p6 + 2 + enc_string("release_date"@).len(), v.release_date);
}

#[verifier::rlimit(100)]
proof fn lemma_sp_movie_enc_part4(s: Seq<char>, i: int, v: MovieV, fuel: nat)
    requires
        fuel >= 1,
        0 <= i,
        i + enc_movie(v).len() <= s.len(),
        s.subrange(i, i + enc_movie(v).len()) == enc_movie(v),
        s.subrange(i + 1 + enc_mem("id"@, enc_u32(v.id)).len() + enc_memc("title"@, enc_string(v.title)).len() + enc_memc("original_language"@, enc_string(v.original_language)).len() + enc_memc("overview"@, enc_string(v.overview)).len() + enc_memc("popularity"@, enc_tenths(v.popularity.tenths)).len() + enc_memc("poster_path"@, enc_opt_string(v.poster_path)).len() + enc_memc("release_date"@, enc_string(v.release_date)).len(), i + enc_movie(v).len()) == enc_memc("vote_average"@, enc_tenths(v.vote_average.tenths)) + (enc_memc("vote_count"@, enc_u32(v.vote_count)) + (enc_memc("adult"@, enc_bool(v.adult)) + (seq!['}']))),
    ensures
        sp_mem_at(s, i + 1 + enc_mem("id"@, enc_u32(v.id)).len() + enc_memc("title"@, enc_string(v.title)).len() + enc_memc("original_language"@, enc_string(v.original_language)).len() + enc_memc("overview"@, enc_string(v.overview)).len() + enc_memc("popularity"@, enc_tenths(v.popularity.tenths)).len() + enc_memc("poster_path"@, enc_opt_string(v.poster_path)).len() + enc_memc("release_date"@, enc_string(v.release_date)).len(), "vote_average"@, fuel) == Some(i + 1 + enc_mem("id"@, enc_u32(v.id)).len() + enc_memc("title"@, enc_string(v.title)).len() + enc_memc("original_language"@, enc_string(v.original_language)).len() + enc_memc("overview"@, enc_string(v.overview)).len() + enc_memc("popularity"@, enc_tenths(v.popularity.tenths)).len() + enc_memc("poster_path"@, enc_opt_string(v.poster_path)).len() + enc_memc("release_date"@, enc_string(v.release_date)).len() + 2 + enc_string("vote_average"@).len()),
        sp_tenths(s, i + 1 + enc_mem("id"@, enc_u32(v.id)).len() + enc_memc("title"@, enc_string(v.title)).len() + enc_memc("original_language"@, enc_string(v.original_language)).len() + enc_memc("overview"@, enc_string(v.overview)).len() + enc_memc("popularity"@, enc_tenths(v.popularity.tenths)).len() + enc_memc("poster_path"@, enc_opt_string(v.poster_path)).len() + enc_memc("release_date"@, enc_string(v.release_date)).len() + 2 + enc_string("vote_average"@).len()) == Some((v.vote_average.tenths, i + 1 + enc_mem("id"@, enc_u32(v.id)).len() + enc_memc("title"@, enc_string(v.title)).len() + enc_memc("original_language"@, enc_string(v.original_language)).len() + enc_memc("overview"@, enc_string(v.overview)).len() + enc_memc("popularity"@, enc_tenths(v.popularity.tenths)).len() + enc_memc("poster_path"@, enc_opt_string(v.poster_path)).len() + enc_memc("release_date"@, enc_string(v.release_date)).len() + enc_memc("vote_average"@, enc_tenths(v.vote_average.tenths)).len())),
        sp_mem_at(s, i + 1 + enc_mem("id"@, enc_u32(v.id)).len() + enc_memc("title"@, enc_string(v.title)).len() + enc_memc("original_language"@, enc_string(v.original_language)).len() + enc_memc("overview"@, enc_string(v.overview)).len() + enc_memc("popularity"@, enc_tenths(v.popularity.tenths)).len() + enc_memc("poster_path"@, enc_opt_string(v.poster_path)).len() + enc_memc("release_date"@, enc_string(v.release_date)).len() + enc_memc("vote_average"@, enc_tenths(v.vote_average.tenths)).len(), "vote_count"@, fuel) == Some(i + 1 + enc_mem("id"@, enc_u32(v.id)).len() + enc_memc("title"@, enc_string(v.title)).len() + enc_memc("original_language"@, enc_string(v.original_language)).len() + enc_memc("overview"@, enc_string(v.overview)).len() + enc_memc("popularity"@, enc_tenths(v.popularity.tenths)).len() + enc_memc("poster_path"@, enc_opt_string(v.poster_path)).len() + enc_memc("release_date"@, enc_string(v.release_date)).len() + enc_memc("vote_average"@, enc_tenths(v.vote_average.tenths)).len() + 2 + enc_string("vote_count"@).len()),
        sp_u32(s, i + 1 + enc_mem("id"@, enc_u32(v.id)).len() + enc_memc("title"@, enc_string(v.title)).len() + enc_memc("original_language"@, enc_string(v.original_language)).len() + enc_memc("overview"@, enc_string(v.overview)).len() + enc_memc("popularity"@, enc_tenths(v.popularity.tenths)).len() + enc_memc("poster_path"@, enc_opt_string(v.poster_path)).len() + enc_memc("release_date"@, enc_string(v.release_date)).len() + enc_memc("vote_average"@, enc_tenths(v.vote_average.tenths)).len() + 2 + enc_string("vote_count"@).len()) == Some((v.vote_count, i + 1 + enc_mem("id"@, enc_u32(v.id)).len() + enc_memc("title"@, enc_string(v.title)).len() + enc_memc("original_language"@, enc_string(v.original_language)).len() + enc_memc("overview"@, enc_string(v.overview)).len() + enc_memc("popularity"@, enc_tenths(v.popularity.tenths)).len() + enc_memc("poster_path"@, enc_opt_string(v.poster_path)).len() + enc_memc("release_date"@, enc_string(v.release_date)).len() + enc_memc("vote_average"@, enc_tenths(v.vote_average.tenths)).len() + enc_memc("vote_count"@, enc_u32(v.vote_count)).len())),
        s.subrange(i + 1 + enc_mem("id"@, enc_u32(v.id)).len() + enc_memc("title"@, enc_string(v.title)).len() + enc_memc("original_language"@, enc_string(v.original_language)).len() + enc_memc("overview"@, enc_string(v.overview)).len() + enc_memc("popularity"@, enc_tenths(v.popularity.tenths)).len() + enc_memc("poster_path"@, enc_opt_string(v.poster_path)).len() + enc_memc("release_date"@, enc_string(v.release_date)).len() + enc_memc("vote_average"@, enc_tenths(v.vote_average.tenths)).len() + enc_memc("vote_count"@, enc_u32(v.vote_count)).len(), i + enc_movie(v).len()) == enc_memc("adult"@, enc_bool(v.adult)) + (seq!['}']),
{
    reveal(enc_movie);
    let m0 = enc_mem("id"@, enc_u32(v.id));
    let m1 = enc_memc("title"@, enc_string(v.title));
    let m2 = enc_memc("original_language"@, enc_string(v.original_language));
    let m3 = enc_memc("overview"@, enc_string(v.overview));
    let m4 = enc_memc("popularity"@, enc_tenths(v.popularity.tenths));
    let m5 = enc_memc("poster_path"@, enc_opt_string(v.poster_path));
    let m6 = enc_memc("release_date"@, enc_string(v.release_date));
    let m7 = enc_memc("vote_average"@, enc_tenths(v.vote_average.tenths));
    let m8 = enc_memc("vote_count"@, enc_u32(v.vote_count));
    let m9 = enc_memc("adult"@, enc_bool(v.adult));
    let r10 = seq!['}'];
    let r9 = m9 + r10;
    let r8 = m8 + r9;
    let r7 = m7 + r8;
    let r6 = m6 + r7;
    let r5 = m5 + r6;
    let r4 = m4 + r5;
    let r3 = m3 + r4;
    let r2 = m2 + r3;
    let r1 = m1 + r2;
    let r0 = m0 + r1;
    let p0 = i + 1;
    let p1 = p0 + m0.len();
    let p2 = p1 + m1.len();
    let p3 = p2 + m2.len();
    let p4 = p3 + m3.len();
    let p5 = p4 + m4.len();
    let p6 = p5 + m5.len();
    let p7 = p6 + m6.len();
    let p8 = p7 + m7.len();
    let p9 = p8 + m8.len();
    let p10 = p9 + m9.len();
    lemma_step_memc(s, p7, "vote_average"@, enc_tenths(v.vote_average.tenths), r8, fuel);
    lemma_step_memc(s, p8, "vote_count"@, enc_u32(v.vote_count), r9, fuel);
    lemma_step_memc(s, p9, "adult"@, enc_bool(v.adult), r10, fuel);
    lemma_sp_tenths_enc(s, p7 + 2 + enc_string("vote_average"@).len(), v.vote_average.tenths);
    lemma_sp_u32_enc(s, p8 + 2 + enc_string("vote_count"@).len(), v.vote_count);
}

#[verifier::rlimit(100)]
proof fn lemma_sp_movie_enc_part5(s: Seq<char>, i: int, v: MovieV, fuel: nat)
    requires
        fuel >= 1,
        0 <= i,
        i + enc_movie(v).len() <= s.len(),
        s.subrange(i, i + enc_movie(v).len()) == enc_movie(v),
        s.subrange(i + 1 + enc_mem("id"@, enc_u32(v.id)).len() + enc_memc("title"@, enc_string(v.title)).len() + enc_memc("original_language"@, enc_string(v.original_language)).len() + enc_memc("overview"@, enc_string(v.overview)).len() + enc_memc("popularity"@, enc_tenths(v.popularity.tenths)).len() + enc_memc("poster_path"@, enc_opt_string(v.poster_path)).len() + enc_memc("release_date"@, enc_string(v.release_date)).len() + enc_memc("vote_average"@, enc_tenths(v.vote_average.tenths)).len() + enc_memc("vote_count"@, enc_u32(v.vote_count)).len(), i + enc_movie(v).len()) == enc_memc("adult"@, enc_bool(v.adult)) + (seq!['}']),
    ensures
        sp_mem_at(s, i + 1 + enc_mem("id"@, enc_u32(v.id)).len() + enc_memc("title"@, enc_string(v.title)).len() + enc_memc("original_language"@, enc_string(v.original_language)).len() + enc_memc("overview"@, enc_string(v.overview)).len() + enc_memc("popularity"@, enc_tenths(v.popularity.tenths)).len() + enc_memc("poster_path"@, enc_opt_string(v.poster_path)).len() + enc_memc("release_date"@, enc_string(v.release_date)).len() + enc_memc("vote_average"@, enc_tenths(v.vote_average.tenths)).len() + enc_memc("vote_count"@, enc_u32(v.vote_count)).len(), "adult"@, fuel) == Some(i + 1 + enc_mem("id"@, enc_u32(v.id)).len() + enc_memc("title"@, enc_string(v.title)).len() + enc_memc("original_language"@, enc_string(v.original_language)).len() + enc_memc("overview"@, enc_string(v.overview)).len() + enc_memc("popularity"@, enc_tenths(v.popularity.tenths)).len() + enc_memc("poster_path"@, enc_opt_string(v.poster_path)).len() + enc_memc("release_date"@, enc_string(v.release_date)).len() + enc_memc("vote_average"@, enc_tenths(v.vote_average.tenths)).len() + enc_memc("vote_count"@, enc_u32(v.vote_count)).len() + 2 + enc_string("adult"@).len()),
        sp_bool(s, i + 1 + enc_mem("id"@, enc_u32(v.id)).len() + enc_memc("title"@, enc_string(v.title)).len() + enc_memc("original_language"@, enc_string(v.original_language)).len() + enc_memc("overview"@, enc_string(v.overview)).len() + enc_memc("popularity"@, enc_tenths(v.popularity.tenths)).len() + enc_memc("poster_path"@, enc_opt_string(v.poster_path)).len() + enc_memc("release_date"@, enc_string(v.release_date)).len() + enc_memc("vote_average"@, enc_tenths(v.vote_average.tenths)).len() + enc_memc("vote_count"@, enc_u32(v.vote_count)).len() + 2 + enc_string("adult"@).len()) == Some((v.adult, i + 1 + enc_mem("id"@, enc_u32(v.id)).len() + enc_memc("title"@, enc_string(v.title)).len() + enc_memc("original_language"@, enc_string(v.original_language)).len() + enc_memc("overview"@, enc_string(v.overview)).len() + enc_memc("popularity"@, enc_tenths(v.popularity.tenths)).len() + enc_memc("poster_path"@, enc_opt_string(v.poster_path)).len() + enc_memc("release_date"@, enc_string(v.release_date)).len() + enc_memc("vote_average"@, enc_tenths(v.vote_average.tenths)).len() + enc_memc("vote_count"@, enc_u32(v.vote_count)).len() + enc_memc("adult"@, enc_bool(v.adult)).len())),
        sp_obj_end(s, i + 1 + enc_mem("id"@, enc_u32(v.id)).len() + enc_memc("title"@, enc_string(v.title)).len() + enc_memc("original_language"@, enc_string(v.original_language)).len() + enc_memc("overview"@, enc_string(v.overview)).len() + enc_memc("popularity"@, enc_tenths(v.popularity.tenths)).len() + enc_memc("poster_path"@, enc_opt_string(v.poster_path)).len() + enc_memc("release_date"@, enc_string(v.release_date)).len() + enc_memc("vote_average"@, enc_tenths(v.vote_average.tenths)).len() + enc_memc("vote_count"@, enc_u32(v.vote_count)).len() + enc_memc("adult"@, enc_bool(v.adult)).len(), fuel) == Some(i + enc_movie(v).len()),
{
    reveal(enc_movie);
    let m0 = enc_mem("id"@, enc_u32(v.id));
    let m1 = enc_memc("title"@, enc_string(v.title));
    let m2 = enc_memc("original_language"@, enc_string(v.original_language));
    let m3 = enc_memc("overview"@, enc_string(v.overview));
    let m4 = enc_memc("popularity"@, enc_tenths(v.popularity.tenths));
    let m5 = enc_memc("poster_path"@, enc_opt_string(v.poster_path));
    let m6 = enc_memc("release_date"@, enc_string(v.release_date));
    let m7 = enc_memc("vote_average"@, enc_tenths(v.vote_average.tenths));
    let m8 = enc_memc("vote_count"@, enc_u32(v.vote_count));
    let m9 = enc_memc("adult"@, enc_bool(v.adult));
    let r10 = seq!['}'];
    let r9 = m9 + r10;
    let r8 = m8 + r9;
    let r7 = m7 + r8;
    let r6 = m6 + r7;
    let r5 = m5 + r6;
    let r4 = m4 + r5;
    let r3 = m3 + r4;
    let r2 = m2 + r3;
    let r1 = m1 + r2;
    let r0 = m0 + r1;
    let p0 = i + 1;
    let p1 = p0 + m0.len();
    let p2 = p1 + m1.len();
    let p3 = p2 + m2.len();
    let p4 = p3 + m3.len();
    let p5 = p4 + m4.len();
    let p6 = p5 + m5.len();
    let p7 = p6 + m6.len();
    let p8 = p7 + m7.len();
    let p9 = p8 + m8.len();
    let p10 = p9 + m9.len();
    lemma_step_memc(s, p9, "adult"@, enc_bool(v.adult), r10, fuel);
    assert(s.subrange(p10, p10 + r10.len())[0] == '}');
    lemma_sp_bool_enc(s, p9 + 2 + enc_string("adult"@).len(), v.adult);
    lemma_sp_obj_end_enc(s, p10, fuel);
}

#[verifier::rlimit(100)]
proof fn lemma_sp_movie_tail_enc(s: Seq<char>, i: int, v: MovieV, fuel: nat)
    requires
        fuel >= 1,
        0 <= i,
        i + enc_movie(v).len() <= s.len(),
        s.subrange(i, i + enc_movie(v).len()) == enc_movie(v),
        s.subrange(i + 1 + enc_mem("id"@, enc_u32(v.id)).len() + enc_memc("title"@, enc_string(v.title)).len() + enc_memc("original_language"@, enc_string(v.original_language)).len() + enc_memc("overview"@, enc_string(v.overview)).len() + enc_memc("popularity"@, enc_tenths(v.popularity.tenths)).len() + enc_memc("poster_path"@, enc_opt_string(v.poster_path)).len() + enc_memc("release_date"@, enc_string(v.release_date)).len(), i + enc_movie(v).len()) == enc_memc("vote_average"@, enc_tenths(v.vote_average.tenths)) + (enc_memc("vote_count"@, enc_u32(v.vote_count)) + (enc_memc("adult"@, enc_bool(v.adult)) + (seq!['}']))),
    ensures
        sp_movie_tail(s, i + 1 + enc_mem("id"@, enc_u32(v.id)).len() + enc_memc("title"@, enc_string(v.title)).len() + enc_memc("original_language"@, enc_string(v.original_language)).len() + enc_memc("overview"@, enc_string(v.overview)).len() + enc_memc("popularity"@, enc_tenths(v.popularity.tenths)).len() + enc_memc("poster_path"@, enc_opt_string(v.poster_path)).len() + enc_memc("release_date"@, enc_string(v.release_date)).len(), fuel) == Some(((v.vote_average.tenths, v.vote_count, v.adult), i + enc_movie(v).len())),
{
    reveal(sp_movie_tail);
    lemma_sp_movie_enc_part4(s, i, v, fuel);
    lemma_sp_movie_enc_part5(s, i, v, fuel);
}

#[verifier::rlimit(100)]
proof fn lemma_sp_movie_mid_enc(s: Seq<char>, i: int, v: MovieV, fuel: nat)
    requires
        fuel >= 1,
        0 <= i,
        i + enc_movie(v).len() <= s.len(),
        s.subrange(i, i + enc_movie(v).len()) == enc_movie(v),
        s.subrange(i + 1 + enc_mem("id"@, enc_u32(v.id)).len() + enc_memc("title"@, enc_string(v.title)).len() + enc_memc("original_language"@, enc_string(v.original_language)).len() + enc_memc("overview"@, enc_string(v.overview)).len(), i + enc_movie(v).len()) == enc_memc("popularity"@, enc_tenths(v.popularity.tenths)) + (enc_memc("poster_path"@, enc_opt_string(v.poster_path)) + (enc_memc("release_date"@, enc_string(v.release_date)) + (enc_memc("vote_average"@, enc_tenths(v.vote_average.tenths)) + (enc_memc("vote_count"@, enc_u32(v.vote_count)) + (enc_memc("adult"@, enc_bool(v.adult)) + (seq!['}'])))))),
    ensures
        sp_movie_mid(s, i + 1 + enc_mem("id"@, enc_u32(v.id)).len() + enc_memc("title"@, enc_string(v.title)).len() + enc_memc("original_language"@, enc_string(v.original_language)).len() + enc_memc("overview"@, enc_string(v.overview)).len(), fuel) == Some(((v.popularity.tenths, v.poster_path, v.release_date, v.vote_average.tenths, v.vote_count, v.adult), i + enc_movie(v).len())),
{
    reveal(sp_movie_mid);
    lemma_sp_movie_enc_part2(s, i, v, fuel);
    lemma_sp_movie_enc_part3(s, i, v, fuel);
    lemma_sp_movie_tail_enc(s, i, v, fuel);
}

/// A canonical movie record parses back to its view.
#[verifier::rlimit(100)]
pub proof fn lemma_sp_movie_enc(s: Seq<char>, i: int, v: MovieV, fuel: nat)
    requires
        fuel >= 1,
        0 <= i,
        i + enc_movie(v).len() <= s.len(),
        s.subrange(i, i + enc_movie(v).len()) == enc_movie(v),
    ensures
        sp_movie(s, i, fuel) == Some((v, i + enc_movie(v).len())),
{
    reveal(sp_movie);
    lemma_sp_movie_enc_part0(s, i, v, fuel);
    lemma_sp_movie_enc_part1(s, i, v, fuel);
    lemma_sp_movie_mid_enc(s, i, v, fuel);
}

#[verifier::rlimit(100)]
proof fn lemma_sp_user_series_enc_part0(s: Seq<char>, i: int, v: UserSeriesV, fuel: nat)
    requires
        fuel >= 1 + enc_user_series(v).len(),
        0 <= i,
        i + enc_user_series(v).len() <= s.len(),
        s.subrange(i, i + enc_user_series(v).len()) == enc_user_series(v),
    ensures
        s[i] == '{',
        sp_member(s, i + 1, "series"@, fuel) == Some(i + 1 + enc_string("series"@).len() + 1),
        sp_series(s, i + 1 + enc_string("series"@).len() + 1, fuel) == Some((v.series, i + 1 + enc_mem("series"@, enc_series(v.series)).len())),
        sp_mem_at(s, i + 1 + enc_mem("series"@, enc_series(v.series)).len(), "user_rating"@, fuel) == Some(i + 1 + enc_mem("series"@, enc_series(v.series)).len() + 2 + enc_string("user_rating"@).len()),
        sp_tenths(s, i + 1 + enc_mem("series"@, enc_series(v.series)).len() + 2 + enc_string("user_rating"@).len()) == Some((v.user_rating.tenths, i + 1 + enc_mem("series"@, enc_series(v.series)).len() + enc_memc("user_rating"@, enc_tenths(v.user_rating.tenths)).len())),
        s.subrange(i + 1 + enc_mem("series"@, enc_series(v.series)).len() + enc_memc("user_rating"@, enc_tenths(v.user_rating.tenths)).len(), i + enc_user_series(v).len()) == enc_memc("note"@, enc_string(v.note)) + (enc_memc("season_notes"@, enc_season_arr(v.season_notes)) + (seq!['}'])),
{
    reveal(enc_user_series);
    let m0 = enc_mem("series"@, enc_series(v.series));
    let m1 = enc_memc("user_rating"@, enc_tenths(v.user_rating.tenths));
    let m2 = enc_memc("note"@, enc_string(v.note));
    let m3 = enc_memc("season_notes"@, enc_season_arr(v.season_notes));
    let r4 = seq!['}'];
    let r3 = m3 + r4;
    let r2 = m2 + r3;
    let r1 = m1 + r2;
    let r0 = m0 + r1;
    let p0 = i + 1;
    let p1 = p0 + m0.len();
    let p2 = p1 + m1.len();
    let p3 = p2 + m2.len();
    let p4 = p3 + m3.len();
    lemma_subrange_cat(s, i, seq!['{'], r0);
    assert(s.subrange(i, i + 1)[0] == '{');
    lemma_step_mem_head(s, p0, "series"@, enc_series(v.series), r1, fuel);
    lemma_step_memc(s, p1, "user_rating"@, enc_tenths(v.user_rating.tenths), r2, fuel);
    lemma_step_memc(s, p2, "note"@, enc_string(v.note), r3, fuel);
    lemma_sp_series_enc(s, p0 + enc_string("series"@).len() + 1, v.series, fuel);
    lemma_sp_tenths_enc(s, p1 + 2 + enc_string("user_rating"@).len(), v.user_rating.tenths);
}

#[verifier::rlimit(100)]
proof fn lemma_sp_user_series_enc_part1(s: Seq<char>, i: int, v: UserSeriesV, fuel: nat)
    requires
        fuel >= 1 + enc_user_series(v).len(),
        0 <= i,
        i + enc_user_series(v).len() <= s.len(),
        s.subrange(i, i + enc_user_series(v).len()) == enc_user_series(v),
        s.subrange(i + 1 + enc_mem("series"@, enc_series(v.series)).len() + enc_memc("user_rating"@, enc_tenths(v.user_rating.tenths)).len(), i + enc_user_series(v).len()) == enc_memc("note"@, enc_string(v.note)) + (enc_memc("season_notes"@, enc_season_arr(v.season_notes)) + (seq!['}'])),
    ensures
        sp_mem_at(s, i + 1 + enc_mem("series"@, enc_series(v.series)).len() + enc_memc("user_rating"@, enc_tenths(v.user_rating.tenths)).len(), "note"@, fuel) == Some(i + 1 + enc_mem("series"@, enc_series(v.series)).len() + enc_memc("user_rating"@, enc_tenths(v.user_rating.tenths)).len() + 2 + enc_string("note"@).len()),
        sp_string(s, i + 1 + enc_mem("series"@, enc_series(v.series)).len() + enc_memc("user_rating"@, enc_tenths(v.user_rating.tenths)).len() + 2 + enc_string("note"@).len()) == Some((v.note, i + 1 + enc_mem("series"@, enc_series(v.series)).len() + enc_memc("user_rating"@, enc_tenths(v.user_rating.tenths)).len() + enc_memc("note"@, enc_string(v.note)).len())),
        sp_mem_at(s, i + 1 + enc_mem("series"@, enc_series(v.series)).len() + enc_memc("user_rating"@, enc_tenths(v.user_rating.tenths)).len() + enc_memc("note"@, enc_string(v.note)).len(), "season_notes"@, fuel) == Some(i + 1 + enc_mem("series"@, enc_series(v.series)).len() + enc_memc("user_rating"@, enc_tenths(v.user_rating.tenths)).len() + enc_memc("note"@, enc_string(v.note)).len() + 2 + enc_string("season_notes"@).len()),
        sp_season_arr(s, i + 1 + enc_mem("series"@, enc_series(v.series)).len() + enc_memc("user_rating"@, enc_tenths(v.user_rating.tenths)).len() + enc_memc("note"@, enc_string(v.note)).len() + 2 + enc_string("season_notes"@).len(), fuel) == Some((v.season_notes, i + 1 + enc_mem("series"@, enc_series(v.series)).len() + enc_memc("user_rating"@, enc_tenths(v.user_rating.tenths)).len() + enc_memc("note"@, enc_string(v.note)).len() + enc_memc("season_notes"@, enc_season_arr(v.season_notes)).len())),
        sp_obj_end(s, i + 1 + enc_mem("series"@, enc_series(v.series)).len() + enc_memc("user_rating"@, enc_tenths(v.user_rating.tenths)).len() + enc_memc("note"@, enc_string(v.note)).len() + enc_memc("season_notes"@, enc_season_arr(v.season_notes)).len(), fuel) == Some(i + enc_user_series(v).len()),
{
    reveal(enc_user_series);
    let m0 = enc_mem("series"@, enc_series(v.series));
    let m1 = enc_memc("user_rating"@, enc_tenths(v.user_rating.tenths));
    let m2 = enc_memc("note"@, enc_string(v.note));
    let m3 = enc_memc("season_notes"@, enc_season_arr(v.season_notes));
    let r4 = seq!['}'];
    let r3 = m3 + r4;
    let r2 = m2 + r3;
    let r1 = m1 + r2;
    let r0 = m0 + r1;
    let p0 = i + 1;
    let p1 = p0 + m0.len();
    let p2 = p1 + m1.len();
    let p3 = p2 + m2.len();
    let p4 = p3 + m3.len();
    lemma_step_memc(s, p2, "note"@, enc_string(v.note), r3, fuel);
    lemma_step_memc(s, p3, "season_notes"@, enc_season_arr(v.season_notes), r4, fuel);
    assert(s.subrange(p4, p4 + r4.len())[0] == '}');
    lemma_sp_string_enc(s, p2 + 2 + enc_string("note"@).len(), v.note);
    lemma_sp_season_arr_enc(s, p3 + 2 + enc_string("season_notes"@).len(), v.season_notes, fuel);
    lemma_sp_obj_end_enc(s, p4, fuel);
}

/// A canonical annotated-series record parses back to its view.
#[verifier::rlimit(100)]
pub proof fn lemma_sp_user_series_enc(s: Seq<char>, i: int, v: UserSeriesV, fuel: nat)
    requires
        fuel >= 1 + enc_user_series(v).len(),
        0 <= i,
        i + enc_user_series(v).len() <= s.len(),
        s.subrange(i, i + enc_user_series(v).len()) == enc_user_series(v),
    ensures
        sp_user_series(s, i, fuel) == Some((v, i + enc_user_series(v).len())),
{
    reveal(sp_user_series);
    lemma_sp_user_series_enc_part0(s, i, v, fuel);
    lemma_sp_user_series_enc_part1(s, i, v, fuel);
}

#[verifier::rlimit(100)]
proof fn lemma_sp_user_movie_enc_part0(s: Seq<char>, i: int, v: UserMovieV, fuel: nat)
    requires
        fuel >= 1 + enc_user_movie(v).len(),
        0 <= i,
        i + enc_user_movie(v).len() <= s.len(),
        s.subrange(i, i + enc_user_movie(v).len()) == enc_user_movie(v),
    ensures
        s[i] == '{',
        sp_member(s, i + 1, "movie"@, fuel) == Some(i + 1 + enc_string("movie"@).len() + 1),
        sp_movie(s, i + 1 + enc_string("movie"@).len() + 1, fuel) == Some((v.movie, i + 1 + enc_mem("movie"@, enc_movie(v.movie)).len())),
        sp_mem_at(s, i + 1 + enc_mem("movie"@, enc_movie(v.movie)).len(), "user_rating"@, fuel) == Some(i + 1 + enc_mem("movie"@, enc_movie(v.movie)).len() + 2 + enc_string("user_rating"@).len()),
        sp_tenths(s, i + 1 + enc_mem("movie"@, enc_movie(v.movie)).len() + 2 + enc_string("user_rating"@).len()) == Some((v.user_rating.tenths, i + 1 + enc_mem("movie"@, enc_movie(v.movie)).len() + enc_memc("user_rating"@, enc_tenths(v.user_rating.tenths)).len())),
        s.subrange(i + 1 + enc_mem("movie"@, enc_movie(v.movie)).len() + enc_memc("user_rating"@, enc_tenths(v.user_rating.tenths)).len(), i + enc_user_movie(v).len()) == enc_memc("note"@, enc_string(v.note)) + (seq!['}']),
{
    reveal(enc_user_movie);
    let m0 = enc_mem("movie"@, enc_movie(v.movie));
    let m1 = enc_memc("user_rating"@, enc_tenths(v.user_rating.tenths));
    let m2 = enc_memc("note"@, enc_string(v.note));
    let r3 = seq!['}'];
    let r2 = m2 + r3;
    let r1 = m1 + r2;
    let r0 = m0 + r1;
    let p0 = i + 1;
    let p1 = p0 + m0.len();
    let p2 = p1 + m1.len();
    let p3 = p2 + m2.len();
    lemma_subrange_cat(s, i, seq!['{'], r0);
    assert(s.subrange(i, i + 1)[0] == '{');
    lemma_step_mem_head(s, p0, "movie"@, enc_movie(v.movie), r1, fuel);
    lemma_step_memc(s, p1, "user_rating"@, enc_tenths(v.user_rating.tenths), r2, fuel);
    lemma_step_memc(s, p2, "note"@, enc_string(v.note), r3, fuel);
    lemma_sp_movie_enc(s, p0 + enc_string("movie"@).len() + 1, v.movie, fuel);
    lemma_sp_tenths_enc(s, p1 + 2 + enc_string("user_rating"@).len(), v.user_rating.tenths);
}

#[verifier::rlimit(100)]
proof fn lemma_sp_user_movie_enc_part1(s: Seq<char>, i: int, v: UserMovieV, fuel: nat)
    requires
        fuel >= 1 + enc_user_movie(v).len(),
        0 <= i,
        i + enc_user_movie(v).len() <= s.len(),
        s.subrange(i, i + enc_user_movie(v).len()) == enc_user_movie(v),
        s.subrange(i + 1 + enc_mem("movie"@, enc_movie(v.movie)).len() + enc_memc("user_rating"@, enc_tenths(v.user_rating.tenths)).len(), i + enc_user_movie(v).len()) == enc_memc("note"@, enc_string(v.note)) + (seq!['}']),
    ensures
        sp_mem_at(s, i + 1 + enc_mem("movie"@, enc_movie(v.movie)).len() + enc_memc("user_rating"@, enc_tenths(v.user_rating.tenths)).len(), "note"@, fuel) == Some(i + 1 + enc_mem("movie"@, enc_movie(v.movie)).len() + enc_memc("user_rating"@, enc_tenths(v.user_rating.tenths)).len() + 2 + enc_string("note"@).len()),
        sp_string(s, i + 1 + enc_mem("movie"@, enc_movie(v.movie)).len() + enc_memc("user_rating"@, enc_tenths(v.user_rating.tenths)).len() + 2 + enc_string("note"@).len()) == Some((v.note, i + 1 + enc_mem("movie"@, enc_movie(v.movie)).len() + enc_memc("user_rating"@, enc_tenths(v.user_rating.tenths)).len() + enc_memc("note"@, enc_string(v.note)).len())),
        sp_obj_end(s, i + 1 + enc_mem("movie"@, enc_movie(v.movie)).len() + enc_memc("user_rating"@, enc_tenths(v.user_rating.tenths)).len() + enc_memc("note"@, enc_string(v.note)).len(), fuel) == Some(i + enc_user_movie(v).len()),
{
    reveal(enc_user_movie);
    let m0 = enc_mem("movie"@, enc_movie(v.movie));
    let m1 = enc_memc("user_rating"@, enc_tenths(v.user_rating.tenths));
    let m2 = enc_memc("note"@, enc_string(v.note));
    let r3 = seq!['}'];
    let r2 = m2 + r3;
    let r1 = m1 + r2;
    let r0 = m0 + r1;
    let p0 = i + 1;
    let p1 = p0 + m0.len();
    let p2 = p1 + m1.len();
    let p3 = p2 + m2.len();
    lemma_step_memc(s, p2, "note"@, enc_string(v.note), r3, fuel);
    assert(s.subrange(p3, p3 + r3.len())[0] == '}');
    lemma_sp_string_enc(s, p2 + 2 + enc_string("note"@).len(), v.note);
    lemma_sp_obj_end_enc(s, p3, fuel);
}

/// A canonical annotated-movie record parses back to its view.
#[verifier::rlimit(100)]
pub proof fn lemma_sp_user_movie_enc(s: Seq<char>, i: int, v: UserMovieV, fuel: nat)
    requires
        fuel >= 1 + enc_user_movie(v).len(),
        0 <= i,
        i + enc_user_movie(v).len() <= s.len(),
        s.subrange(i, i + enc_user_movie(v).len()) == enc_user_movie(v),
    ensures
        sp_user_movie(s, i, fuel) == Some((v, i + enc_user_movie(v).len())),
{
    reveal(sp_user_movie);
    lemma_sp_user_movie_enc_part0(s, i, v, fuel);
    lemma_sp_user_movie_enc_part1(s, i, v, fuel);
}

#[verifier::rlimit(100)]
pub proof fn lemma_sp_user_series_items_enc(s: Seq<char>, i: int, vs: Seq<UserSeriesV>, fuel: nat)
    requires
        vs.len() >= 1,
        fuel >= 1 + enc_user_series_items(vs).len(),
        0 <= i,
        i + enc_user_series_items(vs).len() <= s.len(),
        s.subrange(i, i + enc_user_series_items(vs).len()) == enc_user_series_items(vs),
    ensures
        sp_user_series_items(s, i, fuel) == Some((vs, i + enc_user_series_items(vs).len())),
    decreases vs.len(),
{
    let head = enc_user_series(vs[0]);
    if vs.len() == 1 {
        lemma_subrange_cat(s, i, head, seq![']']);
        lemma_sp_user_series_enc(s, i, vs[0], fuel);
        let j = i + head.len();
        assert(s.subrange(j, j + 1)[0] == ']');
        assert(seq![vs[0]] =~= vs);
    } else {
        let tail = enc_user_series_items(vs.skip(1));
        lemma_subrange_cat(s, i, head, seq![','] + tail);
        let j = i + head.len();
        lemma_subrange_cat(s, j, seq![','], tail);
        assert(s.subrange(j, j + 1)[0] == ',');
        lemma_sp_user_series_enc(s, i, vs[0], fuel);
        lemma_sp_user_series_items_enc(s, j + 1, vs.skip(1), (fuel - 1) as nat);
        assert(seq![vs[0]] + vs.skip(1) =~= vs);
    }
}

#[verifier::rlimit(100)]
pub proof fn lemma_sp_user_series_arr_enc(s: Seq<char>, i: int, vs: Seq<UserSeriesV>, fuel: nat)
    requires
        fuel >= 1 + enc_user_series_arr(vs).len(),
        0 <= i,
        i + enc_user_series_arr(vs).len() <= s.len(),
        s.subrange(i, i + enc_user_series_arr(vs).len()) == enc_user_series_arr(vs),
    ensures
        sp_user_series_arr(s, i, fuel) == Some((vs, i + enc_user_series_arr(vs).len())),
{
    lemma_subrange_cat(s, i, seq!['['], enc_user_series_items(vs));
    assert(s.subrange(i, i + 1)[0] == '[');
    if vs.len() == 0 {
        assert(s.subrange(i + 1, i + 2)[0] == ']');
        assert(vs =~= Seq::<UserSeriesV>::empty());
    } else {
        reveal(enc_user_series);
        assert(enc_user_series_items(vs)[0] == enc_user_series(vs[0])[0]);
        assert(enc_user_series(vs[0])[0] == '{');
        assert(s.subrange(i + 1, i + 1 + enc_user_series_items(vs).len())[0] == '{');
        lemma_sp_user_series_items_enc(s, i + 1, vs, fuel);
    }
}

#[verifier::rlimit(100)]
pub proof fn lemma_sp_user_movie_items_enc(s: Seq<char>, i: int, vs: Seq<UserMovieV>, fuel: nat)
    requires
        vs.len() >= 1,
        fuel >= 1 + enc_user_movie_items(vs).len(),
        0 <= i,
        i + enc_user_movie_items(vs).len() <= s.len(),
        s.subrange(i, i + enc_user_movie_items(vs).len()) == enc_user_movie_items(vs),
    ensures
        sp_user_movie_items(s, i, fuel) == Some((vs, i + enc_user_movie_items(vs).len())),
    decreases vs.len(),
{
    let head = enc_user_movie(vs[0]);
    if vs.len() == 1 {
        lemma_subrange_cat(s, i, head, seq![']']);
        lemma_sp_user_movie_enc(s, i, vs[0], fuel);
        let j = i + head.len();
        assert(s.subrange(j, j + 1)[0] == ']');
        assert(seq![vs[0]] =~= vs);
    } else {
        let tail = enc_user_movie_items(vs.skip(1));
        lemma_subrange_cat(s, i, head, seq![','] + tail);
        let j = i + head.len();
        lemma_subrange_cat(s, j, seq![','], tail);
        assert(s.subrange(j, j + 1)[0] == ',');
        lemma_sp_user_movie_enc(s, i, vs[0], fuel);
        lemma_sp_user_movie_items_enc(s, j + 1, vs.skip(1), (fuel - 1) as nat);
        assert(seq![vs[0]] + vs.skip(1) =~= vs);
    }
}

#[verifier::rlimit(100)]
pub proof fn lemma_sp_user_movie_arr_enc(s: Seq<char>, i: int, vs: Seq<UserMovieV>, fuel: nat)
    requires
        fuel >= 1 + enc_user_movie_arr(vs).len(),
        0 <= i,
        i + enc_user_movie_arr(vs).len() <= s.len(),
        s.subrange(i, i + enc_user_movie_arr(vs).len()) == enc_user_movie_arr(vs),
    ensures
        sp_user_movie_arr(s, i, fuel) == Some((vs, i + enc_user_movie_arr(vs).len())),
{
    lemma_subrange_cat(s, i, seq!['['], enc_user_movie_items(vs));
    assert(s.subrange(i, i + 1)[0] == '[');
    if vs.len() == 0 {
        assert(s.subrange(i + 1, i + 2)[0] == ']');
        assert(vs =~= Seq::<UserMovieV>::empty());
    } else {
        reveal(enc_user_movie);
        assert(enc_user_movie_items(vs)[0] == enc_user_movie(vs[0])[0]);
        assert(enc_user_movie(vs[0])[0] == '{');
        assert(s.subrange(i + 1, i + 1 + enc_user_movie_items(vs).len())[0] == '{');
        lemma_sp_user_movie_items_enc(s, i + 1, vs, fuel);
    }
}


// ---------------------------------------------------------------------------
// The whole document
// ---------------------------------------------------------------------------

/// The member-skipping budget the parser grants a document: ample for any
/// document of that length, since every member read costs at least one
/// character.
pub open spec fn doc_fuel(s: Seq<char>) -> nat {
    (s.len() + 2) as nat
}

/// The whole document: a required `series` array and a required `movies`
/// array, nothing after the closing brace. Absence of either key fails the
/// parse; unknown members are read past.
#[verifier::opaque]
pub open spec fn sp_doc(s: Seq<char>, fuel: nat) -> Option<(Seq<UserSeriesV>, Seq<UserMovieV>)> {
    if !(0 < s.len() && s[0] == '{') {
        None
    } else {
        match sp_member(s, 1, "series"@, fuel) {
            None => None,
            Some(j0) => match sp_user_series_arr(s, j0, fuel) {
                None => None,
                Some((ser, j1)) => match sp_mem_at(s, j1, "movies"@, fuel) {
                    None => None,
                    Some(j2) => match sp_user_movie_arr(s, j2, fuel) {
                        None => None,
                        Some((mov, j3)) => match sp_obj_end(s, j3, fuel) {
                            None => None,
                            Some(j4) => if j4 == s.len() {
                                Some((ser, mov))
                            } else {
                                None
                            },
                        },
                    },
                },
            },
        }
    }
}

#[verifier::rlimit(100)]
proof fn lemma_sp_doc_enc(ser: Seq<UserSeriesV>, mov: Seq<UserMovieV>, fuel: nat)
    requires
        fuel >= 1 + enc_doc(ser, mov).len(),
    ensures
        sp_doc(enc_doc(ser, mov), fuel) == Some((ser, mov)),
{
    reveal(sp_doc);
    let s = enc_doc(ser, mov);
    let m0 = enc_mem("series"@, enc_user_series_arr(ser));
    let m1 = enc_memc("movies"@, enc_user_movie_arr(mov));
    let r2 = seq!['}'];
    let r1 = m1 + r2;
    let r0 = m0 + r1;
    let p0 = 1int;
    let p1 = p0 + m0.len();
    let p2 = p1 + m1.len();
    assert(s.subrange(0, s.len() as int) =~= s);
    lemma_subrange_cat(s, 0, seq!['{'], r0);
    assert(s.subrange(0, 1)[0] == '{');
    lemma_step_mem_head(s, p0, "series"@, enc_user_series_arr(ser), r1, fuel);
    lemma_step_memc(s, p1, "movies"@, enc_user_movie_arr(mov), r2, fuel);
    assert(s.subrange(p2, p2 + r2.len())[0] == '}');
    lemma_sp_user_series_arr_enc(s, p0 + enc_string("series"@).len() + 1, ser, fuel);
    lemma_sp_user_movie_arr_enc(s, p1 + 2 + enc_string("movies"@).len(), mov, fuel);
    lemma_sp_obj_end_enc(s, p2, fuel);
}

/// The round-trip law: a document the store encoded parses back to exactly
/// the collection it came from, series order, movie order and every nested
/// note included, with the budget the parser grants such a document.
pub proof fn lemma_round_trip(ser: Seq<UserSeriesV>, mov: Seq<UserMovieV>)
    ensures
        sp_doc(enc_doc(ser, mov), doc_fuel(enc_doc(ser, mov))) == Some((ser, mov)),
{
    lemma_sp_doc_enc(ser, mov, doc_fuel(enc_doc(ser, mov)));
}


// ---------------------------------------------------------------------------
// Executable encoder
// ---------------------------------------------------------------------------

pub open spec fn str_views(v: Seq<String>) -> Seq<Seq<char>> {
    Seq::new(v.len(), |k: int| v[k]@)
}

pub open spec fn season_views(v: Seq<SeasonNotes>) -> Seq<SeasonNotesV> {
    Seq::new(v.len(), |k: int| v[k]@)
}

fn emit_mem_u32(out: &mut Vec<char>, key: &str, v: u32)
    ensures
        final(out)@ == old(out)@ + enc_mem(key@, enc_u32(v)),
{
    emit_string(out, key);
    out.push(':');
    emit_u32(out, v);
    proof {
        reveal(enc_mem);
        assert(out@ =~= old(out)@ + enc_mem(key@, enc_u32(v)));
    }
}

fn emit_memc_string(out: &mut Vec<char>, key: &str, v: &str)
    ensures
        final(out)@ == old(out)@ + enc_memc(key@, enc_string(v@)),
{
    out.push(',');
    emit_string(out, key);
    out.push(':');
    emit_string(out, v);
    proof {
        reveal(enc_memc);
        reveal(enc_mem);
        assert(out@ =~= old(out)@ + enc_memc(key@, enc_string(v@)));
    }
}

fn emit_memc_tenths(out: &mut Vec<char>, key: &str, t: u32)
    ensures
        final(out)@ == old(out)@ + enc_memc(key@, enc_tenths(t)),
{
    out.push(',');
    emit_string(out, key);
    out.push(':');
    emit_tenths(out, t);
    proof {
        reveal(enc_memc);
        reveal(enc_mem);
        assert(out@ =~= old(out)@ + enc_memc(key@, enc_tenths(t)));
    }
}

fn emit_memc_u32(out: &mut Vec<char>, key: &str, v: u32)
    ensures
        final(out)@ == old(out)@ + enc_memc(key@, enc_u32(v)),
{
    out.push(',');
    emit_string(out, key);
    out.push(':');
    emit_u32(out, v);
    proof {
        reveal(enc_memc);
        reveal(enc_mem);
        assert(out@ =~= old(out)@ + enc_memc(key@, enc_u32(v)));
    }
}

fn emit_memc_bool(out: &mut Vec<char>, key: &str, b: bool)
    ensures
        final(out)@ == old(out)@ + enc_memc(key@, enc_bool(b)),
{
    out.push(',');
    emit_string(out, key);
    out.push(':');
    emit_bool(out, b);
    proof {
        reveal(enc_memc);
        reveal(enc_mem);
        assert(out@ =~= old(out)@ + enc_memc(key@, enc_bool(b)));
    }
}

fn emit_memc_opt_string(out: &mut Vec<char>, key: &str, o: &Option<String>)
    ensures
        final(out)@ == old(out)@ + enc_memc(key@, enc_opt_string(opt_view(*o))),
{
    out.push(',');
    emit_string(out, key);
    out.push(':');
    emit_opt_string(out, o);
    proof {
        reveal(enc_memc);
        reveal(enc_mem);
        assert(out@ =~= old(out)@ + enc_memc(key@, enc_opt_string(opt_view(*o))));
    }
}

#[verifier::rlimit(100)]
pub fn emit_series(out: &mut Vec<char>, x: &Series)
    ensures
        final(out)@ == old(out)@ + enc_series(x@),
{
    out.push('{');
    emit_mem_u32(out, "id", x.id);
    emit_memc_string(out, "name", x.name.as_str());
    emit_memc_string(out, "original_language", x.original_language.as_str());
    emit_memc_string(out, "overview", x.overview.as_str());
    emit_memc_tenths(out, "popularity", x.popularity.tenths);
    emit_memc_opt_string(out, "poster_path", &x.poster_path);
    emit_memc_string(out, "first_air_date", x.first_air_date.as_str());
    emit_memc_tenths(out, "vote_average", x.vote_average.tenths);
    out.push('}');
    proof {
        reveal(enc_series);
        assert(out@ =~= old(out)@ + enc_series(x@));
    }
}

#[verifier::rlimit(100)]
pub fn emit_movie(out: &mut Vec<char>, x: &Movie)
    ensures
        final(out)@ == old(out)@ + enc_movie(x@),
{
    out.push('{');
    emit_mem_u32(out, "id", x.id);
    emit_memc_string(out, "title", x.title.as_str());
    emit_memc_string(out, "original_language", x.original_language.as_str());
    emit_memc_string(out, "overview", x.overview.as_str());
    emit_memc_tenths(out, "popularity", x.popularity.tenths);
    emit_memc_opt_string(out, "poster_path", &x.poster_path);
    emit_memc_string(out, "release_date", x.release_date.as_str());
    emit_memc_tenths(out, "vote_average", x.vote_average.tenths);
    emit_memc_u32(out, "vote_count", x.vote_count);
    emit_memc_bool(out, "adult", x.adult);
    out.push('}');
    proof {
        reveal(enc_movie);
        assert(out@ =~= old(out)@ + enc_movie(x@));
    }
}

fn emit_str_items(out: &mut Vec<char>, v: &Vec<String>, k: usize)
    requires
        k <= v@.len(),
    ensures
        final(out)@ == old(out)@ + enc_str_items(str_views(v@).skip(k as int)),
    decreases v@.len() - k,
{
    let ghost w = str_views(v@).skip(k as int);
    if k == v.len() {
        out.push(']');
        proof {
            assert(w =~= Seq::<Seq<char>>::empty());
            assert(out@ =~= old(out)@ + enc_str_items(w));
        }
    } else {
        emit_string(out, v[k].as_str());
        proof {
            assert(w[0] == v@[k as int]@);
        }
        if k + 1 == v.len() {
            out.push(']');
            proof {
                assert(w.len() == 1);
                assert(out@ =~= old(out)@ + enc_str_items(w));
            }
        } else {
            out.push(',');
            let ghost mid = out@;
            emit_str_items(out, v, k + 1);
            proof {
                assert(w.skip(1) =~= str_views(v@).skip(k as int + 1));
                assert(out@ =~= old(out)@ + enc_str_items(w));
            }
        }
    }
}

fn emit_str_arr(out: &mut Vec<char>, v: &Vec<String>)
    ensures
        final(out)@ == old(out)@ + enc_str_arr(str_views(v@)),
{
    out.push('[');
    emit_str_items(out, v, 0);
    proof {
        assert(str_views(v@).skip(0) =~= str_views(v@));
        assert(out@ =~= old(out)@ + enc_str_arr(str_views(v@)));
    }
}

#[verifier::rlimit(100)]
pub fn emit_season_notes(out: &mut Vec<char>, x: &SeasonNotes)
    ensures
        final(out)@ == old(out)@ + enc_season_notes(x@),
{
    out.push('{');
    emit_string(out, "note");
    out.push(':');
    emit_string(out, x.note.as_str());
    let ghost mid = out@;
    out.push(',');
    emit_string(out, "episode_notes");
    out.push(':');
    emit_str_arr(out, &x.episode_notes);
    out.push('}');
    proof {
        reveal(enc_season_notes);
        reveal(enc_memc);
        reveal(enc_mem);
        assert(x@.episode_notes =~= str_views(x.episode_notes@));
        assert(out@ =~= old(out)@ + enc_season_notes(x@));
    }
}

fn emit_season_items(out: &mut Vec<char>, v: &Vec<SeasonNotes>, k: usize)
    requires
        k <= v@.len(),
    ensures
        final(out)@ == old(out)@ + enc_season_items(season_views(v@).skip(k as int)),
    decreases v@.len() - k,
{
    let ghost w = season_views(v@).skip(k as int);
    if k == v.len() {
        out.push(']');
        proof {
            assert(w =~= Seq::<SeasonNotesV>::empty());
            assert(out@ =~= old(out)@ + enc_season_items(w));
        }
    } else {
        emit_season_notes(out, &v[k]);
        proof {
            assert(w[0] == v@[k as int]@);
        }
        if k + 1 == v.len() {
            out.push(']');
            proof {
                assert(w.len() == 1);
                assert(out@ =~= old(out)@ + enc_season_items(w));
            }
        } else {
            out.push(',');
            emit_season_items(out, v, k + 1);
            proof {
                assert(w.skip(1) =~= season_views(v@).skip(k as int + 1));
                assert(out@ =~= old(out)@ + enc_season_items(w));
            }
        }
    }
}

fn emit_season_arr(out: &mut Vec<char>, v: &Vec<SeasonNotes>)
    ensures
        final(out)@ == old(out)@ + enc_season_arr(season_views(v@)),
{
    out.push('[');
    emit_season_items(out, v, 0);
    proof {
        assert(season_views(v@).skip(0) =~= season_views(v@));
        assert(out@ =~= old(out)@ + enc_season_arr(season_views(v@)));
    }
}

#[verifier::rlimit(100)]
pub fn emit_user_series(out: &mut Vec<char>, x: &UserSeries)
    ensures
        final(out)@ == old(out)@ + enc_user_series(x@),
{
    out.push('{');
    emit_string(out, "series");
    out.push(':');
    emit_series(out, &x.series);
    emit_memc_tenths(out, "user_rating", x.user_rating.tenths);
    emit_memc_string(out, "note", x.note.as_str());
    out.push(',');
    emit_string(out, "season_notes");
    out.push(':');
    emit_season_arr(out, &x.season_notes);
    out.push('}');
    proof {
        reveal(enc_user_series);
        reveal(enc_memc);
        reveal(enc_mem);
        assert(x@.season_notes =~= season_views(x.season_notes@));
        assert(out@ =~= old(out)@ + enc_user_series(x@));
    }
}

#[verifier::rlimit(100)]
pub fn emit_user_movie(out: &mut Vec<char>, x: &UserMovie)
    ensures
        final(out)@ == old(out)@ + enc_user_movie(x@),
{
    out.push('{');
    emit_string(out, "movie");
    out.push(':');
    emit_movie(out, &x.movie);
    emit_memc_tenths(out, "user_rating", x.user_rating.tenths);
    emit_memc_string(out, "note", x.note.as_str());
    out.push('}');
    proof {
        reveal(enc_user_movie);
        reveal(enc_memc);
        reveal(enc_mem);
        assert(out@ =~= old(out)@ + enc_user_movie(x@));
    }
}

fn emit_user_series_items(out: &mut Vec<char>, v: &Vec<UserSeries>, k: usize)
    requires
        k <= v@.len(),
    ensures
        final(out)@ == old(out)@ + enc_user_series_items(series_views(v@).skip(k as int)),
    decreases v@.len() - k,
{
    let ghost w = series_views(v@).skip(k as int);
    if k == v.len() {
        out.push(']');
        proof {
            assert(w =~= Seq::<UserSeriesV>::empty());
            assert(out@ =~= old(out)@ + enc_user_series_items(w));
        }
    } else {
        emit_user_series(out, &v[k]);
        proof {
            assert(w[0] == v@[k as int]@);
        }
        if k + 1 == v.len() {
            out.push(']');
            proof {
                assert(w.len() == 1);
                assert(out@ =~= old(out)@ + enc_user_series_items(w));
            }
        } else {
            out.push(',');
            emit_user_series_items(out, v, k + 1);
            proof {
                assert(w.skip(1) =~= series_views(v@).skip(k as int + 1));
                assert(out@ =~= old(out)@ + enc_user_series_items(w));
            }
        }
    }
}

fn emit_user_movie_items(out: &mut Vec<char>, v: &Vec<UserMovie>, k: usize)
    requires
        k <= v@.len(),
    ensures
        final(out)@ == old(out)@ + enc_user_movie_items(movie_views(v@).skip(k as int)),
    decreases v@.len() - k,
{
    let ghost w = movie_views(v@).skip(k as int);
    if k == v.len() {
        out.push(']');
        proof {
            assert(w =~= Seq::<UserMovieV>::empty());
            assert(out@ =~= old(out)@ + enc_user_movie_items(w));
        }
    } else {
        emit_user_movie(out, &v[k]);
        proof {
            assert(w[0] == v@[k as int]@);
        }
        if k + 1 == v.len() {
            out.push(']');
            proof {
                assert(w.len() == 1);
                assert(out@ =~= old(out)@ + enc_user_movie_items(w));
            }
        } else {
            out.push(',');
            emit_user_movie_items(out, v, k + 1);
            proof {
                assert(w.skip(1) =~= movie_views(v@).skip(k as int + 1));
                assert(out@ =~= old(out)@ + enc_user_movie_items(w));
            }
        }
    }
}

/// Encodes the full annotation set as one document, exactly the canonical
/// text `enc_doc` describes. Writing it to disk, temp file and rename
/// included, is the caller's side of the store.
#[verifier::rlimit(100)]
pub fn serialize_user_productions(user_series: &Vec<UserSeries>, user_movies: &Vec<UserMovie>) -> (r:
    String)
    ensures
        r@ == enc_doc(series_views(user_series@), movie_views(user_movies@)),
{
    let mut out: Vec<char> = Vec::new();
    out.push('{');
    emit_string(&mut out, "series");
    out.push(':');
    out.push('[');
    emit_user_series_items(&mut out, user_series, 0);
    out.push(',');
    emit_string(&mut out, "movies");
    out.push(':');
    out.push('[');
    emit_user_movie_items(&mut out, user_movies, 0);
    out.push('}');
    proof {
        reveal(enc_memc);
        reveal(enc_mem);
        assert(series_views(user_series@).skip(0) =~= series_views(user_series@));
        assert(movie_views(user_movies@).skip(0) =~= movie_views(user_movies@));
        assert(out@ =~= enc_doc(series_views(user_series@), movie_views(user_movies@)));
    }
    chars_to_string(&out)
}


// ---------------------------------------------------------------------------
// Executable parser
// ---------------------------------------------------------------------------

fn opt_chars_to_string(o: Option<Vec<char>>) -> (r: Option<String>)
    ensures
        opt_view(r) == (match o {
            Option::None => Option::<Seq<char>>::None,
            Option::Some(v) => Option::Some(v@),
        }),
{
    match o {
        Option::None => Option::None,
        Option::Some(v) => Option::Some(chars_to_string(&v)),
    }
}

/// A later member in the executable parser: the comma, then the sought key.
fn parse_mem_at(s: &Vec<char>, j: usize, key: &str, fuel: usize) -> (r: Option<usize>)
    requires
        j <= s@.len(),
    ensures
        (match r {
            Option::Some(j2) => sp_mem_at(s@, j as int, key@, fuel as nat) == Option::Some(
                j2 as int,
            ) && j2 <= s@.len(),
            Option::None => sp_mem_at(s@, j as int, key@, fuel as nat) is None,
        }),
{
    if j < s.len() && s[j] == ',' {
        parse_member(s, j + 1, key, fuel)
    } else {
        Option::None
    }
}

#[verifier::rlimit(100)]
fn parse_series_tail(s: &Vec<char>, i: usize, fuel: usize) -> (r: Option<
    ((Rating, Option<String>, String, Rating), usize),
>)
    requires
        i <= s@.len(),
    ensures
        (match r {
            Option::Some(p) => sp_series_tail(s@, i as int, fuel as nat) == Option::Some(
                ((p.0.0.tenths, opt_view(p.0.1), p.0.2@, p.0.3.tenths), p.1 as int),
            ) && p.1 <= s@.len(),
            Option::None => sp_series_tail(s@, i as int, fuel as nat) is None,
        }),
{
    proof {
        reveal(sp_series_tail);
    }
    let j0 = match parse_mem_at(s, i, "popularity", fuel) {
        Option::None => return Option::None,
        Option::Some(j) => j,
    };
    let (popularity, j1) = match parse_tenths(s, j0) {
        Option::None => return Option::None,
        Option::Some(p) => p,
    };
    let j2 = match parse_mem_at(s, j1, "poster_path", fuel) {
        Option::None => return Option::None,
        Option::Some(j) => j,
    };
    let (poster_path, j3) = match parse_opt_string(s, j2) {
        Option::None => return Option::None,
        Option::Some(p) => p,
    };
    let j4 = match parse_mem_at(s, j3, "first_air_date", fuel) {
        Option::None => return Option::None,
        Option::Some(j) => j,
    };
    let (first_air_date, j5) = match parse_string(s, j4) {
        Option::None => return Option::None,
        Option::Some(p) => p,
    };
    let j6 = match parse_mem_at(s, j5, "vote_average", fuel) {
        Option::None => return Option::None,
        Option::Some(j) => j,
    };
    let (vote_average, j7) = match parse_tenths(s, j6) {
        Option::None => return Option::None,
        Option::Some(p) => p,
    };
    let j8 = match parse_obj_end(s, j7, fuel) {
        Option::None => return Option::None,
        Option::Some(j) => j,
    };
    Option::Some(
        (
            (
                Rating { tenths: popularity },
                opt_chars_to_string(poster_path),
                chars_to_string(&first_air_date),
                Rating { tenths: vote_average },
            ),
            j8,
        ),
    )
}

#[verifier::rlimit(100)]
pub fn parse_series(s: &Vec<char>, i: usize, fuel: usize) -> (r: Option<(Series, usize)>)
    requires
        i <= s@.len(),
    ensures
        (match r {
            Option::Some(p) => sp_series(s@, i as int, fuel as nat) == Option::Some(
                (p.0@, p.1 as int),
            ) && p.1 <= s@.len(),
            Option::None => sp_series(s@, i as int, fuel as nat) is None,
        }),
{
    proof {
        reveal(sp_series);
    }
    if !(i < s.len() && s[i] == '{') {
        return Option::None;
    }
    let j0 = match parse_member(s, i + 1, "id", fuel) {
        Option::None => return Option::None,
        Option::Some(j) => j,
    };
    let (id, j1) = match parse_u32(s, j0) {
        Option::None => return Option::None,
        Option::Some(p) => p,
    };
    let j2 = match parse_mem_at(s, j1, "name", fuel) {
        Option::None => return Option::None,
        Option::Some(j) => j,
    };
    let (name, j3) = match parse_string(s, j2) {
        Option::None => return Option::None,
        Option::Some(p) => p,
    };
    let j4 = match parse_mem_at(s, j3, "original_language", fuel) {
        Option::None => return Option::None,
        Option::Some(j) => j,
    };
    let (original_language, j5) = match parse_string(s, j4) {
        Option::None => return Option::None,
        Option::Some(p) => p,
    };
    let j6 = match parse_mem_at(s, j5, "overview", fuel) {
        Option::None => return Option::None,
        Option::Some(j) => j,
    };
    let (overview, j7) = match parse_string(s, j6) {
        Option::None => return Option::None,
        Option::Some(p) => p,
    };
    let (tail, j8) = match parse_series_tail(s, j7, fuel) {
        Option::None => return Option::None,
        Option::Some(p) => p,
    };
    let (popularity, poster_path, first_air_date, vote_average) = tail;
    Option::Some(
        (
            Series {
                id,
                name: chars_to_string(&name),
                original_language: chars_to_string(&original_language),
                overview: chars_to_string(&overview),
                popularity,
                poster_path,
                first_air_date,
                vote_average,
            },
            j8,
        ),
    )
}

#[verifier::rlimit(100)]
fn parse_movie_tail(s: &Vec<char>, i: usize, fuel: usize) -> (r: Option<((Rating, u32, bool), usize)>)
    requires
        i <= s@.len(),
    ensures
        (match r {
            Option::Some(p) => sp_movie_tail(s@, i as int, fuel as nat) == Option::Some(
                ((p.0.0.tenths, p.0.1, p.0.2), p.1 as int),
            ) && p.1 <= s@.len(),
            Option::None => sp_movie_tail(s@, i as int, fuel as nat) is None,
        }),
{
    proof {
        reveal(sp_movie_tail);
    }
    let j0 = match parse_mem_at(s, i, "vote_average", fuel) {
        Option::None => return Option::None,
        Option::Some(j) => j,
    };
    let (vote_average, j1) = match parse_tenths(s, j0) {
        Option::None => return Option::None,
        Option::Some(p) => p,
    };
    let j2 = match parse_mem_at(s, j1, "vote_count", fuel) {
        Option::None => return Option::None,
        Option::Some(j) => j,
    };
    let (vote_count, j3) = match parse_u32(s, j2) {
        Option::None => return Option::None,
        Option::Some(p) => p,
    };
    let j4 = match parse_mem_at(s, j3, "adult", fuel) {
        Option::None => return Option::None,
        Option::Some(j) => j,
    };
    let (adult, j5) = match parse_bool(s, j4) {
        Option::None => return Option::None,
        Option::Some(p) => p,
    };
    let j6 = match parse_obj_end(s, j5, fuel) {
        Option::None => return Option::None,
        Option::Some(j) => j,
    };
    Option::Some(((Rating { tenths: vote_average }, vote_count, adult), j6))
}

#[verifier::rlimit(100)]
fn parse_movie_mid(s: &Vec<char>, i: usize, fuel: usize) -> (r: Option<
    ((Rating, Option<String>, String, Rating, u32, bool), usize),
>)
    requires
        i <= s@.len(),
    ensures
        (match r {
            Option::Some(p) => sp_movie_mid(s@, i as int, fuel as nat) == Option::Some(
                (
                    (p.0.0.tenths, opt_view(p.0.1), p.0.2@, p.0.3.tenths, p.0.4, p.0.5),
                    p.1 as int,
                ),
            ) && p.1 <= s@.len(),
            Option::None => sp_movie_mid(s@, i as int, fuel as nat) is None,
        }),
{
    proof {
        reveal(sp_movie_mid);
    }
    let j0 = match parse_mem_at(s, i, "popularity", fuel) {
        Option::None => return Option::None,
        Option::Some(j) => j,
    };
    let (popularity, j1) = match parse_tenths(s, j0) {
        Option::None => return Option::None,
        Option::Some(p) => p,
    };
    let j2 = match parse_mem_at(s, j1, "poster_path", fuel) {
        Option::None => return Option::None,
        Option::Some(j) => j,
    };
    let (poster_path, j3) = match parse_opt_string(s, j2) {
        Option::None => return Option::None,
        Option::Some(p) => p,
    };
    let j4 = match parse_mem_at(s, j3, "release_date", fuel) {
        Option::None => return Option::None,
        Option::Some(j) => j,
    };
    let (release_date, j5) = match parse_string(s, j4) {
        Option::None => return Option::None,
        Option::Some(p) => p,
    };
    let (tail, j6) = match parse_movie_tail(s, j5, fuel) {
        Option::None => return Option::None,
        Option::Some(p) => p,
    };
    Option::Some(
        (
            (
                Rating { tenths: popularity },
                opt_chars_to_string(poster_path),
                chars_to_string(&release_date),
                tail.0,
                tail.1,
                tail.2,
            ),
            j6,
        ),
    )
}

#[verifier::rlimit(100)]
pub fn parse_movie(s: &Vec<char>, i: usize, fuel: usize) -> (r: Option<(Movie, usize)>)
    requires
        i <= s@.len(),
    ensures
        (match r {
            Option::Some(p) => sp_movie(s@, i as int, fuel as nat) == Option::Some(
                (p.0@, p.1 as int),
            ) && p.1 <= s@.len(),
            Option::None => sp_movie(s@, i as int, fuel as nat) is None,
        }),
{
    proof {
        reveal(sp_movie);
    }
    if !(i < s.len() && s[i] == '{') {
        return Option::None;
    }
    let j0 = match parse_member(s, i + 1, "id", fuel) {
        Option::None => return Option::None,
        Option::Some(j) => j,
    };
    let (id, j1) = match parse_u32(s, j0) {
        Option::None => return Option::None,
        Option::Some(p) => p,
    };
    let j2 = match parse_mem_at(s, j1, "title", fuel) {
        Option::None => return Option::None,
        Option::Some(j) => j,
    };
    let (title, j3) = match parse_string(s, j2) {
        Option::None => return Option::None,
        Option::Some(p) => p,
    };
    let j4 = match parse_mem_at(s, j3, "original_language", fuel) {
        Option::None => return Option::None,
        Option::Some(j) => j,
    };
    let (original_language, j5) = match parse_string(s, j4) {
        Option::None => return Option::None,
        Option::Some(p) => p,
    };
    let j6 = match parse_mem_at(s, j5, "overview", fuel) {
        Option::None => return Option::None,
        Option::Some(j) => j,
    };
    let (overview, j7) = match parse_string(s, j6) {
        Option::None => return Option::None,
        Option::Some(p) => p,
    };
    let (mid, j8) = match parse_movie_mid(s, j7, fuel) {
        Option::None => return Option::None,
        Option::Some(p) => p,
    };
    let (popularity, poster_path, release_date, vote_average, vote_count, adult) = mid;
    Option::Some(
        (
            Movie {
                id,
                title: chars_to_string(&title),
                original_language: chars_to_string(&original_language),
                overview: chars_to_string(&overview),
                popularity,
                poster_path,
                release_date,
                vote_average,
                vote_count,
                adult,
            },
            j8,
        ),
    )
}


fn parse_str_items(s: &Vec<char>, i: usize, fuel: usize) -> (r: Option<(Vec<String>, usize)>)
    requires
        i <= s@.len(),
    ensures
        (match r {
            Option::Some(p) => sp_str_items(s@, i as int, fuel as nat) == Option::Some(
                (str_views(p.0@), p.1 as int),
            ) && p.1 <= s@.len(),
            Option::None => sp_str_items(s@, i as int, fuel as nat) is None,
        }),
    decreases fuel,
{
    if fuel == 0 {
        return Option::None;
    }
    let (x, j) = match parse_string(s, i) {
        Option::None => return Option::None,
        Option::Some(p) => p,
    };
    if j < s.len() && s[j] == ',' {
        match parse_str_items(s, j + 1, fuel - 1) {
            Option::None => Option::None,
            Option::Some((rest, j2)) => {
                let ghost r0 = rest@;
                let mut rest2 = rest;
                rest2.insert(0, chars_to_string(&x));
                proof {
                    assert(str_views(rest2@) =~= seq![x@] + str_views(r0));
                }
                Option::Some((rest2, j2))
            },
        }
    } else if j < s.len() && s[j] == ']' {
        let mut one: Vec<String> = Vec::new();
        one.push(chars_to_string(&x));
        proof {
            assert(str_views(one@) =~= seq![x@]);
        }
        Option::Some((one, j + 1))
    } else {
        Option::None
    }
}

fn parse_str_arr(s: &Vec<char>, i: usize, fuel: usize) -> (r: Option<(Vec<String>, usize)>)
    requires
        i <= s@.len(),
    ensures
        (match r {
            Option::Some(p) => sp_str_arr(s@, i as int, fuel as nat) == Option::Some(
                (str_views(p.0@), p.1 as int),
            ) && p.1 <= s@.len(),
            Option::None => sp_str_arr(s@, i as int, fuel as nat) is None,
        }),
{
    if i < s.len() && s[i] == '[' {
        if i + 1 < s.len() && s[i + 1] == ']' {
            let none: Vec<String> = Vec::new();
            proof {
                assert(str_views(none@) =~= Seq::empty());
            }
            Option::Some((none, i + 2))
        } else {
            parse_str_items(s, i + 1, fuel)
        }
    } else {
        Option::None
    }
}


#[verifier::rlimit(100)]
pub fn parse_season_notes(s: &Vec<char>, i: usize, fuel: usize) -> (r: Option<(SeasonNotes, usize)>)
    requires
        i <= s@.len(),
    ensures
        (match r {
            Option::Some(p) => sp_season_notes(s@, i as int, fuel as nat) == Option::Some(
                (p.0@, p.1 as int),
            ) && p.1 <= s@.len(),
            Option::None => sp_season_notes(s@, i as int, fuel as nat) is None,
        }),
{
    proof {
        reveal(sp_season_notes);
    }
    if !(i < s.len() && s[i] == '{') {
        return Option::None;
    }
    let j0 = match parse_member(s, i + 1, "note", fuel) {
        Option::None => return Option::None,
        Option::Some(j) => j,
    };
    let (note, j1) = match parse_string(s, j0) {
        Option::None => return Option::None,
        Option::Some(p) => p,
    };
    let j2 = match parse_mem_at(s, j1, "episode_notes", fuel) {
        Option::None => return Option::None,
        Option::Some(j) => j,
    };
    let (episode_notes, j3) = match parse_str_arr(s, j2, fuel) {
        Option::None => return Option::None,
        Option::Some(p) => p,
    };
    let j4 = match parse_obj_end(s, j3, fuel) {
        Option::None => return Option::None,
        Option::Some(j) => j,
    };
    let sn = SeasonNotes { note: chars_to_string(&note), episode_notes };
    proof {
        assert(sn@.episode_notes =~= str_views(sn.episode_notes@));
    }
    Option::Some((sn, j4))
}


fn parse_season_items(s: &Vec<char>, i: usize, fuel: usize) -> (r: Option<(Vec<SeasonNotes>, usize)>)
    requires
        i <= s@.len(),
    ensures
        (match r {
            Option::Some(p) => sp_season_items(s@, i as int, fuel as nat) == Option::Some(
                (season_views(p.0@), p.1 as int),
            ) && p.1 <= s@.len(),
            Option::None => sp_season_items(s@, i as int, fuel as nat) is None,
        }),
    decreases fuel,
{
    if fuel == 0 {
        return Option::None;
    }
    let (x, j) = match parse_season_notes(s, i, fuel) {
        Option::None => return Option::None,
        Option::Some(p) => p,
    };
    if j < s.len() && s[j] == ',' {
        match parse_season_items(s, j + 1, fuel - 1) {
            Option::None => Option::None,
            Option::Some((rest, j2)) => {
                let ghost r0 = rest@;
                let mut rest2 = rest;
                rest2.insert(0, x);
                proof {
                    assert(season_views(rest2@) =~= seq![x@] + season_views(r0));
                }
                Option::Some((rest2, j2))
            },
        }
    } else if j < s.len() && s[j] == ']' {
        let mut one: Vec<SeasonNotes> = Vec::new();
        one.push(x);
        proof {
            assert(season_views(one@) =~= seq![x@]);
        }
        Option::Some((one, j + 1))
    } else {
        Option::None
    }
}

fn parse_season_arr(s: &Vec<char>, i: usize, fuel: usize) -> (r: Option<(Vec<SeasonNotes>, usize)>)
    requires
        i <= s@.len(),
    ensures
        (match r {
            Option::Some(p) => sp_season_arr(s@, i as int, fuel as nat) == Option::Some(
                (season_views(p.0@), p.1 as int),
            ) && p.1 <= s@.len(),
            Option::None => sp_season_arr(s@, i as int, fuel as nat) is None,
        }),
{
    if i < s.len() && s[i] == '[' {
        if i + 1 < s.len() && s[i + 1] == ']' {
            let none: Vec<SeasonNotes> = Vec::new();
            proof {
                assert(season_views(none@) =~= Seq::empty());
            }
            Option::Some((none, i + 2))
        } else {
            parse_season_items(s, i + 1, fuel)
        }
    } else {
        Option::None
    }
}


#[verifier::rlimit(100)]
pub fn parse_user_series(s: &Vec<char>, i: usize, fuel: usize) -> (r: Option<(UserSeries, usize)>)
    requires
        i <= s@.len(),
    ensures
        (match r {
            Option::Some(p) => sp_user_series(s@, i as int, fuel as nat) == Option::Some(
                (p.0@, p.1 as int),
            ) && p.1 <= s@.len(),
            Option::None => sp_user_series(s@, i as int, fuel as nat) is None,
        }),
{
    proof {
        reveal(sp_user_series);
    }
    if !(i < s.len() && s[i] == '{') {
        return Option::None;
    }
    let j0 = match parse_member(s, i + 1, "series", fuel) {
        Option::None => return Option::None,
        Option::Some(j) => j,
    };
    let (series, j1) = match parse_series(s, j0, fuel) {
        Option::None => return Option::None,
        Option::Some(p) => p,
    };
    let j2 = match parse_mem_at(s, j1, "user_rating", fuel) {
        Option::None => return Option::None,
        Option::Some(j) => j,
    };
    let (user_rating, j3) = match parse_tenths(s, j2) {
        Option::None => return Option::None,
        Option::Some(p) => p,
    };
    let j4 = match parse_mem_at(s, j3, "note", fuel) {
        Option::None => return Option::None,
        Option::Some(j) => j,
    };
    let (note, j5) = match parse_string(s, j4) {
        Option::None => return Option::None,
        Option::Some(p) => p,
    };
    let j6 = match parse_mem_at(s, j5, "season_notes", fuel) {
        Option::None => return Option::None,
        Option::Some(j) => j,
    };
    let (season_notes, j7) = match parse_season_arr(s, j6, fuel) {
        Option::None => return Option::None,
        Option::Some(p) => p,
    };
    let j8 = match parse_obj_end(s, j7, fuel) {
        Option::None => return Option::None,
        Option::Some(j) => j,
    };
    let us = UserSeries {
        series,
        user_rating: Rating { tenths: user_rating },
        note: chars_to_string(&note),
        season_notes,
    };
    proof {
        assert(us@.season_notes =~= season_views(us.season_notes@));
    }
    Option::Some((us, j8))
}


#[verifier::rlimit(100)]
pub fn parse_user_movie(s: &Vec<char>, i: usize, fuel: usize) -> (r: Option<(UserMovie, usize)>)
    requires
        i <= s@.len(),
    ensures
        (match r {
            Option::Some(p) => sp_user_movie(s@, i as int, fuel as nat) == Option::Some(
                (p.0@, p.1 as int),
            ) && p.1 <= s@.len(),
            Option::None => sp_user_movie(s@, i as int, fuel as nat) is None,
        }),
{
    proof {
        reveal(sp_user_movie);
    }
    if !(i < s.len() && s[i] == '{') {
        return Option::None;
    }
    let j0 = match parse_member(s, i + 1, "movie", fuel) {
        Option::None => return Option::None,
        Option::Some(j) => j,
    };
    let (movie, j1) = match parse_movie(s, j0, fuel) {
        Option::None => return Option::None,
        Option::Some(p) => p,
    };
    let j2 = match parse_mem_at(s, j1, "user_rating", fuel) {
        Option::None => return Option::None,
        Option::Some(j) => j,
    };
    let (user_rating, j3) = match parse_tenths(s, j2) {
        Option::None => return Option::None,
        Option::Some(p) => p,
    };
    let j4 = match parse_mem_at(s, j3, "note", fuel) {
        Option::None => return Option::None,
        Option::Some(j) => j,
    };
    let (note, j5) = match parse_string(s, j4) {
        Option::None => return Option::None,
        Option::Some(p) => p,
    };
    let j6 = match parse_obj_end(s, j5, fuel) {
        Option::None => return Option::None,
        Option::Some(j) => j,
    };
    Option::Some(
        (
            UserMovie {
                movie,
                user_rating: Rating { tenths: user_rating },
                note: chars_to_string(&note),
            },
            j6,
        ),
    )
}


fn parse_user_series_items(s: &Vec<char>, i: usize, fuel: usize) -> (r: Option<(Vec<UserSeries>, usize)>)
    requires
        i <= s@.len(),
    ensures
        (match r {
            Option::Some(p) => sp_user_series_items(s@, i as int, fuel as nat) == Option::Some(
                (series_views(p.0@), p.1 as int),
            ) && p.1 <= s@.len(),
            Option::None => sp_user_series_items(s@, i as int, fuel as nat) is None,
        }),
    decreases fuel,
{
    if fuel == 0 {
        return Option::None;
    }
    let (x, j) = match parse_user_series(s, i, fuel) {
        Option::None => return Option::None,
        Option::Some(p) => p,
    };
    if j < s.len() && s[j] == ',' {
        match parse_user_series_items(s, j + 1, fuel - 1) {
            Option::None => Option::None,
            Option::Some((rest, j2)) => {
                let ghost r0 = rest@;
                let mut rest2 = rest;
                rest2.insert(0, x);
                proof {
                    assert(series_views(rest2@) =~= seq![x@] + series_views(r0));
                }
                Option::Some((rest2, j2))
            },
        }
    } else if j < s.len() && s[j] == ']' {
        let mut one: Vec<UserSeries> = Vec::new();
        one.push(x);
        proof {
            assert(series_views(one@) =~= seq![x@]);
        }
        Option::Some((one, j + 1))
    } else {
        Option::None
    }
}

fn parse_user_series_arr(s: &Vec<char>, i: usize, fuel: usize) -> (r: Option<(Vec<UserSeries>, usize)>)
    requires
        i <= s@.len(),
    ensures
        (match r {
            Option::Some(p) => sp_user_series_arr(s@, i as int, fuel as nat) == Option::Some(
                (series_views(p.0@), p.1 as int),
            ) && p.1 <= s@.len(),
            Option::None => sp_user_series_arr(s@, i as int, fuel as nat) is None,
        }),
{
    if i < s.len() && s[i] == '[' {
        if i + 1 < s.len() && s[i + 1] == ']' {
            let none: Vec<UserSeries> = Vec::new();
            proof {
                assert(series_views(none@) =~= Seq::empty());
            }
            Option::Some((none, i + 2))
        } else {
            parse_user_series_items(s, i + 1, fuel)
        }
    } else {
        Option::None
    }
}


fn parse_user_movie_items(s: &Vec<char>, i: usize, fuel: usize) -> (r: Option<(Vec<UserMovie>, usize)>)
    requires
        i <= s@.len(),
    ensures
        (match r {
            Option::Some(p) => sp_user_movie_items(s@, i as int, fuel as nat) == Option::Some(
                (movie_views(p.0@), p.1 as int),
            ) && p.1 <= s@.len(),
            Option::None => sp_user_movie_items(s@, i as int, fuel as nat) is None,
        }),
    decreases fuel,
{
    if fuel == 0 {
        return Option::None;
    }
    let (x, j) = match parse_user_movie(s, i, fuel) {
        Option::None => return Option::None,
        Option::Some(p) => p,
    };
    if j < s.len() && s[j] == ',' {
        match parse_user_movie_items(s, j + 1, fuel - 1) {
            Option::None => Option::None,
            Option::Some((rest, j2)) => {
                let ghost r0 = rest@;
                let mut rest2 = rest;
                rest2.insert(0, x);
                proof {
                    assert(movie_views(rest2@) =~= seq![x@] + movie_views(r0));
                }
                Option::Some((rest2, j2))
            },
        }
    } else if j < s.len() && s[j] == ']' {
        let mut one: Vec<UserMovie> = Vec::new();
        one.push(x);
        proof {
            assert(movie_views(one@) =~= seq![x@]);
        }
        Option::Some((one, j + 1))
    } else {
        Option::None
    }
}

fn parse_user_movie_arr(s: &Vec<char>, i: usize, fuel: usize) -> (r: Option<(Vec<UserMovie>, usize)>)
    requires
        i <= s@.len(),
    ensures
        (match r {
            Option::Some(p) => sp_user_movie_arr(s@, i as int, fuel as nat) == Option::Some(
                (movie_views(p.0@), p.1 as int),
            ) && p.1 <= s@.len(),
            Option::None => sp_user_movie_arr(s@, i as int, fuel as nat) is None,
        }),
{
    if i < s.len() && s[i] == '[' {
        if i + 1 < s.len() && s[i + 1] == ']' {
            let none: Vec<UserMovie> = Vec::new();
            proof {
                assert(movie_views(none@) =~= Seq::empty());
            }
            Option::Some((none, i + 2))
        } else {
            parse_user_movie_items(s, i + 1, fuel)
        }
    } else {
        Option::None
    }
}


/// Parses a whole document back into the annotation set. Succeeds exactly
/// where the document grammar does: both the `series` and the `movies` key
/// present, nothing after the closing brace; a missing key or any malformed
/// text is a `DecodeError`, never an empty default. Reading the file is the
/// caller's side of the store; its I/O errors are not this error.
#[verifier::rlimit(100)]
pub fn deserialize_user_productions(doc: &str) -> (r: Result<
    (Vec<UserSeries>, Vec<UserMovie>),
    DecodeError,
>)
    requires
        doc@.len() + 2 <= usize::MAX,
    ensures
        (match r {
            Result::Ok((ser, mov)) => sp_doc(doc@, doc_fuel(doc@)) == Option::Some(
                (series_views(ser@), movie_views(mov@)),
            ),
            Result::Err(e) => sp_doc(doc@, doc_fuel(doc@)) is None,
        }),
{
    proof {
        reveal(sp_doc);
    }
    let s = str_to_chars(doc);
    let fuel = s.len() + 2;
    if !(s.len() > 0 && s[0] == '{') {
        return Result::Err(DecodeError);
    }
    let j0 = match parse_member(&s, 1, "series", fuel) {
        Option::None => return Result::Err(DecodeError),
        Option::Some(j) => j,
    };
    let (ser, j1) = match parse_user_series_arr(&s, j0, fuel) {
        Option::None => return Result::Err(DecodeError),
        Option::Some(p) => p,
    };
    let j2 = match parse_mem_at(&s, j1, "movies", fuel) {
        Option::None => return Result::Err(DecodeError),
        Option::Some(j) => j,
    };
    let (mov, j3) = match parse_user_movie_arr(&s, j2, fuel) {
        Option::None => return Result::Err(DecodeError),
        Option::Some(p) => p,
    };
    let j4 = match parse_obj_end(&s, j3, fuel) {
        Option::None => return Result::Err(DecodeError),
        Option::Some(j) => j,
    };
    if j4 == s.len() {
        Result::Ok((ser, mov))
    } else {
        Result::Err(DecodeError)
    }
}

} // verus!
