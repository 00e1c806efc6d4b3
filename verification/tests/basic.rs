use media_notes::catalog::{Movie, Rating, Series, Trailer};
use media_notes::listing::{EntryType, ListEntry};
use media_notes::notes::{SeasonNotes, UserSeries};

fn sample_series(id: u32) -> Series {
    Series {
        id,
        name: String::from("Show"),
        original_language: String::from("en"),
        overview: String::from("About a show."),
        popularity: Rating { tenths: 123 },
        poster_path: None,
        first_air_date: String::from("2020-01-01"),
        vote_average: Rating { tenths: 81 },
    }
}

fn sample_movie(id: u32) -> Movie {
    Movie {
        id,
        title: String::from("Film"),
        original_language: String::from("en"),
        overview: String::from("About a film."),
        popularity: Rating { tenths: 55 },
        poster_path: Some(String::from("/p.jpg")),
        release_date: String::from("2019-06-01"),
        vote_average: Rating { tenths: 72 },
        vote_count: 10,
        adult: false,
    }
}

#[test]
fn ensure_episodes_grows_and_is_idempotent() {
    let mut season = SeasonNotes::new();
    assert_eq!(season.episode_notes.len(), 0);
    season.ensure_episodes(3);
    assert_eq!(season.episode_notes.len(), 3);
    assert_eq!(season.episode_notes[0], "");
    season.episode_notes[1] = String::from("great episode");
    season.ensure_episodes(2);
    assert_eq!(season.episode_notes.len(), 3);
    assert_eq!(season.episode_notes[1], "great episode");
    season.ensure_episodes(5);
    assert_eq!(season.episode_notes.len(), 5);
    assert_eq!(season.episode_notes[1], "great episode");
    assert_eq!(season.episode_notes[4], "");
}

#[test]
fn ensure_seasons_grows_and_preserves() {
    let mut us = UserSeries {
        series: sample_series(1),
        user_rating: Rating { tenths: 90 },
        note: String::from("note"),
        season_notes: Vec::new(),
    };
    us.ensure_seasons(2);
    assert_eq!(us.season_notes.len(), 2);
    us.season_notes[0].note = String::from("first season");
    us.ensure_seasons(1);
    assert_eq!(us.season_notes.len(), 2);
    us.ensure_seasons(4);
    assert_eq!(us.season_notes.len(), 4);
    assert_eq!(us.season_notes[0].note, "first season");
    assert_eq!(us.season_notes[3].note, "");
    assert_eq!(us.season_notes[3].episode_notes.len(), 0);
}

#[test]
fn movie_and_series_identity_never_match() {
    let movie_entry = ListEntry::from_movie(&sample_movie(5));
    let series_entry = ListEntry::from_series(&sample_series(5));
    assert!(movie_entry.is_selected(&EntryType::Movie(5)));
    assert!(series_entry.is_selected(&EntryType::Series(5)));
    assert!(!movie_entry.is_selected(&EntryType::Series(5)));
    assert!(!series_entry.is_selected(&EntryType::Movie(5)));
    assert!(!movie_entry.is_selected(&EntryType::NoSelection));
    assert!(!series_entry.is_selected(&EntryType::NoSelection));
}

#[test]
fn projection_copies_fields() {
    let m = sample_movie(7);
    let e = ListEntry::from_movie(&m);
    assert_eq!(e.name, "Film");
    assert_eq!(e.rating, Rating { tenths: 72 });
    assert_eq!(e.poster_path, Some(String::from("/p.jpg")));
    let s = sample_series(9);
    let e2 = ListEntry::from_series(&s);
    assert_eq!(e2.name, "Show");
    assert_eq!(e2.rating, Rating { tenths: 81 });
    assert_eq!(e2.poster_path, None);
}

#[test]
fn trailer_url_is_derived_from_key() {
    let t = Trailer {
        name: String::from("Teaser"),
        key: String::from("abc123"),
        published_at: String::from("2020-01-01T00:00:00Z"),
        site: String::from("YouTube"),
        size: 1080,
        official: true,
    };
    assert_eq!(t.youtube_url().as_str(), "https://youtube.com/watch?v=abc123");
}
