use media_notes::catalog::{Movie, Rating, Series};
use media_notes::notes::{SeasonNotes, UserMovie, UserSeries};
use media_notes::store::{deserialize_user_productions, serialize_user_productions};

fn a_series() -> Series {
    Series {
        id: 42,
        name: String::from("Signal & Noise"),
        original_language: String::from("en"),
        overview: String::from("A show with \"quotes\", back\\slashes\nand unicode: café."),
        popularity: Rating { tenths: 1234 },
        poster_path: Some(String::from("/signal.jpg")),
        first_air_date: String::from("2021-03-04"),
        vote_average: Rating { tenths: 72 },
    }
}

fn a_movie() -> Movie {
    Movie {
        id: 42,
        title: String::from("Noise"),
        original_language: String::from("fr"),
        overview: String::from(""),
        popularity: Rating { tenths: 9 },
        poster_path: None,
        release_date: String::from("1999-12-31"),
        vote_average: Rating { tenths: 90 },
        vote_count: 321,
        adult: false,
    }
}

fn a_collection() -> (Vec<UserSeries>, Vec<UserMovie>) {
    let mut season1 = SeasonNotes::new();
    season1.ensure_episodes(2);
    season1.note = String::from("strong start");
    season1.episode_notes[1] = String::from("the twist\tlands");
    let series = UserSeries {
        series: a_series(),
        user_rating: Rating { tenths: 85 },
        note: String::from("rewatch yearly"),
        season_notes: vec![season1, SeasonNotes::new()],
    };
    let movie = UserMovie {
        movie: a_movie(),
        user_rating: Rating { tenths: 40 },
        note: String::from("loud"),
    };
    (vec![series], vec![movie])
}

#[test]
fn round_trip_reproduces_collection() {
    let (ser, mov) = a_collection();
    let doc = serialize_user_productions(&ser, &mov);
    let (ser2, mov2) = deserialize_user_productions(&doc).expect("canonical document must load");
    assert_eq!(ser2.len(), 1);
    assert_eq!(mov2.len(), 1);
    let s0 = &ser2[0];
    assert_eq!(s0.series.id, 42);
    assert_eq!(s0.series.name, "Signal & Noise");
    assert_eq!(s0.series.overview, "A show with \"quotes\", back\\slashes\nand unicode: café.");
    assert_eq!(s0.series.popularity, Rating { tenths: 1234 });
    assert_eq!(s0.series.poster_path, Some(String::from("/signal.jpg")));
    assert_eq!(s0.series.first_air_date, "2021-03-04");
    assert_eq!(s0.series.vote_average, Rating { tenths: 72 });
    assert_eq!(s0.user_rating, Rating { tenths: 85 });
    assert_eq!(s0.note, "rewatch yearly");
    assert_eq!(s0.season_notes.len(), 2);
    assert_eq!(s0.season_notes[0].note, "strong start");
    assert_eq!(s0.season_notes[0].episode_notes, vec![String::new(), String::from("the twist\tlands")]);
    assert_eq!(s0.season_notes[1].note, "");
    assert_eq!(s0.season_notes[1].episode_notes.len(), 0);
    let m0 = &mov2[0];
    assert_eq!(m0.movie.id, 42);
    assert_eq!(m0.movie.title, "Noise");
    assert_eq!(m0.movie.original_language, "fr");
    assert_eq!(m0.movie.overview, "");
    assert_eq!(m0.movie.poster_path, None);
    assert_eq!(m0.movie.release_date, "1999-12-31");
    assert_eq!(m0.movie.vote_average, Rating { tenths: 90 });
    assert_eq!(m0.movie.vote_count, 321);
    assert!(!m0.movie.adult);
    assert_eq!(m0.user_rating, Rating { tenths: 40 });
    assert_eq!(m0.note, "loud");
}

#[test]
fn empty_collection_encodes_exactly_and_round_trips() {
    let doc = serialize_user_productions(&Vec::new(), &Vec::new());
    assert_eq!(doc.as_str(), "{\"series\":[],\"movies\":[]}");
    let (ser, mov) = deserialize_user_productions(&doc).expect("empty collection must load");
    assert_eq!(ser.len(), 0);
    assert_eq!(mov.len(), 0);
}

#[test]
fn missing_movies_key_is_a_decode_error() {
    let r = deserialize_user_productions("{\"series\":[]}");
    assert!(r.is_err());
}

#[test]
fn missing_series_key_is_a_decode_error() {
    let r = deserialize_user_productions("{\"movies\":[]}");
    assert!(r.is_err());
}

#[test]
fn malformed_document_is_a_decode_error() {
    assert!(deserialize_user_productions("").is_err());
    assert!(deserialize_user_productions("not a document").is_err());
    assert!(deserialize_user_productions("{\"series\":[,],\"movies\":[]}").is_err());
    assert!(deserialize_user_productions("{\"series\":[],\"movies\":[]} trailing").is_err());
}

#[test]
fn unknown_members_are_read_past() {
    let doc = "{\"series\":[],\"schema\":\"v2\",\"movies\":[],\"checksum\":12.5}";
    let (ser, mov) = deserialize_user_productions(doc).expect("unknown members are tolerated");
    assert_eq!(ser.len(), 0);
    assert_eq!(mov.len(), 0);
}

#[test]
fn ratings_encode_as_tenths() {
    let mov = vec![UserMovie {
        movie: a_movie(),
        user_rating: Rating { tenths: 101 },
        note: String::new(),
    }];
    let doc = serialize_user_productions(&Vec::new(), &mov);
    assert!(doc.contains("\"user_rating\":10.1"));
    assert!(doc.contains("\"vote_average\":9.0"));
    assert!(doc.contains("\"popularity\":0.9"));
}
