use media_notes::catalog::Rating;
use media_notes::listing::{CentralListOrdering, EntryType, ListEntry};
use media_notes::listing::sort_entries;

fn entry(name: &str, tenths: u32) -> ListEntry {
    ListEntry {
        production_id: EntryType::NoSelection,
        name: String::from(name),
        poster_path: None,
        rating: Rating { tenths },
    }
}

fn names(v: &Vec<ListEntry>) -> Vec<String> {
    v.iter().map(|e| e.name.clone()).collect()
}

fn ratings(v: &Vec<ListEntry>) -> Vec<u32> {
    v.iter().map(|e| e.rating.tenths).collect()
}

#[test]
fn alphabetic_order_sorts_names() {
    let list = vec![entry("B", 72), entry("A", 31), entry("C", 90)];
    let sorted = sort_entries(&CentralListOrdering::Alphabetic, &list);
    assert_eq!(names(&sorted), vec!["A".to_string(), "B".to_string(), "C".to_string()]);
}

#[test]
fn rating_descending_sorts_high_first() {
    let list = vec![entry("B", 72), entry("A", 31), entry("C", 90)];
    let sorted = sort_entries(&CentralListOrdering::RatingDescending, &list);
    assert_eq!(ratings(&sorted), vec![90, 72, 31]);
}

#[test]
fn rating_ascending_sorts_low_first() {
    let list = vec![entry("B", 72), entry("A", 31), entry("C", 90)];
    let sorted = sort_entries(&CentralListOrdering::RatingAscending, &list);
    assert_eq!(ratings(&sorted), vec![31, 72, 90]);
}

#[test]
fn user_defined_order_is_kept() {
    let list = vec![entry("B", 72), entry("A", 31), entry("C", 90)];
    let sorted = sort_entries(&CentralListOrdering::UserDefined, &list);
    assert_eq!(names(&sorted), vec!["B".to_string(), "A".to_string(), "C".to_string()]);
}
