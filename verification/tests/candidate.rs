use lyricsrs::candidate::{select_exact, select_fuzzy, Candidate};

fn record(id: u64, plain: Option<&str>, synced: Option<&str>) -> Candidate {
    Candidate {
        id,
        name: "Perfect Day".to_string(),
        track_name: "Perfect Day".to_string(),
        artist_name: "Lou Reed".to_string(),
        album_name: "Transformer".to_string(),
        duration_seconds: 226,
        instrumental: false,
        plain_lyrics: plain.map(|s| s.to_string()),
        synced_lyrics: synced.map(|s| s.to_string()),
    }
}

#[test]
fn exact_prefers_synced_whatever_the_policy() {
    let both = record(1, Some("plain"), Some("[00:01.00] synced"));
    assert_eq!(select_exact(&both, false), Some("[00:01.00] synced".to_string()));
    assert_eq!(select_exact(&both, true), Some("[00:01.00] synced".to_string()));
}

#[test]
fn exact_takes_synced_alone() {
    let synced = record(1, None, Some("[00:01.00] synced"));
    assert_eq!(select_exact(&synced, false), Some("[00:01.00] synced".to_string()));
    assert_eq!(select_exact(&synced, true), Some("[00:01.00] synced".to_string()));
}

#[test]
fn exact_takes_plain_only_where_allowed() {
    let plain = record(1, Some("plain"), None);
    assert_eq!(select_exact(&plain, true), Some("plain".to_string()));
    assert_eq!(select_exact(&plain, false), None);
}

#[test]
fn exact_with_no_lyrics_declines() {
    let none = record(1, None, None);
    assert_eq!(select_exact(&none, true), None);
    assert_eq!(select_exact(&none, false), None);
}

#[test]
fn exact_takes_empty_synced_text_as_present() {
    let empty = record(1, Some("plain"), Some(""));
    assert_eq!(select_exact(&empty, true), Some(String::new()));
}

#[test]
fn fuzzy_takes_the_first_synced_in_order() {
    let list = vec![
        record(1, Some("plain one"), None),
        record(2, None, None),
        record(3, Some("plain three"), Some("synced three")),
        record(4, None, Some("synced four")),
    ];
    assert_eq!(select_fuzzy(&list, false), Some("synced three".to_string()));
    assert_eq!(select_fuzzy(&list, true), Some("synced three".to_string()));
}

#[test]
fn fuzzy_prefers_a_later_synced_to_an_earlier_plain() {
    let list = vec![record(1, Some("plain one"), None), record(2, None, Some("synced two"))];
    assert_eq!(select_fuzzy(&list, true), Some("synced two".to_string()));
}

#[test]
fn fuzzy_falls_back_to_the_first_plain_where_allowed() {
    let list = vec![
        record(1, None, None),
        record(2, Some("plain two"), None),
        record(3, Some("plain three"), None),
    ];
    assert_eq!(select_fuzzy(&list, true), Some("plain two".to_string()));
    assert_eq!(select_fuzzy(&list, false), None);
}

#[test]
fn fuzzy_with_nothing_usable_declines() {
    let list = vec![record(1, None, None), record(2, None, None)];
    assert_eq!(select_fuzzy(&list, true), None);
    assert_eq!(select_fuzzy(&list, false), None);
}

#[test]
fn fuzzy_on_the_empty_list_declines() {
    assert_eq!(select_fuzzy(&Vec::new(), true), None);
    assert_eq!(select_fuzzy(&Vec::new(), false), None);
}

#[test]
fn fuzzy_on_a_single_record() {
    assert_eq!(
        select_fuzzy(&vec![record(1, Some("p"), Some("s"))], false),
        Some("s".to_string())
    );
}
