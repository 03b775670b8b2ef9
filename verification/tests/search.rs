use audio_assistant::clock::Timestamp;
use audio_assistant::search::{chars_of, contains, match_count, matches_search, visible_segments};
use audio_assistant::transcription::TranscriptionResult;
use std::path::PathBuf;

fn segment(text: &str) -> TranscriptionResult {
    TranscriptionResult {
        text: String::from(text),
        audio_file: PathBuf::from("a.wav"),
        timestamp: Timestamp { secs: 0, nanos: 0 },
    }
}

fn chars(text: &str) -> Vec<char> {
    text.chars().collect()
}

#[test]
fn chars_of_a_text() {
    assert_eq!(chars_of(""), Vec::<char>::new());
    assert_eq!(chars_of("héllo"), vec!['h', 'é', 'l', 'l', 'o']);
}

#[test]
fn contains_finds_a_text_anywhere() {
    assert!(contains(&chars("hello world"), &chars("hello")));
    assert!(contains(&chars("hello world"), &chars("o w")));
    assert!(contains(&chars("hello world"), &chars("world")));
    assert!(contains(&chars("hello world"), &chars("hello world")));
    assert!(contains(&chars("aaab"), &chars("aab")));
}

#[test]
fn contains_finds_the_empty_text_everywhere() {
    assert!(contains(&chars("abc"), &chars("")));
    assert!(contains(&chars(""), &chars("")));
}

#[test]
fn contains_misses_what_is_not_there() {
    assert!(!contains(&chars("hello world"), &chars("worlds")));
    assert!(!contains(&chars("hello"), &chars("hello world")));
    assert!(!contains(&chars(""), &chars("a")));
    assert!(!contains(&chars("abab"), &chars("bb")));
}

#[test]
fn contains_agrees_with_the_standard_search() {
    let texts = ["", "a", "ab", "aba", "abab", "banana", "bandana"];
    for hay in texts {
        for needle in texts {
            assert_eq!(contains(&chars(hay), &chars(needle)), hay.contains(needle), "{hay} {needle}");
        }
    }
}

#[test]
fn search_does_not_tell_case_apart() {
    assert!(matches_search("Hello World", "WORLD"));
    assert!(matches_search("HELLO", "hello"));
    assert!(matches_search("Straße ÄÖÜ", "äöü"));
    assert!(!matches_search("Hello World", "mars"));
    assert!(matches_search("anything", ""));
}

#[test]
fn match_count_counts_matching_segments() {
    let transcript = vec![segment("Buy milk"), segment("call Bob"), segment("MILK again")];
    assert_eq!(match_count(&transcript, "milk"), 2);
    assert_eq!(match_count(&transcript, "bob"), 1);
    assert_eq!(match_count(&transcript, "tea"), 0);
    assert_eq!(match_count(&transcript, ""), 3);
    assert_eq!(match_count(&[], "milk"), 0);
}

#[test]
fn visible_segments_are_the_matching_ones() {
    let transcript = vec![segment("Buy milk"), segment("call Bob"), segment("MILK again")];
    assert_eq!(visible_segments(&transcript, "milk"), vec![0, 2]);
    assert_eq!(visible_segments(&transcript, "B"), vec![0, 1]);
    assert_eq!(visible_segments(&transcript, "tea"), Vec::<usize>::new());
}

#[test]
fn every_segment_is_visible_under_the_empty_query() {
    let transcript = vec![segment("a"), segment("b"), segment("")];
    assert_eq!(visible_segments(&transcript, ""), vec![0, 1, 2]);
    assert_eq!(visible_segments(&[], ""), Vec::<usize>::new());
}
