use passentropy::generate_password;
use passentropy::get_words;

fn is_alnum_segment(s: &str) -> bool {
    s.len() == 3
        && s.chars().all(|c| c.is_ascii_uppercase() || c.is_ascii_digit())
        && s.chars().any(|c| c.is_ascii_uppercase())
        && s.chars().any(|c| c.is_ascii_digit())
}

#[test]
fn get_words_no_restriction() {
    let words: Vec<&'static str> = vec!["apple", "cat", "tree", "x"];
    assert_eq!(get_words(&words, 0), words);
}

#[test]
fn get_words_restricted() {
    let words: Vec<&'static str> = vec!["apple", "cat", "tree", "x"];
    assert_eq!(get_words(&words, 3), vec!["cat", "x"]);
    assert_eq!(get_words(&words, 1), vec!["x"]);
    assert_eq!(get_words(&words, 4), vec!["cat", "tree", "x"]);
}

#[test]
fn get_words_none_fit() {
    let words: Vec<&'static str> = vec!["apple", "banana"];
    let r = get_words(&words, 2);
    assert!(r.is_empty());
}

#[test]
fn get_words_keeps_order() {
    let words: Vec<&'static str> = vec!["dog", "cat", "ant"];
    assert_eq!(get_words(&words, 3), vec!["dog", "cat", "ant"]);
}

#[test]
fn generated_password_structure() {
    // With a single-word list the structure is fully checkable: four
    // dash-joined parts, three of them the word, one a valid
    // three-character alphanumeric segment.
    for _ in 0..50 {
        let words: Vec<&'static str> = vec!["able"];
        let password = generate_password(&words);
        let parts: Vec<&str> = password.split('-').collect();
        assert_eq!(parts.len(), 4);
        let segment_count = parts.iter().filter(|p| is_alnum_segment(p)).count();
        let word_count = parts.iter().filter(|p| **p == "able").count();
        assert_eq!(segment_count, 1);
        assert_eq!(word_count, 3);
    }
}

#[test]
fn generated_password_words_come_from_list() {
    let words: Vec<&'static str> = vec!["able", "tree", "dog", "lamp"];
    for _ in 0..50 {
        let password = generate_password(&words);
        let parts: Vec<&str> = password.split('-').collect();
        assert_eq!(parts.len(), 4);
        for p in &parts {
            assert!(words.contains(p) || is_alnum_segment(p));
        }
        assert_eq!(parts.iter().filter(|p| is_alnum_segment(p)).count(), 1);
    }
}

#[test]
fn generated_password_has_three_separators() {
    let words: Vec<&'static str> = vec!["able", "tree"];
    let password = generate_password(&words);
    assert_eq!(passentropy::separator_count(&password, '-'), 3);
}
