use passentropy::bruteforce_class_size;
use passentropy::classify;
use passentropy::class_size;
use passentropy::separator_count;

#[test]
fn classify_lowercase_only() {
    let c = classify("abcdef");
    assert!(c.has_lowercase);
    assert!(!c.has_uppercase);
    assert!(!c.has_digit);
    assert!(!c.has_symbol);
    assert_eq!(class_size(c), 26);
}

#[test]
fn classify_all_classes() {
    let c = classify("aZ3-");
    assert!(c.has_lowercase);
    assert!(c.has_uppercase);
    assert!(c.has_digit);
    assert!(c.has_symbol);
    assert_eq!(class_size(c), 72);
}

#[test]
fn classify_empty() {
    let c = classify("");
    assert!(!c.has_lowercase);
    assert!(!c.has_uppercase);
    assert!(!c.has_digit);
    assert!(!c.has_symbol);
    assert_eq!(class_size(c), 0);
}

#[test]
fn classify_separator_counts_as_symbol() {
    let c = classify("-");
    assert!(c.has_symbol);
    assert_eq!(class_size(c), 10);
}

#[test]
fn lowercase_entropy_formula() {
    // For a lowercase-only password the brute-force entropy is
    // len * log2(26).
    let p = "wordswords";
    let bits = (p.len() as f64) * (bruteforce_class_size(p) as f64).log2();
    let expected = 10.0f64 * 26.0f64.log2();
    assert!((bits - expected).abs() < 1e-9);
}

#[test]
fn all_classes_entropy_formula() {
    // A password mixing all four classes spans 72 symbols.
    let p = "aB3!";
    assert_eq!(bruteforce_class_size(p), 72);
    let bits = (p.len() as f64) * 72.0f64.log2();
    let expected = 4.0f64 * 72.0f64.log2();
    assert!((bits - expected).abs() < 1e-12);
}

#[test]
fn bruteforce_abc123() {
    // Lowercase plus digits: class size 36, entropy 6 * log2(36) ~ 31.02.
    let p = "abc123";
    let size = bruteforce_class_size(p);
    assert_eq!(size, 36);
    let bits = (p.len() as f64) * (size as f64).log2();
    assert!((bits - 31.02).abs() < 0.01);
}

#[test]
fn separator_count_basic() {
    assert_eq!(separator_count("able-42XY-tree-dog", '-'), 3);
    assert_eq!(separator_count("nodash", '-'), 0);
    assert_eq!(separator_count("", '-'), 0);
    assert_eq!(separator_count("a.b.c", '.'), 2);
}

#[test]
fn wordlist_entropy_scenario() {
    // wordlist_entropy("able-42XY-tree-dog", '-', 2048):
    // word term 3 * log2(2048) = 33, plus log2(3), plus 3 * log2(36),
    // about 50.1 bits in total.
    let count = separator_count("able-42XY-tree-dog", '-');
    assert_eq!(count, 3);
    let bits = count as f64 * 2048.0f64.log2() + 3.0f64.log2() + 3.0 * 36.0f64.log2();
    assert!((bits - 50.1).abs() < 0.01);
}

#[test]
fn wordlist_entropy_linear_in_separators() {
    // Doubling the separator occurrences doubles the word-choice term.
    let single = "able-tree";
    let double = "able-treeable-tree";
    let c1 = separator_count(single, '-');
    let c2 = separator_count(double, '-');
    assert_eq!(c2, 2 * c1);
    let term1 = c1 as f64 * 2048.0f64.log2();
    let term2 = c2 as f64 * 2048.0f64.log2();
    assert!((term2 - 2.0 * term1).abs() < 1e-9);
}

#[test]
fn wordlist_entropy_monotone_in_size() {
    // For a fixed password and separator the entropy grows with the
    // wordlist size.
    let count = separator_count("able-42XY-tree-dog", '-') as f64;
    let fixed = 3.0f64.log2() + 3.0 * 36.0f64.log2();
    let e1 = count * 512.0f64.log2() + fixed;
    let e2 = count * 1024.0f64.log2() + fixed;
    let e3 = count * 2048.0f64.log2() + fixed;
    assert!(e1 < e2 && e2 < e3);
}
