//! Character-class model behind the brute-force entropy estimate: which of the
//! four classes (lowercase, uppercase, digit, symbol) a password uses, and the
//! size of the search alphabet those classes span.

use vstd::prelude::*;

verus! {

/// Which of the four character classes occur somewhere in a password.
/// Derived once per password and never mutated afterwards.
#[derive(Clone, Copy, PartialEq, Eq, Structural, Debug)]
pub struct CharClassSet {
    pub has_lowercase: bool,
    pub has_uppercase: bool,
    pub has_digit: bool,
    pub has_symbol: bool,
}

pub open spec fn is_lowercase(c: char) -> bool {
    'a' <= c && c <= 'z'
}

pub open spec fn is_uppercase(c: char) -> bool {
    'A' <= c && c <= 'Z'
}

pub open spec fn is_digit(c: char) -> bool {
    '0' <= c && c <= '9'
}

/// Every character outside the three named classes counts as a symbol,
/// whatever its identity.
pub open spec fn is_symbol(c: char) -> bool {
    !is_lowercase(c) && !is_uppercase(c) && !is_digit(c)
}

pub open spec fn spec_classes(s: Seq<char>) -> CharClassSet {
    CharClassSet {
        has_lowercase: exists|i: int| 0 <= i < s.len() && is_lowercase(#[trigger] s[i]),
        has_uppercase: exists|i: int| 0 <= i < s.len() && is_uppercase(#[trigger] s[i]),
        has_digit: exists|i: int| 0 <= i < s.len() && is_digit(#[trigger] s[i]),
        has_symbol: exists|i: int| 0 <= i < s.len() && is_symbol(#[trigger] s[i]),
    }
}

/// The alphabet size the brute-force model assumes: 26 per letter case,
/// 10 for digits, and a fixed allowance of 10 for symbols.
pub open spec fn spec_class_size(c: CharClassSet) -> int {
    (if c.has_lowercase {
        26int
    } else {
        0int
    }) + (if c.has_uppercase {
        26int
    } else {
        0int
    }) + (if c.has_digit {
        10int
    } else {
        0int
    }) + (if c.has_symbol {
        10int
    } else {
        0int
    })
}

/// Scan the password once and record which character classes it uses.
pub fn classify(password: &str) -> (c: CharClassSet)
    ensures
        c == spec_classes(password@),
{
    let mut lowercase = false;
    let mut uppercase = false;
    let mut digits = false;
    let mut symbols = false;
    let n = password.unicode_len();
    let mut j: usize = 0;
    while j < n
        invariant
            n == password@.len(),
            j <= n,
            lowercase == exists|i: int| 0 <= i < j && is_lowercase(#[trigger] password@[i]),
            uppercase == exists|i: int| 0 <= i < j && is_uppercase(#[trigger] password@[i]),
            digits == exists|i: int| 0 <= i < j && is_digit(#[trigger] password@[i]),
            symbols == exists|i: int| 0 <= i < j && is_symbol(#[trigger] password@[i]),
        decreases n - j,
    {
        let ch = password.get_char(j);
        if ch >= 'a' && ch <= 'z' {
            lowercase = true;
        } else if ch >= 'A' && ch <= 'Z' {
            uppercase = true;
        } else if ch >= '0' && ch <= '9' {
            digits = true;
        } else {
            symbols = true;
        }
        j += 1;
    }
    CharClassSet { has_lowercase: lowercase, has_uppercase: uppercase, has_digit: digits, has_symbol: symbols }
}

/// The size of the alphabet spanned by the classes in `c`.
pub fn class_size(c: CharClassSet) -> (n: u64)
    ensures
        n == spec_class_size(c),
{
    let mut characters: u64 = 0;
    if c.has_lowercase {
        characters += 26;
    }
    if c.has_uppercase {
        characters += 26;
    }
    if c.has_digit {
        characters += 10;
    }
    if c.has_symbol {
        characters += 10;
    }
    characters
}

/// The brute-force alphabet size of a password: classify it, then sum the
/// class sizes. The brute-force entropy is then `len * log2` of this value.
pub fn bruteforce_class_size(password: &str) -> (n: u64)
    ensures
        n == spec_class_size(spec_classes(password@)),
{
    class_size(classify(password))
}

/// A non-empty password that uses only lowercase letters spans an alphabet of
/// exactly 26 symbols, so its brute-force entropy is `len * log2(26)`.
pub proof fn lemma_lowercase_only_class_size(s: Seq<char>)
    requires
        s.len() > 0,
        forall|i: int| 0 <= i < s.len() ==> is_lowercase(#[trigger] s[i]),
    ensures
        spec_class_size(spec_classes(s)) == 26,
{
    assert(is_lowercase(s[0]));
}

/// A password that uses all four classes spans an alphabet of exactly
/// 26 + 26 + 10 + 10 = 72 symbols, so its brute-force entropy is
/// `len * log2(72)`.
pub proof fn lemma_all_classes_class_size(s: Seq<char>)
    requires
        exists|i: int| 0 <= i < s.len() && is_lowercase(#[trigger] s[i]),
        exists|i: int| 0 <= i < s.len() && is_uppercase(#[trigger] s[i]),
        exists|i: int| 0 <= i < s.len() && is_digit(#[trigger] s[i]),
        exists|i: int| 0 <= i < s.len() && is_symbol(#[trigger] s[i]),
    ensures
        spec_class_size(spec_classes(s)) == 72,
{
}

/// Every character falls into some class, so a non-empty password always
/// spans an alphabet of at least 10 symbols: the `log2` argument of the
/// brute-force model is never below 10 in valid use.
pub proof fn lemma_class_size_at_least_ten(s: Seq<char>)
    requires
        s.len() > 0,
    ensures
        spec_class_size(spec_classes(s)) >= 10,
{
    let c = s[0];
    if is_lowercase(c) {
        assert(spec_classes(s).has_lowercase);
    } else if is_uppercase(c) {
        assert(spec_classes(s).has_uppercase);
    } else if is_digit(c) {
        assert(spec_classes(s).has_digit);
    } else {
        assert(is_symbol(c));
        assert(spec_classes(s).has_symbol);
    }
}

} // verus!
