//! Known-wordlist model: the attacker is assumed to know the construction
//! scheme, so the password's entropy is driven by how many separator
//! occurrences it holds (one word's worth of entropy each) plus fixed
//! contributions for the separator choice and the alphanumeric segment.
//! Also holds the word-length filter applied to the wordlist.

use vstd::prelude::*;

verus! {

/// How many occurrences of `c` the sequence holds.
pub open spec fn count_char(s: Seq<char>, c: char) -> nat
    decreases s.len(),
{
    if s.len() == 0 {
        0nat
    } else {
        count_char(s.drop_last(), c) + (if s.last() == c {
            1nat
        } else {
            0nat
        })
    }
}

/// Count the occurrences of `separator` in the password. The wordlist model
/// treats each occurrence as one word chosen from the list, so its
/// word-choice entropy term is this count times `log2(wordlist_size)`.
pub fn separator_count(password: &str, separator: char) -> (n: usize)
    ensures
        n == count_char(password@, separator),
{
    let len = password.unicode_len();
    let mut n: usize = 0;
    let mut j: usize = 0;
    while j < len
        invariant
            len == password@.len(),
            j <= len,
            n <= j,
            n == count_char(password@.subrange(0, j as int), separator),
        decreases len - j,
    {
        let ch = password.get_char(j);
        proof {
            let pre = password@.subrange(0, j as int);
            let post = password@.subrange(0, j + 1int);
            assert(post.drop_last() =~= pre);
            assert(post.last() == password@[j as int]);
        }
        if ch == separator {
            n += 1;
        }
        j += 1;
    }
    proof {
        assert(password@.subrange(0, len as int) =~= password@);
    }
    n
}

/// Counting separator occurrences is additive over concatenation. The
/// word-choice entropy term is `count * log2(wordlist_size)`, so it is linear
/// in the separator count: a password with twice the separator occurrences
/// (for a fixed wordlist size) gets twice the word-choice term.
pub proof fn lemma_count_char_concat(a: Seq<char>, b: Seq<char>, c: char)
    ensures
        count_char(a + b, c) == count_char(a, c) + count_char(b, c),
    decreases b.len(),
{
    if b.len() == 0 {
        assert(a + b =~= a);
    } else {
        assert((a + b).drop_last() =~= a + b.drop_last());
        assert((a + b).last() == b.last());
        lemma_count_char_concat(a, b.drop_last(), c);
    }
}

/// Doubling the separator occurrences doubles the separator count, and with
/// it the word-choice entropy term.
pub proof fn lemma_count_char_double(s: Seq<char>, c: char)
    ensures
        count_char(s + s, c) == 2 * count_char(s, c),
{
    lemma_count_char_concat(s, s, c);
}

/// Whether a word passes the length restriction: at most `max_length`
/// characters.
pub open spec fn word_fits(w: &str, max_length: usize) -> bool {
    w@.len() <= max_length
}

/// Restrict the wordlist to words of at most `max_length` characters,
/// keeping their order; `max_length == 0` means no restriction.
pub fn get_words(wordlist: &Vec<&'static str>, max_length: usize) -> (r: Vec<&'static str>)
    ensures
        max_length == 0 ==> r@ == wordlist@,
        max_length != 0 ==> r@ == wordlist@.filter(|w: &'static str| word_fits(w, max_length)),
{
    let ghost pred = |w: &'static str| word_fits(w, max_length);
    let mut r: Vec<&'static str> = Vec::new();
    let mut j: usize = 0;
    while j < wordlist.len()
        invariant
            j <= wordlist@.len(),
            max_length == 0 ==> r@ == wordlist@.subrange(0, j as int),
            max_length != 0 ==> r@ == wordlist@.subrange(0, j as int).filter(pred),
            pred == (|w: &'static str| word_fits(w, max_length)),
        decreases wordlist@.len() - j,
    {
        let w = wordlist[j];
        proof {
            let pre = wordlist@.subrange(0, j as int);
            let post = wordlist@.subrange(0, j + 1int);
            assert(post =~= pre + seq![wordlist@[j as int]]);
            if max_length != 0 {
                Seq::filter_distributes_over_add(pre, seq![wordlist@[j as int]], pred);
                reveal_with_fuel(Seq::filter, 2);
                assert(seq![wordlist@[j as int]].drop_last() =~= Seq::<&'static str>::empty());
                if pred(wordlist@[j as int]) {
                    assert(post.filter(pred) =~= pre.filter(pred).push(wordlist@[j as int]));
                } else {
                    assert(post.filter(pred) =~= pre.filter(pred));
                }
            }
        }
        if max_length == 0 || w.unicode_len() <= max_length {
            r.push(w);
        }
        j += 1;
    }
    proof {
        assert(wordlist@.subrange(0, wordlist@.len() as int) =~= wordlist@);
    }
    r
}

} // verus!
