//! Randomized password construction: three words drawn from the wordlist and
//! one three-character alphanumeric segment (at least one uppercase letter
//! and one digit), inserted at a random position among the words, all joined
//! by dashes.

use vstd::prelude::*;
use crate::charclass::is_digit;
use crate::charclass::is_uppercase;
use crate::rng::choose_str;
use crate::rng::gen_index;
use crate::rng::new_thread_rng;

verus! {

pub open spec fn is_upper_or_digit(c: char) -> bool {
    is_uppercase(c) || is_digit(c)
}

/// The alphanumeric segment: three characters, each an uppercase letter or a
/// digit, with at least one of each.
pub open spec fn is_alnum_segment(s: Seq<char>) -> bool {
    &&& s.len() == 3
    &&& (forall|i: int| 0 <= i < s.len() ==> is_upper_or_digit(#[trigger] s[i]))
    &&& (exists|i: int| 0 <= i < s.len() && is_uppercase(#[trigger] s[i]))
    &&& (exists|i: int| 0 <= i < s.len() && is_digit(#[trigger] s[i]))
}

/// Whether `part` is one of the wordlist's words.
pub open spec fn from_wordlist(words: Seq<&'static str>, part: Seq<char>) -> bool {
    exists|k: int| 0 <= k < words.len() && (#[trigger] words[k])@ == part
}

/// The parts joined by single occurrences of `sep`, with no leading or
/// trailing separator.
pub open spec fn join_with(parts: Seq<Seq<char>>, sep: char) -> Seq<char>
    decreases parts.len(),
{
    if parts.len() == 0 {
        Seq::empty()
    } else if parts.len() == 1 {
        parts[0]
    } else {
        join_with(parts.drop_last(), sep) + seq![sep] + parts.last()
    }
}

/// What holds of every generated password: it is four dash-joined parts, one
/// of which (at some position) is a valid alphanumeric segment while the
/// other three are words of the list.
pub open spec fn valid_password(words: Seq<&'static str>, p: Seq<char>) -> bool {
    exists|parts: Seq<Seq<char>>, pos: int|
        #![trigger parts[pos]]
        {
            &&& parts.len() == 4
            &&& 0 <= pos < 4
            &&& is_alnum_segment(parts[pos])
            &&& (forall|j: int| 0 <= j < 4 && j != pos ==> from_wordlist(
                words,
                (#[trigger] parts[j]),
            ))
            &&& p == join_with(parts, '-')
        }
}

/// A uniformly random uppercase letter.
fn random_uppercase(rng: &mut rand::rngs::ThreadRng) -> (c: char)
    ensures
        is_uppercase(c),
{
    let i = gen_index(rng, 26);
    (65 + i as u8) as char
}

/// A uniformly random digit.
fn random_digit(rng: &mut rand::rngs::ThreadRng) -> (c: char)
    ensures
        is_digit(c),
{
    let i = gen_index(rng, 10);
    (48 + i as u8) as char
}

/// A uniformly random character of the joint 36-symbol alphabet of uppercase
/// letters and digits.
fn random_alnum(rng: &mut rand::rngs::ThreadRng) -> (c: char)
    ensures
        is_upper_or_digit(c),
{
    let i = gen_index(rng, 36);
    if i < 26 {
        (65 + i as u8) as char
    } else {
        (48 + (i - 26) as u8) as char
    }
}

/// Relies on std's `FromIterator` impl for `String`: the collected string
/// holds exactly the characters of the vector, in order.
#[verifier::external_body]
fn chars_to_string(cs: &Vec<char>) -> (r: String)
    ensures
        r@ == cs@,
{
    cs.iter().collect()
}

/// Generate a password from the (already length-filtered, non-empty)
/// wordlist: three random words plus one random alphanumeric segment at a
/// random position, joined by dashes.
pub fn generate_password(words: &Vec<&'static str>) -> (password: String)
    requires
        words@.len() > 0,
    ensures
        valid_password(words@, password@),
{
    let mut rng = new_thread_rng();

    // The word parts of the password.
    let mut parts: Vec<String> = Vec::new();
    let mut k: usize = 0;
    while k < 3
        invariant
            words@.len() > 0,
            parts@.len() == k,
            k <= 3,
            forall|j: int| 0 <= j < k ==> from_wordlist(words@, (#[trigger] parts@[j])@),
        decreases 3 - k,
    {
        let w = choose_str(&mut rng, words);
        let s = w.unwrap();
        parts.push(s.to_owned());
        k += 1;
    }

    // The alphanumeric segment: one uppercase letter, one digit, and one
    // character from the joint 36-symbol alphabet, arranged in one of the
    // six possible orders at random.
    let letter = random_uppercase(&mut rng);
    let digit = random_digit(&mut rng);
    let extra = random_alnum(&mut rng);
    let order = gen_index(&mut rng, 6);
    let mut seg: Vec<char> = Vec::new();
    if order == 0 {
        seg.push(letter);
        seg.push(digit);
        seg.push(extra);
    } else if order == 1 {
        seg.push(letter);
        seg.push(extra);
        seg.push(digit);
    } else if order == 2 {
        seg.push(digit);
        seg.push(letter);
        seg.push(extra);
    } else if order == 3 {
        seg.push(digit);
        seg.push(extra);
        seg.push(letter);
    } else if order == 4 {
        seg.push(extra);
        seg.push(letter);
        seg.push(digit);
    } else {
        seg.push(extra);
        seg.push(digit);
        seg.push(letter);
    }
    proof {
        assert(is_upper_or_digit(seg@[0]));
        assert(is_upper_or_digit(seg@[1]));
        assert(is_upper_or_digit(seg@[2]));
        assert(is_alnum_segment(seg@));
    }
    let segment = chars_to_string(&seg);

    // Insert the segment at one of the four possible positions.
    let pos = gen_index(&mut rng, 4);
    let ghost word_parts = parts@;
    parts.insert(pos, segment);
    proof {
        assert(parts@ == word_parts.insert(pos as int, segment));
        assert(parts@[pos as int]@ == seg@);
        assert forall|j: int| 0 <= j < 4 && j != pos implies from_wordlist(
            words@,
            parts@[j]@,
        ) by {
            if j < pos {
                assert(parts@[j] == word_parts[j]);
            } else {
                assert(parts@[j] == word_parts[j - 1]);
            }
        }
    }

    // Join the four parts with dashes.
    let ghost pseq: Seq<Seq<char>> = Seq::new(4, |j: int| parts@[j]@);
    let mut password = String::new();
    let mut j: usize = 0;
    proof {
        reveal_strlit("-");
    }
    while j < 4
        invariant
            parts@.len() == 4,
            pseq == Seq::new(4, |jj: int| parts@[jj]@),
            j <= 4,
            password@ == join_with(pseq.subrange(0, j as int), '-'),
            "-"@ =~= seq!['-'],
        decreases 4 - j,
    {
        if j > 0 {
            password.append("-");
        }
        password.append(parts[j].as_str());
        proof {
            let pre = pseq.subrange(0, j as int);
            let post = pseq.subrange(0, j + 1int);
            assert(post.len() == j + 1);
            assert(post.last() == pseq[j as int]);
            if j == 0 {
                assert(join_with(post, '-') == post[0]);
                assert(password@ =~= post[0]);
            } else {
                assert(post.drop_last() =~= pre);
                assert(join_with(post, '-') == join_with(pre, '-') + seq!['-'] + pseq[j as int]);
                assert(password@ =~= join_with(pre, '-') + seq!['-'] + pseq[j as int]);
            }
        }
        j += 1;
    }
    proof {
        assert(pseq.subrange(0, 4) =~= pseq);
        assert(is_alnum_segment(pseq[pos as int]));
        assert(forall|j2: int|
            0 <= j2 < 4 && j2 != pos ==> from_wordlist(words@, (#[trigger] pseq[j2])));
        assert(password@ == join_with(pseq, '-'));
    }
    password
}

} // verus!
