//! Report formatting: the entropy figure is right-aligned in a field of five
//! characters and followed by the crack-time string in parentheses.

use vstd::prelude::*;

verus! {

/// A run of `n` spaces.
pub open spec fn spaces(n: int) -> Seq<char>
    decreases n,
{
    if n <= 0 {
        Seq::empty()
    } else {
        spaces(n - 1).push(' ')
    }
}

/// `s` right-aligned in a field of `width` characters: padded on the left
/// with spaces, or unchanged if it is already at least that wide.
pub open spec fn spec_pad_left(s: Seq<char>, width: int) -> Seq<char> {
    if s.len() >= width {
        s
    } else {
        spaces(width - s.len()) + s
    }
}

/// Right-align `s` in a field of `width` characters by padding it on the
/// left with spaces.
pub fn pad_left(s: &str, width: usize) -> (r: String)
    ensures
        r@ == spec_pad_left(s@, width as int),
{
    let n = s.unicode_len();
    let mut r = String::new();
    let mut i: usize = n;
    proof {
        reveal_strlit(" ");
    }
    while i < width
        invariant
            n == s@.len(),
            n <= i,
            n >= width ==> i == n,
            n < width ==> i <= width,
            r@ == spaces(i - n),
            " "@ =~= seq![' '],
        decreases width - i,
    {
        r.append(" ");
        proof {
            assert(spaces(i + 1 - n) =~= spaces(i - n).push(' '));
            assert(r@ =~= spaces(i - n) + seq![' ']);
            assert(spaces(i - n) + seq![' '] =~= spaces(i - n).push(' '));
        }
        i += 1;
    }
    r.append(s);
    proof {
        if n >= width {
            assert(r@ =~= s@);
        }
    }
    r
}

/// One report entry: the bits figure (already formatted to one decimal
/// place) right-aligned to five characters, then ` bits (`, the crack-time
/// string, and a closing parenthesis.
pub open spec fn spec_report_entry(bits: Seq<char>, time: Seq<char>) -> Seq<char> {
    spec_pad_left(bits, 5) + " bits ("@ + time + ")"@
}

/// Compose one line's entropy-and-crack-time entry for the report.
pub fn report_entry(bits: &str, time: &str) -> (r: String)
    ensures
        r@ == spec_report_entry(bits@, time@),
{
    let mut r = pad_left(bits, 5);
    r.append(" bits (");
    r.append(time);
    r.append(")");
    r
}

} // verus!
