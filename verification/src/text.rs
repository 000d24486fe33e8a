//! Small text utilities: tab normalization and digit grouping.

use vstd::prelude::*;
use vstd::string::{StrSliceExecFns, StringExecFns};

verus! {

/// Relies on `String::push` from std, which vstd leaves unspecified:
/// it appends the given character to the end of the string.
pub assume_specification[ String::push ](s: &mut String, ch: char)
    ensures
        final(s)@ == old(s)@.push(ch),
;

/// What one character becomes under tab normalization: a tab turns into
/// two spaces, everything else stays itself.
pub open spec fn expand_tab(c: char) -> Seq<char> {
    if c == '\t' {
        seq![' ', ' ']
    } else {
        seq![c]
    }
}

/// The text with every tab replaced by two spaces.
pub open spec fn spec_normalize_tabs(s: Seq<char>) -> Seq<char>
    decreases s.len(),
{
    if s.len() == 0 {
        Seq::empty()
    } else {
        spec_normalize_tabs(s.drop_last()) + expand_tab(s.last())
    }
}

/// Normalize tabs to two spaces.
pub fn normalize_tabs(content: &str) -> (r: String)
    ensures
        r@ == spec_normalize_tabs(content@),
{
    let n = content.unicode_len();
    let mut out = String::new();
    let mut i: usize = 0;
    proof {
        assert(content@.take(0) =~= Seq::<char>::empty());
    }
    while i < n
        invariant
            i <= n,
            n == content@.len(),
            out@ == spec_normalize_tabs(content@.take(i as int)),
        decreases n - i,
    {
        let c = content.get_char(i);
        if c == '\t' {
            out.push(' ');
            out.push(' ');
        } else {
            out.push(c);
        }
        i = i + 1;
        proof {
            assert(content@.take(i as int).drop_last() =~= content@.take(i as int - 1));
            assert(content@.take(i as int).last() == content@[i as int - 1]);
            assert(out@ =~= spec_normalize_tabs(content@.take(i as int)));
        }
    }
    proof {
        assert(content@.take(n as int) =~= content@);
    }
    out
}

/// Window title for a file name and dirty state: a trailing ` *` marks
/// unsaved changes.
pub fn title_text(filename: &str, is_dirty: bool) -> (r: String)
    ensures
        is_dirty ==> r@ == filename@ + " *"@,
        !is_dirty ==> r@ == filename@,
{
    let mut title = String::from_str(filename);
    if is_dirty {
        title.append(" *");
    }
    title
}

/// The character for one decimal digit.
pub open spec fn digit_char(d: nat) -> char {
    if d == 0 {
        '0'
    } else if d == 1 {
        '1'
    } else if d == 2 {
        '2'
    } else if d == 3 {
        '3'
    } else if d == 4 {
        '4'
    } else if d == 5 {
        '5'
    } else if d == 6 {
        '6'
    } else if d == 7 {
        '7'
    } else if d == 8 {
        '8'
    } else {
        '9'
    }
}

/// The decimal digits of `n`, most significant first, without leading
/// zeros (except for `n == 0`, which is the single digit `'0'`).
pub open spec fn decimal_digits(n: nat) -> Seq<char>
    decreases n,
{
    if n < 10 {
        seq![digit_char(n)]
    } else {
        decimal_digits(n / 10) + seq![digit_char(n % 10)]
    }
}

/// The digits grouped in threes from the right, the groups separated by
/// commas.
pub open spec fn group_digits(ds: Seq<char>) -> Seq<char>
    decreases ds.len(),
{
    if ds.len() <= 3 {
        ds
    } else {
        group_digits(ds.take(ds.len() - 3)) + seq![','] + ds.skip(ds.len() - 3)
    }
}

fn digit_to_char(d: usize) -> (c: char)
    requires
        d < 10,
    ensures
        c == digit_char(d as nat),
{
    if d == 0 {
        '0'
    } else if d == 1 {
        '1'
    } else if d == 2 {
        '2'
    } else if d == 3 {
        '3'
    } else if d == 4 {
        '4'
    } else if d == 5 {
        '5'
    } else if d == 6 {
        '6'
    } else if d == 7 {
        '7'
    } else if d == 8 {
        '8'
    } else {
        '9'
    }
}

/// Group the `len` most significant of the digits held in `rev` (least
/// significant first), commas every three digits from the right.
fn group_from_reversed(rev: &Vec<char>, len: usize) -> (out: String)
    requires
        1 <= len <= rev@.len(),
    ensures
        out@ == group_digits(rev@.reverse().take(len as int)),
    decreases len,
{
    let m = rev.len();
    let ghost ds = rev@.reverse();
    if len <= 3 {
        let mut out = String::new();
        out.push(rev[m - 1]);
        if len >= 2 {
            out.push(rev[m - 2]);
        }
        if len >= 3 {
            out.push(rev[m - 3]);
        }
        proof {
            assert(out@ =~= ds.take(len as int));
        }
        out
    } else {
        let mut out = group_from_reversed(rev, len - 3);
        out.push(',');
        out.push(rev[m - len + 2]);
        out.push(rev[m - len + 1]);
        out.push(rev[m - len]);
        proof {
            assert(ds.take(len as int).take(len as int - 3) =~= ds.take(len as int - 3));
            assert(out@ =~= group_digits(ds.take(len as int)));
        }
        out
    }
}

/// Render `value` in decimal with thousands separators: the digits in
/// groups of three from the right, separated by commas.
pub fn format_with_commas(value: usize) -> (r: String)
    ensures
        r@ == group_digits(decimal_digits(value as nat)),
{
    let mut rev: Vec<char> = Vec::new();
    if value == 0 {
        rev.push('0');
        proof {
            assert(rev@.reverse() =~= decimal_digits(0));
        }
    } else {
        let mut v: usize = value;
        while v > 0
            invariant
                v > 0 ==> decimal_digits(value as nat) == decimal_digits(v as nat)
                    + rev@.reverse(),
                v == 0 ==> decimal_digits(value as nat) == rev@.reverse(),
            decreases v,
        {
            let ghost prev = rev@;
            let d = v % 10;
            rev.push(digit_to_char(d));
            proof {
                assert(rev@.reverse() =~= seq![digit_char(d as nat)] + prev.reverse());
            }
            v = v / 10;
            proof {
                if v > 0 {
                    assert(decimal_digits((v * 10 + d) as nat) == decimal_digits(v as nat)
                        + seq![digit_char(d as nat)]);
                    assert(decimal_digits(v as nat) + seq![digit_char(d as nat)]
                        + prev.reverse() =~= decimal_digits(v as nat) + rev@.reverse());
                } else {
                    assert(decimal_digits((v * 10 + d) as nat) == seq![digit_char(d as nat)]);
                }
            }
        }
    }
    let len = rev.len();
    let out = group_from_reversed(&rev, len);
    proof {
        assert(rev@.reverse().take(len as int) =~= rev@.reverse());
    }
    out
}

} // verus!
