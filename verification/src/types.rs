//! Text encoding and line ending types.

use vstd::prelude::*;
use vstd::string::StrSliceExecFns;

verus! {

/// Line ending style detected in a file.
#[derive(Debug, Clone, Copy, PartialEq, Eq, Structural)]
pub enum LineEnding {
    /// Unix-style line endings (LF, `\n`)
    Lf,
    /// Windows-style line endings (CRLF, `\r\n`)
    Crlf,
    /// Classic Mac line endings (CR, `\r`)
    Cr,
    /// Mixed line endings detected
    Mixed,
}

impl Default for LineEnding {
    /// LF is the default style.
    fn default() -> (r: Self)
        ensures
            r == LineEnding::Lf,
    {
        LineEnding::Lf
    }
}

/// Occurrences of each line ending in `s`, as (CRLF, lone LF, lone CR).
/// A `'\r'` immediately followed by `'\n'` counts once, as a CRLF pair.
pub open spec fn ending_counts(s: Seq<char>) -> (nat, nat, nat)
    decreases s.len(),
{
    if s.len() == 0 {
        (0 as nat, 0 as nat, 0 as nat)
    } else if s[0] == '\r' && s.len() > 1 && s[1] == '\n' {
        let c = ending_counts(s.skip(2));
        ((c.0 + 1) as nat, c.1, c.2)
    } else if s[0] == '\r' {
        let c = ending_counts(s.skip(1));
        (c.0, c.1, (c.2 + 1) as nat)
    } else if s[0] == '\n' {
        let c = ending_counts(s.skip(1));
        (c.0, (c.1 + 1) as nat, c.2)
    } else {
        ending_counts(s.skip(1))
    }
}

/// The style `detect` reports: the one kind of ending that occurs, LF when
/// none does, and Mixed when several kinds occur together.
pub open spec fn spec_detect(s: Seq<char>) -> LineEnding {
    let c = ending_counts(s);
    if c.0 > 0 && c.1 == 0 && c.2 == 0 {
        LineEnding::Crlf
    } else if c.0 == 0 && c.1 > 0 && c.2 == 0 {
        LineEnding::Lf
    } else if c.0 == 0 && c.1 == 0 && c.2 > 0 {
        LineEnding::Cr
    } else if c.0 == 0 && c.1 == 0 && c.2 == 0 {
        LineEnding::Lf
    } else {
        LineEnding::Mixed
    }
}

impl LineEnding {
    /// Detects the predominant line ending style in the given content.
    pub fn detect(content: &str) -> (r: Self)
        ensures
            r == spec_detect(content@),
    {
        let n = content.unicode_len();
        let mut crlf: usize = 0;
        let mut lf: usize = 0;
        let mut cr: usize = 0;
        let mut i: usize = 0;
        proof {
            assert(content@.skip(0) =~= content@);
        }
        while i < n
            invariant
                i <= n,
                n == content@.len(),
                crlf <= i,
                lf <= i,
                cr <= i,
                ending_counts(content@) == {
                    let rest = ending_counts(content@.skip(i as int));
                    (
                        (crlf + rest.0) as nat,
                        (lf + rest.1) as nat,
                        (cr + rest.2) as nat,
                    )
                },
            decreases n - i,
        {
            let ghost tail = content@.skip(i as int);
            let c = content.get_char(i);
            proof {
                assert(tail[0] == content@[i as int]);
            }
            if c == '\r' {
                if i + 1 < n && content.get_char(i + 1) == '\n' {
                    proof {
                        assert(tail[1] == content@[i as int + 1]);
                        assert(tail.skip(2) =~= content@.skip(i as int + 2));
                    }
                    crlf = crlf + 1;
                    i = i + 2;
                } else {
                    proof {
                        assert(tail.skip(1) =~= content@.skip(i as int + 1));
                    }
                    cr = cr + 1;
                    i = i + 1;
                }
            } else {
                proof {
                    assert(tail.skip(1) =~= content@.skip(i as int + 1));
                }
                if c == '\n' {
                    lf = lf + 1;
                }
                i = i + 1;
            }
        }
        proof {
            assert(content@.skip(n as int) =~= Seq::<char>::empty());
        }
        if crlf > 0 && lf == 0 && cr == 0 {
            LineEnding::Crlf
        } else if crlf == 0 && lf > 0 && cr == 0 {
            LineEnding::Lf
        } else if crlf == 0 && lf == 0 && cr > 0 {
            LineEnding::Cr
        } else if crlf == 0 && lf == 0 && cr == 0 {
            LineEnding::Lf
        } else {
            LineEnding::Mixed
        }
    }

    /// Short label for the status bar.
    pub fn as_str(&self) -> (r: &'static str)
        ensures
            *self is Lf ==> r@ == "LF"@,
            *self is Crlf ==> r@ == "CRLF"@,
            *self is Cr ==> r@ == "CR"@,
            *self is Mixed ==> r@ == "Mixed"@,
    {
        match self {
            LineEnding::Lf => "LF",
            LineEnding::Crlf => "CRLF",
            LineEnding::Cr => "CR",
            LineEnding::Mixed => "Mixed",
        }
    }
}

/// Text encoding of a file.
#[derive(Debug, Clone, Copy, PartialEq, Eq, Structural)]
pub enum Encoding {
    /// UTF-8 encoding (the default)
    Utf8,
}

impl Default for Encoding {
    fn default() -> (r: Self)
        ensures
            r == Encoding::Utf8,
    {
        Encoding::Utf8
    }
}

impl Encoding {
    /// Short label for the status bar.
    pub fn as_str(&self) -> (r: &'static str)
        ensures
            r@ == "UTF-8"@,
    {
        match self {
            Encoding::Utf8 => "UTF-8",
        }
    }
}

} // verus!
