//! Mapping from a linear text offset to a (line, column) position.
//!
//! Needed to restore the caret after a history jump: a snapshot stores the
//! caret as an offset, the text buffer takes a line/column pair.

use vstd::prelude::*;
use vstd::string::StrSliceExecFns;

verus! {

/// A 0-based (line, column) position in a document.
#[derive(PartialEq, Eq, Structural, Debug, Clone, Copy)]
pub struct Position {
    pub line: usize,
    pub character: usize,
}

/// Position reached after reading `prefix`: the line counts `'\n'`
/// occurrences in it, the column the scalar values since the last `'\n'`
/// (or since the start).
pub open spec fn pos_after(prefix: Seq<char>) -> (nat, nat)
    decreases prefix.len(),
{
    if prefix.len() == 0 {
        (0 as nat, 0 as nat)
    } else {
        let p = pos_after(prefix.drop_last());
        if prefix.last() == '\n' {
            ((p.0 + 1) as nat, 0 as nat)
        } else {
            (p.0, (p.1 + 1) as nat)
        }
    }
}

/// Offsets beyond the end of the text clamp to the end.
pub open spec fn clamped(text: Seq<char>, offset: int) -> int {
    if offset <= text.len() {
        offset
    } else {
        text.len() as int
    }
}

/// The position of `offset` in `text`: the position reached after reading
/// the first `offset` scalar values (clamped to the text's length).
pub open spec fn spec_offset_to_position(text: Seq<char>, offset: int) -> (nat, nat) {
    pos_after(text.take(clamped(text, offset)))
}

/// Map a scalar-value offset into `text` to its 0-based (line, column)
/// position. Total: offsets beyond the end are treated as end-of-text.
/// Iterates by Unicode scalar value, so a multi-byte character counts as
/// one column unit.
pub fn offset_to_position(text: &str, offset: usize) -> (p: Position)
    ensures
        (p.line as nat, p.character as nat) == spec_offset_to_position(text@, offset as int),
{
    let n = text.unicode_len();
    let end = if offset < n {
        offset
    } else {
        n
    };
    let mut line: usize = 0;
    let mut character: usize = 0;
    let mut i: usize = 0;
    while i < end
        invariant
            i <= end <= n,
            n == text@.len(),
            end == clamped(text@, offset as int),
            (line as nat, character as nat) == pos_after(text@.take(i as int)),
            line <= i,
            character <= i,
        decreases end - i,
    {
        let c = text.get_char(i);
        if c == '\n' {
            line = line + 1;
            character = 0;
        } else {
            character = character + 1;
        }
        i = i + 1;
        proof {
            assert(text@.take(i as int).drop_last() =~= text@.take(i as int - 1));
            assert(text@.take(i as int).last() == text@[i as int - 1]);
        }
    }
    Position { line, character }
}

} // verus!
