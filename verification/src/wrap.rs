//! Greedy text wrapping for the document exporter.
//!
//! Text is wrapped into lines of approximately a given width, paragraph by
//! paragraph, preserving each paragraph's leading indentation on every
//! continuation line. Words are separated by Unicode whitespace.
//!
//! Widths deliberately count Unicode scalar values, not bytes: the width
//! stands for column positions on a page, and a multi-byte character fills
//! one column, so counting bytes would wrap non-ASCII text too early.

use vstd::prelude::*;
use vstd::string::StrSliceExecFns;

verus! {

/// Whitespace that separates words and forms indentation inside one
/// paragraph line: the characters with Unicode's White_Space property.
pub open spec fn is_space(c: char) -> bool {
    ||| (9 <= c as int && c as int <= 13)
    ||| c as int == 0x20
    ||| c as int == 0x85
    ||| c as int == 0xa0
    ||| c as int == 0x1680
    ||| (0x2000 <= c as int && c as int <= 0x200a)
    ||| c as int == 0x2028
    ||| c as int == 0x2029
    ||| c as int == 0x202f
    ||| c as int == 0x205f
    ||| c as int == 0x3000
}

/// One trailing carriage return is dropped from a paragraph that a line
/// feed terminated.
pub open spec fn strip_cr(line: Seq<char>) -> Seq<char> {
    if line.len() > 0 && line.last() == '\r' {
        line.drop_last()
    } else {
        line
    }
}

/// The paragraphs of `s` from position `i` on, with `cur` the partial
/// paragraph read so far: split at `'\n'`, a carriage return directly
/// before the line feed dropped, no empty paragraph after a final line
/// feed.
pub open spec fn lines_from(s: Seq<char>, i: int, cur: Seq<char>) -> Seq<Seq<char>>
    decreases s.len() - i,
{
    if i < 0 || i >= s.len() {
        if cur.len() > 0 {
            seq![cur]
        } else {
            Seq::empty()
        }
    } else if s[i] == '\n' {
        seq![strip_cr(cur)] + lines_from(s, i + 1, Seq::empty())
    } else {
        lines_from(s, i + 1, cur.push(s[i]))
    }
}

/// The paragraphs of `s`.
pub open spec fn split_lines(s: Seq<char>) -> Seq<Seq<char>> {
    lines_from(s, 0, Seq::empty())
}

/// The words of `line` from position `i` on, with `cur` the partial word
/// read so far: maximal runs of non-space characters.
pub open spec fn words_from(line: Seq<char>, i: int, cur: Seq<char>) -> Seq<Seq<char>>
    decreases line.len() - i,
{
    if i < 0 || i >= line.len() {
        if cur.len() > 0 {
            seq![cur]
        } else {
            Seq::empty()
        }
    } else if is_space(line[i]) {
        if cur.len() > 0 {
            seq![cur] + words_from(line, i + 1, Seq::empty())
        } else {
            words_from(line, i + 1, Seq::empty())
        }
    } else {
        words_from(line, i + 1, cur.push(line[i]))
    }
}

/// The words of `line`.
pub open spec fn split_words(line: Seq<char>) -> Seq<Seq<char>> {
    words_from(line, 0, Seq::empty())
}

/// Index of the first non-space character of `line` at or after `i`, or
/// the line's length when spaces run to the end.
pub open spec fn indent_end(line: Seq<char>, i: int) -> int
    decreases line.len() - i,
{
    if i < 0 || i >= line.len() {
        line.len() as int
    } else if is_space(line[i]) {
        indent_end(line, i + 1)
    } else {
        i
    }
}

/// The leading whitespace of `line`.
pub open spec fn indent_of(line: Seq<char>) -> Seq<char> {
    line.take(indent_end(line, 0))
}

/// Greedy packing of `words[k..]` onto lines at most `max` wide, with
/// `cur` the line under construction: a word joins the current line when
/// line, one separating space and word fit within `max`, and otherwise
/// starts a fresh line of `indent` and the word. The final line is always
/// emitted.
pub open spec fn greedy(
    words: Seq<Seq<char>>,
    k: int,
    cur: Seq<char>,
    indent: Seq<char>,
    max: int,
) -> Seq<Seq<char>>
    decreases words.len() - k,
{
    if k < 0 || k >= words.len() {
        seq![cur]
    } else if cur.len() + 1 + words[k].len() <= max {
        greedy(words, k + 1, cur + seq![' '] + words[k], indent, max)
    } else {
        seq![cur] + greedy(words, k + 1, indent + words[k], indent, max)
    }
}

/// The wrapped form of one paragraph: a paragraph without words (empty or
/// all whitespace) stays a single empty line; otherwise the words are
/// packed greedily, every produced line starting with the paragraph's
/// indentation.
pub open spec fn wrap_line(line: Seq<char>, max: int) -> Seq<Seq<char>> {
    let words = split_words(line);
    if words.len() == 0 {
        seq![Seq::<char>::empty()]
    } else {
        greedy(words, 1, indent_of(line) + words[0], indent_of(line), max)
    }
}

/// The wrapped forms of `lines[k..]`, concatenated in order.
pub open spec fn wrap_lines_from(lines: Seq<Seq<char>>, k: int, max: int) -> Seq<Seq<char>>
    decreases lines.len() - k,
{
    if k < 0 || k >= lines.len() {
        Seq::empty()
    } else {
        wrap_line(lines[k], max) + wrap_lines_from(lines, k + 1, max)
    }
}

/// The wrapped form of a whole text: each paragraph wrapped to width
/// `max`, in order.
pub open spec fn spec_wrap_text(content: Seq<char>, max: int) -> Seq<Seq<char>> {
    wrap_lines_from(split_lines(content), 0, max)
}

/// The character sequences a vector of strings holds.
pub open spec fn texts_of(v: Seq<String>) -> Seq<Seq<char>> {
    v.map(|i: int, s: String| s@)
}

/// The character sequences a vector of character vectors holds.
pub open spec fn seqs_of(v: Seq<Vec<char>>) -> Seq<Seq<char>> {
    v.map(|i: int, l: Vec<char>| l@)
}

fn is_space_char(c: char) -> (r: bool)
    ensures
        r == is_space(c),
{
    let u = c as u32;
    (9 <= u && u <= 13) || u == 0x20 || u == 0x85 || u == 0xa0 || u == 0x1680 || (0x2000 <= u
        && u <= 0x200a) || u == 0x2028 || u == 0x2029 || u == 0x202f || u == 0x205f
        || u == 0x3000
}

fn str_to_chars(s: &str) -> (r: Vec<char>)
    ensures
        r@ == s@,
{
    let n = s.unicode_len();
    let mut r: Vec<char> = Vec::new();
    let mut i: usize = 0;
    while i < n
        invariant
            i <= n,
            n == s@.len(),
            r@ == s@.take(i as int),
        decreases n - i,
    {
        r.push(s.get_char(i));
        i = i + 1;
        proof {
            assert(r@ =~= s@.take(i as int));
        }
    }
    proof {
        assert(s@.take(n as int) =~= s@);
    }
    r
}

fn chars_to_string(v: &Vec<char>) -> (r: String)
    ensures
        r@ == v@,
{
    let n = v.len();
    let mut r = String::new();
    let mut i: usize = 0;
    while i < n
        invariant
            i <= n,
            n == v@.len(),
            r@ == v@.take(i as int),
        decreases n - i,
    {
        r.push(v[i]);
        i = i + 1;
        proof {
            assert(r@ =~= v@.take(i as int));
        }
    }
    proof {
        assert(v@.take(n as int) =~= v@);
    }
    r
}

fn sub_chars(v: &Vec<char>, from: usize, to: usize) -> (r: Vec<char>)
    requires
        from <= to <= v@.len(),
    ensures
        r@ == v@.subrange(from as int, to as int),
{
    let mut r: Vec<char> = Vec::new();
    let mut i: usize = from;
    while i < to
        invariant
            from <= i <= to <= v@.len(),
            r@ == v@.subrange(from as int, i as int),
        decreases to - i,
    {
        r.push(v[i]);
        i = i + 1;
        proof {
            assert(r@ =~= v@.subrange(from as int, i as int));
        }
    }
    r
}

fn extend_chars(dst: &mut Vec<char>, src: &Vec<char>)
    ensures
        final(dst)@ == old(dst)@ + src@,
{
    let n = src.len();
    let mut i: usize = 0;
    while i < n
        invariant
            i <= n,
            n == src@.len(),
            dst@ == old(dst)@ + src@.take(i as int),
        decreases n - i,
    {
        dst.push(src[i]);
        i = i + 1;
        proof {
            assert(dst@ =~= old(dst)@ + src@.take(i as int));
        }
    }
    proof {
        assert(old(dst)@ + src@.take(n as int) =~= old(dst)@ + src@);
    }
}

/// Wrap one paragraph and append the produced lines to `out`.
fn wrap_one_line(line: &Vec<char>, max_chars: usize, out: &mut Vec<String>)
    ensures
        texts_of(final(out)@) == texts_of(old(out)@) + wrap_line(line@, max_chars as int),
{
    let ghost max = max_chars as int;
    let n = line.len();

    // Leading whitespace (indentation) of the paragraph.
    let mut j: usize = 0;
    while j < n && is_space_char(line[j])
        invariant
            j <= n,
            n == line@.len(),
            indent_end(line@, 0) == indent_end(line@, j as int),
        decreases n - j,
    {
        j = j + 1;
    }
    let indent = sub_chars(line, 0, j);
    proof {
        assert(indent_end(line@, j as int) == j);
        assert(indent@ =~= indent_of(line@));
    }

    // The paragraph's words.
    let mut words: Vec<Vec<char>> = Vec::new();
    let mut cw: Vec<char> = Vec::new();
    let mut i: usize = 0;
    while i < n
        invariant
            i <= n,
            n == line@.len(),
            split_words(line@) == seqs_of(words@) + words_from(line@, i as int, cw@),
        decreases n - i,
    {
        let ghost prev_words = words@;
        let ghost prev_cw = cw@;
        let c = line[i];
        if is_space_char(c) {
            if cw.len() > 0 {
                words.push(cw);
                cw = Vec::new();
                proof {
                    assert(words_from(line@, i as int, prev_cw) == seq![prev_cw] + words_from(
                        line@,
                        i as int + 1,
                        Seq::<char>::empty(),
                    ));
                    assert(seqs_of(words@) =~= seqs_of(prev_words) + seq![prev_cw]);
                    assert(seqs_of(words@) + words_from(line@, i as int + 1, cw@)
                        =~= seqs_of(prev_words) + words_from(line@, i as int, prev_cw));
                }
            } else {
                proof {
                    assert(prev_cw =~= Seq::<char>::empty());
                    assert(words_from(line@, i as int, prev_cw) == words_from(
                        line@,
                        i as int + 1,
                        cw@,
                    ));
                }
            }
        } else {
            cw.push(c);
            proof {
                assert(cw@ == prev_cw.push(line@[i as int]));
                assert(words_from(line@, i as int, prev_cw) == words_from(
                    line@,
                    i as int + 1,
                    cw@,
                ));
            }
        }
        i = i + 1;
    }
    if cw.len() > 0 {
        let ghost prev_words = words@;
        words.push(cw);
        proof {
            assert(seqs_of(words@) =~= seqs_of(prev_words) + seq![words@.last()@]);
            assert(split_words(line@) =~= seqs_of(words@));
        }
    } else {
        proof {
            assert(split_words(line@) =~= seqs_of(words@));
        }
    }

    if words.len() == 0 {
        let ghost prev_out = out@;
        out.push(String::new());
        proof {
            assert(texts_of(out@) =~= texts_of(prev_out) + wrap_line(line@, max));
        }
        return ;
    }

    // Greedy packing.
    let mut cur = sub_chars(&indent, 0, indent.len());
    extend_chars(&mut cur, &words[0]);
    proof {
        assert(indent@.subrange(0, indent@.len() as int) =~= indent@);
        assert(cur@ =~= indent_of(line@) + split_words(line@)[0]);
    }
    let mut k: usize = 1;
    while k < words.len()
        invariant
            1 <= k <= words@.len(),
            indent@ == indent_of(line@),
            seqs_of(words@) == split_words(line@),
            texts_of(out@) + greedy(seqs_of(words@), k as int, cur@, indent@, max)
                == texts_of(old(out)@) + wrap_line(line@, max),
            max == max_chars as int,
        decreases words@.len() - k,
    {
        let ghost prev_cur = cur@;
        let w = &words[k];
        proof {
            assert(w@ == seqs_of(words@)[k as int]);
        }
        let fits = cur.len() < max_chars && w.len() <= max_chars - cur.len() - 1;
        proof {
            assert(fits == (prev_cur.len() + 1 + seqs_of(words@)[k as int].len() <= max));
        }
        if fits {
            cur.push(' ');
            extend_chars(&mut cur, w);
            proof {
                assert(cur@ =~= prev_cur + seq![' '] + w@);
            }
        } else {
            let ghost prev_out = out@;
            let done = chars_to_string(&cur);
            out.push(done);
            cur = sub_chars(&indent, 0, indent.len());
            extend_chars(&mut cur, &words[k]);
            proof {
                assert(indent@.subrange(0, indent@.len() as int) =~= indent@);
                assert(cur@ =~= indent@ + seqs_of(words@)[k as int]);
                assert(texts_of(out@) =~= texts_of(prev_out) + seq![prev_cur]);
                assert(greedy(seqs_of(words@), k as int, prev_cur, indent@, max) == seq![prev_cur]
                    + greedy(seqs_of(words@), k as int + 1, cur@, indent@, max));
                assert(texts_of(out@) + greedy(seqs_of(words@), k as int + 1, cur@, indent@, max)
                    =~= texts_of(prev_out) + greedy(
                    seqs_of(words@),
                    k as int,
                    prev_cur,
                    indent@,
                    max,
                ));
            }
        }
        k = k + 1;
    }
    let ghost prev_out = out@;
    let done = chars_to_string(&cur);
    out.push(done);
    proof {
        assert(texts_of(out@) =~= texts_of(prev_out) + seq![cur@]);
        assert(texts_of(out@) =~= texts_of(old(out)@) + wrap_line(line@, max));
    }
}

/// Wraps text into lines of approximately the given width, preserving each
/// paragraph's leading whitespace (indentation) on every produced line.
pub fn wrap_text(content: &str, max_chars: usize) -> (r: Vec<String>)
    ensures
        texts_of(r@) == spec_wrap_text(content@, max_chars as int),
{
    let cs = str_to_chars(content);
    let n = cs.len();

    // Split into paragraphs.
    let mut lines: Vec<Vec<char>> = Vec::new();
    let mut cur: Vec<char> = Vec::new();
    let mut i: usize = 0;
    while i < n
        invariant
            i <= n,
            n == cs@.len(),
            cs@ == content@,
            split_lines(content@) == seqs_of(lines@) + lines_from(content@, i as int, cur@),
        decreases n - i,
    {
        let c = cs[i];
        if c == '\n' {
            let ghost raw = cur@;
            if cur.len() > 0 && cur[cur.len() - 1] == '\r' {
                cur.pop();
            }
            proof {
                assert(cur@ =~= strip_cr(raw));
            }
            let ghost prev_lines = lines@;
            lines.push(cur);
            cur = Vec::new();
            proof {
                assert(seqs_of(lines@) =~= seqs_of(prev_lines) + seq![strip_cr(raw)]);
                assert(seqs_of(lines@) + lines_from(content@, i as int + 1, cur@)
                    =~= seqs_of(prev_lines) + lines_from(content@, i as int, raw));
            }
        } else {
            cur.push(c);
        }
        i = i + 1;
    }
    if cur.len() > 0 {
        let ghost prev_lines = lines@;
        lines.push(cur);
        proof {
            assert(seqs_of(lines@) =~= seqs_of(prev_lines) + seq![lines@.last()@]);
            assert(split_lines(content@) =~= seqs_of(lines@));
        }
    } else {
        proof {
            assert(split_lines(content@) =~= seqs_of(lines@));
        }
    }

    // Wrap each paragraph.
    let mut out: Vec<String> = Vec::new();
    let mut k: usize = 0;
    while k < lines.len()
        invariant
            k <= lines@.len(),
            seqs_of(lines@) == split_lines(content@),
            texts_of(out@) + wrap_lines_from(seqs_of(lines@), k as int, max_chars as int)
                == spec_wrap_text(content@, max_chars as int),
        decreases lines@.len() - k,
    {
        let ghost prev_out = out@;
        wrap_one_line(&lines[k], max_chars, &mut out);
        proof {
            assert(lines@[k as int]@ == seqs_of(lines@)[k as int]);
            assert(texts_of(out@) + wrap_lines_from(seqs_of(lines@), k as int + 1, max_chars as int)
                =~= texts_of(prev_out) + wrap_lines_from(
                seqs_of(lines@),
                k as int,
                max_chars as int,
            ));
        }
        k = k + 1;
    }
    out
}

} // verus!
