//! Splits G-code text into the command lines that a device is to receive.

use vstd::prelude::*;
use crate::text::{char_is_whitespace, is_whitespace, string_of, texts};

verus! {

/// A comment runs from `;` or `(` to the end of its line.
pub open spec fn is_comment_mark(c: char) -> bool {
    c == ';' || c == '('
}

/// The number of characters of a line that precede its comment.
pub open spec fn code_len(line: Seq<char>) -> nat
    decreases line.len(),
{
    if line.len() == 0 || is_comment_mark(line[0]) {
        0
    } else {
        1 + code_len(line.drop_first())
    }
}

/// A line without its comment.
pub open spec fn strip_comment(line: Seq<char>) -> Seq<char> {
    line.take(code_len(line) as int)
}

/// A text without its leading whitespace.
pub open spec fn trim_start(text: Seq<char>) -> Seq<char>
    decreases text.len(),
{
    if text.len() > 0 && is_whitespace(text[0]) {
        trim_start(text.drop_first())
    } else {
        text
    }
}

/// A text without its trailing whitespace.
pub open spec fn trim_end(text: Seq<char>) -> Seq<char>
    decreases text.len(),
{
    if text.len() > 0 && is_whitespace(text.last()) {
        trim_end(text.drop_last())
    } else {
        text
    }
}

/// A text without the whitespace around it.
pub open spec fn trim(text: Seq<char>) -> Seq<char> {
    trim_end(trim_start(text))
}

/// The command that a line holds: the line without its comment and without
/// the whitespace around what is left.
pub open spec fn command(line: Seq<char>) -> Seq<char> {
    trim(strip_comment(line))
}

/// The segments of a text between its line feeds. A text of n line feeds
/// has n + 1 segments, the last of which is what follows the last line feed.
pub open spec fn segments(text: Seq<char>) -> Seq<Seq<char>>
    decreases text.len(),
{
    if text.len() == 0 {
        seq![Seq::<char>::empty()]
    } else {
        let before = segments(text.drop_last());
        if text.last() == '\n' {
            before.push(Seq::<char>::empty())
        } else {
            before.drop_last().push(before.last().push(text.last()))
        }
    }
}

/// The commands of a sequence of lines, in order, without the empty ones.
pub open spec fn commands(lines: Seq<Seq<char>>) -> Seq<Seq<char>>
    decreases lines.len(),
{
    if lines.len() == 0 {
        Seq::<Seq<char>>::empty()
    } else {
        let before = commands(lines.drop_last());
        let last = command(lines.last());
        if last.len() > 0 {
            before.push(last)
        } else {
            before
        }
    }
}

/// The command lines of a G-code text.
pub open spec fn parsed(text: Seq<char>) -> Seq<Seq<char>> {
    commands(segments(text))
}

/// A text always has a segment.
proof fn lemma_segments_nonempty(text: Seq<char>)
    ensures
        segments(text).len() >= 1,
    decreases text.len(),
{
    if text.len() > 0 {
        lemma_segments_nonempty(text.drop_last());
    }
}

/// How the code of a line grows with the line.
proof fn lemma_code_len_push(line: Seq<char>, c: char)
    ensures
        code_len(line) <= line.len(),
        code_len(line.push(c)) == (if code_len(line) < line.len() {
            code_len(line)
        } else if is_comment_mark(c) {
            line.len()
        } else {
            line.len() + 1
        }),
    decreases line.len(),
{
    if line.len() == 0 {
        assert(line.push(c).drop_first() =~= Seq::<char>::empty());
        assert(code_len(line.push(c).drop_first()) == 0);
    } else {
        lemma_code_len_push(line.drop_first(), c);
        assert(line.push(c).drop_first() =~= line.drop_first().push(c));
        assert(line.push(c)[0] == line[0]);
    }
}

/// `chars` without the whitespace around it, as a string.
pub fn trimmed(chars: &Vec<char>) -> (text: String)
    ensures
        text@ == trim(chars@),
{
    let mut from: usize = 0;
    proof {
        assert(chars@.skip(0) =~= chars@);
    }
    while from < chars.len() && char_is_whitespace(chars[from])
        invariant
            from <= chars@.len(),
            trim_start(chars@) == trim_start(chars@.skip(from as int)),
        decreases chars@.len() - from,
    {
        proof {
            assert(chars@.skip(from as int).drop_first() =~= chars@.skip(from + 1));
        }
        from += 1;
    }
    let mut to: usize = chars.len();
    proof {
        assert(chars@.skip(from as int) =~= chars@.subrange(from as int, to as int));
    }
    while to > from && char_is_whitespace(chars[to - 1])
        invariant
            from <= to <= chars@.len(),
            trim(chars@) == trim_end(chars@.subrange(from as int, to as int)),
        decreases to - from,
    {
        proof {
            assert(chars@.subrange(from as int, to as int).drop_last() =~= chars@.subrange(
                from as int,
                to - 1,
            ));
        }
        to -= 1;
    }
    string_of(chars, from, to)
}

/// Parses G-code text into the lines to send to a device: each line of the
/// text without its comment (from `;` or `(` to the end of the line) and
/// without the whitespace around what is left; lines that hold no command
/// are left out.
pub fn parse_lines(input: &str) -> (lines: Vec<String>)
    ensures
        texts(lines@) == parsed(input@),
{
    let mut lines: Vec<String> = Vec::new();
    let mut code: Vec<char> = Vec::new();
    let mut in_comment = false;
    proof {
        assert(texts(lines@) =~= commands(segments(input@.take(0)).drop_last()));
        assert(code@ =~= strip_comment(segments(input@.take(0)).last()));
    }
    for c in it: input.chars()
        invariant
            it.seq() == input@,
            segments(input@.take(it.index() as int)).len() >= 1,
            texts(lines@) == commands(segments(input@.take(it.index() as int)).drop_last()),
            code@ == strip_comment(segments(input@.take(it.index() as int)).last()),
            in_comment == (code@.len() < segments(input@.take(it.index() as int)).last().len()),
    {
        let ghost seen = input@.take(it.index() as int);
        let ghost next = input@.take(it.index() + 1);
        proof {
            assert(next.drop_last() =~= seen);
            assert(next.last() == c);
            lemma_segments_nonempty(next);
            lemma_code_len_push(segments(seen).last(), c);
        }
        if c == '\n' {
            let text = trimmed(&code);
            proof {
                assert(segments(next).drop_last() =~= segments(seen));
                assert(segments(seen).drop_last().push(segments(seen).last()) =~= segments(seen));
            }
            if !text.as_str().is_empty() {
                lines.push(text);
            }
            code = Vec::new();
            in_comment = false;
            proof {
                assert(strip_comment(Seq::<char>::empty()) =~= Seq::<char>::empty());
            }
        } else {
            proof {
                assert(segments(next).drop_last() =~= segments(seen).drop_last());
            }
            if !in_comment {
                if c == ';' || c == '(' {
                    in_comment = true;
                } else {
                    code.push(c);
                }
            }
            proof {
                let line = segments(seen).last();
                assert(strip_comment(line.push(c)) =~= code@);
            }
        }
    }
    proof {
        assert(input@.take(input@.len() as int) =~= input@);
        assert(segments(input@).drop_last().push(segments(input@).last()) =~= segments(input@));
    }
    let text = trimmed(&code);
    if !text.as_str().is_empty() {
        lines.push(text);
    }
    lines
}

} // verus!
