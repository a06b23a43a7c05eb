//! Text primitives: what the standard library computes for the crate, and what
//! the crate reads from characters itself.

use vstd::prelude::*;

verus! {

/// The lowercase equivalent of `text` as `str::to_lowercase` returns it:
/// the characters of the text in their Unicode lowercase mapping. It
/// depends on the text alone.
pub uninterp spec fn lowercase(text: Seq<char>) -> Seq<char>;

/// Whether `c` is whitespace: whether it has the Unicode property
/// `White_Space`, which these code points have and no others.
pub open spec fn is_whitespace(c: char) -> bool {
    let code = c as u32;
    ||| 0x0009 <= code <= 0x000d
    ||| code == 0x0020
    ||| code == 0x0085
    ||| code == 0x00a0
    ||| code == 0x1680
    ||| 0x2000 <= code <= 0x200a
    ||| code == 0x2028
    ||| code == 0x2029
    ||| code == 0x202f
    ||| code == 0x205f
    ||| code == 0x3000
}

/// Calls `str::to_lowercase`. Trusted: the returned string is the lowercase
/// form of the argument, under the name [`lowercase`].
#[verifier::external_body]
pub(crate) fn to_lowercase(text: &str) -> (lowered: String)
    ensures
        lowered@ == lowercase(text@),
{
    text.to_lowercase()
}

/// Whether `c` is whitespace.
pub fn char_is_whitespace(c: char) -> (yes: bool)
    ensures
        yes == is_whitespace(c),
{
    let code = c as u32;
    (0x0009 <= code && code <= 0x000d) || code == 0x0020 || code == 0x0085 || code == 0x00a0
        || code == 0x1680 || (0x2000 <= code && code <= 0x200a) || code == 0x2028 || code
        == 0x2029 || code == 0x202f || code == 0x205f || code == 0x3000
}

/// `String::push` appends the character to the end of the string. Trusted.
pub assume_specification[ String::push ](text: &mut String, c: char)
    ensures
        final(text)@ == old(text)@.push(c),
;

/// The texts of a sequence of strings.
pub open spec fn texts(lines: Seq<String>) -> Seq<Seq<char>> {
    Seq::new(lines.len(), |i: int| lines[i]@)
}

/// The characters of a text.
pub fn chars_of(text: &str) -> (chars: Vec<char>)
    ensures
        chars@ == text@,
{
    let mut chars: Vec<char> = Vec::new();
    for c in it: text.chars()
        invariant
            it.seq() == text@,
            chars@ == text@.take(it.index() as int),
    {
        proof {
            assert(text@.take(it.index() + 1) =~= text@.take(it.index() as int).push(c));
        }
        chars.push(c);
    }
    proof {
        assert(text@.take(text@.len() as int) =~= text@);
    }
    chars
}

/// The text of `chars` between `from` and `to`, as a string.
pub fn string_of(chars: &Vec<char>, from: usize, to: usize) -> (text: String)
    requires
        from <= to <= chars@.len(),
    ensures
        text@ == chars@.subrange(from as int, to as int),
{
    let mut text = String::new();
    let mut at: usize = from;
    while at < to
        invariant
            from <= at <= to <= chars@.len(),
            text@ == chars@.subrange(from as int, at as int),
        decreases to - at,
    {
        text.push(chars[at]);
        proof {
            assert(chars@.subrange(from as int, at + 1) =~= chars@.subrange(
                from as int,
                at as int,
            ).push(chars@[at as int]));
        }
        at += 1;
    }
    text
}

/// Whether `text` begins with `prefix`.
pub fn begins_with(text: &Vec<char>, prefix: &Vec<char>) -> (yes: bool)
    ensures
        yes == prefix@.is_prefix_of(text@),
{
    if prefix.len() > text.len() {
        return false;
    }
    let mut at: usize = 0;
    while at < prefix.len()
        invariant
            at <= prefix@.len() <= text@.len(),
            prefix@.take(at as int) == text@.take(at as int),
        decreases prefix@.len() - at,
    {
        if prefix[at] != text[at] {
            proof {
                assert(text@.subrange(0, prefix@.len() as int)[at as int] == text@[at as int]);
            }
            return false;
        }
        proof {
            assert(prefix@.take(at + 1) =~= prefix@.take(at as int).push(prefix@[at as int]));
            assert(text@.take(at + 1) =~= text@.take(at as int).push(text@[at as int]));
        }
        at += 1;
    }
    proof {
        assert(prefix@.take(prefix@.len() as int) =~= prefix@);
    }
    true
}

/// The position of the first `mark` in `text` at or after `from`, or the
/// length of `text` where there is none.
pub open spec fn position_from(text: Seq<char>, mark: char, from: int) -> int
    decreases text.len() - from,
{
    if from >= text.len() || text[from] == mark {
        if from >= text.len() {
            text.len() as int
        } else {
            from
        }
    } else {
        position_from(text, mark, from + 1)
    }
}

/// The position of the first `mark` in `text`, or the length of `text` where
/// there is none.
pub open spec fn position(text: Seq<char>, mark: char) -> int {
    position_from(text, mark, 0)
}

/// Finds the first `mark` in `text`.
pub fn find(text: &Vec<char>, mark: char) -> (at: usize)
    ensures
        at == position(text@, mark),
        at <= text@.len(),
{
    let mut at: usize = 0;
    while at < text.len() && text[at] != mark
        invariant
            at <= text@.len(),
            position(text@, mark) == position_from(text@, mark, at as int),
        decreases text@.len() - at,
    {
        at += 1;
    }
    at
}

/// Whether `c` is one of the decimal digits `0` to `9`.
pub open spec fn is_digit(c: char) -> bool {
    '0' <= c && c <= '9'
}

/// The number that a sequence of decimal digits writes.
pub open spec fn digits_value(digits: Seq<char>) -> nat
    decreases digits.len(),
{
    if digits.len() == 0 {
        0
    } else {
        digits_value(digits.drop_last()) * 10 + (digits.last() as nat - 48) as nat
    }
}

/// The digits of a text that is read as an unsigned number: the text
/// without the plus sign that it may begin with.
pub open spec fn unsigned_digits(text: Seq<char>) -> Seq<char> {
    if text.len() > 0 && text[0] == '+' {
        text.skip(1)
    } else {
        text
    }
}

/// The unsigned number of at most `max` that a text writes in decimal: an
/// optional plus sign, then one or more digits and nothing else. A text of
/// any other form, or of a number above `max`, writes none.
pub open spec fn unsigned_number(text: Seq<char>, max: nat) -> Option<nat> {
    let digits = unsigned_digits(text);
    if digits.len() > 0 && (forall|i: int| 0 <= i < digits.len() ==> is_digit(#[trigger] digits[i]))
        && digits_value(digits) <= max {
        Some(digits_value(digits))
    } else {
        None
    }
}

/// Reads an unsigned number of at most `max` from a text in decimal.
pub fn parse_unsigned(text: &str, max: u64) -> (number: Option<u64>)
    ensures
        match number {
            Some(value) => unsigned_number(text@, max as nat) == Some(value as nat),
            None => unsigned_number(text@, max as nat) is None,
        },
{
    let chars = chars_of(text);
    let from: usize = if chars.len() > 0 && chars[0] == '+' {
        1
    } else {
        0
    };
    let ghost digits = unsigned_digits(chars@);
    proof {
        assert(digits =~= chars@.subrange(from as int, chars@.len() as int));
    }
    if from == chars.len() {
        return None;
    }
    let mut value: u64 = 0;
    let mut exceeded = false;
    let mut at: usize = from;
    proof {
        assert(digits.take(0) =~= Seq::<char>::empty());
    }
    while at < chars.len()
        invariant
            from <= at <= chars@.len(),
            chars@ == text@,
            digits == unsigned_digits(text@),
            digits == chars@.subrange(from as int, chars@.len() as int),
            forall|i: int| 0 <= i < at - from ==> is_digit(#[trigger] digits[i]),
            !exceeded ==> value == digits_value(digits.take(at - from)) && value <= max,
            exceeded ==> digits_value(digits.take(at - from)) > max,
        decreases chars@.len() - at,
    {
        let c = chars[at];
        if c < '0' || c > '9' {
            proof {
                assert(digits[at - from] == c);
                assert(!is_digit(digits[at - from]));
            }
            return None;
        }
        let digit: u64 = (c as u64) - 48;
        proof {
            let seen = digits.take(at - from + 1);
            assert(seen.drop_last() =~= digits.take(at - from));
            assert(seen.last() == c);
            assert(digits_value(seen) == digits_value(digits.take(at - from)) * 10 + digit);
        }
        if !exceeded {
            let next: u128 = (value as u128) * 10 + (digit as u128);
            if next > max as u128 {
                exceeded = true;
            } else {
                value = next as u64;
            }
        }
        at += 1;
    }
    proof {
        assert(digits.take(digits.len() as int) =~= digits);
    }
    if exceeded {
        None
    } else {
        Some(value)
    }
}

/// The 32-bit number that a text writes in decimal, if it writes one.
pub open spec fn parsed_u32(text: Seq<char>) -> Option<u32> {
    match unsigned_number(text, u32::MAX as nat) {
        Some(value) => Some(value as u32),
        None => None,
    }
}

/// The 64-bit number that a text writes in decimal, if it writes one.
pub open spec fn parsed_u64(text: Seq<char>) -> Option<u64> {
    match unsigned_number(text, u64::MAX as nat) {
        Some(value) => Some(value as u64),
        None => None,
    }
}

/// Reads a 32-bit number from a text in decimal.
pub fn parse_u32(text: &str) -> (number: Option<u32>)
    ensures
        number == parsed_u32(text@),
{
    match parse_unsigned(text, 0xffff_ffff) {
        Some(value) => Some(value as u32),
        None => None,
    }
}

/// Reads a 64-bit number from a text in decimal.
pub fn parse_u64(text: &str) -> (number: Option<u64>)
    ensures
        number == parsed_u64(text@),
{
    parse_unsigned(text, u64::MAX)
}

} // verus!
