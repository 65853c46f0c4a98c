//! Text helpers shared by the prompt and summary code.

use vstd::prelude::*;
use vstd::string::*;

verus! {

/// Whether `c` has the Unicode property White_Space.
pub open spec fn is_white_space(c: char) -> bool {
    let code = c as u32;
    ||| 0x09 <= code <= 0x0D
    ||| code == 0x20
    ||| code == 0x85
    ||| code == 0xA0
    ||| code == 0x1680
    ||| 0x2000 <= code <= 0x200A
    ||| code == 0x2028
    ||| code == 0x2029
    ||| code == 0x202F
    ||| code == 0x205F
    ||| code == 0x3000
}

/// `text` without its leading white space.
pub open spec fn trimmed_start(text: Seq<char>) -> Seq<char>
    decreases text.len(),
{
    if text.len() > 0 && is_white_space(text[0]) {
        trimmed_start(text.skip(1))
    } else {
        text
    }
}

/// `text` without its trailing white space.
pub open spec fn trimmed_end(text: Seq<char>) -> Seq<char>
    decreases text.len(),
{
    if text.len() > 0 && is_white_space(text.last()) {
        trimmed_end(text.drop_last())
    } else {
        text
    }
}

/// `text` without its leading and trailing white space.
pub open spec fn trimmed(text: Seq<char>) -> Seq<char> {
    trimmed_end(trimmed_start(text))
}

/// `str::trim`: the text without leading and trailing white space, where
/// white space is what the Unicode property White_Space says.
pub assume_specification[ str::trim ](text: &str) -> (rest: &str)
    ensures
        rest@ == trimmed(text@),
;

/// `PartialEq::eq` of `str`: two texts are equal where they hold the same
/// characters.
pub assume_specification[ <str as PartialEq>::eq ](left: &str, right: &str) -> (same: bool)
    ensures
        same == (left@ == right@),
;

/// `str::strip_prefix` with a string as the pattern: the rest of the text
/// where it starts with `prefix`, else `None`.
#[verifier::external_body]
pub(crate) fn strip_prefix<'a>(text: &'a str, prefix: &str) -> (rest: Option<&'a str>)
    ensures
        match rest {
            Some(rest) => text@ == prefix@ + rest@,
            None => !prefix@.is_prefix_of(text@),
        },
{
    text.strip_prefix(prefix)
}

/// `str::strip_suffix` with a string as the pattern: the front of the text
/// where it ends with `suffix`, else `None`.
#[verifier::external_body]
pub(crate) fn strip_suffix<'a>(text: &'a str, suffix: &str) -> (front: Option<&'a str>)
    ensures
        match front {
            Some(front) => text@ == front@ + suffix@,
            None => !suffix@.is_suffix_of(text@),
        },
{
    text.strip_suffix(suffix)
}

/// Whether `pattern` stands somewhere in `text`.
pub open spec fn occurs_in(pattern: Seq<char>, text: Seq<char>) -> bool {
    exists|start: int|
        0 <= start && start + pattern.len() <= text.len() && #[trigger] text.subrange(
            start,
            start + pattern.len(),
        ) == pattern
}

/// `str::contains` with a string as the pattern: whether the pattern
/// stands somewhere in the text.
#[verifier::external_body]
pub(crate) fn contains(text: &str, pattern: &str) -> (found: bool)
    ensures
        found == occurs_in(pattern@, text@),
{
    text.contains(pattern)
}

/// Trimming leaves no white space at either end, and takes nothing else:
/// the result is a stretch of the text whose first and last characters are
/// no white space.
pub proof fn lemma_trimmed_ends(text: Seq<char>)
    ensures
        trimmed(text).len() <= text.len(),
        trimmed(text).len() > 0 ==> !is_white_space(trimmed(text)[0]) && !is_white_space(
            trimmed(text).last(),
        ),
        trimmed(trimmed(text)) == trimmed(text),
{
    lemma_trimmed_start(text);
    let inner = trimmed_start(text);
    lemma_trimmed_end(inner);
    let outer = trimmed_end(inner);
    if outer.len() > 0 {
        assert(outer[0] == inner[0]);
        assert(trimmed_start(outer) == outer);
        lemma_trimmed_end(outer);
    } else {
        assert(trimmed_start(outer) == outer);
        assert(trimmed_end(outer) == outer);
    }
}

/// What trimming at the start leaves begins with no white space and is a
/// suffix of the text.
pub proof fn lemma_trimmed_start(text: Seq<char>)
    ensures
        trimmed_start(text).len() <= text.len(),
        trimmed_start(text).is_suffix_of(text),
        trimmed_start(text).len() > 0 ==> !is_white_space(trimmed_start(text)[0]),
    decreases text.len(),
{
    if text.len() > 0 && is_white_space(text[0]) {
        let rest = text.skip(1);
        lemma_trimmed_start(rest);
        let kept = trimmed_start(rest);
        assert(text.skip(text.len() - kept.len()) =~= rest.skip(rest.len() - kept.len()));
    } else {
        assert(text.skip(0) =~= text);
    }
}

/// What trimming at the end leaves ends with no white space and is a
/// prefix of the text; where it is not empty, it begins as the text does,
/// and trimming it again changes nothing.
pub proof fn lemma_trimmed_end(text: Seq<char>)
    ensures
        trimmed_end(text).len() <= text.len(),
        trimmed_end(text).is_prefix_of(text),
        trimmed_end(text).len() > 0 ==> !is_white_space(trimmed_end(text).last()),
        trimmed_end(trimmed_end(text)) == trimmed_end(text),
    decreases text.len(),
{
    if text.len() > 0 && is_white_space(text.last()) {
        lemma_trimmed_end(text.drop_last());
    }
}

/// The decimal digit of `digit`, which is below ten.
pub open spec fn digit_char(digit: nat) -> char {
    if digit == 0 {
        '0'
    } else if digit == 1 {
        '1'
    } else if digit == 2 {
        '2'
    } else if digit == 3 {
        '3'
    } else if digit == 4 {
        '4'
    } else if digit == 5 {
        '5'
    } else if digit == 6 {
        '6'
    } else if digit == 7 {
        '7'
    } else if digit == 8 {
        '8'
    } else {
        '9'
    }
}

/// The decimal numeral of `number`, without leading zeros.
pub open spec fn decimal(number: nat) -> Seq<char>
    decreases number,
{
    if number < 10 {
        seq![digit_char(number)]
    } else {
        decimal(number / 10).push(digit_char(number % 10))
    }
}

/// The numeral of one decimal digit.
fn digit_str(digit: u32) -> (numeral: &'static str)
    requires
        digit < 10,
    ensures
        numeral@ == seq![digit_char(digit as nat)],
{
    proof {
        reveal_strlit("0");
        reveal_strlit("1");
        reveal_strlit("2");
        reveal_strlit("3");
        reveal_strlit("4");
        reveal_strlit("5");
        reveal_strlit("6");
        reveal_strlit("7");
        reveal_strlit("8");
        reveal_strlit("9");
    }
    let numeral: &'static str = if digit == 0 {
        "0"
    } else if digit == 1 {
        "1"
    } else if digit == 2 {
        "2"
    } else if digit == 3 {
        "3"
    } else if digit == 4 {
        "4"
    } else if digit == 5 {
        "5"
    } else if digit == 6 {
        "6"
    } else if digit == 7 {
        "7"
    } else if digit == 8 {
        "8"
    } else {
        "9"
    };
    assert(numeral@ =~= seq![digit_char(digit as nat)]);
    numeral
}

/// Appends the decimal numeral of `number` to `out`.
pub fn push_decimal(out: &mut String, number: u32)
    ensures
        final(out)@ == old(out)@ + decimal(number as nat),
    decreases number,
{
    if number >= 10 {
        push_decimal(out, number / 10);
    }
    let ghost before = out@;
    out.append(digit_str(number % 10));
    proof {
        if number >= 10 {
            assert(out@ =~= old(out)@ + decimal((number / 10) as nat).push(
                digit_char((number % 10) as nat),
            ));
        } else {
            assert(out@ =~= old(out)@ + seq![digit_char(number as nat)]);
        }
    }
}

/// The decimal numeral of `number`.
pub fn decimal_string(number: u32) -> (numeral: String)
    ensures
        numeral@ == decimal(number as nat),
{
    let mut numeral = String::new();
    push_decimal(&mut numeral, number);
    assert(numeral@ =~= decimal(number as nat));
    numeral
}

/// The decimal numeral of `number`, with a minus sign in front where it is
/// negative.
pub open spec fn signed_decimal(number: int) -> Seq<char> {
    if number < 0 {
        "-"@ + decimal((-number) as nat)
    } else {
        decimal(number as nat)
    }
}

/// Appends the decimal numeral of `number` to `out`, with a minus sign in
/// front where it is negative.
pub fn push_signed_decimal(out: &mut String, number: i32)
    ensures
        final(out)@ == old(out)@ + signed_decimal(number as int),
{
    if number < 0 {
        out.append("-");
        let wide: i64 = number as i64;
        push_decimal(out, (0 - wide) as u32);
        assert(out@ =~= old(out)@ + ("-"@ + decimal((-(number as int)) as nat)));
    } else {
        push_decimal(out, number as u32);
    }
}

} // verus!
