//! Text that programs print: decoding it, trimming it, taking its first line, and the text of
//! numbers in messages.
use vstd::prelude::*;
use vstd::string::*;
use vstd::utf8::*;

verus! {

/// The characters with the Unicode property White_Space.
pub open spec fn is_white_space(c: char) -> bool {
    let code = c as u32;
    ||| 0x9 <= code <= 0xd
    ||| code == 0x20
    ||| code == 0x85
    ||| code == 0xa0
    ||| code == 0x1680
    ||| 0x2000 <= code <= 0x200a
    ||| code == 0x2028
    ||| code == 0x2029
    ||| code == 0x202f
    ||| code == 0x205f
    ||| code == 0x3000
}

/// `char::is_whitespace`: whether the character has the Unicode property White_Space.
pub assume_specification[ char::is_whitespace ](c: char) -> (white: bool)
    ensures
        white == is_white_space(c),
;

/// `text` without the white space that it starts with.
pub open spec fn trimmed_start(text: Seq<char>) -> Seq<char>
    decreases text.len(),
{
    if text.len() > 0 && is_white_space(text.first()) {
        trimmed_start(text.drop_first())
    } else {
        text
    }
}

/// `text` without the white space that it ends with.
pub open spec fn trimmed_end(text: Seq<char>) -> Seq<char>
    decreases text.len(),
{
    if text.len() > 0 && is_white_space(text.last()) {
        trimmed_end(text.drop_last())
    } else {
        text
    }
}

/// `text` without the white space around it.
pub open spec fn trimmed(text: Seq<char>) -> Seq<char> {
    trimmed_end(trimmed_start(text))
}

/// The text without the white space around it.
pub fn trim(text: &str) -> (result: String)
    ensures
        result@ == trimmed(text@),
{
    let length: usize = text.unicode_len();
    let mut start: usize = 0;
    assert(text@.skip(0) =~= text@);
    while start < length && text.get_char(start).is_whitespace()
        invariant
            start <= length == text@.len(),
            trimmed_start(text@.skip(start as int)) == trimmed_start(text@),
        ensures
            start <= length,
            text@.skip(start as int) == trimmed_start(text@),
        decreases length - start,
    {
        assert(text@.skip(start as int).drop_first() =~= text@.skip(start + 1));
        start = start + 1;
    }
    let mut end: usize = length;
    assert(text@.subrange(start as int, length as int) =~= text@.skip(start as int));
    while start < end && text.get_char(end - 1).is_whitespace()
        invariant
            start <= end <= length == text@.len(),
            trimmed_end(text@.subrange(start as int, end as int)) == trimmed(text@),
        ensures
            start <= end <= length,
            text@.subrange(start as int, end as int) == trimmed(text@),
        decreases end,
    {
        assert(text@.subrange(start as int, end as int).drop_last() =~= text@.subrange(
            start as int,
            end - 1,
        ));
        end = end - 1;
    }
    text.substring_char(start, end).to_owned()
}

/// The first line of `text`, without its line ending: a line feed, or a carriage return and a
/// line feed.
pub open spec fn first_line_of(text: Seq<char>) -> Seq<char> {
    match text.index_of_first('\n') {
        Some(end) => if end > 0 && text[end - 1] == '\r' {
            text.take(end - 1)
        } else {
            text.take(end)
        },
        None => text,
    }
}

/// The first line of the text, without its line ending; all of it where it has only one line.
pub fn first_line(text: &str) -> (line: String)
    ensures
        line@ == first_line_of(text@),
{
    let length: usize = text.unicode_len();
    let mut end: usize = 0;
    while end < length && text.get_char(end) != '\n'
        invariant
            end <= length == text@.len(),
            forall|i: int| 0 <= i < end ==> text@[i] != '\n',
        ensures
            end <= length,
            end < length ==> text@[end as int] == '\n',
            forall|i: int| 0 <= i < end ==> text@[i] != '\n',
        decreases length - end,
    {
        end = end + 1;
    }
    proof {
        text@.index_of_first_ensures('\n');
        if end < length {
            assert(text@.contains('\n'));
        }
    }
    if end < length && end > 0 && text.get_char(end - 1) == '\r' {
        end = end - 1;
    }
    assert(text@.take(text@.len() as int) =~= text@);
    assert(text@.subrange(0, end as int) =~= text@.take(end as int));
    text.substring_char(0, end).to_owned()
}

/// What `String::from_utf8_lossy` makes of `bytes`.
pub uninterp spec fn utf8_lossy(bytes: Seq<u8>) -> Seq<char>;

/// `String::from_utf8_lossy`: bytes that are valid UTF-8 are decoded; of others the result is
/// only named.
#[verifier::external_body]
fn from_utf8_lossy(bytes: &[u8]) -> (text: String)
    ensures
        text@ == utf8_lossy(bytes@),
        valid_utf8(bytes@) ==> text@ == decode_utf8(bytes@),
{
    String::from_utf8_lossy(bytes).into_owned()
}

/// The text that `bytes` stand for: what they encode where they are valid UTF-8, and what the
/// lossy decoding makes of them elsewhere.
pub open spec fn decoded(bytes: Seq<u8>) -> Seq<char> {
    if valid_utf8(bytes) {
        decode_utf8(bytes)
    } else {
        utf8_lossy(bytes)
    }
}

/// The text that a program printed.
pub fn decode(bytes: &[u8]) -> (text: String)
    ensures
        text@ == decoded(bytes@),
{
    from_utf8_lossy(bytes)
}

/// A number in decimal, without leading zeros.
pub open spec fn decimal(number: nat) -> Seq<char>
    decreases number,
{
    let digit = "0123456789"@[(number % 10) as int];
    if number < 10 {
        seq![digit]
    } else {
        decimal(number / 10).push(digit)
    }
}

/// An integer in decimal, with a minus sign in front where it is negative.
pub open spec fn signed_decimal(number: int) -> Seq<char> {
    if number < 0 {
        "-"@ + decimal((-number) as nat)
    } else {
        decimal(number as nat)
    }
}

/// Appends a number in decimal.
fn push_decimal(text: &mut String, number: u64)
    ensures
        final(text)@ == old(text)@ + decimal(number as nat),
    decreases number,
{
    if number >= 10 {
        push_decimal(text, number / 10);
    }
    let digit: usize = (number % 10) as usize;
    proof {
        reveal_strlit("0123456789");
    }
    text.append("0123456789".substring_char(digit, digit + 1));
    assert(text@ =~= old(text)@ + decimal(number as nat));
}

/// The text of an exit code, or of the lack of one: `Some(1)`, `Some(-1)`, `None`.
pub open spec fn exit_code_text(code: Option<i32>) -> Seq<char> {
    match code {
        Some(number) => "Some("@ + signed_decimal(number as int) + ")"@,
        None => "None"@,
    }
}

/// Appends the text of an exit code.
pub fn push_exit_code(text: &mut String, code: Option<i32>)
    ensures
        final(text)@ == old(text)@ + exit_code_text(code),
{
    match code {
        Some(number) => {
            text.append("Some(");
            if number < 0 {
                text.append("-");
                push_decimal(text, (-(number as i64)) as u64);
            } else {
                push_decimal(text, number as u64);
            }
            text.append(")");
            assert(text@ =~= old(text)@ + exit_code_text(code));
        },
        None => {
            text.append("None");
        },
    }
}

} // verus!
