//! What holds of trimmed text, of first lines, of decoded bytes and of numbers in messages.
use vstd::prelude::*;
use vstd::utf8::*;

use crate::text;

verus! {

/// Where the white space in front of `text` ends.
proof fn lemma_start(text: Seq<char>) -> (start: int)
    ensures
        0 <= start <= text.len(),
        text::trimmed_start(text) == text.skip(start),
        forall|i: int| 0 <= i < start ==> text::is_white_space(#[trigger] text[i]),
        start < text.len() ==> !text::is_white_space(text[start]),
    decreases text.len(),
{
    if text.len() > 0 && text::is_white_space(text.first()) {
        let rest = text.drop_first();
        let start = lemma_start(rest);
        assert(rest.skip(start) =~= text.skip(start + 1));
        assert forall|i: int| 0 <= i < start + 1 implies text::is_white_space(#[trigger] text[i]) by {
            if i > 0 {
                assert(text[i] == rest[i - 1]);
            }
        }
        start + 1
    } else {
        assert(text.skip(0) =~= text);
        0
    }
}

/// Where the white space behind `text` starts.
proof fn lemma_end(text: Seq<char>) -> (end: int)
    ensures
        0 <= end <= text.len(),
        text::trimmed_end(text) == text.take(end),
        forall|i: int| end <= i < text.len() ==> text::is_white_space(#[trigger] text[i]),
        end > 0 ==> !text::is_white_space(text[end - 1]),
    decreases text.len(),
{
    if text.len() > 0 && text::is_white_space(text.last()) {
        let rest = text.drop_last();
        let end = lemma_end(rest);
        assert(rest.take(end) =~= text.take(end));
        assert forall|i: int| end <= i < text.len() implies text::is_white_space(
            #[trigger] text[i],
        ) by {
            if i < text.len() - 1 {
                assert(text[i] == rest[i]);
            }
        }
        end
    } else {
        assert(text.take(text.len() as int) =~= text);
        text.len() as int
    }
}

/// Trimming takes a part out of a text: all in front of it and all behind it is white space, and
/// the part itself neither starts nor ends with white space.
pub proof fn law_trimmed(text: Seq<char>)
    ensures
        exists|start: int, end: int|
            {
                &&& 0 <= start <= end <= text.len()
                &&& text::trimmed(text) == #[trigger] text.subrange(start, end)
                &&& forall|i: int|
                    0 <= i < start || end <= i < text.len() ==> text::is_white_space(
                        #[trigger] text[i],
                    )
                &&& start < end ==> !text::is_white_space(text[start]) && !text::is_white_space(
                    text[end - 1],
                )
            },
{
    let start = lemma_start(text);
    let rest = text.skip(start);
    let length = lemma_end(rest);
    let end = start + length;
    assert(rest.take(length) =~= text.subrange(start, end));
    assert forall|i: int| 0 <= i < start || end <= i < text.len() implies text::is_white_space(
        #[trigger] text[i],
    ) by {
        if i >= end {
            assert(text[i] == rest[i - start]);
        }
    }
    if start < end {
        assert(text[end - 1] == rest[length - 1]);
    }
}

/// White space around a text does not count: a text that has none at its ends comes back whole
/// from behind and in front of any amount of it.
pub proof fn law_trimmed_of_padded(before: Seq<char>, text: Seq<char>, behind: Seq<char>)
    requires
        forall|i: int| 0 <= i < before.len() ==> text::is_white_space(#[trigger] before[i]),
        forall|i: int| 0 <= i < behind.len() ==> text::is_white_space(#[trigger] behind[i]),
        text.len() > 0 ==> !text::is_white_space(text.first()) && !text::is_white_space(
            text.last(),
        ),
    ensures
        text::trimmed(before + text + behind) == text,
{
    let whole = before + text + behind;
    law_trimmed(whole);
    let (start, end) = choose|start: int, end: int|
        {
            &&& 0 <= start <= end <= whole.len()
            &&& text::trimmed(whole) == #[trigger] whole.subrange(start, end)
            &&& forall|i: int|
                0 <= i < start || end <= i < whole.len() ==> text::is_white_space(
                    #[trigger] whole[i],
                )
            &&& start < end ==> !text::is_white_space(whole[start]) && !text::is_white_space(
                whole[end - 1],
            )
        };
    assert(forall|i: int| 0 <= i < before.len() ==> whole[i] == before[i]);
    assert(forall|i: int|
        before.len() + text.len() <= i < whole.len() ==> whole[i] == behind[i - before.len()
            - text.len()]);
    if text.len() > 0 {
        assert(whole[before.len() as int] == text.first());
        assert(whole[before.len() + text.len() - 1] == text.last());
        assert(start == before.len());
        assert(end == before.len() + text.len());
    } else if start < end {
        assert(whole[start] == if start < before.len() {
            before[start]
        } else {
            behind[start - before.len()]
        });
    }
    assert(whole.subrange(start, end) =~= text);
}

/// The white space that is trimmed are the characters with the Unicode property White_Space.
pub proof fn law_white_space(c: char)
    ensures
        text::is_white_space(c) <==> {
            ||| '\u{9}' <= c <= '\u{d}'
            ||| c == ' '
            ||| c == '\u{85}'
            ||| c == '\u{a0}'
            ||| c == '\u{1680}'
            ||| '\u{2000}' <= c <= '\u{200a}'
            ||| c == '\u{2028}'
            ||| c == '\u{2029}'
            ||| c == '\u{202f}'
            ||| c == '\u{205f}'
            ||| c == '\u{3000}'
        },
{
}

/// The first line ends at the first line feed, with the carriage return in front of that; what
/// comes behind does not count. A text without a line feed is a line as a whole.
pub proof fn law_first_line(line: Seq<char>, rest: Seq<char>)
    requires
        !line.contains('\n'),
    ensures
        text::first_line_of(line) == line,
        text::first_line_of(line + seq!['\r', '\n'] + rest) == line,
        line.len() == 0 || line.last() != '\r' ==> text::first_line_of(
            line + seq!['\n'] + rest,
        ) == line,
{
    line.index_of_first_ensures('\n');
    assert(forall|i: int| 0 <= i < line.len() ==> line[i] != '\n');
    let fed = line + seq!['\n'] + rest;
    fed.index_of_first_ensures('\n');
    assert(fed[line.len() as int] == '\n');
    assert(fed.contains('\n'));
    assert(forall|i: int| 0 <= i < line.len() ==> fed[i] == line[i]);
    assert(fed.index_of_first('\n') == Some(line.len() as int));
    assert(fed.take(line.len() as int) =~= line);
    let returned = line + seq!['\r', '\n'] + rest;
    returned.index_of_first_ensures('\n');
    assert(returned[line.len() as int] == '\r');
    assert(returned[line.len() as int + 1] == '\n');
    assert(returned.contains('\n'));
    assert(forall|i: int| 0 <= i < line.len() ==> returned[i] == line[i]);
    assert(returned.index_of_first('\n') == Some(line.len() as int + 1));
    assert(returned.take(line.len() as int) =~= line);
}

/// Bytes that are valid UTF-8 stand for what they encode, so that any text comes back from its
/// encoding. Other bytes stand for what the lossy decoding makes of them.
pub proof fn law_decoded(text: Seq<char>, bytes: Seq<u8>)
    ensures
        text::decoded(encode_utf8(text)) == text,
        valid_utf8(bytes) ==> encode_utf8(text::decoded(bytes)) == bytes,
        !valid_utf8(bytes) ==> text::decoded(bytes) == text::utf8_lossy(bytes),
{
    encode_utf8_valid_utf8(text);
    encode_utf8_decode_utf8(text);
    if valid_utf8(bytes) {
        decode_utf8_encode_utf8(bytes);
    }
}

/// The number that a text of decimal digits stands for.
pub open spec fn value(digits: Seq<char>) -> int
    decreases digits.len(),
{
    if digits.len() == 0 {
        0
    } else {
        10 * value(digits.drop_last()) + (digits.last() as int - '0' as int)
    }
}

/// A number in decimal is made of digits, has no leading zero, and stands for the number.
pub proof fn law_decimal(number: nat)
    ensures
        value(text::decimal(number)) == number,
        text::decimal(number).len() > 0,
        forall|i: int|
            0 <= i < text::decimal(number).len() ==> '0' <= #[trigger] text::decimal(number)[i]
                <= '9',
        text::decimal(number)[0] == '0' ==> number == 0 && text::decimal(number).len() == 1,
    decreases number,
{
    reveal_strlit("0123456789");
    let digits = text::decimal(number);
    let digit = "0123456789"@[(number % 10) as int];
    assert(digit as int == '0' as int + number % 10);
    if number >= 10 {
        let front = text::decimal(number / 10);
        law_decimal(number / 10);
        assert(digits == front.push(digit));
        assert(digits.drop_last() =~= front);
        assert(digits[0] == front[0]);
        assert forall|i: int| 0 <= i < digits.len() implies '0' <= #[trigger] digits[i] <= '9' by {
            if i < front.len() {
                assert(digits[i] == front[i]);
            }
        }
    } else {
        assert(digits =~= seq![digit]);
        assert(digits.drop_last() =~= seq![]);
        assert(value(seq![]) == 0);
    }
}

/// The text of an exit code is `None` where there is none. Otherwise it is the number between
/// `Some(` and `)`, with a minus sign in front exactly where it is negative.
pub proof fn law_exit_code_text(code: Option<i32>)
    ensures
        match code {
            None => text::exit_code_text(code) == seq!['N', 'o', 'n', 'e'],
            Some(number) => exists|digits: Seq<char>|
                {
                    &&& digits.len() > 0
                    &&& forall|i: int| 0 <= i < digits.len() ==> '0' <= #[trigger] digits[i] <= '9'
                    &&& digits[0] == '0' ==> number == 0 && digits.len() == 1
                    &&& #[trigger] value(digits) == if number < 0 {
                        -number
                    } else {
                        number as int
                    }
                    &&& text::exit_code_text(code) == seq!['S', 'o', 'm', 'e', '('] + (if number
                        < 0 {
                        seq!['-']
                    } else {
                        seq![]
                    }) + digits + seq![')']
                },
        },
{
    reveal_strlit("None");
    reveal_strlit("Some(");
    reveal_strlit("-");
    reveal_strlit(")");
    match code {
        None => {
            assert("None"@ =~= seq!['N', 'o', 'n', 'e']);
        },
        Some(number) => {
            let magnitude = if number < 0 {
                (-number) as nat
            } else {
                number as nat
            };
            let digits = text::decimal(magnitude);
            law_decimal(magnitude);
            assert(value(digits) == magnitude);
            assert("Some("@ =~= seq!['S', 'o', 'm', 'e', '(']);
            assert(text::exit_code_text(code) =~= seq!['S', 'o', 'm', 'e', '('] + (if number < 0 {
                seq!['-']
            } else {
                seq![]
            }) + digits + seq![')']);
        },
    }
}

} // verus!
