//! Plain-text helpers: decimal and hexadecimal rendering, trimming, splitting into words.

use vstd::prelude::*;
use vstd::string::*;

verus! {

/// The character for a digit below sixteen, in lower case.
pub open spec fn digit_char(digit: int) -> char {
    if digit < 10 {
        ('0' as int + digit) as char
    } else {
        ('a' as int + digit - 10) as char
    }
}

/// The usual decimal rendering of a number, without leading zeros.
pub open spec fn decimal(n: nat) -> Seq<char>
    decreases n,
{
    if n < 10 {
        seq![digit_char(n as int)]
    } else {
        decimal(n / 10).push(digit_char((n % 10) as int))
    }
}

/// The high half of a byte as the first, or its low half as the second of two digits.
pub open spec fn half(byte: u8, second: bool) -> int {
    if second {
        byte as int % 16
    } else {
        byte as int / 16
    }
}

/// Two lower-case hexadecimal digits for each byte, high half first.
pub open spec fn hex(bytes: Seq<u8>) -> Seq<char> {
    Seq::new(2 * bytes.len(), |i: int| digit_char(half(bytes[i / 2], i % 2 == 1)))
}

/// Whether a character has the Unicode `White_Space` property.
pub open spec fn white_space(c: char) -> bool {
    let code = c as int;
    ||| 0x09 <= code <= 0x0d
    ||| code == 0x20
    ||| code == 0x85
    ||| code == 0xa0
    ||| code == 0x1680
    ||| 0x2000 <= code <= 0x200a
    ||| code == 0x2028
    ||| code == 0x2029
    ||| code == 0x202f
    ||| code == 0x205f
    ||| code == 0x3000
}

/// A text without the white space at its start.
pub open spec fn without_leading_space(text: Seq<char>) -> Seq<char>
    decreases text.len(),
{
    if text.len() > 0 && white_space(text[0]) {
        without_leading_space(text.skip(1))
    } else {
        text
    }
}

/// A text without the white space at its end.
pub open spec fn without_trailing_space(text: Seq<char>) -> Seq<char>
    decreases text.len(),
{
    if text.len() > 0 && white_space(text.last()) {
        without_trailing_space(text.drop_last())
    } else {
        text
    }
}

/// A text without the white space at either end.
pub open spec fn trimmed(text: Seq<char>) -> Seq<char> {
    without_trailing_space(without_leading_space(text))
}

/// How many characters stand before the first white space.
pub open spec fn word_length(text: Seq<char>) -> nat
    decreases text.len(),
{
    if text.len() == 0 || white_space(text[0]) {
        0
    } else {
        1 + word_length(text.skip(1))
    }
}

/// The maximal runs of characters that are not white space, in order.
pub open spec fn words(text: Seq<char>) -> Seq<Seq<char>>
    decreases text.len(),
{
    if text.len() == 0 {
        seq![]
    } else if white_space(text[0]) {
        words(text.skip(1))
    } else {
        proof {
            lemma_word_length(text);
        }
        seq![text.take(word_length(text) as int)] + words(text.skip(word_length(text) as int))
    }
}

/// Whether a character is one of the ten ASCII digits.
pub open spec fn is_digit(c: char) -> bool {
    '0' as int <= c as int <= '9' as int
}

/// The number that a sequence of ASCII digits denotes.
pub open spec fn number(digits: Seq<char>) -> nat
    decreases digits.len(),
{
    if digits.len() == 0 {
        0
    } else {
        number(digits.drop_last()) * 10 + (digits.last() as int - '0' as int) as nat
    }
}

/// The unsigned 64-bit number that a text denotes: an optional plus sign followed by nothing
/// but digits, at least one, and no more than fits.
pub open spec fn unsigned_value(text: Seq<char>) -> Option<u64> {
    let digits = if text.len() > 0 && text[0] == '+' {
        text.skip(1)
    } else {
        text
    };
    if digits.len() > 0 && (forall|i: int| 0 <= i < digits.len() ==> is_digit(digits[i]))
        && number(digits) <= u64::MAX {
        Some(number(digits) as u64)
    } else {
        None
    }
}

/// A description of what went wrong, followed by its cause.
pub open spec fn caused(context: Seq<char>, cause: Seq<char>) -> Seq<char> {
    context + ": "@ + cause
}

/// The text of an optional string.
pub open spec fn text_of(value: Option<String>) -> Option<Seq<char>> {
    match value {
        Some(text) => Some(text@),
        None => None,
    }
}

fn digit_text(digit: u8) -> (text: &'static str)
    requires
        digit < 16,
    ensures
        text@ == seq![digit_char(digit as int)],
{
    proof {
        reveal_strlit("0");
        reveal_strlit("1");
        reveal_strlit("2");
        reveal_strlit("3");
        reveal_strlit("4");
        reveal_strlit("5");
        reveal_strlit("6");
        reveal_strlit("7");
        reveal_strlit("8");
        reveal_strlit("9");
        reveal_strlit("a");
        reveal_strlit("b");
        reveal_strlit("c");
        reveal_strlit("d");
        reveal_strlit("e");
        reveal_strlit("f");
    }
    match digit {
        0 => "0",
        1 => "1",
        2 => "2",
        3 => "3",
        4 => "4",
        5 => "5",
        6 => "6",
        7 => "7",
        8 => "8",
        9 => "9",
        10 => "a",
        11 => "b",
        12 => "c",
        13 => "d",
        14 => "e",
        _ => "f",
    }
}

/// Renders a number in decimal.
pub fn decimal_text(n: u64) -> (text: String)
    ensures
        text@ == decimal(n as nat),
    decreases n,
{
    let mut text = if n < 10 {
        String::new()
    } else {
        decimal_text(n / 10)
    };
    text.append(digit_text((n % 10) as u8));
    text
}

/// Renders bytes in lower-case hexadecimal.
pub fn hex_text(bytes: &[u8]) -> (text: String)
    ensures
        text@ == hex(bytes@),
{
    let mut text = String::new();
    let mut i: usize = 0;
    while i < bytes.len()
        invariant
            i <= bytes@.len(),
            text@ == hex(bytes@.take(i as int)),
        decreases bytes@.len() - i,
    {
        let byte = bytes[i];
        text.append(digit_text(byte / 16));
        text.append(digit_text(byte % 16));
        i += 1;
        assert(text@ =~= hex(bytes@.take(i as int)));
    }
    assert(bytes@.take(i as int) =~= bytes@);
    text
}

/// Whether a character has the Unicode `White_Space` property.
fn is_white_space(c: char) -> (answer: bool)
    ensures
        answer == white_space(c),
{
    let code: u32 = c as u32;
    (0x09 <= code && code <= 0x0d) || code == 0x20 || code == 0x85 || code == 0xa0 || code == 0x1680
        || (0x2000 <= code && code <= 0x200a) || code == 0x2028 || code == 0x2029 || code == 0x202f
        || code == 0x205f || code == 0x3000
}

/// What `u64::from_str` of std says of a text that it cannot read.
pub uninterp spec fn unsigned_fault(text: Seq<char>) -> Seq<char>;

/// Reads an unsigned number with `str::parse` of std. As its documentation says, the text is an
/// optional plus sign followed by digits only. Of a text that it refuses, the rendered error is
/// a function of that text.
#[verifier::external_body]
pub(crate) fn parse_unsigned(text: &str) -> (value: Result<u64, String>)
    ensures
        match value {
            Ok(n) => unsigned_value(text@) == Some(n),
            Err(cause) => unsigned_value(text@) is None && cause@ == unsigned_fault(text@),
        },
{
    text.parse::<u64>().map_err(|error| error.to_string())
}

/// The text that `String::from_utf8_lossy` of std makes of bytes.
pub uninterp spec fn lossy(bytes: Seq<u8>) -> Seq<char>;

/// Decodes bytes with `String::from_utf8_lossy` of std, which replaces what is not UTF-8. The
/// result is a function of the bytes alone, and the text they encode where they are UTF-8.
#[verifier::external_body]
pub(crate) fn decode_lossy(bytes: &[u8]) -> (text: String)
    ensures
        text@ == lossy(bytes@),
        vstd::utf8::valid_utf8(bytes@) ==> text@ == vstd::utf8::decode_utf8(bytes@),
{
    String::from_utf8_lossy(bytes).into_owned()
}

/// The characters of a text, one by one.
fn characters(text: &str) -> (chars: Vec<char>)
    ensures
        chars@ == text@,
{
    let mut chars: Vec<char> = Vec::new();
    for c in it: text.chars()
        invariant
            it.seq() == text@,
            chars@ == it.seq().take(it.index() as int),
    {
        chars.push(c);
    }
    assert(chars@ =~= text@);
    chars
}

/// The first word of a text is a run of characters that are not white space, and ends only
/// before white space or where the text ends.
pub proof fn lemma_word_length(text: Seq<char>)
    ensures
        word_length(text) <= text.len(),
        text.len() > 0 && !white_space(text[0]) ==> word_length(text) > 0,
        forall|i: int| 0 <= i < word_length(text) ==> !white_space(#[trigger] text[i]),
        word_length(text) < text.len() ==> white_space(text[word_length(text) as int]),
    decreases text.len(),
{
    if text.len() > 0 && !white_space(text[0]) {
        let rest = text.skip(1);
        lemma_word_length(rest);
        assert forall|i: int| 0 <= i < word_length(text) implies !white_space(#[trigger] text[i]) by {
            if i > 0 {
                assert(text[i] == rest[i - 1]);
            }
        }
    }
}

/// Removes the white space at either end of a text.
pub fn trim(text: &str) -> (result: String)
    ensures
        result@ == trimmed(text@),
{
    let chars = characters(text);
    let mut start: usize = 0;
    assert(chars@.skip(0) =~= chars@);
    while start < chars.len() && is_white_space(chars[start])
        invariant
            start <= chars@.len(),
            without_leading_space(chars@) == without_leading_space(chars@.skip(start as int)),
        decreases chars@.len() - start,
    {
        assert(chars@.skip(start as int).skip(1) =~= chars@.skip(start + 1));
        start += 1;
    }
    assert(without_leading_space(chars@) == chars@.skip(start as int));
    let mut end: usize = chars.len();
    while start < end && is_white_space(chars[end - 1])
        invariant
            start <= end <= chars@.len(),
            without_trailing_space(chars@.skip(start as int)) == without_trailing_space(
                chars@.subrange(start as int, end as int),
            ),
        decreases end,
    {
        assert(chars@.subrange(start as int, end as int).drop_last() =~= chars@.subrange(
            start as int,
            end - 1,
        ));
        end -= 1;
    }
    String::from_str(text.substring_char(start, end))
}

/// Splits a text at its white space.
pub fn split_words(text: &str) -> (result: Vec<String>)
    ensures
        result@.map_values(|word: String| word@) == words(text@),
{
    let chars = characters(text);
    let mut result: Vec<String> = Vec::new();
    let mut start: usize = 0;
    assert(chars@.skip(0) =~= chars@);
    assert(result@.map_values(|word: String| word@) + words(chars@) =~= words(chars@));
    while start < chars.len()
        invariant
            start <= chars@.len(),
            chars@ == text@,
            words(text@) == result@.map_values(|word: String| word@) + words(
                chars@.skip(start as int),
            ),
        decreases chars@.len() - start,
    {
        let ghost rest = chars@.skip(start as int);
        if is_white_space(chars[start]) {
            assert(rest.skip(1) =~= chars@.skip(start + 1));
            start += 1;
        } else {
            let mut end: usize = start + 1;
            proof {
                lemma_word_length(rest);
            }
            while end < chars.len() && !is_white_space(chars[end])
                invariant
                    start < end <= chars@.len(),
                    rest == chars@.skip(start as int),
                    end - start <= word_length(rest) <= rest.len(),
                    word_length(rest) < rest.len() ==> white_space(rest[word_length(rest) as int]),
                decreases chars@.len() - end,
            {
                end += 1;
            }
            assert(end - start == word_length(rest)) by {
                lemma_word_length(rest);
                if end < chars@.len() {
                    assert(rest[end - start] == chars@[end as int]);
                }
            }
            let ghost before = result@.map_values(|word: String| word@);
            let word = String::from_str(text.substring_char(start, end));
            assert(word@ =~= rest.take(end - start));
            result.push(word);
            assert(result@.map_values(|word: String| word@) =~= before.push(word@));
            assert(rest.skip(end - start) =~= chars@.skip(end as int));
            assert(before + (seq![word@] + words(rest.skip(end - start))) =~= before.push(word@)
                + words(rest.skip(end - start)));
            start = end;
        }
    }
    result
}

/// What follows the last occurrence of a character in a text.
pub fn after_last<'a>(text: &'a str, mark: char) -> (rest: Option<&'a str>)
    ensures
        match (rest, text@.index_of_last(mark)) {
            (Some(rest), Some(end)) => rest@ == text@.skip(end + 1),
            (None, None) => true,
            _ => false,
        },
{
    let chars = characters(text);
    proof {
        text@.index_of_last_ensures(mark);
    }
    let mut end: usize = chars.len();
    while end > 0
        invariant
            end <= chars@.len(),
            chars@ == text@,
            forall|j: int| end <= j < chars@.len() ==> chars@[j] != mark,
            text@.index_of_last(mark) matches Some(last) ==> 0 <= last < text@.len() && text@[last]
                == mark && forall|j: int| last < j < text@.len() ==> text@[j] != mark,
            text@.index_of_last(mark) is None ==> !text@.contains(mark),
        decreases end,
    {
        if chars[end - 1] == mark {
            assert(text@.contains(mark)) by {
                assert(text@[end - 1] == mark);
            }
            assert(text@.index_of_last(mark) == Some(end - 1));
            let rest = text.substring_char(end, chars.len());
            assert(rest@ =~= text@.skip(end as int));
            return Some(rest);
        }
        end -= 1;
    }
    None
}

/// Puts a description of what went wrong before its cause.
pub fn with_cause(context: &str, cause: &str) -> (text: String)
    ensures
        text@ == caused(context@, cause@),
{
    let mut text = String::from_str(context);
    text.append(": ");
    text.append(cause);
    text
}

/// The hexadecimal renderings of different byte strings differ.
pub proof fn law_hex_is_injective(a: Seq<u8>, b: Seq<u8>)
    requires
        hex(a) == hex(b),
    ensures
        a == b,
{
    assert(hex(a).len() == 2 * a.len() && hex(b).len() == 2 * b.len());
    assert(a.len() == b.len());
    assert forall|i: int| 0 <= i < a.len() implies a[i] == b[i] by {
        assert(hex(a)[2 * i] == digit_char(half(a[i], false)));
        assert(hex(b)[2 * i] == digit_char(half(b[i], false)));
        assert(hex(a)[2 * i + 1] == digit_char(half(a[i], true)));
        assert(hex(b)[2 * i + 1] == digit_char(half(b[i], true)));
        lemma_digit_char(half(a[i], false));
        lemma_digit_char(half(b[i], false));
        lemma_digit_char(half(a[i], true));
        lemma_digit_char(half(b[i], true));
    }
    assert(a =~= b);
}

proof fn lemma_digit_char(digit: int)
    requires
        0 <= digit < 16,
    ensures
        digit < 10 ==> digit_char(digit) as int == '0' as int + digit,
        digit >= 10 ==> digit_char(digit) as int == 'a' as int + digit - 10,
{
}

/// A number's decimal rendering denotes that number.
pub proof fn law_decimal_reads_back(n: u64)
    ensures
        unsigned_value(decimal(n as nat)) == Some(n),
{
    lemma_decimal(n as nat);
    assert(is_digit(decimal(n as nat)[0]));
}

proof fn lemma_decimal(n: nat)
    ensures
        decimal(n).len() > 0,
        forall|i: int| 0 <= i < decimal(n).len() ==> is_digit(#[trigger] decimal(n)[i]),
        number(decimal(n)) == n,
    decreases n,
{
    if n < 10 {
        lemma_digit_char(n as int);
        assert(decimal(n).drop_last() =~= seq![]);
        assert(number(decimal(n).drop_last()) == 0);
    } else {
        lemma_digit_char((n % 10) as int);
        lemma_decimal(n / 10);
        assert(decimal(n).drop_last() =~= decimal(n / 10));
        assert forall|i: int| 0 <= i < decimal(n).len() implies is_digit(
            #[trigger] decimal(n)[i],
        ) by {
            if i < decimal(n / 10).len() {
                assert(decimal(n)[i] == decimal(n / 10)[i]);
            }
        }
    }
}

/// Two lower-case hexadecimal digits stand for each byte, in order: the first counts sixteens and
/// the second ones, and together they give the byte.
pub proof fn law_hex_digits_give_the_bytes(bytes: Seq<u8>)
    ensures
        hex(bytes).len() == 2 * bytes.len(),
        forall|i: int|
            0 <= i < bytes.len() ==> ({
                let high = hex(bytes)[2 * i] as int;
                let low = hex(bytes)[2 * i + 1] as int;
                &&& 48 <= high <= 57 || 97 <= high <= 102
                &&& 48 <= low <= 57 || 97 <= low <= 102
                &&& (if high <= 57 { high - 48 } else { high - 87 }) * 16 + (if low <= 57 {
                    low - 48
                } else {
                    low - 87
                }) == #[trigger] bytes[i]
            }),
{
    assert forall|i: int| 0 <= i < bytes.len() implies ({
        let high = hex(bytes)[2 * i] as int;
        let low = hex(bytes)[2 * i + 1] as int;
        &&& 48 <= high <= 57 || 97 <= high <= 102
        &&& 48 <= low <= 57 || 97 <= low <= 102
        &&& (if high <= 57 { high - 48 } else { high - 87 }) * 16 + (if low <= 57 {
            low - 48
        } else {
            low - 87
        }) == #[trigger] bytes[i]
    }) by {
        assert(hex(bytes)[2 * i] == digit_char(half(bytes[i], false)));
        assert(hex(bytes)[2 * i + 1] == digit_char(half(bytes[i], true)));
        lemma_digit_char(half(bytes[i], false));
        lemma_digit_char(half(bytes[i], true));
    }
}

/// A decimal rendering starts with a zero only where it is that of zero.
pub proof fn law_decimal_has_no_leading_zero(n: nat)
    ensures
        decimal(n).len() > 0,
        decimal(n)[0] == '0' ==> n == 0 && decimal(n).len() == 1,
    decreases n,
{
    if n < 10 {
        lemma_digit_char(n as int);
    } else {
        law_decimal_has_no_leading_zero(n / 10);
        assert(decimal(n)[0] == decimal(n / 10)[0]);
    }
}

proof fn lemma_leading(text: Seq<char>) -> (start: int)
    ensures
        0 <= start <= text.len(),
        without_leading_space(text) == text.skip(start),
        forall|i: int| 0 <= i < start ==> white_space(#[trigger] text[i]),
        start < text.len() ==> !white_space(text[start]),
    decreases text.len(),
{
    if text.len() > 0 && white_space(text[0]) {
        let rest = text.skip(1);
        let start = lemma_leading(rest) + 1;
        assert(rest.skip(start - 1) =~= text.skip(start));
        assert forall|i: int| 0 <= i < start implies white_space(#[trigger] text[i]) by {
            if i > 0 {
                assert(text[i] == rest[i - 1]);
            }
        }
        start
    } else {
        assert(text.skip(0) =~= text);
        0
    }
}

proof fn lemma_trailing(text: Seq<char>) -> (end: int)
    ensures
        0 <= end <= text.len(),
        without_trailing_space(text) == text.take(end),
        forall|i: int| end <= i < text.len() ==> white_space(#[trigger] text[i]),
        end > 0 ==> !white_space(text[end - 1]),
    decreases text.len(),
{
    if text.len() > 0 && white_space(text.last()) {
        let rest = text.drop_last();
        let end = lemma_trailing(rest);
        assert(rest.take(end) =~= text.take(end));
        assert forall|i: int| end <= i < text.len() implies white_space(#[trigger] text[i]) by {
            if i < rest.len() {
                assert(text[i] == rest[i]);
            }
        }
        end
    } else {
        assert(text.take(text.len() as int) =~= text);
        text.len() as int
    }
}

/// Trimming takes a text to a stretch of it: all that falls away is white space, and what is left
/// neither starts nor ends with any.
pub proof fn law_trimming_takes_white_space_alone(text: Seq<char>)
    ensures
        exists|start: int, end: int|
            #![trigger text.subrange(start, end)]
            {
                &&& 0 <= start <= end <= text.len()
                &&& trimmed(text) == text.subrange(start, end)
                &&& forall|i: int|
                    0 <= i < start || end <= i < text.len() ==> white_space(#[trigger] text[i])
                &&& start < end ==> !white_space(text[start]) && !white_space(text[end - 1])
            },
{
    let start = lemma_leading(text);
    let rest = text.skip(start);
    let length = lemma_trailing(rest);
    let end = start + length;
    assert(rest.take(length) =~= text.subrange(start, end));
    assert forall|i: int| 0 <= i < start || end <= i < text.len() implies white_space(
        #[trigger] text[i],
    ) by {
        if i >= end {
            assert(text[i] == rest[i - start]);
        }
    }
    if start < end {
        assert(text[end - 1] == rest[length - 1]);
    }
}

/// Splitting knows no boundary but white space: two texts with white space between them have the
/// words of the one, then the words of the other.
pub proof fn law_words_are_parted_by_white_space(a: Seq<char>, space: char, b: Seq<char>)
    requires
        white_space(space),
    ensures
        words(a + seq![space] + b) == words(a) + words(b),
    decreases a.len(),
{
    let text = a + seq![space] + b;
    if a.len() == 0 {
        assert(text.skip(1) =~= b);
        assert(words(a) + words(b) =~= words(b));
    } else if white_space(a[0]) {
        law_words_are_parted_by_white_space(a.skip(1), space, b);
        assert(text.skip(1) =~= a.skip(1) + seq![space] + b);
    } else {
        lemma_word_length(a);
        lemma_word_length(text);
        let length = word_length(a) as int;
        if word_length(text) < length {
            assert(text[word_length(text) as int] == a[word_length(text) as int]);
        }
        if length < word_length(text) {
            assert(white_space(text[length]));
        }
        law_words_are_parted_by_white_space(a.skip(length), space, b);
        assert(text.take(length) =~= a.take(length));
        assert(text.skip(length) =~= a.skip(length) + seq![space] + b);
        assert(words(text) =~= words(a) + words(b));
    }
}

/// A text without white space is one word; an empty one is none.
pub proof fn law_text_without_white_space_is_a_word(text: Seq<char>)
    requires
        forall|i: int| 0 <= i < text.len() ==> !white_space(#[trigger] text[i]),
    ensures
        text.len() > 0 ==> words(text) == seq![text],
        text.len() == 0 ==> words(text).len() == 0,
{
    if text.len() > 0 {
        lemma_word_length(text);
        let length = word_length(text) as int;
        assert(length == text.len());
        assert(text.take(length) =~= text);
        assert(text.skip(length) =~= seq![]);
        assert(words(text.skip(length)) =~= seq![]);
        assert(words(text) =~= seq![text]);
    }
}

/// A description with its cause starts with the one and ends with the other, with a colon and a
/// space between.
pub proof fn law_cause_follows_its_context(context: Seq<char>, cause: Seq<char>)
    ensures
        caused(context, cause).len() == context.len() + 2 + cause.len(),
        caused(context, cause).take(context.len() as int) == context,
        caused(context, cause)[context.len() as int] == ':',
        caused(context, cause)[context.len() as int + 1] == ' ',
        caused(context, cause).skip(context.len() as int + 2) == cause,
{
    reveal_strlit(": ");
    let whole = caused(context, cause);
    assert(whole.take(context.len() as int) =~= context);
    assert(whole.skip(context.len() as int + 2) =~= cause);
}

/// The text of a string is there exactly where the string is, and is that string's.
pub proof fn law_optional_texts_are_seen_as_they_are(value: Option<String>)
    ensures
        text_of(value) is Some <==> value is Some,
        value is Some ==> text_of(value)->0 == value->0@,
{
}

} // verus!
