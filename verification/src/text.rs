//! Text primitives: characters, trimming, decimal numbers, ordering, joining.
//!
//! A text is modelled by the sequence of its characters. Lengths in bytes are lengths of the
//! UTF-8 encoding of that sequence.
use vstd::prelude::*;
use vstd::utf8::encode_utf8;

verus! {

broadcast use {vstd::string::group_string_axioms, vstd::seq::group_seq_axioms};

/// `String::push` appends one character to the end of the string.
pub assume_specification[ String::push ](text: &mut String, c: char)
    ensures
        final(text)@ == old(text)@.push(c),
;

// ---------------------------------------------------------------------------------------------
// Characters
// ---------------------------------------------------------------------------------------------
/// The characters of a text, in order.
pub fn chars_of(text: &str) -> (chars: Vec<char>)
    ensures
        chars@ == text@,
{
    let mut chars: Vec<char> = Vec::new();
    for c in it: text.chars()
        invariant
            it.seq() == text@,
            chars@ == text@.take(it.index()),
    {
        proof {
            assert(text@.take(it.index() + 1) =~= text@.take(it.index()).push(c));
        }
        chars.push(c);
    }
    assert(text@.take(text@.len() as int) =~= text@);
    chars
}

/// The text made of the given characters.
pub fn text_of(chars: &Vec<char>) -> (text: String)
    ensures
        text@ == chars@,
{
    let mut text = String::new();
    let mut index: usize = 0;
    while index < chars.len()
        invariant
            index <= chars.len(),
            text@ == chars@.take(index as int),
        decreases chars.len() - index,
    {
        proof {
            assert(chars@.take(index + 1) =~= chars@.take(index as int).push(chars@[index as int]));
        }
        text.push(chars[index]);
        index += 1;
    }
    assert(chars@.take(chars@.len() as int) =~= chars@);
    text
}

/// Whether `c` occurs in `text`.
pub fn contains_char(text: &str, c: char) -> (found: bool)
    ensures
        found == text@.contains(c),
{
    for next in it: text.chars()
        invariant
            it.seq() == text@,
            forall|i: int| 0 <= i < it.index() ==> text@[i] != c,
    {
        if next == c {
            assert(text@[it.index()] == c);
            return true;
        }
    }
    false
}

/// Whether two texts have the same characters.
pub fn text_eq(left: &str, right: &str) -> (same: bool)
    ensures
        same == (left@ == right@),
{
    let a: Vec<char> = chars_of(left);
    let b: Vec<char> = chars_of(right);
    if a.len() != b.len() {
        return false;
    }
    let mut index: usize = 0;
    while index < a.len()
        invariant
            index <= a.len(),
            a.len() == b.len(),
            a@ == left@,
            b@ == right@,
            forall|i: int| 0 <= i < index ==> a@[i] == b@[i],
        decreases a.len() - index,
    {
        if a[index] != b[index] {
            assert(left@[index as int] != right@[index as int]);
            return false;
        }
        index += 1;
    }
    assert(left@ =~= right@);
    true
}

/// The number of bytes of the UTF-8 encoding.
pub open spec fn utf8_len(text: Seq<char>) -> nat {
    encode_utf8(text).len()
}

/// The number of bytes of the UTF-8 encoding of `text`.
pub fn byte_len(text: &str) -> (len: usize)
    ensures
        len == utf8_len(text@),
{
    text.as_bytes().len()
}

/// A copy of `text`.
pub fn copy_text(text: &str) -> (copy: String)
    ensures
        copy@ == text@,
{
    text.to_owned()
}

/// Appends every character of `part` to `out`.
pub fn push_text(out: &mut String, part: &str)
    ensures
        final(out)@ == old(out)@ + part@,
{
    out.append(part);
}

/// Appends the characters `chars[from..to]` to `out`.
pub fn push_chars(out: &mut String, chars: &Vec<char>, from: usize, to: usize)
    requires
        from <= to <= chars@.len(),
    ensures
        final(out)@ == old(out)@ + chars@.subrange(from as int, to as int),
{
    let ghost before = out@;
    let mut index: usize = from;
    assert(before + chars@.subrange(from as int, from as int) =~= before);
    while index < to
        invariant
            from <= index <= to <= chars@.len(),
            out@ == before + chars@.subrange(from as int, index as int),
        decreases to - index,
    {
        proof {
            assert(chars@.subrange(from as int, index + 1) =~= chars@.subrange(
                from as int,
                index as int,
            ).push(chars@[index as int]));
            assert((before + chars@.subrange(from as int, index as int)).push(chars@[index as int])
                =~= before + chars@.subrange(from as int, index as int).push(
                chars@[index as int],
            ));
        }
        out.push(chars[index]);
        index += 1;
    }
}

// ---------------------------------------------------------------------------------------------
// Character classes
// ---------------------------------------------------------------------------------------------
/// `c` is an ASCII decimal digit.
pub open spec fn is_digit(c: char) -> bool {
    '0' as u32 <= c as u32 <= '9' as u32
}

/// `c` is an ASCII letter.
pub open spec fn is_ascii_letter(c: char) -> bool {
    ||| 'a' as u32 <= c as u32 <= 'z' as u32
    ||| 'A' as u32 <= c as u32 <= 'Z' as u32
}

/// `c` is an ASCII letter or decimal digit.
pub open spec fn is_ascii_alnum(c: char) -> bool {
    is_digit(c) || is_ascii_letter(c)
}

/// `c` is a space, tab, line feed, form feed or carriage return.
pub open spec fn is_ascii_space(c: char) -> bool {
    c as u32 == 0x20 || c as u32 == 0x09 || c as u32 == 0x0a || c as u32 == 0x0c || c as u32 == 0x0d
}

/// `c` has the Unicode property White_Space.
pub open spec fn is_white_space(c: char) -> bool {
    let code = c as u32;
    ||| 0x09 <= code <= 0x0d
    ||| code == 0x20
    ||| code == 0x85
    ||| code == 0xa0
    ||| code == 0x1680
    ||| 0x2000 <= code <= 0x200a
    ||| code == 0x2028
    ||| code == 0x2029
    ||| code == 0x202f
    ||| code == 0x205f
    ||| code == 0x3000
}

pub fn char_is_digit(c: char) -> (r: bool)
    ensures
        r == is_digit(c),
{
    let code: u32 = c as u32;
    48 <= code && code <= 57
}

pub fn char_is_ascii_letter(c: char) -> (r: bool)
    ensures
        r == is_ascii_letter(c),
{
    let code: u32 = c as u32;
    (97 <= code && code <= 122) || (65 <= code && code <= 90)
}

pub fn char_is_ascii_alnum(c: char) -> (r: bool)
    ensures
        r == is_ascii_alnum(c),
{
    char_is_digit(c) || char_is_ascii_letter(c)
}

pub fn char_is_ascii_space(c: char) -> (r: bool)
    ensures
        r == is_ascii_space(c),
{
    let code: u32 = c as u32;
    code == 0x20 || code == 0x09 || code == 0x0a || code == 0x0c || code == 0x0d
}

pub fn char_is_white_space(c: char) -> (r: bool)
    ensures
        r == is_white_space(c),
{
    let code: u32 = c as u32;
    (0x09 <= code && code <= 0x0d) || code == 0x20 || code == 0x85 || code == 0xa0 || code == 0x1680
        || (0x2000 <= code && code <= 0x200a) || code == 0x2028 || code == 0x2029 || code == 0x202f
        || code == 0x205f || code == 0x3000
}

/// Every character of `text` is an ASCII digit.
pub open spec fn all_digits(text: Seq<char>) -> bool {
    forall|i: int| 0 <= i < text.len() ==> is_digit(#[trigger] text[i])
}

// ---------------------------------------------------------------------------------------------
// Trimming
// ---------------------------------------------------------------------------------------------
/// `text` without the white space at its start.
pub open spec fn trim_start(text: Seq<char>) -> Seq<char>
    decreases text.len(),
{
    if text.len() > 0 && is_white_space(text[0]) {
        trim_start(text.drop_first())
    } else {
        text
    }
}

/// `text` without the white space at its end.
pub open spec fn trim_end(text: Seq<char>) -> Seq<char>
    decreases text.len(),
{
    if text.len() > 0 && is_white_space(text.last()) {
        trim_end(text.drop_last())
    } else {
        text
    }
}

/// `text` without the white space at its start and end.
pub open spec fn trimmed(text: Seq<char>) -> Seq<char> {
    trim_end(trim_start(text))
}

/// `text` without the white space at its start and end.
pub fn trim(text: &str) -> (r: Vec<char>)
    ensures
        r@ == trimmed(text@),
{
    let chars: Vec<char> = chars_of(text);
    let mut from: usize = 0;
    assert(text@.subrange(0, text@.len() as int) =~= text@);
    while from < chars.len() && char_is_white_space(chars[from])
        invariant
            from <= chars.len(),
            chars@ == text@,
            trim_start(text@) == trim_start(text@.subrange(from as int, text@.len() as int)),
        decreases chars.len() - from,
    {
        proof {
            let rest = text@.subrange(from as int, text@.len() as int);
            assert(rest.drop_first() =~= text@.subrange(from + 1, text@.len() as int));
        }
        from += 1;
    }
    let ghost started = text@.subrange(from as int, text@.len() as int);
    assert(trim_start(text@) == started);
    let mut to: usize = chars.len();
    while from < to && char_is_white_space(chars[to - 1])
        invariant
            from <= to <= chars.len(),
            chars@ == text@,
            trim_end(started) == trim_end(text@.subrange(from as int, to as int)),
        decreases to,
    {
        proof {
            let rest = text@.subrange(from as int, to as int);
            assert(rest.drop_last() =~= text@.subrange(from as int, to - 1));
        }
        to -= 1;
    }
    let mut out: Vec<char> = Vec::new();
    let mut index: usize = from;
    while index < to
        invariant
            from <= index <= to <= chars.len(),
            chars@ == text@,
            out@ == text@.subrange(from as int, index as int),
        decreases to - index,
    {
        proof {
            assert(text@.subrange(from as int, index + 1) =~= text@.subrange(
                from as int,
                index as int,
            ).push(text@[index as int]));
        }
        out.push(chars[index]);
        index += 1;
    }
    out
}

// ---------------------------------------------------------------------------------------------
// Decimal numbers
// ---------------------------------------------------------------------------------------------
/// The character of the decimal digit `digit`.
pub open spec fn digit_char(digit: int) -> char {
    ((48 + digit) as u8) as char
}

/// The canonical decimal form of `value`.
pub open spec fn decimal(value: nat) -> Seq<char>
    decreases value,
{
    if value < 10 {
        seq![digit_char(value as int)]
    } else {
        decimal(value / 10).push(digit_char((value % 10) as int))
    }
}

/// The canonical decimal form of `value`, with a leading minus sign below zero.
pub open spec fn decimal_int(value: int) -> Seq<char> {
    if value < 0 {
        seq!['-'] + decimal((-value) as nat)
    } else {
        decimal(value as nat)
    }
}

/// The number that a sequence of digits writes in decimal.
pub open spec fn digits_value(digits: Seq<char>) -> int
    decreases digits.len(),
{
    if digits.len() == 0 {
        0
    } else {
        digits_value(digits.drop_last()) * 10 + (digits.last() as u32 - 48)
    }
}

/// The decimal form of a number is made of digits, is not empty, and reads back as the number.
pub proof fn lemma_decimal_reads_back(value: nat)
    ensures
        all_digits(decimal(value)),
        decimal(value).len() > 0,
        digits_value(decimal(value)) == value,
    decreases value,
{
    if value < 10 {
        assert(decimal(value).drop_last() =~= Seq::<char>::empty());
        assert(digits_value(Seq::<char>::empty()) == 0);
    } else {
        lemma_decimal_reads_back(value / 10);
        assert(decimal(value).drop_last() =~= decimal(value / 10));
    }
}

/// The value of digits is never negative and grows with every further digit.
pub proof fn lemma_digits_value_bounds(digits: Seq<char>)
    requires
        all_digits(digits),
    ensures
        digits_value(digits) >= 0,
    decreases digits.len(),
{
    if digits.len() > 0 {
        lemma_digits_value_bounds(digits.drop_last());
        assert(is_digit(digits.last()));
    }
}

/// A number is at least the value of any of its leading digits.
pub proof fn lemma_digits_value_prefix(digits: Seq<char>, len: int)
    requires
        all_digits(digits),
        0 <= len <= digits.len(),
    ensures
        0 <= digits_value(digits.take(len)) <= digits_value(digits),
    decreases digits.len(),
{
    if len == digits.len() {
        assert(digits.take(len) =~= digits);
        lemma_digits_value_bounds(digits);
    } else {
        lemma_digits_value_prefix(digits.drop_last(), len);
        assert(digits.drop_last().take(len) =~= digits.take(len));
        assert(is_digit(digits.last()));
    }
}

/// Reads the digits `chars[from..to]` as a number, `None` where it exceeds `u64`.
pub fn read_u64(chars: &Vec<char>, from: usize, to: usize) -> (r: Option<u64>)
    requires
        from <= to <= chars.len(),
        all_digits(chars@.subrange(from as int, to as int)),
    ensures
        ({
            let value = digits_value(chars@.subrange(from as int, to as int));
            r == if value <= u64::MAX {
                Some(value as u64)
            } else {
                None
            }
        }),
{
    let ghost digits = chars@.subrange(from as int, to as int);
    let mut value: u64 = 0;
    let mut index: usize = from;
    while index < to
        invariant
            from <= index <= to <= chars.len(),
            digits == chars@.subrange(from as int, to as int),
            all_digits(digits),
            value == digits_value(digits.take(index - from)),
        decreases to - index,
    {
        let c: char = chars[index];
        proof {
            let next = digits.take(index + 1 - from);
            assert(next.drop_last() =~= digits.take(index - from));
            assert(next.last() == c);
            assert(is_digit(digits[index - from]));
            lemma_digits_value_prefix(digits, index + 1 - from);
        }
        let digit: u64 = (c as u32 - 48) as u64;
        match value.checked_mul(10) {
            None => {
                return None;
            },
            Some(scaled) => match scaled.checked_add(digit) {
                None => {
                    return None;
                },
                Some(sum) => {
                    value = sum;
                },
            },
        }
        index += 1;
    }
    assert(digits.take(to - from) =~= digits);
    Some(value)
}

/// Appends the decimal form of `value`.
pub fn push_decimal(out: &mut String, value: u64)
    ensures
        final(out)@ == old(out)@ + decimal(value as nat),
    decreases value,
{
    let ghost before = out@;
    if value >= 10 {
        push_decimal(out, value / 10);
    }
    let digit: u8 = (value % 10) as u8;
    out.push((48 + digit) as char);
    assert(out@ =~= before + decimal(value as nat));
}

/// Appends the decimal form of `value`.
pub fn push_decimal_i64(out: &mut String, value: i64)
    ensures
        final(out)@ == old(out)@ + decimal_int(value as int),
{
    let ghost before = out@;
    if value < 0 {
        out.push('-');
        let magnitude: u64 = (-(value as i128)) as u64;
        push_decimal(out, magnitude);
        assert(out@ =~= before + decimal_int(value as int));
    } else {
        push_decimal(out, value as u64);
    }
}

/// The number that a text writes in decimal after an optional plus sign.
pub open spec fn unsigned_value(text: Seq<char>) -> Option<int> {
    let digits = if text.len() > 0 && text[0] == '+' {
        text.drop_first()
    } else {
        text
    };
    if digits.len() > 0 && all_digits(digits) {
        Some(digits_value(digits))
    } else {
        None
    }
}

/// The number that a text writes in decimal after an optional sign.
pub open spec fn signed_value(text: Seq<char>) -> Option<int> {
    if text.len() > 0 && text[0] == '-' {
        let digits = text.drop_first();
        if digits.len() > 0 && all_digits(digits) {
            Some(-digits_value(digits))
        } else {
            None
        }
    } else {
        unsigned_value(text)
    }
}

fn digits_from(chars: &Vec<char>, from: usize) -> (r: bool)
    requires
        from <= chars@.len(),
    ensures
        r == all_digits(chars@.skip(from as int)),
{
    let mut index: usize = from;
    while index < chars.len()
        invariant
            from <= index <= chars@.len(),
            forall|i: int| from <= i < index ==> is_digit(#[trigger] chars@[i]),
        decreases chars@.len() - index,
    {
        if !char_is_digit(chars[index]) {
            assert(!is_digit(chars@.skip(from as int)[index - from]));
            return false;
        }
        index += 1;
    }
    assert forall|i: int| 0 <= i < chars@.skip(from as int).len() implies is_digit(
        #[trigger] chars@.skip(from as int)[i],
    ) by {
        assert(is_digit(chars@[i + from]));
    }
    true
}

/// Reads an unsigned decimal number up to `maximum`.
pub fn parse_unsigned(text: &str, maximum: u64) -> (r: Option<u64>)
    ensures
        r matches Some(number) ==> number <= maximum && unsigned_value(text@) == Some(number as int),
        r == match unsigned_value(text@) {
            Some(value) => if value <= maximum {
                Some(value as u64)
            } else {
                None
            },
            None => None,
        },
{
    let chars: Vec<char> = chars_of(text);
    let from: usize = if chars.len() > 0 && chars[0] == '+' {
        1
    } else {
        0
    };
    let ghost digits = text@.skip(from as int);
    proof {
        if from == 0 {
            assert(digits =~= text@);
        } else {
            assert(digits =~= text@.drop_first());
        }
        assert(chars@.subrange(from as int, chars@.len() as int) =~= digits);
    }
    if from >= chars.len() || !digits_from(&chars, from) {
        return None;
    }
    proof {
        lemma_digits_value_bounds(digits);
    }
    match read_u64(&chars, from, chars.len()) {
        Some(value) => {
            if value <= maximum {
                Some(value)
            } else {
                None
            }
        },
        None => None,
    }
}

/// Reads a signed decimal number that fits 32 bits.
pub fn parse_i32(text: &str) -> (r: Option<i32>)
    ensures
        r == match signed_value(text@) {
            Some(value) => if i32::MIN <= value <= i32::MAX {
                Some(value as i32)
            } else {
                None
            },
            None => None,
        },
{
    let chars: Vec<char> = chars_of(text);
    if chars.len() > 0 && chars[0] == '-' {
        let ghost digits = text@.drop_first();
        proof {
            assert(digits =~= text@.skip(1));
            assert(chars@.subrange(1, chars@.len() as int) =~= digits);
        }
        if chars.len() == 1 || !digits_from(&chars, 1) {
            return None;
        }
        proof {
            lemma_digits_value_bounds(digits);
        }
        return match read_u64(&chars, 1, chars.len()) {
            Some(value) => {
                if value <= 2_147_483_648 {
                    Some((-(value as i64)) as i32)
                } else {
                    None
                }
            },
            None => None,
        };
    }
    proof {
        let unsigned = unsigned_value(text@);
        if unsigned is Some {
            if text@[0] == '+' {
                lemma_digits_value_bounds(text@.drop_first());
            } else {
                lemma_digits_value_bounds(text@);
            }
        }
    }
    match parse_unsigned(text, 2_147_483_647) {
        Some(value) => Some(value as i32),
        None => None,
    }
}

// ---------------------------------------------------------------------------------------------
// Words
// ---------------------------------------------------------------------------------------------
/// The number of characters before the first white space.
pub open spec fn word_len(text: Seq<char>) -> int
    decreases text.len(),
{
    if text.len() == 0 || is_white_space(text[0]) {
        0
    } else {
        1 + word_len(text.drop_first())
    }
}

/// The parts of a text between white space.
pub open spec fn words(text: Seq<char>) -> Seq<Seq<char>>
    decreases text.len(),
{
    let rest = trim_start(text);
    let len = word_len(rest);
    if 0 < len <= rest.len() <= text.len() {
        seq![rest.take(len)] + words(rest.skip(len))
    } else {
        Seq::empty()
    }
}

proof fn lemma_trim_start_skips(text: Seq<char>)
    ensures
        trim_start(text).len() <= text.len(),
        trim_start(text).len() > 0 ==> !is_white_space(trim_start(text)[0]),
    decreases text.len(),
{
    if text.len() > 0 && is_white_space(text[0]) {
        lemma_trim_start_skips(text.drop_first());
    }
}

proof fn lemma_word_len_is(text: Seq<char>, len: int)
    requires
        0 <= len <= text.len(),
        forall|i: int| 0 <= i < len ==> !is_white_space(#[trigger] text[i]),
        len < text.len() ==> is_white_space(text[len]),
    ensures
        word_len(text) == len,
    decreases len,
{
    if len > 0 {
        assert(!is_white_space(text[0]));
        let tail = text.drop_first();
        assert forall|i: int| 0 <= i < len - 1 implies !is_white_space(#[trigger] tail[i]) by {
            assert(tail[i] == text[i + 1]);
        }
        lemma_word_len_is(tail, len - 1);
    }
}

/// The parts of `chars[from..]` between white space.
pub fn split_words(chars: &Vec<char>, from: usize) -> (r: Vec<String>)
    requires
        from <= chars@.len(),
    ensures
        texts(r@) == words(chars@.skip(from as int)),
{
    let ghost all = chars@.skip(from as int);
    let mut out: Vec<String> = Vec::new();
    let mut at: usize = from;
    assert(texts(out@) + words(all) =~= words(all));
    loop
        invariant
            from <= at <= chars@.len(),
            all == chars@.skip(from as int),
            words(all) == texts(out@) + words(chars@.skip(at as int)),
        decreases chars@.len() - at,
    {
        let ghost here = chars@.skip(at as int);
        let ghost start = at;
        while at < chars.len() && char_is_white_space(chars[at])
            invariant
                start <= at <= chars@.len(),
                here == chars@.skip(start as int),
                trim_start(here) == trim_start(chars@.skip(at as int)),
            decreases chars@.len() - at,
        {
            assert(chars@.skip(at as int).drop_first() =~= chars@.skip(at + 1));
            at += 1;
        }
        let ghost rest = chars@.skip(at as int);
        proof {
            if at < chars@.len() {
                assert(rest[0] == chars@[at as int]);
            }
            assert(trim_start(here) == rest);
        }
        if at >= chars.len() {
            proof {
                assert(words(here) =~= Seq::<Seq<char>>::empty());
                assert(words(all) =~= texts(out@));
            }
            return out;
        }
        let begin: usize = at;
        let mut word: String = String::new();
        assert(rest.take(0) =~= Seq::<char>::empty());
        while at < chars.len() && !char_is_white_space(chars[at])
            invariant
                begin <= at <= chars@.len(),
                rest == chars@.skip(begin as int),
                word@ == rest.take(at - begin),
                forall|i: int| 0 <= i < at - begin ==> !is_white_space(#[trigger] rest[i]),
            decreases chars@.len() - at,
        {
            proof {
                assert(rest[at - begin] == chars@[at as int]);
                assert(rest.take(at + 1 - begin) =~= rest.take(at - begin).push(rest[at - begin]));
            }
            word.push(chars[at]);
            at += 1;
        }
        proof {
            let len = at - begin;
            if at < chars@.len() {
                assert(rest[len] == chars@[at as int]);
            }
            lemma_word_len_is(rest, len);
            lemma_trim_start_skips(here);
            if len == 0 {
                assert(rest[0] == chars@[begin as int]);
            }
            assert(rest.skip(len) =~= chars@.skip(at as int));
            assert(texts(out@.push(word)) =~= texts(out@).push(word@));
            assert(texts(out@).push(word@) + words(rest.skip(len)) =~= texts(out@) + (seq![
                rest.take(len),
            ] + words(rest.skip(len))));
        }
        out.push(word);
    }
}

// ---------------------------------------------------------------------------------------------
// Ordering
// ---------------------------------------------------------------------------------------------
/// `left` comes before `right` in the order of their code points, which is also the order of
/// their UTF-8 bytes.
pub open spec fn text_before(left: Seq<char>, right: Seq<char>) -> bool
    decreases left.len(),
{
    if right.len() == 0 {
        false
    } else if left.len() == 0 {
        true
    } else if left[0] == right[0] {
        text_before(left.drop_first(), right.drop_first())
    } else {
        (left[0] as u32) < (right[0] as u32)
    }
}

/// No text comes before itself.
pub proof fn lemma_text_before_irreflexive(text: Seq<char>)
    ensures
        !text_before(text, text),
    decreases text.len(),
{
    if text.len() > 0 {
        lemma_text_before_irreflexive(text.drop_first());
    }
}

/// The order of texts is transitive.
pub proof fn lemma_text_before_transitive(a: Seq<char>, b: Seq<char>, c: Seq<char>)
    requires
        text_before(a, b),
        text_before(b, c),
    ensures
        text_before(a, c),
    decreases a.len(),
{
    if a.len() > 0 && b.len() > 0 && c.len() > 0 && a[0] == b[0] && b[0] == c[0] {
        lemma_text_before_transitive(a.drop_first(), b.drop_first(), c.drop_first());
    }
}

/// Of two different texts one comes before the other.
pub proof fn lemma_text_before_total(a: Seq<char>, b: Seq<char>)
    ensures
        a == b || text_before(a, b) || text_before(b, a),
    decreases a.len(),
{
    if a.len() == 0 && b.len() == 0 {
        assert(a =~= b);
    } else if a.len() > 0 && b.len() > 0 && a[0] == b[0] {
        lemma_text_before_total(a.drop_first(), b.drop_first());
        if a.drop_first() == b.drop_first() {
            assert(a =~= seq![a[0]] + a.drop_first());
            assert(b =~= seq![b[0]] + b.drop_first());
        }
    } else if a.len() > 0 && b.len() > 0 {
        assert(a[0] as u32 != b[0] as u32) by {
            vstd::utf8::char_u32_cast(a[0], a[0] as u32);
            vstd::utf8::char_u32_cast(b[0], b[0] as u32);
        }
    }
}

/// Two texts that agree on a prefix are ordered as what follows it.
proof fn lemma_text_before_common_prefix(a: Seq<char>, b: Seq<char>, len: int)
    requires
        0 <= len <= a.len(),
        len <= b.len(),
        a.take(len) == b.take(len),
    ensures
        text_before(a, b) == text_before(a.skip(len), b.skip(len)),
    decreases len,
{
    if len == 0 {
        assert(a.skip(0) =~= a);
        assert(b.skip(0) =~= b);
    } else {
        assert(a[0] == a.take(len)[0]);
        assert(b[0] == b.take(len)[0]);
        assert(a.drop_first().take(len - 1) =~= a.take(len).drop_first());
        assert(b.drop_first().take(len - 1) =~= b.take(len).drop_first());
        lemma_text_before_common_prefix(a.drop_first(), b.drop_first(), len - 1);
        assert(a.drop_first().skip(len - 1) =~= a.skip(len));
        assert(b.drop_first().skip(len - 1) =~= b.skip(len));
    }
}

/// Whether `left` comes before `right`.
pub fn comes_before(left: &str, right: &str) -> (r: bool)
    ensures
        r == text_before(left@, right@),
{
    let a: Vec<char> = chars_of(left);
    let b: Vec<char> = chars_of(right);
    let mut index: usize = 0;
    while index < a.len() && index < b.len() && a[index] == b[index]
        invariant
            index <= a.len(),
            index <= b.len(),
            a@ == left@,
            b@ == right@,
            left@.take(index as int) == right@.take(index as int),
        decreases a.len() - index,
    {
        proof {
            assert(left@.take(index + 1) =~= left@.take(index as int).push(left@[index as int]));
            assert(right@.take(index + 1) =~= right@.take(index as int).push(right@[index as int]));
        }
        index += 1;
    }
    proof {
        lemma_text_before_common_prefix(left@, right@, index as int);
    }
    if index >= b.len() {
        false
    } else if index >= a.len() {
        true
    } else {
        (a[index] as u32) < (b[index] as u32)
    }
}

// ---------------------------------------------------------------------------------------------
// Parts
// ---------------------------------------------------------------------------------------------
/// The position of the first occurrence of `c`, or the length where there is none.
pub open spec fn first_of(text: Seq<char>, c: char) -> int
    decreases text.len(),
{
    if text.len() == 0 || text[0] == c {
        0
    } else {
        1 + first_of(text.drop_first(), c)
    }
}

/// The first occurrence is where the text has one and none before.
pub proof fn lemma_first_of_is(text: Seq<char>, c: char, at: int)
    requires
        0 <= at <= text.len(),
        at < text.len() ==> text[at] == c,
        forall|i: int| 0 <= i < at ==> text[i] != c,
    ensures
        first_of(text, c) == at,
    decreases at,
{
    if at > 0 {
        let tail = text.drop_first();
        assert(text[0] != c);
        assert forall|i: int| 0 <= i < at - 1 implies tail[i] != c by {
            assert(tail[i] == text[i + 1]);
        }
        lemma_first_of_is(tail, c, at - 1);
    }
}

/// The position of the first occurrence of `c` at or after `from`, or the length where there is
/// none.
pub fn find_char(chars: &Vec<char>, from: usize, c: char) -> (r: usize)
    requires
        from <= chars@.len(),
    ensures
        from <= r <= chars@.len(),
        r - from == first_of(chars@.skip(from as int), c),
        r < chars@.len() ==> chars@[r as int] == c,
{
    let mut at: usize = from;
    while at < chars.len() && chars[at] != c
        invariant
            from <= at <= chars@.len(),
            forall|i: int| from <= i < at ==> chars@[i] != c,
        decreases chars@.len() - at,
    {
        at += 1;
    }
    proof {
        let rest = chars@.skip(from as int);
        assert forall|i: int| 0 <= i < at - from implies rest[i] != c by {
            assert(rest[i] == chars@[from + i]);
        }
        lemma_first_of_is(rest, c, at - from);
    }
    at
}

/// The characters `chars[from..to]` as a text.
pub fn part(chars: &Vec<char>, from: usize, to: usize) -> (r: String)
    requires
        from <= to <= chars@.len(),
    ensures
        r@ == chars@.subrange(from as int, to as int),
{
    let mut out: String = String::new();
    push_chars(&mut out, chars, from, to);
    assert(out@ =~= chars@.subrange(from as int, to as int));
    out
}

/// The part of a text before the first occurrence of `c` and the part after it, if it occurs.
pub open spec fn split_at(text: Seq<char>, c: char) -> Option<(Seq<char>, Seq<char>)> {
    let at = first_of(text, c);
    if at < text.len() {
        Some((text.take(at), text.skip(at + 1)))
    } else {
        None
    }
}

/// The part of a text before the first occurrence of `c` and the part after it, if it occurs.
pub fn split_once(text: &str, c: char) -> (r: Option<(String, String)>)
    ensures
        match r {
            Some((head, tail)) => split_at(text@, c) == Some((head@, tail@)),
            None => split_at(text@, c) is None,
        },
{
    let chars: Vec<char> = chars_of(text);
    let at: usize = find_char(&chars, 0, c);
    assert(chars@.skip(0) =~= chars@);
    if at == chars.len() {
        return None;
    }
    let head: String = part(&chars, 0, at);
    let tail: String = part(&chars, at + 1, chars.len());
    assert(head@ =~= text@.take(at as int));
    assert(tail@ =~= text@.skip(at + 1));
    Some((head, tail))
}

/// A text starts with another.
pub open spec fn starts_with(text: Seq<char>, start: Seq<char>) -> bool {
    start.len() <= text.len() && text.take(start.len() as int) == start
}

/// Whether a text starts with another.
pub fn text_starts_with(text: &str, start: &str) -> (r: bool)
    ensures
        r == starts_with(text@, start@),
{
    let a: Vec<char> = chars_of(text);
    let b: Vec<char> = chars_of(start);
    if b.len() > a.len() {
        return false;
    }
    let mut index: usize = 0;
    while index < b.len()
        invariant
            index <= b.len() <= a.len(),
            a@ == text@,
            b@ == start@,
            forall|i: int| 0 <= i < index ==> a@[i] == b@[i],
        decreases b.len() - index,
    {
        if a[index] != b[index] {
            assert(text@.take(start@.len() as int)[index as int] != start@[index as int]);
            return false;
        }
        index += 1;
    }
    assert(text@.take(start@.len() as int) =~= start@);
    true
}

/// A text holds another.
pub open spec fn holds(text: Seq<char>, inner: Seq<char>) -> bool {
    exists|at: int| 0 <= at <= text.len() && starts_with(#[trigger] text.skip(at), inner)
}

/// Whether a text holds another.
pub fn contains_text(text: &str, inner: &str) -> (r: bool)
    ensures
        r == holds(text@, inner@),
{
    let chars: Vec<char> = chars_of(text);
    let mut at: usize = 0;
    loop
        invariant
            at <= chars@.len(),
            chars@ == text@,
            forall|i: int| 0 <= i < at ==> !starts_with(#[trigger] text@.skip(i), inner@),
        decreases chars@.len() - at,
    {
        let rest: String = part(&chars, at, chars.len());
        assert(rest@ =~= text@.skip(at as int));
        if text_starts_with(rest.as_str(), inner) {
            return true;
        }
        if at == chars.len() {
            return false;
        }
        at += 1;
    }
}

// ---------------------------------------------------------------------------------------------
// Lines
// ---------------------------------------------------------------------------------------------
/// A line without the carriage return of a line break.
pub open spec fn line_body(line: Seq<char>, broken: bool) -> Seq<char> {
    if broken && line.len() > 0 && line.last() == '\r' {
        line.drop_last()
    } else {
        line
    }
}

/// The lines of a text; a line break is a line feed, or a carriage return with a line feed, and
/// the last line may lack it.
pub open spec fn lines(text: Seq<char>) -> Seq<Seq<char>>
    decreases text.len(),
{
    if text.len() == 0 {
        Seq::empty()
    } else {
        let end = first_of(text, '\n');
        if 0 <= end < text.len() {
            seq![line_body(text.take(end), true)] + lines(text.skip(end + 1))
        } else {
            seq![text]
        }
    }
}

/// The lines of a text.
pub fn split_lines(text: &str) -> (r: Vec<String>)
    ensures
        texts(r@) == lines(text@),
{
    let chars: Vec<char> = chars_of(text);
    let mut out: Vec<String> = Vec::new();
    let mut from: usize = 0;
    assert(text@.skip(0) =~= text@);
    assert(texts(out@) + lines(text@.skip(0)) =~= lines(text@));
    while from < chars.len()
        invariant
            from <= chars@.len(),
            chars@ == text@,
            texts(out@) + lines(text@.skip(from as int)) == lines(text@),
        decreases chars@.len() - from,
    {
        let end: usize = find_char(&chars, from, '\n');
        let ghost rest = text@.skip(from as int);
        let ghost before = out@;
        if end < chars.len() {
            let stop: usize = if end > from && chars[end - 1] == '\r' {
                end - 1
            } else {
                end
            };
            let line: String = part(&chars, from, stop);
            proof {
                assert(rest.take(end - from) =~= text@.subrange(from as int, end as int));
                assert(line@ =~= line_body(rest.take(end - from), true));
                assert(rest.skip(end - from + 1) =~= text@.skip(end + 1));
            }
            out.push(line);
            proof {
                assert(texts(out@) =~= texts(before).push(line@));
                assert(texts(out@) + lines(text@.skip(end + 1)) =~= texts(before) + (seq![line@]
                    + lines(text@.skip(end + 1))));
            }
            from = end + 1;
        } else {
            let line: String = part(&chars, from, end);
            proof {
                assert(line@ =~= rest);
            }
            out.push(line);
            proof {
                assert(texts(out@) =~= texts(before) + seq![line@]);
                assert(text@.skip(end as int) =~= Seq::<char>::empty());
                assert(texts(out@) + lines(text@.skip(end as int)) =~= texts(out@));
            }
            from = end;
        }
    }
    assert(text@.skip(from as int) =~= Seq::<char>::empty());
    assert(texts(out@) + lines(text@.skip(from as int)) =~= texts(out@));
    out
}

// ---------------------------------------------------------------------------------------------
// Lists of texts
// ---------------------------------------------------------------------------------------------
/// The texts of a list, as character sequences.
pub open spec fn texts(list: Seq<String>) -> Seq<Seq<char>> {
    list.map_values(|text: String| text@)
}

/// The parts one after another with `separator` between neighbours.
pub open spec fn joined(parts: Seq<Seq<char>>, separator: Seq<char>) -> Seq<char>
    decreases parts.len(),
{
    if parts.len() == 0 {
        Seq::empty()
    } else if parts.len() == 1 {
        parts[0]
    } else {
        joined(parts.drop_last(), separator) + separator + parts.last()
    }
}

/// The parts one after another with `separator` between neighbours.
pub fn join(parts: &Vec<String>, separator: &str) -> (out: String)
    ensures
        out@ == joined(texts(parts@), separator@),
{
    let mut out = String::new();
    let mut index: usize = 0;
    while index < parts.len()
        invariant
            index <= parts.len(),
            out@ == joined(texts(parts@).take(index as int), separator@),
        decreases parts.len() - index,
    {
        let ghost before = texts(parts@).take(index as int);
        let ghost after = texts(parts@).take(index + 1);
        proof {
            assert(after.drop_last() =~= before);
            assert(after.last() == parts@[index as int]@);
        }
        if index > 0 {
            push_text(&mut out, separator);
        }
        push_text(&mut out, parts[index].as_str());
        proof {
            if index == 0 {
                assert(out@ =~= after[0]);
            }
        }
        index += 1;
    }
    assert(texts(parts@).take(parts@.len() as int) =~= texts(parts@));
    out
}

/// A copy of a list of texts.
pub fn copy_texts(list: &Vec<String>) -> (copy: Vec<String>)
    ensures
        texts(copy@) == texts(list@),
{
    let mut copy: Vec<String> = Vec::new();
    let mut index: usize = 0;
    while index < list.len()
        invariant
            index <= list.len(),
            texts(copy@) == texts(list@).take(index as int),
        decreases list.len() - index,
    {
        let next: String = copy_text(list[index].as_str());
        proof {
            assert(texts(copy@.push(next)) =~= texts(copy@).push(next@));
            assert(texts(list@).take(index + 1) =~= texts(list@).take(index as int).push(
                list@[index as int]@,
            ));
        }
        copy.push(next);
        index += 1;
    }
    assert(texts(list@).take(list@.len() as int) =~= texts(list@));
    copy
}

} // verus!
