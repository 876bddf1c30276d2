//! Validated identifiers and their Crockford Base32 form.
use std::str::FromStr;

use vstd::prelude::*;

use crate::outside;
use crate::text::{chars_of, push_chars, text_before};

verus! {

broadcast use vstd::seq::group_seq_axioms;

/// The number of characters of an encoded identifier.
pub const ENCODED_LEN: usize = 26;

/// The text is not 26 canonical Crockford Base32 characters within 128 bits.
#[derive(Clone, Copy, Debug, PartialEq, Eq, Structural)]
pub struct IdentifierError;

impl IdentifierError {
    /// The error as a message.
    pub fn to_string(&self) -> (text: String)
        ensures
            text@ == "identifier must be 26 canonical Crockford Base32 characters"@,
    {
        "identifier must be 26 canonical Crockford Base32 characters".to_owned()
    }
}

// ---------------------------------------------------------------------------------------------
// Digits
// ---------------------------------------------------------------------------------------------
/// The lower-case character of a Base32 digit: decimal digits, then the letters without
/// `i`, `l`, `o` and `u`.
pub open spec fn digit_symbol(digit: int) -> u8
    recommends
        0 <= digit < 32,
{
    (if digit < 10 {
        48 + digit
    } else if digit < 18 {
        97 + (digit - 10)
    } else if digit < 20 {
        106 + (digit - 18)
    } else if digit < 22 {
        109 + (digit - 20)
    } else if digit < 27 {
        112 + (digit - 22)
    } else {
        118 + (digit - 27)
    }) as u8
}

/// The digit that a character stands for, in either case.
pub open spec fn symbol_digit(symbol: char) -> Option<int> {
    let code = if 65 <= symbol as u32 <= 90 {
        symbol as u32 + 32
    } else {
        symbol as u32 as int
    };
    if 48 <= code <= 57 {
        Some(code - 48)
    } else if 97 <= code <= 104 {
        Some(code - 97 + 10)
    } else if 106 <= code <= 107 {
        Some(code - 106 + 18)
    } else if 109 <= code <= 110 {
        Some(code - 109 + 20)
    } else if 112 <= code <= 116 {
        Some(code - 112 + 22)
    } else if 118 <= code <= 122 {
        Some(code - 118 + 27)
    } else {
        None
    }
}

/// The lowest `len` Base32 digits of `value`, the most significant first.
pub open spec fn base32(value: nat, len: nat) -> Seq<char>
    decreases len,
{
    if len == 0 {
        Seq::empty()
    } else {
        base32(value / 32, (len - 1) as nat).push(digit_symbol((value % 32) as int) as char)
    }
}

/// The canonical text of the identifier with number `value`.
pub open spec fn id_text(value: u128) -> Seq<char> {
    base32(value as nat, ENCODED_LEN as nat)
}

/// Every character of `text` stands for a digit.
pub open spec fn all_symbols(text: Seq<char>) -> bool {
    forall|i: int| 0 <= i < text.len() ==> symbol_digit(#[trigger] text[i]) is Some
}

/// The number that a sequence of digit characters writes in Base32.
pub open spec fn base32_value(text: Seq<char>) -> int
    decreases text.len(),
{
    if text.len() == 0 {
        0
    } else {
        base32_value(text.drop_last()) * 32 + symbol_digit(text.last())->0
    }
}

/// The identifier that `text` writes, if it is one.
pub open spec fn id_of_text(text: Seq<char>) -> Option<u128> {
    if text.len() == ENCODED_LEN && all_symbols(text) && base32_value(text) <= u128::MAX {
        Some(base32_value(text) as u128)
    } else {
        None
    }
}

/// 32 to the power `len`.
pub open spec fn pow32(len: nat) -> nat
    decreases len,
{
    if len == 0 {
        1
    } else {
        32 * pow32((len - 1) as nat)
    }
}

// ---------------------------------------------------------------------------------------------
// Encoding and decoding
// ---------------------------------------------------------------------------------------------
/// The character of a digit; `None` above 31.
pub fn digit_byte(digit: u128) -> (r: Option<u8>)
    ensures
        r == if digit < 32 {
            Some(digit_symbol(digit as int))
        } else {
            None
        },
{
    if digit >= 32 {
        return None;
    }
    let small: u8 = digit as u8;
    Some(
        if small < 10 {
            48 + small
        } else if small < 18 {
            97 + (small - 10)
        } else if small < 20 {
            106 + (small - 18)
        } else if small < 22 {
            109 + (small - 20)
        } else if small < 27 {
            112 + (small - 22)
        } else {
            118 + (small - 27)
        },
    )
}

/// The digit of a character.
fn symbol_value(symbol: char) -> (r: Option<u128>)
    ensures
        match symbol_digit(symbol) {
            Some(digit) => r == Some(digit as u128) && 0 <= digit < 32,
            None => r is None,
        },
{
    let raw: u32 = symbol as u32;
    let code: u32 = if 65 <= raw && raw <= 90 {
        raw + 32
    } else {
        raw
    };
    if 48 <= code && code <= 57 {
        Some((code - 48) as u128)
    } else if 97 <= code && code <= 104 {
        Some((code - 97 + 10) as u128)
    } else if 106 <= code && code <= 107 {
        Some((code - 106 + 18) as u128)
    } else if 109 <= code && code <= 110 {
        Some((code - 109 + 20) as u128)
    } else if 112 <= code && code <= 116 {
        Some((code - 112 + 22) as u128)
    } else if 118 <= code && code <= 122 {
        Some((code - 118 + 27) as u128)
    } else {
        None
    }
}

/// The 26 digits of `value`; encoding never fails.
pub fn encode(value: u128) -> (r: Result<[u8; 26], IdentifierError>)
    ensures
        r matches Ok(encoded) && encoded@.map_values(|byte: u8| byte as char) == id_text(value),
{
    let mut remaining: u128 = value;
    let mut encoded: [u8; 26] = [48u8;26];
    let mut index: usize = ENCODED_LEN;
    proof {
        assert(encoded@.skip(26).map_values(|byte: u8| byte as char) =~= Seq::<char>::empty());
        assert(base32(remaining as nat, 26) + Seq::<char>::empty() =~= id_text(value));
    }
    while index > 0
        invariant
            index <= 26,
            encoded@.len() == 26,
            base32(remaining as nat, index as nat) + encoded@.skip(index as int).map_values(
                |byte: u8| byte as char,
            ) == id_text(value),
        decreases index,
    {
        let ghost before = encoded@;
        let ghost whole = remaining;
        let symbol: u8 = match digit_byte(remaining % 32) {
            Some(symbol) => symbol,
            None => {
                return Err(IdentifierError);
            },
        };
        index -= 1;
        encoded[index] = symbol;
        remaining = remaining / 32;
        proof {
            assert(encoded@.skip(index as int) =~= seq![symbol] + before.skip(index + 1));
            let tail = before.skip(index + 1).map_values(|byte: u8| byte as char);
            assert(encoded@.skip(index as int).map_values(|byte: u8| byte as char) =~= seq![
                symbol as char,
            ] + tail);
            let head = base32(remaining as nat, index as nat);
            assert(base32(whole as nat, (index + 1) as nat) == head.push(symbol as char));
            assert(head.push(symbol as char) + tail =~= head + (seq![symbol as char] + tail));
        }
    }
    proof {
        assert(encoded@.skip(0) =~= encoded@);
        assert(Seq::<char>::empty() + encoded@.map_values(|byte: u8| byte as char)
            =~= encoded@.map_values(|byte: u8| byte as char));
    }
    Ok(encoded)
}

/// The number of an encoded identifier, in either case.
pub fn decode(value: &str) -> (r: Result<u128, IdentifierError>)
    ensures
        r == match id_of_text(value@) {
            Some(id) => Ok::<u128, IdentifierError>(id),
            None => Err(IdentifierError),
        },
{
    let chars: Vec<char> = chars_of(value);
    if chars.len() != ENCODED_LEN {
        return Err(IdentifierError);
    }
    let mut decoded: u128 = 0;
    let mut index: usize = 0;
    while index < chars.len()
        invariant
            index <= chars.len(),
            chars@ == value@,
            chars@.len() == ENCODED_LEN,
            all_symbols(value@.take(index as int)),
            decoded == base32_value(value@.take(index as int)),
        decreases chars.len() - index,
    {
        let ghost before = value@.take(index as int);
        let ghost after = value@.take(index + 1);
        proof {
            assert(after.drop_last() =~= before);
            assert(after.last() == value@[index as int]);
            if all_symbols(value@) {
                assert(symbol_digit(value@[index as int]) is Some);
                lemma_base32_value_prefix(value@, index + 1);
            }
        }
        let digit: u128 = match symbol_value(chars[index]) {
            Some(digit) => digit,
            None => {
                assert(symbol_digit(value@[index as int]) is None);
                return Err(IdentifierError);
            },
        };
        let scaled: u128 = match decoded.checked_mul(32) {
            Some(scaled) => scaled,
            None => {
                return Err(IdentifierError);
            },
        };
        decoded = match scaled.checked_add(digit) {
            Some(sum) => sum,
            None => {
                return Err(IdentifierError);
            },
        };
        proof {
            assert forall|i: int| 0 <= i < after.len() implies symbol_digit(
                #[trigger] after[i],
            ) is Some by {
                if i < index {
                    assert(after[i] == before[i]);
                }
            }
        }
        index += 1;
    }
    assert(value@.take(26) =~= value@);
    Ok(decoded)
}

/// A Base32 number is at least the value of any of its leading digits.
proof fn lemma_base32_value_prefix(text: Seq<char>, len: int)
    requires
        all_symbols(text),
        0 <= len <= text.len(),
    ensures
        0 <= base32_value(text.take(len)) <= base32_value(text),
    decreases text.len(),
{
    if text.len() == 0 {
        assert(text.take(len) =~= text);
    } else if len == text.len() {
        assert(text.take(len) =~= text);
        lemma_base32_value_prefix(text.drop_last(), len - 1);
        assert(symbol_digit(text.last()) is Some);
    } else {
        lemma_base32_value_prefix(text.drop_last(), len);
        assert(text.drop_last().take(len) =~= text.take(len));
        assert(symbol_digit(text.last()) is Some);
    }
}

proof fn lemma_symbol_of_digit(digit: int)
    requires
        0 <= digit < 32,
    ensures
        symbol_digit(digit_symbol(digit) as char) == Some(digit),
        digit_symbol(digit) < 128,
{
}

proof fn lemma_base32_reads_back(value: nat, len: nat)
    requires
        value < pow32(len),
    ensures
        base32(value, len).len() == len,
        all_symbols(base32(value, len)),
        base32_value(base32(value, len)) == value,
    decreases len,
{
    if len > 0 {
        lemma_base32_reads_back(value / 32, (len - 1) as nat);
        lemma_symbol_of_digit((value % 32) as int);
        let head = base32(value / 32, (len - 1) as nat);
        assert(base32(value, len).drop_last() =~= head);
        assert forall|i: int| 0 <= i < len implies symbol_digit(
            #[trigger] base32(value, len)[i],
        ) is Some by {
            if i < len - 1 {
                assert(base32(value, len)[i] == head[i]);
            }
        }
    }
}

proof fn lemma_u128_fits()
    ensures
        u128::MAX < pow32(26),
{
    reveal_with_fuel(pow32, 27);
}

/// Every identifier's text reads back as that identifier.
pub proof fn lemma_id_round_trip(value: u128)
    ensures
        id_of_text(id_text(value)) == Some(value),
{
    lemma_u128_fits();
    lemma_base32_reads_back(value as nat, 26);
}

proof fn lemma_text_before_push(a: Seq<char>, b: Seq<char>, x: char, y: char)
    requires
        a.len() == b.len(),
    ensures
        text_before(a.push(x), b.push(y)) == (text_before(a, b) || (a == b && (x as u32) < (y as u32))),
    decreases a.len(),
{
    if a.len() == 0 {
        assert(a =~= b);
        assert(a.push(x).drop_first() =~= a);
        assert(b.push(y).drop_first() =~= b);
    } else {
        assert(a.push(x)[0] == a[0]);
        assert(b.push(y)[0] == b[0]);
        assert(a.push(x).drop_first() =~= a.drop_first().push(x));
        assert(b.push(y).drop_first() =~= b.drop_first().push(y));
        lemma_text_before_push(a.drop_first(), b.drop_first(), x, y);
        if a[0] == b[0] {
            if a.drop_first() == b.drop_first() {
                assert(a =~= seq![a[0]] + a.drop_first());
                assert(b =~= seq![b[0]] + b.drop_first());
            }
        }
    }
}

proof fn lemma_base32_order(a: nat, b: nat, len: nat)
    requires
        a < pow32(len),
        b < pow32(len),
    ensures
        text_before(base32(a, len), base32(b, len)) == (a < b),
    decreases len,
{
    if len > 0 {
        let shorter = (len - 1) as nat;
        lemma_base32_order(a / 32, b / 32, shorter);
        lemma_base32_reads_back(a / 32, shorter);
        lemma_base32_reads_back(b / 32, shorter);
        lemma_text_before_push(
            base32(a / 32, shorter),
            base32(b / 32, shorter),
            digit_symbol((a % 32) as int) as char,
            digit_symbol((b % 32) as int) as char,
        );
    }
}

/// The texts of identifiers are ordered as the identifiers.
pub proof fn lemma_id_order(a: u128, b: u128)
    ensures
        text_before(id_text(a), id_text(b)) == (a < b),
{
    lemma_u128_fits();
    lemma_base32_order(a as nat, b as nat, 26);
}

/// `text` in lower case, as far as ASCII letters go.
pub open spec fn ascii_lower(text: Seq<char>) -> Seq<char> {
    text.map_values(
        |c: char|
            if 65 <= c as u32 <= 90 {
                ((c as u32 + 32) as u8) as char
            } else {
                c
            },
    )
}

proof fn lemma_symbol_canonical(symbol: char)
    requires
        symbol_digit(symbol) is Some,
    ensures
        0 <= symbol_digit(symbol)->0 < 32,
        ascii_lower(seq![symbol])[0] == digit_symbol(symbol_digit(symbol)->0) as char,
{
    let code = symbol as u32;
    if !(65 <= code <= 90) {
        assert((code as u8) as char == symbol);
    }
}

proof fn lemma_base32_canonical(text: Seq<char>)
    requires
        all_symbols(text),
    ensures
        base32_value(text) >= 0,
        base32(base32_value(text) as nat, text.len()) == ascii_lower(text),
    decreases text.len(),
{
    if text.len() > 0 {
        let head = text.drop_last();
        lemma_base32_canonical(head);
        assert(symbol_digit(text.last()) is Some);
        lemma_symbol_canonical(text.last());
        let digit = symbol_digit(text.last())->0;
        let value = base32_value(head);
        assert((value * 32 + digit) / 32 == value && (value * 32 + digit) % 32 == digit)
            by (nonlinear_arith)
            requires
                value >= 0,
                0 <= digit < 32,
        ;
        assert(ascii_lower(text) =~= ascii_lower(head).push(
            ascii_lower(seq![text.last()])[0],
        ));
    } else {
        assert(ascii_lower(text) =~= Seq::<char>::empty());
    }
}

/// A text that reads as an identifier is that identifier's canonical text, up to case.
pub proof fn lemma_id_text_canonical(text: Seq<char>)
    requires
        id_of_text(text) is Some,
    ensures
        id_text(id_of_text(text)->0) == ascii_lower(text),
{
    lemma_base32_canonical(text);
}

// ---------------------------------------------------------------------------------------------
// Identifiers
// ---------------------------------------------------------------------------------------------
/// 2 to the power 76, the unit of the four version bits of a UUID.
pub const VERSION_UNIT: u128 = 75_557_863_725_914_323_419_136;

/// The version of a UUID: the four bits from bit 76.
pub open spec fn uuid_version(value: u128) -> int {
    (value as int / VERSION_UNIT as int) % 16
}

/// The number was made by the generator of new identifiers.
pub closed spec fn is_generated(value: u128) -> bool {
    call_ensures(outside::fresh_uuid, (), value)
}

/// The number is that of a new identifier.
pub open spec fn is_fresh(value: u128) -> bool {
    uuid_version(value) == 7 && is_generated(value)
}

/// The canonical text of `value`.
fn encoded_text(value: u128) -> (text: String)
    ensures
        text@ == id_text(value),
{
    let mut text = String::new();
    match encode(value) {
        Ok(encoded) => {
            let mut index: usize = 0;
            let ghost symbols = encoded@.map_values(|byte: u8| byte as char);
            while index < 26
                invariant
                    index <= 26,
                    encoded@.len() == 26,
                    symbols == encoded@.map_values(|byte: u8| byte as char),
                    text@ == symbols.take(index as int),
                decreases 26 - index,
            {
                proof {
                    assert(symbols.take(index + 1) =~= symbols.take(index as int).push(
                        symbols[index as int],
                    ));
                }
                text.push(encoded[index] as char);
                index += 1;
            }
            assert(symbols.take(26) =~= symbols);
        },
        Err(_) => {},
    }
    text
}

/// The identifier of a job.
#[derive(Clone, Copy, Debug, PartialEq, Eq, PartialOrd, Ord, Hash, Structural)]
pub struct JobId(u128);

impl View for JobId {
    type V = u128;

    closed spec fn view(&self) -> u128 {
        self.0
    }
}

impl JobId {
    /// A fresh identifier: a UUID of version 7, whose leading bits are the current time.
    pub fn new() -> (r: JobId)
        ensures
            is_fresh(r@),
    {
        let value: u128 = outside::fresh_uuid();
        assert(is_generated(value));
        JobId(value)
    }

    /// The identifier with the given number.
    pub fn from_u128(value: u128) -> (r: JobId)
        ensures
            r@ == value,
    {
        JobId(value)
    }

    /// The number of the identifier.
    pub fn as_u128(self) -> (r: u128)
        ensures
            r == self@,
    {
        self.0
    }

    /// The version of the UUID.
    pub fn version(self) -> (r: usize)
        ensures
            r == uuid_version(self@),
    {
        ((self.0 / VERSION_UNIT) % 16) as usize
    }

    /// Whether both are the same identifier.
    pub fn same(self, other: JobId) -> (r: bool)
        ensures
            r == (self@ == other@),
            r == (self == other),
    {
        self.0 == other.0
    }

    /// The canonical text of the identifier.
    pub fn to_string(&self) -> (text: String)
        ensures
            text@ == id_text(self@),
            id_of_text(text@) == Some(self@),
    {
        proof {
            lemma_id_round_trip(self.0);
        }
        encoded_text(self.0)
    }

    /// The identifier that a text writes.
    pub fn from_str(value: &str) -> (r: Result<JobId, IdentifierError>)
        ensures
            match r {
                Ok(id) => id_of_text(value@) == Some(id@),
                Err(_) => id_of_text(value@) is None,
            },
    {
        match decode(value) {
            Ok(number) => Ok(JobId(number)),
            Err(error) => Err(error),
        }
    }
}

impl FromStr for JobId {
    type Err = IdentifierError;

    fn from_str(value: &str) -> Result<JobId, IdentifierError> {
        JobId::from_str(value)
    }
}

/// The identifier of a run.
#[derive(Clone, Copy, Debug, PartialEq, Eq, PartialOrd, Ord, Hash, Structural)]
pub struct RunId(u128);

impl View for RunId {
    type V = u128;

    closed spec fn view(&self) -> u128 {
        self.0
    }
}

impl RunId {
    /// A fresh identifier: a UUID of version 7, whose leading bits are the current time.
    pub fn new() -> (r: RunId)
        ensures
            is_fresh(r@),
    {
        let value: u128 = outside::fresh_uuid();
        assert(is_generated(value));
        RunId(value)
    }

    /// The identifier with the given number.
    pub fn from_u128(value: u128) -> (r: RunId)
        ensures
            r@ == value,
    {
        RunId(value)
    }

    /// The number of the identifier.
    pub fn as_u128(self) -> (r: u128)
        ensures
            r == self@,
    {
        self.0
    }

    /// The version of the UUID.
    pub fn version(self) -> (r: usize)
        ensures
            r == uuid_version(self@),
    {
        ((self.0 / VERSION_UNIT) % 16) as usize
    }

    /// Whether both are the same identifier.
    pub fn same(self, other: RunId) -> (r: bool)
        ensures
            r == (self@ == other@),
            r == (self == other),
    {
        self.0 == other.0
    }

    /// The canonical text of the identifier.
    pub fn to_string(&self) -> (text: String)
        ensures
            text@ == id_text(self@),
            id_of_text(text@) == Some(self@),
    {
        proof {
            lemma_id_round_trip(self.0);
        }
        encoded_text(self.0)
    }

    /// The identifier that a text writes.
    pub fn from_str(value: &str) -> (r: Result<RunId, IdentifierError>)
        ensures
            match r {
                Ok(id) => id_of_text(value@) == Some(id@),
                Err(_) => id_of_text(value@) is None,
            },
    {
        match decode(value) {
            Ok(number) => Ok(RunId(number)),
            Err(error) => Err(error),
        }
    }
}

impl FromStr for RunId {
    type Err = IdentifierError;

    fn from_str(value: &str) -> Result<RunId, IdentifierError> {
        RunId::from_str(value)
    }
}

// ---------------------------------------------------------------------------------------------
// The hyphenated form
// ---------------------------------------------------------------------------------------------
/// Two identifiers with the same number are the same.
pub proof fn lemma_id_views_injective(a: JobId, b: JobId, c: RunId, d: RunId)
    ensures
        (a == b) == (a@ == b@),
        (c == d) == (c@ == d@),
{
}

/// The lower-case character of a hexadecimal digit.
pub open spec fn hex_symbol(digit: int) -> char {
    (if digit < 10 {
        48 + digit
    } else {
        97 + (digit - 10)
    }) as u8 as char
}

/// The lowest `len` hexadecimal digits of `value`, the most significant first.
pub open spec fn hex_digits(value: nat, len: nat) -> Seq<char>
    decreases len,
{
    if len == 0 {
        Seq::empty()
    } else {
        hex_digits(value / 16, (len - 1) as nat).push(hex_symbol((value % 16) as int))
    }
}

/// A UUID in hyphenated form: 32 hexadecimal digits in groups of 8, 4, 4, 4 and 12.
pub open spec fn uuid_text(value: u128) -> Seq<char> {
    let digits = hex_digits(value as nat, 32);
    digits.subrange(0, 8) + seq!['-'] + digits.subrange(8, 12) + seq!['-'] + digits.subrange(12, 16)
        + seq!['-'] + digits.subrange(16, 20) + seq!['-'] + digits.subrange(20, 32)
}

proof fn lemma_hex_digits_len(value: nat, len: nat)
    ensures
        hex_digits(value, len).len() == len,
    decreases len,
{
    if len > 0 {
        lemma_hex_digits_len(value / 16, (len - 1) as nat);
    }
}

fn hex_chars(value: u128, len: usize) -> (r: Vec<char>)
    ensures
        r@ == hex_digits(value as nat, len as nat),
    decreases len,
{
    if len == 0 {
        let r: Vec<char> = Vec::new();
        return r;
    }
    let mut r: Vec<char> = hex_chars(value / 16, len - 1);
    let digit: u8 = (value % 16) as u8;
    let symbol: u8 = if digit < 10 {
        48 + digit
    } else {
        97 + (digit - 10)
    };
    r.push(symbol as char);
    r
}

/// Appends a UUID in hyphenated form.
pub fn push_uuid(out: &mut String, value: u128)
    ensures
        final(out)@ == old(out)@ + uuid_text(value),
{
    let ghost before = out@;
    let digits: Vec<char> = hex_chars(value, 32);
    proof {
        lemma_hex_digits_len(value as nat, 32);
    }
    let ghost all = digits@;
    push_chars(out, &digits, 0, 8);
    out.push('-');
    push_chars(out, &digits, 8, 12);
    out.push('-');
    push_chars(out, &digits, 12, 16);
    out.push('-');
    push_chars(out, &digits, 16, 20);
    out.push('-');
    push_chars(out, &digits, 20, 32);
    assert(out@ =~= before + uuid_text(value));
}

} // verus!
