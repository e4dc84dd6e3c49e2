//! Building text: decimal numbers and cache keys.
use vstd::prelude::*;
use vstd::string::{StringExecFns, StringSliceAdditionalSpecFns};

verus! {

/// The character of the decimal digit `digit`.
pub open spec fn digit_char(digit: nat) -> char
    recommends
        digit < 10,
{
    ((48 + digit) as u8) as char
}

/// The decimal digits of `value`, most significant first, without leading
/// zeros.
pub open spec fn decimal_digits(value: nat) -> Seq<char>
    decreases value,
{
    if value < 10 {
        seq![digit_char(value)]
    } else {
        decimal_digits(value / 10).push(digit_char(value % 10))
    }
}

/// The decimal notation of `value`: a minus sign for a negative number, then
/// the digits of its magnitude.
pub open spec fn decimal(value: int) -> Seq<char> {
    if value < 0 {
        seq!['-'] + decimal_digits((-value) as nat)
    } else {
        decimal_digits(value as nat)
    }
}

/// The key under which the record `id` of the kind `biz` of the application
/// `app_name` is cached: the three parts joined by colons.
pub open spec fn spec_gen_key(app_name: Seq<char>, biz: Seq<char>, id: int) -> Seq<char> {
    app_name + seq![':'] + biz + seq![':'] + decimal(id)
}

/// `String::push` of std: appends one character to the text.
#[verifier::external_body]
pub(crate) fn push_char(text: &mut String, c: char)
    ensures
        final(text)@ == old(text)@.push(c),
{
    text.push(c)
}

/// Appends the decimal digits of `value` to `out`.
pub fn push_decimal_digits(out: &mut String, value: u64)
    ensures
        final(out)@ == old(out)@ + decimal_digits(value as nat),
    decreases value,
{
    if value >= 10 {
        push_decimal_digits(out, value / 10);
    }
    let digit: u8 = (value % 10) as u8;
    push_char(out, (48 + digit) as char);
    assert(out@ =~= old(out)@ + decimal_digits(value as nat));
}

/// Appends the decimal notation of `value` to `out`.
pub fn push_decimal(out: &mut String, value: i64)
    ensures
        final(out)@ == old(out)@ + decimal(value as int),
{
    if value < 0 {
        push_char(out, '-');
        let magnitude: u64 = (-(value + 1)) as u64 + 1;
        push_decimal_digits(out, magnitude);
    } else {
        push_decimal_digits(out, value as u64);
    }
    assert(out@ =~= old(out)@ + decimal(value as int));
}

/// The decimal notation of `value`.
pub fn decimal_string(value: i64) -> (text: String)
    ensures
        text@ == decimal(value as int),
{
    let mut text = String::new();
    push_decimal(&mut text, value);
    assert(text@ =~= decimal(value as int));
    text
}

/// Makes the cache key of a record: `app_name:biz:id`.
pub fn gen_key(app_name: &str, biz: &str, id: i64) -> (key: String)
    ensures
        key@ == spec_gen_key(app_name@, biz@, id as int),
{
    let mut key = String::from_str(app_name);
    push_char(&mut key, ':');
    key.append(biz);
    push_char(&mut key, ':');
    push_decimal(&mut key, id);
    assert(key@ =~= spec_gen_key(app_name@, biz@, id as int));
    key
}

/// What stands before the name of a table in the kind of its cached rows.
pub const CACHE_PREFIX: &'static str = "cache-";

/// Makes the cache key of a row of a table: `app_name:cache-table:id`.
pub fn cache_key(app_name: &str, table: &str, id: i64) -> (key: String)
    ensures
        key@ == spec_gen_key(app_name@, CACHE_PREFIX@ + table@, id as int),
{
    let biz = String::from_str(CACHE_PREFIX).concat(table);
    gen_key(app_name, biz.as_str(), id)
}

/// Treats an empty text like a missing one.
pub fn empty_string_as_none<'a>(text: Option<&'a str>) -> (present: Option<&'a str>)
    ensures
        present == match text {
            Some(given) if given@.len() > 0 => Some(given),
            _ => None,
        },
{
    match text {
        None => None,
        Some(given) => {
            if given.is_empty() {
                None
            } else {
                Some(given)
            }
        },
    }
}

/// Whether the byte is an ASCII decimal digit.
pub open spec fn is_digit(byte: u8) -> bool {
    48 <= byte <= 57
}

/// Whether every byte is an ASCII decimal digit.
pub open spec fn all_digits(bytes: Seq<u8>) -> bool {
    forall|i: int| 0 <= i < bytes.len() ==> is_digit(#[trigger] bytes[i])
}

/// What a byte counts in a number: a digit its value, any other byte nothing.
pub open spec fn digit_value(byte: u8) -> nat {
    if is_digit(byte) {
        (byte - 48) as nat
    } else {
        0
    }
}

/// The number that a run of digits writes, most significant digit first.
pub open spec fn digits_value(bytes: Seq<u8>) -> nat
    decreases bytes.len(),
{
    if bytes.len() == 0 {
        0
    } else {
        digits_value(bytes.drop_last()) * 10 + digit_value(bytes.last())
    }
}

/// The number that `bytes` writes without a sign, if they are one digit or
/// more and the number is at most `limit`.
pub open spec fn spec_parse_digits(bytes: Seq<u8>, limit: nat) -> Option<nat> {
    if bytes.len() > 0 && all_digits(bytes) && digits_value(bytes) <= limit {
        Some(digits_value(bytes))
    } else {
        None
    }
}

/// The number that `bytes` writes in decimal, if they are an optional sign
/// (`+` or `-`) and one digit or more, and the number fits an `i64`.
pub open spec fn spec_parse_i64(bytes: Seq<u8>) -> Option<i64> {
    if bytes.len() == 0 {
        None
    } else if bytes[0] == 45 {
        match spec_parse_digits(bytes.drop_first(), 0x8000_0000_0000_0000) {
            Some(magnitude) => Some((-magnitude) as i64),
            None => None,
        }
    } else if bytes[0] == 43 {
        match spec_parse_digits(bytes.drop_first(), 0x7fff_ffff_ffff_ffff) {
            Some(magnitude) => Some(magnitude as i64),
            None => None,
        }
    } else {
        match spec_parse_digits(bytes, 0x7fff_ffff_ffff_ffff) {
            Some(magnitude) => Some(magnitude as i64),
            None => None,
        }
    }
}

/// The number that `bytes` writes in decimal, if they are an optional `+`
/// and one digit or more, and the number fits a `u8`.
pub open spec fn spec_parse_u8(bytes: Seq<u8>) -> Option<u8> {
    if bytes.len() == 0 {
        None
    } else if bytes[0] == 43 {
        match spec_parse_digits(bytes.drop_first(), 255) {
            Some(value) => Some(value as u8),
            None => None,
        }
    } else {
        match spec_parse_digits(bytes, 255) {
            Some(value) => Some(value as u8),
            None => None,
        }
    }
}

/// More digits never write a smaller number: the number of a prefix is at
/// most the number of the whole.
pub proof fn lemma_digits_value_grows(bytes: Seq<u8>, split: int)
    requires
        0 <= split <= bytes.len(),
    ensures
        digits_value(bytes.subrange(0, split)) <= digits_value(bytes),
    decreases bytes.len() - split,
{
    if split == bytes.len() {
        assert(bytes.subrange(0, split) =~= bytes);
    } else {
        lemma_digits_value_grows(bytes, split + 1);
        let longer = bytes.subrange(0, split + 1);
        assert(longer.drop_last() =~= bytes.subrange(0, split));
    }
}

/// Reads the digits of `bytes` from `start` on as a number of at most
/// `limit`.
pub fn parse_digits(bytes: &[u8], start: usize, limit: u64) -> (value: Option<u64>)
    requires
        start <= bytes@.len(),
    ensures
        match spec_parse_digits(bytes@.subrange(start as int, bytes@.len() as int), limit as nat) {
            Some(number) => value == Some(number as u64),
            None => value is None,
        },
{
    let ghost digits = bytes@.subrange(start as int, bytes@.len() as int);
    if start == bytes.len() {
        return None;
    }
    let mut number: u64 = 0;
    let mut at: usize = start;
    assert(digits.subrange(0, 0) =~= Seq::<u8>::empty());
    while at < bytes.len()
        invariant
            start <= at <= bytes@.len(),
            digits == bytes@.subrange(start as int, bytes@.len() as int),
            all_digits(digits.subrange(0, at - start)),
            number == digits_value(digits.subrange(0, at - start)),
            number <= limit,
        decreases bytes@.len() - at,
    {
        let byte = bytes[at];
        assert(byte == digits[at - start]);
        if byte < 48 || byte > 57 {
            return None;
        }
        let grown: u128 = number as u128 * 10 + (byte - 48) as u128;
        proof {
            let longer = digits.subrange(0, at - start + 1);
            assert(longer.drop_last() =~= digits.subrange(0, at - start));
            assert(longer.last() == byte);
            assert(digits_value(longer) == grown);
            assert(all_digits(longer));
            lemma_digits_value_grows(digits, at - start + 1);
        }
        if grown > limit as u128 {
            return None;
        }
        number = grown as u64;
        at = at + 1;
    }
    assert(digits.subrange(0, at - start) =~= digits);
    Some(number)
}

/// Reads a decimal `i64`: an optional sign, then digits, and nothing else.
pub fn parse_i64(text: &str) -> (value: Option<i64>)
    ensures
        value == spec_parse_i64(text.spec_bytes()),
{
    let bytes = text.as_bytes();
    if bytes.len() == 0 {
        return None;
    }
    assert(bytes@.drop_first() =~= bytes@.subrange(1, bytes@.len() as int));
    assert(bytes@ =~= bytes@.subrange(0, bytes@.len() as int));
    if bytes[0] == 45 {
        match parse_digits(bytes, 1, 0x8000_0000_0000_0000) {
            Some(magnitude) => {
                if magnitude == 0x8000_0000_0000_0000 {
                    Some(i64::MIN)
                } else {
                    Some(-(magnitude as i64))
                }
            },
            None => None,
        }
    } else if bytes[0] == 43 {
        match parse_digits(bytes, 1, 0x7fff_ffff_ffff_ffff) {
            Some(magnitude) => Some(magnitude as i64),
            None => None,
        }
    } else {
        match parse_digits(bytes, 0, 0x7fff_ffff_ffff_ffff) {
            Some(magnitude) => Some(magnitude as i64),
            None => None,
        }
    }
}

/// Reads a decimal `u8`: an optional `+`, then digits, and nothing else.
pub fn parse_u8(text: &str) -> (value: Option<u8>)
    ensures
        value == spec_parse_u8(text.spec_bytes()),
{
    let bytes = text.as_bytes();
    if bytes.len() == 0 {
        return None;
    }
    assert(bytes@.drop_first() =~= bytes@.subrange(1, bytes@.len() as int));
    assert(bytes@ =~= bytes@.subrange(0, bytes@.len() as int));
    let start: usize = if bytes[0] == 43 {
        1
    } else {
        0
    };
    match parse_digits(bytes, start, 255) {
        Some(value) => Some(value as u8),
        None => None,
    }
}

} // verus!
