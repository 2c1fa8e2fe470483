//! The pieces that messages are put together from.

use vstd::prelude::*;
use vstd::string::*;

verus! {

/// The lower-case hexadecimal digits of `value`, without leading zeros.
pub open spec fn hex_digits(value: nat) -> Seq<char>
    decreases value,
{
    let digit = seq!["0123456789abcdef"@[(value % 16) as int]];
    if value < 16 {
        digit
    } else {
        hex_digits(value / 16) + digit
    }
}

/// How an address reads in a message: `0x` and its hexadecimal digits.
pub open spec fn pointer_chars(address: nat) -> Seq<char> {
    "0x"@ + hex_digits(address)
}

/// What each of `strings` holds.
pub open spec fn texts(strings: Seq<String>) -> Seq<Seq<char>> {
    strings.map_values(|s: String| s@)
}

/// Appends the hexadecimal digits of `value` to `text`.
fn append_hex(text: &mut String, value: usize)
    ensures
        final(text)@ == old(text)@ + hex_digits(value as nat),
    decreases value,
{
    proof {
        reveal_strlit("0123456789abcdef");
    }
    if value >= 16 {
        append_hex(text, value / 16);
    }
    let digit: usize = value % 16;
    text.append("0123456789abcdef".substring_char(digit, digit + 1));
    assert("0123456789abcdef"@.subrange(digit as int, digit + 1) =~= seq![
        "0123456789abcdef"@[digit as int],
    ]);
    assert(text@ =~= old(text)@ + hex_digits(value as nat));
}

/// The text of an address, as in `0x7f01`.
pub fn pointer_text(address: usize) -> (text: String)
    ensures
        text@ == pointer_chars(address as nat),
{
    let mut text = "0x".to_owned();
    append_hex(&mut text, address);
    text
}

/// Appends a copy of every string of `more` to `strings`.
pub(crate) fn append_strings(strings: &mut Vec<String>, more: &Vec<String>)
    ensures
        texts(final(strings)@) == texts(old(strings)@) + texts(more@),
{
    let ghost start = texts(strings@);
    for i in 0..more.len()
        invariant
            texts(strings@) == start + texts(more@.take(i as int)),
    {
        let ghost before = strings@;
        strings.push(more[i].clone());
        assert(texts(strings@) =~= texts(before).push(more[i as int]@));
        assert(texts(more@.take(i + 1)) =~= texts(more@.take(i as int)).push(more[i as int]@));
    }
    assert(more@.take(more.len() as int) =~= more@);
    assert(texts(strings@) =~= start + texts(more@));
}

/// A vector that holds `message` alone.
pub(crate) fn one_string(message: String) -> (strings: Vec<String>)
    ensures
        texts(strings@) == seq![message@],
{
    let mut strings: Vec<String> = Vec::new();
    strings.push(message);
    assert(texts(strings@) =~= seq![message@]);
    strings
}

/// The number that hexadecimal digits stand for.
pub open spec fn hex_value(digits: Seq<char>) -> nat
    decreases digits.len(),
{
    if digits.len() == 0 {
        0
    } else {
        hex_value(digits.drop_last()) * 16 + hex_digit_value(digits.last())
    }
}

/// The number that a hexadecimal digit stands for.
pub open spec fn hex_digit_value(digit: char) -> nat {
    if '0' <= digit <= '9' {
        (digit as int - '0' as int) as nat
    } else if 'a' <= digit <= 'f' {
        (digit as int - 'a' as int + 10) as nat
    } else {
        0
    }
}

/// Whether `digit` is a hexadecimal digit, in lower case.
pub open spec fn is_hex_digit(digit: char) -> bool {
    '0' <= digit <= '9' || 'a' <= digit <= 'f'
}

proof fn hex_digits_read_back(value: nat)
    ensures
        hex_value(hex_digits(value)) == value,
        hex_digits(value).len() > 0,
        forall|i: int|
            0 <= i < hex_digits(value).len() ==> is_hex_digit(#[trigger] hex_digits(value)[i]),
        value > 0 ==> hex_digits(value)[0] != '0',
        value == 0 ==> hex_digits(value).len() == 1,
    decreases value,
{
    reveal_strlit("0123456789abcdef");
    let digits = hex_digits(value);
    let digit = "0123456789abcdef"@[(value % 16) as int];
    assert(hex_digit_value(digit) == value % 16 && is_hex_digit(digit));
    if value < 16 {
        assert(digits =~= seq![digit]);
        assert(digits.drop_last() =~= Seq::empty());
        assert(hex_value(digits.drop_last()) == 0);
    } else {
        hex_digits_read_back(value / 16);
        assert(digits.drop_last() =~= hex_digits(value / 16));
        assert(digits[0] == hex_digits(value / 16)[0]);
    }
}

/// The text of an address is `0x` and lower-case hexadecimal digits, the first of
/// them no zero unless the address is null, from which the address can be read.
pub proof fn an_address_can_be_read_from_its_text(address: usize, text: String)
    requires
        call_ensures(pointer_text, (address,), text),
    ensures
        text@.take(2) == "0x"@,
        hex_value(text@.skip(2)) == address,
        forall|i: int| 2 <= i < text@.len() ==> is_hex_digit(#[trigger] text@[i]),
        text@.len() > 2,
        address > 0 ==> text@[2] != '0',
        address == 0 ==> text@ == "0x0"@,
{
    reveal_strlit("0x");
    reveal_strlit("0x0");
    reveal_strlit("0123456789abcdef");
    let digits = hex_digits(address as nat);
    hex_digits_read_back(address as nat);
    assert(text@.take(2) =~= "0x"@);
    assert(text@.skip(2) =~= digits);
    assert forall|i: int| 2 <= i < text@.len() implies is_hex_digit(#[trigger] text@[i]) by {
        assert(text@[i] == digits[i - 2]);
    }
    assert(text@[2] == digits[0]);
    if address == 0 {
        assert(text@ =~= "0x0"@);
    }
}

} // verus!
