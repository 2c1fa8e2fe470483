//! The printable name of a DXGI adapter.
//!
//! DXGI describes an adapter in a buffer of UTF-16 units of a fixed size, filled
//! up with zeros behind the name.

use vstd::prelude::*;

verus! {

/// Whether `unit` is the first half of a surrogate pair.
pub open spec fn is_high_surrogate(unit: u16) -> bool {
    0xd800 <= unit <= 0xdbff
}

/// Whether `unit` is the second half of a surrogate pair.
pub open spec fn is_low_surrogate(unit: u16) -> bool {
    0xdc00 <= unit <= 0xdfff
}

/// What a sequence of UTF-16 units spells, with the replacement character for
/// each surrogate that is not part of a pair.
pub open spec fn utf16_chars(units: Seq<u16>) -> Seq<char>
    decreases units.len(),
{
    if units.len() == 0 {
        Seq::empty()
    } else if !is_high_surrogate(units[0]) && !is_low_surrogate(units[0]) {
        seq![units[0] as char] + utf16_chars(units.skip(1))
    } else if is_high_surrogate(units[0]) && units.len() > 1 && is_low_surrogate(units[1]) {
        let code = 0x1_0000 + (units[0] - 0xd800) * 0x400 + (units[1] - 0xdc00);
        seq![code as char] + utf16_chars(units.skip(2))
    } else {
        seq!['\u{fffd}'] + utf16_chars(units.skip(1))
    }
}

/// `text` without the `unwanted` characters that it begins with.
pub open spec fn without_prefix(text: Seq<char>, unwanted: char) -> Seq<char>
    decreases text.len(),
{
    if text.len() > 0 && text.first() == unwanted {
        without_prefix(text.skip(1), unwanted)
    } else {
        text
    }
}

/// `text` without the `unwanted` characters that it ends with.
pub open spec fn without_suffix(text: Seq<char>, unwanted: char) -> Seq<char>
    decreases text.len(),
{
    if text.len() > 0 && text.last() == unwanted {
        without_suffix(text.drop_last(), unwanted)
    } else {
        text
    }
}

/// `text` without the `unwanted` characters at either end.
pub open spec fn trimmed(text: Seq<char>, unwanted: char) -> Seq<char> {
    without_suffix(without_prefix(text, unwanted), unwanted)
}

/// `String::from_utf16_lossy` decodes UTF-16 units, putting the replacement
/// character where they are invalid.
pub assume_specification[ String::from_utf16_lossy ](units: &[u16]) -> (text: String)
    ensures
        text@ == utf16_chars(units@),
;

/// `str::trim_matches` with a character: the text without all prefixes and
/// suffixes that are that character.
#[verifier::external_body]
fn trim_char(text: &str, unwanted: char) -> (rest: &str)
    ensures
        rest@ == trimmed(text@, unwanted),
{
    text.trim_matches(unwanted)
}

/// The name of the adapter that DXGI describes by `description`.
pub fn gpu_name(description: &[u16]) -> (name: String)
    ensures
        name@ == trimmed(utf16_chars(description@), '\0'),
{
    let text = String::from_utf16_lossy(description);
    trim_char(text.as_str(), '\0').to_owned()
}

proof fn without_suffix_keeps_start(text: Seq<char>, unwanted: char)
    ensures
        without_suffix(text, unwanted).len() <= text.len(),
        without_suffix(text, unwanted) == text.take(without_suffix(text, unwanted).len() as int),
        without_suffix(text, unwanted).len() > 0 ==> without_suffix(text, unwanted).last()
            != unwanted,
    decreases text.len(),
{
    if text.len() > 0 && text.last() == unwanted {
        without_suffix_keeps_start(text.drop_last(), unwanted);
        let rest = without_suffix(text, unwanted);
        assert(text.drop_last().take(rest.len() as int) =~= text.take(rest.len() as int));
    } else {
        assert(text.take(text.len() as int) =~= text);
    }
}

proof fn without_prefix_starts_clean(text: Seq<char>, unwanted: char)
    ensures
        without_prefix(text, unwanted).len() > 0 ==> without_prefix(text, unwanted).first()
            != unwanted,
    decreases text.len(),
{
    if text.len() > 0 && text.first() == unwanted {
        without_prefix_starts_clean(text.skip(1), unwanted);
    }
}

/// Nothing unwanted is left at either end of a trimmed text.
pub proof fn trimmed_ends_are_clean(text: Seq<char>, unwanted: char)
    ensures
        trimmed(text, unwanted).len() > 0 ==> trimmed(text, unwanted).first() != unwanted
            && trimmed(text, unwanted).last() != unwanted,
{
    without_prefix_starts_clean(text, unwanted);
    without_suffix_keeps_start(without_prefix(text, unwanted), unwanted);
}

/// Zeros behind a sequence of units spell zeros behind its text.
proof fn utf16_of_padded(units: Seq<u16>, padding: nat)
    ensures
        utf16_chars(units + Seq::new(padding, |i: int| 0u16)) == utf16_chars(units) + Seq::new(
            padding,
            |i: int| '\0',
        ),
    decreases units.len() + padding,
{
    let zeros = Seq::new(padding, |i: int| 0u16);
    let padded = units + zeros;
    if units.len() == 0 {
        assert(utf16_chars(units) =~= Seq::empty());
        if padding > 0 {
            utf16_of_padded(units, (padding - 1) as nat);
            assert(padded.skip(1) =~= units + Seq::new((padding - 1) as nat, |i: int| 0u16));
            assert(utf16_chars(padded) =~= Seq::new(padding, |i: int| '\0'));
        } else {
            assert(padded =~= Seq::empty());
        }
    } else {
        utf16_of_padded(units.skip(1), padding);
        assert(padded.skip(1) =~= units.skip(1) + zeros);
        if units.len() > 1 {
            utf16_of_padded(units.skip(2), padding);
            assert(padded.skip(2) =~= units.skip(2) + zeros);
        }
    }
    assert(utf16_chars(padded) =~= utf16_chars(units) + Seq::new(padding, |i: int| '\0'));
}

/// A text begins and ends with a zero only where its units do.
proof fn utf16_ends(units: Seq<u16>)
    requires
        units.len() > 0,
    ensures
        utf16_chars(units).len() > 0,
        units.first() != 0 ==> utf16_chars(units).first() != '\0',
        units.last() != 0 ==> utf16_chars(units).last() != '\0',
    decreases units.len(),
{
    if units.len() > 1 {
        utf16_ends(units.skip(1));
    } else {
        assert(utf16_chars(units.skip(1)) =~= Seq::empty());
    }
    if units.len() > 2 {
        utf16_ends(units.skip(2));
    } else if units.len() == 2 {
        assert(utf16_chars(units.skip(2)) =~= Seq::empty());
    }
}

proof fn without_suffix_of_padded(text: Seq<char>, unwanted: char, padding: nat)
    requires
        text.len() > 0 ==> text.last() != unwanted,
    ensures
        without_suffix(text + Seq::new(padding, |i: int| unwanted), unwanted) == text,
    decreases padding,
{
    let padded = text + Seq::new(padding, |i: int| unwanted);
    if padding > 0 {
        without_suffix_of_padded(text, unwanted, (padding - 1) as nat);
        assert(padded.drop_last() =~= text + Seq::new((padding - 1) as nat, |i: int| unwanted));
    } else {
        assert(padded =~= text);
    }
}

/// A name that neither begins nor ends with a zero is read back unchanged from a
/// buffer filled up with zeros, however many.
pub proof fn padded_name_is_read_back(name: Seq<u16>, padding: nat)
    requires
        name.len() > 0 ==> name.first() != 0 && name.last() != 0,
    ensures
        trimmed(utf16_chars(name + Seq::new(padding, |i: int| 0u16)), '\0') == utf16_chars(name),
{
    utf16_of_padded(name, padding);
    if name.len() > 0 {
        utf16_ends(name);
        without_suffix_of_padded(utf16_chars(name), '\0', padding);
    } else {
        zeros_are_trimmed(padding);
        assert(utf16_chars(name) + Seq::new(padding, |i: int| '\0') =~= Seq::new(
            padding,
            |i: int| '\0',
        ));
    }
}

/// An empty buffer has an empty name.
proof fn zeros_are_trimmed(padding: nat)
    ensures
        trimmed(Seq::new(padding, |i: int| '\0'), '\0') == Seq::<char>::empty(),
    decreases padding,
{
    let zeros = Seq::new(padding, |i: int| '\0');
    if padding > 0 {
        zeros_are_trimmed((padding - 1) as nat);
        assert(zeros.skip(1) =~= Seq::new((padding - 1) as nat, |i: int| '\0'));
    } else {
        assert(zeros =~= Seq::empty());
    }
}

} // verus!
