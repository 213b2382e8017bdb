//! Textual forms of bytes and numbers.

use vstd::prelude::*;

verus! {

/// A lower-case hexadecimal digit.
pub open spec fn hex_digit(value: int) -> char {
    if value < 10 {
        ('0' as u8 + value) as char
    } else {
        ('a' as u8 + (value - 10)) as char
    }
}

/// Bytes as lower-case hexadecimal, two digits each.
pub open spec fn hex(bytes: Seq<u8>) -> Seq<char> {
    Seq::new(
        2 * bytes.len(),
        |i: int|
            if i % 2 == 0 {
                hex_digit(bytes[i / 2] as int / 16)
            } else {
                hex_digit(bytes[i / 2] as int % 16)
            },
    )
}

/// The hyphenated form of a UUID: groups of four, two, two, two and six
/// bytes.
pub open spec fn uuid_text(id: Seq<u8>) -> Seq<char> {
    hex(id.subrange(0, 4)) + seq!['-'] + hex(id.subrange(4, 6)) + seq!['-'] + hex(
        id.subrange(6, 8),
    ) + seq!['-'] + hex(id.subrange(8, 10)) + seq!['-'] + hex(id.subrange(10, 16))
}

/// A number in decimal, without leading zeros.
pub open spec fn decimal(value: nat) -> Seq<char>
    decreases value,
{
    if value < 10 {
        seq![hex_digit(value as int)]
    } else {
        decimal(value / 10).push(hex_digit(value as int % 10))
    }
}

/// `u64::to_string`: the number in decimal.
#[verifier::external_body]
pub(crate) fn decimal_text(value: u64) -> (text: String)
    ensures
        text@ == decimal(value as nat),
{
    value.to_string()
}

/// `Display` of `uuid::Uuid`: the hyphenated lower-case form of the ID.
#[verifier::external_body]
pub(crate) fn hyphenated(id: &[u8; 16]) -> (text: String)
    ensures
        text@ == uuid_text(id@),
{
    uuid::Uuid::from_bytes(*id).to_string()
}

/// The value a digit stands for.
pub open spec fn digit_value(digit: char) -> int {
    if digit as int <= '9' as int {
        digit as int - '0' as int
    } else {
        digit as int - 'a' as int + 10
    }
}

/// A digit can be read back.
pub(crate) proof fn lemma_hex_digit(value: int)
    requires
        0 <= value < 16,
    ensures
        digit_value(hex_digit(value)) == value,
        '0' as int <= hex_digit(value) as int <= 'f' as int,
        value < 10 ==> hex_digit(value) as int <= '9' as int,
{
}

/// Different bytes have different hexadecimal forms.
pub(crate) proof fn lemma_hex_injective(left: Seq<u8>, right: Seq<u8>)
    requires
        hex(left) == hex(right),
    ensures
        left == right,
{
    assert(hex(left).len() == 2 * left.len());
    assert(hex(right).len() == 2 * right.len());
    assert forall|i: int| 0 <= i < left.len() implies left[i] == right[i] by {
        let (a, b) = (left[i] as int, right[i] as int);
        assert((2 * i) % 2 == 0 && (2 * i) / 2 == i && (2 * i + 1) % 2 == 1 && (2 * i + 1) / 2
            == i);
        assert(hex(left)[2 * i] == hex_digit(a / 16) && hex(right)[2 * i] == hex_digit(b / 16));
        assert(hex(left)[2 * i + 1] == hex_digit(a % 16) && hex(right)[2 * i + 1] == hex_digit(
            b % 16,
        ));
        lemma_hex_digit(a / 16);
        lemma_hex_digit(a % 16);
        lemma_hex_digit(b / 16);
        lemma_hex_digit(b % 16);
    }
    assert(left =~= right);
}

/// The hyphenated form has 36 characters, each a digit or a hyphen.
pub(crate) proof fn lemma_uuid_text(id: Seq<u8>)
    requires
        id.len() == 16,
    ensures
        uuid_text(id).len() == 36,
        forall|i: int|
            0 <= i < 36 ==> '-' as int <= #[trigger] (uuid_text(id)[i] as int) <= 'f' as int
                && uuid_text(id)[i] != '.',
{
    lemma_hex_range(id.subrange(0, 4));
    lemma_hex_range(id.subrange(4, 6));
    lemma_hex_range(id.subrange(6, 8));
    lemma_hex_range(id.subrange(8, 10));
    lemma_hex_range(id.subrange(10, 16));
}

/// Hexadecimal consists of digits.
pub(crate) proof fn lemma_hex_range(bytes: Seq<u8>)
    ensures
        hex(bytes).len() == 2 * bytes.len(),
        forall|i: int|
            0 <= i < hex(bytes).len() ==> '0' as int <= #[trigger] (hex(bytes)[i] as int)
                <= 'f' as int,
{
    assert forall|i: int| 0 <= i < hex(bytes).len() implies '0' as int <= #[trigger] (hex(
        bytes,
    )[i] as int) <= 'f' as int by {
        lemma_hex_digit(bytes[i / 2] as int / 16);
        lemma_hex_digit(bytes[i / 2] as int % 16);
    }
}

/// Different IDs have different hyphenated forms.
pub(crate) proof fn lemma_uuid_text_injective(left: Seq<u8>, right: Seq<u8>)
    requires
        left.len() == 16,
        right.len() == 16,
        uuid_text(left) == uuid_text(right),
    ensures
        left == right,
{
    let (text, other) = (uuid_text(left), uuid_text(right));
    lemma_hex_range(left.subrange(0, 4));
    lemma_hex_range(left.subrange(4, 6));
    lemma_hex_range(left.subrange(6, 8));
    lemma_hex_range(left.subrange(8, 10));
    lemma_hex_range(left.subrange(10, 16));
    lemma_hex_range(right.subrange(0, 4));
    lemma_hex_range(right.subrange(4, 6));
    lemma_hex_range(right.subrange(6, 8));
    lemma_hex_range(right.subrange(8, 10));
    lemma_hex_range(right.subrange(10, 16));
    assert(hex(left.subrange(0, 4)) =~= text.subrange(0, 8));
    assert(hex(right.subrange(0, 4)) =~= other.subrange(0, 8));
    assert(hex(left.subrange(4, 6)) =~= text.subrange(9, 13));
    assert(hex(right.subrange(4, 6)) =~= other.subrange(9, 13));
    assert(hex(left.subrange(6, 8)) =~= text.subrange(14, 18));
    assert(hex(right.subrange(6, 8)) =~= other.subrange(14, 18));
    assert(hex(left.subrange(8, 10)) =~= text.subrange(19, 23));
    assert(hex(right.subrange(8, 10)) =~= other.subrange(19, 23));
    assert(hex(left.subrange(10, 16)) =~= text.subrange(24, 36));
    assert(hex(right.subrange(10, 16)) =~= other.subrange(24, 36));
    lemma_hex_injective(left.subrange(0, 4), right.subrange(0, 4));
    lemma_hex_injective(left.subrange(4, 6), right.subrange(4, 6));
    lemma_hex_injective(left.subrange(6, 8), right.subrange(6, 8));
    lemma_hex_injective(left.subrange(8, 10), right.subrange(8, 10));
    lemma_hex_injective(left.subrange(10, 16), right.subrange(10, 16));
    assert(left =~= left.subrange(0, 4) + left.subrange(4, 6) + left.subrange(6, 8)
        + left.subrange(8, 10) + left.subrange(10, 16));
    assert(right =~= right.subrange(0, 4) + right.subrange(4, 6) + right.subrange(6, 8)
        + right.subrange(8, 10) + right.subrange(10, 16));
}

/// Decimal consists of digits, and different numbers differ in it.
pub(crate) proof fn lemma_decimal_injective(left: nat, right: nat)
    requires
        decimal(left) == decimal(right),
    ensures
        left == right,
    decreases left,
{
    lemma_decimal_range(left / 10);
    lemma_decimal_range(right / 10);
    lemma_hex_digit(left as int % 10);
    lemma_hex_digit(right as int % 10);
    assert(decimal(left).last() == hex_digit(left as int % 10));
    assert(decimal(right).last() == hex_digit(right as int % 10));
    if left >= 10 && right >= 10 {
        assert(decimal(left / 10) =~= decimal(left).drop_last());
        assert(decimal(right / 10) =~= decimal(right).drop_last());
        lemma_decimal_injective(left / 10, right / 10);
    }
}

/// Decimal has at least one character, and each is a digit.
pub(crate) proof fn lemma_decimal_range(value: nat)
    ensures
        decimal(value).len() >= 1,
        forall|i: int|
            0 <= i < decimal(value).len() ==> '0' as int <= #[trigger] (decimal(value)[i] as int)
                <= '9' as int,
    decreases value,
{
    if value < 10 {
        lemma_hex_digit(value as int);
    } else {
        lemma_decimal_range(value / 10);
        lemma_hex_digit(value as int % 10);
    }
}

} // verus!
