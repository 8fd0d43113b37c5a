//! Decimal text for numbers and byte lists.

use vstd::prelude::*;

verus! {

/// The character for a decimal digit.
pub open spec fn spec_digit(d: int) -> char {
    if d == 0 {
        '0'
    } else if d == 1 {
        '1'
    } else if d == 2 {
        '2'
    } else if d == 3 {
        '3'
    } else if d == 4 {
        '4'
    } else if d == 5 {
        '5'
    } else if d == 6 {
        '6'
    } else if d == 7 {
        '7'
    } else if d == 8 {
        '8'
    } else {
        '9'
    }
}

/// The decimal numeral of `n`, without leading zeros.
pub open spec fn spec_decimal(n: nat) -> Seq<char>
    decreases n,
{
    if n < 10 {
        seq![spec_digit(n as int)]
    } else {
        spec_decimal(n / 10).push(spec_digit((n % 10) as int))
    }
}

/// The last `width` decimal digits of `n`, with leading zeros.
pub open spec fn spec_padded(n: nat, width: nat) -> Seq<char>
    decreases width,
{
    if width == 0 {
        Seq::<char>::empty()
    } else {
        spec_padded(n / 10, (width - 1) as nat).push(spec_digit((n % 10) as int))
    }
}

/// The decimal numerals of `bytes`, separated by a comma and a space.
pub open spec fn spec_comma_separated(bytes: Seq<u8>) -> Seq<char>
    decreases bytes.len(),
{
    if bytes.len() == 0 {
        Seq::<char>::empty()
    } else if bytes.len() == 1 {
        spec_decimal(bytes[0] as nat)
    } else {
        spec_comma_separated(bytes.drop_last()) + seq![',', ' '] + spec_decimal(
            bytes.last() as nat,
        )
    }
}

/// `bytes` as a bracketed list, the way a byte array is shown for debugging.
pub open spec fn spec_byte_list(bytes: Seq<u8>) -> Seq<char> {
    seq!['['] + spec_comma_separated(bytes) + seq![']']
}

/// The one-character text of a decimal digit.
fn digit_str(d: u8) -> (text: &'static str)
    requires
        d < 10,
    ensures
        text@ == seq![spec_digit(d as int)],
{
    proof {
        reveal_strlit("0");
        reveal_strlit("1");
        reveal_strlit("2");
        reveal_strlit("3");
        reveal_strlit("4");
        reveal_strlit("5");
        reveal_strlit("6");
        reveal_strlit("7");
        reveal_strlit("8");
        reveal_strlit("9");
    }
    let text: &'static str = if d == 0 {
        "0"
    } else if d == 1 {
        "1"
    } else if d == 2 {
        "2"
    } else if d == 3 {
        "3"
    } else if d == 4 {
        "4"
    } else if d == 5 {
        "5"
    } else if d == 6 {
        "6"
    } else if d == 7 {
        "7"
    } else if d == 8 {
        "8"
    } else {
        "9"
    };
    text
}

/// Appends the decimal numeral of `n` to `out`.
pub fn push_decimal(out: &mut String, n: u64)
    ensures
        final(out)@ == old(out)@ + spec_decimal(n as nat),
    decreases n,
{
    if n >= 10 {
        push_decimal(out, n / 10);
    }
    out.append(digit_str((n % 10) as u8));
}

/// Appends the last `width` decimal digits of `n` to `out`, zero-padded.
pub fn push_padded(out: &mut String, n: u64, width: u32)
    ensures
        final(out)@ == old(out)@ + spec_padded(n as nat, width as nat),
    decreases width,
{
    if width > 0 {
        push_padded(out, n / 10, width - 1);
        out.append(digit_str((n % 10) as u8));
    }
}

/// The decimal numeral of `n`.
pub fn format_decimal(n: u64) -> (text: String)
    ensures
        text@ == spec_decimal(n as nat),
{
    let mut text = String::new();
    push_decimal(&mut text, n);
    text
}

/// `bytes` as a bracketed, comma-separated list of decimal numerals.
pub fn format_byte_list(bytes: &[u8]) -> (text: String)
    ensures
        text@ == spec_byte_list(bytes@),
{
    proof {
        reveal_strlit("[");
        reveal_strlit("]");
    }
    let mut text = String::from_str("[");
    let mut i: usize = 0;
    while i < bytes.len()
        invariant
            i <= bytes.len(),
            text@ == seq!['['] + spec_comma_separated(bytes@.take(i as int)),
        decreases bytes.len() - i,
    {
        if i > 0 {
            text.append(", ");
        }
        push_decimal(&mut text, bytes[i] as u64);
        proof {
            reveal_strlit(", ");
            assert(bytes@.take(i + 1).drop_last() =~= bytes@.take(i as int));
        }
        i = i + 1;
    }
    assert(bytes@.take(i as int) =~= bytes@);
    text.append("]");
    text
}

/// Ten to the power of `exponent`.
pub open spec fn spec_pow10(exponent: nat) -> nat
    decreases exponent,
{
    if exponent == 0 {
        1
    } else {
        10 * spec_pow10((exponent - 1) as nat)
    }
}

/// Whether a character is a decimal digit.
pub open spec fn spec_is_digit(c: char) -> bool {
    exists|d: int| 0 <= d < 10 && c == #[trigger] spec_digit(d)
}

/// Different digits have different characters, and none is a point.
pub proof fn lemma_digits_distinct(a: int, b: int)
    requires
        0 <= a < 10,
        0 <= b < 10,
    ensures
        spec_digit(a) == spec_digit(b) ==> a == b,
        spec_digit(a) != '.',
        spec_is_digit(spec_digit(a)),
        spec_digit(a) == '0' <==> a == 0,
{
}

/// A decimal numeral has at least one character, two from ten on, and all of
/// them are digits.
pub proof fn lemma_decimal_shape(n: nat)
    ensures
        spec_decimal(n).len() >= 1,
        n >= 10 ==> spec_decimal(n).len() >= 2,
        forall|i: int| 0 <= i < spec_decimal(n).len() ==> spec_is_digit(#[trigger] spec_decimal(n)[i]),
    decreases n,
{
    lemma_digits_distinct((n % 10) as int, 0);
    if n >= 10 {
        lemma_decimal_shape(n / 10);
    }
}

/// Different numbers have different decimal numerals.
pub proof fn lemma_decimal_injective(a: nat, b: nat)
    requires
        spec_decimal(a) == spec_decimal(b),
    ensures
        a == b,
    decreases a,
{
    lemma_decimal_shape(a);
    lemma_decimal_shape(b);
    lemma_digits_distinct((a % 10) as int, (b % 10) as int);
    if a >= 10 && b >= 10 {
        let front_a = spec_decimal(a / 10);
        let front_b = spec_decimal(b / 10);
        assert(front_a.push(spec_digit((a % 10) as int)).drop_last() =~= front_a);
        assert(front_b.push(spec_digit((b % 10) as int)).drop_last() =~= front_b);
        assert(spec_decimal(b).last() == spec_digit((b % 10) as int));
        lemma_decimal_injective(a / 10, b / 10);
    } else if a < 10 && b < 10 {
        assert(spec_decimal(b)[0] == spec_digit(b as int));
    }
}

/// A zero-padded numeral has the width that was asked for, and all its
/// characters are digits.
pub proof fn lemma_padded_shape(n: nat, width: nat)
    ensures
        spec_padded(n, width).len() == width,
        forall|i: int|
            0 <= i < spec_padded(n, width).len() ==> spec_is_digit(
                #[trigger] spec_padded(n, width)[i],
            ),
    decreases width,
{
    lemma_digits_distinct((n % 10) as int, 0);
    if width > 0 {
        lemma_padded_shape(n / 10, (width - 1) as nat);
    }
}

/// Different numbers that fit the width have different zero-padded numerals.
pub proof fn lemma_padded_injective(a: nat, b: nat, width: nat)
    requires
        a < spec_pow10(width),
        b < spec_pow10(width),
        spec_padded(a, width) == spec_padded(b, width),
    ensures
        a == b,
    decreases width,
{
    if width > 0 {
        let front_a = spec_padded(a / 10, (width - 1) as nat);
        let front_b = spec_padded(b / 10, (width - 1) as nat);
        lemma_digits_distinct((a % 10) as int, (b % 10) as int);
        assert(front_a.push(spec_digit((a % 10) as int)).drop_last() =~= front_a);
        assert(front_b.push(spec_digit((b % 10) as int)).drop_last() =~= front_b);
        assert(spec_padded(b, width).last() == spec_digit((b % 10) as int));
        lemma_padded_injective(a / 10, b / 10, (width - 1) as nat);
    }
}

} // verus!
