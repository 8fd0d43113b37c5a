//! Lamports and SOL.
//!
//! A lamport is the smallest unit of the currency; one SOL is a thousand
//! million of them. Amounts are kept as integers throughout, so converting
//! between the two units loses nothing.

use vstd::prelude::*;
use crate::text::{
    lemma_decimal_injective,
    lemma_decimal_shape,
    lemma_digits_distinct,
    lemma_padded_injective,
    lemma_padded_shape,
    push_decimal,
    push_padded,
    spec_decimal,
    spec_digit,
    spec_is_digit,
    spec_padded,
    spec_pow10,
};

verus! {

/// Number of lamports in one SOL.
pub const LAMPORTS_PER_SOL: u64 = 1_000_000_000;

/// Number of decimal places of a SOL amount.
pub const SOL_DECIMALS: u32 = 9;

/// An amount in SOL: whole coins and a fraction counted in lamports.
#[derive(Clone, Copy, Debug, PartialEq, Eq, Structural)]
pub struct SolAmount {
    /// Whole coins.
    pub whole: u64,
    /// Lamports beyond the whole coins.
    pub fraction: u32,
}

impl SolAmount {
    /// The fraction stays below one coin.
    pub open spec fn wf(&self) -> bool {
        self.fraction < LAMPORTS_PER_SOL
    }

    /// The amount in lamports, as a mathematical integer.
    pub open spec fn spec_lamports(&self) -> int {
        self.whole * LAMPORTS_PER_SOL + self.fraction
    }
}

/// The SOL amount that `lamports` make.
pub open spec fn spec_lamports_to_sol(lamports: u64) -> SolAmount {
    SolAmount {
        whole: lamports / LAMPORTS_PER_SOL,
        fraction: (lamports % LAMPORTS_PER_SOL) as u32,
    }
}

/// The lamports that `amount` makes, where they fit in 64 bits.
pub open spec fn spec_sol_to_lamports(amount: SolAmount) -> Option<u64> {
    if amount.spec_lamports() <= u64::MAX {
        Some(amount.spec_lamports() as u64)
    } else {
        None
    }
}

/// `text` without its trailing zeros.
pub open spec fn spec_trim_zeros(text: Seq<char>) -> Seq<char>
    decreases text.len(),
{
    if text.len() > 0 && text.last() == '0' {
        spec_trim_zeros(text.drop_last())
    } else {
        text
    }
}

/// The decimal text of a lamport amount in SOL: the whole coins, and, where
/// the amount is no whole number of coins, a point and the fraction without
/// trailing zeros.
pub open spec fn spec_format_sol(lamports: u64) -> Seq<char> {
    let whole = (lamports / LAMPORTS_PER_SOL) as nat;
    let fraction = (lamports % LAMPORTS_PER_SOL) as nat;
    if fraction == 0 {
        spec_decimal(whole)
    } else {
        spec_decimal(whole) + seq!['.'] + spec_trim_zeros(
            spec_padded(fraction, SOL_DECIMALS as nat),
        )
    }
}

/// Converts lamports to SOL.
pub fn lamports_to_sol(lamports: u64) -> (amount: SolAmount)
    ensures
        amount == spec_lamports_to_sol(lamports),
        amount.wf(),
        amount.spec_lamports() == lamports,
{
    SolAmount {
        whole: lamports / LAMPORTS_PER_SOL,
        fraction: (lamports % LAMPORTS_PER_SOL) as u32,
    }
}

/// Converts SOL to lamports; `None` where the result does not fit in 64 bits.
pub fn sol_to_lamports(amount: SolAmount) -> (lamports: Option<u64>)
    ensures
        lamports == spec_sol_to_lamports(amount),
{
    match amount.whole.checked_mul(LAMPORTS_PER_SOL) {
        Some(base) => base.checked_add(amount.fraction as u64),
        None => None,
    }
}

/// Converts a whole number of SOL to lamports; `None` where the result does
/// not fit in 64 bits.
pub fn whole_sol_to_lamports(sol: u64) -> (lamports: Option<u64>)
    ensures
        lamports == spec_sol_to_lamports(SolAmount { whole: sol, fraction: 0 }),
        lamports is Some <==> sol * LAMPORTS_PER_SOL <= u64::MAX,
        lamports is Some ==> lamports.unwrap() == sol * LAMPORTS_PER_SOL,
{
    sol_to_lamports(SolAmount { whole: sol, fraction: 0 })
}

/// Lamports, converted to SOL and back, are the same lamports.
pub proof fn lemma_lamports_round_trip(lamports: u64)
    ensures
        spec_sol_to_lamports(spec_lamports_to_sol(lamports)) == Some(lamports),
{
}

/// A well-formed SOL amount that fits in 64 bits of lamports, converted to
/// lamports and back, is the same amount.
pub proof fn lemma_sol_round_trip(amount: SolAmount)
    requires
        amount.wf(),
        amount.spec_lamports() <= u64::MAX,
    ensures
        spec_lamports_to_sol(spec_sol_to_lamports(amount).unwrap()) == amount,
{
}

/// Two lamport amounts that make the same SOL amount are equal.
pub proof fn lemma_lamports_to_sol_injective(a: u64, b: u64)
    requires
        spec_lamports_to_sol(a) == spec_lamports_to_sol(b),
    ensures
        a == b,
{
    lemma_lamports_round_trip(a);
    lemma_lamports_round_trip(b);
}

/// Trimming takes only zeros from the end of a text: what is left is the
/// front of the text, and behind it the text holds nothing but zeros.
pub proof fn lemma_trim_zeros_shape(text: Seq<char>)
    ensures
        spec_trim_zeros(text).len() <= text.len(),
        spec_trim_zeros(text) == text.subrange(0, spec_trim_zeros(text).len() as int),
        forall|i: int| spec_trim_zeros(text).len() <= i < text.len() ==> text[i] == '0',
    decreases text.len(),
{
    if text.len() > 0 && text.last() == '0' {
        let front = text.drop_last();
        lemma_trim_zeros_shape(front);
        let kept = spec_trim_zeros(front).len() as int;
        assert forall|i: int| kept <= i < text.len() implies text[i] == '0' by {
            if i < front.len() {
                assert(front[i] == text[i]);
            }
        }
    }
}

/// Two texts of one length that are the same once trimmed are the same.
pub proof fn lemma_trim_zeros_injective(a: Seq<char>, b: Seq<char>)
    requires
        a.len() == b.len(),
        spec_trim_zeros(a) == spec_trim_zeros(b),
    ensures
        a == b,
{
    lemma_trim_zeros_shape(a);
    lemma_trim_zeros_shape(b);
    let kept = spec_trim_zeros(a).len() as int;
    assert forall|i: int| 0 <= i < a.len() implies a[i] == b[i] by {
        if i < kept {
            assert(b.subrange(0, kept)[i] == b[i]);
        }
    }
}

/// The text of an amount tells the amount: two amounts that print the same
/// are the same.
pub proof fn lemma_format_sol_injective(a: u64, b: u64)
    requires
        spec_format_sol(a) == spec_format_sol(b),
    ensures
        a == b,
{
    let whole_a = (a / LAMPORTS_PER_SOL) as nat;
    let whole_b = (b / LAMPORTS_PER_SOL) as nat;
    let fraction_a = (a % LAMPORTS_PER_SOL) as nat;
    let fraction_b = (b % LAMPORTS_PER_SOL) as nat;
    let front_a = spec_decimal(whole_a);
    let front_b = spec_decimal(whole_b);
    let padded_a = spec_padded(fraction_a, SOL_DECIMALS as nat);
    let padded_b = spec_padded(fraction_b, SOL_DECIMALS as nat);
    let back_a = spec_trim_zeros(padded_a);
    let back_b = spec_trim_zeros(padded_b);
    let text = spec_format_sol(a);
    lemma_decimal_shape(whole_a);
    lemma_decimal_shape(whole_b);
    assert forall|c: char| spec_is_digit(c) implies c != '.' by {
        let d = choose|d: int| 0 <= d < 10 && c == #[trigger] spec_digit(d);
        lemma_digits_distinct(d, 0);
    }
    if fraction_a == 0 && fraction_b == 0 {
        lemma_decimal_injective(whole_a, whole_b);
    } else if fraction_a == 0 {
        let point = front_b.len() as int;
        assert(spec_is_digit(front_a[point]));
        assert(false);
    } else if fraction_b == 0 {
        let point = front_a.len() as int;
        assert(spec_is_digit(front_b[point]));
        assert(false);
    } else {
        let point_a = front_a.len() as int;
        let point_b = front_b.len() as int;
        if point_a < point_b {
            assert(spec_format_sol(b)[point_a] == front_b[point_a]);
            assert(false);
        }
        if point_b < point_a {
            assert(text[point_b] == front_a[point_b]);
            assert(false);
        }
        assert(text.subrange(0, point_a) =~= front_a);
        assert(spec_format_sol(b).subrange(0, point_b) =~= front_b);
        lemma_decimal_injective(whole_a, whole_b);
        assert(text.subrange(point_a + 1, text.len() as int) =~= back_a);
        assert(spec_format_sol(b).subrange(point_b + 1, text.len() as int) =~= back_b);
        lemma_padded_shape(fraction_a, SOL_DECIMALS as nat);
        lemma_padded_shape(fraction_b, SOL_DECIMALS as nat);
        lemma_trim_zeros_injective(padded_a, padded_b);
        assert(spec_pow10(SOL_DECIMALS as nat) == LAMPORTS_PER_SOL) by {
            reveal_with_fuel(spec_pow10, 10);
        }
        lemma_padded_injective(fraction_a, fraction_b, SOL_DECIMALS as nat);
    }
}

/// Appends the fraction of a SOL amount, without trailing zeros.
fn push_fraction(out: &mut String, fraction: u64)
    ensures
        final(out)@ == old(out)@ + spec_trim_zeros(
            spec_padded(fraction as nat, SOL_DECIMALS as nat),
        ),
{
    let mut rest: u64 = fraction;
    let mut width: u32 = SOL_DECIMALS;
    while width > 0 && rest % 10 == 0
        invariant
            spec_trim_zeros(spec_padded(rest as nat, width as nat)) == spec_trim_zeros(
                spec_padded(fraction as nat, SOL_DECIMALS as nat),
            ),
        decreases width,
    {
        assert(spec_padded(rest as nat, width as nat).drop_last() =~= spec_padded(
            (rest / 10) as nat,
            (width - 1) as nat,
        ));
        rest = rest / 10;
        width = width - 1;
    }
    push_padded(out, rest, width);
}

/// The decimal text of a lamport amount in SOL.
pub fn format_sol(lamports: u64) -> (text: String)
    ensures
        text@ == spec_format_sol(lamports),
{
    let amount = lamports_to_sol(lamports);
    let mut text = String::new();
    push_decimal(&mut text, amount.whole);
    if amount.fraction != 0 {
        proof {
            reveal_strlit(".");
        }
        text.append(".");
        push_fraction(&mut text, amount.fraction as u64);
    }
    text
}

} // verus!
