use sol_dash::amount::{
    format_sol, lamports_to_sol, sol_to_lamports, whole_sol_to_lamports, SolAmount,
    LAMPORTS_PER_SOL, SOL_DECIMALS,
};
use sol_dash::text::{format_byte_list, format_decimal};

#[test]
fn lamports_per_sol_is_the_sdk_constant() {
    assert_eq!(LAMPORTS_PER_SOL, solana_sdk::native_token::LAMPORTS_PER_SOL);
    assert_eq!(LAMPORTS_PER_SOL, 1_000_000_000);
    assert_eq!(10u64.pow(SOL_DECIMALS), LAMPORTS_PER_SOL);
}

#[test]
fn lamports_to_sol_splits_whole_and_fraction() {
    assert_eq!(lamports_to_sol(0), SolAmount { whole: 0, fraction: 0 });
    assert_eq!(lamports_to_sol(1), SolAmount { whole: 0, fraction: 1 });
    assert_eq!(lamports_to_sol(999_999_999), SolAmount { whole: 0, fraction: 999_999_999 });
    assert_eq!(lamports_to_sol(1_000_000_000), SolAmount { whole: 1, fraction: 0 });
    assert_eq!(lamports_to_sol(2_500_000_000), SolAmount { whole: 2, fraction: 500_000_000 });
    assert_eq!(
        lamports_to_sol(u64::MAX),
        SolAmount { whole: 18_446_744_073, fraction: 709_551_615 }
    );
}

#[test]
fn sol_to_lamports_is_exact() {
    assert_eq!(sol_to_lamports(SolAmount { whole: 0, fraction: 0 }), Some(0));
    assert_eq!(sol_to_lamports(SolAmount { whole: 2, fraction: 500_000_000 }), Some(2_500_000_000));
    assert_eq!(
        sol_to_lamports(SolAmount { whole: 18_446_744_073, fraction: 709_551_615 }),
        Some(u64::MAX)
    );
}

#[test]
fn sol_to_lamports_refuses_what_does_not_fit() {
    assert_eq!(sol_to_lamports(SolAmount { whole: 18_446_744_073, fraction: 709_551_616 }), None);
    assert_eq!(sol_to_lamports(SolAmount { whole: 18_446_744_074, fraction: 0 }), None);
    assert_eq!(sol_to_lamports(SolAmount { whole: u64::MAX, fraction: 0 }), None);
}

#[test]
fn lamports_round_trip_through_sol() {
    let samples: [u64; 9] = [
        0,
        1,
        999_999_999,
        1_000_000_000,
        1_000_000_001,
        2_500_000_000,
        123_456_789_012_345_678,
        u64::MAX - 1,
        u64::MAX,
    ];
    for lamports in samples {
        assert_eq!(sol_to_lamports(lamports_to_sol(lamports)), Some(lamports));
    }
}

#[test]
fn sol_round_trips_through_lamports() {
    let amount = SolAmount { whole: 42, fraction: 7 };
    assert_eq!(lamports_to_sol(sol_to_lamports(amount).unwrap()), amount);
}

#[test]
fn whole_sol_to_lamports_multiplies() {
    assert_eq!(whole_sol_to_lamports(0), Some(0));
    assert_eq!(whole_sol_to_lamports(1), Some(1_000_000_000));
    assert_eq!(whole_sol_to_lamports(5), Some(5_000_000_000));
    assert_eq!(whole_sol_to_lamports(18_446_744_073), Some(18_446_744_073_000_000_000));
}

#[test]
fn whole_sol_to_lamports_refuses_overflow() {
    assert_eq!(whole_sol_to_lamports(18_446_744_074), None);
    assert_eq!(whole_sol_to_lamports(u64::MAX), None);
}

#[test]
fn format_sol_shows_whole_amounts_without_a_point() {
    assert_eq!(format_sol(0), "0");
    assert_eq!(format_sol(1_000_000_000), "1");
    assert_eq!(format_sol(10_000_000_000), "10");
    assert_eq!(format_sol(18_446_744_073_000_000_000), "18446744073");
}

#[test]
fn format_sol_trims_trailing_zeros() {
    assert_eq!(format_sol(2_500_000_000), "2.5");
    assert_eq!(format_sol(100_000_000), "0.1");
    assert_eq!(format_sol(1_050_000_000), "1.05");
    assert_eq!(format_sol(1_000_000_010), "1.00000001");
}

#[test]
fn format_sol_keeps_every_lamport() {
    assert_eq!(format_sol(1), "0.000000001");
    assert_eq!(format_sol(999_999_999), "0.999999999");
    assert_eq!(format_sol(123_456_789), "0.123456789");
    assert_eq!(format_sol(u64::MAX), "18446744073.709551615");
}

#[test]
fn format_sol_agrees_with_float_display_on_everyday_amounts() {
    let samples: [u64; 6] =
        [0, 1, 2_500_000_000, 1_050_000_000, 123_456_789, 5_000_000_000];
    for lamports in samples {
        let float = lamports as f64 / LAMPORTS_PER_SOL as f64;
        assert_eq!(format_sol(lamports), format!("{}", float));
    }
}

#[test]
fn format_decimal_has_no_leading_zeros() {
    assert_eq!(format_decimal(0), "0");
    assert_eq!(format_decimal(7), "7");
    assert_eq!(format_decimal(10), "10");
    assert_eq!(format_decimal(1_234_567_890), "1234567890");
    assert_eq!(format_decimal(u64::MAX), "18446744073709551615");
}

#[test]
fn format_byte_list_is_the_debug_form_of_the_bytes() {
    assert_eq!(format_byte_list(&[]), "[]");
    assert_eq!(format_byte_list(&[0]), "[0]");
    assert_eq!(format_byte_list(&[1, 2, 255]), "[1, 2, 255]");
    let bytes: Vec<u8> = (0..=255).collect();
    assert_eq!(format_byte_list(&bytes), format!("{:?}", bytes));
}
