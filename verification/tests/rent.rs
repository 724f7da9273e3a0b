use ledger_harness::rent::{
    can_compute_rent, minimum_balance, ACCOUNT_STORAGE_OVERHEAD, EXEMPTION_YEARS,
    LAMPORTS_PER_BYTE_YEAR,
};
use solana_program::rent::Rent;

#[test]
fn minimum_balance_of_known_lengths() {
    assert_eq!(minimum_balance(0), 890_880);
    assert_eq!(minimum_balance(82), 1_461_600);
    assert_eq!(minimum_balance(165), 2_039_280);
}

#[test]
fn minimum_balance_is_that_of_the_default_rent() {
    for len in [0usize, 1, 8, 82, 165, 1000, 10 * 1024 * 1024] {
        assert!(can_compute_rent(len));
        assert_eq!(minimum_balance(len), Rent::default().minimum_balance(len));
    }
}

#[test]
fn minimum_balance_is_two_years_of_rent_while_that_is_exact() {
    // the last length whose yearly rent lies below 2^53
    let last: usize = ((1u64 << 53) - 1) as usize / 3480 - 128;
    for len in [0usize, 1, 82, 165, 1 << 20, 1 << 32, last - 1, last] {
        let yearly = (ACCOUNT_STORAGE_OVERHEAD + len as u64) * LAMPORTS_PER_BYTE_YEAR;
        assert!(yearly < 1 << 53);
        assert_eq!(minimum_balance(len), EXEMPTION_YEARS * yearly);
    }
}

#[test]
fn rent_constants_are_those_of_the_ledger() {
    assert_eq!(EXEMPTION_YEARS as f64, solana_program::rent::DEFAULT_EXEMPTION_THRESHOLD);
    assert_eq!(ACCOUNT_STORAGE_OVERHEAD, solana_program::rent::ACCOUNT_STORAGE_OVERHEAD);
    assert_eq!(LAMPORTS_PER_BYTE_YEAR, solana_program::rent::DEFAULT_LAMPORTS_PER_BYTE_YEAR);
}

#[test]
fn can_compute_rent_up_to_the_last_length_that_fits() {
    let last: u64 = u64::MAX / 3480 - 128;
    assert_eq!(last, 5_300_788_526_927_904);
    assert!(can_compute_rent(last as usize));
    assert!(!can_compute_rent(last as usize + 1));
    assert!(!can_compute_rent(usize::MAX));
}
