use solfight::accounting::compute_payout;
use solfight::errors::SolFightError;

#[test]
fn payout_example_scenario() {
    let b = compute_payout(1_000_000, 250).unwrap();
    assert_eq!(b.total_pot, 2_000_000);
    assert_eq!(b.fee, 50_000);
    assert_eq!(b.payout, 1_950_000);
}

#[test]
fn payout_plus_fee_recombine_to_pot() {
    for (stake, bps) in [
        (1u64, 0u16),
        (1, 2500),
        (7, 33),
        (1_000_000, 250),
        (123_456_789, 1),
        (u64::MAX / 2, 0),
        (1_000_000_000_000, 2500),
    ] {
        let b = compute_payout(stake, bps).unwrap();
        assert_eq!(b.total_pot, 2 * stake);
        assert_eq!(b.payout + b.fee, 2 * stake);
        assert_eq!(b.fee, 2u64 * stake * bps as u64 / 10_000);
    }
}

#[test]
fn fee_is_zero_only_for_zero_rate_or_tiny_pot() {
    // 2 * 19 * 250 = 9500 < 10000: the floor swallows the fee.
    let b = compute_payout(19, 250).unwrap();
    assert_eq!(b.fee, 0);
    assert_eq!(b.payout, 38);
    // 2 * 20 * 250 = 10000: exactly one whole unit of fee.
    let b = compute_payout(20, 250).unwrap();
    assert_eq!(b.fee, 1);
    assert_eq!(b.payout, 39);
    // A zero rate never charges, whatever the stake.
    let b = compute_payout(1_000_000_000, 0).unwrap();
    assert_eq!(b.fee, 0);
}

#[test]
fn payout_overflow_is_reported() {
    // The pot itself overflows.
    assert_eq!(
        compute_payout(u64::MAX / 2 + 1, 0),
        Err(SolFightError::MathOverflow)
    );
    // The pot fits but the fee multiplication does not.
    assert_eq!(
        compute_payout(u64::MAX / 2, 2500),
        Err(SolFightError::MathOverflow)
    );
}
