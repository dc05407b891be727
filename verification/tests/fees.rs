use skip::fee::{
    affiliate_fee_amount, affiliate_payouts, calculate_fees, calculate_refund, Affiliate,
    FeeSplit, Payout,
};
use skip::math::{OverflowError, OverflowOperation};

fn affiliate(address: &str, basis_points_fee: u128) -> Affiliate {
    Affiliate {
        address: address.to_string(),
        basis_points_fee,
    }
}

fn payout(address: &str, amount: u128) -> Payout {
    Payout {
        address: address.to_string(),
        amount,
    }
}

#[test]
fn fee_is_the_share_rounded_down() {
    assert_eq!(affiliate_fee_amount(1_000_000, &affiliate("a", 1000)), 100_000);
    assert_eq!(affiliate_fee_amount(999, &affiliate("a", 1)), 0);
    assert_eq!(affiliate_fee_amount(10_000, &affiliate("a", 1)), 1);
    assert_eq!(affiliate_fee_amount(19_999, &affiliate("a", 1)), 1);
    assert_eq!(affiliate_fee_amount(12_345, &affiliate("a", 3333)), 4114);
    assert_eq!(affiliate_fee_amount(7, &affiliate("a", 10_000)), 7);
    assert_eq!(affiliate_fee_amount(0, &affiliate("a", 10_000)), 0);
}

#[test]
fn fee_of_the_largest_amount_does_not_overflow() {
    assert_eq!(affiliate_fee_amount(u128::MAX, &affiliate("a", 10_000)), u128::MAX);
    assert_eq!(
        affiliate_fee_amount(u128::MAX, &affiliate("a", 5_000)),
        u128::MAX / 2
    );
    assert_eq!(
        affiliate_fee_amount(u128::MAX, &affiliate("a", 1)),
        u128::MAX / 10_000
    );
}

#[test]
fn payouts_come_from_the_whole_amount_in_order() {
    let affiliates = vec![
        affiliate("first", 5000),
        affiliate("none", 0),
        affiliate("second", 5000),
        affiliate("too_small", 1),
        affiliate("third", 2500),
    ];
    assert_eq!(
        affiliate_payouts(1000, &affiliates),
        vec![payout("first", 500), payout("second", 500), payout("third", 250)]
    );
}

#[test]
fn payouts_add_up_to_the_sum_of_the_fees() {
    let affiliates = vec![affiliate("a", 3333), affiliate("b", 3333), affiliate("c", 3334)];
    let payouts = affiliate_payouts(100, &affiliates);
    let sum: u128 = payouts.iter().map(|p| p.amount).sum();
    assert_eq!(sum, 33 + 33 + 33);
}

#[test]
fn no_affiliates_no_payouts() {
    assert_eq!(affiliate_payouts(1_000_000, &vec![]), vec![]);
    assert_eq!(
        calculate_fees(1_000_000, &vec![]),
        Ok(FeeSplit {
            payouts: vec![],
            residual: 1_000_000
        })
    );
}

#[test]
fn split_leaves_the_amount_less_the_fees() {
    let affiliates = vec![affiliate("a", 1000), affiliate("b", 0), affiliate("c", 250)];
    assert_eq!(
        calculate_fees(1_000_000, &affiliates),
        Ok(FeeSplit {
            payouts: vec![payout("a", 100_000), payout("c", 25_000)],
            residual: 875_000
        })
    );
}

#[test]
fn split_may_take_the_whole_amount() {
    let affiliates = vec![affiliate("a", 5000), affiliate("b", 5000)];
    assert_eq!(
        calculate_fees(10, &affiliates),
        Ok(FeeSplit {
            payouts: vec![payout("a", 5), payout("b", 5)],
            residual: 0
        })
    );
}

#[test]
fn split_fails_where_the_fees_exceed_the_amount() {
    let affiliates = vec![affiliate("a", 6000), affiliate("b", 6000), affiliate("c", 1)];
    assert_eq!(
        calculate_fees(1000, &affiliates),
        Err(OverflowError {
            operation: OverflowOperation::Sub,
            operand1: "400".to_string(),
            operand2: "600".to_string(),
        })
    );
}

#[test]
fn refund_is_what_remains_less_what_is_required() {
    assert_eq!(calculate_refund(1_000_000, 500_000), Ok(500_000));
    assert_eq!(calculate_refund(500_000, 500_000), Ok(0));
    assert_eq!(calculate_refund(u128::MAX, 0), Ok(u128::MAX));
}

#[test]
fn refund_fails_where_more_is_required_than_remains() {
    assert_eq!(
        calculate_refund(499_999, 500_000),
        Err(OverflowError {
            operation: OverflowOperation::Sub,
            operand1: "499999".to_string(),
            operand2: "500000".to_string(),
        })
    );
    assert_eq!(
        calculate_refund(0, u128::MAX),
        Err(OverflowError {
            operation: OverflowOperation::Sub,
            operand1: "0".to_string(),
            operand2: "340282366920938463463374607431768211455".to_string(),
        })
    );
}
