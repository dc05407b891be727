//! Affiliate fees in basis points, and the refund of unspent input.

use vstd::prelude::*;
use crate::math::{uint128_checked_sub, uint128_multiply_ratio, sub_overflow, OverflowError, OverflowErrorView};

verus! {

/// The number of basis points in the whole.
pub const BASIS_POINTS: u128 = 10000;

/// A fee recipient and its share, in basis points of an output amount.
#[derive(Debug, Clone, PartialEq, Eq)]
pub struct Affiliate {
    pub address: String,
    pub basis_points_fee: u128,
}

/// What an [`Affiliate`] holds, as plain values.
pub struct AffiliateView {
    pub address: Seq<char>,
    pub basis_points_fee: nat,
}

impl View for Affiliate {
    type V = AffiliateView;

    open spec fn view(&self) -> AffiliateView {
        AffiliateView { address: self.address@, basis_points_fee: self.basis_points_fee as nat }
    }
}

impl Affiliate {
    /// A share is at most the whole.
    pub open spec fn wf(&self) -> bool {
        self.basis_points_fee <= BASIS_POINTS
    }

    /// Whether the share is at most the whole.
    pub fn is_valid(&self) -> (ok: bool)
        ensures
            ok == self.wf(),
    {
        self.basis_points_fee <= BASIS_POINTS
    }
}

/// Every affiliate of the list has a share of at most the whole.
pub open spec fn affiliates_wf(affiliates: Seq<Affiliate>) -> bool {
    forall|i: int| 0 <= i < affiliates.len() ==> (#[trigger] affiliates[i]).wf()
}

/// The views of a list of affiliates, in order.
pub open spec fn affiliates_view(affiliates: Seq<Affiliate>) -> Seq<AffiliateView> {
    affiliates.map_values(|a: Affiliate| a@)
}

/// One transfer of a fee to an affiliate.
#[derive(Debug, Clone, PartialEq, Eq)]
pub struct Payout {
    pub address: String,
    pub amount: u128,
}

/// What a [`Payout`] holds, as plain values.
pub struct PayoutView {
    pub address: Seq<char>,
    pub amount: nat,
}

impl View for Payout {
    type V = PayoutView;

    open spec fn view(&self) -> PayoutView {
        PayoutView { address: self.address@, amount: self.amount as nat }
    }
}

/// The views of a list of payouts, in order.
pub open spec fn payouts_view(payouts: Seq<Payout>) -> Seq<PayoutView> {
    payouts.map_values(|p: Payout| p@)
}

/// The fee of one affiliate: its share of `amount`, rounded down.
pub open spec fn fee_of(amount: nat, basis_points_fee: nat) -> nat {
    amount * basis_points_fee / (BASIS_POINTS as nat)
}

/// The payouts owed on `amount`, one per affiliate in the order of the list,
/// each taken from the whole amount. An affiliate whose fee rounds to zero is
/// left out.
pub open spec fn payouts_of(amount: nat, affiliates: Seq<AffiliateView>) -> Seq<PayoutView>
    decreases affiliates.len(),
{
    if affiliates.len() == 0 {
        Seq::empty()
    } else {
        let rest = payouts_of(amount, affiliates.drop_last());
        let fee = fee_of(amount, affiliates.last().basis_points_fee);
        if fee == 0 {
            rest
        } else {
            rest.push(PayoutView { address: affiliates.last().address, amount: fee })
        }
    }
}

/// The sum of the fees of all affiliates of the list.
pub open spec fn total_fee(amount: nat, affiliates: Seq<AffiliateView>) -> nat
    decreases affiliates.len(),
{
    if affiliates.len() == 0 {
        0
    } else {
        total_fee(amount, affiliates.drop_last()) + fee_of(
            amount,
            affiliates.last().basis_points_fee,
        )
    }
}

/// The sum of the amounts of a list of payouts.
pub open spec fn payouts_sum(payouts: Seq<PayoutView>) -> nat
    decreases payouts.len(),
{
    if payouts.len() == 0 {
        0
    } else {
        payouts_sum(payouts.drop_last()) + payouts.last().amount
    }
}

/// A share of at most the whole yields a fee of at most the amount.
pub proof fn lemma_fee_bounded(amount: nat, basis_points_fee: nat)
    requires
        basis_points_fee <= BASIS_POINTS,
    ensures
        fee_of(amount, basis_points_fee) <= amount,
{
    assert(amount * basis_points_fee <= amount * 10000) by (nonlinear_arith)
        requires
            basis_points_fee <= 10000,
    ;
    assert(amount * basis_points_fee / 10000 <= amount) by (nonlinear_arith)
        requires
            amount * basis_points_fee <= amount * 10000,
    ;
}

/// The fee of one affiliate on `amount`.
pub fn affiliate_fee_amount(amount: u128, affiliate: &Affiliate) -> (fee: u128)
    requires
        affiliate.wf(),
    ensures
        fee as nat == fee_of(amount as nat, affiliate.basis_points_fee as nat),
        fee <= amount,
{
    proof {
        lemma_fee_bounded(amount as nat, affiliate.basis_points_fee as nat);
    }
    uint128_multiply_ratio(amount, affiliate.basis_points_fee, BASIS_POINTS)
}

/// The payouts owed on `amount`, in the order of the affiliates.
pub fn affiliate_payouts(amount: u128, affiliates: &Vec<Affiliate>) -> (payouts: Vec<Payout>)
    requires
        affiliates_wf(affiliates@),
    ensures
        payouts_view(payouts@) == payouts_of(amount as nat, affiliates_view(affiliates@)),
{
    let mut payouts: Vec<Payout> = Vec::new();
    let mut i: usize = 0;
    while i < affiliates.len()
        invariant
            i <= affiliates.len(),
            affiliates_wf(affiliates@),
            payouts_view(payouts@) == payouts_of(
                amount as nat,
                affiliates_view(affiliates@).take(i as int),
            ),
        decreases affiliates.len() - i,
    {
        let affiliate = &affiliates[i];
        let fee: u128 = affiliate_fee_amount(amount, affiliate);
        let ghost before = payouts@;
        if fee > 0 {
            payouts.push(Payout { address: affiliate.address.clone(), amount: fee });
        }
        proof {
            let views = affiliates_view(affiliates@);
            assert(views.take(i + 1).drop_last() == views.take(i as int));
            assert(views.take(i + 1).last() == affiliate@);
            if fee > 0 {
                assert(payouts_view(payouts@) == payouts_view(before).push(payouts@.last()@));
            }
        }
        i += 1;
    }
    proof {
        let views = affiliates_view(affiliates@);
        assert(views.take(i as int) == views);
    }
    payouts
}

/// What is left of `amount` once every fee of the list is taken from it, one
/// after the other in the order of the list. Where a fee exceeds what is left
/// at its turn, the subtraction fails with what was left and that fee.
pub open spec fn residual_of(amount: nat, affiliates: Seq<AffiliateView>) -> Result<
    nat,
    OverflowErrorView,
>
    decreases affiliates.len(),
{
    if affiliates.len() == 0 {
        Ok(amount)
    } else {
        match residual_of(amount, affiliates.drop_last()) {
            Err(e) => Err(e),
            Ok(left) => {
                let fee = fee_of(amount, affiliates.last().basis_points_fee);
                if fee > left {
                    Err(sub_overflow(left, fee))
                } else {
                    Ok((left - fee) as nat)
                }
            },
        }
    }
}

/// The payouts of a list of affiliates and what they leave of the amount.
#[derive(Debug, Clone, PartialEq, Eq)]
pub struct FeeSplit {
    pub payouts: Vec<Payout>,
    pub residual: u128,
}

/// The payouts owed on `amount` and the residual after all of them. The
/// residual is taken by checked subtraction, fee by fee: the split fails
/// exactly when the fees together exceed the amount.
pub fn calculate_fees(amount: u128, affiliates: &Vec<Affiliate>) -> (split: Result<
    FeeSplit,
    OverflowError,
>)
    requires
        affiliates_wf(affiliates@),
    ensures
        split is Ok <==> residual_of(amount as nat, affiliates_view(affiliates@)) is Ok,
        split is Ok ==> payouts_view(split->Ok_0.payouts@) == payouts_of(
            amount as nat,
            affiliates_view(affiliates@),
        ) && Ok::<nat, OverflowErrorView>(split->Ok_0.residual as nat) == residual_of(
            amount as nat,
            affiliates_view(affiliates@),
        ),
        split is Err ==> Err::<nat, OverflowErrorView>(split->Err_0@) == residual_of(
            amount as nat,
            affiliates_view(affiliates@),
        ),
{
    let mut residual: u128 = amount;
    let mut i: usize = 0;
    while i < affiliates.len()
        invariant
            i <= affiliates.len(),
            affiliates_wf(affiliates@),
            residual_of(amount as nat, affiliates_view(affiliates@).take(i as int)) == Ok::<
                nat,
                OverflowErrorView,
            >(residual as nat),
        decreases affiliates.len() - i,
    {
        let fee: u128 = affiliate_fee_amount(amount, &affiliates[i]);
        proof {
            let views = affiliates_view(affiliates@);
            assert(views.take(i + 1).drop_last() == views.take(i as int));
            assert(views.take(i + 1).last() == affiliates[i as int]@);
        }
        match uint128_checked_sub(residual, fee) {
            Ok(left) => {
                residual = left;
            },
            Err(e) => {
                proof {
                    lemma_residual_failure_stays(
                        amount as nat,
                        affiliates_view(affiliates@),
                        i + 1,
                    );
                }
                return Err(e);
            },
        }
        i += 1;
    }
    proof {
        let views = affiliates_view(affiliates@);
        assert(views.take(i as int) == views);
    }
    Ok(FeeSplit { payouts: affiliate_payouts(amount, affiliates), residual })
}

/// Once the residual has failed on a prefix of the list, it fails in the same
/// way on the whole list.
pub proof fn lemma_residual_failure_stays(amount: nat, affiliates: Seq<AffiliateView>, k: int)
    requires
        0 <= k <= affiliates.len(),
        residual_of(amount, affiliates.take(k)) is Err,
    ensures
        residual_of(amount, affiliates) == residual_of(amount, affiliates.take(k)),
    decreases affiliates.len(),
{
    if k == affiliates.len() {
        assert(affiliates.take(k) == affiliates);
    } else {
        assert(affiliates.drop_last().take(k) == affiliates.take(k));
        lemma_residual_failure_stays(amount, affiliates.drop_last(), k);
    }
}

/// The residual is the amount less the sum of all fees, and the split fails
/// exactly when that sum exceeds the amount.
pub proof fn lemma_residual_is_amount_less_fees(amount: nat, affiliates: Seq<AffiliateView>)
    ensures
        residual_of(amount, affiliates) is Ok <==> total_fee(amount, affiliates) <= amount,
        residual_of(amount, affiliates) is Ok ==> residual_of(amount, affiliates)->Ok_0
            == amount - total_fee(amount, affiliates),
    decreases affiliates.len(),
{
    if affiliates.len() > 0 {
        lemma_residual_is_amount_less_fees(amount, affiliates.drop_last());
    }
}

/// The payouts of a list add up to the sum of the fees of its affiliates,
/// each fee being the affiliate's share of the whole amount, rounded down.
pub proof fn lemma_payouts_sum_is_total_fee(amount: nat, affiliates: Seq<AffiliateView>)
    ensures
        payouts_sum(payouts_of(amount, affiliates)) == total_fee(amount, affiliates),
    decreases affiliates.len(),
{
    if affiliates.len() > 0 {
        lemma_payouts_sum_is_total_fee(amount, affiliates.drop_last());
        let rest = payouts_of(amount, affiliates.drop_last());
        let fee = fee_of(amount, affiliates.last().basis_points_fee);
        if fee != 0 {
            let p = PayoutView { address: affiliates.last().address, amount: fee };
            assert(rest.push(p).drop_last() == rest);
        }
    }
}

/// No payout is empty: every payout of the list carries a positive amount.
pub proof fn lemma_payouts_are_positive(amount: nat, affiliates: Seq<AffiliateView>)
    ensures
        forall|j: int|
            0 <= j < payouts_of(amount, affiliates).len() ==> (#[trigger] payouts_of(
                amount,
                affiliates,
            )[j]).amount > 0,
        payouts_of(amount, affiliates).len() <= affiliates.len(),
    decreases affiliates.len(),
{
    if affiliates.len() > 0 {
        lemma_payouts_are_positive(amount, affiliates.drop_last());
    }
}

/// An affiliate with a share of zero adds no payout, wherever it stands in
/// the list.
pub proof fn lemma_zero_share_adds_no_payout(
    amount: nat,
    before: Seq<AffiliateView>,
    affiliate: AffiliateView,
    after: Seq<AffiliateView>,
)
    requires
        affiliate.basis_points_fee == 0,
    ensures
        payouts_of(amount, before.push(affiliate) + after) == payouts_of(amount, before + after),
    decreases after.len(),
{
    assert(amount * 0 / 10000 == 0) by (nonlinear_arith);
    if after.len() == 0 {
        assert(before.push(affiliate) + after == before.push(affiliate));
        assert(before + after == before);
        assert(before.push(affiliate).drop_last() == before);
    } else {
        lemma_zero_share_adds_no_payout(amount, before, affiliate, after.drop_last());
        assert((before.push(affiliate) + after).drop_last() == before.push(affiliate)
            + after.drop_last());
        assert((before + after).drop_last() == before + after.drop_last());
    }
}

/// The place in the list of the affiliate that the payout at `j` goes to.
pub open spec fn payout_origin(amount: nat, affiliates: Seq<AffiliateView>, j: int) -> int
    decreases affiliates.len(),
{
    if affiliates.len() == 0 {
        0
    } else if j < payouts_of(amount, affiliates.drop_last()).len() {
        payout_origin(amount, affiliates.drop_last(), j)
    } else {
        affiliates.len() - 1
    }
}

/// Every payout goes to one affiliate of the list, to its address and of its
/// fee, and the payouts stand in the order in which their affiliates were
/// declared.
pub proof fn lemma_payouts_keep_declaration_order(amount: nat, affiliates: Seq<AffiliateView>)
    ensures
        forall|j: int|
            0 <= j < payouts_of(amount, affiliates).len() ==> {
                let at = #[trigger] payout_origin(amount, affiliates, j);
                &&& 0 <= at < affiliates.len()
                &&& payouts_of(amount, affiliates)[j].address == affiliates[at].address
                &&& payouts_of(amount, affiliates)[j].amount == fee_of(
                    amount,
                    affiliates[at].basis_points_fee,
                )
            },
        forall|j: int, k: int|
            0 <= j < k < payouts_of(amount, affiliates).len() ==> payout_origin(
                amount,
                affiliates,
                j,
            ) < payout_origin(amount, affiliates, k),
    decreases affiliates.len(),
{
    if affiliates.len() > 0 {
        let front = affiliates.drop_last();
        lemma_payouts_keep_declaration_order(amount, front);
        let rest = payouts_of(amount, front);
        assert forall|j: int| 0 <= j < payouts_of(amount, affiliates).len() implies {
            let at = #[trigger] payout_origin(amount, affiliates, j);
            &&& 0 <= at < affiliates.len()
            &&& payouts_of(amount, affiliates)[j].address == affiliates[at].address
            &&& payouts_of(amount, affiliates)[j].amount == fee_of(
                amount,
                affiliates[at].basis_points_fee,
            )
        } by {
            if j < rest.len() {
                let at = payout_origin(amount, front, j);
                assert(front[at] == affiliates[at]);
            }
        }
        assert forall|j: int, k: int|
            0 <= j < k < payouts_of(amount, affiliates).len() implies payout_origin(
            amount,
            affiliates,
            j,
        ) < payout_origin(amount, affiliates, k) by {
            assert(payouts_of(amount, affiliates).len() <= rest.len() + 1);
            if k >= rest.len() {
                assert(0 <= payout_origin(amount, front, j) < front.len());
            } else {
                assert(payout_origin(amount, front, j) < payout_origin(amount, front, k));
            }
        }
    }
}

/// The input left over once `required` units of it are spent: the refund.
/// Where more is required than remains, nothing is clamped: the subtraction
/// fails, and the error carries both amounts.
pub fn calculate_refund(remaining: u128, required: u128) -> (refund: Result<u128, OverflowError>)
    ensures
        refund is Ok <==> required <= remaining,
        refund is Ok ==> refund->Ok_0 == remaining - required,
        refund is Err ==> refund->Err_0@ == sub_overflow(remaining as nat, required as nat),
{
    uint128_checked_sub(remaining, required)
}

} // verus!
