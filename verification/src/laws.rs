//! What holds of every purchase and of every run of purchases.

use vstd::prelude::*;
use crate::curve::{product, raised_sol, total, BondingCurve};
use crate::engine::{BuyTokens, InitializeCurve};
use crate::error::ErrorCode;

verus! {

/// A priced purchase leaves both virtual reserves strictly positive, never
/// lowers the currency reserve and never raises the token reserve.
pub proof fn law_buy_keeps_reserves_positive(curve: BondingCurve, amount: u64)
    requires
        curve.spec_buy(amount) is Some,
    ensures
        curve.spec_buy(amount).unwrap().is_live(),
        curve.spec_buy(amount).unwrap().virtual_sol_reserves > curve.virtual_sol_reserves,
        curve.spec_buy(amount).unwrap().virtual_token_reserves
            == curve.virtual_token_reserves - amount,
{
    crate::curve::lemma_quotient_bounds(
        curve.virtual_sol_reserves as int,
        curve.virtual_token_reserves as int,
        curve.virtual_token_reserves - amount,
    );
}

/// A priced purchase never lowers the product of the virtual reserves: the
/// rounding of the price goes against the buyer.
pub proof fn law_buy_never_lowers_product(curve: BondingCurve, amount: u64)
    requires
        curve.spec_buy(amount) is Some,
    ensures
        product(
            curve.spec_buy(amount).unwrap().virtual_sol_reserves,
            curve.spec_buy(amount).unwrap().virtual_token_reserves,
        ) > product(curve.virtual_sol_reserves, curve.virtual_token_reserves),
{
    let k = product(curve.virtual_sol_reserves, curve.virtual_token_reserves);
    let remaining = curve.virtual_token_reserves - amount;
    let raised = raised_sol(curve.virtual_sol_reserves, curve.virtual_token_reserves, amount);
    vstd::arithmetic::div_mod::lemma_fundamental_div_mod(k, remaining);
    vstd::arithmetic::div_mod::lemma_mod_bound(k, remaining);
    assert(raised * remaining == remaining * (k / remaining) + remaining) by (nonlinear_arith)
        requires
            raised == k / remaining + 1,
    ;
}

/// After any run of priced purchases that is not empty, both virtual reserves
/// are strictly positive.
pub proof fn law_reserves_stay_positive(curve: BondingCurve, amounts: Seq<u64>)
    requires
        amounts.len() > 0,
        curve.spec_buy_all(amounts) is Some,
    ensures
        curve.spec_buy_all(amounts).unwrap().is_live(),
    decreases amounts.len(),
{
    let next = curve.spec_buy(amounts[0]).unwrap();
    law_buy_keeps_reserves_positive(curve, amounts[0]);
    if amounts.drop_first().len() > 0 {
        law_reserves_stay_positive(next, amounts.drop_first());
    }
}

/// Over any run of priced purchases the product of the virtual reserves does
/// not fall, the currency reserve does not fall and the token reserve does
/// not rise.
pub proof fn law_product_never_falls(curve: BondingCurve, amounts: Seq<u64>)
    requires
        curve.spec_buy_all(amounts) is Some,
    ensures
        product(
            curve.spec_buy_all(amounts).unwrap().virtual_sol_reserves,
            curve.spec_buy_all(amounts).unwrap().virtual_token_reserves,
        ) >= product(curve.virtual_sol_reserves, curve.virtual_token_reserves),
        curve.spec_buy_all(amounts).unwrap().virtual_sol_reserves >= curve.virtual_sol_reserves,
        curve.spec_buy_all(amounts).unwrap().virtual_token_reserves
            <= curve.virtual_token_reserves,
    decreases amounts.len(),
{
    if amounts.len() > 0 {
        let next = curve.spec_buy(amounts[0]).unwrap();
        law_buy_keeps_reserves_positive(curve, amounts[0]);
        law_buy_never_lowers_product(curve, amounts[0]);
        law_product_never_falls(next, amounts.drop_first());
    }
}

/// After any run of priced purchases the real reserve is the initial real
/// reserve less the sum of the amounts sold, and the curve still belongs to
/// the same creator and asset.
pub proof fn law_real_reserves_track_sales(curve: BondingCurve, amounts: Seq<u64>)
    requires
        curve.spec_buy_all(amounts) is Some,
    ensures
        curve.spec_buy_all(amounts).unwrap().real_token_reserves == curve.real_token_reserves
            - total(amounts),
        curve.spec_buy_all(amounts).unwrap().creator == curve.creator,
        curve.spec_buy_all(amounts).unwrap().mint == curve.mint,
        curve.spec_buy_all(amounts).unwrap().bump == curve.bump,
    decreases amounts.len(),
{
    if amounts.len() > 0 {
        let next = curve.spec_buy(amounts[0]).unwrap();
        law_real_reserves_track_sales(next, amounts.drop_first());
    }
}

/// A curve has no closed state: once custody holds nothing for sale, or the
/// virtual token reserve cannot cover an amount, the purchase is refused, and
/// for want of stock unless the raised currency reserve would leave 64 bits.
pub proof fn law_sold_out_refuses(curve: BondingCurve, amount: u64)
    requires
        amount >= curve.virtual_token_reserves || amount > curve.real_token_reserves,
    ensures
        curve.spec_buy(amount) is None,
        curve.spec_quote(amount) == Err::<crate::curve::BuyQuote, ErrorCode>(
            ErrorCode::InsufficientStock,
        ) || curve.spec_quote(amount) == Err::<crate::curve::BuyQuote, ErrorCode>(
            ErrorCode::MathOverflow,
        ),
{
}

/// A purchase that goes through leaves the curve that its pricing alone
/// gives: the run laws above hold of the curves of any run of purchases.
pub proof fn law_purchase_follows_pricing(ctx: BuyTokens, amount: u64)
    requires
        ctx.outcome(amount) is Ok,
    ensures
        ctx.curve.spec_buy(amount) == Some(ctx.outcome(amount)->Ok_0.curve),
{
}

/// Seeding puts into custody exactly the real reserve that the curve
/// records, under the authority that the curve will claim when it sells.
pub proof fn law_seeding_funds_custody(
    ctx: InitializeCurve,
    virtual_sol_reserves: u64,
    virtual_token_reserves: u64,
    real_token_reserves: u64,
)
    requires
        ctx.outcome(virtual_sol_reserves, virtual_token_reserves, real_token_reserves) is Ok,
    ensures
        ({
            let next = ctx.outcome(
                virtual_sol_reserves,
                virtual_token_reserves,
                real_token_reserves,
            )->Ok_0;
            &&& next.vault is Some
            &&& next.curve is Some
            &&& next.vault.unwrap().amount == next.curve.unwrap().real_token_reserves
            &&& next.vault.unwrap().mint == next.curve.unwrap().mint
            &&& next.vault.unwrap().authority.asset == next.curve.unwrap().mint
            &&& next.vault.unwrap().authority.tag == next.curve.unwrap().bump
            &&& next.vault.unwrap().amount + next.creator_token_account.amount
                == ctx.creator_token_account.amount
        }),
{
}

/// A purchase debits custody and the real reserve by the same amount: where
/// custody covered the real reserve before, it covers it after, and the gap
/// between them is unchanged. The buyer pays exactly what the creator
/// receives, and receives exactly what custody gives.
pub proof fn law_purchase_keeps_custody_in_step(ctx: BuyTokens, amount: u64)
    requires
        ctx.outcome(amount) is Ok,
    ensures
        ({
            let next = ctx.outcome(amount)->Ok_0;
            &&& next.vault.amount - next.curve.real_token_reserves == ctx.vault.amount
                - ctx.curve.real_token_reserves
            &&& ctx.vault.amount - next.vault.amount == amount
            &&& next.buyer_token_account.amount - ctx.buyer_token_account.amount == amount
            &&& ctx.buyer.lamports - next.buyer.lamports == next.global_wallet.lamports
                - ctx.global_wallet.lamports
            &&& ctx.buyer.lamports - next.buyer.lamports == next.curve.virtual_sol_reserves
                - ctx.curve.virtual_sol_reserves
            &&& ctx.buyer.lamports - next.buyer.lamports >= 1
        }),
{
    crate::curve::lemma_quotient_bounds(
        ctx.curve.virtual_sol_reserves as int,
        ctx.curve.virtual_token_reserves as int,
        ctx.curve.virtual_token_reserves - amount,
    );
}

} // verus!
