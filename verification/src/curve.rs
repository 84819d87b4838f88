//! The curve's record and its constant-product pricing.

use vstd::prelude::*;
use crate::accounts::Address;
use crate::error::ErrorCode;

verus! {

/// The state of one bonding curve. There is one per asset.
#[derive(Clone, Copy, Debug, PartialEq, Eq)]
pub struct BondingCurve {
    /// Who made the curve and receives what buyers pay.
    pub creator: Address,
    /// The asset that the curve sells.
    pub mint: Address,
    /// The currency side of the pricing product.
    pub virtual_sol_reserves: u64,
    /// The token side of the pricing product.
    pub virtual_token_reserves: u64,
    /// The inventory that custody still holds for sale.
    pub real_token_reserves: u64,
    /// The tag of the authority over the custody account.
    pub bump: u8,
}

/// What one purchase costs and the reserves it leaves behind.
#[derive(Clone, Copy, Debug, PartialEq, Eq)]
pub struct BuyQuote {
    /// What the buyer pays to the creator: the rise of the currency reserve.
    pub sol_cost: u64,
    /// The currency reserve after the purchase.
    pub new_virtual_sol_reserves: u64,
    /// The token reserve after the purchase.
    pub new_virtual_token_reserves: u64,
    /// The inventory left in custody after the purchase.
    pub new_real_token_reserves: u64,
}

/// The pricing product `k` of two reserves.
pub open spec fn product(sol: u64, token: u64) -> int {
    sol * token
}

/// The currency reserve after `amount` tokens leave a reserve of `token`:
/// the product divided by what remains, rounded down, and one more.
pub open spec fn raised_sol(sol: u64, token: u64, amount: u64) -> int
    recommends
        amount < token,
{
    product(sol, token) / (token - amount) + 1
}

/// The sum of a sequence of amounts.
pub open spec fn total(amounts: Seq<u64>) -> int
    decreases amounts.len(),
{
    if amounts.len() == 0 {
        0
    } else {
        amounts[0] + total(amounts.drop_first())
    }
}

impl BondingCurve {
    /// The quote for `amount` tokens, or the reason why there is none: the
    /// amount must stay below the virtual token reserve, the raised currency
    /// reserve must fit in 64 bits, and custody must hold the amount.
    pub open spec fn spec_quote(&self, amount: u64) -> Result<BuyQuote, ErrorCode> {
        if amount >= self.virtual_token_reserves {
            Err(ErrorCode::InsufficientStock)
        } else if raised_sol(self.virtual_sol_reserves, self.virtual_token_reserves, amount)
            > u64::MAX {
            Err(ErrorCode::MathOverflow)
        } else if amount > self.real_token_reserves {
            Err(ErrorCode::InsufficientStock)
        } else {
            Ok(
                BuyQuote {
                    sol_cost: (raised_sol(
                        self.virtual_sol_reserves,
                        self.virtual_token_reserves,
                        amount,
                    ) - self.virtual_sol_reserves) as u64,
                    new_virtual_sol_reserves: raised_sol(
                        self.virtual_sol_reserves,
                        self.virtual_token_reserves,
                        amount,
                    ) as u64,
                    new_virtual_token_reserves: (self.virtual_token_reserves - amount) as u64,
                    new_real_token_reserves: (self.real_token_reserves - amount) as u64,
                },
            )
        }
    }

    /// The curve with the reserves of a quote.
    pub open spec fn with_quote(&self, quote: BuyQuote) -> BondingCurve {
        BondingCurve {
            creator: self.creator,
            mint: self.mint,
            virtual_sol_reserves: quote.new_virtual_sol_reserves,
            virtual_token_reserves: quote.new_virtual_token_reserves,
            real_token_reserves: quote.new_real_token_reserves,
            bump: self.bump,
        }
    }

    /// The curve after a purchase of `amount`, where the purchase is priced.
    pub open spec fn spec_buy(&self, amount: u64) -> Option<BondingCurve> {
        match self.spec_quote(amount) {
            Ok(quote) => Some(self.with_quote(quote)),
            Err(_) => None,
        }
    }

    /// The curve after a run of purchases, each priced against the reserves
    /// that the one before left; `None` as soon as one of them is refused.
    pub open spec fn spec_buy_all(&self, amounts: Seq<u64>) -> Option<BondingCurve>
        decreases amounts.len(),
    {
        if amounts.len() == 0 {
            Some(*self)
        } else {
            match self.spec_buy(amounts[0]) {
                Some(next) => next.spec_buy_all(amounts.drop_first()),
                None => None,
            }
        }
    }

    /// Both virtual reserves are strictly positive.
    pub open spec fn is_live(&self) -> bool {
        self.virtual_sol_reserves > 0 && self.virtual_token_reserves > 0
    }

    /// Prices a purchase of `amount` tokens against the current reserves and
    /// changes nothing. The product is taken in 128 bits, which hold the
    /// product of any two reserves; the division truncates and one unit is
    /// added, so the buyer never pays less than the exact constant-product
    /// price. An amount of zero is priced like any other: it moves no tokens
    /// and costs the one unit. A raised reserve that does not fit in 64 bits
    /// is refused, never cut short.
    pub fn quote_buy(&self, amount: u64) -> (quote: Result<BuyQuote, ErrorCode>)
        ensures
            quote == self.spec_quote(amount),
            quote is Ok ==> quote->Ok_0.sol_cost >= 1,
    {
        if amount >= self.virtual_token_reserves {
            return Err(ErrorCode::InsufficientStock);
        }
        let sol: u128 = self.virtual_sol_reserves as u128;
        let token: u128 = self.virtual_token_reserves as u128;
        proof {
            vstd::arithmetic::mul::lemma_mul_upper_bound(
                sol as int,
                0xffff_ffff_ffff_ffff,
                token as int,
                0xffff_ffff_ffff_ffff,
            );
            assert(0xffff_ffff_ffff_ffff * 0xffff_ffff_ffff_ffff < 0xffff_ffff_ffff_ffff_ffff_ffff_ffff_ffff)
                by (nonlinear_arith);
        }
        let k: u128 = sol * token;
        let remaining: u128 = token - amount as u128;
        proof {
            lemma_quotient_bounds(sol as int, token as int, remaining as int);
        }
        let raised: u128 = k / remaining + 1;
        if raised > u64::MAX as u128 {
            return Err(ErrorCode::MathOverflow);
        }
        if amount > self.real_token_reserves {
            return Err(ErrorCode::InsufficientStock);
        }
        Ok(
            BuyQuote {
                sol_cost: (raised - sol) as u64,
                new_virtual_sol_reserves: raised as u64,
                new_virtual_token_reserves: remaining as u64,
                new_real_token_reserves: self.real_token_reserves - amount,
            },
        )
    }
}

/// Dividing a product by no more than one of its factors gives at least the
/// other factor, and at most the product.
pub proof fn lemma_quotient_bounds(sol: int, token: int, remaining: int)
    requires
        0 <= sol,
        0 < remaining <= token,
    ensures
        sol <= (sol * token) / remaining <= sol * token,
{
    vstd::arithmetic::mul::lemma_mul_inequality(remaining, token, sol);
    vstd::arithmetic::mul::lemma_mul_is_commutative(remaining, sol);
    vstd::arithmetic::mul::lemma_mul_is_commutative(token, sol);
    assert(remaining * sol <= sol * token);
    vstd::arithmetic::div_mod::lemma_div_is_ordered(remaining * sol, sol * token, remaining);
    vstd::arithmetic::div_mod::lemma_div_multiples_vanish(sol, remaining);
    assert(0 <= sol * token) by (nonlinear_arith)
        requires
            0 <= sol,
            0 < token,
    ;
    vstd::arithmetic::div_mod::lemma_div_nonincreasing(sol * token, remaining);
}

} // verus!
