//! The two operations on a curve: seeding it and buying from it. Each works
//! on a record of the accounts that it touches, checks every leg before it
//! writes anything, and then commits all changes together.

use vstd::prelude::*;
use crate::accounts::{Address, CustodyAccount, CustodyAuthority, TokenHolding, Wallet};
use crate::curve::{BondingCurve, BuyQuote};
use crate::error::ErrorCode;
use crate::payment::{system_transfer, TransferInstruction};

verus! {

/// The accounts of a call that seeds a curve.
#[derive(Clone, Copy, Debug, PartialEq, Eq)]
pub struct InitializeCurve {
    /// The place of the asset's curve: empty until the curve is made.
    pub curve: Option<BondingCurve>,
    /// Who makes the curve and gives the inventory.
    pub creator: Address,
    /// The asset to sell.
    pub mint: Address,
    /// The place of the custody account: empty until the curve is made.
    pub vault: Option<CustodyAccount>,
    /// The creator's own holding, from which the inventory comes.
    pub creator_token_account: TokenHolding,
    /// The tag under which the custody authority is made.
    pub bump: u8,
}

/// The accounts of a purchase.
#[derive(Clone, Copy, Debug, PartialEq, Eq)]
pub struct BuyTokens {
    pub curve: BondingCurve,
    /// The asset that the buyer asks for.
    pub mint: Address,
    /// The custody account that backs the curve.
    pub vault: CustodyAccount,
    /// The buyer's currency.
    pub buyer: Wallet,
    /// The holding that receives the tokens.
    pub buyer_token_account: TokenHolding,
    /// The wallet of the curve's creator, which receives the payment.
    pub global_wallet: Wallet,
}

impl InitializeCurve {
    /// What seeding does to the accounts, or why it is refused. The places of
    /// curve and custody must both be empty, the creator's holding must be of
    /// the asset and must cover the inventory.
    pub open spec fn outcome(
        &self,
        virtual_sol_reserves: u64,
        virtual_token_reserves: u64,
        real_token_reserves: u64,
    ) -> Result<InitializeCurve, ErrorCode> {
        if self.curve is Some || self.vault is Some {
            Err(ErrorCode::AlreadyInitialized)
        } else if self.creator_token_account.mint != self.mint {
            Err(ErrorCode::AssetMismatch)
        } else if self.creator_token_account.amount < real_token_reserves {
            Err(ErrorCode::InsufficientBalance)
        } else {
            Ok(
                InitializeCurve {
                    curve: Some(
                        BondingCurve {
                            creator: self.creator,
                            mint: self.mint,
                            virtual_sol_reserves,
                            virtual_token_reserves,
                            real_token_reserves,
                            bump: self.bump,
                        },
                    ),
                    creator: self.creator,
                    mint: self.mint,
                    vault: Some(
                        CustodyAccount {
                            mint: self.mint,
                            authority: CustodyAuthority { asset: self.mint, tag: self.bump },
                            amount: real_token_reserves,
                        },
                    ),
                    creator_token_account: TokenHolding {
                        mint: self.mint,
                        amount: (self.creator_token_account.amount - real_token_reserves) as u64,
                    },
                    bump: self.bump,
                },
            )
        }
    }
}

impl BuyTokens {
    /// The payment goes to the wallet of the curve's creator.
    pub open spec fn wf(&self) -> bool {
        self.global_wallet.key == self.curve.creator
    }

    /// The authority that the curve has over its custody account.
    pub open spec fn custody_authority(&self) -> CustodyAuthority {
        CustodyAuthority { asset: self.curve.mint, tag: self.curve.bump }
    }

    /// Why the two transfers of a priced purchase cannot both be made, if
    /// they cannot: the currency leg is looked at first, then the inventory leg.
    pub open spec fn leg_failure(&self, amount: u64, quote: BuyQuote) -> Option<ErrorCode> {
        if self.buyer.lamports < quote.sol_cost {
            Some(ErrorCode::InsufficientBalance)
        } else if self.global_wallet.lamports + quote.sol_cost > u64::MAX {
            Some(ErrorCode::MathOverflow)
        } else if self.vault.authority != self.custody_authority() {
            Some(ErrorCode::CustodyAuthorizationFailure)
        } else if self.mint != self.curve.mint || self.vault.mint != self.mint
            || self.buyer_token_account.mint != self.mint {
            Some(ErrorCode::AssetMismatch)
        } else if self.vault.amount < amount {
            Some(ErrorCode::InsufficientBalance)
        } else if self.buyer_token_account.amount + amount > u64::MAX {
            Some(ErrorCode::MathOverflow)
        } else {
            None
        }
    }

    /// The accounts after a purchase that was priced at `quote` and whose
    /// legs both go through.
    pub open spec fn settled(&self, amount: u64, quote: BuyQuote) -> BuyTokens {
        BuyTokens {
            curve: self.curve.with_quote(quote),
            mint: self.mint,
            vault: CustodyAccount {
                mint: self.vault.mint,
                authority: self.vault.authority,
                amount: (self.vault.amount - amount) as u64,
            },
            buyer: Wallet {
                key: self.buyer.key,
                lamports: (self.buyer.lamports - quote.sol_cost) as u64,
            },
            buyer_token_account: TokenHolding {
                mint: self.buyer_token_account.mint,
                amount: (self.buyer_token_account.amount + amount) as u64,
            },
            global_wallet: Wallet {
                key: self.global_wallet.key,
                lamports: (self.global_wallet.lamports + quote.sol_cost) as u64,
            },
        }
    }

    /// The instruction of the currency leg of a purchase priced at `quote`:
    /// the buyer pays the cost to the curve's creator.
    pub fn payment_instruction(&self, quote: &BuyQuote) -> (ix: TransferInstruction)
        ensures
            ix.is_transfer(self.buyer.key, self.curve.creator, quote.sol_cost),
    {
        system_transfer(&self.buyer.key, &self.curve.creator, quote.sol_cost)
    }

    /// What a purchase of `amount` does to the accounts, or why it is refused.
    pub open spec fn outcome(&self, amount: u64) -> Result<BuyTokens, ErrorCode> {
        match self.curve.spec_quote(amount) {
            Err(e) => Err(e),
            Ok(quote) => match self.leg_failure(amount, quote) {
                Some(e) => Err(e),
                None => Ok(self.settled(amount, quote)),
            },
        }
    }
}

/// Seeds the curve of an asset: makes the curve's record with the three
/// reserves, makes the custody account under the curve's authority, and moves
/// `real_token_reserves` units from the creator's holding into custody. A
/// refused call leaves the accounts as they were.
pub fn initialize_curve(
    ctx: &mut InitializeCurve,
    virtual_sol_reserves: u64,
    virtual_token_reserves: u64,
    real_token_reserves: u64,
) -> (done: Result<(), ErrorCode>)
    ensures
        match old(ctx).outcome(virtual_sol_reserves, virtual_token_reserves, real_token_reserves) {
            Ok(next) => done == Ok::<(), ErrorCode>(()) && *final(ctx) == next,
            Err(e) => done == Err::<(), ErrorCode>(e) && *final(ctx) == *old(ctx),
        },
{
    if ctx.curve.is_some() || ctx.vault.is_some() {
        return Err(ErrorCode::AlreadyInitialized);
    }
    if !ctx.creator_token_account.mint.same(&ctx.mint) {
        return Err(ErrorCode::AssetMismatch);
    }
    if ctx.creator_token_account.amount < real_token_reserves {
        return Err(ErrorCode::InsufficientBalance);
    }
    ctx.curve = Some(
        BondingCurve {
            creator: ctx.creator,
            mint: ctx.mint,
            virtual_sol_reserves,
            virtual_token_reserves,
            real_token_reserves,
            bump: ctx.bump,
        },
    );
    ctx.vault = Some(
        CustodyAccount {
            mint: ctx.mint,
            authority: CustodyAuthority { asset: ctx.mint, tag: ctx.bump },
            amount: real_token_reserves,
        },
    );
    ctx.creator_token_account.amount = ctx.creator_token_account.amount - real_token_reserves;
    Ok(())
}

/// Buys `amount` tokens from the curve. The purchase is priced first; then
/// the payment from the buyer to the creator and the delivery from custody to
/// the buyer are both checked; only then are the reserves and the four
/// balances written. A refused call leaves the accounts as they were.
pub fn buy_tokens(ctx: &mut BuyTokens, amount: u64) -> (done: Result<(), ErrorCode>)
    requires
        old(ctx).wf(),
    ensures
        match old(ctx).outcome(amount) {
            Ok(next) => done == Ok::<(), ErrorCode>(()) && *final(ctx) == next,
            Err(e) => done == Err::<(), ErrorCode>(e) && *final(ctx) == *old(ctx),
        },
        done is Err ==> *final(ctx) == *old(ctx),
        final(ctx).wf(),
{
    let quote = match ctx.curve.quote_buy(amount) {
        Ok(quote) => quote,
        Err(e) => {
            return Err(e);
        },
    };
    if ctx.buyer.lamports < quote.sol_cost {
        return Err(ErrorCode::InsufficientBalance);
    }
    if ctx.global_wallet.lamports > u64::MAX - quote.sol_cost {
        return Err(ErrorCode::MathOverflow);
    }
    let authority = CustodyAuthority { asset: ctx.curve.mint, tag: ctx.curve.bump };
    if !ctx.vault.authority.same(&authority) {
        return Err(ErrorCode::CustodyAuthorizationFailure);
    }
    if !ctx.mint.same(&ctx.curve.mint) || !ctx.vault.mint.same(&ctx.mint)
        || !ctx.buyer_token_account.mint.same(&ctx.mint) {
        return Err(ErrorCode::AssetMismatch);
    }
    if ctx.vault.amount < amount {
        return Err(ErrorCode::InsufficientBalance);
    }
    if ctx.buyer_token_account.amount > u64::MAX - amount {
        return Err(ErrorCode::MathOverflow);
    }
    ctx.curve.virtual_sol_reserves = quote.new_virtual_sol_reserves;
    ctx.curve.virtual_token_reserves = quote.new_virtual_token_reserves;
    ctx.curve.real_token_reserves = quote.new_real_token_reserves;
    ctx.buyer.lamports = ctx.buyer.lamports - quote.sol_cost;
    ctx.global_wallet.lamports = ctx.global_wallet.lamports + quote.sol_cost;
    ctx.vault.amount = ctx.vault.amount - amount;
    ctx.buyer_token_account.amount = ctx.buyer_token_account.amount + amount;
    Ok(())
}

} // verus!
