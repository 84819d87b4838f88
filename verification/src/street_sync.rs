//! Listings of a single unit held in escrow: listing it, buying it for a
//! price of which a fixed share goes to a treasury, and taking it back.

use vstd::prelude::*;
use crate::accounts::{bytes_of, Address, TokenHolding, Wallet};
use crate::error::ErrorCode;
use crate::payment::{system_transfer, TransferInstruction};

verus! {

/// The record of one listing.
#[derive(Clone, Copy, Debug, PartialEq, Eq)]
pub struct ListingAccount {
    pub seller: Address,
    pub mint: Address,
    pub price: u64,
    /// The tag of the authority over the escrow holding.
    pub bump: u8,
}

/// The accounts of a call that lists a unit.
#[derive(Clone, Copy, Debug, PartialEq, Eq)]
pub struct ListNft {
    pub seller: Address,
    pub mint: Address,
    /// The seller's own holding, from which the unit comes.
    pub seller_token_account: TokenHolding,
    /// The place of the listing: empty until the unit is listed.
    pub listing_account: Option<ListingAccount>,
    /// The place of the escrow holding: empty until the unit is listed.
    pub escrow_token_account: Option<TokenHolding>,
    /// The tag under which the escrow authority is made.
    pub bump: u8,
}

/// The accounts of a purchase of a listed unit.
#[derive(Clone, Copy, Debug, PartialEq, Eq)]
pub struct BuyNft {
    pub buyer: Wallet,
    pub seller: Wallet,
    pub treasury: Wallet,
    pub mint: Address,
    pub listing_account: Option<ListingAccount>,
    pub escrow_token_account: Option<TokenHolding>,
    pub buyer_token_account: TokenHolding,
}

/// The accounts of a call that takes a listed unit back.
#[derive(Clone, Copy, Debug, PartialEq, Eq)]
pub struct CancelListing {
    pub seller: Address,
    pub mint: Address,
    pub listing_account: Option<ListingAccount>,
    pub escrow_token_account: Option<TokenHolding>,
    pub seller_token_account: TokenHolding,
}

/// The treasury's share of a price: two hundredths, rounded down.
pub open spec fn spec_fee(price: u64) -> int {
    (price * 2) / 100
}

/// The fixed label under which every escrow authority is made: the bytes of
/// the word "listing".
pub open spec fn listing_label() -> Seq<u8> {
    seq![108u8, 105u8, 115u8, 116u8, 105u8, 110u8, 103u8]
}

/// A listing is open where its record and its escrow holding both exist, are
/// of the asset named, and escrow holds the one unit.
pub open spec fn open_listing(
    listing: Option<ListingAccount>,
    escrow: Option<TokenHolding>,
    seller: Address,
    mint: Address,
) -> bool {
    &&& listing is Some
    &&& escrow is Some
    &&& listing.unwrap().seller == seller
    &&& listing.unwrap().mint == mint
    &&& escrow.unwrap().mint == mint
    &&& escrow.unwrap().amount == 1
}

/// Splits a price into the treasury's fee and what the seller receives. The
/// doubling is done in 128 bits, so every price has its exact fee.
pub fn split_price(price: u64) -> (shares: (u64, u64))
    ensures
        shares.0 == spec_fee(price),
        shares.0 + shares.1 == price,
{
    let doubled: u128 = price as u128 * 2;
    let fee: u64 = (doubled / 100) as u64;
    (fee, price - fee)
}

impl ListingAccount {
    /// The four seeds from which the escrow authority is derived, in order:
    /// the fixed label, the asset's identity, the seller's identity, and the
    /// tag as a single byte.
    pub fn signer_seeds(&self) -> (seeds: Vec<Vec<u8>>)
        ensures
            seeds@.len() == 4,
            seeds@[0]@ == listing_label(),
            seeds@[1]@ == self.mint.bytes@,
            seeds@[2]@ == self.seller.bytes@,
            seeds@[3]@ == seq![self.bump],
    {
        let label: [u8; 7] = [108, 105, 115, 116, 105, 110, 103];
        let tag: [u8; 1] = [self.bump];
        let first = bytes_of(label.as_slice());
        let second = bytes_of(self.mint.bytes.as_slice());
        let third = bytes_of(self.seller.bytes.as_slice());
        let fourth = bytes_of(tag.as_slice());
        assert(first@ =~= listing_label());
        assert(fourth@ =~= seq![self.bump]);
        let mut seeds: Vec<Vec<u8>> = Vec::new();
        seeds.push(first);
        seeds.push(second);
        seeds.push(third);
        seeds.push(fourth);
        seeds
    }
}

impl ListNft {
    /// What listing does to the accounts, or why it is refused. The places of
    /// listing and escrow must both be empty, and the seller's holding must
    /// be of the asset and hold a unit.
    pub open spec fn outcome(&self, price: u64) -> Result<ListNft, ErrorCode> {
        if self.listing_account is Some || self.escrow_token_account is Some {
            Err(ErrorCode::AlreadyInitialized)
        } else if self.seller_token_account.mint != self.mint {
            Err(ErrorCode::AssetMismatch)
        } else if self.seller_token_account.amount < 1 {
            Err(ErrorCode::InsufficientBalance)
        } else {
            Ok(
                ListNft {
                    seller: self.seller,
                    mint: self.mint,
                    seller_token_account: TokenHolding {
                        mint: self.mint,
                        amount: (self.seller_token_account.amount - 1) as u64,
                    },
                    listing_account: Some(
                        ListingAccount {
                            seller: self.seller,
                            mint: self.mint,
                            price,
                            bump: self.bump,
                        },
                    ),
                    escrow_token_account: Some(TokenHolding { mint: self.mint, amount: 1 }),
                    bump: self.bump,
                },
            )
        }
    }
}

impl BuyNft {
    /// The listing is open, and the seller's wallet is that of the listing.
    pub open spec fn wf(&self) -> bool {
        open_listing(self.listing_account, self.escrow_token_account, self.seller.key, self.mint)
    }

    /// The price of the listing.
    pub open spec fn price(&self) -> u64 {
        self.listing_account.unwrap().price
    }

    /// The two instructions that pay for the listed unit: first the buyer
    /// pays the seller the price less the fee, then the buyer pays the
    /// treasury the fee.
    pub fn payment_instructions(&self) -> (pair: (TransferInstruction, TransferInstruction))
        requires
            self.wf(),
        ensures
            pair.0.is_transfer(
                self.buyer.key,
                self.seller.key,
                (self.price() - spec_fee(self.price())) as u64,
            ),
            pair.1.is_transfer(self.buyer.key, self.treasury.key, spec_fee(self.price()) as u64),
    {
        let (fee, seller_receive) = split_price(self.listing_account.unwrap().price);
        let to_seller = system_transfer(&self.buyer.key, &self.seller.key, seller_receive);
        let to_treasury = system_transfer(&self.buyer.key, &self.treasury.key, fee);
        (to_seller, to_treasury)
    }

    /// What the purchase does to the accounts, or why it is refused. The
    /// buyer must cover the whole price, no credited balance may leave 64
    /// bits, and the receiving holding must be of the asset.
    pub open spec fn outcome(&self) -> Result<BuyNft, ErrorCode> {
        if self.buyer.lamports < self.price() {
            Err(ErrorCode::InsufficientBalance)
        } else if self.seller.lamports + (self.price() - spec_fee(self.price())) > u64::MAX
            || self.treasury.lamports + spec_fee(self.price()) > u64::MAX {
            Err(ErrorCode::MathOverflow)
        } else if self.buyer_token_account.mint != self.mint {
            Err(ErrorCode::AssetMismatch)
        } else if self.buyer_token_account.amount + 1 > u64::MAX {
            Err(ErrorCode::MathOverflow)
        } else {
            Ok(
                BuyNft {
                    buyer: Wallet {
                        key: self.buyer.key,
                        lamports: (self.buyer.lamports - self.price()) as u64,
                    },
                    seller: Wallet {
                        key: self.seller.key,
                        lamports: (self.seller.lamports + (self.price() - spec_fee(
                            self.price(),
                        ))) as u64,
                    },
                    treasury: Wallet {
                        key: self.treasury.key,
                        lamports: (self.treasury.lamports + spec_fee(self.price())) as u64,
                    },
                    mint: self.mint,
                    listing_account: None,
                    escrow_token_account: None,
                    buyer_token_account: TokenHolding {
                        mint: self.mint,
                        amount: (self.buyer_token_account.amount + 1) as u64,
                    },
                },
            )
        }
    }
}

impl CancelListing {
    /// The listing is open and belongs to the seller.
    pub open spec fn wf(&self) -> bool {
        open_listing(self.listing_account, self.escrow_token_account, self.seller, self.mint)
    }

    /// What taking the unit back does to the accounts, or why it is refused.
    pub open spec fn outcome(&self) -> Result<CancelListing, ErrorCode> {
        if self.seller_token_account.mint != self.mint {
            Err(ErrorCode::AssetMismatch)
        } else if self.seller_token_account.amount + 1 > u64::MAX {
            Err(ErrorCode::MathOverflow)
        } else {
            Ok(
                CancelListing {
                    seller: self.seller,
                    mint: self.mint,
                    listing_account: None,
                    escrow_token_account: None,
                    seller_token_account: TokenHolding {
                        mint: self.mint,
                        amount: (self.seller_token_account.amount + 1) as u64,
                    },
                },
            )
        }
    }
}

/// Lists a unit at `price`: makes the listing's record, makes the escrow
/// holding, and moves one unit from the seller's holding into escrow. A
/// refused call leaves the accounts as they were.
pub fn list_nft(ctx: &mut ListNft, price: u64) -> (done: Result<(), ErrorCode>)
    ensures
        match old(ctx).outcome(price) {
            Ok(next) => done == Ok::<(), ErrorCode>(()) && *final(ctx) == next,
            Err(e) => done == Err::<(), ErrorCode>(e) && *final(ctx) == *old(ctx),
        },
        done is Ok ==> open_listing(
            final(ctx).listing_account,
            final(ctx).escrow_token_account,
            final(ctx).seller,
            final(ctx).mint,
        ),
{
    if ctx.listing_account.is_some() || ctx.escrow_token_account.is_some() {
        return Err(ErrorCode::AlreadyInitialized);
    }
    if !ctx.seller_token_account.mint.same(&ctx.mint) {
        return Err(ErrorCode::AssetMismatch);
    }
    if ctx.seller_token_account.amount < 1 {
        return Err(ErrorCode::InsufficientBalance);
    }
    ctx.listing_account = Some(
        ListingAccount { seller: ctx.seller, mint: ctx.mint, price, bump: ctx.bump },
    );
    ctx.escrow_token_account = Some(TokenHolding { mint: ctx.mint, amount: 1 });
    ctx.seller_token_account.amount = ctx.seller_token_account.amount - 1;
    Ok(())
}

/// Buys the listed unit: the buyer pays the price, of which the fee goes to
/// the treasury and the rest to the seller; the unit goes from escrow to the
/// buyer; escrow and listing are closed. A refused call leaves the accounts
/// as they were.
pub fn buy_nft(ctx: &mut BuyNft) -> (done: Result<(), ErrorCode>)
    requires
        old(ctx).wf(),
    ensures
        match old(ctx).outcome() {
            Ok(next) => done == Ok::<(), ErrorCode>(()) && *final(ctx) == next,
            Err(e) => done == Err::<(), ErrorCode>(e) && *final(ctx) == *old(ctx),
        },
{
    let price: u64 = ctx.listing_account.unwrap().price;
    let (fee, seller_receive) = split_price(price);
    if ctx.buyer.lamports < price {
        return Err(ErrorCode::InsufficientBalance);
    }
    if ctx.seller.lamports > u64::MAX - seller_receive || ctx.treasury.lamports > u64::MAX - fee {
        return Err(ErrorCode::MathOverflow);
    }
    if !ctx.buyer_token_account.mint.same(&ctx.mint) {
        return Err(ErrorCode::AssetMismatch);
    }
    if ctx.buyer_token_account.amount == u64::MAX {
        return Err(ErrorCode::MathOverflow);
    }
    ctx.buyer.lamports = ctx.buyer.lamports - price;
    ctx.seller.lamports = ctx.seller.lamports + seller_receive;
    ctx.treasury.lamports = ctx.treasury.lamports + fee;
    ctx.buyer_token_account.amount = ctx.buyer_token_account.amount + 1;
    ctx.escrow_token_account = None;
    ctx.listing_account = None;
    Ok(())
}

/// Takes the listed unit back: the unit goes from escrow to the seller's
/// holding; escrow and listing are closed. A refused call leaves the accounts
/// as they were.
pub fn cancel_listing(ctx: &mut CancelListing) -> (done: Result<(), ErrorCode>)
    requires
        old(ctx).wf(),
    ensures
        match old(ctx).outcome() {
            Ok(next) => done == Ok::<(), ErrorCode>(()) && *final(ctx) == next,
            Err(e) => done == Err::<(), ErrorCode>(e) && *final(ctx) == *old(ctx),
        },
{
    if !ctx.seller_token_account.mint.same(&ctx.mint) {
        return Err(ErrorCode::AssetMismatch);
    }
    if ctx.seller_token_account.amount == u64::MAX {
        return Err(ErrorCode::MathOverflow);
    }
    ctx.seller_token_account.amount = ctx.seller_token_account.amount + 1;
    ctx.escrow_token_account = None;
    ctx.listing_account = None;
    Ok(())
}

} // verus!
