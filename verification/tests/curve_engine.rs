use launchpad::accounts::{Address, CustodyAccount, CustodyAuthority, TokenHolding, Wallet};
use launchpad::curve::{BondingCurve, BuyQuote};
use launchpad::engine::{buy_tokens, initialize_curve, BuyTokens, InitializeCurve};
use launchpad::error::ErrorCode;
use launchpad::payment::AccountRef;

fn addr(tag: u8) -> Address {
    Address { bytes: [tag; 32] }
}

fn curve(sol: u64, token: u64, real: u64) -> BondingCurve {
    BondingCurve {
        creator: addr(1),
        mint: addr(2),
        virtual_sol_reserves: sol,
        virtual_token_reserves: token,
        real_token_reserves: real,
        bump: 254,
    }
}

fn seeding(holding: u64) -> InitializeCurve {
    InitializeCurve {
        curve: None,
        creator: addr(1),
        mint: addr(2),
        vault: None,
        creator_token_account: TokenHolding { mint: addr(2), amount: holding },
        bump: 254,
    }
}

fn purchase(c: BondingCurve, buyer_lamports: u64) -> BuyTokens {
    BuyTokens {
        curve: c,
        mint: c.mint,
        vault: CustodyAccount {
            mint: c.mint,
            authority: CustodyAuthority { asset: c.mint, tag: c.bump },
            amount: c.real_token_reserves,
        },
        buyer: Wallet { key: addr(3), lamports: buyer_lamports },
        buyer_token_account: TokenHolding { mint: c.mint, amount: 0 },
        global_wallet: Wallet { key: c.creator, lamports: 5 },
    }
}

#[test]
fn scenario_initialize_then_buy() {
    let mut init = seeding(1_000_000_000_000_000);
    let done = initialize_curve(
        &mut init,
        30_000_000_000,
        1_073_000_000_000_000,
        793_100_000_000_000,
    );
    assert_eq!(done, Ok(()));
    let made = init.curve.unwrap();
    assert_eq!(made, curve(30_000_000_000, 1_073_000_000_000_000, 793_100_000_000_000));
    let vault = init.vault.unwrap();
    assert_eq!(vault.amount, 793_100_000_000_000);
    assert_eq!(vault.mint, addr(2));
    assert_eq!(vault.authority, CustodyAuthority { asset: addr(2), tag: 254 });
    assert_eq!(init.creator_token_account.amount, 206_900_000_000_000);

    let quote = made.quote_buy(1_000_000_000).unwrap();
    let k: u128 = 30_000_000_000u128 * 1_073_000_000_000_000u128;
    assert_eq!(k, 32_190_000_000_000_000_000_000_000u128);
    assert_eq!(quote.new_virtual_token_reserves, 1_072_999_000_000_000);
    assert_eq!(
        quote.new_virtual_sol_reserves as u128,
        k / 1_072_999_000_000_000u128 + 1
    );
    assert_eq!(quote.new_virtual_sol_reserves, 30_000_027_960);
    assert_eq!(quote.sol_cost, 27_960);
    assert!(quote.sol_cost > 0);
    assert!(quote.sol_cost < 30_000_000_000 / 100);
    assert_eq!(quote.new_real_token_reserves, 793_099_000_000_000);

    let mut ctx = BuyTokens {
        curve: made,
        mint: addr(2),
        vault,
        buyer: Wallet { key: addr(3), lamports: 1_000_000 },
        buyer_token_account: TokenHolding { mint: addr(2), amount: 7 },
        global_wallet: Wallet { key: addr(1), lamports: 10 },
    };
    assert_eq!(buy_tokens(&mut ctx, 1_000_000_000), Ok(()));
    assert_eq!(ctx.curve, curve(30_000_027_960, 1_072_999_000_000_000, 793_099_000_000_000));
    assert_eq!(ctx.buyer.lamports, 1_000_000 - 27_960);
    assert_eq!(ctx.global_wallet.lamports, 10 + 27_960);
    assert_eq!(ctx.vault.amount, 793_099_000_000_000);
    assert_eq!(ctx.buyer_token_account.amount, 1_000_000_007);
}

#[test]
fn smaller_buy_on_the_same_curve() {
    let c = curve(30_000_000_000, 1_073_000_000_000_000, 793_100_000_000_000);
    let quote = c.quote_buy(1_000_000).unwrap();
    assert_eq!(
        quote,
        BuyQuote {
            sol_cost: 28,
            new_virtual_sol_reserves: 30_000_000_028,
            new_virtual_token_reserves: 1_072_999_999_000_000,
            new_real_token_reserves: 793_099_999_000_000,
        }
    );
}

#[test]
fn quote_rounds_against_the_buyer() {
    let c = curve(10, 100, 50);
    let quote = c.quote_buy(50).unwrap();
    assert_eq!(quote.new_virtual_sol_reserves, 21);
    assert_eq!(quote.sol_cost, 11);
    assert_eq!(quote.new_virtual_token_reserves, 50);
    assert_eq!(quote.new_real_token_reserves, 0);
    assert_eq!(c, curve(10, 100, 50));
}

#[test]
fn zero_amount_costs_the_rounding_unit() {
    let c = curve(10, 100, 50);
    let quote = c.quote_buy(0).unwrap();
    assert_eq!(
        quote,
        BuyQuote {
            sol_cost: 1,
            new_virtual_sol_reserves: 11,
            new_virtual_token_reserves: 100,
            new_real_token_reserves: 50,
        }
    );
}

#[test]
fn zero_sol_reserve_becomes_positive() {
    let c = curve(0, 100, 50);
    let quote = c.quote_buy(10).unwrap();
    assert_eq!(quote.new_virtual_sol_reserves, 1);
    assert_eq!(quote.new_virtual_token_reserves, 90);
    assert_eq!(quote.sol_cost, 1);
}

#[test]
fn stock_boundary_whole_virtual_reserve_fails() {
    let c = curve(10, 100, 100);
    assert_eq!(c.quote_buy(100), Err(ErrorCode::InsufficientStock));
    assert_eq!(c.quote_buy(101), Err(ErrorCode::InsufficientStock));
    let mut ctx = purchase(c, u64::MAX);
    let before = ctx;
    assert_eq!(buy_tokens(&mut ctx, 100), Err(ErrorCode::InsufficientStock));
    assert_eq!(ctx, before);
}

#[test]
fn stock_boundary_one_below_virtual_reserve_succeeds() {
    let c = curve(10, 100, 99);
    let mut ctx = purchase(c, 1_000);
    assert_eq!(buy_tokens(&mut ctx, 99), Ok(()));
    assert_eq!(ctx.curve, curve(1001, 1, 0));
    assert_eq!(ctx.buyer.lamports, 9);
    assert_eq!(ctx.global_wallet.lamports, 996);
    assert_eq!(ctx.vault.amount, 0);
    assert_eq!(ctx.buyer_token_account.amount, 99);
}

#[test]
fn empty_virtual_reserve_refuses_every_amount() {
    let c = curve(10, 0, 10);
    assert_eq!(c.quote_buy(0), Err(ErrorCode::InsufficientStock));
    assert_eq!(c.quote_buy(1), Err(ErrorCode::InsufficientStock));
}

#[test]
fn real_reserve_short_is_insufficient_stock() {
    let c = curve(10, 100, 50);
    assert_eq!(c.quote_buy(51), Err(ErrorCode::InsufficientStock));
    assert!(c.quote_buy(50).is_ok());
}

#[test]
fn overflow_boundary_near_max_fails_closed() {
    let c = curve(u64::MAX, u64::MAX, u64::MAX);
    assert_eq!(c.quote_buy(1), Err(ErrorCode::MathOverflow));
    let mut ctx = purchase(c, u64::MAX);
    let before = ctx;
    assert_eq!(buy_tokens(&mut ctx, 1), Err(ErrorCode::MathOverflow));
    assert_eq!(ctx, before);
    let near = curve(u64::MAX - 1, u64::MAX - 1, u64::MAX);
    assert_eq!(near.quote_buy(5), Err(ErrorCode::MathOverflow));
}

#[test]
fn overflow_boundary_is_exact() {
    let fits = curve((1u64 << 63) - 1, 2, 1);
    assert_eq!(
        fits.quote_buy(1),
        Ok(BuyQuote {
            sol_cost: 1u64 << 63,
            new_virtual_sol_reserves: u64::MAX,
            new_virtual_token_reserves: 1,
            new_real_token_reserves: 0,
        })
    );
    let over = curve(1u64 << 63, 2, 1);
    assert_eq!(over.quote_buy(1), Err(ErrorCode::MathOverflow));
}

#[test]
fn overflow_is_reported_before_real_stock() {
    let c = curve(u64::MAX, u64::MAX, 0);
    assert_eq!(c.quote_buy(1), Err(ErrorCode::MathOverflow));
}

#[test]
fn failed_currency_leg_leaves_reserves_unchanged() {
    let c = curve(10, 100, 50);
    let mut ctx = purchase(c, 10);
    let before = ctx;
    assert_eq!(buy_tokens(&mut ctx, 50), Err(ErrorCode::InsufficientBalance));
    assert_eq!(ctx, before);
    assert_eq!(ctx.curve, c);
    let mut paid = purchase(c, 11);
    assert_eq!(buy_tokens(&mut paid, 50), Ok(()));
    assert_eq!(paid.buyer.lamports, 0);
}

#[test]
fn creator_credit_overflow_is_math_overflow() {
    let c = curve(10, 100, 50);
    let mut ctx = purchase(c, 100);
    ctx.global_wallet.lamports = u64::MAX - 10;
    let before = ctx;
    assert_eq!(buy_tokens(&mut ctx, 50), Err(ErrorCode::MathOverflow));
    assert_eq!(ctx, before);
}

#[test]
fn foreign_custody_authority_is_refused() {
    let c = curve(10, 100, 50);
    let mut ctx = purchase(c, 100);
    ctx.vault.authority = CustodyAuthority { asset: c.mint, tag: 253 };
    let before = ctx;
    assert_eq!(buy_tokens(&mut ctx, 50), Err(ErrorCode::CustodyAuthorizationFailure));
    assert_eq!(ctx, before);
    ctx.vault.authority = CustodyAuthority { asset: addr(9), tag: 254 };
    assert_eq!(buy_tokens(&mut ctx, 50), Err(ErrorCode::CustodyAuthorizationFailure));
}

#[test]
fn buy_asset_mismatch() {
    let c = curve(10, 100, 50);
    let mut wrong_receiver = purchase(c, 100);
    wrong_receiver.buyer_token_account.mint = addr(7);
    let before = wrong_receiver;
    assert_eq!(buy_tokens(&mut wrong_receiver, 50), Err(ErrorCode::AssetMismatch));
    assert_eq!(wrong_receiver, before);
    let mut wrong_vault = purchase(c, 100);
    wrong_vault.vault.mint = addr(7);
    assert_eq!(buy_tokens(&mut wrong_vault, 50), Err(ErrorCode::AssetMismatch));
    let mut wrong_asset = purchase(c, 100);
    wrong_asset.mint = addr(7);
    assert_eq!(buy_tokens(&mut wrong_asset, 50), Err(ErrorCode::AssetMismatch));
}

#[test]
fn custody_short_of_tokens_is_insufficient_balance() {
    let c = curve(10, 100, 50);
    let mut ctx = purchase(c, 100);
    ctx.vault.amount = 49;
    let before = ctx;
    assert_eq!(buy_tokens(&mut ctx, 50), Err(ErrorCode::InsufficientBalance));
    assert_eq!(ctx, before);
}

#[test]
fn receiver_overflow_is_math_overflow() {
    let c = curve(10, 100, 50);
    let mut ctx = purchase(c, 100);
    ctx.buyer_token_account.amount = u64::MAX - 49;
    let before = ctx;
    assert_eq!(buy_tokens(&mut ctx, 50), Err(ErrorCode::MathOverflow));
    assert_eq!(ctx, before);
}

#[test]
fn run_of_buys_keeps_the_invariants() {
    let start = curve(1000, 1000, 600);
    let mut ctx = purchase(start, 10_000);
    let amounts: [u64; 3] = [100, 200, 300];
    let expected: [(u64, u64, u64); 3] = [(1112, 900, 500), (1430, 700, 300), (2503, 400, 0)];
    let mut sold: u64 = 0;
    for i in 0..3 {
        let product_before =
            ctx.curve.virtual_sol_reserves as u128 * ctx.curve.virtual_token_reserves as u128;
        assert_eq!(buy_tokens(&mut ctx, amounts[i]), Ok(()));
        sold += amounts[i];
        let product_after =
            ctx.curve.virtual_sol_reserves as u128 * ctx.curve.virtual_token_reserves as u128;
        assert!(product_after >= product_before);
        assert!(ctx.curve.virtual_sol_reserves > 0);
        assert!(ctx.curve.virtual_token_reserves > 0);
        assert_eq!(ctx.curve.real_token_reserves, 600 - sold);
        assert_eq!(ctx.vault.amount, ctx.curve.real_token_reserves);
        assert_eq!(
            (
                ctx.curve.virtual_sol_reserves,
                ctx.curve.virtual_token_reserves,
                ctx.curve.real_token_reserves
            ),
            expected[i]
        );
    }
    assert_eq!(ctx.buyer.lamports, 10_000 - 112 - 318 - 1073);
    assert_eq!(ctx.global_wallet.lamports, 5 + 112 + 318 + 1073);
    assert_eq!(ctx.buyer_token_account.amount, 600);
    assert_eq!(ctx.curve.creator, start.creator);
    assert_eq!(ctx.curve.mint, start.mint);
    assert_eq!(ctx.curve.bump, start.bump);
    assert_eq!(buy_tokens(&mut ctx, 1), Err(ErrorCode::InsufficientStock));
}

#[test]
fn initialize_twice_is_refused() {
    let mut ctx = seeding(100);
    assert_eq!(initialize_curve(&mut ctx, 10, 100, 50), Ok(()));
    let before = ctx;
    assert_eq!(initialize_curve(&mut ctx, 20, 200, 10), Err(ErrorCode::AlreadyInitialized));
    assert_eq!(ctx, before);
    assert_eq!(ctx.curve, Some(curve(10, 100, 50)));
}

#[test]
fn initialize_over_existing_custody_is_refused() {
    let mut ctx = seeding(100);
    ctx.vault = Some(CustodyAccount {
        mint: addr(2),
        authority: CustodyAuthority { asset: addr(2), tag: 254 },
        amount: 0,
    });
    let before = ctx;
    assert_eq!(initialize_curve(&mut ctx, 10, 100, 50), Err(ErrorCode::AlreadyInitialized));
    assert_eq!(ctx, before);
}

#[test]
fn initialize_with_short_holding_makes_no_curve() {
    let mut ctx = seeding(49);
    let before = ctx;
    assert_eq!(initialize_curve(&mut ctx, 10, 100, 50), Err(ErrorCode::InsufficientBalance));
    assert_eq!(ctx, before);
    assert_eq!(ctx.curve, None);
    assert_eq!(ctx.vault, None);
}

#[test]
fn initialize_with_foreign_holding_makes_no_curve() {
    let mut ctx = seeding(100);
    ctx.creator_token_account.mint = addr(8);
    let before = ctx;
    assert_eq!(initialize_curve(&mut ctx, 10, 100, 50), Err(ErrorCode::AssetMismatch));
    assert_eq!(ctx, before);
}

#[test]
fn initialize_moves_the_whole_holding() {
    let mut ctx = seeding(50);
    assert_eq!(initialize_curve(&mut ctx, 10, 100, 50), Ok(()));
    assert_eq!(ctx.creator_token_account, TokenHolding { mint: addr(2), amount: 0 });
    assert_eq!(ctx.vault.unwrap().amount, 50);
    assert_eq!(ctx.creator, addr(1));
    assert_eq!(ctx.mint, addr(2));
    assert_eq!(ctx.bump, 254);
}

#[test]
fn custody_seeds_are_label_asset_tag() {
    let authority = CustodyAuthority { asset: addr(2), tag: 254 };
    let seeds = authority.signer_seeds();
    assert_eq!(seeds.len(), 3);
    assert_eq!(seeds[0], b"bonding_curve".to_vec());
    assert_eq!(seeds[1], vec![2u8; 32]);
    assert_eq!(seeds[2], vec![254u8]);
}

#[test]
fn addresses_compare_byte_for_byte() {
    let a = addr(4);
    let mut b = addr(4);
    assert!(a.same(&b));
    b.bytes[31] = 5;
    assert!(!a.same(&b));
    b.bytes[31] = 4;
    b.bytes[0] = 0;
    assert!(!a.same(&b));
    let x = CustodyAuthority { asset: a, tag: 1 };
    assert!(x.same(&CustodyAuthority { asset: a, tag: 1 }));
    assert!(!x.same(&CustodyAuthority { asset: a, tag: 2 }));
    assert!(!x.same(&CustodyAuthority { asset: b, tag: 1 }));
}

#[test]
fn error_messages() {
    assert_eq!(ErrorCode::MathOverflow.message(), "Math Overflow");
    assert_eq!(ErrorCode::InsufficientStock.message(), "Insufficient Stock");
    assert_eq!(ErrorCode::AlreadyInitialized.message(), "Already Initialized");
    assert_eq!(ErrorCode::AssetMismatch.message(), "Asset Mismatch");
    assert_eq!(ErrorCode::InsufficientBalance.message(), "Insufficient Balance");
    assert_eq!(
        ErrorCode::CustodyAuthorizationFailure.message(),
        "Custody Authorization Failure"
    );
}

#[test]
fn payment_goes_from_buyer_to_creator() {
    let c = curve(10, 100, 50);
    let ctx = purchase(c, 100);
    let quote = c.quote_buy(50).unwrap();
    let ix = ctx.payment_instruction(&quote);
    assert_eq!(ix.program_id, Address { bytes: [0u8; 32] });
    assert_eq!(
        ix.accounts,
        vec![
            AccountRef { key: addr(3), is_signer: true, is_writable: true },
            AccountRef { key: addr(1), is_signer: false, is_writable: true },
        ]
    );
    assert_eq!(ix.data, vec![2u8, 0, 0, 0, 11, 0, 0, 0, 0, 0, 0, 0]);
}

#[test]
fn payment_data_carries_the_cost() {
    let c = curve(30_000_000_000, 1_073_000_000_000_000, 793_100_000_000_000);
    let ctx = purchase(c, 100_000);
    let quote = c.quote_buy(1_000_000_000).unwrap();
    let ix = ctx.payment_instruction(&quote);
    let mut expected: Vec<u8> = vec![2, 0, 0, 0];
    expected.extend_from_slice(&27_960u64.to_le_bytes());
    assert_eq!(ix.data, expected);
    assert_eq!(ix.accounts.len(), 2);
}
