use escrow::error::ErrorCode;
use escrow::instructions::make_offer;
use escrow::instructions::refund_offer;
use escrow::instructions::take_offer;
use escrow::instructions::MakeOffer;
use escrow::instructions::RefundOffer;
use escrow::instructions::TakeOffer;
use escrow::shared::close_token_account;
use escrow::shared::transfer_tokens;
use escrow::state::offer_address;
use escrow::state::Identity;
use escrow::state::SignerSeeds;
use escrow::state::TokenAccount;
use escrow::store::OfferStore;

fn ident(n: u64) -> Identity {
    Identity { w0: n, w1: 0, w2: 0, w3: 0 }
}

fn maker_accounts(maker: Identity, mint_a: Identity, mint_b: Identity, balance: u64) -> MakeOffer {
    MakeOffer {
        maker,
        token_mint_a: mint_a,
        token_mint_b: mint_b,
        maker_token_account_a: TokenAccount { owner: maker, mint: mint_a, amount: balance },
    }
}

#[test]
fn make_offer_succeeds_with_valid_inputs() {
    let maker = ident(1);
    let mint_a = ident(10);
    let mint_b = ident(11);
    let mut store = OfferStore::new();
    let mut accounts = maker_accounts(maker, mint_a, mint_b, 150);

    let result = make_offer(&mut store, &mut accounts, 42, 100, 50, 254);
    assert_eq!(result, Ok(()));
    assert_eq!(accounts.maker_token_account_a.amount, 50);

    let entry = store.get(42).expect("offer must be readable after make");
    assert_eq!(entry.offer.id, 42);
    assert_eq!(entry.offer.maker, maker);
    assert_eq!(entry.offer.token_mint_a, mint_a);
    assert_eq!(entry.offer.token_mint_b, mint_b);
    assert_eq!(entry.offer.token_b_wanted_amount, 50);
    assert_eq!(entry.offer.bump, 254);
    assert_eq!(entry.vault.amount, 100);
    assert_eq!(entry.vault.mint, mint_a);
    assert_eq!(entry.vault.owner, offer_address(42, 254));
}

#[test]
fn make_offer_rejects_zero_offered_amount() {
    let mut store = OfferStore::new();
    let mut accounts = maker_accounts(ident(1), ident(10), ident(11), 150);

    let result = make_offer(&mut store, &mut accounts, 42, 0, 50, 254);
    assert_eq!(result, Err(ErrorCode::InvalidAmount));
    assert!(store.get(42).is_none());
    assert_eq!(accounts.maker_token_account_a.amount, 150);
}

#[test]
fn make_offer_rejects_zero_wanted_amount() {
    let mut store = OfferStore::new();
    let mut accounts = maker_accounts(ident(1), ident(10), ident(11), 150);

    let result = make_offer(&mut store, &mut accounts, 42, 100, 0, 254);
    assert_eq!(result, Err(ErrorCode::InvalidAmount));
    assert!(store.get(42).is_none());
    assert_eq!(accounts.maker_token_account_a.amount, 150);
}

#[test]
fn make_offer_rejects_matching_mints() {
    let mint = ident(10);
    let mut store = OfferStore::new();
    let mut accounts = maker_accounts(ident(1), mint, mint, 150);

    let result = make_offer(&mut store, &mut accounts, 42, 100, 50, 254);
    assert_eq!(result, Err(ErrorCode::InvalidTokenMint));
    assert!(store.get(42).is_none());
    assert_eq!(accounts.maker_token_account_a.amount, 150);
}

#[test]
fn make_offer_rejects_insufficient_maker_balance() {
    let mut store = OfferStore::new();
    let mut accounts = maker_accounts(ident(1), ident(10), ident(11), 99);

    let result = make_offer(&mut store, &mut accounts, 42, 100, 50, 254);
    assert_eq!(result, Err(ErrorCode::InsufficientMakerBalance));
    assert!(store.get(42).is_none());
    assert_eq!(accounts.maker_token_account_a.amount, 99);
}

#[test]
fn take_offer_settles_swap() {
    let maker = ident(1);
    let taker = ident(2);
    let mint_a = ident(10);
    let mint_b = ident(11);
    let mut store = OfferStore::new();
    let mut accounts = maker_accounts(maker, mint_a, mint_b, 100);
    assert_eq!(make_offer(&mut store, &mut accounts, 1, 100, 50, 254), Ok(()));

    let mut take_accounts = TakeOffer {
        taker,
        taker_token_account_a: TokenAccount { owner: taker, mint: mint_a, amount: 0 },
        taker_token_account_b: TokenAccount { owner: taker, mint: mint_b, amount: 50 },
        maker_token_account_b: TokenAccount { owner: maker, mint: mint_b, amount: 7 },
    };
    let result = take_offer(&mut store, &mut take_accounts, 1);
    assert_eq!(result, Ok(()));
    assert_eq!(take_accounts.taker_token_account_a.amount, 100);
    assert_eq!(take_accounts.taker_token_account_b.amount, 0);
    assert_eq!(take_accounts.maker_token_account_b.amount, 57);
    assert!(store.get(1).is_none());
}

#[test]
fn take_offer_fails_once_offer_is_taken() {
    let maker = ident(1);
    let taker = ident(2);
    let mint_a = ident(10);
    let mint_b = ident(11);
    let mut store = OfferStore::new();
    let mut accounts = maker_accounts(maker, mint_a, mint_b, 100);
    assert_eq!(make_offer(&mut store, &mut accounts, 1, 100, 50, 254), Ok(()));

    let mut take_accounts = TakeOffer {
        taker,
        taker_token_account_a: TokenAccount { owner: taker, mint: mint_a, amount: 0 },
        taker_token_account_b: TokenAccount { owner: taker, mint: mint_b, amount: 80 },
        maker_token_account_b: TokenAccount { owner: maker, mint: mint_b, amount: 0 },
    };
    assert_eq!(take_offer(&mut store, &mut take_accounts, 1), Ok(()));

    let second = take_offer(&mut store, &mut take_accounts, 1);
    assert_eq!(second, Err(ErrorCode::OfferNotFound));
    assert_eq!(take_accounts.taker_token_account_a.amount, 100);
    assert_eq!(take_accounts.taker_token_account_b.amount, 30);

    let mut refund_accounts = RefundOffer {
        maker,
        maker_token_account_a: accounts.maker_token_account_a,
    };
    assert_eq!(
        refund_offer(&mut store, &mut refund_accounts, 1),
        Err(ErrorCode::OfferNotFound)
    );
    assert_eq!(refund_accounts.maker_token_account_a.amount, 0);
}

#[test]
fn take_offer_rejects_insufficient_taker_balance() {
    let maker = ident(1);
    let taker = ident(2);
    let mint_a = ident(10);
    let mint_b = ident(11);
    let mut store = OfferStore::new();
    let mut accounts = maker_accounts(maker, mint_a, mint_b, 100);
    assert_eq!(make_offer(&mut store, &mut accounts, 1, 100, 50, 254), Ok(()));

    let mut take_accounts = TakeOffer {
        taker,
        taker_token_account_a: TokenAccount { owner: taker, mint: mint_a, amount: 0 },
        taker_token_account_b: TokenAccount { owner: taker, mint: mint_b, amount: 49 },
        maker_token_account_b: TokenAccount { owner: maker, mint: mint_b, amount: 0 },
    };
    let result = take_offer(&mut store, &mut take_accounts, 1);
    assert_eq!(result, Err(ErrorCode::InsufficientTakerBalance));
    assert_eq!(take_accounts.taker_token_account_a.amount, 0);
    assert_eq!(take_accounts.taker_token_account_b.amount, 49);
    assert_eq!(take_accounts.maker_token_account_b.amount, 0);
    assert!(store.get(1).is_some());
}

#[test]
fn take_offer_rejects_overfull_taker_account() {
    let maker = ident(1);
    let taker = ident(2);
    let mint_a = ident(10);
    let mint_b = ident(11);
    let mut store = OfferStore::new();
    let mut accounts = maker_accounts(maker, mint_a, mint_b, 100);
    assert_eq!(make_offer(&mut store, &mut accounts, 1, 100, 50, 254), Ok(()));

    let mut take_accounts = TakeOffer {
        taker,
        taker_token_account_a: TokenAccount { owner: taker, mint: mint_a, amount: u64::MAX },
        taker_token_account_b: TokenAccount { owner: taker, mint: mint_b, amount: 50 },
        maker_token_account_b: TokenAccount { owner: maker, mint: mint_b, amount: 0 },
    };
    let result = take_offer(&mut store, &mut take_accounts, 1);
    assert_eq!(result, Err(ErrorCode::TransferFailed));
    assert!(store.get(1).is_some());
    assert_eq!(take_accounts.taker_token_account_a.amount, u64::MAX);
}

#[test]
fn refund_offer_round_trip_restores_maker_balance() {
    let maker = ident(1);
    let mint_a = ident(10);
    let mint_b = ident(11);
    let mut store = OfferStore::new();
    let mut accounts = maker_accounts(maker, mint_a, mint_b, 130);
    assert_eq!(make_offer(&mut store, &mut accounts, 7, 100, 50, 254), Ok(()));
    assert_eq!(accounts.maker_token_account_a.amount, 30);

    let mut refund_accounts = RefundOffer {
        maker,
        maker_token_account_a: accounts.maker_token_account_a,
    };
    let result = refund_offer(&mut store, &mut refund_accounts, 7);
    assert_eq!(result, Ok(()));
    assert_eq!(refund_accounts.maker_token_account_a.amount, 130);
    assert!(store.get(7).is_none());
}

#[test]
fn refund_offer_rejects_other_identity() {
    let maker = ident(1);
    let other = ident(9);
    let mint_a = ident(10);
    let mint_b = ident(11);
    let mut store = OfferStore::new();
    let mut accounts = maker_accounts(maker, mint_a, mint_b, 100);
    assert_eq!(make_offer(&mut store, &mut accounts, 7, 100, 50, 254), Ok(()));

    let mut intruder_accounts = RefundOffer {
        maker: other,
        maker_token_account_a: TokenAccount { owner: other, mint: mint_a, amount: 5 },
    };
    let result = refund_offer(&mut store, &mut intruder_accounts, 7);
    assert_eq!(result, Err(ErrorCode::InvalidMaker));
    assert_eq!(intruder_accounts.maker_token_account_a.amount, 5);
    assert_eq!(store.get(7).expect("offer must stay open").vault.amount, 100);

    let mut refund_accounts = RefundOffer {
        maker,
        maker_token_account_a: accounts.maker_token_account_a,
    };
    assert_eq!(refund_offer(&mut store, &mut refund_accounts, 7), Ok(()));
    assert_eq!(refund_accounts.maker_token_account_a.amount, 100);
}

#[test]
fn take_offer_fails_once_offer_is_refunded() {
    let maker = ident(1);
    let taker = ident(2);
    let mint_a = ident(10);
    let mint_b = ident(11);
    let mut store = OfferStore::new();
    let mut accounts = maker_accounts(maker, mint_a, mint_b, 100);
    assert_eq!(make_offer(&mut store, &mut accounts, 7, 100, 50, 254), Ok(()));

    let mut refund_accounts = RefundOffer {
        maker,
        maker_token_account_a: accounts.maker_token_account_a,
    };
    assert_eq!(refund_offer(&mut store, &mut refund_accounts, 7), Ok(()));

    let mut take_accounts = TakeOffer {
        taker,
        taker_token_account_a: TokenAccount { owner: taker, mint: mint_a, amount: 0 },
        taker_token_account_b: TokenAccount { owner: taker, mint: mint_b, amount: 50 },
        maker_token_account_b: TokenAccount { owner: maker, mint: mint_b, amount: 0 },
    };
    let result = take_offer(&mut store, &mut take_accounts, 7);
    assert_eq!(result, Err(ErrorCode::OfferNotFound));
    assert_eq!(take_accounts.taker_token_account_b.amount, 50);
}

#[test]
fn refund_offer_rejects_overfull_maker_account() {
    let maker = ident(1);
    let mint_a = ident(10);
    let mint_b = ident(11);
    let mut store = OfferStore::new();
    let mut accounts = maker_accounts(maker, mint_a, mint_b, 100);
    assert_eq!(make_offer(&mut store, &mut accounts, 7, 100, 50, 254), Ok(()));

    let mut refund_accounts = RefundOffer {
        maker,
        maker_token_account_a: TokenAccount { owner: maker, mint: mint_a, amount: u64::MAX },
    };
    let result = refund_offer(&mut store, &mut refund_accounts, 7);
    assert_eq!(result, Err(ErrorCode::FailedRefundTransfer));
    assert!(store.get(7).is_some());
    assert_eq!(refund_accounts.maker_token_account_a.amount, u64::MAX);
}

#[test]
fn transfer_tokens_moves_exactly_the_amount() {
    let owner = ident(1);
    let other = ident(2);
    let mint = ident(10);
    let mut from = TokenAccount { owner, mint, amount: 70 };
    let mut to = TokenAccount { owner: other, mint, amount: 5 };

    let result = transfer_tokens(30, &mut from, &mut to, mint, owner, None);
    assert_eq!(result, Ok(()));
    assert_eq!(from.amount, 40);
    assert_eq!(to.amount, 35);
}

#[test]
fn transfer_tokens_rejects_wrong_authority() {
    let owner = ident(1);
    let other = ident(2);
    let mint = ident(10);
    let mut from = TokenAccount { owner, mint, amount: 70 };
    let mut to = TokenAccount { owner: other, mint, amount: 5 };

    let result = transfer_tokens(30, &mut from, &mut to, mint, other, None);
    assert_eq!(result, Err(ErrorCode::TransferFailed));
    assert_eq!(from.amount, 70);
    assert_eq!(to.amount, 5);
}

#[test]
fn transfer_tokens_rejects_mint_mismatch() {
    let owner = ident(1);
    let mint = ident(10);
    let other_mint = ident(11);
    let mut from = TokenAccount { owner, mint, amount: 70 };
    let mut to = TokenAccount { owner, mint: other_mint, amount: 5 };

    let result = transfer_tokens(30, &mut from, &mut to, mint, owner, None);
    assert_eq!(result, Err(ErrorCode::TransferFailed));
    assert_eq!(from.amount, 70);
    assert_eq!(to.amount, 5);
}

#[test]
fn transfer_tokens_rejects_overflowing_destination() {
    let owner = ident(1);
    let mint = ident(10);
    let mut from = TokenAccount { owner, mint, amount: 70 };
    let mut to = TokenAccount { owner, mint, amount: u64::MAX - 10 };

    let result = transfer_tokens(30, &mut from, &mut to, mint, owner, None);
    assert_eq!(result, Err(ErrorCode::TransferFailed));
    assert_eq!(from.amount, 70);
    assert_eq!(to.amount, u64::MAX - 10);
}

#[test]
fn transfer_tokens_accepts_derived_authority() {
    let mint = ident(10);
    let taker = ident(2);
    let seeds = SignerSeeds { id: 7, bump: 254 };
    let vault_owner = offer_address(7, 254);
    let mut vault = TokenAccount { owner: vault_owner, mint, amount: 100 };
    let mut to = TokenAccount { owner: taker, mint, amount: 0 };

    let result = transfer_tokens(100, &mut vault, &mut to, mint, vault_owner, Some(seeds));
    assert_eq!(result, Ok(()));
    assert_eq!(vault.amount, 0);
    assert_eq!(to.amount, 100);
}

#[test]
fn transfer_tokens_rejects_seeds_of_another_offer() {
    let mint = ident(10);
    let taker = ident(2);
    let wrong_seeds = SignerSeeds { id: 8, bump: 254 };
    let vault_owner = offer_address(7, 254);
    let mut vault = TokenAccount { owner: vault_owner, mint, amount: 100 };
    let mut to = TokenAccount { owner: taker, mint, amount: 0 };

    let result = transfer_tokens(100, &mut vault, &mut to, mint, vault_owner, Some(wrong_seeds));
    assert_eq!(result, Err(ErrorCode::TransferFailed));
    assert_eq!(vault.amount, 100);
}

#[test]
fn close_token_account_requires_zero_balance() {
    let owner = ident(1);
    let mint = ident(10);
    let empty = TokenAccount { owner, mint, amount: 0 };
    assert_eq!(close_token_account(empty, owner, None), Ok(()));

    let funded = TokenAccount { owner, mint, amount: 1 };
    assert_eq!(close_token_account(funded, owner, None), Err(ErrorCode::CloseFailed));
}

#[test]
fn close_token_account_requires_authority() {
    let owner = ident(1);
    let other = ident(2);
    let mint = ident(10);
    let empty = TokenAccount { owner, mint, amount: 0 };
    assert_eq!(close_token_account(empty, other, None), Err(ErrorCode::CloseFailed));
}

#[test]
fn offer_address_is_deterministic_and_distinct() {
    assert_eq!(offer_address(7, 254), offer_address(7, 254));
    assert_ne!(offer_address(7, 254), offer_address(8, 254));
    assert_ne!(offer_address(7, 254), offer_address(7, 253));
}

#[test]
fn make_offer_reports_zero_amount_before_matching_mints() {
    let mint = ident(10);
    let mut store = OfferStore::new();
    let mut accounts = maker_accounts(ident(1), mint, mint, 150);

    let result = make_offer(&mut store, &mut accounts, 42, 0, 0, 254);
    assert_eq!(result, Err(ErrorCode::InvalidAmount));
}

#[test]
fn offers_with_distinct_ids_are_independent() {
    let maker = ident(1);
    let mint_a = ident(10);
    let mint_b = ident(11);
    let mut store = OfferStore::new();
    let mut accounts = maker_accounts(maker, mint_a, mint_b, 300);
    assert_eq!(make_offer(&mut store, &mut accounts, 1, 100, 50, 254), Ok(()));
    assert_eq!(make_offer(&mut store, &mut accounts, 2, 150, 60, 253), Ok(()));
    assert_eq!(accounts.maker_token_account_a.amount, 50);

    let mut refund_accounts = RefundOffer {
        maker,
        maker_token_account_a: accounts.maker_token_account_a,
    };
    assert_eq!(refund_offer(&mut store, &mut refund_accounts, 1), Ok(()));
    assert_eq!(refund_accounts.maker_token_account_a.amount, 150);
    assert!(store.get(1).is_none());
    let survivor = store.get(2).expect("the other offer must stay open");
    assert_eq!(survivor.vault.amount, 150);
    assert_eq!(survivor.offer.token_b_wanted_amount, 60);
}
