use noice_solana::instructions::{
    create_paywall, initialize_user, plan_tip, plan_unlock_paywall, tip, unlock_paywall,
    CreatePaywall, ErrorCode, InitializeUser, Tip, TokenAccount, UnlockPaywall,
};
use noice_solana::key::Pubkey;
use noice_solana::ledger::{Ledger, Paywall, UserProfile};

fn key(b: u8) -> Pubkey {
    Pubkey::new_from_array([b; 32])
}

fn account(address: u8, mint: u8) -> TokenAccount {
    TokenAccount { address: key(address), mint: key(mint) }
}

fn tip_accounts(sender: u8, recipient: u8, sender_mint: u8, recipient_mint: u8) -> Tip {
    Tip {
        sender: key(sender),
        recipient: key(recipient),
        sender_token_account: account(100 + sender, sender_mint),
        recipient_token_account: account(100 + recipient, recipient_mint),
    }
}

fn ledger_with_users(users: &[u8]) -> Ledger {
    let mut l = Ledger::new();
    for u in users {
        assert_eq!(initialize_user(&mut l, &InitializeUser { user: key(*u) }), Ok(()));
    }
    l
}

fn count(l: &Ledger, owner: u8) -> u64 {
    l.profile(&key(owner)).unwrap().interaction_count
}

#[test]
fn initialize_user_twice_fails_second_time() {
    let mut l = Ledger::new();
    let acc = InitializeUser { user: key(1) };
    assert_eq!(initialize_user(&mut l, &acc), Ok(()));
    let p = l.profile(&key(1)).unwrap();
    assert_eq!(p.owner, key(1));
    assert_eq!(p.interaction_count, 0);
    assert_eq!(initialize_user(&mut l, &acc), Err(ErrorCode::AlreadyExists));
    assert_eq!(count(&l, 1), 0);
    assert!(l.profile(&key(2)).is_none());
}

#[test]
fn tip_with_mismatched_mints_is_refused() {
    let cases = [(7u8, 8u8, 7u8), (8, 7, 7), (7, 7, 8), (8, 9, 7), (7, 8, 8)];
    for (s, r, d) in cases {
        let mut l = ledger_with_users(&[2]);
        let acc = tip_accounts(1, 2, s, r);
        assert_eq!(plan_tip(&l, &acc, 5, &key(d)).unwrap_err(), ErrorCode::InvalidTokenMint);
        let res = tip(&mut l, &acc, 5, String::from("like"), key(d), Ok(()), 10);
        assert_eq!(res.unwrap_err(), ErrorCode::InvalidTokenMint);
        assert_eq!(count(&l, 2), 0);
    }
}

#[test]
fn tip_without_profile_is_refused() {
    let mut l = ledger_with_users(&[3]);
    let acc = tip_accounts(1, 2, 7, 7);
    assert_eq!(plan_tip(&l, &acc, 5, &key(7)).unwrap_err(), ErrorCode::AccountNotFound);
    let res = tip(&mut l, &acc, 5, String::from("like"), key(7), Ok(()), 10);
    assert_eq!(res.unwrap_err(), ErrorCode::AccountNotFound);
    assert_eq!(count(&l, 3), 0);
}

#[test]
fn failed_tip_transfer_changes_nothing() {
    let mut l = ledger_with_users(&[2]);
    let acc = tip_accounts(1, 2, 7, 7);
    let res = tip(&mut l, &acc, 500, String::from("like"), key(7), Err(1), 10);
    assert_eq!(res.unwrap_err(), ErrorCode::Transfer(1));
    assert_eq!(count(&l, 2), 0);
}

#[test]
fn tip_plans_transfer_and_emits_event() {
    let mut l = ledger_with_users(&[2]);
    let acc = tip_accounts(1, 2, 7, 7);
    let order = plan_tip(&l, &acc, 0, &key(7)).unwrap();
    assert_eq!(order.from, key(101));
    assert_eq!(order.to, key(102));
    assert_eq!(order.authority, key(1));
    assert_eq!(order.amount, 0);
    let ev = tip(&mut l, &acc, 0, String::from("comment"), key(7), Ok(()), 1_700_000_000).unwrap();
    assert_eq!(ev.sender, key(1));
    assert_eq!(ev.recipient, key(2));
    assert_eq!(ev.token_mint, key(7));
    assert_eq!(ev.amount, 0);
    assert_eq!(ev.action, "comment");
    assert_eq!(ev.timestamp, 1_700_000_000);
    assert_eq!(count(&l, 2), 1);
}

#[test]
fn tips_are_counted_per_profile() {
    let mut l = ledger_with_users(&[2, 3]);
    for _ in 0..5 {
        tip(&mut l, &tip_accounts(1, 2, 7, 7), 3, String::from("a"), key(7), Ok(()), 1).unwrap();
    }
    tip(&mut l, &tip_accounts(1, 3, 7, 7), 3, String::from("b"), key(7), Ok(()), 1).unwrap();
    assert_eq!(count(&l, 2), 5);
    assert_eq!(count(&l, 3), 1);
}

#[test]
fn tip_order_across_profiles_does_not_matter() {
    let mut a = ledger_with_users(&[2, 3]);
    let mut b = ledger_with_users(&[2, 3]);
    tip(&mut a, &tip_accounts(1, 2, 7, 7), 1, String::from("x"), key(7), Ok(()), 1).unwrap();
    tip(&mut a, &tip_accounts(1, 3, 7, 7), 1, String::from("y"), key(7), Ok(()), 1).unwrap();
    tip(&mut b, &tip_accounts(1, 3, 7, 7), 1, String::from("y"), key(7), Ok(()), 1).unwrap();
    tip(&mut b, &tip_accounts(1, 2, 7, 7), 1, String::from("x"), key(7), Ok(()), 1).unwrap();
    assert_eq!(count(&a, 2), count(&b, 2));
    assert_eq!(count(&a, 3), count(&b, 3));
    assert_eq!(count(&a, 2), 1);
}

#[test]
fn tip_on_full_counter_overflows() {
    let mut l = Ledger::new();
    assert!(l.load_profile(UserProfile { owner: key(2), interaction_count: u64::MAX }));
    let res = tip(&mut l, &tip_accounts(1, 2, 7, 7), 1, String::from("x"), key(7), Ok(()), 1);
    assert_eq!(res.unwrap_err(), ErrorCode::ArithmeticOverflow);
    assert_eq!(count(&l, 2), u64::MAX);
}

#[test]
fn load_profile_refuses_taken_address() {
    let mut l = ledger_with_users(&[2]);
    assert!(!l.load_profile(UserProfile { owner: key(2), interaction_count: 9 }));
    assert_eq!(count(&l, 2), 0);
    assert!(l.load_profile(UserProfile { owner: key(4), interaction_count: 9 }));
    assert_eq!(count(&l, 4), 9);
}

#[test]
fn paywall_uniqueness() {
    let mut l = Ledger::new();
    let a = CreatePaywall { creator: key(1) };
    let b = CreatePaywall { creator: key(2) };
    assert_eq!(create_paywall(&mut l, &a, String::from("x"), 10, key(7)), Ok(()));
    assert_eq!(
        create_paywall(&mut l, &a, String::from("x"), 20, key(8)),
        Err(ErrorCode::AlreadyExists)
    );
    assert_eq!(create_paywall(&mut l, &a, String::from("y"), 30, key(7)), Ok(()));
    assert_eq!(create_paywall(&mut l, &b, String::from("x"), 40, key(7)), Ok(()));
    let p = l.paywall(&key(1), &String::from("x")).unwrap();
    assert_eq!(p.price, 10);
    assert_eq!(p.token_mint, key(7));
    assert_eq!(p.access_count, 0);
    assert_eq!(l.paywall(&key(1), &String::from("y")).unwrap().price, 30);
    assert_eq!(l.paywall(&key(2), &String::from("x")).unwrap().price, 40);
    assert!(l.paywall(&key(2), &String::from("y")).is_none());
}

fn unlock_accounts(creator: u8, user: u8, user_mint: u8, creator_mint: u8, mint: u8) -> UnlockPaywall {
    UnlockPaywall {
        creator: key(creator),
        user: key(user),
        user_token_account: account(100 + user, user_mint),
        creator_token_account: account(100 + creator, creator_mint),
        token_mint: key(mint),
    }
}

#[test]
fn unlock_scenario_pays_price_each_time() {
    let mut l = Ledger::new();
    let creator = 1u8;
    let user = 5u8;
    let mint = 7u8;
    create_paywall(&mut l, &CreatePaywall { creator: key(creator) }, String::from("post1"), 100, key(mint)).unwrap();
    let acc = unlock_accounts(creator, user, mint, mint, mint);
    let mut user_balance: u64 = 150;
    let mut creator_balance: u64 = 0;

    let order = plan_unlock_paywall(&l, &acc, &String::from("post1")).unwrap();
    assert_eq!(order.from, key(105));
    assert_eq!(order.to, key(101));
    assert_eq!(order.authority, key(user));
    assert_eq!(order.amount, 100);
    user_balance -= order.amount;
    creator_balance += order.amount;
    let ev = unlock_paywall(&mut l, &acc, String::from("post1"), Ok(()), 42).unwrap();
    assert_eq!(ev.user, key(user));
    assert_eq!(ev.creator, key(creator));
    assert_eq!(ev.content_id, "post1");
    assert_eq!(ev.token_mint, key(mint));
    assert_eq!(ev.amount, 100);
    assert_eq!(ev.timestamp, 42);
    assert_eq!(l.paywall(&key(creator), &String::from("post1")).unwrap().access_count, 1);
    assert_eq!((user_balance, creator_balance), (50, 100));

    let order = plan_unlock_paywall(&l, &acc, &String::from("post1")).unwrap();
    assert_eq!(order.amount, 100);
    let ev = unlock_paywall(&mut l, &acc, String::from("post1"), Ok(()), 43).unwrap();
    assert_eq!(ev.amount, 100);
    assert_eq!(l.paywall(&key(creator), &String::from("post1")).unwrap().access_count, 2);
}

#[test]
fn unlock_with_mismatched_mint_is_refused() {
    let cases = [(8u8, 7u8, 7u8, 7u8), (7, 8, 7, 7), (7, 7, 8, 7), (7, 7, 7, 8)];
    for (paywall_mint, user_mint, creator_mint, declared) in cases {
        let mut l = Ledger::new();
        create_paywall(&mut l, &CreatePaywall { creator: key(1) }, String::from("c"), 9, key(paywall_mint)).unwrap();
        let acc = unlock_accounts(1, 5, user_mint, creator_mint, declared);
        assert_eq!(
            plan_unlock_paywall(&l, &acc, &String::from("c")).unwrap_err(),
            ErrorCode::InvalidTokenMint
        );
        let res = unlock_paywall(&mut l, &acc, String::from("c"), Ok(()), 1);
        assert_eq!(res.unwrap_err(), ErrorCode::InvalidTokenMint);
        assert_eq!(l.paywall(&key(1), &String::from("c")).unwrap().access_count, 0);
    }
}

#[test]
fn unlock_of_missing_paywall_is_refused() {
    let mut l = Ledger::new();
    create_paywall(&mut l, &CreatePaywall { creator: key(1) }, String::from("c"), 9, key(7)).unwrap();
    let acc = unlock_accounts(1, 5, 7, 7, 7);
    let res = unlock_paywall(&mut l, &acc, String::from("d"), Ok(()), 1);
    assert_eq!(res.unwrap_err(), ErrorCode::AccountNotFound);
    let acc = unlock_accounts(2, 5, 7, 7, 7);
    assert_eq!(
        plan_unlock_paywall(&l, &acc, &String::from("c")).unwrap_err(),
        ErrorCode::AccountNotFound
    );
}

#[test]
fn failed_unlock_transfer_changes_nothing() {
    let mut l = Ledger::new();
    create_paywall(&mut l, &CreatePaywall { creator: key(1) }, String::from("c"), 200, key(7)).unwrap();
    let acc = unlock_accounts(1, 5, 7, 7, 7);
    let res = unlock_paywall(&mut l, &acc, String::from("c"), Err(1), 1);
    assert_eq!(res.unwrap_err(), ErrorCode::Transfer(1));
    assert_eq!(l.paywall(&key(1), &String::from("c")).unwrap().access_count, 0);
}

#[test]
fn unlock_on_full_counter_overflows() {
    let mut l = Ledger::new();
    let p = Paywall {
        creator: key(1),
        content_id: String::from("c"),
        price: 3,
        token_mint: key(7),
        access_count: u64::MAX,
    };
    assert!(l.load_paywall(p));
    let res = unlock_paywall(&mut l, &unlock_accounts(1, 5, 7, 7, 7), String::from("c"), Ok(()), 1);
    assert_eq!(res.unwrap_err(), ErrorCode::ArithmeticOverflow);
    assert_eq!(l.paywall(&key(1), &String::from("c")).unwrap().access_count, u64::MAX);
}

#[test]
fn pubkey_equality_is_bytewise() {
    let mut b = [3u8; 32];
    assert_eq!(Pubkey::new_from_array(b), key(3));
    b[31] = 4;
    assert_ne!(Pubkey::new_from_array(b), key(3));
    assert!(!Pubkey::new_from_array(b).same_as(&key(3)));
    assert_eq!(Pubkey::new_from_array(b).to_bytes(), b);
}
