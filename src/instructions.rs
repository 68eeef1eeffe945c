//! The four operations of the platform.
//!
//! Tips and unlocks move tokens through the host's transfer primitive. Each
//! runs in two steps: a plan function checks the request and names the transfer
//! that the host must perform; the operation itself then takes what the host
//! reported of that transfer and the host's clock, and either applies every
//! change or none.
use vstd::prelude::*;

use crate::key::Pubkey;
use crate::ledger::{Ledger, LedgerView};

verus! {

/// Why an operation failed. Any failure leaves the store as it was.
#[derive(Clone, Copy, Debug, PartialEq, Eq, Structural)]
pub enum ErrorCode {
    /// The token accounts or the paywall disagree with the declared mint.
    InvalidTokenMint,
    /// A record already stands at the address being initialised.
    AlreadyExists,
    /// No record stands at the address being used.
    AccountNotFound,
    /// The host's transfer failed, with the host's error code.
    Transfer(u64),
    /// A counter is at its largest value and cannot be incremented.
    ArithmeticOverflow,
}

/// A token account as the checks see it: its address and the mint of its tokens.
#[derive(Clone, Copy, Debug)]
pub struct TokenAccount {
    pub address: Pubkey,
    pub mint: Pubkey,
}

/// A transfer that the host performs: `amount` tokens from the token account
/// `from` to the token account `to`, signed by `authority`.
#[derive(Clone, Copy, Debug)]
pub struct TransferOrder {
    pub from: Pubkey,
    pub to: Pubkey,
    pub authority: Pubkey,
    pub amount: u64,
}

/// Accounts of `initialize_user`: the signer whose profile is created.
#[derive(Clone, Copy, Debug)]
pub struct InitializeUser {
    pub user: Pubkey,
}

/// Accounts of `tip`. The recipient's profile is the one addressed by `recipient`.
#[derive(Clone, Copy, Debug)]
pub struct Tip {
    pub sender: Pubkey,
    pub recipient: Pubkey,
    pub sender_token_account: TokenAccount,
    pub recipient_token_account: TokenAccount,
}

/// Accounts of `create_paywall`: the signer who owns the content.
#[derive(Clone, Copy, Debug)]
pub struct CreatePaywall {
    pub creator: Pubkey,
}

/// Accounts of `unlock_paywall`. The paywall is the one addressed by
/// `creator` and the content identifier.
#[derive(Clone, Copy, Debug)]
pub struct UnlockPaywall {
    pub creator: Pubkey,
    pub user: Pubkey,
    pub user_token_account: TokenAccount,
    pub creator_token_account: TokenAccount,
    pub token_mint: Pubkey,
}

/// Emitted by a successful tip.
#[derive(Debug)]
pub struct TipEvent {
    pub sender: Pubkey,
    pub recipient: Pubkey,
    pub token_mint: Pubkey,
    pub amount: u64,
    pub action: String,
    pub timestamp: i64,
}

/// Emitted by a successful unlock.
#[derive(Debug)]
pub struct PaywallUnlockEvent {
    pub user: Pubkey,
    pub creator: Pubkey,
    pub content_id: String,
    pub token_mint: Pubkey,
    pub amount: u64,
    pub timestamp: i64,
}

/// The store after `initialize_user` for `owner`, and its result.
pub open spec fn initialize_user_spec(l: LedgerView, owner: Pubkey) -> (LedgerView, Result<(), ErrorCode>) {
    if l.has_profile(owner) {
        (l, Err(ErrorCode::AlreadyExists))
    } else {
        (l.with_profile(owner), Ok(()))
    }
}

/// The store after `create_paywall`, and its result.
pub open spec fn create_paywall_spec(
    l: LedgerView,
    creator: Pubkey,
    content_id: Seq<char>,
    price: u64,
    token_mint: Pubkey,
) -> (LedgerView, Result<(), ErrorCode>) {
    if l.has_paywall(creator, content_id) {
        (l, Err(ErrorCode::AlreadyExists))
    } else {
        (l.with_paywall(creator, content_id, price, token_mint), Ok(()))
    }
}

/// The transfer that a tip asks of the host, or why the tip is refused first.
pub open spec fn tip_plan(l: LedgerView, accounts: Tip, amount: u64, token_mint: Pubkey) -> Result<TransferOrder, ErrorCode> {
    if !l.has_profile(accounts.recipient) {
        Err(ErrorCode::AccountNotFound)
    } else if accounts.sender_token_account.mint != token_mint
        || accounts.recipient_token_account.mint != token_mint {
        Err(ErrorCode::InvalidTokenMint)
    } else {
        Ok(
            TransferOrder {
                from: accounts.sender_token_account.address,
                to: accounts.recipient_token_account.address,
                authority: accounts.sender,
                amount,
            },
        )
    }
}

/// The store after a tip whose transfer ended with `transfer`, or the error.
pub open spec fn tip_outcome(
    l: LedgerView,
    accounts: Tip,
    amount: u64,
    token_mint: Pubkey,
    transfer: Result<(), u64>,
) -> Result<LedgerView, ErrorCode> {
    match tip_plan(l, accounts, amount, token_mint) {
        Err(e) => Err(e),
        Ok(_) => match transfer {
            Err(code) => Err(ErrorCode::Transfer(code)),
            Ok(_) => if l.profile_of(accounts.recipient).unwrap().interaction_count == u64::MAX {
                Err(ErrorCode::ArithmeticOverflow)
            } else {
                Ok(l.with_interaction(accounts.recipient))
            },
        },
    }
}

/// The transfer that an unlock asks of the host, or why the unlock is refused first.
/// The amount is the paywall's price.
pub open spec fn unlock_plan(l: LedgerView, accounts: UnlockPaywall, content_id: Seq<char>) -> Result<TransferOrder, ErrorCode> {
    if !l.has_paywall(accounts.creator, content_id) {
        Err(ErrorCode::AccountNotFound)
    } else {
        let p = l.paywall_of(accounts.creator, content_id).unwrap();
        if p.token_mint != accounts.token_mint || accounts.user_token_account.mint
            != accounts.token_mint || accounts.creator_token_account.mint != accounts.token_mint {
            Err(ErrorCode::InvalidTokenMint)
        } else {
            Ok(
                TransferOrder {
                    from: accounts.user_token_account.address,
                    to: accounts.creator_token_account.address,
                    authority: accounts.user,
                    amount: p.price,
                },
            )
        }
    }
}

/// The store after an unlock whose transfer ended with `transfer`, or the error.
pub open spec fn unlock_outcome(
    l: LedgerView,
    accounts: UnlockPaywall,
    content_id: Seq<char>,
    transfer: Result<(), u64>,
) -> Result<LedgerView, ErrorCode> {
    match unlock_plan(l, accounts, content_id) {
        Err(e) => Err(e),
        Ok(_) => match transfer {
            Err(code) => Err(ErrorCode::Transfer(code)),
            Ok(_) => if l.paywall_of(accounts.creator, content_id).unwrap().access_count
                == u64::MAX {
                Err(ErrorCode::ArithmeticOverflow)
            } else {
                Ok(l.with_access(accounts.creator, content_id))
            },
        },
    }
}

/// Checks a tip: the recipient has a profile, and both token accounts hold
/// tokens of `token_mint`. Gives the transfer that the host must then perform.
pub fn plan_tip(ledger: &Ledger, accounts: &Tip, amount: u64, token_mint: &Pubkey) -> (r: Result<TransferOrder, ErrorCode>)
    requires
        ledger@.wf(),
    ensures
        r == tip_plan(ledger@, *accounts, amount, *token_mint),
{
    if ledger.find_profile(&accounts.recipient).is_none() {
        return Err(ErrorCode::AccountNotFound);
    }
    if !accounts.sender_token_account.mint.same_as(token_mint)
        || !accounts.recipient_token_account.mint.same_as(token_mint) {
        return Err(ErrorCode::InvalidTokenMint);
    }
    Ok(
        TransferOrder {
            from: accounts.sender_token_account.address,
            to: accounts.recipient_token_account.address,
            authority: accounts.sender,
            amount,
        },
    )
}

/// Completes a tip of `amount` tokens of `token_mint`, given what the host
/// reported of the transfer that `plan_tip` asked for and the host's clock.
///
/// Where the plan is refused or the transfer failed, the store is left as it
/// was and the error comes back. Otherwise the recipient's profile counts one
/// more interaction and the event describing the tip comes back.
pub fn tip(
    ledger: &mut Ledger,
    accounts: &Tip,
    amount: u64,
    action: String,
    token_mint: Pubkey,
    transfer: Result<(), u64>,
    timestamp: i64,
) -> (r: Result<TipEvent, ErrorCode>)
    requires
        old(ledger)@.wf(),
    ensures
        final(ledger)@.wf(),
        transfer is Err ==> r is Err && final(ledger)@ == old(ledger)@,
        match tip_outcome(old(ledger)@, *accounts, amount, token_mint, transfer) {
            Ok(l) => {
                &&& final(ledger)@ == l
                &&& r matches Ok(ev) && ev.sender == accounts.sender && ev.recipient
                    == accounts.recipient && ev.token_mint == token_mint && ev.amount == amount
                    && ev.action@ == action@ && ev.timestamp == timestamp
            },
            Err(e) => final(ledger)@ == old(ledger)@ && r == Err::<TipEvent, ErrorCode>(e),
        },
{
    if let Err(e) = plan_tip(ledger, accounts, amount, &token_mint) {
        return Err(e);
    }
    if let Err(code) = transfer {
        return Err(ErrorCode::Transfer(code));
    }
    let i = match ledger.find_profile(&accounts.recipient) {
        Some(i) => i,
        None => {
            return Err(ErrorCode::AccountNotFound);
        },
    };
    if !ledger.add_interaction(i) {
        return Err(ErrorCode::ArithmeticOverflow);
    }
    Ok(
        TipEvent {
            sender: accounts.sender,
            recipient: accounts.recipient,
            token_mint,
            amount,
            action,
            timestamp,
        },
    )
}

/// Checks an unlock: the paywall exists, and the paywall and both token
/// accounts agree with the declared mint. Gives the transfer of the paywall's
/// price that the host must then perform.
pub fn plan_unlock_paywall(ledger: &Ledger, accounts: &UnlockPaywall, content_id: &String) -> (r: Result<TransferOrder, ErrorCode>)
    requires
        ledger@.wf(),
    ensures
        r == unlock_plan(ledger@, *accounts, content_id@),
{
    let p = match ledger.paywall(&accounts.creator, content_id) {
        Some(p) => p,
        None => {
            return Err(ErrorCode::AccountNotFound);
        },
    };
    if !p.token_mint.same_as(&accounts.token_mint)
        || !accounts.user_token_account.mint.same_as(&accounts.token_mint)
        || !accounts.creator_token_account.mint.same_as(&accounts.token_mint) {
        return Err(ErrorCode::InvalidTokenMint);
    }
    Ok(
        TransferOrder {
            from: accounts.user_token_account.address,
            to: accounts.creator_token_account.address,
            authority: accounts.user,
            amount: p.price,
        },
    )
}

/// Completes an unlock of the paywall of `(accounts.creator, content_id)`,
/// given what the host reported of the transfer that `plan_unlock_paywall`
/// asked for and the host's clock.
///
/// Where the plan is refused or the transfer failed, the store is left as it
/// was and the error comes back. Otherwise the paywall counts one more access
/// and the event describing the unlock comes back; its creator, mint and
/// amount are read from the paywall.
pub fn unlock_paywall(
    ledger: &mut Ledger,
    accounts: &UnlockPaywall,
    content_id: String,
    transfer: Result<(), u64>,
    timestamp: i64,
) -> (r: Result<PaywallUnlockEvent, ErrorCode>)
    requires
        old(ledger)@.wf(),
    ensures
        final(ledger)@.wf(),
        transfer is Err ==> r is Err && final(ledger)@ == old(ledger)@,
        match unlock_outcome(old(ledger)@, *accounts, content_id@, transfer) {
            Ok(l) => {
                let p = old(ledger)@.paywall_of(accounts.creator, content_id@).unwrap();
                &&& final(ledger)@ == l
                &&& r matches Ok(ev) && ev.user == accounts.user && ev.creator == p.creator
                    && ev.content_id@ == content_id@ && ev.token_mint == p.token_mint
                    && ev.amount == p.price && ev.timestamp == timestamp
            },
            Err(e) => final(ledger)@ == old(ledger)@ && r == Err::<PaywallUnlockEvent, ErrorCode>(
                e,
            ),
        },
{
    if let Err(e) = plan_unlock_paywall(ledger, accounts, &content_id) {
        return Err(e);
    }
    if let Err(code) = transfer {
        return Err(ErrorCode::Transfer(code));
    }
    let (creator, token_mint, amount) = match ledger.paywall(&accounts.creator, &content_id) {
        Some(p) => (p.creator, p.token_mint, p.price),
        None => {
            return Err(ErrorCode::AccountNotFound);
        },
    };
    let i = match ledger.find_paywall(&accounts.creator, &content_id) {
        Some(i) => i,
        None => {
            return Err(ErrorCode::AccountNotFound);
        },
    };
    if !ledger.add_access(i) {
        return Err(ErrorCode::ArithmeticOverflow);
    }
    Ok(PaywallUnlockEvent { user: accounts.user, creator, content_id, token_mint, amount, timestamp })
}

/// Creates the profile of the signer, with no interactions counted.
/// Fails with `AlreadyExists` where the signer has a profile already.
pub fn initialize_user(ledger: &mut Ledger, accounts: &InitializeUser) -> (r: Result<(), ErrorCode>)
    requires
        old(ledger)@.wf(),
    ensures
        final(ledger)@.wf(),
        (final(ledger)@, r) == initialize_user_spec(old(ledger)@, accounts.user),
{
    if ledger.find_profile(&accounts.user).is_some() {
        return Err(ErrorCode::AlreadyExists);
    }
    ledger.add_profile(accounts.user);
    Ok(())
}

/// Creates the paywall of the signer on `content_id`, at `price` tokens of
/// `token_mint`, with no access counted. Fails with `AlreadyExists` where that
/// creator has a paywall on that content already.
pub fn create_paywall(
    ledger: &mut Ledger,
    accounts: &CreatePaywall,
    content_id: String,
    price: u64,
    token_mint: Pubkey,
) -> (r: Result<(), ErrorCode>)
    requires
        old(ledger)@.wf(),
    ensures
        final(ledger)@.wf(),
        (final(ledger)@, r) == create_paywall_spec(
            old(ledger)@,
            accounts.creator,
            content_id@,
            price,
            token_mint,
        ),
{
    if ledger.find_paywall(&accounts.creator, &content_id).is_some() {
        return Err(ErrorCode::AlreadyExists);
    }
    ledger.add_paywall(accounts.creator, content_id, price, token_mint);
    Ok(())
}

} // verus!
