//! Properties that relate several operations, proved over the spec functions
//! that the operations' contracts use.
use vstd::prelude::*;

use crate::instructions::{
    create_paywall_spec, initialize_user_spec, tip_outcome, tip_plan, unlock_outcome, ErrorCode, Tip,
    UnlockPaywall,
};
use crate::key::Pubkey;
use crate::ledger::{LedgerView, PaywallView, UserProfile};

verus! {

/// Initialising the profile of one owner twice: the first call succeeds and
/// leaves a profile with no interactions; the second fails with
/// `AlreadyExists` and changes nothing.
pub proof fn initialize_user_twice(l: LedgerView, owner: Pubkey)
    requires
        l.wf(),
        !l.has_profile(owner),
    ensures
        ({
            let (l1, r1) = initialize_user_spec(l, owner);
            let (l2, r2) = initialize_user_spec(l1, owner);
            &&& r1 is Ok
            &&& l1.profile_of(owner) == Some(UserProfile { owner, interaction_count: 0 })
            &&& r2 == Err::<(), ErrorCode>(ErrorCode::AlreadyExists)
            &&& l2 == l1
        }),
{
    l.lemma_with_profile(owner);
}

/// A tip whose two token accounts and declared mint are not all one mint is
/// refused with `InvalidTokenMint` before any transfer is asked for, and
/// changes nothing whatever the host reports.
pub proof fn mismatched_mint_refuses_tip(
    l: LedgerView,
    accounts: Tip,
    amount: u64,
    token_mint: Pubkey,
    transfer: Result<(), u64>,
)
    requires
        l.has_profile(accounts.recipient),
        !(accounts.sender_token_account.mint == token_mint
            && accounts.recipient_token_account.mint == token_mint),
    ensures
        tip_plan(l, accounts, amount, token_mint) == Err::<crate::instructions::TransferOrder, ErrorCode>(
            ErrorCode::InvalidTokenMint,
        ),
        tip_outcome(l, accounts, amount, token_mint, transfer) == Err::<LedgerView, ErrorCode>(
            ErrorCode::InvalidTokenMint,
        ),
{
}

/// A successful tip counts exactly one interaction on the recipient's profile
/// and leaves every other profile as it was.
pub proof fn tip_counts_once(
    l: LedgerView,
    accounts: Tip,
    amount: u64,
    token_mint: Pubkey,
    after: LedgerView,
)
    requires
        l.wf(),
        tip_outcome(l, accounts, amount, token_mint, Ok(())) == Ok::<LedgerView, ErrorCode>(after),
    ensures
        after.wf(),
        after.profile_of(accounts.recipient) == Some(
            UserProfile {
                owner: accounts.recipient,
                interaction_count: (l.profile_of(accounts.recipient).unwrap().interaction_count
                    + 1) as u64,
            },
        ),
        l.profile_of(accounts.recipient).unwrap().interaction_count < u64::MAX,
        forall|o: Pubkey| o != accounts.recipient ==> #[trigger] after.profile_of(o) == l.profile_of(o),
{
    l.lemma_with_interaction(accounts.recipient);
}

/// After a run of successful tips, all to the profile of `owner` and starting
/// from its fresh profile, its count equals the number of tips.
/// `ledgers[k + 1]` is the store after the tip `tips[k]`.
pub proof fn tips_are_counted(
    owner: Pubkey,
    tips: Seq<(Tip, u64, Pubkey)>,
    ledgers: Seq<LedgerView>,
)
    requires
        ledgers.len() == tips.len() + 1,
        ledgers[0].wf(),
        ledgers[0].profile_of(owner) == Some(UserProfile { owner, interaction_count: 0 }),
        forall|k: int| 0 <= k < tips.len() ==> (#[trigger] tips[k]).0.recipient == owner,
        forall|k: int|
            0 <= k < tips.len() ==> tip_outcome(
                ledgers[k],
                (#[trigger] tips[k]).0,
                tips[k].1,
                tips[k].2,
                Ok(()),
            ) == Ok::<LedgerView, ErrorCode>(ledgers[k + 1]),
    ensures
        tips.len() <= u64::MAX,
        ledgers.last().wf(),
        ledgers.last().profile_of(owner) == Some(
            UserProfile { owner, interaction_count: tips.len() as u64 },
        ),
    decreases tips.len(),
{
    if tips.len() > 0 {
        let n = (tips.len() - 1) as int;
        tips_are_counted(owner, tips.take(n), ledgers.take(n + 1));
        assert(ledgers.take(n + 1).last() == ledgers[n]);
        let t = tips[n];
        assert(tip_outcome(ledgers[n], t.0, t.1, t.2, Ok(())) == Ok::<LedgerView, ErrorCode>(ledgers[n + 1]));
        tip_counts_once(ledgers[n], t.0, t.1, t.2, ledgers[n + 1]);
        assert(ledgers.last() == ledgers[n + 1]);
    }
}

/// Successful tips to two different profiles give the same store in either
/// order, so each profile's count does not depend on that order.
pub proof fn tips_to_different_profiles_commute(
    l: LedgerView,
    first: Tip,
    first_amount: u64,
    first_mint: Pubkey,
    second: Tip,
    second_amount: u64,
    second_mint: Pubkey,
    after: LedgerView,
)
    requires
        l.wf(),
        first.recipient != second.recipient,
        ({
            let r1 = tip_outcome(l, first, first_amount, first_mint, Ok(()));
            &&& r1 is Ok
            &&& tip_outcome(r1->Ok_0, second, second_amount, second_mint, Ok(()))
                == Ok::<LedgerView, ErrorCode>(after)
        }),
    ensures
        ({
            let r2 = tip_outcome(l, second, second_amount, second_mint, Ok(()));
            &&& r2 is Ok
            &&& tip_outcome(r2->Ok_0, first, first_amount, first_mint, Ok(()))
                == Ok::<LedgerView, ErrorCode>(after)
        }),
{
    let a = first.recipient;
    let b = second.recipient;
    let la = l.with_interaction(a);
    l.lemma_with_interaction(a);
    assert(la.profile_of(b) == l.profile_of(b));
    la.lemma_with_interaction(b);
    l.lemma_with_interaction(b);
    let lb = l.with_interaction(b);
    assert(lb.profile_of(a) == l.profile_of(a));
    l.lemma_interactions_commute(a, b);
}

/// Creating a paywall at a free address succeeds; creating it again at the
/// same creator and content id fails with `AlreadyExists`; and every other
/// address, of the same creator or of another, stays as free as it was.
pub proof fn paywall_addresses_are_unique(
    l: LedgerView,
    creator: Pubkey,
    content_id: Seq<char>,
    price: u64,
    token_mint: Pubkey,
    again_price: u64,
    again_mint: Pubkey,
)
    requires
        l.wf(),
        !l.has_paywall(creator, content_id),
    ensures
        ({
            let (l1, r1) = create_paywall_spec(l, creator, content_id, price, token_mint);
            &&& r1 is Ok
            &&& create_paywall_spec(l1, creator, content_id, again_price, again_mint)
                == (l1, Err::<(), ErrorCode>(ErrorCode::AlreadyExists))
            &&& forall|c: Pubkey, d: Seq<char>, p: u64, m: Pubkey|
                !(c == creator && d == content_id) ==> (#[trigger] create_paywall_spec(
                    l1,
                    c,
                    d,
                    p,
                    m,
                )).1 == create_paywall_spec(l, c, d, p, m).1
        }),
{
    l.lemma_with_paywall(creator, content_id, price, token_mint);
}

/// Every successful unlock counts one more access on its paywall, however
/// often the same user unlocked it before, and leaves every other paywall and
/// every profile as it was.
pub proof fn unlock_counts_once(
    l: LedgerView,
    accounts: UnlockPaywall,
    content_id: Seq<char>,
    after: LedgerView,
)
    requires
        l.wf(),
        unlock_outcome(l, accounts, content_id, Ok(())) == Ok::<LedgerView, ErrorCode>(after),
    ensures
        after.wf(),
        ({
            let p = l.paywall_of(accounts.creator, content_id).unwrap();
            &&& p.access_count < u64::MAX
            &&& after.paywall_of(accounts.creator, content_id) == Some(
                PaywallView { access_count: (p.access_count + 1) as u64, ..p },
            )
        }),
        forall|c: Pubkey, d: Seq<char>|
            !(c == accounts.creator && d == content_id) ==> #[trigger] after.paywall_of(c, d)
                == l.paywall_of(c, d),
        after.profiles == l.profiles,
{
    l.lemma_with_access(accounts.creator, content_id);
}

} // verus!
