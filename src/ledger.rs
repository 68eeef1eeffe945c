//! The records of the platform and the keyed store that holds them.
//!
//! A profile is addressed by its owner, a paywall by its creator and content
//! identifier. Creating a record at an address that is already taken fails, so
//! each address holds at most one record.
use vstd::prelude::*;

use crate::key::Pubkey;

verus! {

/// Tips received by one user.
#[derive(Clone, Copy, Debug)]
pub struct UserProfile {
    pub owner: Pubkey,
    pub interaction_count: u64,
}

/// A pay-to-unlock offer on one piece of content of one creator.
#[derive(Debug)]
pub struct Paywall {
    pub creator: Pubkey,
    pub content_id: String,
    pub price: u64,
    pub token_mint: Pubkey,
    pub access_count: u64,
}

/// What a paywall holds, with its content identifier as characters.
pub struct PaywallView {
    pub creator: Pubkey,
    pub content_id: Seq<char>,
    pub price: u64,
    pub token_mint: Pubkey,
    pub access_count: u64,
}

impl View for Paywall {
    type V = PaywallView;

    open spec fn view(&self) -> PaywallView {
        PaywallView {
            creator: self.creator,
            content_id: self.content_id@,
            price: self.price,
            token_mint: self.token_mint,
            access_count: self.access_count,
        }
    }
}

/// The contents of the store: profiles and paywalls in order of creation.
pub struct LedgerView {
    pub profiles: Seq<UserProfile>,
    pub paywalls: Seq<PaywallView>,
}

impl LedgerView {
    /// Each owner has at most one profile, and each (creator, content id) pair
    /// at most one paywall.
    pub open spec fn wf(self) -> bool {
        &&& forall|i: int, j: int|
            0 <= i < j < self.profiles.len() ==> #[trigger] self.profiles[i].owner
                != #[trigger] self.profiles[j].owner
        &&& forall|i: int, j: int|
            0 <= i < j < self.paywalls.len() ==> !(#[trigger] self.paywalls[i].creator
                == #[trigger] self.paywalls[j].creator && self.paywalls[i].content_id
                == self.paywalls[j].content_id)
    }

    pub open spec fn profile_at(self, i: int, owner: Pubkey) -> bool {
        0 <= i < self.profiles.len() && self.profiles[i].owner == owner
    }

    pub open spec fn has_profile(self, owner: Pubkey) -> bool {
        exists|i: int| self.profile_at(i, owner)
    }

    pub open spec fn profile_index(self, owner: Pubkey) -> int {
        choose|i: int| self.profile_at(i, owner)
    }

    /// The profile addressed by `owner`, if one was created.
    pub open spec fn profile_of(self, owner: Pubkey) -> Option<UserProfile> {
        if self.has_profile(owner) {
            Some(self.profiles[self.profile_index(owner)])
        } else {
            None
        }
    }

    pub open spec fn paywall_at(self, i: int, creator: Pubkey, content_id: Seq<char>) -> bool {
        0 <= i < self.paywalls.len() && self.paywalls[i].creator == creator
            && self.paywalls[i].content_id == content_id
    }

    pub open spec fn has_paywall(self, creator: Pubkey, content_id: Seq<char>) -> bool {
        exists|i: int| self.paywall_at(i, creator, content_id)
    }

    pub open spec fn paywall_index(self, creator: Pubkey, content_id: Seq<char>) -> int {
        choose|i: int| self.paywall_at(i, creator, content_id)
    }

    /// The paywall addressed by `(creator, content_id)`, if one was created.
    pub open spec fn paywall_of(self, creator: Pubkey, content_id: Seq<char>) -> Option<PaywallView> {
        if self.has_paywall(creator, content_id) {
            Some(self.paywalls[self.paywall_index(creator, content_id)])
        } else {
            None
        }
    }

    /// The store with a fresh profile for `owner` added.
    pub open spec fn with_profile(self, owner: Pubkey) -> LedgerView {
        LedgerView {
            profiles: self.profiles.push(UserProfile { owner, interaction_count: 0 }),
            ..self
        }
    }

    /// The store with one more tip counted on the profile of `owner`.
    pub open spec fn with_interaction(self, owner: Pubkey) -> LedgerView {
        let i = self.profile_index(owner);
        let p = self.profiles[i];
        LedgerView {
            profiles: self.profiles.update(
                i,
                UserProfile { owner: p.owner, interaction_count: (p.interaction_count + 1) as u64 },
            ),
            ..self
        }
    }

    /// The store with a fresh paywall added.
    pub open spec fn with_paywall(
        self,
        creator: Pubkey,
        content_id: Seq<char>,
        price: u64,
        token_mint: Pubkey,
    ) -> LedgerView {
        LedgerView {
            paywalls: self.paywalls.push(
                PaywallView { creator, content_id, price, token_mint, access_count: 0 },
            ),
            ..self
        }
    }

    /// The store with one more unlock counted on the paywall of `(creator, content_id)`.
    pub open spec fn with_access(self, creator: Pubkey, content_id: Seq<char>) -> LedgerView {
        let i = self.paywall_index(creator, content_id);
        let p = self.paywalls[i];
        LedgerView {
            paywalls: self.paywalls.update(
                i,
                PaywallView { access_count: (p.access_count + 1) as u64, ..p },
            ),
            ..self
        }
    }

    /// Adding a profile for an owner that has none keeps the store well formed,
    /// gives that owner a fresh profile and leaves every other address as it was.
    pub proof fn lemma_with_profile(self, owner: Pubkey)
        requires
            self.wf(),
            !self.has_profile(owner),
        ensures
            self.with_profile(owner).wf(),
            self.with_profile(owner).profile_of(owner) == Some(
                UserProfile { owner, interaction_count: 0 },
            ),
            forall|o: Pubkey| o != owner ==> #[trigger] self.with_profile(owner).profile_of(o)
                == self.profile_of(o),
            self.with_profile(owner).paywalls == self.paywalls,
    {
        let n = self.with_profile(owner);
        assert forall|i: int, j: int|
            0 <= i < j < n.profiles.len() implies #[trigger] n.profiles[i].owner
                != #[trigger] n.profiles[j].owner by {
            if j == n.profiles.len() - 1 {
                assert(!self.profile_at(i, owner));
            }
        }
        n.lemma_profile_index(self.profiles.len() as int, owner);
        assert forall|o: Pubkey| o != owner implies #[trigger] n.profile_of(o) == self.profile_of(o) by {
            if self.has_profile(o) {
                let i = self.profile_index(o);
                n.lemma_profile_index(i, o);
            }
            if n.has_profile(o) {
                let i = n.profile_index(o);
                self.lemma_profile_index(i, o);
            }
        }
    }

    /// Counting a tip on the profile of `owner` keeps the store well formed,
    /// adds one to that profile's count and leaves every other address as it was.
    pub proof fn lemma_with_interaction(self, owner: Pubkey)
        requires
            self.wf(),
            self.has_profile(owner),
            self.profile_of(owner).unwrap().interaction_count < u64::MAX,
        ensures
            self.with_interaction(owner).wf(),
            self.with_interaction(owner).profile_of(owner) == Some(
                UserProfile {
                    owner,
                    interaction_count: (self.profile_of(owner).unwrap().interaction_count
                        + 1) as u64,
                },
            ),
            forall|o: Pubkey| o != owner ==> #[trigger] self.with_interaction(owner).profile_of(o)
                == self.profile_of(o),
            self.with_interaction(owner).paywalls == self.paywalls,
    {
        let n = self.with_interaction(owner);
        let k = self.profile_index(owner);
        assert(self.profile_at(k, owner));
        assert forall|i: int, j: int|
            0 <= i < j < n.profiles.len() implies #[trigger] n.profiles[i].owner
                != #[trigger] n.profiles[j].owner by {
            assert(self.profiles[i].owner != self.profiles[j].owner);
        }
        n.lemma_profile_index(k, owner);
        assert forall|o: Pubkey| o != owner implies #[trigger] n.profile_of(o) == self.profile_of(o) by {
            if self.has_profile(o) {
                let i = self.profile_index(o);
                n.lemma_profile_index(i, o);
            }
            if n.has_profile(o) {
                let i = n.profile_index(o);
                self.lemma_profile_index(i, o);
            }
        }
    }

    /// Tips counted on two different profiles give the same store in either order.
    pub proof fn lemma_interactions_commute(self, a: Pubkey, b: Pubkey)
        requires
            self.wf(),
            self.has_profile(a),
            self.has_profile(b),
            a != b,
        ensures
            self.with_interaction(a).with_interaction(b) == self.with_interaction(b).with_interaction(a),
    {
        let ia = self.profile_index(a);
        let ib = self.profile_index(b);
        assert(self.profile_at(ia, a));
        assert(self.profile_at(ib, b));
        let na = self.with_interaction(a);
        let nb = self.with_interaction(b);
        assert(na.profile_at(ib, b));
        assert(nb.profile_at(ia, a));
        assert forall|i: int, j: int|
            0 <= i < j < na.profiles.len() implies #[trigger] na.profiles[i].owner
                != #[trigger] na.profiles[j].owner by {
            assert(self.profiles[i].owner != self.profiles[j].owner);
        }
        assert forall|i: int, j: int|
            0 <= i < j < nb.profiles.len() implies #[trigger] nb.profiles[i].owner
                != #[trigger] nb.profiles[j].owner by {
            assert(self.profiles[i].owner != self.profiles[j].owner);
        }
        na.lemma_profile_index(ib, b);
        nb.lemma_profile_index(ia, a);
        assert(na.with_interaction(b).profiles =~= nb.with_interaction(a).profiles);
    }

    /// Adding a paywall at a free address keeps the store well formed, takes
    /// that address and leaves every other address as it was.
    pub proof fn lemma_with_paywall(
        self,
        creator: Pubkey,
        content_id: Seq<char>,
        price: u64,
        token_mint: Pubkey,
    )
        requires
            self.wf(),
            !self.has_paywall(creator, content_id),
        ensures
            self.with_paywall(creator, content_id, price, token_mint).wf(),
            self.with_paywall(creator, content_id, price, token_mint).has_paywall(
                creator,
                content_id,
            ),
            forall|c: Pubkey, d: Seq<char>|
                !(c == creator && d == content_id) ==> #[trigger] self.with_paywall(
                    creator,
                    content_id,
                    price,
                    token_mint,
                ).has_paywall(c, d) == self.has_paywall(c, d),
    {
        let n = self.with_paywall(creator, content_id, price, token_mint);
        assert forall|i: int, j: int|
            0 <= i < j < n.paywalls.len() implies !(#[trigger] n.paywalls[i].creator
                == #[trigger] n.paywalls[j].creator && n.paywalls[i].content_id
                == n.paywalls[j].content_id) by {
            if j == n.paywalls.len() - 1 {
                assert(!self.paywall_at(i, creator, content_id));
            }
        }
        assert(n.paywall_at(self.paywalls.len() as int, creator, content_id));
        assert forall|c: Pubkey, d: Seq<char>|
            !(c == creator && d == content_id) implies #[trigger] n.has_paywall(c, d)
                == self.has_paywall(c, d) by {
            if self.has_paywall(c, d) {
                let i = self.paywall_index(c, d);
                assert(n.paywall_at(i, c, d));
            }
            if n.has_paywall(c, d) {
                let i = n.paywall_index(c, d);
                assert(self.paywall_at(i, c, d));
            }
        }
    }

    /// Counting an unlock on the paywall of `(creator, content_id)` keeps the
    /// store well formed, adds one to that paywall's count and changes nothing else.
    pub proof fn lemma_with_access(self, creator: Pubkey, content_id: Seq<char>)
        requires
            self.wf(),
            self.has_paywall(creator, content_id),
            self.paywall_of(creator, content_id).unwrap().access_count < u64::MAX,
        ensures
            self.with_access(creator, content_id).wf(),
            self.with_access(creator, content_id).paywall_of(creator, content_id) == Some(
                PaywallView {
                    access_count: (self.paywall_of(creator, content_id).unwrap().access_count
                        + 1) as u64,
                    ..self.paywall_of(creator, content_id).unwrap()
                },
            ),
            forall|c: Pubkey, d: Seq<char>|
                !(c == creator && d == content_id) ==> #[trigger] self.with_access(
                    creator,
                    content_id,
                ).paywall_of(c, d) == self.paywall_of(c, d),
            self.with_access(creator, content_id).profiles == self.profiles,
    {
        let n = self.with_access(creator, content_id);
        let k = self.paywall_index(creator, content_id);
        assert(self.paywall_at(k, creator, content_id));
        assert forall|i: int, j: int|
            0 <= i < j < n.paywalls.len() implies !(#[trigger] n.paywalls[i].creator
                == #[trigger] n.paywalls[j].creator && n.paywalls[i].content_id
                == n.paywalls[j].content_id) by {
            assert(!(self.paywalls[i].creator == self.paywalls[j].creator
                && self.paywalls[i].content_id == self.paywalls[j].content_id));
        }
        n.lemma_paywall_index(k, creator, content_id);
        assert forall|c: Pubkey, d: Seq<char>|
            !(c == creator && d == content_id) implies #[trigger] n.paywall_of(c, d)
                == self.paywall_of(c, d) by {
            if self.has_paywall(c, d) {
                let i = self.paywall_index(c, d);
                n.lemma_paywall_index(i, c, d);
            }
            if n.has_paywall(c, d) {
                let i = n.paywall_index(c, d);
                self.lemma_paywall_index(i, c, d);
            }
        }
    }

    /// In a well-formed store the profile found at `i` is the one addressed by its owner.
    pub proof fn lemma_profile_index(self, i: int, owner: Pubkey)
        requires
            self.wf(),
            self.profile_at(i, owner),
        ensures
            self.has_profile(owner),
            self.profile_index(owner) == i,
    {
        let j = self.profile_index(owner);
        if j < i {
            assert(self.profiles[j].owner != self.profiles[i].owner);
        } else if i < j {
            assert(self.profiles[i].owner != self.profiles[j].owner);
        }
    }

    /// In a well-formed store the paywall found at `i` is the one addressed by its key.
    pub proof fn lemma_paywall_index(self, i: int, creator: Pubkey, content_id: Seq<char>)
        requires
            self.wf(),
            self.paywall_at(i, creator, content_id),
        ensures
            self.has_paywall(creator, content_id),
            self.paywall_index(creator, content_id) == i,
    {
        let j = self.paywall_index(creator, content_id);
        if j < i {
            assert(!(self.paywalls[j].creator == self.paywalls[i].creator
                && self.paywalls[j].content_id == self.paywalls[i].content_id));
        } else if i < j {
            assert(!(self.paywalls[i].creator == self.paywalls[j].creator
                && self.paywalls[i].content_id == self.paywalls[j].content_id));
        }
    }
}

/// The keyed store of profiles and paywalls.
pub struct Ledger {
    profiles: Vec<UserProfile>,
    paywalls: Vec<Paywall>,
}

impl View for Ledger {
    type V = LedgerView;

    closed spec fn view(&self) -> LedgerView {
        LedgerView {
            profiles: self.profiles@,
            paywalls: self.paywalls@.map_values(|p: Paywall| p@),
        }
    }
}

impl Ledger {
    /// An empty store.
    pub fn new() -> (r: Ledger)
        ensures
            r@.wf(),
            r@.profiles.len() == 0,
            r@.paywalls.len() == 0,
    {
        Ledger { profiles: Vec::new(), paywalls: Vec::new() }
    }

    /// Where the profile of `owner` stands, if there is one.
    pub fn find_profile(&self, owner: &Pubkey) -> (r: Option<usize>)
        requires
            self@.wf(),
        ensures
            r is None <==> !self@.has_profile(*owner),
            r matches Some(i) ==> self@.profile_at(i as int, *owner) && i
                == self@.profile_index(*owner),
    {
        let mut i: usize = 0;
        while i < self.profiles.len()
            invariant
                self@.wf(),
                i <= self@.profiles.len(),
                forall|j: int| 0 <= j < i ==> !self@.profile_at(j, *owner),
            decreases self@.profiles.len() - i,
        {
            if self.profiles[i].owner.same_as(owner) {
                proof {
                    self@.lemma_profile_index(i as int, *owner);
                }
                return Some(i);
            }
            i = i + 1;
        }
        None
    }

    /// The profile of `owner`, if there is one.
    pub fn profile(&self, owner: &Pubkey) -> (r: Option<UserProfile>)
        requires
            self@.wf(),
        ensures
            r == self@.profile_of(*owner),
    {
        match self.find_profile(owner) {
            Some(i) => Some(self.profiles[i]),
            None => None,
        }
    }

    /// Where the paywall of `(creator, content_id)` stands, if there is one.
    pub fn find_paywall(&self, creator: &Pubkey, content_id: &String) -> (r: Option<usize>)
        requires
            self@.wf(),
        ensures
            r is None <==> !self@.has_paywall(*creator, content_id@),
            r matches Some(i) ==> self@.paywall_at(i as int, *creator, content_id@) && i
                == self@.paywall_index(*creator, content_id@),
    {
        let mut i: usize = 0;
        while i < self.paywalls.len()
            invariant
                self@.wf(),
                i <= self@.paywalls.len(),
                forall|j: int| 0 <= j < i ==> !self@.paywall_at(j, *creator, content_id@),
            decreases self@.paywalls.len() - i,
        {
            let p = &self.paywalls[i];
            if p.creator.same_as(creator) && p.content_id == *content_id {
                proof {
                    self@.lemma_paywall_index(i as int, *creator, content_id@);
                }
                return Some(i);
            }
            i = i + 1;
        }
        None
    }

    /// The paywall of `(creator, content_id)`, if there is one.
    pub fn paywall(&self, creator: &Pubkey, content_id: &String) -> (r: Option<&Paywall>)
        requires
            self@.wf(),
        ensures
            r is None <==> self@.paywall_of(*creator, content_id@) is None,
            r matches Some(p) ==> self@.paywall_of(*creator, content_id@) == Some(p@),
    {
        match self.find_paywall(creator, content_id) {
            Some(i) => Some(&self.paywalls[i]),
            None => None,
        }
    }

    /// Takes in a profile that already exists elsewhere, unless its address
    /// is taken. Says whether it was taken in.
    pub fn load_profile(&mut self, profile: UserProfile) -> (r: bool)
        requires
            old(self)@.wf(),
        ensures
            final(self)@.wf(),
            r == !old(self)@.has_profile(profile.owner),
            r ==> final(self)@ == (LedgerView {
                profiles: old(self)@.profiles.push(profile),
                ..old(self)@
            }),
            !r ==> final(self)@ == old(self)@,
    {
        if self.find_profile(&profile.owner).is_some() {
            return false;
        }
        self.profiles.push(profile);
        assert(self@.paywalls =~= old(self)@.paywalls);
        assert forall|i: int, j: int|
            0 <= i < j < self@.profiles.len() implies #[trigger] self@.profiles[i].owner
                != #[trigger] self@.profiles[j].owner by {
            if j == self@.profiles.len() - 1 {
                assert(!old(self)@.profile_at(i, profile.owner));
            }
        }
        true
    }

    /// Takes in a paywall that already exists elsewhere, unless its address
    /// is taken. Says whether it was taken in.
    pub fn load_paywall(&mut self, paywall: Paywall) -> (r: bool)
        requires
            old(self)@.wf(),
        ensures
            final(self)@.wf(),
            r == !old(self)@.has_paywall(paywall.creator, paywall.content_id@),
            r ==> final(self)@ == (LedgerView {
                paywalls: old(self)@.paywalls.push(paywall@),
                ..old(self)@
            }),
            !r ==> final(self)@ == old(self)@,
    {
        if self.find_paywall(&paywall.creator, &paywall.content_id).is_some() {
            return false;
        }
        let ghost pv = paywall@;
        self.paywalls.push(paywall);
        assert(self@.paywalls =~= old(self)@.paywalls.push(pv));
        assert(self@.profiles =~= old(self)@.profiles);
        assert forall|i: int, j: int|
            0 <= i < j < self@.paywalls.len() implies !(#[trigger] self@.paywalls[i].creator
                == #[trigger] self@.paywalls[j].creator && self@.paywalls[i].content_id
                == self@.paywalls[j].content_id) by {
            if j == self@.paywalls.len() - 1 {
                assert(!old(self)@.paywall_at(i, pv.creator, pv.content_id));
            }
        }
        true
    }

    /// Adds a fresh profile for an owner that has none.
    pub(crate) fn add_profile(&mut self, owner: Pubkey)
        requires
            old(self)@.wf(),
            !old(self)@.has_profile(owner),
        ensures
            final(self)@.wf(),
            final(self)@ == old(self)@.with_profile(owner),
    {
        self.profiles.push(UserProfile { owner, interaction_count: 0 });
        assert(self@.profiles =~= old(self)@.with_profile(owner).profiles);
        assert(self@.paywalls =~= old(self)@.paywalls);
        assert forall|i: int, j: int|
            0 <= i < j < self@.profiles.len() implies #[trigger] self@.profiles[i].owner
                != #[trigger] self@.profiles[j].owner by {
            if j == self@.profiles.len() - 1 {
                assert(!old(self)@.profile_at(i, owner));
            }
        }
    }

    /// Counts one more tip on the profile at `i`, unless its count is at its
    /// largest value. Says whether it was counted.
    pub(crate) fn add_interaction(&mut self, i: usize) -> (r: bool)
        requires
            old(self)@.wf(),
            0 <= i < old(self)@.profiles.len(),
        ensures
            final(self)@.wf(),
            r == (old(self)@.profiles[i as int].interaction_count < u64::MAX),
            r ==> final(self)@ == old(self)@.with_interaction(old(self)@.profiles[i as int].owner),
            !r ==> final(self)@ == old(self)@,
    {
        proof {
            old(self)@.lemma_profile_index(i as int, old(self)@.profiles[i as int].owner);
        }
        let mut p = self.profiles[i];
        if p.interaction_count == u64::MAX {
            return false;
        }
        p.interaction_count = p.interaction_count + 1;
        self.profiles.set(i, p);
        assert(self@.profiles =~= old(self)@.with_interaction(p.owner).profiles);
        assert(self@.paywalls =~= old(self)@.paywalls);
        true
    }

    /// Adds a fresh paywall at an address that holds none.
    pub(crate) fn add_paywall(
        &mut self,
        creator: Pubkey,
        content_id: String,
        price: u64,
        token_mint: Pubkey,
    )
        requires
            old(self)@.wf(),
            !old(self)@.has_paywall(creator, content_id@),
        ensures
            final(self)@.wf(),
            final(self)@ == old(self)@.with_paywall(creator, content_id@, price, token_mint),
    {
        let ghost cid = content_id@;
        self.paywalls.push(Paywall { creator, content_id, price, token_mint, access_count: 0 });
        let ghost target = old(self)@.with_paywall(creator, cid, price, token_mint);
        assert(self@.paywalls =~= target.paywalls);
        assert(self@.profiles =~= old(self)@.profiles);
        assert forall|i: int, j: int|
            0 <= i < j < self@.paywalls.len() implies !(#[trigger] self@.paywalls[i].creator
                == #[trigger] self@.paywalls[j].creator && self@.paywalls[i].content_id
                == self@.paywalls[j].content_id) by {
            if j == self@.paywalls.len() - 1 {
                assert(!old(self)@.paywall_at(i, creator, cid));
            }
        }
    }

    /// Counts one more unlock on the paywall at `i`, unless its count is at
    /// its largest value. Says whether it was counted.
    pub(crate) fn add_access(&mut self, i: usize) -> (r: bool)
        requires
            old(self)@.wf(),
            0 <= i < old(self)@.paywalls.len(),
        ensures
            final(self)@.wf(),
            r == (old(self)@.paywalls[i as int].access_count < u64::MAX),
            r ==> final(self)@ == old(self)@.with_access(
                old(self)@.paywalls[i as int].creator,
                old(self)@.paywalls[i as int].content_id,
            ),
            !r ==> final(self)@ == old(self)@,
    {
        let ghost pv = old(self)@.paywalls[i as int];
        proof {
            old(self)@.lemma_paywall_index(i as int, pv.creator, pv.content_id);
        }
        if self.paywalls[i].access_count == u64::MAX {
            return false;
        }
        let count = self.paywalls[i].access_count + 1;
        self.paywalls[i].access_count = count;
        assert(self@.paywalls =~= old(self)@.with_access(pv.creator, pv.content_id).paywalls);
        assert(self@.profiles =~= old(self)@.profiles);
        true
    }
}

} // verus!
