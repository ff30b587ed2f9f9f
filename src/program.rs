//! The escrow program: the records, their custody accounts, the source-id
//! correlations and the commit counter, and the operations on them.
use vstd::prelude::*;
use crate::bytes::{Pubkey, bytes_eq, is_zero, sha256, sha256_of};
use crate::custody::transfer_htlc_out;
use crate::error::HTLCError;
use crate::model::{
    ProgramView, deposit_refusal, with_deposit, after_commit, after_initialize, after_lock, after_lock_commit, after_redeem,
    after_unlock, commit_id, commit_refusal, fresh_record, initialize_refusal, lock_commit_refusal,
    lock_refusal, record_valid, redeem_refusal, unlock_refusal, unset, RouteView,
};
use crate::record::{Commit, CommitCounter, HTLC, HtlcView, IdStruct, Transfer, Vault};

verus! {

/// A record with its id and its custody account.
struct Entry {
    id: [u8; 32],
    htlc: HTLC,
    vault: Vault,
}

/// A source id and the id it is correlated with.
struct Correlation {
    src_id: [u8; 32],
    slot: IdStruct,
}

/// The escrow program's state.
pub struct HtlcProgram {
    owner: Pubkey,
    counter: Option<CommitCounter>,
    entries: Vec<Entry>,
    correlations: Vec<Correlation>,
    htlcs: Ghost<Map<Seq<u8>, HtlcView>>,
    vaults: Ghost<Map<Seq<u8>, Vault>>,
    src_ids: Ghost<Map<Seq<u8>, Seq<u8>>>,
}

impl View for HtlcProgram {
    type V = ProgramView;

    closed spec fn view(&self) -> ProgramView {
        ProgramView {
            owner: self.owner@,
            counter: self.counter,
            htlcs: self.htlcs@,
            vaults: self.vaults@,
            src_ids: self.src_ids@,
        }
    }
}

impl HtlcProgram {
    spec fn id_at(&self, i: int) -> Seq<u8> {
        self.entries@[i].id@
    }

    spec fn src_at(&self, i: int) -> Seq<u8> {
        self.correlations@[i].src_id@
    }

    spec fn entry_stored(&self, i: int) -> bool {
        &&& self.htlcs@.contains_key(self.id_at(i))
        &&& self.htlcs@[self.id_at(i)] == self.entries@[i].htlc@
        &&& self.vaults@[self.id_at(i)] == self.entries@[i].vault
    }

    spec fn correlation_stored(&self, i: int) -> bool {
        &&& self.src_ids@.contains_key(self.src_at(i))
        &&& self.src_ids@[self.src_at(i)] == self.correlations@[i].slot.id@
    }

    /// The entries hold exactly the records and custody accounts of the
    /// maps, each id once.
    spec fn entries_wf(&self) -> bool {
        &&& forall|i: int| 0 <= i < self.entries.len() ==> #[trigger] self.entry_stored(i)
        &&& forall|i: int, j: int|
            0 <= i < j < self.entries.len() ==> #[trigger] self.id_at(i) != #[trigger] self.id_at(j)
        &&& forall|k: Seq<u8>| #[trigger]
            self.htlcs@.contains_key(k) ==> exists|i: int|
                0 <= i < self.entries.len() && #[trigger] self.id_at(i) == k
    }

    /// The correlations hold exactly those of the map, each source id once.
    spec fn correlations_wf(&self) -> bool {
        &&& forall|i: int| 0 <= i < self.correlations.len() ==> #[trigger] self.correlation_stored(i)
        &&& forall|i: int, j: int|
            0 <= i < j < self.correlations.len() ==> #[trigger] self.src_at(i) != #[trigger] self.src_at(j)
        &&& forall|k: Seq<u8>| #[trigger]
            self.src_ids@.contains_key(k) ==> exists|i: int|
                0 <= i < self.correlations.len() && #[trigger] self.src_at(i) == k
    }

    /// The state is valid and the vectors hold exactly what the maps say.
    pub closed spec fn wf(&self) -> bool {
        &&& self@.valid()
        &&& self.entries_wf()
        &&& self.correlations_wf()
    }

    /// A well-formed program is in a valid state, so the laws over the model
    /// apply to it.
    pub proof fn lemma_state_valid(&self)
        requires
            self.wf(),
        ensures
            self@.valid(),
    {
    }

    proof fn lemma_entries_kept(a: &Self, b: &Self)
        requires
            a.entries_wf(),
            a.entries@ == b.entries@,
            a.htlcs@ == b.htlcs@,
            a.vaults@ == b.vaults@,
        ensures
            b.entries_wf(),
    {
        assert forall|i: int| 0 <= i < b.entries.len() implies #[trigger] b.entry_stored(i) by {
            assert(a.entry_stored(i));
        }
        assert forall|i: int, j: int| 0 <= i < j < b.entries.len() implies #[trigger] b.id_at(i)
            != #[trigger] b.id_at(j) by {
            assert(a.id_at(i) != a.id_at(j));
        }
        assert forall|k: Seq<u8>| #[trigger] b.htlcs@.contains_key(k) implies exists|i: int|
            0 <= i < b.entries.len() && #[trigger] b.id_at(i) == k by {
            let i = choose|i: int| 0 <= i < a.entries.len() && #[trigger] a.id_at(i) == k;
            assert(b.id_at(i) == k);
        }
    }

    proof fn lemma_correlations_kept(a: &Self, b: &Self)
        requires
            a.correlations_wf(),
            a.correlations@ == b.correlations@,
            a.src_ids@ == b.src_ids@,
        ensures
            b.correlations_wf(),
    {
        assert forall|i: int| 0 <= i < b.correlations.len() implies #[trigger] b.correlation_stored(i) by {
            assert(a.correlation_stored(i));
        }
        assert forall|i: int, j: int| 0 <= i < j < b.correlations.len() implies #[trigger] b.src_at(i)
            != #[trigger] b.src_at(j) by {
            assert(a.src_at(i) != a.src_at(j));
        }
        assert forall|k: Seq<u8>| #[trigger] b.src_ids@.contains_key(k) implies exists|i: int|
            0 <= i < b.correlations.len() && #[trigger] b.src_at(i) == k by {
            let i = choose|i: int| 0 <= i < a.correlations.len() && #[trigger] a.src_at(i) == k;
            assert(b.src_at(i) == k);
        }
    }

    /// An empty program whose commit counter may be created by `owner` alone.
    pub fn new(owner: Pubkey) -> (r: HtlcProgram)
        ensures
            r.wf(),
            r@ == (ProgramView {
                owner: owner@,
                counter: None,
                htlcs: Map::empty(),
                vaults: Map::empty(),
                src_ids: Map::empty(),
            }),
    {
        HtlcProgram {
            owner,
            counter: None,
            entries: Vec::new(),
            correlations: Vec::new(),
            htlcs: Ghost(Map::empty()),
            vaults: Ghost(Map::empty()),
            src_ids: Ghost(Map::empty()),
        }
    }

    /// Where the record with this id is stored.
    fn find(&self, id: &[u8; 32]) -> (r: Option<usize>)
        requires
            self.wf(),
        ensures
            match r {
                Some(i) => i < self.entries.len() && self.id_at(i as int) == id@
                    && self@.htlcs.contains_key(id@),
                None => !self@.htlcs.contains_key(id@),
            },
    {
        let mut i: usize = 0;
        while i < self.entries.len()
            invariant
                self.wf(),
                i <= self.entries.len(),
                forall|j: int| 0 <= j < i ==> self.id_at(j) != id@,
            decreases self.entries.len() - i,
        {
            if bytes_eq(&self.entries[i].id, id) {
                assert(self.entry_stored(i as int));
                return Some(i);
            }
            i = i + 1;
        }
        None
    }

    /// Where the correlation of this source id is stored.
    fn find_src(&self, src_id: &[u8; 32]) -> (r: Option<usize>)
        requires
            self.wf(),
        ensures
            match r {
                Some(i) => i < self.correlations.len() && self.src_at(i as int) == src_id@
                    && self@.src_ids.contains_key(src_id@)
                    && self@.src_ids[src_id@] == self.correlations@[i as int].slot.id@,
                None => !self@.src_ids.contains_key(src_id@),
            },
    {
        let mut i: usize = 0;
        while i < self.correlations.len()
            invariant
                self.wf(),
                i <= self.correlations.len(),
                forall|j: int| 0 <= j < i ==> self.src_at(j) != src_id@,
            decreases self.correlations.len() - i,
        {
            if bytes_eq(&self.correlations[i].src_id, src_id) {
                assert(self.correlation_stored(i as int));
                return Some(i);
            }
            i = i + 1;
        }
        None
    }

    /// The record stored under `id`, or `NotFound`.
    pub fn get_details(&self, id: [u8; 32]) -> (r: Result<HTLC, HTLCError>)
        requires
            self.wf(),
        ensures
            match r {
                Ok(h) => self@.htlcs.contains_key(id@) && h@ == self@.htlcs[id@],
                Err(e) => !self@.htlcs.contains_key(id@) && e == HTLCError::NotFound,
            },
    {
        match self.find(&id) {
            Some(i) => {
                assert(self.entry_stored(i as int));
                Ok(self.entries[i].htlc.copy())
            },
            None => Err(HTLCError::NotFound),
        }
    }

    /// The id that `src_id` is correlated with (all zero while only reserved),
    /// or `NotFound`.
    pub fn get_id_by_src_id(&self, src_id: [u8; 32]) -> (r: Result<[u8; 32], HTLCError>)
        requires
            self.wf(),
        ensures
            match r {
                Ok(id) => self@.src_ids.contains_key(src_id@) && id@ == self@.src_ids[src_id@],
                Err(e) => !self@.src_ids.contains_key(src_id@) && e == HTLCError::NotFound,
            },
    {
        match self.find_src(&src_id) {
            Some(i) => Ok(self.correlations[i].slot.id),
            None => Err(HTLCError::NotFound),
        }
    }

    /// The advisory id that the next commit would get: the counter's time base
    /// XOR the next count. `NotInitialized` before the counter exists.
    pub fn get_commit_id(&self) -> (r: Result<u64, HTLCError>)
        ensures
            match self@.counter {
                Some(c) => r == Ok::<u64, HTLCError>(commit_id(c)),
                None => r == Err::<u64, HTLCError>(HTLCError::NotInitialized),
            },
    {
        match self.counter {
            Some(c) => Ok(c.time ^ c.count.wrapping_add(1)),
            None => Err(HTLCError::NotInitialized),
        }
    }

    /// Stores a new record under a fresh id, with its custody account.
    fn push_entry(&mut self, id: [u8; 32], htlc: HTLC, vault: Vault)
        requires
            old(self).wf(),
            !old(self)@.htlcs.contains_key(id@),
            record_valid(htlc@, vault),
        ensures
            final(self).wf(),
            final(self)@ == (ProgramView {
                htlcs: old(self)@.htlcs.insert(id@, htlc@),
                vaults: old(self)@.vaults.insert(id@, vault),
                ..old(self)@
            }),
    {
        let ghost k = id@;
        let ghost v = htlc@;
        self.htlcs = Ghost(self.htlcs@.insert(k, v));
        self.vaults = Ghost(self.vaults@.insert(k, vault));
        self.entries.push(Entry { id, htlc, vault });
        let ghost n = self.entries.len() - 1;
        assert(self.id_at(n) == k);
        assert forall|i: int| 0 <= i < self.entries.len() implies #[trigger] self.entry_stored(i) by {
            if i < n {
                assert(old(self).entry_stored(i));
                assert(old(self).id_at(i) == self.id_at(i));
            }
        }
        assert forall|i: int, j: int| 0 <= i < j < self.entries.len() implies #[trigger] self.id_at(i)
            != #[trigger] self.id_at(j) by {
            assert(old(self).id_at(i) == self.id_at(i));
            if j < n {
                assert(old(self).id_at(j) == self.id_at(j));
            } else {
                assert(old(self).entry_stored(i));
            }
        }
        assert forall|q: Seq<u8>| #[trigger] self.htlcs@.contains_key(q) implies exists|i: int|
            0 <= i < self.entries.len() && #[trigger] self.id_at(i) == q by {
            if q == k {
                assert(self.id_at(n) == q);
            } else {
                let i = choose|i: int| 0 <= i < old(self).entries.len() && #[trigger] old(self).id_at(i) == q;
                assert(self.id_at(i) == q);
            }
        }
        proof {
            Self::lemma_correlations_kept(old(self), self);
        }
        assert(self.vaults@.dom() =~= self.htlcs@.dom());
    }

    /// Replaces the record and custody account stored at position `i`.
    fn set_entry(&mut self, i: usize, htlc: HTLC, vault: Vault)
        requires
            old(self).wf(),
            i < old(self).entries.len(),
            record_valid(htlc@, vault),
        ensures
            final(self).wf(),
            final(self)@ == (ProgramView {
                htlcs: old(self)@.htlcs.insert(old(self).id_at(i as int), htlc@),
                vaults: old(self)@.vaults.insert(old(self).id_at(i as int), vault),
                ..old(self)@
            }),
    {
        let ghost k = self.id_at(i as int);
        let ghost v = htlc@;
        assert(self.entry_stored(i as int));
        let id = self.entries[i].id;
        self.htlcs = Ghost(self.htlcs@.insert(k, v));
        self.vaults = Ghost(self.vaults@.insert(k, vault));
        self.entries.set(i, Entry { id, htlc, vault });
        assert forall|j: int| 0 <= j < self.entries.len() implies #[trigger] self.entry_stored(j) by {
            if j != i {
                assert(old(self).entry_stored(j));
                assert(old(self).id_at(j) == self.id_at(j));
                assert(old(self).id_at(j) != k);
            }
        }
        assert forall|a: int, b: int| 0 <= a < b < self.entries.len() implies #[trigger] self.id_at(a)
            != #[trigger] self.id_at(b) by {
            assert(old(self).id_at(a) == self.id_at(a));
            assert(old(self).id_at(b) == self.id_at(b));
        }
        assert forall|q: Seq<u8>| #[trigger] self.htlcs@.contains_key(q) implies exists|j: int|
            0 <= j < self.entries.len() && #[trigger] self.id_at(j) == q by {
            let j = choose|j: int| 0 <= j < old(self).entries.len() && #[trigger] old(self).id_at(j) == q;
            assert(self.id_at(j) == q);
        }
        proof {
            Self::lemma_correlations_kept(old(self), self);
        }
        assert(self.vaults@.dom() =~= self.htlcs@.dom());
    }

    /// Correlates `src_id` with `id`, replacing what it was correlated with.
    fn set_src(&mut self, src_id: [u8; 32], id: [u8; 32])
        requires
            old(self).wf(),
        ensures
            final(self).wf(),
            final(self)@ == (ProgramView { src_ids: old(self)@.src_ids.insert(src_id@, id@), ..old(self)@ }),
    {
        let ghost k = src_id@;
        let found = self.find_src(&src_id);
        self.src_ids = Ghost(self.src_ids@.insert(k, id@));
        match found {
            Some(i) => {
                self.correlations.set(i, Correlation { src_id, slot: IdStruct { id } });
                assert forall|j: int| 0 <= j < self.correlations.len() implies #[trigger] self.correlation_stored(j) by {
                    if j != i {
                        assert(old(self).correlation_stored(j));
                        assert(old(self).src_at(j) == self.src_at(j));
                        assert(old(self).src_at(j) != k);
                    }
                }
                assert forall|a: int, b: int| 0 <= a < b < self.correlations.len() implies #[trigger] self.src_at(a)
                    != #[trigger] self.src_at(b) by {
                    assert(old(self).src_at(a) == self.src_at(a));
                    assert(old(self).src_at(b) == self.src_at(b));
                }
                assert forall|q: Seq<u8>| #[trigger] self.src_ids@.contains_key(q) implies exists|j: int|
                    0 <= j < self.correlations.len() && #[trigger] self.src_at(j) == q by {
                    let j = choose|j: int| 0 <= j < old(self).correlations.len() && #[trigger] old(self).src_at(j) == q;
                    assert(self.src_at(j) == q);
                }
            },
            None => {
                self.correlations.push(Correlation { src_id, slot: IdStruct { id } });
                let ghost n = self.correlations.len() - 1;
                assert(self.src_at(n) == k);
                assert forall|j: int| 0 <= j < self.correlations.len() implies #[trigger] self.correlation_stored(j) by {
                    if j < n {
                        assert(old(self).correlation_stored(j));
                        assert(old(self).src_at(j) == self.src_at(j));
                    }
                }
                assert forall|a: int, b: int| 0 <= a < b < self.correlations.len() implies #[trigger] self.src_at(a)
                    != #[trigger] self.src_at(b) by {
                    assert(old(self).src_at(a) == self.src_at(a));
                    if b < n {
                        assert(old(self).src_at(b) == self.src_at(b));
                    } else {
                        assert(old(self).correlation_stored(a));
                    }
                }
                assert forall|q: Seq<u8>| #[trigger] self.src_ids@.contains_key(q) implies exists|j: int|
                    0 <= j < self.correlations.len() && #[trigger] self.src_at(j) == q by {
                    if q == k {
                        assert(self.src_at(n) == q);
                    } else {
                        let j = choose|j: int| 0 <= j < old(self).correlations.len() && #[trigger] old(self).src_at(j) == q;
                        assert(self.src_at(j) == q);
                    }
                }
            },
        }
        proof {
            Self::lemma_entries_kept(old(self), self);
        }
    }

    /// Creates the commit counter, at count zero and with a time base of
    /// 1000 times `now`. Only the owner may, and only once.
    pub fn initialize(&mut self, signer: Pubkey, now: u64) -> (r: Result<(), HTLCError>)
        requires
            old(self).wf(),
            now <= u64::MAX / 1000,
        ensures
            final(self).wf(),
            match initialize_refusal(old(self)@, signer@) {
                None => r is Ok && final(self)@ == after_initialize(old(self)@, now),
                Some(e) => r == Err::<(), HTLCError>(e) && final(self)@ == old(self)@,
            },
    {
        if !bytes_eq(&signer, &self.owner) {
            return Err(HTLCError::Unauthorized);
        }
        if self.counter.is_some() {
            return Err(HTLCError::AlreadyInitialized);
        }
        self.counter = Some(CommitCounter { count: 0, time: 1000 * now });
        proof {
            Self::lemma_entries_kept(old(self), self);
            Self::lemma_correlations_kept(old(self), self);
        }
        Ok(())
    }

    /// Reserves a correlation slot for `src_id`, unset until a `lock` fills
    /// it. Refused with `DuplicateSourceCorrelation` if the slot exists.
    pub fn init_id_by_src_id(&mut self, src_id: [u8; 32]) -> (r: Result<(), HTLCError>)
        requires
            old(self).wf(),
        ensures
            final(self).wf(),
            if old(self)@.src_ids.contains_key(src_id@) {
                r == Err::<(), HTLCError>(HTLCError::DuplicateSourceCorrelation)
                    && final(self)@ == old(self)@
            } else {
                r is Ok && final(self)@ == (ProgramView {
                    src_ids: old(self)@.src_ids.insert(src_id@, unset()),
                    ..old(self)@
                })
            },
    {
        if self.find_src(&src_id).is_some() {
            return Err(HTLCError::DuplicateSourceCorrelation);
        }
        let zero = [0u8; 32];
        assert(zero@ =~= unset());
        self.set_src(src_id, zero);
        Ok(())
    }

    /// The checks that a deposit makes before any state changes.
    fn check_deposit(ctx: &Commit, amount: u64, timelock: u64, now: u64) -> (r: Option<HTLCError>)
        ensures
            r == deposit_refusal(*ctx, amount, timelock, now),
    {
        if !bytes_eq(&ctx.sender_token_account.owner, &ctx.sender) {
            Some(HTLCError::Unauthorized)
        } else if !bytes_eq(&ctx.sender_token_account.mint, &ctx.token_contract) {
            Some(HTLCError::WrongToken)
        } else if timelock <= now {
            Some(HTLCError::NotFutureTimelock)
        } else if amount == 0 {
            Some(HTLCError::ZeroAmount)
        } else if ctx.sender_token_account.amount < amount {
            Some(HTLCError::InsufficientFunds)
        } else {
            None
        }
    }

    /// Stores a fresh record under `id` and puts `amount` in its custody.
    fn deposit(
        &mut self,
        ctx: &Commit,
        id: [u8; 32],
        hashlock: [u8; 32],
        dst_chain: String,
        dst_asset: String,
        dst_address: String,
        src_asset: String,
        src_receiver: Pubkey,
        timelock: u64,
        messenger: Pubkey,
        amount: u64,
    )
        requires
            old(self).wf(),
            !old(self)@.htlcs.contains_key(id@),
            amount > 0,
        ensures
            final(self).wf(),
            final(self)@ == with_deposit(
                old(self)@,
                id@,
                fresh_record(
                    *ctx,
                    (RouteView {
                        dst_chain: dst_chain@,
                        dst_asset: dst_asset@,
                        dst_address: dst_address@,
                        src_asset: src_asset@,
                    }),
                    hashlock@,
                    src_receiver@,
                    timelock,
                    messenger@,
                    amount,
                ),
            ),
    {
        let secret = [0u8; 32];
        assert(secret@ =~= unset());
        let htlc = HTLC {
            dst_address,
            dst_chain,
            dst_asset,
            src_asset,
            sender: ctx.sender,
            src_receiver,
            hashlock,
            secret,
            amount,
            timelock,
            messenger,
            token_contract: ctx.token_contract,
            token_wallet: ctx.htlc_token_account,
            redeemed: false,
            unlocked: false,
        };
        self.push_entry(id, htlc, Vault { balance: amount, open: true });
    }

    /// Opens a swap whose hashlock is not known yet: deposits `amount` from
    /// the sender's token account into custody under `id`, with the hashlock
    /// unset, and counts the commit. The hop lists are accepted and not kept.
    pub fn commit(
        &mut self,
        ctx: Commit,
        id: [u8; 32],
        _hop_chains: Vec<String>,
        _hop_assets: Vec<String>,
        _hop_address: Vec<String>,
        dst_chain: String,
        dst_asset: String,
        dst_address: String,
        src_asset: String,
        src_receiver: Pubkey,
        timelock: u64,
        messenger: Pubkey,
        amount: u64,
        now: u64,
    ) -> (r: Result<(), HTLCError>)
        requires
            old(self).wf(),
        ensures
            final(self).wf(),
            match commit_refusal(old(self)@, ctx, id@, amount, timelock, now) {
                None => r is Ok && final(self)@ == after_commit(
                    old(self)@,
                    id@,
                    fresh_record(
                        ctx,
                        (RouteView {
                            dst_chain: dst_chain@,
                            dst_asset: dst_asset@,
                            dst_address: dst_address@,
                            src_asset: src_asset@,
                        }),
                        unset(),
                        src_receiver@,
                        timelock,
                        messenger@,
                        amount,
                    ),
                ),
                Some(e) => r == Err::<(), HTLCError>(e) && final(self)@ == old(self)@,
            },
    {
        if self.find(&id).is_some() {
            return Err(HTLCError::DuplicateId);
        }
        let counter = match self.counter {
            Some(c) => c,
            None => {
                return Err(HTLCError::NotInitialized);
            },
        };
        match Self::check_deposit(&ctx, amount, timelock, now) {
            Some(e) => {
                return Err(e);
            },
            None => {},
        }
        let hashlock = [0u8; 32];
        assert(hashlock@ =~= unset());
        self.deposit(
            &ctx,
            id,
            hashlock,
            dst_chain,
            dst_asset,
            dst_address,
            src_asset,
            src_receiver,
            timelock,
            messenger,
            amount,
        );
        let ghost mid = *self;
        self.counter = Some(CommitCounter { count: counter.count.wrapping_add(1), time: counter.time });
        proof {
            Self::lemma_entries_kept(&mid, self);
            Self::lemma_correlations_kept(&mid, self);
        }
        Ok(())
    }

    /// Opens a swap whose hashlock is its own id, and correlates `src_id`
    /// with `id`: deposits `amount` from the sender's token account into
    /// custody under `id`.
    pub fn lock(
        &mut self,
        ctx: Commit,
        id: [u8; 32],
        src_id: [u8; 32],
        timelock: u64,
        dst_chain: String,
        dst_address: String,
        dst_asset: String,
        src_asset: String,
        src_receiver: Pubkey,
        messenger: Pubkey,
        amount: u64,
        now: u64,
    ) -> (r: Result<(), HTLCError>)
        requires
            old(self).wf(),
        ensures
            final(self).wf(),
            match lock_refusal(old(self)@, ctx, id@, src_id@, amount, timelock, now) {
                None => r is Ok && final(self)@ == after_lock(
                    old(self)@,
                    id@,
                    src_id@,
                    fresh_record(
                        ctx,
                        (RouteView {
                            dst_chain: dst_chain@,
                            dst_asset: dst_asset@,
                            dst_address: dst_address@,
                            src_asset: src_asset@,
                        }),
                        id@,
                        src_receiver@,
                        timelock,
                        messenger@,
                        amount,
                    ),
                ),
                Some(e) => r == Err::<(), HTLCError>(e) && final(self)@ == old(self)@,
            },
    {
        if self.find(&id).is_some() {
            return Err(HTLCError::DuplicateId);
        }
        match self.find_src(&src_id) {
            Some(j) => {
                let current = self.correlations[j].slot.id;
                if !is_zero(&current) && !bytes_eq(&current, &id) {
                    return Err(HTLCError::DuplicateSourceCorrelation);
                }
            },
            None => {},
        }
        match Self::check_deposit(&ctx, amount, timelock, now) {
            Some(e) => {
                return Err(e);
            },
            None => {},
        }
        self.deposit(
            &ctx,
            id,
            id,
            dst_chain,
            dst_asset,
            dst_address,
            src_asset,
            src_receiver,
            timelock,
            messenger,
            amount,
        );
        self.set_src(src_id, id);
        Ok(())
    }

    /// Sets the hashlock and a new timelock of a swap opened by `commit`.
    /// Only its sender or messenger may, only while the hashlock is unset and
    /// the swap unsettled, and only with a timelock after `now`.
    #[allow(non_snake_case)]
    pub fn lockCommit(
        &mut self,
        caller: Pubkey,
        id: [u8; 32],
        hashlock: [u8; 32],
        timelock: u64,
        now: u64,
    ) -> (r: Result<(), HTLCError>)
        requires
            old(self).wf(),
        ensures
            final(self).wf(),
            match lock_commit_refusal(old(self)@, caller@, id@, timelock, now) {
                None => r is Ok && final(self)@ == after_lock_commit(
                    old(self)@,
                    id@,
                    hashlock@,
                    timelock,
                ),
                Some(e) => r == Err::<(), HTLCError>(e) && final(self)@ == old(self)@,
            },
    {
        let i = match self.find(&id) {
            Some(i) => i,
            None => {
                return Err(HTLCError::NotFound);
            },
        };
        assert(self.entry_stored(i as int));
        let h = &self.entries[i].htlc;
        if !bytes_eq(&caller, &h.sender) && !bytes_eq(&caller, &h.messenger) {
            return Err(HTLCError::Unauthorized);
        }
        if !is_zero(&h.hashlock) {
            return Err(HTLCError::HashlockAlreadySet);
        }
        if timelock <= now {
            return Err(HTLCError::NotFutureTimelock);
        }
        if h.redeemed {
            return Err(HTLCError::AlreadyRedeemed);
        }
        if h.unlocked {
            return Err(HTLCError::AlreadyUnlocked);
        }
        let vault = self.entries[i].vault;
        let mut updated = h.copy();
        updated.hashlock = hashlock;
        updated.timelock = timelock;
        self.set_entry(i, updated, vault);
        assert(self@.vaults =~= old(self)@.vaults);
        Ok(())
    }

    /// Pays a swap to its receiver, given the SHA-256 digest of `secret`:
    /// allowed while the swap is unsettled and its hashlock is set and equal
    /// to the digest, at any time. Records the secret; the custody account is
    /// emptied and closed.
    pub fn redeem_hashed(&mut self, id: [u8; 32], secret: [u8; 32], digest: [u8; 32]) -> (r: Result<
        Transfer,
        HTLCError,
    >)
        requires
            old(self).wf(),
        ensures
            final(self).wf(),
            match redeem_refusal(old(self)@, id@, digest@) {
                None => match r {
                    Ok(t) => {
                        &&& final(self)@ == after_redeem(old(self)@, id@, secret@)
                        &&& t.to@ == old(self)@.htlcs[id@].src_receiver
                        &&& t.amount == old(self)@.htlcs[id@].amount
                        &&& t.close
                    },
                    Err(_) => false,
                },
                Some(e) => r == Err::<Transfer, HTLCError>(e) && final(self)@ == old(self)@,
            },
    {
        let i = match self.find(&id) {
            Some(i) => i,
            None => {
                return Err(HTLCError::NotFound);
            },
        };
        assert(self.entry_stored(i as int));
        let h = &self.entries[i].htlc;
        if h.redeemed {
            return Err(HTLCError::AlreadyRedeemed);
        }
        if h.unlocked {
            return Err(HTLCError::AlreadyUnlocked);
        }
        if is_zero(&h.hashlock) {
            return Err(HTLCError::HashlockNotSet);
        }
        if !bytes_eq(&digest, &h.hashlock) {
            return Err(HTLCError::HashlockMismatch);
        }
        let mut vault = self.entries[i].vault;
        let transfer = match transfer_htlc_out(&mut vault, h.src_receiver, h.amount) {
            Ok(t) => t,
            Err(e) => {
                return Err(e);
            },
        };
        let mut updated = h.copy();
        updated.redeemed = true;
        updated.secret = secret;
        self.set_entry(i, updated, vault);
        Ok(transfer)
    }

    /// Pays a swap to its receiver if SHA-256 of `secret` is its hashlock;
    /// see [`HtlcProgram::redeem_hashed`].
    pub fn redeem(&mut self, id: [u8; 32], secret: [u8; 32]) -> (r: Result<Transfer, HTLCError>)
        requires
            old(self).wf(),
        ensures
            final(self).wf(),
            match redeem_refusal(old(self)@, id@, sha256_of(secret@)) {
                None => match r {
                    Ok(t) => {
                        &&& final(self)@ == after_redeem(old(self)@, id@, secret@)
                        &&& t.to@ == old(self)@.htlcs[id@].src_receiver
                        &&& t.amount == old(self)@.htlcs[id@].amount
                        &&& t.close
                    },
                    Err(_) => false,
                },
                Some(e) => r == Err::<Transfer, HTLCError>(e) && final(self)@ == old(self)@,
            },
    {
        let digest = sha256(&secret);
        self.redeem_hashed(id, secret, digest)
    }

    /// Returns a swap's deposit to its sender: only the sender may, once
    /// `now` has reached the timelock, while the swap is unsettled. The
    /// custody account is emptied and closed.
    pub fn unlock(&mut self, caller: Pubkey, id: [u8; 32], now: u64) -> (r: Result<
        Transfer,
        HTLCError,
    >)
        requires
            old(self).wf(),
        ensures
            final(self).wf(),
            match unlock_refusal(old(self)@, caller@, id@, now) {
                None => match r {
                    Ok(t) => {
                        &&& final(self)@ == after_unlock(old(self)@, id@)
                        &&& t.to@ == old(self)@.htlcs[id@].sender
                        &&& t.amount == old(self)@.htlcs[id@].amount
                        &&& t.close
                    },
                    Err(_) => false,
                },
                Some(e) => r == Err::<Transfer, HTLCError>(e) && final(self)@ == old(self)@,
            },
    {
        let i = match self.find(&id) {
            Some(i) => i,
            None => {
                return Err(HTLCError::NotFound);
            },
        };
        assert(self.entry_stored(i as int));
        let h = &self.entries[i].htlc;
        if !bytes_eq(&caller, &h.sender) {
            return Err(HTLCError::Unauthorized);
        }
        if h.unlocked {
            return Err(HTLCError::AlreadyUnlocked);
        }
        if h.redeemed {
            return Err(HTLCError::AlreadyRedeemed);
        }
        if now < h.timelock {
            return Err(HTLCError::NotPastTimelock);
        }
        let mut vault = self.entries[i].vault;
        let transfer = match transfer_htlc_out(&mut vault, h.sender, h.amount) {
            Ok(t) => t,
            Err(e) => {
                return Err(e);
            },
        };
        let mut updated = h.copy();
        updated.unlocked = true;
        self.set_entry(i, updated, vault);
        Ok(transfer)
    }
}

} // verus!
