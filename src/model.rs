//! The abstract state of the escrow program and what each operation does to it.
use vstd::prelude::*;
use crate::bytes::is_unset;
use crate::custody::after_payout;
use crate::error::HTLCError;
use crate::record::{Commit, CommitCounter, HtlcView, Vault};

verus! {

/// The whole state: records and custody accounts by swap id, correlations by
/// source id, and the commit counter once it exists.
pub struct ProgramView {
    /// The only address allowed to create the commit counter.
    pub owner: Seq<u8>,
    pub counter: Option<CommitCounter>,
    pub htlcs: Map<Seq<u8>, HtlcView>,
    pub vaults: Map<Seq<u8>, Vault>,
    pub src_ids: Map<Seq<u8>, Seq<u8>>,
}

/// The 32-byte zero value.
pub open spec fn unset() -> Seq<u8> {
    Seq::new(32, |i: int| 0u8)
}

/// Where a swap stands in its life.
#[derive(Debug, Clone, Copy, PartialEq, Eq, Structural)]
pub enum Stage {
    /// Funded, with no hashlock yet.
    Created,
    /// Funded and hashlocked.
    HashlockSet,
    /// Paid to the receiver.
    Redeemed,
    /// Returned to the sender.
    Unlocked,
}

pub open spec fn stage_of(h: HtlcView) -> Stage {
    if h.redeemed {
        Stage::Redeemed
    } else if h.unlocked {
        Stage::Unlocked
    } else if is_unset(h.hashlock) {
        Stage::Created
    } else {
        Stage::HashlockSet
    }
}

/// The moves a swap can make from one stage to the next; staying put is one.
pub open spec fn stage_step(a: Stage, b: Stage) -> bool {
    a == b || match a {
        Stage::Created => b == Stage::HashlockSet || b == Stage::Unlocked,
        Stage::HashlockSet => b == Stage::Redeemed || b == Stage::Unlocked,
        _ => false,
    }
}

/// A swap is settled once it was redeemed or unlocked.
pub open spec fn settled(h: HtlcView) -> bool {
    h.redeemed || h.unlocked
}

/// What holds of every record and its custody account: a positive amount, at
/// most one of the two outcomes, and the custody account holding the whole
/// amount until the swap settles, then empty and closed.
pub open spec fn record_valid(h: HtlcView, v: Vault) -> bool {
    &&& h.amount > 0
    &&& !(h.redeemed && h.unlocked)
    &&& if settled(h) {
        v.balance == 0 && !v.open
    } else {
        v.balance == h.amount && v.open
    }
}

impl ProgramView {
    pub open spec fn valid(self) -> bool {
        &&& self.vaults.dom() == self.htlcs.dom()
        &&& forall|id: Seq<u8>| #[trigger]
            self.htlcs.contains_key(id) ==> record_valid(self.htlcs[id], self.vaults[id])
    }
}

/// The counter value after one more commit; it wraps around at `u64::MAX`.
pub open spec fn next_count(count: u64) -> u64 {
    if count == u64::MAX {
        0
    } else {
        (count + 1) as u64
    }
}

/// The advisory id that the next commit would get.
pub open spec fn commit_id(c: CommitCounter) -> u64 {
    c.time ^ next_count(c.count)
}

pub open spec fn initialize_refusal(s: ProgramView, signer: Seq<u8>) -> Option<HTLCError> {
    if signer != s.owner {
        Some(HTLCError::Unauthorized)
    } else if s.counter is Some {
        Some(HTLCError::AlreadyInitialized)
    } else {
        None
    }
}

pub open spec fn after_initialize(s: ProgramView, now: u64) -> ProgramView {
    ProgramView { counter: Some(CommitCounter { count: 0, time: (1000 * now) as u64 }), ..s }
}

/// The checks that a deposit makes of its accounts, times and amount.
pub open spec fn deposit_refusal(ctx: Commit, amount: u64, timelock: u64, now: u64) -> Option<
    HTLCError,
> {
    if ctx.sender_token_account.owner@ != ctx.sender@ {
        Some(HTLCError::Unauthorized)
    } else if ctx.sender_token_account.mint@ != ctx.token_contract@ {
        Some(HTLCError::WrongToken)
    } else if timelock <= now {
        Some(HTLCError::NotFutureTimelock)
    } else if amount == 0 {
        Some(HTLCError::ZeroAmount)
    } else if ctx.sender_token_account.amount < amount {
        Some(HTLCError::InsufficientFunds)
    } else {
        None
    }
}

/// The routing data that a record carries without reading it.
pub struct RouteView {
    pub dst_chain: Seq<char>,
    pub dst_asset: Seq<char>,
    pub dst_address: Seq<char>,
    pub src_asset: Seq<char>,
}

/// A fresh record: nothing revealed, nothing settled.
pub open spec fn fresh_record(
    ctx: Commit,
    route: RouteView,
    hashlock: Seq<u8>,
    src_receiver: Seq<u8>,
    timelock: u64,
    messenger: Seq<u8>,
    amount: u64,
) -> HtlcView {
    HtlcView {
        dst_address: route.dst_address,
        dst_chain: route.dst_chain,
        dst_asset: route.dst_asset,
        src_asset: route.src_asset,
        sender: ctx.sender@,
        src_receiver,
        hashlock,
        secret: unset(),
        amount,
        timelock,
        messenger,
        token_contract: ctx.token_contract@,
        token_wallet: ctx.htlc_token_account@,
        redeemed: false,
        unlocked: false,
    }
}

pub open spec fn commit_refusal(
    s: ProgramView,
    ctx: Commit,
    id: Seq<u8>,
    amount: u64,
    timelock: u64,
    now: u64,
) -> Option<HTLCError> {
    if s.htlcs.contains_key(id) {
        Some(HTLCError::DuplicateId)
    } else if s.counter is None {
        Some(HTLCError::NotInitialized)
    } else {
        deposit_refusal(ctx, amount, timelock, now)
    }
}

/// The state after a deposit under `id` of a record `h`.
pub open spec fn with_deposit(s: ProgramView, id: Seq<u8>, h: HtlcView) -> ProgramView {
    ProgramView {
        htlcs: s.htlcs.insert(id, h),
        vaults: s.vaults.insert(id, Vault { balance: h.amount, open: true }),
        ..s
    }
}

pub open spec fn after_commit(s: ProgramView, id: Seq<u8>, h: HtlcView) -> ProgramView {
    ProgramView {
        counter: Some(
            CommitCounter { count: next_count(s.counter->Some_0.count), ..s.counter->Some_0 },
        ),
        ..with_deposit(s, id, h)
    }
}

pub open spec fn lock_refusal(
    s: ProgramView,
    ctx: Commit,
    id: Seq<u8>,
    src_id: Seq<u8>,
    amount: u64,
    timelock: u64,
    now: u64,
) -> Option<HTLCError> {
    if s.htlcs.contains_key(id) {
        Some(HTLCError::DuplicateId)
    } else if s.src_ids.contains_key(src_id) && !is_unset(s.src_ids[src_id])
        && s.src_ids[src_id] != id {
        Some(HTLCError::DuplicateSourceCorrelation)
    } else {
        deposit_refusal(ctx, amount, timelock, now)
    }
}

pub open spec fn after_lock(s: ProgramView, id: Seq<u8>, src_id: Seq<u8>, h: HtlcView) -> ProgramView {
    ProgramView { src_ids: s.src_ids.insert(src_id, id), ..with_deposit(s, id, h) }
}

pub open spec fn lock_commit_refusal(
    s: ProgramView,
    caller: Seq<u8>,
    id: Seq<u8>,
    timelock: u64,
    now: u64,
) -> Option<HTLCError> {
    if !s.htlcs.contains_key(id) {
        Some(HTLCError::NotFound)
    } else if caller != s.htlcs[id].sender && caller != s.htlcs[id].messenger {
        Some(HTLCError::Unauthorized)
    } else if !is_unset(s.htlcs[id].hashlock) {
        Some(HTLCError::HashlockAlreadySet)
    } else if timelock <= now {
        Some(HTLCError::NotFutureTimelock)
    } else if s.htlcs[id].redeemed {
        Some(HTLCError::AlreadyRedeemed)
    } else if s.htlcs[id].unlocked {
        Some(HTLCError::AlreadyUnlocked)
    } else {
        None
    }
}

pub open spec fn after_lock_commit(
    s: ProgramView,
    id: Seq<u8>,
    hashlock: Seq<u8>,
    timelock: u64,
) -> ProgramView {
    ProgramView {
        htlcs: s.htlcs.insert(id, HtlcView { hashlock, timelock, ..s.htlcs[id] }),
        ..s
    }
}

/// Why `redeem` refuses, given the SHA-256 digest of the secret offered.
pub open spec fn redeem_refusal(s: ProgramView, id: Seq<u8>, digest: Seq<u8>) -> Option<HTLCError> {
    if !s.htlcs.contains_key(id) {
        Some(HTLCError::NotFound)
    } else if s.htlcs[id].redeemed {
        Some(HTLCError::AlreadyRedeemed)
    } else if s.htlcs[id].unlocked {
        Some(HTLCError::AlreadyUnlocked)
    } else if is_unset(s.htlcs[id].hashlock) {
        Some(HTLCError::HashlockNotSet)
    } else if digest != s.htlcs[id].hashlock {
        Some(HTLCError::HashlockMismatch)
    } else {
        None
    }
}

pub open spec fn after_redeem(s: ProgramView, id: Seq<u8>, secret: Seq<u8>) -> ProgramView {
    ProgramView {
        htlcs: s.htlcs.insert(id, HtlcView { redeemed: true, secret, ..s.htlcs[id] }),
        vaults: s.vaults.insert(id, after_payout(s.vaults[id], s.htlcs[id].amount)),
        ..s
    }
}

pub open spec fn unlock_refusal(s: ProgramView, caller: Seq<u8>, id: Seq<u8>, now: u64) -> Option<
    HTLCError,
> {
    if !s.htlcs.contains_key(id) {
        Some(HTLCError::NotFound)
    } else if caller != s.htlcs[id].sender {
        Some(HTLCError::Unauthorized)
    } else if s.htlcs[id].unlocked {
        Some(HTLCError::AlreadyUnlocked)
    } else if s.htlcs[id].redeemed {
        Some(HTLCError::AlreadyRedeemed)
    } else if now < s.htlcs[id].timelock {
        Some(HTLCError::NotPastTimelock)
    } else {
        None
    }
}

pub open spec fn after_unlock(s: ProgramView, id: Seq<u8>) -> ProgramView {
    ProgramView {
        htlcs: s.htlcs.insert(id, HtlcView { unlocked: true, ..s.htlcs[id] }),
        vaults: s.vaults.insert(id, after_payout(s.vaults[id], s.htlcs[id].amount)),
        ..s
    }
}


/// A state-changing operation with its inputs, as the model sees them.
/// `Redeem` carries the SHA-256 digest of the secret offered.
pub enum Op {
    Initialize { signer: Seq<u8>, now: u64 },
    InitIdBySrcId { src_id: Seq<u8> },
    Commit {
        ctx: Commit,
        id: Seq<u8>,
        route: RouteView,
        src_receiver: Seq<u8>,
        timelock: u64,
        messenger: Seq<u8>,
        amount: u64,
        now: u64,
    },
    Lock {
        ctx: Commit,
        id: Seq<u8>,
        src_id: Seq<u8>,
        route: RouteView,
        src_receiver: Seq<u8>,
        timelock: u64,
        messenger: Seq<u8>,
        amount: u64,
        now: u64,
    },
    LockCommit { caller: Seq<u8>, id: Seq<u8>, hashlock: Seq<u8>, timelock: u64, now: u64 },
    Redeem { id: Seq<u8>, secret: Seq<u8>, digest: Seq<u8> },
    Unlock { caller: Seq<u8>, id: Seq<u8>, now: u64 },
}

/// Why an operation is refused in state `s`, if it is.
pub open spec fn refusal(s: ProgramView, op: Op) -> Option<HTLCError> {
    match op {
        Op::Initialize { signer, now } => initialize_refusal(s, signer),
        Op::InitIdBySrcId { src_id } => if s.src_ids.contains_key(src_id) {
            Some(HTLCError::DuplicateSourceCorrelation)
        } else {
            None
        },
        Op::Commit { ctx, id, amount, timelock, now, .. } => commit_refusal(
            s,
            ctx,
            id,
            amount,
            timelock,
            now,
        ),
        Op::Lock { ctx, id, src_id, amount, timelock, now, .. } => lock_refusal(
            s,
            ctx,
            id,
            src_id,
            amount,
            timelock,
            now,
        ),
        Op::LockCommit { caller, id, timelock, now, .. } => lock_commit_refusal(
            s,
            caller,
            id,
            timelock,
            now,
        ),
        Op::Redeem { id, digest, .. } => redeem_refusal(s, id, digest),
        Op::Unlock { caller, id, now } => unlock_refusal(s, caller, id, now),
    }
}

/// The state after an operation; a refused one changes nothing.
pub open spec fn next(s: ProgramView, op: Op) -> ProgramView {
    if refusal(s, op) is Some {
        s
    } else {
        match op {
            Op::Initialize { now, .. } => after_initialize(s, now),
            Op::InitIdBySrcId { src_id } => ProgramView {
                src_ids: s.src_ids.insert(src_id, unset()),
                ..s
            },
            Op::Commit { ctx, id, route, src_receiver, timelock, messenger, amount, .. } => after_commit(
                s,
                id,
                fresh_record(ctx, route, unset(), src_receiver, timelock, messenger, amount),
            ),
            Op::Lock { ctx, id, src_id, route, src_receiver, timelock, messenger, amount, .. } => after_lock(
                s,
                id,
                src_id,
                fresh_record(ctx, route, id, src_receiver, timelock, messenger, amount),
            ),
            Op::LockCommit { id, hashlock, timelock, .. } => after_lock_commit(s, id, hashlock, timelock),
            Op::Redeem { id, secret, .. } => after_redeem(s, id, secret),
            Op::Unlock { id, .. } => after_unlock(s, id),
        }
    }
}

} // verus!
