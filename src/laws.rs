//! What holds of every run of the escrow program, proved over the model.
use vstd::prelude::*;
use crate::bytes::is_unset;
use crate::error::HTLCError;
use crate::model::{
    ProgramView, Op, RouteView, after_commit, after_redeem, after_unlock, commit_refusal,
    fresh_record, next, stage_of, stage_step, redeem_refusal, refusal, settled, unlock_refusal, unset,
};
use crate::record::Commit;

verus! {

/// Every operation keeps the state valid: a positive amount per swap, never
/// both redeemed and unlocked, and custody holding the whole amount until
/// the swap settles and nothing after.
pub proof fn lemma_valid_preserved(s: ProgramView, op: Op)
    requires
        s.valid(),
    ensures
        next(s, op).valid(),
{
    let t = next(s, op);
    assert(t.vaults.dom() =~= t.htlcs.dom());
}

/// A commit with a positive amount and a timelock after the current time is
/// refused only for a taken id, a missing counter or the deposit accounts;
/// once made, the record it leaves has no hashlock and is neither redeemed
/// nor unlocked.
pub proof fn lemma_commit_leaves_fresh_record(
    s: ProgramView,
    ctx: Commit,
    id: Seq<u8>,
    route: RouteView,
    src_receiver: Seq<u8>,
    timelock: u64,
    messenger: Seq<u8>,
    amount: u64,
    now: u64,
)
    requires
        amount > 0,
        timelock > now,
    ensures
        commit_refusal(s, ctx, id, amount, timelock, now) != Some(HTLCError::ZeroAmount),
        commit_refusal(s, ctx, id, amount, timelock, now) != Some(HTLCError::NotFutureTimelock),
        commit_refusal(s, ctx, id, amount, timelock, now) is None ==> {
            let t = after_commit(
                s,
                id,
                fresh_record(ctx, route, unset(), src_receiver, timelock, messenger, amount),
            );
            &&& t.htlcs.contains_key(id)
            &&& is_unset(t.htlcs[id].hashlock)
            &&& !t.htlcs[id].redeemed
            &&& !t.htlcs[id].unlocked
        },
{
}

/// `redeem` succeeds exactly when the digest of the secret is the record's
/// hashlock, that hashlock is set, and the swap is unsettled. After it the
/// swap is redeemed, and any further `redeem` is refused with
/// `AlreadyRedeemed`, as is an `unlock` by the sender.
pub proof fn lemma_redeem_exactly_when(s: ProgramView, id: Seq<u8>, secret: Seq<u8>, digest: Seq<u8>)
    requires
        s.valid(),
        s.htlcs.contains_key(id),
    ensures
        redeem_refusal(s, id, digest) is None <==> {
            &&& digest == s.htlcs[id].hashlock
            &&& !is_unset(s.htlcs[id].hashlock)
            &&& !s.htlcs[id].redeemed
            &&& !s.htlcs[id].unlocked
        },
        redeem_refusal(s, id, digest) is None ==> {
            let t = after_redeem(s, id, secret);
            &&& t.htlcs[id].redeemed
            &&& forall|d: Seq<u8>| redeem_refusal(t, id, d) == Some(HTLCError::AlreadyRedeemed)
            &&& forall|now: u64|
                unlock_refusal(t, s.htlcs[id].sender, id, now) == Some(HTLCError::AlreadyRedeemed)
        },
{
}

/// `unlock` succeeds exactly when the caller is the sender, the timelock
/// has been reached and the swap is unsettled. After it the swap is
/// unlocked, and any further `unlock` by the sender is refused with
/// `AlreadyUnlocked`, as is every `redeem`.
pub proof fn lemma_unlock_exactly_when(s: ProgramView, caller: Seq<u8>, id: Seq<u8>, now: u64)
    requires
        s.valid(),
        s.htlcs.contains_key(id),
    ensures
        unlock_refusal(s, caller, id, now) is None <==> {
            &&& now >= s.htlcs[id].timelock
            &&& !s.htlcs[id].redeemed
            &&& !s.htlcs[id].unlocked
            &&& caller == s.htlcs[id].sender
        },
        unlock_refusal(s, caller, id, now) is None ==> {
            let t = after_unlock(s, id);
            &&& t.htlcs[id].unlocked
            &&& forall|n: u64|
                unlock_refusal(t, caller, id, n) == Some(HTLCError::AlreadyUnlocked)
            &&& forall|d: Seq<u8>| redeem_refusal(t, id, d) == Some(HTLCError::AlreadyUnlocked)
        },
{
}

/// Once a swap is settled it stays settled the same way, and no operation
/// moves its funds again: `redeem` and `unlock` of it are refused, and its
/// custody account is left as it is.
pub proof fn lemma_settled_is_final(s: ProgramView, op: Op, id: Seq<u8>)
    requires
        s.valid(),
        s.htlcs.contains_key(id),
        settled(s.htlcs[id]),
    ensures
        next(s, op).htlcs.contains_key(id),
        next(s, op).htlcs[id].redeemed == s.htlcs[id].redeemed,
        next(s, op).htlcs[id].unlocked == s.htlcs[id].unlocked,
        next(s, op).vaults[id] == s.vaults[id],
        forall|d: Seq<u8>| redeem_refusal(s, id, d) is Some,
        forall|caller: Seq<u8>, now: u64| unlock_refusal(s, caller, id, now) is Some,
{
}

/// Once a record's hashlock is set, no operation changes it or the
/// timelock; a `lockCommit` by its sender or messenger is refused with
/// `HashlockAlreadySet`.
pub proof fn lemma_hashlock_immutable(s: ProgramView, op: Op, id: Seq<u8>)
    requires
        s.htlcs.contains_key(id),
        !is_unset(s.htlcs[id].hashlock),
    ensures
        next(s, op).htlcs.contains_key(id),
        next(s, op).htlcs[id].hashlock == s.htlcs[id].hashlock,
        next(s, op).htlcs[id].timelock == s.htlcs[id].timelock,
        forall|caller: Seq<u8>, hashlock: Seq<u8>, timelock: u64, now: u64|
            (caller == s.htlcs[id].sender || caller == s.htlcs[id].messenger) ==> refusal(
                s,
                Op::LockCommit { caller, id, hashlock, timelock, now },
            ) == Some(HTLCError::HashlockAlreadySet),
{
}

/// Records are never removed, and what a record was created with stays:
/// the parties, the amount, the token, the custody account and the routing
/// data.
pub proof fn lemma_record_kept(s: ProgramView, op: Op, id: Seq<u8>)
    requires
        s.htlcs.contains_key(id),
    ensures
        next(s, op).htlcs.contains_key(id),
        ({
            let (a, b) = (s.htlcs[id], next(s, op).htlcs[id]);
            &&& b.sender == a.sender
            &&& b.src_receiver == a.src_receiver
            &&& b.messenger == a.messenger
            &&& b.amount == a.amount
            &&& b.token_contract == a.token_contract
            &&& b.token_wallet == a.token_wallet
            &&& b.dst_address == a.dst_address
            &&& b.dst_chain == a.dst_chain
            &&& b.dst_asset == a.dst_asset
            &&& b.src_asset == a.src_asset
        }),
{
}

/// A swap moves only from `Created` to `HashlockSet` or `Unlocked`, and from
/// `HashlockSet` to `Redeemed` or `Unlocked`; `Redeemed` and `Unlocked` are
/// final. A new swap starts unsettled.
pub proof fn lemma_stage_moves(s: ProgramView, op: Op, id: Seq<u8>)
    ensures
        s.htlcs.contains_key(id) ==> stage_step(
            stage_of(s.htlcs[id]),
            stage_of(next(s, op).htlcs[id]),
        ),
        !s.htlcs.contains_key(id) && next(s, op).htlcs.contains_key(id) ==> !settled(
            next(s, op).htlcs[id],
        ),
{
}

} // verus!
