use htlc::{transfer_htlc_out, Commit, HTLCError, HtlcProgram, Pubkey, Stage, TokenAccount, Vault, HTLC};
use sha2::{Digest, Sha256};

const OWNER: Pubkey = [1u8; 32];
const SENDER: Pubkey = [2u8; 32];
const MINT: Pubkey = [3u8; 32];
const WALLET: Pubkey = [4u8; 32];
const RECEIVER: Pubkey = [5u8; 32];
const MESSENGER: Pubkey = [6u8; 32];
const STRANGER: Pubkey = [7u8; 32];
const SECRET: [u8; 32] = [9u8; 32];

fn hash(secret: &[u8; 32]) -> [u8; 32] {
    Sha256::digest(secret).into()
}

fn accounts(balance: u64) -> Commit {
    Commit {
        sender: SENDER,
        token_contract: MINT,
        htlc_token_account: WALLET,
        sender_token_account: TokenAccount { owner: SENDER, mint: MINT, amount: balance },
    }
}

fn started() -> HtlcProgram {
    let mut p = HtlcProgram::new(OWNER);
    p.initialize(OWNER, 5).unwrap();
    p
}

fn do_commit(p: &mut HtlcProgram, ctx: Commit, id: [u8; 32], timelock: u64, amount: u64, now: u64) -> Result<(), HTLCError> {
    p.commit(
        ctx,
        id,
        vec!["hop".to_string()],
        vec![],
        vec![],
        "dst-chain".to_string(),
        "dst-asset".to_string(),
        "dst-address".to_string(),
        "src-asset".to_string(),
        RECEIVER,
        timelock,
        MESSENGER,
        amount,
        now,
    )
}

fn do_lock(p: &mut HtlcProgram, ctx: Commit, id: [u8; 32], src_id: [u8; 32], timelock: u64, amount: u64, now: u64) -> Result<(), HTLCError> {
    p.lock(
        ctx,
        id,
        src_id,
        timelock,
        "dst-chain".to_string(),
        "dst-address".to_string(),
        "dst-asset".to_string(),
        "src-asset".to_string(),
        RECEIVER,
        MESSENGER,
        amount,
        now,
    )
}

fn same_record(a: &HTLC, b: &HTLC) -> bool {
    a.dst_address == b.dst_address
        && a.dst_chain == b.dst_chain
        && a.dst_asset == b.dst_asset
        && a.src_asset == b.src_asset
        && a.sender == b.sender
        && a.src_receiver == b.src_receiver
        && a.hashlock == b.hashlock
        && a.secret == b.secret
        && a.amount == b.amount
        && a.timelock == b.timelock
        && a.messenger == b.messenger
        && a.token_contract == b.token_contract
        && a.token_wallet == b.token_wallet
        && a.redeemed == b.redeemed
        && a.unlocked == b.unlocked
}

#[test]
fn sha256_of_known_secret() {
    let expected = hex::decode("8c0cc17a04942cc4f8e0fe0b302606d3108860c126428ba2ceeb5f9ed41c2b05").unwrap();
    assert_eq!(hash(&SECRET).to_vec(), expected);
}

#[test]
fn commit_then_details_is_fresh() {
    let mut p = started();
    let id = [10u8; 32];
    do_commit(&mut p, accounts(100), id, 50, 40, 10).unwrap();
    let h = p.get_details(id).unwrap();
    assert_eq!(h.hashlock, [0u8; 32]);
    assert_eq!(h.secret, [0u8; 32]);
    assert!(!h.redeemed);
    assert!(!h.unlocked);
    assert_eq!(h.sender, SENDER);
    assert_eq!(h.src_receiver, RECEIVER);
    assert_eq!(h.messenger, MESSENGER);
    assert_eq!(h.amount, 40);
    assert_eq!(h.timelock, 50);
    assert_eq!(h.token_contract, MINT);
    assert_eq!(h.token_wallet, WALLET);
    assert_eq!(h.dst_chain, "dst-chain");
    assert_eq!(h.dst_asset, "dst-asset");
    assert_eq!(h.dst_address, "dst-address");
    assert_eq!(h.src_asset, "src-asset");
}

#[test]
fn lock_then_redeem() {
    let mut p = started();
    let h = hash(&SECRET);
    let src_id = [11u8; 32];
    do_lock(&mut p, accounts(100), h, src_id, 50, 30, 10).unwrap();
    assert_eq!(p.get_details(h).unwrap().hashlock, h);
    assert_eq!(p.get_id_by_src_id(src_id), Ok(h));
    let t = p.redeem(h, SECRET).unwrap();
    assert_eq!(t.to, RECEIVER);
    assert_eq!(t.amount, 30);
    assert!(t.close);
    let d = p.get_details(h).unwrap();
    assert!(d.redeemed);
    assert!(!d.unlocked);
    assert_eq!(d.secret, SECRET);
}

#[test]
fn commit_lock_commit_redeem() {
    let mut p = started();
    let x = [12u8; 32];
    let h = hash(&SECRET);
    do_commit(&mut p, accounts(100), x, 50, 20, 10).unwrap();
    p.lockCommit(MESSENGER, x, h, 50, 10).unwrap();
    let t = p.redeem(x, SECRET).unwrap();
    assert_eq!(t.to, RECEIVER);
    assert_eq!(t.amount, 20);
    assert!(p.get_details(x).unwrap().redeemed);
}

#[test]
fn unlock_after_timelock() {
    let mut p = started();
    let y = [13u8; 32];
    do_commit(&mut p, accounts(100), y, 50, 25, 10).unwrap();
    let t = p.unlock(SENDER, y, 50).unwrap();
    assert_eq!(t.to, SENDER);
    assert_eq!(t.amount, 25);
    assert!(t.close);
    let d = p.get_details(y).unwrap();
    assert!(d.unlocked);
    assert!(!d.redeemed);
}

#[test]
fn unlock_by_non_sender() {
    let mut p = started();
    let y = [13u8; 32];
    do_commit(&mut p, accounts(100), y, 50, 25, 10).unwrap();
    assert_eq!(p.unlock(STRANGER, y, 60).unwrap_err(), HTLCError::Unauthorized);
    assert!(!p.get_details(y).unwrap().unlocked);
}

#[test]
fn wrong_secret() {
    let mut p = started();
    let h = hash(&SECRET);
    do_lock(&mut p, accounts(100), h, [11u8; 32], 50, 30, 10).unwrap();
    let before = p.get_details(h).unwrap();
    assert_eq!(p.redeem(h, [8u8; 32]).unwrap_err(), HTLCError::HashlockMismatch);
    let after = p.get_details(h).unwrap();
    assert!(same_record(&before, &after));
}

#[test]
fn unlock_before_timelock() {
    let mut p = started();
    let y = [13u8; 32];
    do_commit(&mut p, accounts(100), y, 50, 25, 10).unwrap();
    assert_eq!(p.unlock(SENDER, y, 49).unwrap_err(), HTLCError::NotPastTimelock);
}

#[test]
fn redeem_pays_once() {
    let mut p = started();
    let h = hash(&SECRET);
    do_lock(&mut p, accounts(100), h, [11u8; 32], 50, 30, 10).unwrap();
    p.redeem(h, SECRET).unwrap();
    assert_eq!(p.redeem(h, SECRET).unwrap_err(), HTLCError::AlreadyRedeemed);
    assert_eq!(p.redeem(h, [8u8; 32]).unwrap_err(), HTLCError::AlreadyRedeemed);
    assert_eq!(p.unlock(SENDER, h, 60).unwrap_err(), HTLCError::AlreadyRedeemed);
    assert_eq!(p.unlock(SENDER, h, 20).unwrap_err(), HTLCError::AlreadyRedeemed);
}

#[test]
fn unlock_pays_once() {
    let mut p = started();
    let h = hash(&SECRET);
    do_lock(&mut p, accounts(100), h, [11u8; 32], 50, 30, 10).unwrap();
    p.unlock(SENDER, h, 50).unwrap();
    assert_eq!(p.unlock(SENDER, h, 51).unwrap_err(), HTLCError::AlreadyUnlocked);
    assert_eq!(p.redeem(h, SECRET).unwrap_err(), HTLCError::AlreadyUnlocked);
    assert!(!p.get_details(h).unwrap().redeemed);
}

#[test]
fn redeem_after_timelock_still_allowed() {
    let mut p = started();
    let h = hash(&SECRET);
    do_lock(&mut p, accounts(100), h, [11u8; 32], 50, 30, 10).unwrap();
    // No clock is consulted by redeem: expiry alone does not stop it.
    assert!(p.redeem(h, SECRET).is_ok());
}

#[test]
fn lock_commit_twice_is_refused() {
    let mut p = started();
    let x = [12u8; 32];
    let h = hash(&SECRET);
    do_commit(&mut p, accounts(100), x, 50, 20, 10).unwrap();
    p.lockCommit(SENDER, x, h, 60, 10).unwrap();
    assert_eq!(p.lockCommit(MESSENGER, x, [1u8; 32], 70, 10), Err(HTLCError::HashlockAlreadySet));
    let d = p.get_details(x).unwrap();
    assert_eq!(d.hashlock, h);
    assert_eq!(d.timelock, 60);
}

#[test]
fn lock_commit_refusals() {
    let mut p = started();
    let x = [12u8; 32];
    do_commit(&mut p, accounts(100), x, 50, 20, 10).unwrap();
    let h = hash(&SECRET);
    assert_eq!(p.lockCommit(MESSENGER, [99u8; 32], h, 60, 10), Err(HTLCError::NotFound));
    assert_eq!(p.lockCommit(STRANGER, x, h, 60, 10), Err(HTLCError::Unauthorized));
    assert_eq!(p.lockCommit(MESSENGER, x, h, 10, 10), Err(HTLCError::NotFutureTimelock));
    p.unlock(SENDER, x, 50).unwrap();
    assert_eq!(p.lockCommit(MESSENGER, x, h, 60, 10), Err(HTLCError::AlreadyUnlocked));
}

#[test]
fn redeem_without_hashlock() {
    let mut p = started();
    let x = [12u8; 32];
    do_commit(&mut p, accounts(100), x, 50, 20, 10).unwrap();
    assert_eq!(p.redeem(x, SECRET).unwrap_err(), HTLCError::HashlockNotSet);
    assert_eq!(p.redeem([99u8; 32], SECRET).unwrap_err(), HTLCError::NotFound);
    assert_eq!(p.unlock(SENDER, [99u8; 32], 60).unwrap_err(), HTLCError::NotFound);
}

#[test]
fn redeem_hashed_uses_given_digest() {
    let mut p = started();
    let x = [12u8; 32];
    do_commit(&mut p, accounts(100), x, 50, 20, 10).unwrap();
    p.lockCommit(SENDER, x, [44u8; 32], 60, 10).unwrap();
    assert_eq!(p.redeem_hashed(x, SECRET, [45u8; 32]).unwrap_err(), HTLCError::HashlockMismatch);
    let t = p.redeem_hashed(x, SECRET, [44u8; 32]).unwrap();
    assert_eq!(t.amount, 20);
    assert_eq!(p.get_details(x).unwrap().secret, SECRET);
}

#[test]
fn deposit_refusals() {
    let mut p = started();
    let id = [20u8; 32];
    assert_eq!(do_commit(&mut p, accounts(100), id, 10, 5, 10), Err(HTLCError::NotFutureTimelock));
    assert_eq!(do_commit(&mut p, accounts(100), id, 50, 0, 10), Err(HTLCError::ZeroAmount));
    assert_eq!(do_commit(&mut p, accounts(4), id, 50, 5, 10), Err(HTLCError::InsufficientFunds));
    let mut foreign = accounts(100);
    foreign.sender_token_account.owner = STRANGER;
    assert_eq!(do_commit(&mut p, foreign, id, 50, 5, 10), Err(HTLCError::Unauthorized));
    let mut other_token = accounts(100);
    other_token.sender_token_account.mint = STRANGER;
    assert_eq!(do_commit(&mut p, other_token, id, 50, 5, 10), Err(HTLCError::WrongToken));
    assert_eq!(p.get_details(id).unwrap_err(), HTLCError::NotFound);
    do_commit(&mut p, accounts(100), id, 50, 5, 10).unwrap();
    assert_eq!(do_commit(&mut p, accounts(100), id, 50, 5, 10), Err(HTLCError::DuplicateId));
    assert_eq!(do_lock(&mut p, accounts(100), id, [1u8; 32], 50, 5, 10), Err(HTLCError::DuplicateId));
    assert_eq!(do_lock(&mut p, accounts(100), [21u8; 32], [1u8; 32], 50, 5, 60), Err(HTLCError::NotFutureTimelock));
}

#[test]
fn commit_needs_counter() {
    let mut p = HtlcProgram::new(OWNER);
    assert_eq!(p.get_commit_id(), Err(HTLCError::NotInitialized));
    assert_eq!(do_commit(&mut p, accounts(100), [20u8; 32], 50, 5, 10), Err(HTLCError::NotInitialized));
    // A lock does not use the counter.
    assert!(do_lock(&mut p, accounts(100), [21u8; 32], [1u8; 32], 50, 5, 10).is_ok());
}

#[test]
fn initialize_rules() {
    let mut p = HtlcProgram::new(OWNER);
    assert_eq!(p.initialize(STRANGER, 5), Err(HTLCError::Unauthorized));
    assert_eq!(p.initialize(OWNER, 5), Ok(()));
    assert_eq!(p.initialize(OWNER, 6), Err(HTLCError::AlreadyInitialized));
    assert_eq!(p.get_commit_id(), Ok(5000 ^ 1));
}

#[test]
fn commit_id_follows_counter() {
    let mut p = started();
    assert_eq!(p.get_commit_id(), Ok(5001));
    do_commit(&mut p, accounts(100), [20u8; 32], 50, 5, 10).unwrap();
    assert_eq!(p.get_commit_id(), Ok(5000 ^ 2));
    do_commit(&mut p, accounts(100), [21u8; 32], 50, 5, 10).unwrap();
    assert_eq!(p.get_commit_id(), Ok(5000 ^ 3));
    assert_eq!(p.get_commit_id(), Ok(5003));
}

#[test]
fn source_correlations() {
    let mut p = started();
    let src = [30u8; 32];
    assert_eq!(p.get_id_by_src_id(src), Err(HTLCError::NotFound));
    assert_eq!(p.init_id_by_src_id(src), Ok(()));
    assert_eq!(p.init_id_by_src_id(src), Err(HTLCError::DuplicateSourceCorrelation));
    assert_eq!(p.get_id_by_src_id(src), Ok([0u8; 32]));
    let id = [31u8; 32];
    do_lock(&mut p, accounts(100), id, src, 50, 5, 10).unwrap();
    assert_eq!(p.get_id_by_src_id(src), Ok(id));
    assert_eq!(
        do_lock(&mut p, accounts(100), [32u8; 32], src, 50, 5, 10),
        Err(HTLCError::DuplicateSourceCorrelation)
    );
    assert_eq!(p.get_details([32u8; 32]).unwrap_err(), HTLCError::NotFound);
}

#[test]
fn custody_payout_rules() {
    let mut v = Vault { balance: 10, open: true };
    let t = transfer_htlc_out(&mut v, RECEIVER, 4).unwrap();
    assert_eq!(t.to, RECEIVER);
    assert_eq!(t.amount, 4);
    assert!(!t.close);
    assert_eq!(v, Vault { balance: 6, open: true });
    assert_eq!(transfer_htlc_out(&mut v, RECEIVER, 7).unwrap_err(), HTLCError::InsufficientFunds);
    assert_eq!(v, Vault { balance: 6, open: true });
    let t = transfer_htlc_out(&mut v, SENDER, 6).unwrap();
    assert!(t.close);
    assert_eq!(v, Vault { balance: 0, open: false });
    assert_eq!(transfer_htlc_out(&mut v, SENDER, 0).unwrap_err(), HTLCError::InsufficientFunds);
}

#[test]
fn stages_follow_the_swap() {
    let mut p = started();
    let x = [12u8; 32];
    do_commit(&mut p, accounts(100), x, 50, 20, 10).unwrap();
    assert_eq!(p.get_details(x).unwrap().stage(), Stage::Created);
    p.lockCommit(MESSENGER, x, hash(&SECRET), 60, 10).unwrap();
    assert_eq!(p.get_details(x).unwrap().stage(), Stage::HashlockSet);
    p.redeem(x, SECRET).unwrap();
    assert_eq!(p.get_details(x).unwrap().stage(), Stage::Redeemed);
    let y = [13u8; 32];
    do_commit(&mut p, accounts(100), y, 50, 20, 10).unwrap();
    p.unlock(SENDER, y, 50).unwrap();
    assert_eq!(p.get_details(y).unwrap().stage(), Stage::Unlocked);
}

#[test]
fn redeem_after_wrong_secret_still_possible() {
    let mut p = started();
    let h = hash(&SECRET);
    do_lock(&mut p, accounts(100), h, [11u8; 32], 50, 30, 10).unwrap();
    assert_eq!(p.redeem(h, [0u8; 32]).unwrap_err(), HTLCError::HashlockMismatch);
    assert!(p.redeem(h, SECRET).is_ok());
}
