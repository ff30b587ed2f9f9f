//! The record kept for each swap, and the small values around it.
use vstd::prelude::*;
use crate::bytes::{Pubkey, is_zero};
use crate::model::{Stage, stage_of};

verus! {

/// One swap: who pays whom, how much, and under which locks.
#[derive(Debug, Clone)]
pub struct HTLC {
    pub dst_address: String,
    pub dst_chain: String,
    pub dst_asset: String,
    pub src_asset: String,
    pub sender: Pubkey,
    pub src_receiver: Pubkey,
    pub hashlock: [u8; 32],
    pub secret: [u8; 32],
    pub amount: u64,
    pub timelock: u64,
    pub messenger: Pubkey,
    pub token_contract: Pubkey,
    pub token_wallet: Pubkey,
    pub redeemed: bool,
    pub unlocked: bool,
}

/// The mathematical value of an [`HTLC`].
pub struct HtlcView {
    pub dst_address: Seq<char>,
    pub dst_chain: Seq<char>,
    pub dst_asset: Seq<char>,
    pub src_asset: Seq<char>,
    pub sender: Seq<u8>,
    pub src_receiver: Seq<u8>,
    pub hashlock: Seq<u8>,
    pub secret: Seq<u8>,
    pub amount: u64,
    pub timelock: u64,
    pub messenger: Seq<u8>,
    pub token_contract: Seq<u8>,
    pub token_wallet: Seq<u8>,
    pub redeemed: bool,
    pub unlocked: bool,
}

impl View for HTLC {
    type V = HtlcView;

    open spec fn view(&self) -> HtlcView {
        HtlcView {
            dst_address: self.dst_address@,
            dst_chain: self.dst_chain@,
            dst_asset: self.dst_asset@,
            src_asset: self.src_asset@,
            sender: self.sender@,
            src_receiver: self.src_receiver@,
            hashlock: self.hashlock@,
            secret: self.secret@,
            amount: self.amount,
            timelock: self.timelock,
            messenger: self.messenger@,
            token_contract: self.token_contract@,
            token_wallet: self.token_wallet@,
            redeemed: self.redeemed,
            unlocked: self.unlocked,
        }
    }
}

impl HTLC {
    /// Where this swap stands in its life.
    pub fn stage(&self) -> (r: Stage)
        ensures
            r == stage_of(self@),
    {
        if self.redeemed {
            Stage::Redeemed
        } else if self.unlocked {
            Stage::Unlocked
        } else if is_zero(&self.hashlock) {
            Stage::Created
        } else {
            Stage::HashlockSet
        }
    }

    /// A field-by-field copy.
    pub fn copy(&self) -> (r: HTLC)
        ensures
            r@ == self@,
    {
        HTLC {
            dst_address: self.dst_address.clone(),
            dst_chain: self.dst_chain.clone(),
            dst_asset: self.dst_asset.clone(),
            src_asset: self.src_asset.clone(),
            sender: self.sender,
            src_receiver: self.src_receiver,
            hashlock: self.hashlock,
            secret: self.secret,
            amount: self.amount,
            timelock: self.timelock,
            messenger: self.messenger,
            token_contract: self.token_contract,
            token_wallet: self.token_wallet,
            redeemed: self.redeemed,
            unlocked: self.unlocked,
        }
    }
}

/// The id that a source id is correlated with; all zero while unset.
#[derive(Debug, Clone, Copy)]
pub struct IdStruct {
    pub id: [u8; 32],
}

/// Counts commits, to derive advisory correlation ids.
#[derive(Debug, Clone, Copy, PartialEq, Eq, Structural)]
pub struct CommitCounter {
    pub count: u64,
    pub time: u64,
}

/// The custody account that holds a swap's tokens.
#[derive(Debug, Clone, Copy, PartialEq, Eq, Structural)]
pub struct Vault {
    pub balance: u64,
    pub open: bool,
}

/// A movement of tokens out of a custody account, for the host to carry out.
#[derive(Debug, Clone, Copy)]
pub struct Transfer {
    /// Where the tokens go.
    pub to: Pubkey,
    pub amount: u64,
    /// Whether the custody account is closed afterwards, being empty.
    pub close: bool,
}

/// A token account as the host reports it.
#[derive(Debug, Clone, Copy)]
pub struct TokenAccount {
    pub owner: Pubkey,
    pub mint: Pubkey,
    pub amount: u64,
}

/// The accounts that a deposit (`commit` or `lock`) is made with.
#[derive(Debug, Clone, Copy)]
pub struct Commit {
    /// The depositor, who signs.
    pub sender: Pubkey,
    /// The token deposited.
    pub token_contract: Pubkey,
    /// The custody account that will hold the deposit.
    pub htlc_token_account: Pubkey,
    /// The account the deposit is paid from.
    pub sender_token_account: TokenAccount,
}

/// A `lock` is made with the same accounts as a `commit`.
pub type Lock = Commit;

} // verus!
