use vstd::prelude::*;
use crate::keys::Pubkey;

verus! {

/// Bytes that tag the start of every stored account with its kind.
pub const DISCRIMINATOR_LEN: usize = 8;

/// Bytes reserved for a mint account.
pub const MINT_SPACE: usize = 257;

/// Bytes reserved for a token account.
pub const ACCOUNT_SPACE: usize = 201;

/// Bytes reserved for a delegate allowance.
pub const ALLOWANCE_SPACE: usize = 113;

/// The longest url, in bytes of UTF-8, that a mint account can store.
pub const MINT_URL_MAX_LEN: usize = 124;

/// A security token mint: who manages it, which network authority and group
/// govern its accounts, and how many tokens are in circulation.
#[derive(Clone, Debug)]
pub struct SecurityTokenMint {
    pub uuid: u128,
    pub manager: Pubkey,
    pub net_auth: Pubkey,
    pub group: Pubkey,
    pub supply: u64,
    pub decimals: u8,
    pub url: String,
}

/// A token account: who owns it, which mint, group and network authority it
/// belongs to, who may close it, and the balance it holds.
#[derive(Clone, Debug)]
pub struct SecurityTokenAccount {
    pub uuid: u128,
    pub owner: Pubkey,
    pub mint: Pubkey,
    pub group: Pubkey,
    pub net_auth: Pubkey,
    pub close_auth: Pubkey,
    pub amount: u64,
    pub locked_until: i64,
    pub frozen: bool,
}

/// An allowance that lets a delegate move tokens out of an owner's account.
#[derive(Clone, Debug)]
pub struct DelegateAllowance {
    /// The owner of the allowance (the owner of the token account).
    pub owner: Pubkey,
    /// The token account the allowance draws on.
    pub account: Pubkey,
    /// The delegate granted the allowance.
    pub delegate: Pubkey,
    /// How many tokens the delegate may move.
    pub amount: u64,
    /// Whether the delegate may move all tokens, whatever `amount` says.
    pub all: bool,
}

/// What a network authority's group approval says: whether it is in force,
/// and for which group.
#[derive(Clone, Copy, Debug)]
pub struct GroupApproval {
    pub active: bool,
    pub group: Pubkey,
}

/// An account offered as a network authority's approval: the program that
/// owns it, and its data read as a group approval, or the program error code
/// that reading it gave.
#[derive(Clone, Copy, Debug)]
pub struct ApprovalAccount {
    pub owner: Pubkey,
    pub data: Result<GroupApproval, u64>,
}

/// The bytes that a stored mint takes when its url is `url_len` bytes long:
/// tag, uuid, three keys, supply, decimals, and the url with its 4-byte length.
pub open spec fn mint_data_len(url_len: nat) -> nat {
    (DISCRIMINATOR_LEN + 16 + 3 * 32 + 8 + 1 + 4 + url_len) as nat
}

/// The bytes that a stored token account takes: tag, uuid, five keys,
/// amount, lock time and frozen flag.
pub open spec fn account_data_len() -> nat {
    (DISCRIMINATOR_LEN + 16 + 5 * 32 + 8 + 8 + 1) as nat
}

/// The bytes that a stored delegate allowance takes: tag, three keys,
/// amount and flag.
pub open spec fn allowance_data_len() -> nat {
    (DISCRIMINATOR_LEN + 3 * 32 + 8 + 1) as nat
}

/// The bytes of UTF-8 that the url `s` takes.
pub open spec fn url_byte_len(s: Seq<char>) -> nat {
    vstd::utf8::encode_utf8(s).len()
}

impl Default for DelegateAllowance {
    /// The allowance with zero keys, no amount, and `all` unset.
    fn default() -> (a: DelegateAllowance)
        ensures
            a.owner.bytes@ == Seq::new(32, |i: int| 0u8),
            a.account.bytes@ == Seq::new(32, |i: int| 0u8),
            a.delegate.bytes@ == Seq::new(32, |i: int| 0u8),
            a.amount == 0,
            !a.all,
    {
        DelegateAllowance {
            owner: Pubkey::default(),
            account: Pubkey::default(),
            delegate: Pubkey::default(),
            amount: 0,
            all: false,
        }
    }
}

} // verus!
