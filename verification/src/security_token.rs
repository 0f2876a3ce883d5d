//! The instructions of the security token program, each as a rule from the
//! accounts it reads to the accounts it writes, or to the reason it refuses.
//! A refused instruction changes no account.

use vstd::prelude::*;
use crate::error::{ErrorCode, TokenError};
use crate::keys::Pubkey;
use crate::state::{
    ApprovalAccount, DelegateAllowance, SecurityTokenAccount, SecurityTokenMint, mint_data_len, url_byte_len,
    MINT_SPACE, MINT_URL_MAX_LEN,
};

verus! {

/// A refusal with one of the program's own codes.
pub open spec fn refused<T>(code: ErrorCode) -> Result<T, TokenError> {
    Err(TokenError::Program(code))
}

/// Whether the account offered as the network authority's approval lets an
/// account of group `group` under the authority `net_auth` take part: the
/// authority owns it, it reads as an approval, the approval is active and it
/// names that group.
pub open spec fn approval_result(
    auth: ApprovalAccount,
    net_auth: Pubkey,
    group: Pubkey,
) -> Result<(), TokenError> {
    if auth.owner != net_auth {
        refused(ErrorCode::InvalidAuthOwner)
    } else {
        match auth.data {
            Err(code) => Err(TokenError::ApprovalUnreadable(code)),
            Ok(approval) => if !approval.active {
                refused(ErrorCode::InactiveApproval)
            } else if approval.group != group {
                refused(ErrorCode::InvalidGroup)
            } else {
                Ok(())
            },
        }
    }
}

/// Checks a network authority's approval as `approval_result` says.
pub fn check_approval(auth: &ApprovalAccount, net_auth: &Pubkey, group: &Pubkey) -> (r: Result<
    (),
    TokenError,
>)
    ensures
        r == approval_result(*auth, *net_auth, *group),
{
    if !auth.owner.equals(net_auth) {
        return Err(TokenError::Program(ErrorCode::InvalidAuthOwner));
    }
    match &auth.data {
        Err(code) => Err(TokenError::ApprovalUnreadable(*code)),
        Ok(approval) => {
            if !approval.active {
                Err(TokenError::Program(ErrorCode::InactiveApproval))
            } else if !approval.group.equals(group) {
                Err(TokenError::Program(ErrorCode::InvalidGroup))
            } else {
                Ok(())
            }
        },
    }
}

/// The accounts after moving `amount` tokens from `from` to `to`, or why the
/// move is refused: a frozen account, accounts of different mints, groups or
/// network authorities, an approval that does not let either account take
/// part, too few tokens, or a balance that would overflow.
pub open spec fn transfer_result(
    from: SecurityTokenAccount,
    to: SecurityTokenAccount,
    from_auth: ApprovalAccount,
    to_auth: ApprovalAccount,
    amount: u64,
) -> Result<(SecurityTokenAccount, SecurityTokenAccount), TokenError> {
    if to.frozen || from.frozen {
        refused(ErrorCode::AccountFrozen)
    } else if from.mint != to.mint {
        refused(ErrorCode::InvalidMint)
    } else if from.group != to.group {
        refused(ErrorCode::InvalidGroup)
    } else if from.net_auth != to.net_auth {
        refused(ErrorCode::InvalidNetAuth)
    } else if approval_result(from_auth, from.net_auth, from.group) is Err {
        Err(approval_result(from_auth, from.net_auth, from.group)->Err_0)
    } else if approval_result(to_auth, to.net_auth, to.group) is Err {
        Err(approval_result(to_auth, to.net_auth, to.group)->Err_0)
    } else if from.amount < amount {
        refused(ErrorCode::InsufficientTokens)
    } else if to.amount + amount > u64::MAX {
        refused(ErrorCode::Overflow)
    } else {
        Ok(
            (
                SecurityTokenAccount { amount: (from.amount - amount) as u64, ..from },
                SecurityTokenAccount { amount: (to.amount + amount) as u64, ..to },
            ),
        )
    }
}

/// Moves `inp_amount` tokens from `from` to `to`, as `transfer_result` says.
pub fn transfer(
    from: &mut SecurityTokenAccount,
    to: &mut SecurityTokenAccount,
    from_auth: &ApprovalAccount,
    to_auth: &ApprovalAccount,
    inp_amount: u64,
) -> (r: Result<(), TokenError>)
    ensures
        match transfer_result(*old(from), *old(to), *from_auth, *to_auth, inp_amount) {
            Ok((f, t)) => r == Ok::<(), TokenError>(()) && *final(from) == f && *final(to) == t,
            Err(e) => r == Err::<(), TokenError>(e) && *final(from) == *old(from) && *final(to)
                == *old(to),
        },
{
    if to.frozen {
        return Err(TokenError::Program(ErrorCode::AccountFrozen));
    }
    if from.frozen {
        return Err(TokenError::Program(ErrorCode::AccountFrozen));
    }
    if !from.mint.equals(&to.mint) {
        return Err(TokenError::Program(ErrorCode::InvalidMint));
    }
    if !from.group.equals(&to.group) {
        return Err(TokenError::Program(ErrorCode::InvalidGroup));
    }
    if !from.net_auth.equals(&to.net_auth) {
        return Err(TokenError::Program(ErrorCode::InvalidNetAuth));
    }
    check_approval(from_auth, &from.net_auth, &from.group)?;
    check_approval(to_auth, &to.net_auth, &to.group)?;
    if from.amount < inp_amount {
        return Err(TokenError::Program(ErrorCode::InsufficientTokens));
    }
    let from_amount = match from.amount.checked_sub(inp_amount) {
        Some(v) => v,
        None => return Err(TokenError::Program(ErrorCode::Overflow)),
    };
    let to_amount = match to.amount.checked_add(inp_amount) {
        Some(v) => v,
        None => return Err(TokenError::Program(ErrorCode::Overflow)),
    };
    from.amount = from_amount;
    to.amount = to_amount;
    Ok(())
}

/// The mint created for `manager`, governed by `net_auth` and `group`, with
/// no tokens issued, or the refusal when its url does not fit in the space
/// reserved for a mint.
pub open spec fn create_mint_result(
    manager: Pubkey,
    net_auth: Pubkey,
    group: Pubkey,
    decimals: u8,
    url: String,
) -> Result<SecurityTokenMint, TokenError> {
    if mint_data_len(url_byte_len(url@)) > MINT_SPACE {
        Err(TokenError::AccountDidNotSerialize)
    } else {
        Ok(SecurityTokenMint { uuid: 0, manager, net_auth, group, supply: 0, decimals, url })
    }
}

/// Creates a mint, as `create_mint_result` says.
pub fn create_mint(
    manager: &Pubkey,
    net_auth: &Pubkey,
    group: &Pubkey,
    inp_decimals: u8,
    inp_url: String,
) -> (r: Result<SecurityTokenMint, TokenError>)
    ensures
        r == create_mint_result(*manager, *net_auth, *group, inp_decimals, inp_url),
{
    let url_len = inp_url.as_str().as_bytes().len();
    if url_len > MINT_URL_MAX_LEN {
        return Err(TokenError::AccountDidNotSerialize);
    }
    Ok(
        SecurityTokenMint {
            uuid: 0,
            manager: *manager,
            net_auth: *net_auth,
            group: *group,
            supply: 0,
            decimals: inp_decimals,
            url: inp_url,
        },
    )
}

/// The mint and account after the manager `manager` issues `amount` new
/// tokens into `to`, or why that is refused: the signer is not the mint's
/// manager, the network authority's approval `to_auth` does not let the
/// account take part, the supply would overflow, the account is frozen, or
/// its balance would overflow.
pub open spec fn mint_result(
    mint: SecurityTokenMint,
    to: SecurityTokenAccount,
    to_auth: ApprovalAccount,
    manager: Pubkey,
    amount: u64,
) -> Result<(SecurityTokenMint, SecurityTokenAccount), TokenError> {
    if mint.manager != manager {
        Err(TokenError::RequireKeysEqViolated)
    } else if approval_result(to_auth, to.net_auth, to.group) is Err {
        Err(approval_result(to_auth, to.net_auth, to.group)->Err_0)
    } else if mint.supply + amount > u64::MAX {
        refused(ErrorCode::Overflow)
    } else if to.frozen {
        refused(ErrorCode::AccountFrozen)
    } else if to.amount + amount > u64::MAX {
        refused(ErrorCode::Overflow)
    } else {
        Ok(
            (
                SecurityTokenMint { supply: (mint.supply + amount) as u64, ..mint },
                SecurityTokenAccount { amount: (to.amount + amount) as u64, ..to },
            ),
        )
    }
}

/// Issues `inp_amount` new tokens into `to`, as `mint_result` says.
pub fn mint(
    token_mint: &mut SecurityTokenMint,
    to: &mut SecurityTokenAccount,
    to_auth: &ApprovalAccount,
    manager: &Pubkey,
    inp_amount: u64,
) -> (r: Result<(), TokenError>)
    ensures
        match mint_result(*old(token_mint), *old(to), *to_auth, *manager, inp_amount) {
            Ok((m, t)) => r == Ok::<(), TokenError>(()) && *final(token_mint) == m && *final(to) == t,
            Err(e) => r == Err::<(), TokenError>(e) && *final(token_mint) == *old(token_mint) && *final(to)
                == *old(to),
        },
{
    if !token_mint.manager.equals(manager) {
        return Err(TokenError::RequireKeysEqViolated);
    }
    check_approval(to_auth, &to.net_auth, &to.group)?;
    let supply = match token_mint.supply.checked_add(inp_amount) {
        Some(v) => v,
        None => return Err(TokenError::Program(ErrorCode::Overflow)),
    };
    if to.frozen {
        return Err(TokenError::Program(ErrorCode::AccountFrozen));
    }
    let amount = match to.amount.checked_add(inp_amount) {
        Some(v) => v,
        None => return Err(TokenError::Program(ErrorCode::Overflow)),
    };
    token_mint.supply = supply;
    to.amount = amount;
    Ok(())
}

/// The mint and account after the manager `manager` retires `amount` tokens
/// from `from`, frozen or not, or why that is refused: the signer is not the
/// mint's manager, or the supply or the balance is smaller than `amount`.
pub open spec fn burn_result(
    mint: SecurityTokenMint,
    from: SecurityTokenAccount,
    manager: Pubkey,
    amount: u64,
) -> Result<(SecurityTokenMint, SecurityTokenAccount), TokenError> {
    if mint.manager != manager {
        Err(TokenError::RequireKeysEqViolated)
    } else if mint.supply < amount {
        refused(ErrorCode::Overflow)
    } else if from.amount < amount {
        refused(ErrorCode::Overflow)
    } else {
        Ok(
            (
                SecurityTokenMint { supply: (mint.supply - amount) as u64, ..mint },
                SecurityTokenAccount { amount: (from.amount - amount) as u64, ..from },
            ),
        )
    }
}

/// Retires `inp_amount` tokens from `from`, as `burn_result` says.
pub fn burn(
    mint: &mut SecurityTokenMint,
    from: &mut SecurityTokenAccount,
    manager: &Pubkey,
    inp_amount: u64,
) -> (r: Result<(), TokenError>)
    ensures
        match burn_result(*old(mint), *old(from), *manager, inp_amount) {
            Ok((m, f)) => r == Ok::<(), TokenError>(()) && *final(mint) == m && *final(from) == f,
            Err(e) => r == Err::<(), TokenError>(e) && *final(mint) == *old(mint) && *final(from)
                == *old(from),
        },
{
    if !mint.manager.equals(manager) {
        return Err(TokenError::RequireKeysEqViolated);
    }
    let supply = match mint.supply.checked_sub(inp_amount) {
        Some(v) => v,
        None => return Err(TokenError::Program(ErrorCode::Overflow)),
    };
    let amount = match from.amount.checked_sub(inp_amount) {
        Some(v) => v,
        None => return Err(TokenError::Program(ErrorCode::Overflow)),
    };
    mint.supply = supply;
    from.amount = amount;
    Ok(())
}

/// The token account created for `owner` in the mint whose key is
/// `mint_key`, with no tokens, unlocked and not frozen, or why that is
/// refused: the network authority's approval does not let accounts of the
/// mint's group be created, or the account already exists (`existing` is what
/// it holds then); an existing account is never created again.
pub open spec fn create_account_result(
    existing: Option<SecurityTokenAccount>,
    mint_key: Pubkey,
    mint: SecurityTokenMint,
    create_auth: ApprovalAccount,
    uuid: u128,
    owner: Pubkey,
    close_auth: Pubkey,
) -> Result<SecurityTokenAccount, TokenError> {
    match approval_result(create_auth, mint.net_auth, mint.group) {
        Err(e) => Err(e),
        Ok(_) => if existing is Some {
            Err(TokenError::AccountAlreadyInitialized)
        } else {
            Ok(
                SecurityTokenAccount {
                    uuid,
                    owner,
                    mint: mint_key,
                    group: mint.group,
                    net_auth: mint.net_auth,
                    close_auth,
                    amount: 0,
                    locked_until: 0,
                    frozen: false,
                },
            )
        },
    }
}

/// Creates a token account, as `create_account_result` says; `existing` is
/// the account's content when it has already been created.
pub fn create_account(
    existing: &Option<SecurityTokenAccount>,
    mint_key: &Pubkey,
    mint: &SecurityTokenMint,
    create_auth: &ApprovalAccount,
    inp_uuid: u128,
    owner: &Pubkey,
    close_auth: &Pubkey,
) -> (r: Result<SecurityTokenAccount, TokenError>)
    ensures
        r == create_account_result(
            *existing,
            *mint_key,
            *mint,
            *create_auth,
            inp_uuid,
            *owner,
            *close_auth,
        ),
{
    check_approval(create_auth, &mint.net_auth, &mint.group)?;
    if existing.is_some() {
        return Err(TokenError::AccountAlreadyInitialized);
    }
    Ok(
        SecurityTokenAccount {
            uuid: inp_uuid,
            owner: *owner,
            mint: *mint_key,
            group: mint.group,
            net_auth: mint.net_auth,
            close_auth: *close_auth,
            amount: 0,
            locked_until: 0,
            frozen: false,
        },
    )
}

/// Whether `user` may close `account` of the mint whose key is `mint_key`:
/// the account must belong to that mint, `user` must be the account's close
/// authority, the mint's manager or the account's owner, and the account
/// must hold no tokens.
pub open spec fn close_account_result(
    account: SecurityTokenAccount,
    mint_key: Pubkey,
    mint: SecurityTokenMint,
    user: Pubkey,
) -> Result<(), TokenError> {
    if account.mint != mint_key {
        refused(ErrorCode::InvalidMint)
    } else if !(user == account.close_auth || user == mint.manager || user == account.owner) {
        refused(ErrorCode::AccessDenied)
    } else if account.amount != 0 {
        Err(TokenError::AccountNotEmpty)
    } else {
        Ok(())
    }
}

/// Decides whether an account may be closed, as `close_account_result` says.
pub fn close_account(
    account: &SecurityTokenAccount,
    mint_key: &Pubkey,
    mint: &SecurityTokenMint,
    user: &Pubkey,
) -> (r: Result<(), TokenError>)
    ensures
        r == close_account_result(*account, *mint_key, *mint, *user),
{
    if !account.mint.equals(mint_key) {
        return Err(TokenError::Program(ErrorCode::InvalidMint));
    }
    let close_auth = &account.close_auth;
    let manager_key = &mint.manager;
    if !(user.equals(close_auth) || user.equals(manager_key) || user.equals(&account.owner)) {
        return Err(TokenError::Program(ErrorCode::AccessDenied));
    }
    if account.amount != 0 {
        return Err(TokenError::AccountNotEmpty);
    }
    Ok(())
}

/// The account after the mint's manager sets its lock time and frozen flag,
/// or why that is refused: the account is not of the mint whose key is
/// `mint_key`, or `manager` is not that mint's manager.
pub open spec fn manager_update_account_result(
    account: SecurityTokenAccount,
    mint_key: Pubkey,
    mint: SecurityTokenMint,
    manager: Pubkey,
    locked_until: i64,
    frozen: bool,
) -> Result<SecurityTokenAccount, TokenError> {
    if account.mint != mint_key {
        refused(ErrorCode::InvalidMint)
    } else if manager != mint.manager {
        refused(ErrorCode::InvalidMint)
    } else {
        Ok(SecurityTokenAccount { locked_until, frozen, ..account })
    }
}

/// Sets an account's lock time and frozen flag, as
/// `manager_update_account_result` says.
pub fn manager_update_account(
    account: &mut SecurityTokenAccount,
    mint_key: &Pubkey,
    mint: &SecurityTokenMint,
    manager: &Pubkey,
    inp_locked_until: i64,
    inp_frozen: bool,
) -> (r: Result<(), TokenError>)
    ensures
        match manager_update_account_result(
            *old(account),
            *mint_key,
            *mint,
            *manager,
            inp_locked_until,
            inp_frozen,
        ) {
            Ok(a) => r == Ok::<(), TokenError>(()) && *final(account) == a,
            Err(e) => r == Err::<(), TokenError>(e) && *final(account) == *old(account),
        },
{
    if !account.mint.equals(mint_key) {
        return Err(TokenError::Program(ErrorCode::InvalidMint));
    }
    if !manager.equals(&mint.manager) {
        return Err(TokenError::Program(ErrorCode::InvalidMint));
    }
    account.locked_until = inp_locked_until;
    account.frozen = inp_frozen;
    Ok(())
}

/// Whether account data already holds an account of the kind whose tag is
/// `discriminator`: a newly made account's data is all zero until its first
/// write, while a stored account's data starts with its tag.
pub open spec fn holds_account(data: Seq<u8>, discriminator: Seq<u8>) -> bool {
    data.len() >= discriminator.len() && data.subrange(0, discriminator.len() as int)
        == discriminator
}

/// Decides from an account's data whether the account exists already, as
/// `holds_account` says.
pub fn is_initialized(data: &[u8], discriminator: &[u8; 8]) -> (r: bool)
    ensures
        r == holds_account(data@, discriminator@),
{
    if data.len() < 8 {
        return false;
    }
    let mut i: usize = 0;
    while i < 8
        invariant
            i <= 8,
            data@.len() >= 8,
            forall|j: int| 0 <= j < i ==> data@[j] == discriminator@[j],
        decreases 8 - i,
    {
        if data[i] != discriminator[i] {
            assert(data@.subrange(0, 8)[i as int] != discriminator@[i as int]);
            return false;
        }
        i = i + 1;
    }
    assert(data@.subrange(0, 8) =~= discriminator@);
    true
}

/// The token account that the mint's manager creates for `owner` in the
/// mint whose key is `mint_key`, with no tokens, unlocked and not frozen, or
/// why that is refused: `manager` is not the mint's manager, the network
/// authority's approval does not let accounts of the mint's group be
/// created, or the account already exists.
pub open spec fn manager_create_account_result(
    existing: Option<SecurityTokenAccount>,
    mint_key: Pubkey,
    mint: SecurityTokenMint,
    manager: Pubkey,
    create_auth: ApprovalAccount,
    uuid: u128,
    owner: Pubkey,
    close_auth: Pubkey,
) -> Result<SecurityTokenAccount, TokenError> {
    if manager != mint.manager {
        refused(ErrorCode::InvalidMint)
    } else {
        create_account_result(existing, mint_key, mint, create_auth, uuid, owner, close_auth)
    }
}

/// Creates a token account on the mint manager's request, as
/// `manager_create_account_result` says.
pub fn manager_create_account(
    existing: &Option<SecurityTokenAccount>,
    mint_key: &Pubkey,
    mint: &SecurityTokenMint,
    manager: &Pubkey,
    create_auth: &ApprovalAccount,
    inp_uuid: u128,
    owner: &Pubkey,
    close_auth: &Pubkey,
) -> (r: Result<SecurityTokenAccount, TokenError>)
    ensures
        r == manager_create_account_result(
            *existing,
            *mint_key,
            *mint,
            *manager,
            *create_auth,
            inp_uuid,
            *owner,
            *close_auth,
        ),
{
    if !manager.equals(&mint.manager) {
        return Err(TokenError::Program(ErrorCode::InvalidMint));
    }
    create_account(existing, mint_key, mint, create_auth, inp_uuid, owner, close_auth)
}

/// The allowance by which the owner of `account` (whose key is
/// `account_key`) lets `delegate` move its tokens, or the refusal when the
/// signer `owner` is not the account's owner. The allowance names the
/// account's owner, the account and the delegate; an allowance that exists
/// already (`existing`) keeps its amount and its `all` flag, a new one starts
/// with none.
pub open spec fn delegate_approve_result(
    existing: Option<DelegateAllowance>,
    account: SecurityTokenAccount,
    account_key: Pubkey,
    owner: Pubkey,
    delegate: Pubkey,
) -> Result<DelegateAllowance, TokenError> {
    if owner != account.owner {
        refused(ErrorCode::AccessDenied)
    } else {
        Ok(
            DelegateAllowance {
                owner: account.owner,
                account: account_key,
                delegate,
                amount: match existing {
                    Some(a) => a.amount,
                    None => 0,
                },
                all: match existing {
                    Some(a) => a.all,
                    None => false,
                },
            },
        )
    }
}

/// Records a delegate allowance, as `delegate_approve_result` says.
pub fn delegate_approve(
    existing: &Option<DelegateAllowance>,
    account: &SecurityTokenAccount,
    account_key: &Pubkey,
    owner: &Pubkey,
    delegate: &Pubkey,
) -> (r: Result<DelegateAllowance, TokenError>)
    ensures
        r == delegate_approve_result(*existing, *account, *account_key, *owner, *delegate),
{
    if !owner.equals(&account.owner) {
        return Err(TokenError::Program(ErrorCode::AccessDenied));
    }
    let (amount, all) = match existing {
        Some(a) => (a.amount, a.all),
        None => (0, false),
    };
    Ok(
        DelegateAllowance {
            owner: account.owner,
            account: *account_key,
            delegate: *delegate,
            amount,
            all,
        },
    )
}

/// Accepts a delegate transfer; it changes nothing.
pub fn delegate_transfer() -> (r: Result<(), TokenError>)
    ensures
        r == Ok::<(), TokenError>(()),
{
    Ok(())
}

/// Accepts a delegate update; it changes nothing.
pub fn delegate_update() -> (r: Result<(), TokenError>)
    ensures
        r == Ok::<(), TokenError>(()),
{
    Ok(())
}

/// Accepts closing a delegate allowance; it changes nothing.
pub fn delegate_close() -> (r: Result<(), TokenError>)
    ensures
        r == Ok::<(), TokenError>(()),
{
    Ok(())
}

} // verus!
