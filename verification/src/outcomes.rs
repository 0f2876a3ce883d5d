//! When each instruction succeeds and what it then yields, stated over the
//! accounts' fields alone: no condition here goes through the rule that the
//! instruction itself applies.

use vstd::prelude::*;
use crate::error::{ErrorCode, TokenError};
use crate::keys::Pubkey;
use crate::security_token::{
    approval_result, burn_result, close_account_result, create_account_result, create_mint_result,
    delegate_approve_result, holds_account, manager_create_account_result,
    manager_update_account_result, mint_result, transfer_result,
};
use crate::state::{
    ApprovalAccount, DelegateAllowance, SecurityTokenAccount, SecurityTokenMint, url_byte_len,
    MINT_URL_MAX_LEN,
};

verus! {

/// An approval account lets an account of group `group` under the network
/// authority `net_auth` take part exactly when that authority owns it, its
/// data reads as an approval, and the approval is active and names that group.
pub proof fn law_approval_accepts(auth: ApprovalAccount, net_auth: Pubkey, group: Pubkey)
    ensures
        approval_result(auth, net_auth, group) is Ok <==> (auth.owner == net_auth && (
        auth.data matches Ok(a) && a.active && a.group == group)),
        approval_result(auth, net_auth, group) is Ok ==> approval_result(auth, net_auth, group)
            == Ok::<(), TokenError>(()),
        auth.owner != net_auth ==> approval_result(auth, net_auth, group) == Err::<(), TokenError>(
            TokenError::Program(ErrorCode::InvalidAuthOwner),
        ),
{
}

/// A transfer succeeds exactly when neither account is frozen, both share
/// mint, group and network authority, each approval is owned by that
/// authority and actively names that group, the sender holds the amount and
/// the receiver's balance stays in range; whatever else the accounts hold
/// (uuid, owner, close authority, lock time) plays no part. It then takes the
/// amount from the sender, gives it to the receiver, and changes nothing else.
pub proof fn law_transfer_outcome(
    from: SecurityTokenAccount,
    to: SecurityTokenAccount,
    from_auth: ApprovalAccount,
    to_auth: ApprovalAccount,
    amount: u64,
)
    ensures
        transfer_result(from, to, from_auth, to_auth, amount) is Ok <==> {
            &&& !from.frozen && !to.frozen
            &&& from.mint == to.mint && from.group == to.group && from.net_auth == to.net_auth
            &&& from_auth.owner == from.net_auth
            &&& from_auth.data matches Ok(a) && a.active && a.group == from.group
            &&& to_auth.owner == to.net_auth
            &&& to_auth.data matches Ok(a) && a.active && a.group == to.group
            &&& amount <= from.amount
            &&& to.amount + amount <= u64::MAX
        },
        transfer_result(from, to, from_auth, to_auth, amount) is Ok ==> transfer_result(
            from,
            to,
            from_auth,
            to_auth,
            amount,
        ) == Ok::<(SecurityTokenAccount, SecurityTokenAccount), TokenError>(
            (
                SecurityTokenAccount { amount: (from.amount - amount) as u64, ..from },
                SecurityTokenAccount { amount: (to.amount + amount) as u64, ..to },
            ),
        ),
        from.amount < amount && !from.frozen && !to.frozen && from.mint == to.mint && from.group
            == to.group && from.net_auth == to.net_auth && approval_result(
            from_auth,
            from.net_auth,
            from.group,
        ) is Ok && approval_result(to_auth, to.net_auth, to.group) is Ok ==> transfer_result(
            from,
            to,
            from_auth,
            to_auth,
            amount,
        ) == Err::<(SecurityTokenAccount, SecurityTokenAccount), TokenError>(
            TokenError::Program(ErrorCode::InsufficientTokens),
        ),
{
}

/// Issuing succeeds exactly when the signer is the mint's manager, the
/// approval is owned by the account's network authority and actively names
/// its group, the account is not frozen, and neither the supply nor the
/// balance leaves range; it then raises both by the amount and changes
/// nothing else.
pub proof fn law_mint_outcome(
    mint: SecurityTokenMint,
    to: SecurityTokenAccount,
    to_auth: ApprovalAccount,
    manager: Pubkey,
    amount: u64,
)
    ensures
        mint_result(mint, to, to_auth, manager, amount) is Ok <==> {
            &&& manager == mint.manager
            &&& to_auth.owner == to.net_auth
            &&& to_auth.data matches Ok(a) && a.active && a.group == to.group
            &&& !to.frozen
            &&& mint.supply + amount <= u64::MAX
            &&& to.amount + amount <= u64::MAX
        },
        mint_result(mint, to, to_auth, manager, amount) is Ok ==> mint_result(
            mint,
            to,
            to_auth,
            manager,
            amount,
        ) == Ok::<(SecurityTokenMint, SecurityTokenAccount), TokenError>(
            (
                SecurityTokenMint { supply: (mint.supply + amount) as u64, ..mint },
                SecurityTokenAccount { amount: (to.amount + amount) as u64, ..to },
            ),
        ),
{
}

/// Retiring succeeds exactly when the signer is the mint's manager and both
/// the supply and the balance cover the amount, frozen or not; it then lowers
/// both by the amount and changes nothing else.
pub proof fn law_burn_outcome(
    mint: SecurityTokenMint,
    from: SecurityTokenAccount,
    manager: Pubkey,
    amount: u64,
)
    ensures
        burn_result(mint, from, manager, amount) is Ok <==> {
            &&& manager == mint.manager
            &&& amount <= mint.supply
            &&& amount <= from.amount
        },
        burn_result(mint, from, manager, amount) is Ok ==> burn_result(mint, from, manager, amount)
            == Ok::<(SecurityTokenMint, SecurityTokenAccount), TokenError>(
            (
                SecurityTokenMint { supply: (mint.supply - amount) as u64, ..mint },
                SecurityTokenAccount { amount: (from.amount - amount) as u64, ..from },
            ),
        ),
{
}

/// An account is created, by its owner, exactly when it does not exist yet
/// and the approval is owned by the mint's network authority and actively
/// names the mint's group; the new account stores exactly the requested
/// uuid, owner and close authority, the mint's key, group and authority, and
/// no tokens, no lock and no freeze.
pub proof fn law_create_account_outcome(
    existing: Option<SecurityTokenAccount>,
    mint_key: Pubkey,
    mint: SecurityTokenMint,
    create_auth: ApprovalAccount,
    uuid: u128,
    owner: Pubkey,
    close_auth: Pubkey,
)
    ensures
        create_account_result(existing, mint_key, mint, create_auth, uuid, owner, close_auth)
            is Ok <==> {
            &&& existing is None
            &&& create_auth.owner == mint.net_auth
            &&& create_auth.data matches Ok(a) && a.active && a.group == mint.group
        },
        create_account_result(existing, mint_key, mint, create_auth, uuid, owner, close_auth)
            is Ok ==> create_account_result(
            existing,
            mint_key,
            mint,
            create_auth,
            uuid,
            owner,
            close_auth,
        ) == Ok::<SecurityTokenAccount, TokenError>(
            SecurityTokenAccount {
                uuid: uuid,
                owner: owner,
                mint: mint_key,
                group: mint.group,
                net_auth: mint.net_auth,
                close_auth: close_auth,
                amount: 0,
                locked_until: 0,
                frozen: false,
            },
        ),
{
}

/// The mint's manager creates an account exactly when the owner could, and
/// gets the same account: exactly the requested uuid, owner and close
/// authority, the mint's key, group and authority, and no tokens, no lock
/// and no freeze.
pub proof fn law_manager_create_account_outcome(
    existing: Option<SecurityTokenAccount>,
    mint_key: Pubkey,
    mint: SecurityTokenMint,
    manager: Pubkey,
    create_auth: ApprovalAccount,
    uuid: u128,
    owner: Pubkey,
    close_auth: Pubkey,
)
    ensures
        manager_create_account_result(
            existing,
            mint_key,
            mint,
            manager,
            create_auth,
            uuid,
            owner,
            close_auth,
        ) is Ok <==> {
            &&& manager == mint.manager
            &&& existing is None
            &&& create_auth.owner == mint.net_auth
            &&& create_auth.data matches Ok(a) && a.active && a.group == mint.group
        },
        manager_create_account_result(
            existing,
            mint_key,
            mint,
            manager,
            create_auth,
            uuid,
            owner,
            close_auth,
        ) is Ok ==> manager_create_account_result(
            existing,
            mint_key,
            mint,
            manager,
            create_auth,
            uuid,
            owner,
            close_auth,
        ) == Ok::<SecurityTokenAccount, TokenError>(
            SecurityTokenAccount {
                uuid: uuid,
                owner: owner,
                mint: mint_key,
                group: mint.group,
                net_auth: mint.net_auth,
                close_auth: close_auth,
                amount: 0,
                locked_until: 0,
                frozen: false,
            },
        ),
{
}

/// A mint is created exactly when its url takes at most
/// `MINT_URL_MAX_LEN` bytes of UTF-8; it then names the given manager,
/// network authority and group, keeps the decimals and the url, has uuid 0
/// and has issued no tokens.
pub proof fn law_create_mint_outcome(
    manager: Pubkey,
    net_auth: Pubkey,
    group: Pubkey,
    decimals: u8,
    url: String,
)
    ensures
        create_mint_result(manager, net_auth, group, decimals, url) is Ok <==> url_byte_len(url@)
            <= MINT_URL_MAX_LEN,
        create_mint_result(manager, net_auth, group, decimals, url) is Ok ==> create_mint_result(
            manager,
            net_auth,
            group,
            decimals,
            url,
        ) == Ok::<SecurityTokenMint, TokenError>(
            SecurityTokenMint {
                uuid: 0,
                manager: manager,
                net_auth: net_auth,
                group: group,
                supply: 0,
                decimals: decimals,
                url: url,
            },
        ),
        url_byte_len(url@) > MINT_URL_MAX_LEN ==> create_mint_result(
            manager,
            net_auth,
            group,
            decimals,
            url,
        ) == Err::<SecurityTokenMint, TokenError>(TokenError::AccountDidNotSerialize),
{
}

/// An account may be closed exactly when it belongs to the mint, holds no
/// tokens, and the user is its close authority, the mint's manager or its
/// owner; one user may be several of these at once.
pub proof fn law_close_account_outcome(
    account: SecurityTokenAccount,
    mint_key: Pubkey,
    mint: SecurityTokenMint,
    user: Pubkey,
)
    ensures
        close_account_result(account, mint_key, mint, user) is Ok <==> {
            &&& account.mint == mint_key
            &&& account.amount == 0
            &&& (user == account.close_auth || user == mint.manager || user == account.owner)
        },
        close_account_result(account, mint_key, mint, user) is Ok ==> close_account_result(
            account,
            mint_key,
            mint,
            user,
        ) == Ok::<(), TokenError>(()),
{
}

/// The mint's manager updates an account of the mint whatever its lock time
/// and frozen flag were: the update succeeds exactly when the account belongs
/// to the mint and the signer is its manager, and it then sets the lock time
/// and the frozen flag to the requested values and changes nothing else.
pub proof fn law_manager_update_outcome(
    account: SecurityTokenAccount,
    mint_key: Pubkey,
    mint: SecurityTokenMint,
    manager: Pubkey,
    locked_until: i64,
    frozen: bool,
)
    ensures
        manager_update_account_result(account, mint_key, mint, manager, locked_until, frozen)
            is Ok <==> account.mint == mint_key && manager == mint.manager,
        manager_update_account_result(account, mint_key, mint, manager, locked_until, frozen)
            is Ok ==> manager_update_account_result(
            account,
            mint_key,
            mint,
            manager,
            locked_until,
            frozen,
        ) == Ok::<SecurityTokenAccount, TokenError>(
            SecurityTokenAccount {
                uuid: account.uuid,
                owner: account.owner,
                mint: account.mint,
                group: account.group,
                net_auth: account.net_auth,
                close_auth: account.close_auth,
                amount: account.amount,
                locked_until: locked_until,
                frozen: frozen,
            },
        ),
{
}

/// An allowance is recorded exactly when the signer owns the token account.
/// It names the owner, the account and the delegate; approving again leaves
/// an existing allowance's amount and `all` flag as they were, and a new
/// allowance lets the delegate move nothing.
pub proof fn law_delegate_approve_outcome(
    existing: Option<DelegateAllowance>,
    account: SecurityTokenAccount,
    account_key: Pubkey,
    owner: Pubkey,
    delegate: Pubkey,
)
    ensures
        delegate_approve_result(existing, account, account_key, owner, delegate) is Ok <==> owner
            == account.owner,
        delegate_approve_result(existing, account, account_key, owner, delegate) matches Ok(a)
            ==> {
            &&& a.owner == account.owner
            &&& a.account == account_key
            &&& a.delegate == delegate
            &&& existing matches Some(e) ==> a.amount == e.amount && a.all == e.all
            &&& existing is None ==> a.amount == 0 && !a.all
        },
{
}

/// Account data holds an account exactly when it begins with the account
/// kind's tag: data too short for the tag never does, and data that differs
/// from the tag at one of its bytes does not.
pub proof fn law_holds_account(data: Seq<u8>, discriminator: Seq<u8>, k: int)
    ensures
        data.len() < discriminator.len() ==> !holds_account(data, discriminator),
        0 <= k < discriminator.len() && k < data.len() && data[k] != discriminator[k]
            ==> !holds_account(data, discriminator),
        data.len() >= discriminator.len() && (forall|j: int|
            0 <= j < discriminator.len() ==> data[j] == discriminator[j]) ==> holds_account(
            data,
            discriminator,
        ),
{
    if 0 <= k < discriminator.len() && k < data.len() && data[k] != discriminator[k]
        && data.len() >= discriminator.len() {
        assert(data.subrange(0, discriminator.len() as int)[k] == data[k]);
    }
    if data.len() >= discriminator.len() && (forall|j: int|
        0 <= j < discriminator.len() ==> data[j] == discriminator[j]) {
        assert(data.subrange(0, discriminator.len() as int) =~= discriminator);
    }
}

/// Which refusal an approval account gives: a foreign owner first, then
/// unreadable data (with the loader's code), then an inactive approval, then
/// an approval for another group.
pub proof fn law_approval_refusals(auth: ApprovalAccount, net_auth: Pubkey, group: Pubkey)
    ensures
        auth.owner == net_auth ==> (auth.data matches Err(c) ==> approval_result(
            auth,
            net_auth,
            group,
        ) == Err::<(), TokenError>(TokenError::ApprovalUnreadable(c))),
        auth.owner == net_auth ==> (auth.data matches Ok(a) && !a.active ==> approval_result(
            auth,
            net_auth,
            group,
        ) == Err::<(), TokenError>(TokenError::Program(ErrorCode::InactiveApproval))),
        auth.owner == net_auth ==> (auth.data matches Ok(a) && a.active && a.group != group
            ==> approval_result(auth, net_auth, group) == Err::<(), TokenError>(
            TokenError::Program(ErrorCode::InvalidGroup),
        )),
{
}

/// Which refusal a transfer gives: a frozen account; then different mints,
/// groups or network authorities, in that order; then the sender's approval's
/// refusal, then the receiver's; then too few tokens, then an overflow.
pub proof fn law_transfer_refusals(
    from: SecurityTokenAccount,
    to: SecurityTokenAccount,
    from_auth: ApprovalAccount,
    to_auth: ApprovalAccount,
    amount: u64,
)
    ensures
        ({
            let r = transfer_result(from, to, from_auth, to_auth, amount);
            let unfrozen = !from.frozen && !to.frozen;
            let matched = from.mint == to.mint && from.group == to.group && from.net_auth
                == to.net_auth;
            &&& from.frozen || to.frozen ==> r == Err::<
                (SecurityTokenAccount, SecurityTokenAccount),
                TokenError,
            >(TokenError::Program(ErrorCode::AccountFrozen))
            &&& unfrozen && from.mint != to.mint ==> r == Err::<
                (SecurityTokenAccount, SecurityTokenAccount),
                TokenError,
            >(TokenError::Program(ErrorCode::InvalidMint))
            &&& unfrozen && from.mint == to.mint && from.group != to.group ==> r == Err::<
                (SecurityTokenAccount, SecurityTokenAccount),
                TokenError,
            >(TokenError::Program(ErrorCode::InvalidGroup))
            &&& unfrozen && from.mint == to.mint && from.group == to.group && from.net_auth
                != to.net_auth ==> r == Err::<
                (SecurityTokenAccount, SecurityTokenAccount),
                TokenError,
            >(TokenError::Program(ErrorCode::InvalidNetAuth))
            &&& unfrozen && matched ==> (approval_result(from_auth, from.net_auth, from.group)
                matches Err(e) ==> r == Err::<(SecurityTokenAccount, SecurityTokenAccount), TokenError>(
                e,
            ))
            &&& unfrozen && matched && approval_result(from_auth, from.net_auth, from.group) is Ok
                ==> (approval_result(to_auth, to.net_auth, to.group) matches Err(e) ==> r == Err::<
                (SecurityTokenAccount, SecurityTokenAccount),
                TokenError,
            >(e))
            &&& unfrozen && matched && approval_result(from_auth, from.net_auth, from.group) is Ok
                && approval_result(to_auth, to.net_auth, to.group) is Ok && amount <= from.amount
                && to.amount + amount > u64::MAX ==> r == Err::<
                (SecurityTokenAccount, SecurityTokenAccount),
                TokenError,
            >(TokenError::Program(ErrorCode::Overflow))
        }),
{
}

/// Which refusal issuing gives: a signer other than the manager; then the
/// approval's refusal; then a supply overflow; then a frozen account; then a
/// balance overflow.
pub proof fn law_mint_refusals(
    mint: SecurityTokenMint,
    to: SecurityTokenAccount,
    to_auth: ApprovalAccount,
    manager: Pubkey,
    amount: u64,
)
    ensures
        ({
            let r = mint_result(mint, to, to_auth, manager, amount);
            let approved = approval_result(to_auth, to.net_auth, to.group) is Ok;
            &&& manager != mint.manager ==> r == Err::<
                (SecurityTokenMint, SecurityTokenAccount),
                TokenError,
            >(TokenError::RequireKeysEqViolated)
            &&& manager == mint.manager ==> (approval_result(to_auth, to.net_auth, to.group)
                matches Err(e) ==> r == Err::<(SecurityTokenMint, SecurityTokenAccount), TokenError>(
                e,
            ))
            &&& manager == mint.manager && approved && mint.supply + amount > u64::MAX ==> r
                == Err::<(SecurityTokenMint, SecurityTokenAccount), TokenError>(
                TokenError::Program(ErrorCode::Overflow),
            )
            &&& manager == mint.manager && approved && mint.supply + amount <= u64::MAX
                && to.frozen ==> r == Err::<(SecurityTokenMint, SecurityTokenAccount), TokenError>(
                TokenError::Program(ErrorCode::AccountFrozen),
            )
            &&& manager == mint.manager && approved && mint.supply + amount <= u64::MAX
                && !to.frozen && to.amount + amount > u64::MAX ==> r == Err::<
                (SecurityTokenMint, SecurityTokenAccount),
                TokenError,
            >(TokenError::Program(ErrorCode::Overflow))
        }),
{
}

/// Which refusal retiring gives: a signer other than the manager, else an
/// amount above the supply or above the balance, both reported as overflow.
pub proof fn law_burn_refusals(
    mint: SecurityTokenMint,
    from: SecurityTokenAccount,
    manager: Pubkey,
    amount: u64,
)
    ensures
        manager != mint.manager ==> burn_result(mint, from, manager, amount) == Err::<
            (SecurityTokenMint, SecurityTokenAccount),
            TokenError,
        >(TokenError::RequireKeysEqViolated),
        manager == mint.manager && (amount > mint.supply || amount > from.amount) ==> burn_result(
            mint,
            from,
            manager,
            amount,
        ) == Err::<(SecurityTokenMint, SecurityTokenAccount), TokenError>(
            TokenError::Program(ErrorCode::Overflow),
        ),
{
}

/// Which refusal creating an account gives: the approval's refusal first,
/// then an account that exists already; the manager's creation adds a signer
/// other than the manager, reported as an invalid mint, before both.
pub proof fn law_create_account_refusals(
    existing: Option<SecurityTokenAccount>,
    mint_key: Pubkey,
    mint: SecurityTokenMint,
    manager: Pubkey,
    create_auth: ApprovalAccount,
    uuid: u128,
    owner: Pubkey,
    close_auth: Pubkey,
)
    ensures
        approval_result(create_auth, mint.net_auth, mint.group) matches Err(e) ==> create_account_result(
            existing,
            mint_key,
            mint,
            create_auth,
            uuid,
            owner,
            close_auth,
        ) == Err::<SecurityTokenAccount, TokenError>(e),
        approval_result(create_auth, mint.net_auth, mint.group) is Ok && existing is Some
            ==> create_account_result(
            existing,
            mint_key,
            mint,
            create_auth,
            uuid,
            owner,
            close_auth,
        ) == Err::<SecurityTokenAccount, TokenError>(TokenError::AccountAlreadyInitialized),
        manager != mint.manager ==> manager_create_account_result(
            existing,
            mint_key,
            mint,
            manager,
            create_auth,
            uuid,
            owner,
            close_auth,
        ) == Err::<SecurityTokenAccount, TokenError>(TokenError::Program(ErrorCode::InvalidMint)),
{
}

/// Which refusal closing gives: an account of another mint, then a user who
/// may not close it, then a balance that is not zero.
pub proof fn law_close_account_refusals(
    account: SecurityTokenAccount,
    mint_key: Pubkey,
    mint: SecurityTokenMint,
    user: Pubkey,
)
    ensures
        ({
            let r = close_account_result(account, mint_key, mint, user);
            let allowed = user == account.close_auth || user == mint.manager || user
                == account.owner;
            &&& account.mint != mint_key ==> r == Err::<(), TokenError>(
                TokenError::Program(ErrorCode::InvalidMint),
            )
            &&& account.mint == mint_key && !allowed ==> r == Err::<(), TokenError>(
                TokenError::Program(ErrorCode::AccessDenied),
            )
            &&& account.mint == mint_key && allowed && account.amount != 0 ==> r == Err::<
                (),
                TokenError,
            >(TokenError::AccountNotEmpty)
        }),
{
}

/// Which refusal the manager's update and an allowance give: an account of
/// another mint or a signer other than the manager are both an invalid mint;
/// a signer other than the account's owner is denied an allowance.
pub proof fn law_update_and_approve_refusals(
    account: SecurityTokenAccount,
    mint_key: Pubkey,
    mint: SecurityTokenMint,
    manager: Pubkey,
    locked_until: i64,
    frozen: bool,
    existing: Option<DelegateAllowance>,
    owner: Pubkey,
    delegate: Pubkey,
)
    ensures
        account.mint != mint_key || manager != mint.manager ==> manager_update_account_result(
            account,
            mint_key,
            mint,
            manager,
            locked_until,
            frozen,
        ) == Err::<SecurityTokenAccount, TokenError>(TokenError::Program(ErrorCode::InvalidMint)),
        owner != account.owner ==> delegate_approve_result(
            existing,
            account,
            mint_key,
            owner,
            delegate,
        ) == Err::<DelegateAllowance, TokenError>(TokenError::Program(ErrorCode::AccessDenied)),
{
}

} // verus!
