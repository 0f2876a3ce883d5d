//! What holds of the instructions taken together.

use vstd::prelude::*;
use crate::error::{ErrorCode, TokenError};
use crate::keys::Pubkey;
use crate::security_token::{
    refused,
    approval_result, burn_result, close_account_result, delegate_approve_result,
    manager_create_account_result, create_account_result, create_mint_result, mint_result,
    manager_update_account_result, transfer_result,
};
use crate::state::{
    ApprovalAccount, DelegateAllowance, SecurityTokenAccount, SecurityTokenMint, account_data_len,
    allowance_data_len, mint_data_len, url_byte_len, ACCOUNT_SPACE, ALLOWANCE_SPACE, MINT_SPACE,
    MINT_URL_MAX_LEN,
};

verus! {

/// The tokens held by all the accounts in `accounts`.
pub open spec fn total_balance(accounts: Seq<SecurityTokenAccount>) -> int
    decreases accounts.len(),
{
    if accounts.len() == 0 {
        0
    } else {
        total_balance(accounts.drop_last()) + accounts.last().amount
    }
}

/// Replacing one account changes the total by the change in its balance.
pub proof fn lemma_total_balance_update(
    accounts: Seq<SecurityTokenAccount>,
    i: int,
    a: SecurityTokenAccount,
)
    requires
        0 <= i < accounts.len(),
    ensures
        total_balance(accounts.update(i, a)) == total_balance(accounts) - accounts[i].amount
            + a.amount,
    decreases accounts.len(),
{
    let updated = accounts.update(i, a);
    if i == accounts.len() - 1 {
        assert(updated.drop_last() =~= accounts.drop_last());
    } else {
        lemma_total_balance_update(accounts.drop_last(), i, a);
        assert(updated.drop_last() =~= accounts.drop_last().update(i, a));
    }
}

/// Removing one account lowers the total by its balance.
pub proof fn lemma_total_balance_remove(accounts: Seq<SecurityTokenAccount>, i: int)
    requires
        0 <= i < accounts.len(),
    ensures
        total_balance(accounts.remove(i)) == total_balance(accounts) - accounts[i].amount,
    decreases accounts.len(),
{
    if i == accounts.len() - 1 {
        assert(accounts.remove(i) =~= accounts.drop_last());
    } else {
        lemma_total_balance_remove(accounts.drop_last(), i);
        assert(accounts.remove(i).drop_last() =~= accounts.drop_last().remove(i));
        assert(accounts.remove(i).last() == accounts.last());
    }
}

/// A transfer moves exactly `amount` tokens: the sender loses them, the
/// receiver gains them, the two balances together stay the same, and nothing
/// else in either account changes.
pub proof fn lemma_transfer_conserves_tokens(
    from: SecurityTokenAccount,
    to: SecurityTokenAccount,
    from_auth: ApprovalAccount,
    to_auth: ApprovalAccount,
    amount: u64,
)
    requires
        transfer_result(from, to, from_auth, to_auth, amount) is Ok,
    ensures
        ({
            let (f, t) = transfer_result(from, to, from_auth, to_auth, amount)->Ok_0;
            &&& f.amount == from.amount - amount
            &&& t.amount == to.amount + amount
            &&& f.amount + t.amount == from.amount + to.amount
            &&& f == SecurityTokenAccount { amount: f.amount, ..from }
            &&& t == SecurityTokenAccount { amount: t.amount, ..to }
        }),
{
}

/// Tokens move only between unfrozen accounts of one mint, one group and one
/// network authority, each let take part by an active approval of that
/// authority for that group.
pub proof fn lemma_transfer_within_group(
    from: SecurityTokenAccount,
    to: SecurityTokenAccount,
    from_auth: ApprovalAccount,
    to_auth: ApprovalAccount,
    amount: u64,
)
    requires
        transfer_result(from, to, from_auth, to_auth, amount) is Ok,
    ensures
        !from.frozen && !to.frozen,
        from.mint == to.mint && from.group == to.group && from.net_auth == to.net_auth,
        from_auth.owner == from.net_auth && to_auth.owner == to.net_auth,
        from_auth.data matches Ok(a) && a.active && a.group == from.group,
        to_auth.data matches Ok(a) && a.active && a.group == to.group,
        amount <= from.amount,
{
}

/// A frozen account neither receives newly issued tokens nor sends or
/// receives a transfer.
pub proof fn lemma_frozen_accounts_hold_still(
    mint: SecurityTokenMint,
    account: SecurityTokenAccount,
    other: SecurityTokenAccount,
    manager: Pubkey,
    account_auth: ApprovalAccount,
    other_auth: ApprovalAccount,
    amount: u64,
)
    requires
        account.frozen,
    ensures
        mint_result(mint, account, account_auth, manager, amount) is Err,
        transfer_result(account, other, account_auth, other_auth, amount)
            == refused::<(SecurityTokenAccount, SecurityTokenAccount)>(ErrorCode::AccountFrozen),
        transfer_result(other, account, other_auth, account_auth, amount)
            == refused::<(SecurityTokenAccount, SecurityTokenAccount)>(ErrorCode::AccountFrozen),
{
}

/// Tokens are issued only into an account that the network authority's
/// approval lets take part, as for a transfer.
pub proof fn lemma_mint_needs_approval(
    mint: SecurityTokenMint,
    account: SecurityTokenAccount,
    auth: ApprovalAccount,
    manager: Pubkey,
    amount: u64,
)
    ensures
        mint_result(mint, account, auth, manager, amount) is Ok ==> approval_result(
            auth,
            account.net_auth,
            account.group,
        ) is Ok,
        manager == mint.manager && approval_result(auth, account.net_auth, account.group) is Err
            ==> mint_result(mint, account, auth, manager, amount) == Err::<
            (SecurityTokenMint, SecurityTokenAccount),
            TokenError,
        >(approval_result(auth, account.net_auth, account.group)->Err_0),
{
}

/// Only the mint's manager issues or retires tokens, and issuing or retiring
/// changes the supply and the account's balance by the same amount.
pub proof fn lemma_supply_moves_with_balance(
    mint: SecurityTokenMint,
    account: SecurityTokenAccount,
    auth: ApprovalAccount,
    manager: Pubkey,
    amount: u64,
)
    ensures
        mint_result(mint, account, auth, manager, amount) matches Ok((m, a)) ==> {
            &&& manager == mint.manager
            &&& m.supply == mint.supply + amount
            &&& a.amount == account.amount + amount
        },
        burn_result(mint, account, manager, amount) matches Ok((m, a)) ==> {
            &&& manager == mint.manager
            &&& m.supply == mint.supply - amount
            &&& a.amount == account.amount - amount
        },
        manager != mint.manager ==> mint_result(mint, account, auth, manager, amount) == Err::<
            (SecurityTokenMint, SecurityTokenAccount),
            TokenError,
        >(TokenError::RequireKeysEqViolated) && burn_result(mint, account, manager, amount)
            == Err::<(SecurityTokenMint, SecurityTokenAccount), TokenError>(
            TokenError::RequireKeysEqViolated,
        ),
{
}

/// Burning looks neither at the frozen flag nor at any approval: tokens are
/// retired from a frozen account exactly as from the same account unfrozen.
pub proof fn lemma_burn_ignores_freeze(
    mint: SecurityTokenMint,
    account: SecurityTokenAccount,
    manager: Pubkey,
    amount: u64,
    frozen: bool,
)
    ensures
        ({
            let other = SecurityTokenAccount { frozen, ..account };
            &&& burn_result(mint, other, manager, amount) is Ok <==> burn_result(
                mint,
                account,
                manager,
                amount,
            ) is Ok
            &&& burn_result(mint, other, manager, amount) matches Ok((m, a)) ==> m
                == burn_result(mint, account, manager, amount)->Ok_0.0 && a.amount == burn_result(
                mint,
                account,
                manager,
                amount,
            )->Ok_0.1.amount && a.frozen == frozen
        }),
{
}

/// Retiring the tokens just issued gives back the mint and the account as
/// they were.
pub proof fn lemma_burn_undoes_mint(
    mint: SecurityTokenMint,
    account: SecurityTokenAccount,
    auth: ApprovalAccount,
    manager: Pubkey,
    amount: u64,
)
    requires
        mint_result(mint, account, auth, manager, amount) is Ok,
    ensures
        ({
            let (m, a) = mint_result(mint, account, auth, manager, amount)->Ok_0;
            burn_result(m, a, manager, amount) == Ok::<
                (SecurityTokenMint, SecurityTokenAccount),
                TokenError,
            >((mint, account))
        }),
{
}

/// Issuing again the tokens just retired from an unfrozen account that the
/// approval lets take part gives back the mint and the account as they were.
pub proof fn lemma_mint_undoes_burn(
    mint: SecurityTokenMint,
    account: SecurityTokenAccount,
    auth: ApprovalAccount,
    manager: Pubkey,
    amount: u64,
)
    requires
        burn_result(mint, account, manager, amount) is Ok,
        !account.frozen,
        approval_result(auth, account.net_auth, account.group) is Ok,
    ensures
        ({
            let (m, a) = burn_result(mint, account, manager, amount)->Ok_0;
            mint_result(m, a, auth, manager, amount) == Ok::<
                (SecurityTokenMint, SecurityTokenAccount),
                TokenError,
            >((mint, account))
        }),
{
}

/// Sending the same amount back, with the approvals exchanged, gives back
/// both accounts as they were.
pub proof fn lemma_transfer_back_restores(
    from: SecurityTokenAccount,
    to: SecurityTokenAccount,
    from_auth: ApprovalAccount,
    to_auth: ApprovalAccount,
    amount: u64,
)
    requires
        transfer_result(from, to, from_auth, to_auth, amount) is Ok,
    ensures
        ({
            let (f, t) = transfer_result(from, to, from_auth, to_auth, amount)->Ok_0;
            transfer_result(t, f, to_auth, from_auth, amount) == Ok::<
                (SecurityTokenAccount, SecurityTokenAccount),
                TokenError,
            >((to, from))
        }),
{
}

/// Whether every account in `accounts` belongs to the mint whose key is
/// `mint_key`.
pub open spec fn accounts_of_mint(accounts: Seq<SecurityTokenAccount>, mint_key: Pubkey) -> bool {
    forall|k: int| 0 <= k < accounts.len() ==> #[trigger] accounts[k].mint == mint_key
}

// The supply laws below speak of the accounts given to them. Issuing and
// retiring do not look at which mint the account belongs to, so the laws
// hold of a ledger whose accounts are those the manager issues into.

/// Issuing into an account of the ledger keeps the supply equal to the
/// tokens the ledger holds, and the account in the ledger.
pub proof fn lemma_supply_after_mint(
    mint: SecurityTokenMint,
    accounts: Seq<SecurityTokenAccount>,
    i: int,
    auth: ApprovalAccount,
    manager: Pubkey,
    amount: u64,
    mint_key: Pubkey,
)
    requires
        mint.supply == total_balance(accounts),
        accounts_of_mint(accounts, mint_key),
        0 <= i < accounts.len(),
    ensures
        mint_result(mint, accounts[i], auth, manager, amount) matches Ok((m, a)) ==> {
            &&& m.supply == total_balance(accounts.update(i, a))
            &&& accounts_of_mint(accounts.update(i, a), mint_key)
        },
{
    if let Ok((m, a)) = mint_result(mint, accounts[i], auth, manager, amount) {
        lemma_total_balance_update(accounts, i, a);
        assert(accounts[i].mint == mint_key);
    }
}

/// Retiring from an account of the ledger keeps the supply equal to the
/// tokens the ledger holds.
pub proof fn lemma_supply_after_burn(
    mint: SecurityTokenMint,
    accounts: Seq<SecurityTokenAccount>,
    i: int,
    manager: Pubkey,
    amount: u64,
    mint_key: Pubkey,
)
    requires
        mint.supply == total_balance(accounts),
        accounts_of_mint(accounts, mint_key),
        0 <= i < accounts.len(),
    ensures
        burn_result(mint, accounts[i], manager, amount) matches Ok((m, a)) ==> {
            &&& m.supply == total_balance(accounts.update(i, a))
            &&& accounts_of_mint(accounts.update(i, a), mint_key)
        },
{
    if let Ok((m, a)) = burn_result(mint, accounts[i], manager, amount) {
        lemma_total_balance_update(accounts, i, a);
        assert(accounts[i].mint == mint_key);
    }
}

/// A transfer between two different accounts of the ledger keeps the supply
/// equal to the tokens the ledger holds.
pub proof fn lemma_supply_after_transfer(
    mint: SecurityTokenMint,
    accounts: Seq<SecurityTokenAccount>,
    i: int,
    j: int,
    from_auth: ApprovalAccount,
    to_auth: ApprovalAccount,
    amount: u64,
    mint_key: Pubkey,
)
    requires
        mint.supply == total_balance(accounts),
        accounts_of_mint(accounts, mint_key),
        0 <= i < accounts.len(),
        0 <= j < accounts.len(),
        i != j,
    ensures
        transfer_result(accounts[i], accounts[j], from_auth, to_auth, amount) matches Ok((f, t))
            ==> {
            &&& mint.supply == total_balance(accounts.update(i, f).update(j, t))
            &&& accounts_of_mint(accounts.update(i, f).update(j, t), mint_key)
        },
{
    if let Ok((f, t)) = transfer_result(accounts[i], accounts[j], from_auth, to_auth, amount) {
        lemma_total_balance_update(accounts, i, f);
        lemma_total_balance_update(accounts.update(i, f), j, t);
        assert(accounts[i].mint == mint_key);
        assert(accounts[j].mint == mint_key);
    }
}

/// Adding an account newly created, by its owner or by the mint's manager,
/// keeps the supply equal to the tokens the ledger holds, and the new account
/// belongs to the mint.
pub proof fn lemma_supply_after_create(
    mint: SecurityTokenMint,
    accounts: Seq<SecurityTokenAccount>,
    mint_key: Pubkey,
    create_auth: ApprovalAccount,
    uuid: u128,
    owner: Pubkey,
    close_auth: Pubkey,
    manager: Pubkey,
)
    requires
        mint.supply == total_balance(accounts),
        accounts_of_mint(accounts, mint_key),
    ensures
        create_account_result(None, mint_key, mint, create_auth, uuid, owner, close_auth)
            matches Ok(a) ==> {
            &&& mint.supply == total_balance(accounts.push(a))
            &&& accounts_of_mint(accounts.push(a), mint_key)
        },
        manager_create_account_result(
            None,
            mint_key,
            mint,
            manager,
            create_auth,
            uuid,
            owner,
            close_auth,
        ) matches Ok(a) ==> {
            &&& mint.supply == total_balance(accounts.push(a))
            &&& accounts_of_mint(accounts.push(a), mint_key)
        },
{
    if let Ok(a) = create_account_result(None, mint_key, mint, create_auth, uuid, owner, close_auth) {
        assert(accounts.push(a).drop_last() =~= accounts);
    }
    if let Ok(a) = manager_create_account_result(
        None,
        mint_key,
        mint,
        manager,
        create_auth,
        uuid,
        owner,
        close_auth,
    ) {
        assert(accounts.push(a).drop_last() =~= accounts);
    }
}

/// Closing an account of the ledger keeps the supply equal to the tokens the
/// rest of the ledger holds.
pub proof fn lemma_supply_after_close(
    mint: SecurityTokenMint,
    accounts: Seq<SecurityTokenAccount>,
    i: int,
    mint_key: Pubkey,
    user: Pubkey,
)
    requires
        mint.supply == total_balance(accounts),
        accounts_of_mint(accounts, mint_key),
        0 <= i < accounts.len(),
    ensures
        close_account_result(accounts[i], mint_key, mint, user) is Ok ==> {
            &&& mint.supply == total_balance(accounts.remove(i))
            &&& accounts_of_mint(accounts.remove(i), mint_key)
        },
{
    lemma_total_balance_remove(accounts, i);
    assert forall|k: int| 0 <= k < accounts.remove(i).len() implies #[trigger] accounts.remove(
        i,
    )[k].mint == mint_key by {
        if k < i {
            assert(accounts.remove(i)[k] == accounts[k]);
        } else {
            assert(accounts.remove(i)[k] == accounts[k + 1]);
        }
    }
}

/// Only the mint's manager changes an account's lock time or frozen flag,
/// only on an account of that mint, and nothing else in the account changes.
pub proof fn lemma_only_manager_updates(
    account: SecurityTokenAccount,
    mint_key: Pubkey,
    mint: SecurityTokenMint,
    manager: Pubkey,
    locked_until: i64,
    frozen: bool,
)
    ensures
        manager_update_account_result(account, mint_key, mint, manager, locked_until, frozen)
            matches Ok(a) ==> {
            &&& manager == mint.manager
            &&& account.mint == mint_key
            &&& a.locked_until == locked_until
            &&& a.frozen == frozen
            &&& a.amount == account.amount
            &&& a.owner == account.owner
            &&& a.mint == account.mint
        },
{
}

/// A new token account holds no tokens, is neither locked nor frozen, and
/// takes its mint, group and network authority from the mint; it is created
/// exactly when the network authority's approval lets the mint's group in and
/// the account does not exist yet. An existing account is never reset: asking
/// to create it again is refused, whatever it holds.
pub proof fn lemma_new_account_is_empty(
    existing: Option<SecurityTokenAccount>,
    mint_key: Pubkey,
    mint: SecurityTokenMint,
    create_auth: ApprovalAccount,
    uuid: u128,
    owner: Pubkey,
    close_auth: Pubkey,
)
    ensures
        create_account_result(existing, mint_key, mint, create_auth, uuid, owner, close_auth)
            is Ok <==> approval_result(create_auth, mint.net_auth, mint.group) is Ok
            && existing is None,
        existing is Some ==> create_account_result(
            existing,
            mint_key,
            mint,
            create_auth,
            uuid,
            owner,
            close_auth,
        ) is Err,
        create_account_result(existing, mint_key, mint, create_auth, uuid, owner, close_auth)
            matches Ok(a) ==> {
            &&& a.amount == 0
            &&& !a.frozen
            &&& a.locked_until == 0
            &&& a.mint == mint_key
            &&& a.group == mint.group
            &&& a.net_auth == mint.net_auth
            &&& a.owner == owner
        },
{
}

/// The mint's manager creates accounts as their owners do, under the same
/// approval and never over an existing account; anyone else is refused.
pub proof fn lemma_manager_creates_accounts(
    existing: Option<SecurityTokenAccount>,
    mint_key: Pubkey,
    mint: SecurityTokenMint,
    manager: Pubkey,
    create_auth: ApprovalAccount,
    uuid: u128,
    owner: Pubkey,
    close_auth: Pubkey,
)
    ensures
        manager == mint.manager ==> manager_create_account_result(
            existing,
            mint_key,
            mint,
            manager,
            create_auth,
            uuid,
            owner,
            close_auth,
        ) == create_account_result(existing, mint_key, mint, create_auth, uuid, owner, close_auth),
        manager != mint.manager ==> manager_create_account_result(
            existing,
            mint_key,
            mint,
            manager,
            create_auth,
            uuid,
            owner,
            close_auth,
        ) == refused::<SecurityTokenAccount>(ErrorCode::InvalidMint),
        manager_create_account_result(
            existing,
            mint_key,
            mint,
            manager,
            create_auth,
            uuid,
            owner,
            close_auth,
        ) matches Ok(a) ==> {
            &&& a.amount == 0
            &&& !a.frozen
            &&& a.locked_until == 0
            &&& a.mint == mint_key
            &&& a.group == mint.group
            &&& a.net_auth == mint.net_auth
            &&& a.owner == owner
        },
{
}

/// Only the owner of a token account grants an allowance on it, and the
/// allowance names that owner, the account and the delegate.
pub proof fn lemma_allowance_names_owner(
    existing: Option<DelegateAllowance>,
    account: SecurityTokenAccount,
    account_key: Pubkey,
    owner: Pubkey,
    delegate: Pubkey,
)
    ensures
        delegate_approve_result(existing, account, account_key, owner, delegate) is Ok <==> owner
            == account.owner,
        delegate_approve_result(existing, account, account_key, owner, delegate) matches Ok(a)
            ==> {
            &&& a.owner == account.owner
            &&& a.account == account_key
            &&& a.delegate == delegate
        },
{
}

/// Only an account that holds no tokens is closed, and only by its close
/// authority, its owner or the mint's manager.
pub proof fn lemma_only_empty_accounts_close(
    account: SecurityTokenAccount,
    mint_key: Pubkey,
    mint: SecurityTokenMint,
    user: Pubkey,
)
    ensures
        close_account_result(account, mint_key, mint, user) is Ok ==> {
            &&& account.amount == 0
            &&& account.mint == mint_key
            &&& (user == account.close_auth || user == mint.manager || user == account.owner)
        },
{
}

/// A new mint has issued no tokens, and it is created exactly when its url
/// takes at most `MINT_URL_MAX_LEN` bytes.
pub proof fn lemma_new_mint_is_empty(
    manager: Pubkey,
    net_auth: Pubkey,
    group: Pubkey,
    decimals: u8,
    url: String,
)
    ensures
        create_mint_result(manager, net_auth, group, decimals, url) is Ok <==> url_byte_len(url@)
            <= MINT_URL_MAX_LEN,
        create_mint_result(manager, net_auth, group, decimals, url) matches Ok(m) ==> m.supply
            == 0 && m.manager == manager,
{
}

/// The space reserved for each kind of account holds it exactly: a token
/// account, a delegate allowance, and a mint whose url is as long as allowed.
pub proof fn lemma_reserved_space_fits()
    ensures
        account_data_len() == ACCOUNT_SPACE,
        allowance_data_len() == ALLOWANCE_SPACE,
        mint_data_len(MINT_URL_MAX_LEN as nat) == MINT_SPACE,
{
}

} // verus!
