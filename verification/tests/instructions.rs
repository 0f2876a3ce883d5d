use security_token::error::{ErrorCode, TokenError};
use security_token::keys::Pubkey;
use security_token::security_token::{
    burn, check_approval, close_account, create_account, create_mint, delegate_approve,
    delegate_close, delegate_transfer, delegate_update, is_initialized, manager_create_account,
    manager_update_account, mint, transfer,
};
use security_token::state::{
    ApprovalAccount, DelegateAllowance, GroupApproval, SecurityTokenAccount, SecurityTokenMint,
    MINT_URL_MAX_LEN,
};

fn key(b: u8) -> Pubkey {
    Pubkey::new([b; 32])
}

const MANAGER: u8 = 1;
const NET_AUTH: u8 = 2;
const GROUP: u8 = 3;
const MINT_KEY: u8 = 4;
const ALICE: u8 = 5;
const BOB: u8 = 6;
const CLOSER: u8 = 7;
const STRANGER: u8 = 8;

fn new_mint(supply: u64) -> SecurityTokenMint {
    SecurityTokenMint {
        uuid: 0,
        manager: key(MANAGER),
        net_auth: key(NET_AUTH),
        group: key(GROUP),
        supply,
        decimals: 2,
        url: String::from("https://example.com/token"),
    }
}

fn new_account(owner: u8, amount: u64) -> SecurityTokenAccount {
    SecurityTokenAccount {
        uuid: owner as u128,
        owner: key(owner),
        mint: key(MINT_KEY),
        group: key(GROUP),
        net_auth: key(NET_AUTH),
        close_auth: key(CLOSER),
        amount,
        locked_until: 0,
        frozen: false,
    }
}

fn approval() -> ApprovalAccount {
    ApprovalAccount { owner: key(NET_AUTH), data: Ok(GroupApproval { active: true, group: key(GROUP) }) }
}

fn same_account(a: &SecurityTokenAccount, b: &SecurityTokenAccount) -> bool {
    a.uuid == b.uuid
        && a.owner == b.owner
        && a.mint == b.mint
        && a.group == b.group
        && a.net_auth == b.net_auth
        && a.close_auth == b.close_auth
        && a.amount == b.amount
        && a.locked_until == b.locked_until
        && a.frozen == b.frozen
}

fn refused(code: ErrorCode) -> Result<(), TokenError> {
    Err(TokenError::Program(code))
}

#[test]
fn keys_compare_by_bytes() {
    assert!(key(1).equals(&key(1)));
    assert!(!key(1).equals(&key(2)));
    let mut bytes = [9u8; 32];
    bytes[31] = 10;
    assert!(!Pubkey::new(bytes).equals(&key(9)));
    assert_eq!(key(3), key(3));
    assert_ne!(key(3), Pubkey::default());
    assert_eq!(Pubkey::default().bytes, [0u8; 32]);
}

#[test]
fn create_mint_starts_with_no_supply() {
    let m = create_mint(&key(MANAGER), &key(NET_AUTH), &key(GROUP), 6, String::from("https://a.b")).unwrap();
    assert_eq!(m.uuid, 0);
    assert_eq!(m.supply, 0);
    assert_eq!(m.decimals, 6);
    assert_eq!(m.manager, key(MANAGER));
    assert_eq!(m.net_auth, key(NET_AUTH));
    assert_eq!(m.group, key(GROUP));
    assert_eq!(m.url, "https://a.b");
}

#[test]
fn create_mint_url_limit_is_in_bytes() {
    let longest = "u".repeat(MINT_URL_MAX_LEN);
    assert!(create_mint(&key(MANAGER), &key(NET_AUTH), &key(GROUP), 0, longest).is_ok());
    let too_long = "u".repeat(MINT_URL_MAX_LEN + 1);
    assert_eq!(
        create_mint(&key(MANAGER), &key(NET_AUTH), &key(GROUP), 0, too_long).unwrap_err(),
        TokenError::AccountDidNotSerialize
    );
    // 62 two-byte characters take 124 bytes, 63 take 126.
    assert!(create_mint(&key(MANAGER), &key(NET_AUTH), &key(GROUP), 0, "é".repeat(62)).is_ok());
    assert_eq!(
        create_mint(&key(MANAGER), &key(NET_AUTH), &key(GROUP), 0, "é".repeat(63)).unwrap_err(),
        TokenError::AccountDidNotSerialize
    );
}

#[test]
fn mint_raises_supply_and_balance() {
    let mut m = new_mint(100);
    let mut a = new_account(ALICE, 40);
    assert_eq!(mint(&mut m, &mut a, &approval(), &key(MANAGER), 25), Ok(()));
    assert_eq!(m.supply, 125);
    assert_eq!(a.amount, 65);
}

#[test]
fn mint_refusals_change_nothing() {
    let mut m = new_mint(100);
    let mut a = new_account(ALICE, 40);
    let a0 = a.clone();
    assert_eq!(mint(&mut m, &mut a, &approval(), &key(STRANGER), 1), Err(TokenError::RequireKeysEqViolated));
    assert_eq!(m.supply, 100);
    assert!(same_account(&a, &a0));

    let mut full = new_mint(u64::MAX - 1);
    assert_eq!(mint(&mut full, &mut a, &approval(), &key(MANAGER), 2), refused(ErrorCode::Overflow));
    assert_eq!(full.supply, u64::MAX - 1);
    assert!(same_account(&a, &a0));

    let mut frozen = new_account(ALICE, 40);
    frozen.frozen = true;
    assert_eq!(mint(&mut m, &mut frozen, &approval(), &key(MANAGER), 1), refused(ErrorCode::AccountFrozen));
    assert_eq!(m.supply, 100);
    assert_eq!(frozen.amount, 40);

    let mut rich = new_account(BOB, u64::MAX);
    assert_eq!(mint(&mut m, &mut rich, &approval(), &key(MANAGER), 1), refused(ErrorCode::Overflow));
    assert_eq!(m.supply, 100);
    assert_eq!(rich.amount, u64::MAX);
}

#[test]
fn mint_checks_manager_before_supply() {
    let mut full = new_mint(u64::MAX);
    let mut frozen = new_account(ALICE, 0);
    frozen.frozen = true;
    assert_eq!(mint(&mut full, &mut frozen, &approval(), &key(STRANGER), 1), Err(TokenError::RequireKeysEqViolated));
    assert_eq!(mint(&mut full, &mut frozen, &approval(), &key(MANAGER), 1), refused(ErrorCode::Overflow));
}

#[test]
fn burn_lowers_supply_and_balance_even_when_frozen() {
    let mut m = new_mint(100);
    let mut a = new_account(ALICE, 40);
    a.frozen = true;
    assert_eq!(burn(&mut m, &mut a, &key(MANAGER), 15), Ok(()));
    assert_eq!(m.supply, 85);
    assert_eq!(a.amount, 25);
}

#[test]
fn burn_refusals() {
    let mut m = new_mint(100);
    let mut a = new_account(ALICE, 40);
    assert_eq!(burn(&mut m, &mut a, &key(STRANGER), 1), Err(TokenError::RequireKeysEqViolated));
    assert_eq!(burn(&mut m, &mut a, &key(MANAGER), 41), refused(ErrorCode::Overflow));
    let mut small = new_mint(10);
    assert_eq!(burn(&mut small, &mut a, &key(MANAGER), 11), refused(ErrorCode::Overflow));
    assert_eq!(small.supply, 10);
    assert_eq!(m.supply, 100);
    assert_eq!(a.amount, 40);
}

#[test]
fn burn_undoes_mint() {
    let mut m = new_mint(7);
    let mut a = new_account(ALICE, 3);
    let a0 = a.clone();
    mint(&mut m, &mut a, &approval(), &key(MANAGER), 1000).unwrap();
    burn(&mut m, &mut a, &key(MANAGER), 1000).unwrap();
    assert_eq!(m.supply, 7);
    assert!(same_account(&a, &a0));
}

#[test]
fn transfer_moves_tokens() {
    let mut from = new_account(ALICE, 50);
    let mut to = new_account(BOB, 5);
    assert_eq!(transfer(&mut from, &mut to, &approval(), &approval(), 20), Ok(()));
    assert_eq!(from.amount, 30);
    assert_eq!(to.amount, 25);
    assert_eq!(from.amount + to.amount, 55);
    assert_eq!(transfer(&mut from, &mut to, &approval(), &approval(), 30), Ok(()));
    assert_eq!(from.amount, 0);
    assert_eq!(to.amount, 55);
}

#[test]
fn transfer_back_restores() {
    let mut from = new_account(ALICE, 50);
    let mut to = new_account(BOB, 5);
    let (f0, t0) = (from.clone(), to.clone());
    transfer(&mut from, &mut to, &approval(), &approval(), 17).unwrap();
    transfer(&mut to, &mut from, &approval(), &approval(), 17).unwrap();
    assert!(same_account(&from, &f0));
    assert!(same_account(&to, &t0));
}

#[test]
fn transfer_refuses_frozen_accounts() {
    let mut from = new_account(ALICE, 50);
    let mut to = new_account(BOB, 5);
    to.frozen = true;
    assert_eq!(transfer(&mut from, &mut to, &approval(), &approval(), 1), refused(ErrorCode::AccountFrozen));
    to.frozen = false;
    from.frozen = true;
    assert_eq!(transfer(&mut from, &mut to, &approval(), &approval(), 1), refused(ErrorCode::AccountFrozen));
    assert_eq!(from.amount, 50);
    assert_eq!(to.amount, 5);
}

#[test]
fn transfer_refuses_mismatched_accounts() {
    let mut from = new_account(ALICE, 50);
    let mut to = new_account(BOB, 5);
    to.mint = key(STRANGER);
    assert_eq!(transfer(&mut from, &mut to, &approval(), &approval(), 1), refused(ErrorCode::InvalidMint));
    to.mint = key(MINT_KEY);
    to.group = key(STRANGER);
    assert_eq!(transfer(&mut from, &mut to, &approval(), &approval(), 1), refused(ErrorCode::InvalidGroup));
    to.group = key(GROUP);
    to.net_auth = key(STRANGER);
    assert_eq!(transfer(&mut from, &mut to, &approval(), &approval(), 1), refused(ErrorCode::InvalidNetAuth));
    assert_eq!(from.amount, 50);
    assert_eq!(to.amount, 5);
}

#[test]
fn transfer_refuses_bad_approvals() {
    let mut from = new_account(ALICE, 50);
    let mut to = new_account(BOB, 5);
    let wrong_owner = ApprovalAccount { owner: key(STRANGER), ..approval() };
    assert_eq!(transfer(&mut from, &mut to, &wrong_owner, &approval(), 1), refused(ErrorCode::InvalidAuthOwner));
    assert_eq!(transfer(&mut from, &mut to, &approval(), &wrong_owner, 1), refused(ErrorCode::InvalidAuthOwner));
    let unreadable = ApprovalAccount { owner: key(NET_AUTH), data: Err(3006) };
    assert_eq!(transfer(&mut from, &mut to, &unreadable, &approval(), 1), Err(TokenError::ApprovalUnreadable(3006)));
    let inactive = ApprovalAccount { owner: key(NET_AUTH), data: Ok(GroupApproval { active: false, group: key(GROUP) }) };
    assert_eq!(transfer(&mut from, &mut to, &approval(), &inactive, 1), refused(ErrorCode::InactiveApproval));
    let other_group = ApprovalAccount { owner: key(NET_AUTH), data: Ok(GroupApproval { active: true, group: key(STRANGER) }) };
    assert_eq!(transfer(&mut from, &mut to, &other_group, &approval(), 1), refused(ErrorCode::InvalidGroup));
    assert_eq!(from.amount, 50);
    assert_eq!(to.amount, 5);
}

#[test]
fn transfer_refuses_too_much() {
    let mut from = new_account(ALICE, 50);
    let mut to = new_account(BOB, 5);
    assert_eq!(transfer(&mut from, &mut to, &approval(), &approval(), 51), refused(ErrorCode::InsufficientTokens));
    let mut rich = new_account(BOB, u64::MAX - 10);
    assert_eq!(transfer(&mut from, &mut rich, &approval(), &approval(), 11), refused(ErrorCode::Overflow));
    assert_eq!(from.amount, 50);
    assert_eq!(rich.amount, u64::MAX - 10);
}

#[test]
fn supply_stays_equal_to_balances() {
    let mut m = new_mint(0);
    let mut a = new_account(ALICE, 0);
    let mut b = new_account(BOB, 0);
    mint(&mut m, &mut a, &approval(), &key(MANAGER), 100).unwrap();
    mint(&mut m, &mut b, &approval(), &key(MANAGER), 30).unwrap();
    transfer(&mut a, &mut b, &approval(), &approval(), 45).unwrap();
    burn(&mut m, &mut b, &key(MANAGER), 20).unwrap();
    assert!(transfer(&mut a, &mut b, &approval(), &approval(), 1000).is_err());
    assert_eq!(m.supply, a.amount + b.amount);
    assert_eq!((a.amount, b.amount, m.supply), (55, 55, 110));
}

#[test]
fn approval_rule() {
    assert_eq!(check_approval(&approval(), &key(NET_AUTH), &key(GROUP)), Ok(()));
    assert_eq!(check_approval(&approval(), &key(STRANGER), &key(GROUP)), refused(ErrorCode::InvalidAuthOwner));
    assert_eq!(check_approval(&approval(), &key(NET_AUTH), &key(STRANGER)), refused(ErrorCode::InvalidGroup));
    let inactive_elsewhere = ApprovalAccount { owner: key(NET_AUTH), data: Ok(GroupApproval { active: false, group: key(STRANGER) }) };
    assert_eq!(check_approval(&inactive_elsewhere, &key(NET_AUTH), &key(GROUP)), refused(ErrorCode::InactiveApproval));
}

#[test]
fn create_account_starts_empty() {
    let m = new_mint(500);
    let a = create_account(&None, &key(MINT_KEY), &m, &approval(), 42, &key(ALICE), &key(CLOSER)).unwrap();
    assert_eq!(a.uuid, 42);
    assert_eq!(a.owner, key(ALICE));
    assert_eq!(a.mint, key(MINT_KEY));
    assert_eq!(a.group, key(GROUP));
    assert_eq!(a.net_auth, key(NET_AUTH));
    assert_eq!(a.close_auth, key(CLOSER));
    assert_eq!(a.amount, 0);
    assert_eq!(a.locked_until, 0);
    assert!(!a.frozen);
}

#[test]
fn create_account_needs_approval() {
    let m = new_mint(0);
    let wrong_owner = ApprovalAccount { owner: key(STRANGER), ..approval() };
    assert_eq!(
        create_account(&None, &key(MINT_KEY), &m, &wrong_owner, 1, &key(ALICE), &key(CLOSER)).unwrap_err(),
        TokenError::Program(ErrorCode::InvalidAuthOwner)
    );
    let inactive = ApprovalAccount { owner: key(NET_AUTH), data: Ok(GroupApproval { active: false, group: key(GROUP) }) };
    assert_eq!(
        create_account(&None, &key(MINT_KEY), &m, &inactive, 1, &key(ALICE), &key(CLOSER)).unwrap_err(),
        TokenError::Program(ErrorCode::InactiveApproval)
    );
    let other_group = ApprovalAccount { owner: key(NET_AUTH), data: Ok(GroupApproval { active: true, group: key(STRANGER) }) };
    assert_eq!(
        create_account(&None, &key(MINT_KEY), &m, &other_group, 1, &key(ALICE), &key(CLOSER)).unwrap_err(),
        TokenError::Program(ErrorCode::InvalidGroup)
    );
    let unreadable = ApprovalAccount { owner: key(NET_AUTH), data: Err(7) };
    assert_eq!(
        create_account(&None, &key(MINT_KEY), &m, &unreadable, 1, &key(ALICE), &key(CLOSER)).unwrap_err(),
        TokenError::ApprovalUnreadable(7)
    );
}

#[test]
fn close_account_permissions() {
    let m = new_mint(0);
    let a = new_account(ALICE, 0);
    assert_eq!(close_account(&a, &key(MINT_KEY), &m, &key(ALICE)), Ok(()));
    assert_eq!(close_account(&a, &key(MINT_KEY), &m, &key(CLOSER)), Ok(()));
    assert_eq!(close_account(&a, &key(MINT_KEY), &m, &key(MANAGER)), Ok(()));
    assert_eq!(close_account(&a, &key(MINT_KEY), &m, &key(STRANGER)), refused(ErrorCode::AccessDenied));
    assert_eq!(close_account(&a, &key(STRANGER), &m, &key(ALICE)), refused(ErrorCode::InvalidMint));
    // An account that still holds tokens is not closed, whoever asks.
    let funded = new_account(ALICE, 5);
    assert_eq!(close_account(&funded, &key(MINT_KEY), &m, &key(ALICE)), Err(TokenError::AccountNotEmpty));
    assert_eq!(close_account(&funded, &key(MINT_KEY), &m, &key(MANAGER)), Err(TokenError::AccountNotEmpty));
    assert_eq!(close_account(&funded, &key(MINT_KEY), &m, &key(STRANGER)), refused(ErrorCode::AccessDenied));
}

#[test]
fn manager_update_account_sets_lock_and_freeze() {
    let m = new_mint(0);
    let mut a = new_account(ALICE, 12);
    assert_eq!(manager_update_account(&mut a, &key(MINT_KEY), &m, &key(MANAGER), 1_700_000_000, true), Ok(()));
    assert_eq!(a.locked_until, 1_700_000_000);
    assert!(a.frozen);
    assert_eq!(a.amount, 12);
    assert_eq!(manager_update_account(&mut a, &key(MINT_KEY), &m, &key(MANAGER), -5, false), Ok(()));
    assert_eq!(a.locked_until, -5);
    assert!(!a.frozen);
}

#[test]
fn manager_update_account_refusals() {
    let m = new_mint(0);
    let mut a = new_account(ALICE, 12);
    assert_eq!(
        manager_update_account(&mut a, &key(STRANGER), &m, &key(MANAGER), 9, true),
        refused(ErrorCode::InvalidMint)
    );
    assert_eq!(
        manager_update_account(&mut a, &key(MINT_KEY), &m, &key(ALICE), 9, true),
        refused(ErrorCode::InvalidMint)
    );
    assert_eq!(a.locked_until, 0);
    assert!(!a.frozen);
}

#[test]
fn accepted_instructions_change_nothing() {
    assert_eq!(delegate_transfer(), Ok(()));
    assert_eq!(delegate_update(), Ok(()));
    assert_eq!(delegate_close(), Ok(()));
}

#[test]
fn default_allowance_is_empty() {
    let a = DelegateAllowance::default();
    assert_eq!(a.owner, Pubkey::default());
    assert_eq!(a.account, Pubkey::default());
    assert_eq!(a.delegate, Pubkey::default());
    assert_eq!(a.amount, 0);
    assert!(!a.all);
}

#[test]
fn mint_undoes_burn_unless_frozen() {
    let mut m = new_mint(100);
    let mut a = new_account(ALICE, 60);
    burn(&mut m, &mut a, &key(MANAGER), 60).unwrap();
    mint(&mut m, &mut a, &approval(), &key(MANAGER), 60).unwrap();
    assert_eq!((m.supply, a.amount), (100, 60));
    a.frozen = true;
    burn(&mut m, &mut a, &key(MANAGER), 10).unwrap();
    assert_eq!(mint(&mut m, &mut a, &approval(), &key(MANAGER), 10), refused(ErrorCode::AccountFrozen));
    assert_eq!((m.supply, a.amount), (90, 50));
}

#[test]
fn create_account_never_resets_an_existing_account() {
    let m = new_mint(5);
    let mut existing = new_account(ALICE, 5);
    existing.locked_until = 7;
    existing.frozen = true;
    assert_eq!(
        create_account(&Some(existing.clone()), &key(MINT_KEY), &m, &approval(), ALICE as u128, &key(ALICE), &key(CLOSER))
            .unwrap_err(),
        TokenError::AccountAlreadyInitialized
    );
    // The approval is still checked first.
    let wrong_owner = ApprovalAccount { owner: key(STRANGER), ..approval() };
    assert_eq!(
        create_account(&Some(existing), &key(MINT_KEY), &m, &wrong_owner, 1, &key(ALICE), &key(CLOSER)).unwrap_err(),
        TokenError::Program(ErrorCode::InvalidAuthOwner)
    );
}

#[test]
fn create_then_close_keeps_supply_equal_to_balances() {
    let mut m = create_mint(&key(MANAGER), &key(NET_AUTH), &key(GROUP), 0, String::from("u")).unwrap();
    let mut a = create_account(&None, &key(MINT_KEY), &m, &approval(), 1, &key(ALICE), &key(CLOSER)).unwrap();
    let mut b = create_account(&None, &key(MINT_KEY), &m, &approval(), 2, &key(BOB), &key(CLOSER)).unwrap();
    mint(&mut m, &mut a, &approval(), &key(MANAGER), 10).unwrap();
    transfer(&mut a, &mut b, &approval(), &approval(), 10).unwrap();
    assert_eq!(close_account(&b, &key(MINT_KEY), &m, &key(BOB)), Err(TokenError::AccountNotEmpty));
    assert_eq!(close_account(&a, &key(MINT_KEY), &m, &key(ALICE)), Ok(()));
    assert_eq!(m.supply, b.amount);
}

#[test]
fn mint_needs_recipient_approval() {
    let mut m = new_mint(100);
    let mut a = new_account(ALICE, 40);
    let wrong_owner = ApprovalAccount { owner: key(STRANGER), ..approval() };
    assert_eq!(mint(&mut m, &mut a, &wrong_owner, &key(MANAGER), 1), refused(ErrorCode::InvalidAuthOwner));
    let inactive = ApprovalAccount { owner: key(NET_AUTH), data: Ok(GroupApproval { active: false, group: key(GROUP) }) };
    assert_eq!(mint(&mut m, &mut a, &inactive, &key(MANAGER), 1), refused(ErrorCode::InactiveApproval));
    let other_group = ApprovalAccount { owner: key(NET_AUTH), data: Ok(GroupApproval { active: true, group: key(STRANGER) }) };
    assert_eq!(mint(&mut m, &mut a, &other_group, &key(MANAGER), 1), refused(ErrorCode::InvalidGroup));
    let unreadable = ApprovalAccount { owner: key(NET_AUTH), data: Err(3001) };
    assert_eq!(mint(&mut m, &mut a, &unreadable, &key(MANAGER), 1), Err(TokenError::ApprovalUnreadable(3001)));
    // The manager is checked before the approval.
    assert_eq!(mint(&mut m, &mut a, &wrong_owner, &key(STRANGER), 1), Err(TokenError::RequireKeysEqViolated));
    assert_eq!((m.supply, a.amount), (100, 40));
}

#[test]
fn manager_creates_accounts() {
    let m = new_mint(0);
    let a = manager_create_account(&None, &key(MINT_KEY), &m, &key(MANAGER), &approval(), 9, &key(BOB), &key(CLOSER))
        .unwrap();
    assert_eq!(a.uuid, 9);
    assert_eq!(a.owner, key(BOB));
    assert_eq!(a.mint, key(MINT_KEY));
    assert_eq!(a.group, key(GROUP));
    assert_eq!(a.net_auth, key(NET_AUTH));
    assert_eq!(a.close_auth, key(CLOSER));
    assert_eq!((a.amount, a.locked_until, a.frozen), (0, 0, false));
    assert_eq!(
        manager_create_account(&None, &key(MINT_KEY), &m, &key(BOB), &approval(), 9, &key(BOB), &key(CLOSER))
            .unwrap_err(),
        TokenError::Program(ErrorCode::InvalidMint)
    );
    let inactive = ApprovalAccount { owner: key(NET_AUTH), data: Ok(GroupApproval { active: false, group: key(GROUP) }) };
    assert_eq!(
        manager_create_account(&None, &key(MINT_KEY), &m, &key(MANAGER), &inactive, 9, &key(BOB), &key(CLOSER))
            .unwrap_err(),
        TokenError::Program(ErrorCode::InactiveApproval)
    );
    assert_eq!(
        manager_create_account(&Some(a), &key(MINT_KEY), &m, &key(MANAGER), &approval(), 9, &key(BOB), &key(CLOSER))
            .unwrap_err(),
        TokenError::AccountAlreadyInitialized
    );
}

#[test]
fn delegate_approve_names_owner_account_and_delegate() {
    let account = new_account(ALICE, 40);
    let fresh = delegate_approve(&None, &account, &key(9), &key(ALICE), &key(BOB)).unwrap();
    assert_eq!(fresh.owner, key(ALICE));
    assert_eq!(fresh.account, key(9));
    assert_eq!(fresh.delegate, key(BOB));
    assert_eq!((fresh.amount, fresh.all), (0, false));
    let mut held = DelegateAllowance::default();
    held.amount = 12;
    held.all = true;
    let again = delegate_approve(&Some(held), &account, &key(9), &key(ALICE), &key(BOB)).unwrap();
    assert_eq!((again.amount, again.all), (12, true));
    assert_eq!(again.owner, key(ALICE));
    assert_eq!(
        delegate_approve(&None, &account, &key(9), &key(STRANGER), &key(BOB)).unwrap_err(),
        TokenError::Program(ErrorCode::AccessDenied)
    );
}

#[test]
fn initialized_accounts_start_with_their_tag() {
    let tag = [1u8, 2, 3, 4, 5, 6, 7, 8];
    let mut data = vec![0u8; 20];
    assert!(!is_initialized(&data, &tag));
    data[..8].copy_from_slice(&tag);
    assert!(is_initialized(&data, &tag));
    data[7] = 0;
    assert!(!is_initialized(&data, &tag));
    assert!(!is_initialized(&tag[..7], &tag));
    assert!(is_initialized(&tag, &tag));
}
