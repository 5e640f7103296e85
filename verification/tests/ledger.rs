use erc721::account::AccountId;
use erc721::ledger::Erc721;
use erc721::types::{Approval, ApprovalForAll, Error, Transfer};

fn account(tag: u8) -> AccountId {
    let mut bytes = [0u8; 32];
    bytes[31] = tag;
    AccountId(bytes)
}

fn null() -> AccountId {
    AccountId([0u8; 32])
}

fn snapshot(ledger: &Erc721, accounts: &[AccountId], ids: &[u32]) -> Vec<String> {
    let mut lines = Vec::new();
    for a in accounts {
        lines.push(format!("{:?} holds {}", a, ledger.balance_of(*a)));
        for b in accounts {
            lines.push(format!("{:?}", ledger.approved_for_all(*a, *b)));
        }
    }
    for id in ids {
        lines.push(format!("{:?} {:?}", ledger.owner_of(*id), ledger.token_delegate(*id)));
    }
    lines
}

#[test]
fn new_ledger_is_empty() {
    let ledger = Erc721::new();
    assert_eq!(ledger.owner_of(1), None);
    assert_eq!(ledger.token_delegate(1), None);
    assert!(!ledger.token_exists(1));
    assert_eq!(ledger.balance_of(account(1)), 0);
    assert_eq!(ledger.balance_of_or_zero(&account(1)), 0);
    assert!(!ledger.approved_for_all(account(1), account(2)));
}

#[test]
fn default_ledger_is_empty() {
    let ledger = Erc721::default();
    assert_eq!(ledger.owner_of(0), None);
    assert_eq!(ledger.balance_of(account(9)), 0);
}

#[test]
fn scenario_mint_approve_transfer_burn() {
    let (a, b, c) = (account(1), account(2), account(3));
    let mut ledger = Erc721::new();

    assert_eq!(
        ledger.mint(a, 1),
        Ok(Transfer { from: Some(null()), to: Some(a), id: 1 })
    );
    assert_eq!(ledger.owner_of(1), Some(a));
    assert_eq!(ledger.balance_of(a), 1);

    assert_eq!(ledger.approve(a, b, 1), Ok(Approval { from: a, to: b, id: 1 }));
    assert_eq!(ledger.token_delegate(1), Some(b));

    assert_eq!(
        ledger.transfer_from(b, a, c, 1),
        Ok(Transfer { from: Some(a), to: Some(c), id: 1 })
    );
    assert_eq!(ledger.owner_of(1), Some(c));
    assert_eq!(ledger.balance_of(a), 0);
    assert_eq!(ledger.balance_of(c), 1);
    assert_eq!(ledger.token_delegate(1), None);

    assert_eq!(
        ledger.burn(c, 1),
        Ok(Transfer { from: Some(c), to: Some(null()), id: 1 })
    );
    assert!(!ledger.token_exists(1));
    assert_eq!(ledger.owner_of(1), None);
    assert_eq!(ledger.balance_of(c), 0);
}

#[test]
fn minting_twice_fails_with_token_exists() {
    let (a, b) = (account(1), account(2));
    let mut ledger = Erc721::new();
    assert!(ledger.mint(a, 7).is_ok());
    assert_eq!(ledger.mint(a, 7), Err(Error::TokenExists));
    assert_eq!(ledger.mint(b, 7), Err(Error::TokenExists));
    assert_eq!(ledger.owner_of(7), Some(a));
    assert_eq!(ledger.balance_of(a), 1);
    assert_eq!(ledger.balance_of(b), 0);
}

#[test]
fn minting_an_existing_token_for_the_null_account_reports_the_token() {
    let mut ledger = Erc721::new();
    assert!(ledger.mint(account(1), 7).is_ok());
    assert_eq!(ledger.mint(null(), 7), Err(Error::TokenExists));
}

#[test]
fn the_null_account_cannot_mint() {
    let mut ledger = Erc721::new();
    assert_eq!(ledger.mint(null(), 1), Err(Error::NotAllowed));
    assert_eq!(ledger.owner_of(1), None);
    assert_eq!(ledger.balance_of(null()), 0);
}

#[test]
fn burning_removes_the_token() {
    let a = account(1);
    let mut ledger = Erc721::new();
    assert!(ledger.mint(a, 1).is_ok());
    assert!(ledger.mint(a, 2).is_ok());
    assert_eq!(ledger.balance_of(a), 2);
    assert!(ledger.burn(a, 1).is_ok());
    assert_eq!(ledger.owner_of(1), None);
    assert!(!ledger.token_exists(1));
    assert_eq!(ledger.balance_of(a), 1);
    assert_eq!(ledger.owner_of(2), Some(a));
}

#[test]
fn burning_a_missing_token_fails_with_token_not_found() {
    let mut ledger = Erc721::new();
    assert_eq!(ledger.burn(account(1), 1), Err(Error::TokenNotFound));
}

#[test]
fn only_the_owner_can_burn() {
    let (a, b, c) = (account(1), account(2), account(3));
    let mut ledger = Erc721::new();
    assert!(ledger.mint(a, 1).is_ok());
    assert!(ledger.approve(a, b, 1).is_ok());
    assert!(ledger.set_approval_for_all(a, c, true).is_ok());
    let before = snapshot(&ledger, &[a, b, c], &[1]);
    assert_eq!(ledger.burn(b, 1), Err(Error::NotOwner));
    assert_eq!(ledger.burn(c, 1), Err(Error::NotOwner));
    assert_eq!(ledger.burn(null(), 1), Err(Error::NotOwner));
    assert_eq!(snapshot(&ledger, &[a, b, c], &[1]), before);
}

#[test]
fn burning_takes_the_delegate_along() {
    let (a, b) = (account(1), account(2));
    let mut ledger = Erc721::new();
    assert!(ledger.mint(a, 1).is_ok());
    assert!(ledger.approve(a, b, 1).is_ok());
    assert!(ledger.burn(a, 1).is_ok());
    assert_eq!(ledger.token_delegate(1), None);
    assert!(ledger.mint(a, 1).is_ok());
    assert_eq!(ledger.token_delegate(1), None);
    assert!(!ledger.approved_or_owner(Some(b), 1));
    assert_eq!(ledger.transfer(b, b, 1), Err(Error::NotApproved));
}

#[test]
fn transfer_clears_the_delegate() {
    let (a, b, c) = (account(1), account(2), account(3));
    let mut ledger = Erc721::new();
    assert!(ledger.mint(a, 1).is_ok());
    assert!(ledger.approve(a, b, 1).is_ok());
    assert_eq!(ledger.token_delegate(1), Some(b));
    assert_eq!(
        ledger.transfer(a, c, 1),
        Ok(Transfer { from: Some(a), to: Some(c), id: 1 })
    );
    assert_eq!(ledger.token_delegate(1), None);
    assert_eq!(ledger.owner_of(1), Some(c));
    assert_eq!(ledger.transfer(b, b, 1), Err(Error::NotApproved));
}

#[test]
fn transfer_without_a_delegate_leaves_none() {
    let (a, c) = (account(1), account(3));
    let mut ledger = Erc721::new();
    assert!(ledger.mint(a, 1).is_ok());
    assert!(ledger.transfer(a, c, 1).is_ok());
    assert_eq!(ledger.token_delegate(1), None);
}

#[test]
fn a_delegate_moves_the_token_from_its_owner() {
    let (a, b, c) = (account(1), account(2), account(3));
    let mut ledger = Erc721::new();
    assert!(ledger.mint(a, 1).is_ok());
    assert!(ledger.approve(a, b, 1).is_ok());
    assert_eq!(
        ledger.transfer(b, c, 1),
        Ok(Transfer { from: Some(a), to: Some(c), id: 1 })
    );
    assert_eq!(ledger.balance_of(a), 0);
    assert_eq!(ledger.balance_of(b), 0);
    assert_eq!(ledger.balance_of(c), 1);
}

#[test]
fn transfer_to_the_owner_keeps_the_balance() {
    let (a, b) = (account(1), account(2));
    let mut ledger = Erc721::new();
    assert!(ledger.mint(a, 1).is_ok());
    assert!(ledger.approve(a, b, 1).is_ok());
    assert_eq!(
        ledger.transfer(a, a, 1),
        Ok(Transfer { from: Some(a), to: Some(a), id: 1 })
    );
    assert_eq!(ledger.owner_of(1), Some(a));
    assert_eq!(ledger.balance_of(a), 1);
    assert_eq!(ledger.token_delegate(1), None);
}

#[test]
fn transfer_of_a_missing_token_fails_with_token_not_found() {
    let (a, b) = (account(1), account(2));
    let mut ledger = Erc721::new();
    assert_eq!(ledger.transfer(a, b, 1), Err(Error::TokenNotFound));
    assert_eq!(ledger.transfer_from(a, a, b, 1), Err(Error::TokenNotFound));
    assert_eq!(ledger.transfer_token_from(&a, &a, &b, 1), Err(Error::TokenNotFound));
}

#[test]
fn transfer_by_a_stranger_fails_with_not_approved() {
    let (a, b, c) = (account(1), account(2), account(3));
    let mut ledger = Erc721::new();
    assert!(ledger.mint(a, 1).is_ok());
    let before = snapshot(&ledger, &[a, b, c], &[1]);
    assert_eq!(ledger.transfer(b, c, 1), Err(Error::NotApproved));
    assert_eq!(ledger.transfer_from(b, a, c, 1), Err(Error::NotApproved));
    assert_eq!(ledger.transfer_from(null(), a, c, 1), Err(Error::NotApproved));
    assert_eq!(snapshot(&ledger, &[a, b, c], &[1]), before);
}

#[test]
fn transfer_from_an_account_that_does_not_hold_the_token_fails() {
    let (a, b, c) = (account(1), account(2), account(3));
    let mut ledger = Erc721::new();
    assert!(ledger.mint(a, 1).is_ok());
    assert!(ledger.mint(b, 2).is_ok());
    assert!(ledger.approve(a, b, 1).is_ok());
    let before = snapshot(&ledger, &[a, b, c], &[1, 2]);
    // `c` has no counter, `b` has one: neither holds token 1.
    assert_eq!(ledger.transfer_from(a, c, c, 1), Err(Error::CannotFetchValue));
    assert_eq!(ledger.transfer_from(a, b, c, 1), Err(Error::CannotFetchValue));
    assert_eq!(ledger.transfer_from(b, b, c, 1), Err(Error::CannotFetchValue));
    assert_eq!(snapshot(&ledger, &[a, b, c], &[1, 2]), before);
    assert_eq!(ledger.token_delegate(1), Some(b));
}

#[test]
fn approve_by_a_stranger_is_not_allowed() {
    let (a, b, c) = (account(1), account(2), account(3));
    let mut ledger = Erc721::new();
    assert!(ledger.mint(a, 1).is_ok());
    assert_eq!(ledger.approve(b, c, 1), Err(Error::NotAllowed));
    assert_eq!(ledger.approve_for(&b, &c, 1), Err(Error::NotAllowed));
    assert_eq!(ledger.token_delegate(1), None);
}

#[test]
fn approve_for_a_missing_token_is_not_allowed() {
    let (a, b) = (account(1), account(2));
    let mut ledger = Erc721::new();
    assert_eq!(ledger.approve(a, b, 1), Err(Error::NotAllowed));
    assert_eq!(ledger.token_delegate(1), None);
}

#[test]
fn a_delegate_cannot_name_a_delegate() {
    let (a, b, c) = (account(1), account(2), account(3));
    let mut ledger = Erc721::new();
    assert!(ledger.mint(a, 1).is_ok());
    assert!(ledger.approve(a, b, 1).is_ok());
    assert_eq!(ledger.approve(b, c, 1), Err(Error::NotAllowed));
}

#[test]
fn second_approve_cannot_insert() {
    let (a, b, c) = (account(1), account(2), account(3));
    let mut ledger = Erc721::new();
    assert!(ledger.mint(a, 1).is_ok());
    assert_eq!(ledger.approve(a, b, 1), Ok(Approval { from: a, to: b, id: 1 }));
    assert_eq!(ledger.approve(a, c, 1), Err(Error::CannotInsert));
    assert_eq!(ledger.approve(a, b, 1), Err(Error::CannotInsert));
    assert_eq!(ledger.token_delegate(1), Some(b));
}

#[test]
fn an_operator_can_name_a_delegate() {
    let (a, b, c) = (account(1), account(2), account(3));
    let mut ledger = Erc721::new();
    assert!(ledger.mint(a, 1).is_ok());
    assert!(ledger.set_approval_for_all(a, b, true).is_ok());
    assert_eq!(ledger.approve(b, c, 1), Ok(Approval { from: b, to: c, id: 1 }));
    assert_eq!(ledger.token_delegate(1), Some(c));
}

#[test]
fn operator_can_transfer_until_revoked() {
    let (a, b, c) = (account(1), account(2), account(3));
    let mut ledger = Erc721::new();
    assert!(ledger.mint(a, 1).is_ok());
    assert!(ledger.mint(a, 2).is_ok());
    assert_eq!(
        ledger.set_approval_for_all(a, b, true),
        Ok(ApprovalForAll { owner: a, operator: b, approved: true })
    );
    assert!(ledger.approved_for_all(a, b));
    assert!(!ledger.approved_for_all(b, a));
    assert_eq!(
        ledger.transfer_from(b, a, c, 1),
        Ok(Transfer { from: Some(a), to: Some(c), id: 1 })
    );
    assert_eq!(
        ledger.set_approval_for_all(a, b, false),
        Ok(ApprovalForAll { owner: a, operator: b, approved: false })
    );
    assert!(!ledger.approved_for_all(a, b));
    assert_eq!(ledger.transfer_from(b, a, c, 2), Err(Error::NotApproved));
    assert_eq!(ledger.owner_of(2), Some(a));
    assert_eq!(ledger.balance_of(a), 1);
    assert_eq!(ledger.balance_of(c), 1);
}

#[test]
fn granting_twice_and_revoking_once_revokes() {
    let (a, b) = (account(1), account(2));
    let mut ledger = Erc721::new();
    assert!(ledger.set_approval_for_all(a, b, true).is_ok());
    assert!(ledger.set_approval_for_all(a, b, true).is_ok());
    assert!(ledger.set_approval_for_all(a, b, false).is_ok());
    assert!(!ledger.approved_for_all(a, b));
    assert!(ledger.set_approval_for_all(a, b, false).is_ok());
    assert!(!ledger.approved_for_all(a, b));
}

#[test]
fn an_operator_serves_only_its_owner() {
    let (a, b, c) = (account(1), account(2), account(3));
    let mut ledger = Erc721::new();
    assert!(ledger.mint(a, 1).is_ok());
    assert!(ledger.mint(c, 2).is_ok());
    assert!(ledger.set_approval_for_all(a, b, true).is_ok());
    assert!(ledger.approved_or_owner(Some(b), 1));
    assert!(!ledger.approved_or_owner(Some(b), 2));
    assert_eq!(ledger.transfer(b, b, 2), Err(Error::NotApproved));
}

#[test]
fn self_operator_approval_is_not_allowed() {
    let a = account(1);
    let mut ledger = Erc721::new();
    assert_eq!(ledger.set_approval_for_all(a, a, true), Err(Error::NotAllowed));
    assert_eq!(ledger.set_approval_for_all(a, a, false), Err(Error::NotAllowed));
    assert_eq!(ledger.approve_for_all(a, a, true), Err(Error::NotAllowed));
    assert!(!ledger.approved_for_all(a, a));
}

#[test]
fn null_destination_is_not_allowed() {
    let (a, b) = (account(1), account(2));
    let mut ledger = Erc721::new();
    assert!(ledger.mint(a, 1).is_ok());
    assert!(ledger.approve(a, b, 1).is_ok());
    let before = snapshot(&ledger, &[a, b, null()], &[1, 2]);
    assert_eq!(ledger.transfer(a, null(), 1), Err(Error::NotAllowed));
    assert_eq!(ledger.transfer_from(b, a, null(), 1), Err(Error::NotAllowed));
    assert_eq!(ledger.transfer_token_from(&a, &a, &null(), 1), Err(Error::NotAllowed));
    // Also for a token that does not exist and for a caller who may not move it.
    assert_eq!(ledger.transfer(a, null(), 2), Err(Error::NotAllowed));
    assert_eq!(ledger.transfer_from(null(), a, null(), 1), Err(Error::NotAllowed));
    assert_eq!(snapshot(&ledger, &[a, b, null()], &[1, 2]), before);
    assert_eq!(ledger.token_delegate(1), Some(b));
}

#[test]
fn null_delegate_is_not_allowed() {
    let a = account(1);
    let mut ledger = Erc721::new();
    assert!(ledger.mint(a, 1).is_ok());
    assert_eq!(ledger.approve(a, null(), 1), Err(Error::NotAllowed));
    assert_eq!(ledger.approve(a, null(), 2), Err(Error::NotAllowed));
    assert_eq!(ledger.token_delegate(1), None);
    assert_eq!(ledger.approve(a, account(2), 1), Ok(Approval { from: a, to: account(2), id: 1 }));
}

#[test]
fn approved_or_owner_covers_owner_delegate_and_operator() {
    let (a, b, c, d) = (account(1), account(2), account(3), account(4));
    let mut ledger = Erc721::new();
    assert!(ledger.mint(a, 1).is_ok());
    assert!(ledger.approve(a, b, 1).is_ok());
    assert!(ledger.set_approval_for_all(a, c, true).is_ok());
    assert!(ledger.approved_or_owner(Some(a), 1));
    assert!(ledger.approved_or_owner(Some(b), 1));
    assert!(ledger.approved_or_owner(Some(c), 1));
    assert!(!ledger.approved_or_owner(Some(d), 1));
    assert!(!ledger.approved_or_owner(Some(null()), 1));
    assert!(!ledger.approved_or_owner(None, 1));
}

#[test]
fn nobody_may_act_on_a_missing_token() {
    let a = account(1);
    let mut ledger = Erc721::new();
    assert!(ledger.set_approval_for_all(a, account(2), true).is_ok());
    assert!(!ledger.approved_or_owner(Some(a), 5));
    assert!(!ledger.approved_or_owner(Some(account(2)), 5));
    assert!(!ledger.approved_or_owner(None, 5));
}

#[test]
fn a_null_operator_still_may_not_act() {
    let a = account(1);
    let mut ledger = Erc721::new();
    assert!(ledger.mint(a, 1).is_ok());
    assert!(ledger.set_approval_for_all(a, null(), true).is_ok());
    assert!(!ledger.approved_or_owner(Some(null()), 1));
    assert_eq!(ledger.transfer(null(), account(2), 1), Err(Error::NotApproved));
}

#[test]
fn add_token_to_counts_up() {
    let a = account(1);
    let mut ledger = Erc721::new();
    assert_eq!(ledger.add_token_to(&a, 10), Ok(()));
    assert_eq!(ledger.balance_of(a), 1);
    assert_eq!(ledger.add_token_to(&a, 11), Ok(()));
    assert_eq!(ledger.add_token_to(&a, 12), Ok(()));
    assert_eq!(ledger.balance_of(a), 3);
    assert_eq!(ledger.add_token_to(&a, 11), Err(Error::TokenExists));
    assert_eq!(ledger.add_token_to(&null(), 13), Err(Error::NotAllowed));
    assert_eq!(ledger.balance_of(a), 3);
    assert_eq!(ledger.owner_of(13), None);
}

#[test]
fn remove_token_from_counts_down() {
    let (a, b, c) = (account(1), account(2), account(3));
    let mut ledger = Erc721::new();
    assert!(ledger.mint(a, 1).is_ok());
    assert!(ledger.mint(a, 2).is_ok());
    assert!(ledger.mint(b, 3).is_ok());
    assert_eq!(ledger.remove_token_from(&a, 9), Err(Error::TokenNotFound));
    // `c` has no counter; `b` has one but does not hold token 1.
    assert_eq!(ledger.remove_token_from(&c, 1), Err(Error::CannotFetchValue));
    assert_eq!(ledger.remove_token_from(&b, 1), Err(Error::CannotFetchValue));
    assert_eq!(ledger.balance_of(a), 2);
    assert_eq!(ledger.balance_of(b), 1);
    assert_eq!(ledger.remove_token_from(&a, 1), Ok(()));
    assert_eq!(ledger.balance_of(a), 1);
    assert_eq!(ledger.owner_of(1), None);
    assert_eq!(ledger.remove_token_from(&a, 2), Ok(()));
    assert_eq!(ledger.balance_of(a), 0);
    // The counter of `a` is now zero: nothing more can be taken from it.
    assert_eq!(ledger.remove_token_from(&a, 3), Err(Error::CannotFetchValue));
    assert_eq!(ledger.owner_of(3), Some(b));
}

#[test]
fn remove_token_from_leaves_the_delegate_and_the_operators() {
    let (a, b, c) = (account(1), account(2), account(3));
    let mut ledger = Erc721::new();
    assert!(ledger.mint(a, 1).is_ok());
    assert!(ledger.mint(a, 2).is_ok());
    assert!(ledger.approve(a, b, 1).is_ok());
    assert!(ledger.approve(a, c, 2).is_ok());
    assert!(ledger.set_approval_for_all(a, c, true).is_ok());
    assert_eq!(ledger.remove_token_from(&a, 1), Ok(()));
    assert_eq!(ledger.owner_of(1), None);
    assert_eq!(ledger.balance_of_or_zero(&a), 1);
    assert_eq!(ledger.token_delegate(1), Some(b));
    assert_eq!(ledger.token_delegate(2), Some(c));
    assert_eq!(ledger.owner_of(2), Some(a));
    assert!(ledger.approved_for_all(a, c));
    // Nobody may act on the token that is gone, whatever is recorded for it.
    assert!(!ledger.approved_or_owner(Some(b), 1));
    ledger.clear_approval(1);
    assert_eq!(ledger.token_delegate(1), None);
    assert_eq!(ledger.token_delegate(2), Some(c));
}

#[test]
fn remove_token_from_keeps_a_counter_of_zero() {
    let (a, b) = (account(1), account(2));
    let mut ledger = Erc721::new();
    assert!(ledger.mint(a, 1).is_ok());
    assert!(ledger.mint(b, 2).is_ok());
    assert_eq!(ledger.remove_token_from(&a, 1), Ok(()));
    assert_eq!(ledger.balance_of(a), 0);
    assert_eq!(ledger.balance_of(b), 1);
    assert_eq!(ledger.owner_of(2), Some(b));
    assert_eq!(ledger.add_token_to(&a, 1), Ok(()));
    assert_eq!(ledger.balance_of(a), 1);
}

#[test]
fn nobody_is_its_own_operator() {
    let (a, b) = (account(1), account(2));
    let mut ledger = Erc721::new();
    assert!(ledger.set_approval_for_all(a, b, true).is_ok());
    assert!(ledger.set_approval_for_all(b, a, true).is_ok());
    assert_eq!(ledger.set_approval_for_all(a, a, true), Err(Error::NotAllowed));
    assert_eq!(ledger.set_approval_for_all(b, b, false), Err(Error::NotAllowed));
    assert!(!ledger.approved_for_all(a, a));
    assert!(!ledger.approved_for_all(b, b));
    assert!(ledger.approved_for_all(a, b));
    assert!(ledger.approved_for_all(b, a));
}

#[test]
fn clear_approval_is_idempotent() {
    let (a, b) = (account(1), account(2));
    let mut ledger = Erc721::new();
    assert!(ledger.mint(a, 1).is_ok());
    ledger.clear_approval(1);
    assert_eq!(ledger.token_delegate(1), None);
    assert!(ledger.approve(a, b, 1).is_ok());
    ledger.clear_approval(1);
    assert_eq!(ledger.token_delegate(1), None);
    ledger.clear_approval(1);
    ledger.clear_approval(77);
    assert_eq!(ledger.owner_of(1), Some(a));
    assert_eq!(ledger.approve(a, b, 1), Ok(Approval { from: a, to: b, id: 1 }));
}

#[test]
fn balances_count_the_tokens_owned() {
    let accounts = [account(1), account(2), account(3)];
    let mut ledger = Erc721::new();
    let mut owners: Vec<Option<AccountId>> = vec![None; 12];
    for round in 0u32..60 {
        let id = (round * 7) % 12;
        let who = accounts[(round % 3) as usize];
        let other = accounts[((round / 3) % 3) as usize];
        let slot = id as usize;
        match round % 4 {
            0 | 1 => {
                if ledger.mint(who, id).is_ok() {
                    owners[slot] = Some(who);
                }
            }
            2 => {
                if ledger.transfer(who, other, id).is_ok() {
                    owners[slot] = Some(other);
                }
            }
            _ => {
                if ledger.burn(who, id).is_ok() {
                    owners[slot] = None;
                }
            }
        }
        for id in 0u32..12 {
            assert_eq!(ledger.owner_of(id), owners[id as usize]);
        }
        for a in accounts {
            let held = owners.iter().filter(|o| **o == Some(a)).count();
            assert_eq!(ledger.balance_of(a) as usize, held);
        }
    }
    assert!(owners.iter().any(|o| o.is_some()));
}

#[test]
fn largest_token_id_and_many_tokens() {
    let a = account(200);
    let mut ledger = Erc721::new();
    assert!(ledger.mint(a, u32::MAX).is_ok());
    assert!(ledger.mint(a, 0).is_ok());
    for id in 1u32..300 {
        assert!(ledger.mint(a, id).is_ok());
    }
    assert_eq!(ledger.balance_of(a), 301);
    assert_eq!(ledger.owner_of(u32::MAX), Some(a));
    assert!(ledger.burn(a, u32::MAX).is_ok());
    assert_eq!(ledger.balance_of(a), 300);
}

#[test]
fn accounts_that_differ_in_one_byte_are_kept_apart() {
    let mut first = [0u8; 32];
    first[0] = 1;
    let mut second = [0u8; 32];
    second[31] = 1;
    let (a, b) = (AccountId(first), AccountId(second));
    let mut ledger = Erc721::new();
    assert!(ledger.mint(a, 1).is_ok());
    assert!(ledger.mint(b, 2).is_ok());
    assert!(ledger.mint(b, 3).is_ok());
    assert_eq!(ledger.balance_of(a), 1);
    assert_eq!(ledger.balance_of(b), 2);
    assert_eq!(ledger.burn(b, 1), Err(Error::NotOwner));
    assert!(ledger.set_approval_for_all(a, b, true).is_ok());
    assert!(ledger.approved_for_all(a, b));
    assert!(!ledger.approved_for_all(b, a));
}
