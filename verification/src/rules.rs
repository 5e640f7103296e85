//! The decisions of the ledger.
//!
//! Each is a function of the few entries that an operation reads: the owner
//! and the delegate of the token, the counter of an account, and whether the
//! caller is an operator of the token's owner. None of them touches a table,
//! so whoever keeps the tables can apply them.

use crate::account::{null_account, AccountId};
use crate::types::Error;
use vstd::prelude::*;

verus! {

/// A counter as a number, where there is one.
pub open spec fn counted(count: Option<u32>) -> Option<nat> {
    match count {
        Some(c) => Some(c as nat),
        None => None,
    }
}

/// Why a token with owner entry `owner` cannot be given to `to`, if it
/// cannot: it has an owner already, or `to` is the null account.
pub open spec fn register_refusal(owner: Option<AccountId>, to: AccountId) -> Option<Error> {
    if owner is Some {
        Some(Error::TokenExists)
    } else if to == null_account() {
        Some(Error::NotAllowed)
    } else {
        None
    }
}

/// Why a token with owner entry `owner` cannot be taken from `from`, whose
/// counter is `count`, if it cannot: the token has no owner; or `from` has no
/// counter, has counted down to zero, or is not the owner.
pub open spec fn deregister_refusal(
    owner: Option<AccountId>,
    count: Option<nat>,
    from: AccountId,
) -> Option<Error> {
    if owner is None {
        Some(Error::TokenNotFound)
    } else if count is None || count == Some(0nat) || owner != Some(from) {
        Some(Error::CannotFetchValue)
    } else {
        None
    }
}

/// Whether `caller` may move a token with the entries `owner` and `delegate`,
/// where `operator` says whether the caller is an operator of the owner: the
/// token has an owner, the caller is not the null account, and the caller is
/// the owner, the delegate or such an operator. Without a caller nothing is
/// allowed.
pub open spec fn may_move(
    caller: Option<AccountId>,
    owner: Option<AccountId>,
    delegate: Option<AccountId>,
    operator: bool,
) -> bool {
    match (caller, owner) {
        (Some(c), Some(o)) => c != null_account() && (c == o || delegate == Some(c) || operator),
        _ => false,
    }
}

/// Whether `caller` may name a delegate for a token with the entry `owner`:
/// the token has an owner, and the caller is the owner or an operator of the
/// owner.
pub open spec fn may_grant(caller: AccountId, owner: Option<AccountId>, operator: bool) -> bool {
    match owner {
        Some(o) => caller == o || operator,
        None => false,
    }
}

/// Why `caller` cannot move a token from `from` to `to`, if it cannot. The
/// first of these that holds decides: the destination is the null account;
/// the token has no owner; the caller may not move it; `from` is not its
/// owner.
pub open spec fn transfer_refusal(
    caller: AccountId,
    from: AccountId,
    to: AccountId,
    owner: Option<AccountId>,
    delegate: Option<AccountId>,
    operator: bool,
) -> Option<Error> {
    if to == null_account() {
        Some(Error::NotAllowed)
    } else if owner is None {
        Some(Error::TokenNotFound)
    } else if !may_move(Some(caller), owner, delegate, operator) {
        Some(Error::NotApproved)
    } else if owner != Some(from) {
        Some(Error::CannotFetchValue)
    } else {
        None
    }
}

/// Why `caller` cannot burn a token with owner entry `owner`, if it cannot:
/// the token has no owner, or the caller is not the owner.
pub open spec fn burn_refusal(caller: AccountId, owner: Option<AccountId>) -> Option<Error> {
    if owner is None {
        Some(Error::TokenNotFound)
    } else if owner != Some(caller) {
        Some(Error::NotOwner)
    } else {
        None
    }
}

/// Why `caller` cannot make `to` the delegate of a token, if it cannot: `to`
/// is the null account or the caller may not name a delegate; or else the
/// token has a delegate already.
pub open spec fn approve_refusal(
    caller: AccountId,
    to: AccountId,
    owner: Option<AccountId>,
    delegate: Option<AccountId>,
    operator: bool,
) -> Option<Error> {
    if to == null_account() || !may_grant(caller, owner, operator) {
        Some(Error::NotAllowed)
    } else if delegate is Some {
        Some(Error::CannotInsert)
    } else {
        None
    }
}

/// Why `caller` cannot say whether `operator` is its operator, if it cannot:
/// an account cannot name itself.
pub open spec fn operator_refusal(caller: AccountId, operator: AccountId) -> Option<Error> {
    if operator == caller {
        Some(Error::NotAllowed)
    } else {
        None
    }
}

/// Whether `entry` holds `account`.
pub fn names(entry: Option<AccountId>, account: &AccountId) -> (r: bool)
    ensures
        r == (entry == Some(*account)),
{
    match entry {
        Some(o) => o == *account,
        None => false,
    }
}

/// Decides whether a token can be given to `to`.
pub fn check_register(owner: Option<AccountId>, to: &AccountId) -> (r: Result<(), Error>)
    ensures
        match register_refusal(owner, *to) {
            Some(e) => r == Err::<(), Error>(e),
            None => r == Ok::<(), Error>(()),
        },
{
    if owner.is_some() {
        Err(Error::TokenExists)
    } else if to.is_null() {
        Err(Error::NotAllowed)
    } else {
        Ok(())
    }
}

/// Decides whether a token can be given to `to`, and if so, what the counter
/// of `to` becomes: one more than `count`, or one where there was none. A
/// counter that stands at its largest value cannot take another token.
pub fn register(owner: Option<AccountId>, count: Option<u32>, to: &AccountId) -> (r: Result<
    u32,
    Error,
>)
    requires
        register_refusal(owner, *to) is None ==> count != Some(u32::MAX),
    ensures
        match register_refusal(owner, *to) {
            Some(e) => r == Err::<u32, Error>(e),
            None => r matches Ok(c) && c == (match count {
                Some(n) => n + 1,
                None => 1,
            }),
        },
{
    match check_register(owner, to) {
        Ok(()) => {},
        Err(e) => {
            return Err(e);
        },
    }
    match count {
        Some(c) => Ok(c + 1),
        None => Ok(1),
    }
}

/// Decides whether a token can be taken from `from`, and if so, what the
/// counter of `from` becomes: one less than `count`.
pub fn deregister(owner: Option<AccountId>, count: Option<u32>, from: &AccountId) -> (r: Result<
    u32,
    Error,
>)
    ensures
        match deregister_refusal(owner, counted(count), *from) {
            Some(e) => r == Err::<u32, Error>(e),
            None => r matches Ok(c) && count matches Some(n) && c == n - 1,
        },
{
    if owner.is_none() {
        return Err(Error::TokenNotFound);
    }
    match count {
        Some(c) => {
            if c == 0 || !names(owner, from) {
                Err(Error::CannotFetchValue)
            } else {
                Ok(c - 1)
            }
        },
        None => Err(Error::CannotFetchValue),
    }
}

/// Decides whether `caller` may move a token.
pub fn approved_to_move(
    caller: Option<AccountId>,
    owner: Option<AccountId>,
    delegate: Option<AccountId>,
    operator: bool,
) -> (r: bool)
    ensures
        r == may_move(caller, owner, delegate, operator),
{
    match (caller, owner) {
        (Some(c), Some(o)) => !c.is_null() && (c == o || names(delegate, &c) || operator),
        _ => false,
    }
}

/// Decides whether `caller` can move a token from `from` to `to`.
pub fn check_transfer(
    caller: &AccountId,
    from: &AccountId,
    to: &AccountId,
    owner: Option<AccountId>,
    delegate: Option<AccountId>,
    operator: bool,
) -> (r: Result<(), Error>)
    ensures
        match transfer_refusal(*caller, *from, *to, owner, delegate, operator) {
            Some(e) => r == Err::<(), Error>(e),
            None => r == Ok::<(), Error>(()),
        },
{
    if to.is_null() {
        Err(Error::NotAllowed)
    } else if owner.is_none() {
        Err(Error::TokenNotFound)
    } else if !approved_to_move(Some(*caller), owner, delegate, operator) {
        Err(Error::NotApproved)
    } else if !names(owner, from) {
        Err(Error::CannotFetchValue)
    } else {
        Ok(())
    }
}

/// Decides whether `caller` can burn a token.
pub fn check_burn(caller: &AccountId, owner: Option<AccountId>) -> (r: Result<(), Error>)
    ensures
        match burn_refusal(*caller, owner) {
            Some(e) => r == Err::<(), Error>(e),
            None => r == Ok::<(), Error>(()),
        },
{
    if owner.is_none() {
        Err(Error::TokenNotFound)
    } else if !names(owner, caller) {
        Err(Error::NotOwner)
    } else {
        Ok(())
    }
}

/// Decides whether `caller` can make `to` the delegate of a token.
pub fn check_approve(
    caller: &AccountId,
    to: &AccountId,
    owner: Option<AccountId>,
    delegate: Option<AccountId>,
    operator: bool,
) -> (r: Result<(), Error>)
    ensures
        match approve_refusal(*caller, *to, owner, delegate, operator) {
            Some(e) => r == Err::<(), Error>(e),
            None => r == Ok::<(), Error>(()),
        },
{
    if to.is_null() {
        Err(Error::NotAllowed)
    } else if !(names(owner, caller) || (owner.is_some() && operator)) {
        Err(Error::NotAllowed)
    } else if delegate.is_some() {
        Err(Error::CannotInsert)
    } else {
        Ok(())
    }
}

/// Decides whether `caller` can say whether `operator` is its operator.
pub fn check_operator(caller: &AccountId, operator: &AccountId) -> (r: Result<(), Error>)
    ensures
        match operator_refusal(*caller, *operator) {
            Some(e) => r == Err::<(), Error>(e),
            None => r == Ok::<(), Error>(()),
        },
{
    if *operator == *caller {
        Err(Error::NotAllowed)
    } else {
        Ok(())
    }
}

} // verus!
