//! Token identifiers, the errors of the ledger and the events it reports.

use crate::account::AccountId;
use vstd::prelude::*;

verus! {

/// The identifier of a token.
pub type TokenId = u32;

/// Why an operation on the ledger was refused.
#[derive(Clone, Copy, Debug, PartialEq, Eq, Structural)]
pub enum Error {
    /// Someone other than the owner tried to burn a token.
    NotOwner,
    /// The caller may not move the token.
    NotApproved,
    /// The token already has an owner.
    TokenExists,
    /// The token has no owner.
    TokenNotFound,
    /// The token already has a delegate.
    CannotInsert,
    /// The account that a token was to be taken from does not hold it.
    CannotFetchValue,
    /// The null account was named as a destination or a delegate, an account
    /// named itself as its operator, or the caller may not grant the approval.
    NotAllowed,
}

/// A token changed hands. A mint comes from the null account; a burn goes to it.
#[derive(Clone, Copy, Debug, PartialEq, Eq)]
pub struct Transfer {
    pub from: Option<AccountId>,
    pub to: Option<AccountId>,
    pub id: TokenId,
}

/// Account `from` made `to` the delegate of token `id`.
#[derive(Clone, Copy, Debug, PartialEq, Eq)]
pub struct Approval {
    pub from: AccountId,
    pub to: AccountId,
    pub id: TokenId,
}

/// `owner` let `operator` act on all of its tokens, or took that back.
#[derive(Clone, Copy, Debug, PartialEq, Eq)]
pub struct ApprovalForAll {
    pub owner: AccountId,
    pub operator: AccountId,
    pub approved: bool,
}

} // verus!
