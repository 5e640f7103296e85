//! What holds of every ledger, whatever was done to it.
//!
//! The laws speak of a ledger as a mathematical value and of the calls that
//! its users make: the operations of the ledger promise to act as
//! `LedgerView::refusal` and `LedgerView::step` say.

use crate::account::{null_account, AccountId};
use crate::model::{Call, LedgerView};
use crate::types::{Error, TokenId};
use vstd::prelude::*;

verus! {

/// An account is the null account exactly when each of its bytes is zero.
pub proof fn law_null_account_is_all_zero(account: AccountId)
    ensures
        account == null_account() <==> (forall|i: int| 0 <= i < 32 ==> account.0[i] == 0u8),
{
    if forall|i: int| 0 <= i < 32 ==> account.0[i] == 0u8 {
        assert(account.0 =~= null_account().0);
    }
}

/// Whatever calls were made on a new ledger, the counter of every account is
/// the number of tokens that the account owns.
pub proof fn law_balance_counts_holdings(calls: Seq<Call>, account: AccountId)
    ensures
        LedgerView::run(calls).balance_of(account) == LedgerView::run(calls).holdings(
            account,
        ).len(),
{
    LedgerView::lemma_run_inv(calls);
}

/// A call on a sound ledger leaves each counter equal to the number of tokens
/// that its account owns.
pub proof fn law_call_keeps_balances(ledger: LedgerView, call: Call, account: AccountId)
    requires
        ledger.inv(),
    ensures
        ledger.step(call).inv(),
        ledger.step(call).balance_of(account) == ledger.step(call).holdings(account).len(),
{
    ledger.lemma_step_inv(call);
}

/// A call that is refused changes nothing.
pub proof fn law_refused_call_changes_nothing(ledger: LedgerView, call: Call)
    requires
        ledger.refusal(call) is Some,
    ensures
        ledger.step(call) == ledger,
{
}

/// After a token was minted, minting it again is refused because the token
/// exists, whoever asks, and the owner and the counters stay as the first
/// mint left them.
pub proof fn law_second_mint_is_refused(
    ledger: LedgerView,
    first: AccountId,
    second: AccountId,
    id: TokenId,
)
    requires
        ledger.refusal(Call::Mint { caller: first, id }) is None,
    ensures
        ({
            let minted = ledger.step(Call::Mint { caller: first, id });
            &&& minted.owner_of(id) == Some(first)
            &&& minted.balance_of(first) == ledger.balance_of(first) + 1
            &&& minted.refusal(Call::Mint { caller: second, id }) == Some(Error::TokenExists)
            &&& minted.step(Call::Mint { caller: second, id }) == minted
        }),
{
}

/// After its owner burned a token, the token has no owner and does not
/// exist, and the owner's counter is one less than before.
pub proof fn law_burn_removes_token(ledger: LedgerView, caller: AccountId, id: TokenId)
    requires
        ledger.inv(),
        ledger.refusal(Call::Burn { caller, id }) is None,
    ensures
        ({
            let burned = ledger.step(Call::Burn { caller, id });
            &&& burned.owner_of(id) is None
            &&& !burned.has_token(id)
            &&& burned.delegate_of(id) is None
            &&& ledger.balance_of(caller) >= 1
            &&& burned.balance_of(caller) == ledger.balance_of(caller) - 1
        }),
{
    ledger.lemma_clear_delegate_inv(id);
    ledger.clear_delegate(id).lemma_deregister_counts(id);
}

/// Taking a token from its owner removes its owner and lowers the owner's
/// counter by one; the counter stays recorded, also at zero. No other token,
/// no other counter, no delegate and no operator changes, and the owners and
/// the counters stay in order.
pub proof fn law_deregister_changes_owner_and_counter(
    ledger: LedgerView,
    from: AccountId,
    id: TokenId,
)
    requires
        ledger.counts_inv(),
        ledger.owner_of(id) == Some(from),
    ensures
        ({
            let taken = ledger.deregister(id);
            &&& ledger.deregister_error(from, id) is None
            &&& ledger.balance_of(from) >= 1
            &&& taken.owner_of(id) is None
            &&& taken.counter(from) == Some((ledger.balance_of(from) - 1) as nat)
            &&& forall|other: TokenId|
                other != id ==> #[trigger] taken.owner_of(other) == ledger.owner_of(other)
            &&& forall|a: AccountId| a != from ==> #[trigger] taken.counter(a) == ledger.counter(a)
            &&& taken.delegates == ledger.delegates
            &&& taken.operators == ledger.operators
            &&& taken.counts_inv()
        }),
{
    ledger.lemma_deregister_counts(id);
}

/// After a transfer the token has no delegate, whether it had one before or
/// not, and it belongs to the destination.
pub proof fn law_transfer_clears_delegate(
    ledger: LedgerView,
    caller: AccountId,
    destination: AccountId,
    id: TokenId,
)
    requires
        ledger.refusal(Call::Transfer { caller, destination, id }) is None,
    ensures
        ({
            let moved = ledger.step(Call::Transfer { caller, destination, id });
            &&& moved.delegate_of(id) is None
            &&& moved.owner_of(id) == Some(destination)
        }),
{
}

/// After a transfer that names the owner the token has no delegate, whether
/// it had one before or not, and it belongs to the destination.
pub proof fn law_transfer_from_clears_delegate(
    ledger: LedgerView,
    caller: AccountId,
    from: AccountId,
    to: AccountId,
    id: TokenId,
)
    requires
        ledger.refusal(Call::TransferFrom { caller, from, to, id }) is None,
    ensures
        ({
            let moved = ledger.step(Call::TransferFrom { caller, from, to, id });
            &&& moved.delegate_of(id) is None
            &&& moved.owner_of(id) == Some(to)
        }),
{
}

/// A transfer takes one from the counter of the owner and adds one to that
/// of the destination; where the two are the same account the counter stays.
/// No other counter and no other token changes.
pub proof fn law_transfer_moves_one(
    ledger: LedgerView,
    caller: AccountId,
    from: AccountId,
    to: AccountId,
    id: TokenId,
)
    requires
        ledger.inv(),
        ledger.refusal(Call::TransferFrom { caller, from, to, id }) is None,
    ensures
        ({
            let moved = ledger.step(Call::TransferFrom { caller, from, to, id });
            &&& from != to ==> moved.balance_of(from) == ledger.balance_of(from) - 1
            &&& from != to ==> moved.balance_of(to) == ledger.balance_of(to) + 1
            &&& from == to ==> moved.balance_of(from) == ledger.balance_of(from)
            &&& forall|a: AccountId|
                a != from && a != to ==> #[trigger] moved.balance_of(a) == ledger.balance_of(a)
            &&& forall|other: TokenId|
                other != id ==> #[trigger] moved.owner_of(other) == ledger.owner_of(other)
                    && moved.delegate_of(other) == ledger.delegate_of(other)
            &&& moved.operators == ledger.operators
        }),
{
    ledger.lemma_clear_delegate_inv(id);
    ledger.clear_delegate(id).lemma_deregister_counts(id);
}

/// A caller who is neither the owner of a token nor an operator of its owner
/// cannot name a delegate for it: that is not allowed; nor can anyone for a
/// token that does not exist.
pub proof fn law_approve_needs_owner_or_operator(
    ledger: LedgerView,
    caller: AccountId,
    to: AccountId,
    id: TokenId,
)
    requires
        !ledger.may_approve(caller, id),
    ensures
        ledger.refusal(Call::Approve { caller, to, id }) == Some(Error::NotAllowed),
{
}

/// The owner of a token without a delegate can name any account but the null
/// account as its delegate.
pub proof fn law_owner_can_approve(ledger: LedgerView, owner: AccountId, to: AccountId, id: TokenId)
    requires
        ledger.owner_of(id) == Some(owner),
        ledger.delegate_of(id) is None,
        to != null_account(),
    ensures
        ledger.refusal(Call::Approve { caller: owner, to, id }) is None,
        ledger.step(Call::Approve { caller: owner, to, id }).delegate_of(id) == Some(to),
{
}

/// While a token has a delegate, no second delegate can be named for it: the
/// owner and its operators are told that the entry cannot be inserted.
pub proof fn law_second_approve_is_refused(
    ledger: LedgerView,
    first: AccountId,
    to: AccountId,
    second: AccountId,
    next: AccountId,
    id: TokenId,
)
    requires
        ledger.refusal(Call::Approve { caller: first, to, id }) is None,
        ledger.may_approve(second, id),
        next != null_account(),
    ensures
        ({
            let approved = ledger.step(Call::Approve { caller: first, to, id });
            &&& approved.refusal(Call::Approve { caller: second, to: next, id }) == Some(
                Error::CannotInsert,
            )
            &&& approved.step(Call::Approve { caller: second, to: next, id }) == approved
        }),
{
}

/// Once an owner has made another account its operator, that account can
/// move every token of the owner to any destination but the null account.
pub proof fn law_operator_can_transfer(
    ledger: LedgerView,
    owner: AccountId,
    operator: AccountId,
    to: AccountId,
    id: TokenId,
)
    requires
        ledger.owner_of(id) == Some(owner),
        operator != owner,
        operator != null_account(),
        to != null_account(),
    ensures
        ({
            let granted = ledger.step(
                Call::SetApprovalForAll { caller: owner, to: operator, approved: true },
            );
            granted.refusal(Call::TransferFrom { caller: operator, from: owner, to, id }) is None
        }),
{
}

/// Once an owner has taken the approval back, the former operator may not
/// move a token of the owner of which it is not the delegate.
pub proof fn law_revoked_operator_cannot_transfer(
    ledger: LedgerView,
    owner: AccountId,
    operator: AccountId,
    to: AccountId,
    id: TokenId,
)
    requires
        ledger.owner_of(id) == Some(owner),
        operator != owner,
        ledger.delegate_of(id) != Some(operator),
        to != null_account(),
    ensures
        ({
            let revoked = ledger.step(
                Call::SetApprovalForAll { caller: owner, to: operator, approved: false },
            );
            revoked.refusal(Call::TransferFrom { caller: operator, from: owner, to, id }) == Some(
                Error::NotApproved,
            )
        }),
{
}

/// An account cannot make itself its own operator, nor take that back: that
/// is not allowed, and nothing changes. In a sound ledger the account is not
/// its own operator before the call, and so not after it.
pub proof fn law_self_operator_is_refused(ledger: LedgerView, caller: AccountId, approved: bool)
    ensures
        ledger.refusal(Call::SetApprovalForAll { caller, to: caller, approved }) == Some(
            Error::NotAllowed,
        ),
        ledger.step(Call::SetApprovalForAll { caller, to: caller, approved }) == ledger,
        ledger.inv() ==> !ledger.is_operator(caller, caller),
{
}

/// In a sound ledger no account is its own operator, and no call makes it
/// one.
pub proof fn law_no_account_is_its_own_operator(ledger: LedgerView, call: Call, account: AccountId)
    requires
        ledger.inv(),
    ensures
        !ledger.is_operator(account, account),
        !ledger.step(call).is_operator(account, account),
{
    ledger.lemma_step_inv(call);
}

/// Whatever calls were made on a new ledger, no account is its own operator.
pub proof fn law_never_its_own_operator(calls: Seq<Call>, account: AccountId)
    ensures
        !LedgerView::run(calls).is_operator(account, account),
{
    LedgerView::lemma_run_inv(calls);
}

/// A transfer to the null account and the naming of the null account as a
/// delegate are not allowed, whatever else holds, and change nothing.
pub proof fn law_null_target_is_refused(
    ledger: LedgerView,
    caller: AccountId,
    from: AccountId,
    id: TokenId,
)
    ensures
        ({
            let to = null_account();
            &&& ledger.refusal(Call::Transfer { caller, destination: to, id }) == Some(
                Error::NotAllowed,
            )
            &&& ledger.step(Call::Transfer { caller, destination: to, id }) == ledger
            &&& ledger.refusal(Call::TransferFrom { caller, from, to, id }) == Some(
                Error::NotAllowed,
            )
            &&& ledger.step(Call::TransferFrom { caller, from, to, id }) == ledger
            &&& ledger.refusal(Call::Approve { caller, to, id }) == Some(Error::NotAllowed)
            &&& ledger.step(Call::Approve { caller, to, id }) == ledger
        }),
{
}

/// The null account owns no token of a sound ledger, so it can burn none:
/// its call is refused and changes nothing.
pub proof fn law_null_cannot_burn(ledger: LedgerView, id: TokenId)
    requires
        ledger.inv(),
    ensures
        ledger.refusal(Call::Burn { caller: null_account(), id }) is Some,
        ledger.step(Call::Burn { caller: null_account(), id }) == ledger,
        ledger.holdings(null_account()).len() == 0,
        ledger.balance_of(null_account()) == 0,
{
    assert(ledger.holdings(null_account()) =~= Set::<TokenId>::empty());
    assert(ledger.balance_of(null_account()) == ledger.holdings(null_account()).len());
}

/// In a sound ledger a token cannot be taken from an account without a
/// counter: its value cannot be fetched.
pub proof fn law_deregister_needs_counter(ledger: LedgerView, from: AccountId, id: TokenId)
    requires
        ledger.has_token(id),
        ledger.counter(from) is None,
    ensures
        ledger.deregister_error(from, id) == Some(Error::CannotFetchValue),
{
}

} // verus!
