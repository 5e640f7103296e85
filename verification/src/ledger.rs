//! The ledger: its tables, and the operations that callers perform on it.
//!
//! Every operation names the account that performs it, checks all that it has
//! to check before it changes anything, and reports what happened as an event.

use crate::account::{null_account, AccountId};
use crate::model::{Call, LedgerView};
use crate::rules;
use crate::tables::{BalanceTable, OperatorSet};
use crate::types::{Approval, ApprovalForAll, Error, TokenId, Transfer};
use std::collections::HashMap;
use vstd::prelude::*;

verus! {

/// A ledger of tokens, their owners, their delegates and the owners' operators.
pub struct Erc721 {
    token_owner: HashMap<TokenId, AccountId>,
    token_approvals: HashMap<TokenId, AccountId>,
    owned_tokens_count: BalanceTable,
    operator_approvals: OperatorSet,
}

impl Erc721 {
    /// What the ledger records.
    pub closed spec fn view(&self) -> LedgerView {
        LedgerView {
            owners: self.token_owner@,
            balances: self.owned_tokens_count@,
            delegates: self.token_approvals@,
            operators: self.operator_approvals@,
        }
    }

    /// The tables keyed by accounts are in order.
    pub closed spec fn tables_wf(&self) -> bool {
        self.owned_tokens_count.wf() && self.operator_approvals.wf()
    }

    /// The ledger is sound: its tables are in order, every account's counter
    /// is the number of tokens it owns, the null account owns nothing, only
    /// existing tokens have a delegate, and no account is its own operator.
    pub open spec fn wf(&self) -> bool {
        self.tables_wf() && self@.inv()
    }

    /// Every counter is that of a 32-bit counter.
    pub proof fn lemma_balance_fits(&self, account: AccountId)
        ensures
            self@.balance_of(account) <= u32::MAX,
    {
        self.owned_tokens_count.lemma_counts_fit(account);
    }

    /// The ledger that records nothing.
    pub fn new() -> (ledger: Erc721)
        ensures
            ledger.wf(),
            ledger@ == LedgerView::empty(),
    {
        let ledger = Erc721 {
            token_owner: HashMap::new(),
            token_approvals: HashMap::new(),
            owned_tokens_count: BalanceTable::new(),
            operator_approvals: OperatorSet::new(),
        };
        proof {
            assert(ledger@ =~= LedgerView::empty());
            LedgerView::lemma_empty_inv();
        }
        ledger
    }

    /// The number of tokens that `owner` owns.
    pub fn balance_of(&self, owner: AccountId) -> (count: u32)
        requires
            self.wf(),
        ensures
            count == self@.balance_of(owner),
            count == self@.holdings(owner).len(),
    {
        self.balance_of_or_zero(&owner)
    }

    /// The owner of token `id`, if the token exists.
    pub fn owner_of(&self, id: TokenId) -> (owner: Option<AccountId>)
        ensures
            owner == self@.owner_of(id),
    {
        match self.token_owner.get(&id) {
            Some(owner) => Some(*owner),
            None => None,
        }
    }

    /// The delegate of token `id`, if it has one.
    pub fn token_delegate(&self, id: TokenId) -> (delegate: Option<AccountId>)
        ensures
            delegate == self@.delegate_of(id),
    {
        match self.token_approvals.get(&id) {
            Some(delegate) => Some(*delegate),
            None => None,
        }
    }

    /// Whether `operator` may act on all tokens of `owner`.
    pub fn approved_for_all(&self, owner: AccountId, operator: AccountId) -> (r: bool)
        ensures
            r == self@.is_operator(owner, operator),
    {
        self.operator_approvals.contains(&owner, &operator)
    }

    /// The number of tokens that `of` owns; zero for an account that the
    /// ledger has never seen.
    pub fn balance_of_or_zero(&self, of: &AccountId) -> (count: u32)
        requires
            self.wf(),
        ensures
            count == self@.balance_of(*of),
            count == self@.holdings(*of).len(),
    {
        match self.owned_tokens_count.get(of) {
            Some(count) => count,
            None => 0,
        }
    }

    /// Whether token `id` exists, that is, has an owner.
    pub fn token_exists(&self, id: TokenId) -> (r: bool)
        ensures
            r == self@.has_token(id),
    {
        self.token_owner.contains_key(&id)
    }

    /// Whether `from` may move token `id`: it is the token's owner, its
    /// delegate, or an operator of its owner, and not the null account. For a
    /// token that does not exist, and without a caller, the answer is no.
    pub fn approved_or_owner(&self, from: Option<AccountId>, id: TokenId) -> (r: bool)
        ensures
            r == self@.may_act(from, id),
    {
        let owner = self.owner_of(id);
        let operator = self.operator_over(from, owner);
        rules::approved_to_move(from, owner, self.token_delegate(id), operator)
    }

    /// Whether `caller` is an operator of `owner`, where there are both.
    fn operator_over(&self, caller: Option<AccountId>, owner: Option<AccountId>) -> (r: bool)
        ensures
            r == (match (caller, owner) {
                (Some(c), Some(o)) => self@.is_operator(o, c),
                _ => false,
            }),
    {
        match (caller, owner) {
            (Some(c), Some(o)) => self.approved_for_all(o, c),
            _ => false,
        }
    }

    /// Takes the delegate of token `id` away, if it has one. Nothing else
    /// changes, and a sound ledger stays sound.
    pub fn clear_approval(&mut self, id: TokenId)
        ensures
            final(self).tables_wf() == old(self).tables_wf(),
            final(self)@ == old(self)@.clear_delegate(id),
            old(self).wf() ==> final(self).wf(),
    {
        self.token_approvals.remove(&id);
        proof {
            assert(self@ =~= old(self)@.clear_delegate(id));
            if old(self).wf() {
                old(self)@.lemma_clear_delegate_inv(id);
            }
        }
    }

    /// Gives token `id` to `to`. The token must not exist yet, and `to` must
    /// not be the null account. On an error the ledger is unchanged.
    ///
    /// The counter of `to` is a 32-bit number: where the token would be given,
    /// the counter must be below its largest value.
    pub fn add_token_to(&mut self, to: &AccountId, id: TokenId) -> (r: Result<(), Error>)
        requires
            old(self).wf(),
            old(self)@.register_error(*to, id) is None ==> old(self)@.balance_of(*to) < u32::MAX,
        ensures
            final(self).wf(),
            match old(self)@.register_error(*to, id) {
                Some(e) => r == Err::<(), Error>(e) && final(self)@ == old(self)@,
                None => r == Ok::<(), Error>(()) && final(self)@ == old(self)@.register(*to, id),
            },
    {
        let count = match rules::register(self.owner_of(id), self.owned_tokens_count.get(to), to) {
            Ok(count) => count,
            Err(e) => {
                return Err(e);
            },
        };
        self.owned_tokens_count.insert(*to, count);
        self.token_owner.insert(id, *to);
        proof {
            assert(self@ =~= old(self)@.register(*to, id));
            old(self)@.lemma_register_inv(*to, id);
        }
        Ok(())
    }

    /// Takes token `id` from `from`, who must be its owner: the token no
    /// longer exists, and the counter of `from` is one less. On an error the
    /// ledger is unchanged.
    ///
    /// Only the owners and the counters change, and they stay in order. A
    /// delegate of the token stays recorded: the ledger is sound afterwards
    /// where the token had none.
    pub fn remove_token_from(&mut self, from: &AccountId, id: TokenId) -> (r: Result<(), Error>)
        requires
            old(self).wf(),
        ensures
            final(self).tables_wf(),
            final(self)@.counts_inv(),
            match old(self)@.deregister_error(*from, id) {
                Some(e) => r == Err::<(), Error>(e) && final(self)@ == old(self)@,
                None => r == Ok::<(), Error>(()) && final(self)@ == old(self)@.deregister(id),
            },
            r is Err || old(self)@.delegate_of(id) is None ==> final(self).wf(),
    {
        let count = match rules::deregister(
            self.owner_of(id),
            self.owned_tokens_count.get(from),
            from,
        ) {
            Ok(count) => count,
            Err(e) => {
                return Err(e);
            },
        };
        self.owned_tokens_count.insert(*from, count);
        self.token_owner.remove(&id);
        proof {
            assert(self@ =~= old(self)@.deregister(id));
            old(self)@.lemma_deregister_counts(id);
        }
        Ok(())
    }

    /// Moves token `id` from `from` to `to` in the name of `caller`, and
    /// clears its delegate. The destination must not be the null account, the
    /// token must exist, `caller` must be allowed to move it, and `from` must
    /// be its owner; the checks are made in this order, before anything
    /// changes. On an error the ledger is unchanged.
    ///
    /// Where the token would go to another account, the counter of that
    /// account must be below its largest value.
    pub fn transfer_token_from(
        &mut self,
        caller: &AccountId,
        from: &AccountId,
        to: &AccountId,
        id: TokenId,
    ) -> (r: Result<Transfer, Error>)
        requires
            old(self).wf(),
            old(self)@.transfer_error(*caller, *from, *to, id) is None && *from != *to ==> old(
                self,
            )@.balance_of(*to) < u32::MAX,
        ensures
            final(self).wf(),
            match old(self)@.transfer_error(*caller, *from, *to, id) {
                Some(e) => r == Err::<Transfer, Error>(e) && final(self)@ == old(self)@,
                None => r == Ok::<Transfer, Error>(
                    (Transfer { from: Some(*from), to: Some(*to), id }),
                ) && final(self)@ == old(self)@.transfer(*to, id),
            },
    {
        let owner = self.owner_of(id);
        let operator = self.operator_over(Some(*caller), owner);
        match rules::check_transfer(caller, from, to, owner, self.token_delegate(id), operator) {
            Ok(()) => {},
            Err(e) => {
                return Err(e);
            },
        }
        proof {
            self.lemma_balance_fits(*from);
            old(self)@.lemma_deregister_counts(id);
        }
        self.clear_approval(id);
        match self.remove_token_from(from, id) {
            Ok(()) => {},
            Err(e) => {
                return Err(e);
            },
        }
        match self.add_token_to(to, id) {
            Ok(()) => {},
            Err(e) => {
                return Err(e);
            },
        }
        Ok(Transfer { from: Some(*from), to: Some(*to), id })
    }

    /// Moves token `id` from its owner to `destination` in the name of
    /// `caller`, who must be allowed to move it. Where the token would go to
    /// another account, the counter of that account must be below its largest
    /// value.
    pub fn transfer(&mut self, caller: AccountId, destination: AccountId, id: TokenId) -> (r:
        Result<Transfer, Error>)
        requires
            old(self).wf(),
            old(self)@.refusal(Call::Transfer { caller, destination, id }) is None && old(
                self,
            )@.owner_of(id) != Some(destination) ==> old(self)@.balance_of(destination) < u32::MAX,
        ensures
            final(self).wf(),
            final(self)@ == old(self)@.step(Call::Transfer { caller, destination, id }),
            match old(self)@.refusal(Call::Transfer { caller, destination, id }) {
                Some(e) => r == Err::<Transfer, Error>(e),
                None => r == Ok::<Transfer, Error>(
                    (Transfer { from: old(self)@.owner_of(id), to: Some(destination), id }),
                ),
            },
    {
        let from = match self.owner_of(id) {
            Some(owner) => owner,
            None => caller,
        };
        self.transfer_token_from(&caller, &from, &destination, id)
    }

    /// Moves token `id` from `from`, who must be its owner, to `to` in the
    /// name of `caller`, who must be allowed to move it. Where the token would
    /// go to another account, the counter of that account must be below its
    /// largest value.
    pub fn transfer_from(
        &mut self,
        caller: AccountId,
        from: AccountId,
        to: AccountId,
        id: TokenId,
    ) -> (r: Result<Transfer, Error>)
        requires
            old(self).wf(),
            old(self)@.refusal(Call::TransferFrom { caller, from, to, id }) is None && from != to
                ==> old(self)@.balance_of(to) < u32::MAX,
        ensures
            final(self).wf(),
            final(self)@ == old(self)@.step(Call::TransferFrom { caller, from, to, id }),
            match old(self)@.refusal(Call::TransferFrom { caller, from, to, id }) {
                Some(e) => r == Err::<Transfer, Error>(e),
                None => r == Ok::<Transfer, Error>((Transfer { from: Some(from), to: Some(to), id })),
            },
    {
        self.transfer_token_from(&caller, &from, &to, id)
    }

    /// Makes `to` the delegate of token `id` in the name of `caller`, who must
    /// be the token's owner or an operator of its owner.
    pub fn approve(&mut self, caller: AccountId, to: AccountId, id: TokenId) -> (r: Result<
        Approval,
        Error,
    >)
        requires
            old(self).wf(),
        ensures
            final(self).wf(),
            final(self)@ == old(self)@.step(Call::Approve { caller, to, id }),
            match old(self)@.refusal(Call::Approve { caller, to, id }) {
                Some(e) => r == Err::<Approval, Error>(e),
                None => r == Ok::<Approval, Error>((Approval { from: caller, to, id })),
            },
    {
        self.approve_for(&caller, &to, id)
    }

    /// Lets `to` act on all tokens of `caller` (`approved`), or takes that
    /// back. An account cannot name itself.
    pub fn set_approval_for_all(&mut self, caller: AccountId, to: AccountId, approved: bool) -> (r:
        Result<ApprovalForAll, Error>)
        requires
            old(self).wf(),
        ensures
            final(self).wf(),
            final(self)@ == old(self)@.step(Call::SetApprovalForAll { caller, to, approved }),
            match old(self)@.refusal(Call::SetApprovalForAll { caller, to, approved }) {
                Some(e) => r == Err::<ApprovalForAll, Error>(e),
                None => r == Ok::<ApprovalForAll, Error>(
                    (ApprovalForAll { owner: caller, operator: to, approved }),
                ),
            },
    {
        self.approve_for_all(caller, to, approved)
    }

    /// Makes `to` the delegate of token `id` in the name of `caller`. The
    /// delegate must not be the null account, `caller` must be the token's
    /// owner or an operator of its owner, and the token must have no delegate
    /// yet. On an error the ledger is unchanged.
    pub fn approve_for(&mut self, caller: &AccountId, to: &AccountId, id: TokenId) -> (r: Result<
        Approval,
        Error,
    >)
        requires
            old(self).wf(),
        ensures
            final(self).wf(),
            match old(self)@.approve_error(*caller, *to, id) {
                Some(e) => r == Err::<Approval, Error>(e) && final(self)@ == old(self)@,
                None => r == Ok::<Approval, Error>((Approval { from: *caller, to: *to, id }))
                    && final(self)@ == old(self)@.approve(*to, id),
            },
    {
        let owner = self.owner_of(id);
        let operator = self.operator_over(Some(*caller), owner);
        match rules::check_approve(caller, to, owner, self.token_delegate(id), operator) {
            Ok(()) => {},
            Err(e) => {
                return Err(e);
            },
        }
        self.token_approvals.insert(id, *to);
        proof {
            assert(self@ =~= old(self)@.approve(*to, id));
            old(self)@.lemma_approve_inv(*to, id);
        }
        Ok(Approval { from: *caller, to: *to, id })
    }

    /// Lets `to` act on all tokens of `caller` (`approved`), or takes that
    /// back. An account cannot name itself. On an error the ledger is
    /// unchanged.
    pub fn approve_for_all(&mut self, caller: AccountId, to: AccountId, approved: bool) -> (r:
        Result<ApprovalForAll, Error>)
        requires
            old(self).wf(),
        ensures
            final(self).wf(),
            match old(self)@.operator_error(caller, to) {
                Some(e) => r == Err::<ApprovalForAll, Error>(e) && final(self)@ == old(self)@,
                None => r == Ok::<ApprovalForAll, Error>(
                    (ApprovalForAll { owner: caller, operator: to, approved }),
                ) && final(self)@ == old(self)@.set_operator(caller, to, approved),
            },
    {
        match rules::check_operator(&caller, &to) {
            Ok(()) => {},
            Err(e) => {
                return Err(e);
            },
        }
        if approved {
            self.operator_approvals.insert(caller, to);
        } else {
            self.operator_approvals.remove(caller, to);
        }
        proof {
            assert(self@ =~= old(self)@.set_operator(caller, to, approved));
            old(self)@.lemma_set_operator_inv(caller, to, approved);
        }
        Ok(ApprovalForAll { owner: caller, operator: to, approved })
    }

    /// Creates token `id` and gives it to `caller`. Where the token would be
    /// created, the counter of `caller` must be below its largest value.
    pub fn mint(&mut self, caller: AccountId, id: TokenId) -> (r: Result<Transfer, Error>)
        requires
            old(self).wf(),
            old(self)@.refusal(Call::Mint { caller, id }) is None ==> old(self)@.balance_of(caller)
                < u32::MAX,
        ensures
            final(self).wf(),
            final(self)@ == old(self)@.step(Call::Mint { caller, id }),
            match old(self)@.refusal(Call::Mint { caller, id }) {
                Some(e) => r == Err::<Transfer, Error>(e),
                None => r == Ok::<Transfer, Error>(
                    (Transfer { from: Some(null_account()), to: Some(caller), id }),
                ),
            },
    {
        match self.add_token_to(&caller, id) {
            Ok(()) => Ok(Transfer { from: Some(AccountId::null()), to: Some(caller), id }),
            Err(e) => Err(e),
        }
    }

    /// Destroys token `id`, and its delegate with it. Only its owner can do
    /// that.
    pub fn burn(&mut self, caller: AccountId, id: TokenId) -> (r: Result<Transfer, Error>)
        requires
            old(self).wf(),
        ensures
            final(self).wf(),
            final(self)@ == old(self)@.step(Call::Burn { caller, id }),
            match old(self)@.refusal(Call::Burn { caller, id }) {
                Some(e) => r == Err::<Transfer, Error>(e),
                None => r == Ok::<Transfer, Error>(
                    (Transfer { from: Some(caller), to: Some(null_account()), id }),
                ),
            },
    {
        match rules::check_burn(&caller, self.owner_of(id)) {
            Ok(()) => {},
            Err(e) => {
                return Err(e);
            },
        }
        self.clear_approval(id);
        proof {
            self@.lemma_deregister_from_owner(caller, id);
        }
        match self.remove_token_from(&caller, id) {
            Ok(()) => Ok(Transfer { from: Some(caller), to: Some(AccountId::null()), id }),
            Err(e) => Err(e),
        }
    }
}

impl Default for Erc721 {
    /// The ledger that records nothing.
    fn default() -> (ledger: Erc721)
        ensures
            ledger.wf(),
            ledger@ == LedgerView::empty(),
    {
        Erc721::new()
    }
}

} // verus!
