//! The ledger as a mathematical value, and its operations as functions on it.

use crate::account::{null_account, AccountId};
use crate::rules::{
    approve_refusal, burn_refusal, deregister_refusal, may_grant, may_move, operator_refusal,
    register_refusal, transfer_refusal,
};
use crate::types::{Error, TokenId};
use vstd::prelude::*;

verus! {

/// A call of one of the operations that a ledger offers to its users.
pub enum Call {
    /// `caller` creates token `id` for itself.
    Mint { caller: AccountId, id: TokenId },
    /// `caller` destroys token `id`.
    Burn { caller: AccountId, id: TokenId },
    /// `caller` moves token `id` from its owner to `destination`.
    Transfer { caller: AccountId, destination: AccountId, id: TokenId },
    /// `caller` moves token `id` from `from` to `to`.
    TransferFrom { caller: AccountId, from: AccountId, to: AccountId, id: TokenId },
    /// `caller` makes `to` the delegate of token `id`.
    Approve { caller: AccountId, to: AccountId, id: TokenId },
    /// `caller` makes `to` its operator (`approved`) or takes that back.
    SetApprovalForAll { caller: AccountId, to: AccountId, approved: bool },
}

/// What a ledger records.
#[verifier::ext_equal]
pub struct LedgerView {
    /// The owner of each token that exists.
    pub owners: Map<TokenId, AccountId>,
    /// The counter of each account that has one.
    pub balances: Map<AccountId, nat>,
    /// The delegate of each token that has one.
    pub delegates: Map<TokenId, AccountId>,
    /// The pairs (owner, operator) in which the operator may act on all of
    /// the owner's tokens.
    pub operators: Set<(AccountId, AccountId)>,
}

impl LedgerView {
    /// The ledger that records nothing.
    pub open spec fn empty() -> LedgerView {
        LedgerView {
            owners: Map::empty(),
            balances: Map::empty(),
            delegates: Map::empty(),
            operators: Set::empty(),
        }
    }

    /// Whether token `id` exists, that is, has an owner.
    pub open spec fn has_token(self, id: TokenId) -> bool {
        self.owners.dom().contains(id)
    }

    /// The owner of token `id`, if the token exists.
    pub open spec fn owner_of(self, id: TokenId) -> Option<AccountId> {
        if self.owners.dom().contains(id) {
            Some(self.owners[id])
        } else {
            None
        }
    }

    /// The counter of `account`, if it has one.
    pub open spec fn counter(self, account: AccountId) -> Option<nat> {
        if self.balances.dom().contains(account) {
            Some(self.balances[account])
        } else {
            None
        }
    }

    /// The counter of `account`; zero for an account without one.
    pub open spec fn balance_of(self, account: AccountId) -> nat {
        if self.balances.dom().contains(account) {
            self.balances[account]
        } else {
            0
        }
    }

    /// The delegate of token `id`, if it has one.
    pub open spec fn delegate_of(self, id: TokenId) -> Option<AccountId> {
        if self.delegates.dom().contains(id) {
            Some(self.delegates[id])
        } else {
            None
        }
    }

    /// Whether `operator` may act on all tokens of `owner`.
    pub open spec fn is_operator(self, owner: AccountId, operator: AccountId) -> bool {
        self.operators.contains((owner, operator))
    }

    /// The tokens that `account` owns.
    pub open spec fn holdings(self, account: AccountId) -> Set<TokenId> {
        Set::new(|id: TokenId| self.owners.dom().contains(id) && self.owners[id] == account)
    }

    /// Whether `caller` is an operator of the owner of token `id`.
    pub open spec fn operator_over(self, caller: Option<AccountId>, id: TokenId) -> bool {
        match (caller, self.owner_of(id)) {
            (Some(c), Some(owner)) => self.is_operator(owner, c),
            _ => false,
        }
    }

    /// Whether `caller` may move token `id`: the token exists, the caller is
    /// not the null account, and the caller is the token's owner, its delegate
    /// or an operator of its owner. Without a caller nothing is allowed.
    pub open spec fn may_act(self, caller: Option<AccountId>, id: TokenId) -> bool {
        may_move(caller, self.owner_of(id), self.delegate_of(id), self.operator_over(caller, id))
    }

    /// Whether `caller` may name a delegate for token `id`: the token exists
    /// and the caller is its owner or an operator of its owner.
    pub open spec fn may_approve(self, caller: AccountId, id: TokenId) -> bool {
        may_grant(caller, self.owner_of(id), self.operator_over(Some(caller), id))
    }

    /// What holds of the owners and the counters of a ledger at any time: it
    /// has finitely many tokens, the counter of every account is the number of
    /// tokens that the account owns, and the null account owns nothing.
    pub open spec fn counts_inv(self) -> bool {
        &&& self.owners.dom().finite()
        &&& forall|a: AccountId| #[trigger] self.balance_of(a) == self.holdings(a).len()
        &&& forall|id: TokenId| #[trigger]
            self.owners.dom().contains(id) ==> self.owners[id] != null_account()
    }

    /// What holds of a ledger between any two operations: its owners and
    /// counters are in order, only existing tokens have a delegate, which is
    /// never the null account, and no account is its own operator.
    pub open spec fn inv(self) -> bool {
        &&& self.counts_inv()
        &&& forall|id: TokenId| #[trigger]
            self.delegates.dom().contains(id) ==> self.owners.dom().contains(id)
                && self.delegates[id] != null_account()
        &&& forall|a: AccountId| !(#[trigger] self.operators.contains((a, a)))
    }

    /// Why token `id` cannot be given to `to`, if it cannot.
    pub open spec fn register_error(self, to: AccountId, id: TokenId) -> Option<Error> {
        register_refusal(self.owner_of(id), to)
    }

    /// The ledger after token `id`, which did not exist, was given to `to`.
    pub open spec fn register(self, to: AccountId, id: TokenId) -> LedgerView {
        LedgerView {
            owners: self.owners.insert(id, to),
            balances: self.balances.insert(to, self.balance_of(to) + 1),
            ..self
        }
    }

    /// Why token `id` cannot be taken from `from`, if it cannot.
    pub open spec fn deregister_error(self, from: AccountId, id: TokenId) -> Option<Error> {
        deregister_refusal(self.owner_of(id), self.counter(from), from)
    }

    /// The ledger after token `id` was taken from its owner: the token no
    /// longer exists and the owner's counter is one less. Nothing else
    /// changes: a delegate of the token stays recorded.
    pub open spec fn deregister(self, id: TokenId) -> LedgerView {
        let owner = self.owners[id];
        LedgerView {
            owners: self.owners.remove(id),
            balances: self.balances.insert(owner, (self.balance_of(owner) - 1) as nat),
            ..self
        }
    }

    /// The ledger after token `id` lost its delegate, if it had one.
    pub open spec fn clear_delegate(self, id: TokenId) -> LedgerView {
        LedgerView { delegates: self.delegates.remove(id), ..self }
    }

    /// Why `caller` cannot move token `id` from `from` to `to`, if it cannot.
    pub open spec fn transfer_error(
        self,
        caller: AccountId,
        from: AccountId,
        to: AccountId,
        id: TokenId,
    ) -> Option<Error> {
        transfer_refusal(
            caller,
            from,
            to,
            self.owner_of(id),
            self.delegate_of(id),
            self.operator_over(Some(caller), id),
        )
    }

    /// The ledger after token `id` went from its owner to `to`.
    pub open spec fn transfer(self, to: AccountId, id: TokenId) -> LedgerView {
        self.clear_delegate(id).deregister(id).register(to, id)
    }

    /// Why `caller` cannot burn token `id`, if it cannot.
    pub open spec fn burn_error(self, caller: AccountId, id: TokenId) -> Option<Error> {
        burn_refusal(caller, self.owner_of(id))
    }

    /// The ledger after token `id` was burned: its delegate is cleared, and
    /// the token is taken from its owner.
    pub open spec fn burn(self, id: TokenId) -> LedgerView {
        self.clear_delegate(id).deregister(id)
    }

    /// Why `caller` cannot make `to` the delegate of token `id`, if it cannot.
    pub open spec fn approve_error(self, caller: AccountId, to: AccountId, id: TokenId) -> Option<
        Error,
    > {
        approve_refusal(
            caller,
            to,
            self.owner_of(id),
            self.delegate_of(id),
            self.operator_over(Some(caller), id),
        )
    }

    /// The ledger after `to` became the delegate of token `id`.
    pub open spec fn approve(self, to: AccountId, id: TokenId) -> LedgerView {
        LedgerView { delegates: self.delegates.insert(id, to), ..self }
    }

    /// Why `caller` cannot change whether `operator` is its operator, if it
    /// cannot.
    pub open spec fn operator_error(self, caller: AccountId, operator: AccountId) -> Option<Error> {
        operator_refusal(caller, operator)
    }

    /// The ledger after `owner` made `operator` its operator (`approved`) or
    /// took that back.
    pub open spec fn set_operator(
        self,
        owner: AccountId,
        operator: AccountId,
        approved: bool,
    ) -> LedgerView {
        LedgerView {
            operators: if approved {
                self.operators.insert((owner, operator))
            } else {
                self.operators.remove((owner, operator))
            },
            ..self
        }
    }

    /// Why the ledger refuses `call`, if it does.
    pub open spec fn refusal(self, call: Call) -> Option<Error> {
        match call {
            Call::Mint { caller, id } => self.register_error(caller, id),
            Call::Burn { caller, id } => self.burn_error(caller, id),
            Call::Transfer { caller, destination, id } => match self.owner_of(id) {
                Some(owner) => self.transfer_error(caller, owner, destination, id),
                None => self.transfer_error(caller, caller, destination, id),
            },
            Call::TransferFrom { caller, from, to, id } => self.transfer_error(caller, from, to, id),
            Call::Approve { caller, to, id } => self.approve_error(caller, to, id),
            Call::SetApprovalForAll { caller, to, approved } => self.operator_error(caller, to),
        }
    }

    /// The ledger after `call`: unchanged where the call is refused.
    pub open spec fn step(self, call: Call) -> LedgerView {
        if self.refusal(call) is Some {
            self
        } else {
            match call {
                Call::Mint { caller, id } => self.register(caller, id),
                Call::Burn { caller, id } => self.burn(id),
                Call::Transfer { caller, destination, id } => self.transfer(destination, id),
                Call::TransferFrom { caller, from, to, id } => self.transfer(to, id),
                Call::Approve { caller, to, id } => self.approve(to, id),
                Call::SetApprovalForAll { caller, to, approved } => self.set_operator(
                    caller,
                    to,
                    approved,
                ),
            }
        }
    }

    /// The ledger after the calls `calls` were made, in their order, on a new
    /// ledger.
    pub open spec fn run(calls: Seq<Call>) -> LedgerView
        decreases calls.len(),
    {
        if calls.len() == 0 {
            LedgerView::empty()
        } else {
            LedgerView::run(calls.drop_last()).step(calls.last())
        }
    }

    /// The tokens of an account are finitely many.
    pub proof fn lemma_holdings_finite(self, account: AccountId)
        requires
            self.owners.dom().finite(),
        ensures
            self.holdings(account).finite(),
            self.holdings(account).len() <= self.owners.dom().len(),
    {
        vstd::set_lib::lemma_len_subset(self.holdings(account), self.owners.dom());
    }

    /// A ledger with the owners and the counters of another has them in order
    /// where the other has.
    pub proof fn lemma_counts_inv_of_same_tables(self, other: LedgerView)
        requires
            self.counts_inv(),
            other.owners == self.owners,
            other.balances == self.balances,
        ensures
            other.counts_inv(),
    {
        assert forall|a: AccountId| #[trigger] other.balance_of(a) == other.holdings(a).len() by {
            assert(self.balance_of(a) == self.holdings(a).len());
            assert(other.holdings(a) =~= self.holdings(a));
        }
    }

    /// Giving out a token that did not exist keeps the ledger sound.
    pub proof fn lemma_register_inv(self, to: AccountId, id: TokenId)
        requires
            self.inv(),
            self.register_error(to, id) is None,
        ensures
            self.register(to, id).inv(),
    {
        let next = self.register(to, id);
        assert forall|a: AccountId| #[trigger] next.balance_of(a) == next.holdings(a).len() by {
            self.lemma_holdings_finite(a);
            assert(self.balance_of(a) == self.holdings(a).len());
            if a == to {
                assert(next.holdings(a) =~= self.holdings(a).insert(id));
            } else {
                assert(next.holdings(a) =~= self.holdings(a));
            }
        }
    }

    /// Taking an existing token from its owner keeps the owners and the
    /// counters in order, and the owner's counter was not zero.
    pub proof fn lemma_deregister_counts(self, id: TokenId)
        requires
            self.counts_inv(),
            self.has_token(id),
        ensures
            self.deregister(id).counts_inv(),
            self.balance_of(self.owners[id]) >= 1,
    {
        let next = self.deregister(id);
        let owner = self.owners[id];
        self.lemma_holdings_finite(owner);
        assert(self.balance_of(owner) == self.holdings(owner).len());
        assert(self.holdings(owner).contains(id));
        assert forall|a: AccountId| #[trigger] next.balance_of(a) == next.holdings(a).len() by {
            self.lemma_holdings_finite(a);
            assert(self.balance_of(a) == self.holdings(a).len());
            if a == owner {
                assert(next.holdings(a) =~= self.holdings(a).remove(id));
            } else {
                assert(next.holdings(a) =~= self.holdings(a));
            }
        }
    }

    /// Taking an existing token without a delegate from its owner keeps the
    /// ledger sound.
    pub proof fn lemma_deregister_inv(self, id: TokenId)
        requires
            self.inv(),
            self.has_token(id),
            self.delegate_of(id) is None,
        ensures
            self.deregister(id).inv(),
    {
        self.lemma_deregister_counts(id);
    }

    /// Where the owners and the counters are in order, a token can be taken
    /// from an account exactly when the account owns it.
    pub proof fn lemma_deregister_from_owner(self, from: AccountId, id: TokenId)
        requires
            self.counts_inv(),
        ensures
            self.deregister_error(from, id) is None <==> self.owner_of(id) == Some(from),
    {
        if self.owner_of(id) == Some(from) {
            self.lemma_deregister_counts(id);
        }
    }

    /// Burning an existing token keeps the ledger sound.
    pub proof fn lemma_burn_inv(self, id: TokenId)
        requires
            self.inv(),
            self.has_token(id),
        ensures
            self.burn(id).inv(),
    {
        self.lemma_clear_delegate_inv(id);
        self.clear_delegate(id).lemma_deregister_inv(id);
    }

    /// Moving a token keeps the ledger sound.
    pub proof fn lemma_transfer_inv(self, to: AccountId, id: TokenId)
        requires
            self.inv(),
            self.has_token(id),
            to != null_account(),
        ensures
            self.transfer(to, id).inv(),
    {
        self.lemma_burn_inv(id);
        self.burn(id).lemma_register_inv(to, id);
    }

    /// Naming a delegate for an existing token keeps the ledger sound.
    pub proof fn lemma_approve_inv(self, to: AccountId, id: TokenId)
        requires
            self.inv(),
            self.has_token(id),
            to != null_account(),
        ensures
            self.approve(to, id).inv(),
    {
        self.lemma_counts_inv_of_same_tables(self.approve(to, id));
    }

    /// Clearing a delegate keeps the ledger sound.
    pub proof fn lemma_clear_delegate_inv(self, id: TokenId)
        requires
            self.inv(),
        ensures
            self.clear_delegate(id).inv(),
    {
        self.lemma_counts_inv_of_same_tables(self.clear_delegate(id));
    }

    /// The ledger that records nothing is sound.
    pub proof fn lemma_empty_inv()
        ensures
            LedgerView::empty().inv(),
    {
        let ledger = LedgerView::empty();
        assert forall|a: AccountId| #[trigger] ledger.balance_of(a) == ledger.holdings(a).len() by {
            assert(ledger.holdings(a) =~= Set::<TokenId>::empty());
        }
    }

    /// Changing the operator of an account, where the account does not name
    /// itself, keeps the ledger sound.
    pub proof fn lemma_set_operator_inv(self, owner: AccountId, operator: AccountId, approved: bool)
        requires
            self.inv(),
            self.operator_error(owner, operator) is None,
        ensures
            self.set_operator(owner, operator, approved).inv(),
    {
        self.lemma_counts_inv_of_same_tables(self.set_operator(owner, operator, approved));
    }

    /// Every call keeps the ledger sound.
    pub proof fn lemma_step_inv(self, call: Call)
        requires
            self.inv(),
        ensures
            self.step(call).inv(),
    {
        if self.refusal(call) is None {
            match call {
                Call::Mint { caller, id } => {
                    self.lemma_register_inv(caller, id);
                },
                Call::Burn { caller, id } => {
                    self.lemma_burn_inv(id);
                },
                Call::Transfer { caller, destination, id } => {
                    self.lemma_transfer_inv(destination, id);
                },
                Call::TransferFrom { caller, from, to, id } => {
                    self.lemma_transfer_inv(to, id);
                },
                Call::Approve { caller, to, id } => {
                    self.lemma_approve_inv(to, id);
                },
                Call::SetApprovalForAll { caller, to, approved } => {
                    self.lemma_set_operator_inv(caller, to, approved);
                },
            }
        }
    }

    /// Whatever calls were made on a new ledger, it is sound.
    pub proof fn lemma_run_inv(calls: Seq<Call>)
        ensures
            LedgerView::run(calls).inv(),
        decreases calls.len(),
    {
        if calls.len() == 0 {
            LedgerView::lemma_empty_inv();
        } else {
            LedgerView::lemma_run_inv(calls.drop_last());
            LedgerView::run(calls.drop_last()).lemma_step_inv(calls.last());
        }
    }
}

} // verus!
