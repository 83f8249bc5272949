use vstd::prelude::*;

use crate::access::{identity, AccessControl};
use crate::error::LedgerError;
use crate::guard::ReentrancyGuard;
use crate::model::{decimal_text, LedgerState};
use crate::tables::{ApprovalSet, BalanceTable};

verus! {

/// Relies on `u32`'s `to_string` (through `Display`), which writes the number
/// in decimal: no sign, no leading zeros.
#[verifier::external_body]
fn decimal_string(n: u32) -> (r: String)
    ensures
        r@ == decimal_text(n as nat),
{
    n.to_string()
}

/// A multi-token ledger: balances per (holder, token kind), owner and admin
/// roles, approval records and the guard around minting.
pub struct ERC1155 {
    access_control: AccessControl,
    balances: BalanceTable,
    approvals: ApprovalSet,
    reentrancy_guard: ReentrancyGuard,
}

impl View for ERC1155 {
    type V = LedgerState;

    closed spec fn view(&self) -> LedgerState {
        LedgerState {
            roles: self.access_control@,
            balances: self.balances@,
            approvals: self.approvals@,
            locked: self.reentrancy_guard@,
        }
    }
}

impl ERC1155 {
    /// The ledger's internal invariant: each balance key is held once.
    pub closed spec fn wf(&self) -> bool {
        self.balances.wf()
    }

    /// A ledger owned by `owner`, with no admins, balances or approvals.
    pub fn new(owner: &str) -> (r: ERC1155)
        ensures
            r.wf(),
            r@ == LedgerState::initial(owner@),
    {
        ERC1155 {
            access_control: AccessControl::new(identity(owner)),
            balances: BalanceTable::new(),
            approvals: ApprovalSet::new(),
            reentrancy_guard: ReentrancyGuard::new(),
        }
    }

    /// Adds `amount` of `token_id` to the caller's own balance. The caller must
    /// be an admin; the addition runs under the reentrancy guard and fails
    /// rather than wrap.
    pub fn mint(&mut self, caller: &str, token_id: u32, amount: u64) -> (r: Result<(), LedgerError>)
        requires
            old(self).wf(),
        ensures
            final(self).wf(),
            (r, final(self)@) == old(self)@.mint_step(caller@, token_id, amount),
    {
        if !self.access_control.is_admin(caller) {
            return Err(LedgerError::AuthorizationError);
        }
        match self.reentrancy_guard.enter() {
            Err(e) => {
                return Err(e);
            },
            Ok(()) => {},
        }
        let who = identity(caller);
        let balance = self.balances.get(&who, token_id);
        match balance.checked_add(amount) {
            None => {
                self.reentrancy_guard.exit();
                Err(LedgerError::OverflowError)
            },
            Some(total) => {
                self.balances.set(&who, token_id, total);
                self.reentrancy_guard.exit();
                Ok(())
            },
        }
    }

    /// Moves `amount` of `token_id` from the caller's balance to `to`. The
    /// caller must be the owner or hold the transfer permission of
    /// [`LedgerState::is_approved`]. Nothing changes unless both the debit and
    /// the credit succeed.
    pub fn transfer(&mut self, caller: &str, to: &str, token_id: u32, amount: u64) -> (r: Result<
        (),
        LedgerError,
    >)
        requires
            old(self).wf(),
        ensures
            final(self).wf(),
            (r, final(self)@) == old(self)@.transfer_step(caller@, to@, token_id, amount),
    {
        if !self.is_approved(caller, token_id) && !self.access_control.is_owner(caller) {
            return Err(LedgerError::AuthorizationError);
        }
        let from = identity(caller);
        let dest = identity(to);
        let balance = self.balances.get(&from, token_id);
        if balance < amount {
            return Err(LedgerError::InsufficientBalanceError);
        }
        let debited = balance - amount;
        let recipient = if dest == from {
            debited
        } else {
            self.balances.get(&dest, token_id)
        };
        match recipient.checked_add(amount) {
            None => Err(LedgerError::OverflowError),
            Some(credited) => {
                self.balances.set(&from, token_id, debited);
                self.balances.set(&dest, token_id, credited);
                Ok(())
            },
        }
    }

    /// Records that the caller approves `approved`. The record is not scoped to
    /// a token kind, so `_token_id` does not affect it.
    pub fn approve(&mut self, caller: &str, approved: &str, _token_id: u32) -> (r: Result<
        (),
        LedgerError,
    >)
        requires
            old(self).wf(),
        ensures
            final(self).wf(),
            (r, final(self)@) == old(self)@.approve_step(caller@, approved@),
    {
        self.approvals.insert(identity(caller), identity(approved));
        Ok(())
    }

    /// The balance of `owner` in `token_id`; zero for a pair never credited.
    pub fn balance_of(&self, owner: &str, token_id: u32) -> (r: u64)
        requires
            self.wf(),
        ensures
            r == self@.balance(owner@, token_id),
    {
        self.balances.get(&identity(owner), token_id)
    }

    /// Adds `new_admin` to the admins; only the owner may do so.
    pub fn add_admin(&mut self, caller: &str, new_admin: &str) -> (r: Result<(), LedgerError>)
        requires
            old(self).wf(),
        ensures
            final(self).wf(),
            (r, final(self)@) == old(self)@.add_admin_step(caller@, new_admin@),
    {
        self.access_control.add_admin(caller, new_admin)
    }

    /// Hands ownership to `new_owner`; only the owner may do so. The roles are
    /// replaced wholesale, so the admin set becomes empty.
    pub fn transfer_ownership(&mut self, caller: &str, new_owner: &str) -> (r: Result<
        (),
        LedgerError,
    >)
        requires
            old(self).wf(),
        ensures
            final(self).wf(),
            (r, final(self)@) == old(self)@.transfer_ownership_step(caller@, new_owner@),
    {
        if self.access_control.is_owner(caller) {
            self.access_control = AccessControl::new(identity(new_owner));
            Ok(())
        } else {
            Err(LedgerError::AuthorizationError)
        }
    }

    /// Whether `caller` has recorded, under its own name, an approval whose
    /// delegate is the decimal numeral of `token_id`.
    fn is_approved(&self, caller: &str, token_id: u32) -> (r: bool)
        ensures
            r == self@.is_approved(caller@, token_id),
    {
        self.approvals.contains(&identity(caller), &decimal_string(token_id))
    }
}

} // verus!
