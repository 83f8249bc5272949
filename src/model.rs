use vstd::prelude::*;

use crate::error::LedgerError;

verus! {

/// The character for a decimal digit `d` (`d < 10`).
pub open spec fn digit_char(d: nat) -> char {
    if d == 0 {
        '0'
    } else if d == 1 {
        '1'
    } else if d == 2 {
        '2'
    } else if d == 3 {
        '3'
    } else if d == 4 {
        '4'
    } else if d == 5 {
        '5'
    } else if d == 6 {
        '6'
    } else if d == 7 {
        '7'
    } else if d == 8 {
        '8'
    } else {
        '9'
    }
}

/// The decimal numeral of `n`, without sign or leading zeros.
pub open spec fn decimal_text(n: nat) -> Seq<char>
    decreases n,
{
    if n < 10 {
        seq![digit_char(n)]
    } else {
        decimal_text(n / 10).push(digit_char(n % 10))
    }
}

/// The owner and the admins of a ledger.
pub struct Roles {
    pub owner: Seq<char>,
    pub admins: Set<Seq<char>>,
}

impl Roles {
    /// The roles right after `owner` takes over: no admins.
    pub open spec fn fresh(owner: Seq<char>) -> Roles {
        Roles { owner, admins: Set::empty() }
    }

    /// Outcome of `add_admin`: only the owner may add an admin.
    pub open spec fn add_admin_step(self, caller: Seq<char>, new_admin: Seq<char>) -> (
        Result<(), LedgerError>,
        Roles,
    ) {
        if caller == self.owner {
            (Ok(()), Roles { owner: self.owner, admins: self.admins.insert(new_admin) })
        } else {
            (Err(LedgerError::AuthorizationError), self)
        }
    }
}

/// The whole observable state of a ledger.
pub struct LedgerState {
    pub roles: Roles,
    /// Amounts filed per (holder, token kind); an absent key holds zero.
    pub balances: Map<(Seq<char>, u32), u64>,
    /// (grantor, delegate) approval records; only granted ones are held.
    pub approvals: Set<(Seq<char>, Seq<char>)>,
    /// Whether the minting guard is held.
    pub locked: bool,
}

impl LedgerState {
    /// A fresh ledger owned by `owner`.
    pub open spec fn initial(owner: Seq<char>) -> LedgerState {
        LedgerState {
            roles: Roles::fresh(owner),
            balances: Map::empty(),
            approvals: Set::empty(),
            locked: false,
        }
    }

    pub open spec fn balance(self, who: Seq<char>, kind: u32) -> u64 {
        if self.balances.contains_key((who, kind)) {
            self.balances[(who, kind)]
        } else {
            0
        }
    }

    pub open spec fn is_owner(self, who: Seq<char>) -> bool {
        who == self.roles.owner
    }

    pub open spec fn is_admin(self, who: Seq<char>) -> bool {
        self.roles.admins.contains(who)
    }

    /// The transfer permission: `caller` has recorded, under its own name, an
    /// approval whose delegate is the decimal numeral of `kind`.
    pub open spec fn is_approved(self, caller: Seq<char>, kind: u32) -> bool {
        self.approvals.contains((caller, decimal_text(kind as nat)))
    }

    pub open spec fn with_balance(self, who: Seq<char>, kind: u32, amount: u64) -> LedgerState {
        LedgerState { balances: self.balances.insert((who, kind), amount), ..self }
    }

    /// Outcome of `mint`: an admin, with the guard free, adds `amount` to its
    /// own balance of `kind`, unless the sum would overflow.
    pub open spec fn mint_step(self, caller: Seq<char>, kind: u32, amount: u64) -> (
        Result<(), LedgerError>,
        LedgerState,
    ) {
        if !self.is_admin(caller) {
            (Err(LedgerError::AuthorizationError), self)
        } else if self.locked {
            (Err(LedgerError::ReentrancyError), self)
        } else if self.balance(caller, kind) + amount > u64::MAX {
            (Err(LedgerError::OverflowError), self)
        } else {
            (Ok(()), self.with_balance(caller, kind, (self.balance(caller, kind) + amount) as u64))
        }
    }

    /// Outcome of `transfer`: the owner, or a caller with the transfer
    /// permission, moves `amount` of `kind` from its own balance to `to`.
    /// The debit comes first, so a transfer to oneself leaves the balance as
    /// it was; either both sides change or neither does.
    pub open spec fn transfer_step(self, caller: Seq<char>, to: Seq<char>, kind: u32, amount: u64) -> (
        Result<(), LedgerError>,
        LedgerState,
    ) {
        if !self.is_approved(caller, kind) && !self.is_owner(caller) {
            (Err(LedgerError::AuthorizationError), self)
        } else if self.balance(caller, kind) < amount {
            (Err(LedgerError::InsufficientBalanceError), self)
        } else {
            let debited = self.with_balance(caller, kind, (self.balance(caller, kind) - amount) as u64);
            if debited.balance(to, kind) + amount > u64::MAX {
                (Err(LedgerError::OverflowError), self)
            } else {
                (Ok(()), debited.with_balance(to, kind, (debited.balance(to, kind) + amount) as u64))
            }
        }
    }

    /// Outcome of `approve`: always records `(caller, approved)`.
    pub open spec fn approve_step(self, caller: Seq<char>, approved: Seq<char>) -> (
        Result<(), LedgerError>,
        LedgerState,
    ) {
        (Ok(()), LedgerState { approvals: self.approvals.insert((caller, approved)), ..self })
    }

    /// Outcome of `add_admin` on the ledger.
    pub open spec fn add_admin_step(self, caller: Seq<char>, new_admin: Seq<char>) -> (
        Result<(), LedgerError>,
        LedgerState,
    ) {
        let (r, roles) = self.roles.add_admin_step(caller, new_admin);
        (r, LedgerState { roles, ..self })
    }

    /// Outcome of `transfer_ownership`: the owner hands over to `new_owner`,
    /// and the admin set starts empty again.
    pub open spec fn transfer_ownership_step(self, caller: Seq<char>, new_owner: Seq<char>) -> (
        Result<(), LedgerError>,
        LedgerState,
    ) {
        if self.is_owner(caller) {
            (Ok(()), LedgerState { roles: Roles::fresh(new_owner), ..self })
        } else {
            (Err(LedgerError::AuthorizationError), self)
        }
    }
}

} // verus!
