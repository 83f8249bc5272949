use vstd::prelude::*;

use crate::error::LedgerError;
use crate::model::Roles;
use crate::tables::IdentitySet;

verus! {

/// The single owner identity and the set of admin identities.
pub struct AccessControl {
    owner: String,
    admins: IdentitySet,
}

impl View for AccessControl {
    type V = Roles;

    closed spec fn view(&self) -> Roles {
        Roles { owner: self.owner@, admins: self.admins@ }
    }
}

/// An owned copy of an identity.
pub(crate) fn identity(s: &str) -> (r: String)
    ensures
        r@ == s@,
{
    s.to_string()
}

impl AccessControl {
    /// Roles with `owner` as owner and no admins.
    pub fn new(owner: String) -> (r: Self)
        ensures
            r@ == Roles::fresh(owner@),
    {
        AccessControl { owner, admins: IdentitySet::new() }
    }

    /// Whether `caller` is the owner.
    pub fn is_owner(&self, caller: &str) -> (r: bool)
        ensures
            r == (caller@ == self@.owner),
    {
        self.owner == identity(caller)
    }

    /// Whether `caller` is an admin; the owner is not an admin by being owner.
    pub fn is_admin(&self, caller: &str) -> (r: bool)
        ensures
            r == self@.admins.contains(caller@),
    {
        self.admins.contains(&identity(caller))
    }

    /// Adds `new_admin` to the admins; only the owner may do so.
    pub fn add_admin(&mut self, caller: &str, new_admin: &str) -> (r: Result<(), LedgerError>)
        ensures
            (r, final(self)@) == old(self)@.add_admin_step(caller@, new_admin@),
    {
        if !self.is_owner(caller) {
            return Err(LedgerError::AuthorizationError);
        }
        self.admins.insert(identity(new_admin));
        Ok(())
    }
}

} // verus!
