//! A multi-token balance ledger: per (holder, token kind) balances, owner and
//! admin access control over minting and ownership, self-held approvals, and a
//! reentrancy guard around the minting path.

mod access;
mod error;
mod guard;
mod laws;
mod ledger;
mod model;
mod tables;

pub use access::AccessControl;
pub use error::LedgerError;
pub use guard::ReentrancyGuard;
pub use laws::{
    add_admin_by_owner_only, mint_needs_admin, mint_overflow_changes_nothing, mints_accumulate,
    overdraft_moves_nothing, ownership_transfer_needs_owner, ownership_transfer_resets_admins,
    transfer_conserves_value, unminted_kind_holds_nothing,
};
pub use ledger::ERC1155;
pub use model::{LedgerState, Roles};
