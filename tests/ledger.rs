use erc1155::{AccessControl, LedgerError, ReentrancyGuard, ERC1155};

fn ledger_with_admin(owner: &str, admin: &str) -> ERC1155 {
    let mut l = ERC1155::new(owner);
    assert_eq!(l.add_admin(owner, admin), Ok(()));
    l
}

#[test]
fn scenario_alice_bob_carol() {
    let mut l = ERC1155::new("alice");
    assert_eq!(l.add_admin("alice", "bob"), Ok(()));
    assert_eq!(l.mint("bob", 1, 100), Ok(()));
    assert_eq!(l.balance_of("bob", 1), 100);
    assert_eq!(l.mint("bob", 1, 50), Ok(()));
    assert_eq!(l.balance_of("bob", 1), 150);
    assert_eq!(l.mint("carol", 1, 10), Err(LedgerError::AuthorizationError));
    assert_eq!(l.balance_of("carol", 1), 0);
}

#[test]
fn unminted_kinds_are_zero() {
    let mut l = ledger_with_admin("alice", "bob");
    assert_eq!(l.balance_of("bob", 9), 0);
    assert_eq!(l.balance_of("", 0), 0);
    assert_eq!(l.mint("bob", 1, 5), Ok(()));
    assert_eq!(l.balance_of("bob", 2), 0);
    assert_eq!(l.balance_of("alice", 1), 0);
}

#[test]
fn non_admin_mint_is_refused() {
    let mut l = ledger_with_admin("alice", "bob");
    assert_eq!(l.mint("bob", 3, 7), Ok(()));
    // the owner is not an admin by being owner
    assert_eq!(l.mint("alice", 3, 1), Err(LedgerError::AuthorizationError));
    assert_eq!(l.mint("dave", 3, 1), Err(LedgerError::AuthorizationError));
    assert_eq!(l.balance_of("alice", 3), 0);
    assert_eq!(l.balance_of("dave", 3), 0);
    assert_eq!(l.balance_of("bob", 3), 7);
}

#[test]
fn mints_add_up() {
    let mut l = ledger_with_admin("alice", "bob");
    assert_eq!(l.mint("bob", 4, 30), Ok(()));
    assert_eq!(l.mint("bob", 4, 12), Ok(()));
    assert_eq!(l.balance_of("bob", 4), 42);
    assert_eq!(l.mint("bob", 4, 0), Ok(()));
    assert_eq!(l.balance_of("bob", 4), 42);
}

#[test]
fn mint_overflow_is_refused() {
    let mut l = ledger_with_admin("alice", "bob");
    assert_eq!(l.mint("bob", 1, u64::MAX - 1), Ok(()));
    assert_eq!(l.mint("bob", 1, 2), Err(LedgerError::OverflowError));
    assert_eq!(l.balance_of("bob", 1), u64::MAX - 1);
    assert_eq!(l.mint("bob", 1, 1), Ok(()));
    assert_eq!(l.balance_of("bob", 1), u64::MAX);
    // the guard was released on the overflow path too
    assert_eq!(l.mint("bob", 2, 1), Ok(()));
}

#[test]
fn overdraft_is_refused() {
    let mut l = ledger_with_admin("alice", "alice");
    assert_eq!(l.mint("alice", 1, 10), Ok(()));
    assert_eq!(l.transfer("alice", "bob", 1, 11), Err(LedgerError::InsufficientBalanceError));
    assert_eq!(l.balance_of("alice", 1), 10);
    assert_eq!(l.balance_of("bob", 1), 0);
}

#[test]
fn transfer_moves_and_conserves() {
    let mut l = ledger_with_admin("alice", "alice");
    assert_eq!(l.mint("alice", 5, 100), Ok(()));
    assert_eq!(l.transfer("alice", "bob", 5, 40), Ok(()));
    assert_eq!(l.balance_of("alice", 5), 60);
    assert_eq!(l.balance_of("bob", 5), 40);
    assert_eq!(l.balance_of("alice", 5) + l.balance_of("bob", 5), 100);
    assert_eq!(l.transfer("alice", "bob", 5, 60), Ok(()));
    assert_eq!(l.balance_of("alice", 5), 0);
    assert_eq!(l.balance_of("bob", 5), 100);
}

#[test]
fn transfer_to_self_keeps_balance() {
    let mut l = ledger_with_admin("alice", "alice");
    assert_eq!(l.mint("alice", 1, u64::MAX), Ok(()));
    assert_eq!(l.transfer("alice", "alice", 1, 5), Ok(()));
    assert_eq!(l.balance_of("alice", 1), u64::MAX);
}

#[test]
fn transfer_credit_overflow_changes_nothing() {
    let mut l = ERC1155::new("alice");
    assert_eq!(l.add_admin("alice", "alice"), Ok(()));
    assert_eq!(l.add_admin("alice", "bob"), Ok(()));
    assert_eq!(l.mint("bob", 1, u64::MAX), Ok(()));
    assert_eq!(l.mint("alice", 1, 3), Ok(()));
    assert_eq!(l.transfer("alice", "bob", 1, 1), Err(LedgerError::OverflowError));
    assert_eq!(l.balance_of("alice", 1), 3);
    assert_eq!(l.balance_of("bob", 1), u64::MAX);
}

#[test]
fn transfer_by_stranger_is_refused() {
    let mut l = ledger_with_admin("alice", "bob");
    assert_eq!(l.mint("bob", 1, 10), Ok(()));
    assert_eq!(l.transfer("bob", "carol", 1, 1), Err(LedgerError::AuthorizationError));
    assert_eq!(l.balance_of("bob", 1), 10);
    assert_eq!(l.balance_of("carol", 1), 0);
}

#[test]
fn approving_a_delegate_does_not_permit_transfer() {
    let mut l = ledger_with_admin("alice", "bob");
    assert_eq!(l.mint("bob", 1, 10), Ok(()));
    assert_eq!(l.approve("bob", "carol", 1), Ok(()));
    assert_eq!(l.approve("bob", "bob", 1), Ok(()));
    assert_eq!(l.transfer("bob", "carol", 1, 1), Err(LedgerError::AuthorizationError));
}

#[test]
fn approval_named_by_kind_numeral_permits_transfer() {
    let mut l = ledger_with_admin("alice", "bob");
    assert_eq!(l.mint("bob", 17, 10), Ok(()));
    assert_eq!(l.mint("bob", 7, 10), Ok(()));
    assert_eq!(l.approve("bob", "17", 0), Ok(()));
    assert_eq!(l.transfer("bob", "carol", 17, 4), Ok(()));
    assert_eq!(l.balance_of("bob", 17), 6);
    assert_eq!(l.balance_of("carol", 17), 4);
    assert_eq!(l.transfer("bob", "carol", 7, 4), Err(LedgerError::AuthorizationError));
}

#[test]
fn ownership_transfer_needs_owner() {
    let mut l = ledger_with_admin("alice", "bob");
    assert_eq!(l.transfer_ownership("bob", "bob"), Err(LedgerError::AuthorizationError));
    assert_eq!(l.mint("bob", 1, 1), Ok(()));
    assert_eq!(l.add_admin("alice", "carol"), Ok(()));
}

#[test]
fn ownership_transfer_clears_admins() {
    let mut l = ledger_with_admin("alice", "bob");
    assert_eq!(l.transfer_ownership("alice", "dave"), Ok(()));
    assert_eq!(l.mint("bob", 1, 1), Err(LedgerError::AuthorizationError));
    assert_eq!(l.add_admin("alice", "erin"), Err(LedgerError::AuthorizationError));
    assert_eq!(l.add_admin("dave", "erin"), Ok(()));
    assert_eq!(l.mint("erin", 1, 2), Ok(()));
    assert_eq!(l.balance_of("erin", 1), 2);
}

#[test]
fn add_admin_by_owner_only() {
    let mut ac = AccessControl::new("alice".to_string());
    assert!(ac.is_owner("alice"));
    assert!(!ac.is_owner("bob"));
    assert!(!ac.is_admin("alice"));
    assert_eq!(ac.add_admin("bob", "bob"), Err(LedgerError::AuthorizationError));
    assert!(!ac.is_admin("bob"));
    assert_eq!(ac.add_admin("alice", "bob"), Ok(()));
    assert!(ac.is_admin("bob"));
    assert_eq!(ac.add_admin("alice", "bob"), Ok(()));
    assert!(ac.is_admin("bob"));
    assert!(!ac.is_admin("carol"));
    assert_eq!(ac.add_admin("alice", ""), Ok(()));
    assert!(ac.is_admin(""));
}

#[test]
fn guard_rejects_reentry() {
    let mut g = ReentrancyGuard::new();
    assert_eq!(g.enter(), Ok(()));
    assert_eq!(g.enter(), Err(LedgerError::ReentrancyError));
    g.exit();
    assert_eq!(g.enter(), Ok(()));
    g.exit();
    g.exit();
    assert_eq!(g.enter(), Ok(()));
}
