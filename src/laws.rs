use vstd::prelude::*;

use crate::error::LedgerError;
use crate::model::LedgerState;

verus! {

/// A token kind that nobody has minted holds nothing: every balance of it is
/// zero in a fresh ledger, and stays zero through every operation other than a
/// mint of that very kind.
pub proof fn unminted_kind_holds_nothing(
    s: LedgerState,
    kind: u32,
    a: Seq<char>,
    b: Seq<char>,
    other_kind: u32,
    amount: u64,
)
    requires
        forall|w: Seq<char>| s.balance(w, kind) == 0,
        other_kind != kind,
    ensures
        forall|w: Seq<char>| #[trigger] LedgerState::initial(a).balance(w, kind) == 0,
        forall|w: Seq<char>| #[trigger] s.mint_step(a, other_kind, amount).1.balance(w, kind) == 0,
        forall|w: Seq<char>| #[trigger] s.transfer_step(a, b, kind, amount).1.balance(w, kind) == 0,
        forall|w: Seq<char>|
            #[trigger] s.transfer_step(a, b, other_kind, amount).1.balance(w, kind) == 0,
        forall|w: Seq<char>| #[trigger] s.approve_step(a, b).1.balance(w, kind) == 0,
        forall|w: Seq<char>| #[trigger] s.add_admin_step(a, b).1.balance(w, kind) == 0,
        forall|w: Seq<char>| #[trigger] s.transfer_ownership_step(a, b).1.balance(w, kind) == 0,
{
    assert forall|w: Seq<char>| #[trigger] s.mint_step(a, other_kind, amount).1.balance(w, kind) == 0 by {
        assert(s.balance(w, kind) == 0);
        assert(s.balance(a, kind) == 0);
        assert(s.balance(b, kind) == 0);
    };
    assert forall|w: Seq<char>| #[trigger] s.transfer_step(a, b, kind, amount).1.balance(w, kind) == 0 by {
        assert(s.balance(w, kind) == 0);
        assert(s.balance(a, kind) == 0);
        assert(s.balance(b, kind) == 0);
    };
    assert forall|w: Seq<char>| #[trigger] s.transfer_step(a, b, other_kind, amount).1.balance(w, kind) == 0 by {
        assert(s.balance(w, kind) == 0);
        assert(s.balance(a, kind) == 0);
        assert(s.balance(b, kind) == 0);
    };
    assert forall|w: Seq<char>| #[trigger] s.approve_step(a, b).1.balance(w, kind) == 0 by {
        assert(s.balance(w, kind) == 0);
        assert(s.balance(a, kind) == 0);
        assert(s.balance(b, kind) == 0);
    };
    assert forall|w: Seq<char>| #[trigger] s.add_admin_step(a, b).1.balance(w, kind) == 0 by {
        assert(s.balance(w, kind) == 0);
        assert(s.balance(a, kind) == 0);
        assert(s.balance(b, kind) == 0);
    };
    assert forall|w: Seq<char>| #[trigger] s.transfer_ownership_step(a, b).1.balance(w, kind) == 0 by {
        assert(s.balance(w, kind) == 0);
        assert(s.balance(a, kind) == 0);
        assert(s.balance(b, kind) == 0);
    };
}

/// A mint by a caller that is not an admin fails with an authorization error
/// and changes nothing.
pub proof fn mint_needs_admin(s: LedgerState, caller: Seq<char>, kind: u32, amount: u64)
    requires
        !s.is_admin(caller),
    ensures
        s.mint_step(caller, kind, amount) == (
        Err::<(), LedgerError>(LedgerError::AuthorizationError),
        s,
        ),
{
}

/// A mint by an admin, with the guard free and no overflow, succeeds and
/// raises the caller's balance of the kind by exactly the amount, touching no
/// other balance. Two such mints add up, in either order, to the same ledger.
pub proof fn mints_accumulate(s: LedgerState, caller: Seq<char>, kind: u32, n1: u64, n2: u64)
    requires
        s.is_admin(caller),
        !s.locked,
        s.balance(caller, kind) + n1 + n2 <= u64::MAX,
    ensures
        s.mint_step(caller, kind, n1).0 == Ok::<(), LedgerError>(()),
        s.mint_step(caller, kind, n1).1.balance(caller, kind) == s.balance(caller, kind) + n1,
        forall|w: Seq<char>, k: u32|
            (w, k) != (caller, kind) ==> #[trigger] s.mint_step(caller, kind, n1).1.balance(w, k)
                == s.balance(w, k),
        s.mint_step(caller, kind, n1).1.mint_step(caller, kind, n2).0 == Ok::<(), LedgerError>(()),
        s.mint_step(caller, kind, n1).1.mint_step(caller, kind, n2).1.balance(caller, kind)
            == s.balance(caller, kind) + n1 + n2,
        s.mint_step(caller, kind, n1).1.mint_step(caller, kind, n2).1 == s.mint_step(
            caller,
            kind,
            n2,
        ).1.mint_step(caller, kind, n1).1,
{
    let once = s.mint_step(caller, kind, n1).1;
    let twice = once.mint_step(caller, kind, n2).1;
    let other = s.mint_step(caller, kind, n2).1;
    let other_twice = other.mint_step(caller, kind, n1).1;
    assert(twice.balances =~= other_twice.balances);
}

/// A mint whose sum would exceed the largest balance fails with an overflow
/// error and leaves the ledger as it was.
pub proof fn mint_overflow_changes_nothing(s: LedgerState, caller: Seq<char>, kind: u32, amount: u64)
    requires
        s.is_admin(caller),
        !s.locked,
        s.balance(caller, kind) + amount > u64::MAX,
    ensures
        s.mint_step(caller, kind, amount) == (
        Err::<(), LedgerError>(LedgerError::OverflowError),
        s,
        ),
{
}

/// A transfer of more than the caller holds fails and moves nothing; when the
/// caller is allowed to transfer at all, the error is an insufficient balance.
pub proof fn overdraft_moves_nothing(s: LedgerState, caller: Seq<char>, to: Seq<char>, kind: u32, amount: u64)
    requires
        amount > s.balance(caller, kind),
    ensures
        s.transfer_step(caller, to, kind, amount).0.is_err(),
        s.transfer_step(caller, to, kind, amount).1 == s,
        s.is_owner(caller) || s.is_approved(caller, kind) ==> s.transfer_step(caller, to, kind, amount).0
            == Err::<(), LedgerError>(LedgerError::InsufficientBalanceError),
{
}

/// A successful transfer between two distinct holders lowers the sender's
/// balance by the amount, raises the recipient's by the same, keeps their sum,
/// and touches no other balance.
pub proof fn transfer_conserves_value(s: LedgerState, a: Seq<char>, b: Seq<char>, kind: u32, n: u64)
    requires
        a != b,
        s.transfer_step(a, b, kind, n).0 is Ok,
    ensures
        s.transfer_step(a, b, kind, n).1.balance(a, kind) == s.balance(a, kind) - n,
        s.transfer_step(a, b, kind, n).1.balance(b, kind) == s.balance(b, kind) + n,
        s.transfer_step(a, b, kind, n).1.balance(a, kind) + s.transfer_step(a, b, kind, n).1.balance(
            b,
            kind,
        ) == s.balance(a, kind) + s.balance(b, kind),
        forall|w: Seq<char>, k: u32|
            (w, k) != (a, kind) && (w, k) != (b, kind) ==> #[trigger] s.transfer_step(
                a,
                b,
                kind,
                n,
            ).1.balance(w, k) == s.balance(w, k),
{
}

/// Only the owner can hand over ownership: anyone else gets an authorization
/// error and the ledger, owner and admins included, stays as it was.
pub proof fn ownership_transfer_needs_owner(s: LedgerState, caller: Seq<char>, new_owner: Seq<char>)
    requires
        !s.is_owner(caller),
    ensures
        s.transfer_ownership_step(caller, new_owner) == (
        Err::<(), LedgerError>(LedgerError::AuthorizationError),
        s,
        ),
{
}

/// When the owner hands over ownership, the new owner is the owner and nobody
/// is an admin any more, whoever was one before.
pub proof fn ownership_transfer_resets_admins(s: LedgerState, new_owner: Seq<char>, w: Seq<char>)
    ensures
        s.transfer_ownership_step(s.roles.owner, new_owner).0 == Ok::<(), LedgerError>(()),
        s.transfer_ownership_step(s.roles.owner, new_owner).1.is_owner(new_owner),
        !s.transfer_ownership_step(s.roles.owner, new_owner).1.is_admin(w),
{
}

/// Only the owner can add an admin: anyone else gets an authorization error
/// and nothing changes. When the owner adds one, it is an admin, and adding it
/// again succeeds and changes nothing more.
pub proof fn add_admin_by_owner_only(s: LedgerState, caller: Seq<char>, new_admin: Seq<char>)
    ensures
        !s.is_owner(caller) ==> s.add_admin_step(caller, new_admin) == (
        Err::<(), LedgerError>(LedgerError::AuthorizationError),
        s,
        ),
        s.is_owner(caller) ==> s.add_admin_step(caller, new_admin).0 == Ok::<(), LedgerError>(()),
        s.is_owner(caller) ==> s.add_admin_step(caller, new_admin).1.is_admin(new_admin),
        s.is_owner(caller) ==> s.add_admin_step(caller, new_admin).1.add_admin_step(caller, new_admin)
            == s.add_admin_step(caller, new_admin),
{
    if s.is_owner(caller) {
        let once = s.add_admin_step(caller, new_admin).1;
        assert(once.roles.admins.insert(new_admin) =~= once.roles.admins);
    }
}

} // verus!
