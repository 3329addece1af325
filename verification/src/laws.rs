use vstd::prelude::*;

use crate::balances::Balances;
use crate::pallet::clamped;
use crate::pallet::Pallet;
use crate::pallet::PALLET_ACCOUNT;
use crate::types::Node;

verus! {

/// Lockstep law: at any well-formed state, a participant is a member of the
/// membership ledger exactly when it holds a deposit entry, and exactly when
/// it holds a node descriptor.  Every operation requires and re-establishes
/// well-formedness, so this holds at every point of every sequence of
/// operations.
pub proof fn lemma_membership_lockstep(p: Pallet, who: u64)
    requires
        p.wf(),
    ensures
        p.is_member(who) <==> p.deposits@.contains_key(who),
        p.is_member(who) <==> p.nodes@.contains_key(who),
{
}

/// Round-trip law: registering a never-before-registered participant and
/// then deregistering it, with no reward or slash in between, restores every
/// spendable balance — the custody pool's in particular — and restores the
/// membership ledger, the deposit ledger and the node directory exactly.
pub proof fn lemma_register_deregister_round_trip(
    p0: Pallet,
    b0: Balances,
    p1: Pallet,
    b1: Balances,
    p2: Pallet,
    b2: Balances,
    who: u64,
    node: Node,
)
    requires
        p0.wf(),
        !p0.is_member(who),
        b0.can_transfer(who, PALLET_ACCOUNT, p0.deposit_amount),
        Pallet::register_transition(p0, b0, p1, b1, who, node),
        Pallet::deregister_transition(p1, b1, p2, b2, who),
    ensures
        forall|a: u64| #[trigger] b2.spec_free_balance(a) == b0.spec_free_balance(a),
        p2.accounts@ == p0.accounts@,
        p2.deposits@ == p0.deposits@,
        p2.nodes@ == p0.nodes@,
        p2.deposit_amount == p0.deposit_amount,
        p2.slash_amount == p0.slash_amount,
{
    let d = p0.deposit_amount;
    // The deposit recorded at registration is what deregistration pays back.
    assert(p1.deposits@.contains_key(who));
    assert(p1.spec_deposit_of(who) == d);
    // Membership ledger round trip.
    let s0 = p0.accounts@;
    let s1 = p1.accounts@;
    let j = s1.index_of(who);
    assert(s1[s0.len() as int] == who);
    assert(s1.contains(who));
    assert(0 <= j < s1.len() && s1[j] == who);
    if j < s0.len() {
        assert(s0[j] == who);
        assert(s0.contains(who));
    }
    assert(j == s0.len());
    assert(s1.last() == who);
    assert(s1.update(j, s1.last()) =~= s1);
    assert(s1.drop_last() =~= s0);
    // Deposit ledger and node directory round trip.
    assert(!p0.deposits@.contains_key(who));
    assert(p2.deposits@ =~= p0.deposits@);
    assert(!p0.nodes@.contains_key(who));
    assert(p2.nodes@ =~= p0.nodes@);
    // Balance ledger round trip.
    if who != PALLET_ACCOUNT {
        assert forall|a: u64| #[trigger] b2.spec_free_balance(a) == b0.spec_free_balance(a) by {
            let f0w = b0.spec_free_balance(who);
            let f0p = b0.spec_free_balance(PALLET_ACCOUNT);
            assert(b1.spec_free_balance(who) == f0w - d);
            assert(b1.spec_free_balance(PALLET_ACCOUNT) == f0p + d);
        }
    }
}

/// After a successful registration, the custody pool can always pay the
/// deposit back: the return transfer of a deregistration that follows
/// immediately, with no reward or slash in between, cannot fail.
pub proof fn lemma_deposit_return_cannot_fail(
    p0: Pallet,
    b0: Balances,
    p1: Pallet,
    b1: Balances,
    who: u64,
    node: Node,
)
    requires
        b0.can_transfer(who, PALLET_ACCOUNT, p0.deposit_amount),
        Pallet::register_transition(p0, b0, p1, b1, who, node),
    ensures
        b1.can_transfer(PALLET_ACCOUNT, who, p1.spec_deposit_of(who)),
{
    assert(p1.deposits@.contains_key(who));
    assert(p1.spec_deposit_of(who) == p0.deposit_amount);
}

/// Clamping law: a slash deducts exactly the requested value clamped to the
/// participant's deposit balance, so the balance never goes negative,
/// whatever value was requested.
pub proof fn lemma_slash_never_drives_negative(pre: Pallet, post: Pallet, who: u64, value: u64)
    requires
        Pallet::slash_transition(pre, post, who, value),
    ensures
        post.spec_deposit_of(who) == pre.spec_deposit_of(who) - clamped(
            value,
            pre.spec_deposit_of(who),
        ),
        pre.spec_deposit_of(who) - clamped(value, pre.spec_deposit_of(who)) >= 0,
        post.spec_deposit_of(who) <= pre.spec_deposit_of(who),
{
}

} // verus!
