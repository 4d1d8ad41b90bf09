//! The escrow's global laws, stated and proved over the mathematical model:
//! what a whole sequence of lock attempts does to the state, independent of
//! the order in which the attempts arrive.

use vstd::prelude::*;

use crate::rns_v1_badge_lockers::after_lock_admin;
use crate::rns_v1_badge_lockers::after_lock_upgrade;
use crate::rns_v1_badge_lockers::DepositV;
use crate::rns_v1_badge_lockers::EscrowV;
use crate::rns_v1_badge_lockers::ResourceId;

verus! {

/// One state-changing operation against the escrow: a lock attempt of one of
/// the two kinds. `get_lock_status` reads but never changes the state, so it
/// has no place here.
pub enum LockOp {
    Admin(DepositV),
    Upgrade(DepositV),
}

/// The state after one lock attempt of either kind, accepted or rejected.
pub open spec fn apply_op(s: EscrowV, op: LockOp) -> EscrowV {
    match op {
        LockOp::Admin(d) => after_lock_admin(s, d),
        LockOp::Upgrade(d) => after_lock_upgrade(s, d),
    }
}

/// The state after a whole sequence of lock attempts, applied first to last.
pub open spec fn apply_ops(s: EscrowV, ops: Seq<LockOp>) -> EscrowV
    decreases ops.len(),
{
    if ops.len() == 0 {
        s
    } else {
        apply_ops(apply_op(s, ops.first()), ops.drop_first())
    }
}

/// No sequence of operations ever decreases either vault's amount, and the
/// two resource identities fixed at instantiation never change.
pub proof fn lemma_no_op_decreases_holdings(s: EscrowV, ops: Seq<LockOp>)
    ensures
        apply_ops(s, ops).admin_locked >= s.admin_locked,
        apply_ops(s, ops).upgrade_locked >= s.upgrade_locked,
        apply_ops(s, ops).admin_resource == s.admin_resource,
        apply_ops(s, ops).upgrade_resource == s.upgrade_resource,
    decreases ops.len(),
{
    if ops.len() > 0 {
        lemma_no_op_decreases_holdings(apply_op(s, ops.first()), ops.drop_first());
    }
}

/// Immediately after instantiation the reported status shows zero locked for
/// both kinds and echoes the two identities supplied at construction. This is
/// the conjunction of `instantiate`'s and `get_lock_status`'s contracts,
/// written out over the fresh state they both speak of.
pub proof fn lemma_fresh_status(admin_resource: ResourceId, upgrade_resource: ResourceId)
    ensures
        crate::rns_v1_badge_lockers::fresh_escrow(admin_resource, upgrade_resource)
            == (EscrowV { admin_locked: 0, upgrade_locked: 0, admin_resource, upgrade_resource }),
{
}

/// Every deposit in the sequence targets the given resource identity.
pub open spec fn all_match(ds: Seq<DepositV>, resource: ResourceId) -> bool {
    forall|i: int| 0 <= i < ds.len() ==> (#[trigger] ds[i]).resource == resource
}

/// The combined amount of a sequence of deposits.
pub open spec fn deposits_total(ds: Seq<DepositV>) -> nat
    decreases ds.len(),
{
    if ds.len() == 0 {
        0
    } else {
        ds.first().amount + deposits_total(ds.drop_first())
    }
}

/// The state after a whole sequence of admin-kind lock attempts.
pub open spec fn lock_admin_seq(s: EscrowV, ds: Seq<DepositV>) -> EscrowV
    decreases ds.len(),
{
    if ds.len() == 0 {
        s
    } else {
        lock_admin_seq(after_lock_admin(s, ds.first()), ds.drop_first())
    }
}

/// The state after a whole sequence of upgrade-kind lock attempts.
pub open spec fn lock_upgrade_seq(s: EscrowV, ds: Seq<DepositV>) -> EscrowV
    decreases ds.len(),
{
    if ds.len() == 0 {
        s
    } else {
        lock_upgrade_seq(after_lock_upgrade(s, ds.first()), ds.drop_first())
    }
}

/// A sequence of valid admin-kind deposits adds exactly the sum of its
/// amounts to the admin vault and touches nothing else.
pub proof fn lemma_admin_deposits_accumulate(s: EscrowV, ds: Seq<DepositV>)
    requires
        all_match(ds, s.admin_resource),
    ensures
        lock_admin_seq(s, ds).admin_locked == s.admin_locked + deposits_total(ds),
        lock_admin_seq(s, ds).upgrade_locked == s.upgrade_locked,
        lock_admin_seq(s, ds).admin_resource == s.admin_resource,
        lock_admin_seq(s, ds).upgrade_resource == s.upgrade_resource,
    decreases ds.len(),
{
    if ds.len() > 0 {
        let s1 = after_lock_admin(s, ds.first());
        assert(all_match(ds.drop_first(), s1.admin_resource)) by {
            assert(forall|i: int|
                0 <= i < ds.drop_first().len() ==> ds.drop_first()[i] == ds[i + 1]);
        }
        lemma_admin_deposits_accumulate(s1, ds.drop_first());
    }
}

/// A sequence of valid upgrade-kind deposits adds exactly the sum of its
/// amounts to the upgrade vault and touches nothing else.
pub proof fn lemma_upgrade_deposits_accumulate(s: EscrowV, ds: Seq<DepositV>)
    requires
        all_match(ds, s.upgrade_resource),
    ensures
        lock_upgrade_seq(s, ds).upgrade_locked == s.upgrade_locked + deposits_total(ds),
        lock_upgrade_seq(s, ds).admin_locked == s.admin_locked,
        lock_upgrade_seq(s, ds).admin_resource == s.admin_resource,
        lock_upgrade_seq(s, ds).upgrade_resource == s.upgrade_resource,
    decreases ds.len(),
{
    if ds.len() > 0 {
        let s1 = after_lock_upgrade(s, ds.first());
        assert(all_match(ds.drop_first(), s1.upgrade_resource)) by {
            assert(forall|i: int|
                0 <= i < ds.drop_first().len() ==> ds.drop_first()[i] == ds[i + 1]);
        }
        lemma_upgrade_deposits_accumulate(s1, ds.drop_first());
    }
}

/// Removing one deposit from a sequence removes exactly its amount from the
/// combined total.
proof fn lemma_deposits_total_remove(ds: Seq<DepositV>, i: int)
    requires
        0 <= i < ds.len(),
    ensures
        deposits_total(ds) == ds[i].amount + deposits_total(ds.remove(i)),
    decreases i,
{
    if i == 0 {
        assert(ds.remove(0) =~= ds.drop_first());
    } else {
        lemma_deposits_total_remove(ds.drop_first(), i - 1);
        assert(ds.remove(i).drop_first() =~= ds.drop_first().remove(i - 1));
        assert(ds.remove(i).first() == ds.first());
    }
}

/// Two sequences that hold the same deposits, in whatever order, have the
/// same combined amount.
pub proof fn lemma_deposits_total_permutation(ds1: Seq<DepositV>, ds2: Seq<DepositV>)
    requires
        ds1.to_multiset() == ds2.to_multiset(),
    ensures
        deposits_total(ds1) == deposits_total(ds2),
    decreases ds1.len(),
{
    broadcast use vstd::seq_lib::group_to_multiset_ensures;

    if ds1.len() == 0 {
        assert(ds2.len() == ds2.to_multiset().len());
    } else {
        let d = ds1.first();
        assert(ds1.contains(d));
        assert(ds1.to_multiset().count(d) > 0);
        assert(ds2.contains(d));
        let i = ds2.index_of(d);
        lemma_deposits_total_remove(ds2, i);
        assert(ds1.remove(0) =~= ds1.drop_first());
        assert(ds1.drop_first().to_multiset() == ds1.to_multiset().remove(d));
        assert(ds2.remove(i).to_multiset() == ds2.to_multiset().remove(d));
        lemma_deposits_total_permutation(ds1.drop_first(), ds2.remove(i));
    }
}

/// Valid admin-kind deposits may arrive in any order: two sequences that hold
/// the same deposits drive the escrow to the same state.
pub proof fn lemma_admin_deposit_order_irrelevant(
    s: EscrowV,
    ds1: Seq<DepositV>,
    ds2: Seq<DepositV>,
)
    requires
        all_match(ds1, s.admin_resource),
        ds1.to_multiset() == ds2.to_multiset(),
    ensures
        lock_admin_seq(s, ds1) == lock_admin_seq(s, ds2),
{
    broadcast use vstd::seq_lib::group_to_multiset_ensures;

    assert forall|i: int| 0 <= i < ds2.len() implies (#[trigger] ds2[i]).resource
        == s.admin_resource by {
        let d = ds2[i];
        assert(ds2.contains(d));
        assert(ds2.to_multiset().count(d) > 0);
        assert(ds1.contains(d));
        let j = ds1.index_of(d);
        assert(ds1[j].resource == s.admin_resource);
    }
    lemma_deposits_total_permutation(ds1, ds2);
    lemma_admin_deposits_accumulate(s, ds1);
    lemma_admin_deposits_accumulate(s, ds2);
}

/// Valid upgrade-kind deposits may arrive in any order: two sequences that
/// hold the same deposits drive the escrow to the same state.
pub proof fn lemma_upgrade_deposit_order_irrelevant(
    s: EscrowV,
    ds1: Seq<DepositV>,
    ds2: Seq<DepositV>,
)
    requires
        all_match(ds1, s.upgrade_resource),
        ds1.to_multiset() == ds2.to_multiset(),
    ensures
        lock_upgrade_seq(s, ds1) == lock_upgrade_seq(s, ds2),
{
    broadcast use vstd::seq_lib::group_to_multiset_ensures;

    assert forall|i: int| 0 <= i < ds2.len() implies (#[trigger] ds2[i]).resource
        == s.upgrade_resource by {
        let d = ds2[i];
        assert(ds2.contains(d));
        assert(ds2.to_multiset().count(d) > 0);
        assert(ds1.contains(d));
        let j = ds1.index_of(d);
        assert(ds1[j].resource == s.upgrade_resource);
    }
    lemma_deposits_total_permutation(ds1, ds2);
    lemma_upgrade_deposits_accumulate(s, ds1);
    lemma_upgrade_deposits_accumulate(s, ds2);
}

} // verus!
