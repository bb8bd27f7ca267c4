use vstd::prelude::*;

use crate::error::ContractError;
use crate::state::{
    allocate_step, register_step, sum_amounts, ConfigModel, CredModel, PolicyType,
};
use crate::tokens::MintModel;

verus! {

/// A whole ledger as plain values: its configuration and its credentials in
/// the order in which they were registered.
pub struct LedgerModel {
    pub config: ConfigModel,
    pub creds: Seq<CredModel>,
}

/// Position of the last credential of `creds` with the id `id`, or -1.
pub open spec fn index_of(creds: Seq<CredModel>, id: Seq<char>) -> int
    decreases creds.len(),
{
    if creds.len() == 0 {
        -1
    } else if creds.last().cred_id == id {
        creds.len() - 1
    } else {
        index_of(creds.drop_last(), id)
    }
}

/// What the registry holds under the id `id`.
pub open spec fn lookup(creds: Seq<CredModel>, id: Seq<char>) -> Option<CredModel> {
    let i = index_of(creds, id);
    if i >= 0 {
        Some(creds[i])
    } else {
        None
    }
}

/// The registry after writing `slot` under the id `id`: a credential already
/// there is replaced in place, a new one goes at the end.
pub open spec fn store(creds: Seq<CredModel>, id: Seq<char>, slot: Option<CredModel>) -> Seq<
    CredModel,
> {
    let i = index_of(creds, id);
    match slot {
        None => creds,
        Some(c) => if i >= 0 {
            creds.update(i, c)
        } else {
            creds.push(c)
        },
    }
}

/// Sum of the totals of a sequence of credentials.
pub open spec fn sum_totals(creds: Seq<CredModel>) -> nat
    decreases creds.len(),
{
    if creds.len() == 0 {
        0
    } else {
        sum_totals(creds.drop_last()) + creds.last().total_allocated
    }
}

/// No two credentials share an id.
pub open spec fn cred_ids_unique(creds: Seq<CredModel>) -> bool {
    forall|i: int, j: int|
        0 <= i < creds.len() && 0 <= j < creds.len() && #[trigger] creds[i].cred_id
            == #[trigger] creds[j].cred_id ==> i == j
}

impl LedgerModel {
    /// What holds of every ledger that commands can reach: ids are unique,
    /// each credential's total is the sum of its allocations, the credit
    /// total is the sum of the credentials' totals, and the user count is the
    /// number of credentials.
    pub open spec fn inv(self) -> bool {
        &&& cred_ids_unique(self.creds)
        &&& forall|i: int| 0 <= i < self.creds.len() ==> #[trigger] self.creds[i].wf()
        &&& self.config.total_cred == sum_totals(self.creds)
        &&& self.config.total_users == self.creds.len()
    }

    pub open spec fn registered(self, id: Seq<char>) -> bool {
        index_of(self.creds, id) >= 0
    }
}

/// The ledger right after initialization.
pub open spec fn initial_ledger(config: ConfigModel) -> LedgerModel {
    LedgerModel { config, creds: Seq::empty() }
}

/// `register` on a whole ledger. The registry is written only on success.
pub open spec fn ledger_register(
    l: LedgerModel,
    sender: Seq<u8>,
    cred_id: Seq<char>,
    scrt_address: Seq<u8>,
    alias: Option<Seq<char>>,
) -> (LedgerModel, Result<(), ContractError>) {
    let (config, slot, r) = register_step(
        l.config,
        lookup(l.creds, cred_id),
        sender,
        cred_id,
        scrt_address,
        alias,
    );
    if r is Ok {
        (LedgerModel { config, creds: store(l.creds, cred_id, slot) }, r)
    } else {
        (l, r)
    }
}

/// `allocate` on a whole ledger. The registry is written only on success.
pub open spec fn ledger_allocate(
    l: LedgerModel,
    sender: Seq<u8>,
    cred_id: Seq<char>,
    allocation_id: Seq<char>,
    amount: nat,
    policy: PolicyType,
) -> (LedgerModel, Result<MintModel, ContractError>) {
    let (config, slot, r) = allocate_step(
        l.config,
        lookup(l.creds, cred_id),
        sender,
        allocation_id,
        amount,
        policy,
    );
    if r is Ok {
        (LedgerModel { config, creds: store(l.creds, cred_id, slot) }, r)
    } else {
        (l, r)
    }
}

pub proof fn lemma_index_of(creds: Seq<CredModel>, id: Seq<char>)
    ensures
        -1 <= index_of(creds, id) < creds.len(),
        index_of(creds, id) >= 0 ==> creds[index_of(creds, id)].cred_id == id,
        index_of(creds, id) == -1 <==> forall|k: int|
            0 <= k < creds.len() ==> #[trigger] creds[k].cred_id != id,
    decreases creds.len(),
{
    if creds.len() > 0 {
        let prefix = creds.drop_last();
        lemma_index_of(prefix, id);
        if creds.last().cred_id != id {
            assert forall|k: int| 0 <= k < prefix.len() implies #[trigger] creds[k] == prefix[k] by {}
            if index_of(prefix, id) == -1 {
                assert forall|k: int| 0 <= k < creds.len() implies #[trigger] creds[k].cred_id
                    != id by {
                    if k < prefix.len() {
                        assert(prefix[k].cred_id != id);
                    }
                }
            } else {
                let j = index_of(prefix, id);
                assert(creds[j].cred_id == id);
            }
        }
    }
}

/// With unique ids, any credential with the id `id` stands where `index_of`
/// says.
pub proof fn lemma_index_of_unique(creds: Seq<CredModel>, id: Seq<char>, k: int)
    requires
        cred_ids_unique(creds),
        0 <= k < creds.len(),
        creds[k].cred_id == id,
    ensures
        index_of(creds, id) == k,
{
    lemma_index_of(creds, id);
}

pub proof fn lemma_sum_totals_push(creds: Seq<CredModel>, c: CredModel)
    ensures
        sum_totals(creds.push(c)) == sum_totals(creds) + c.total_allocated,
{
    assert(creds.push(c).drop_last() =~= creds);
}

pub proof fn lemma_sum_totals_update(creds: Seq<CredModel>, i: int, c: CredModel)
    requires
        0 <= i < creds.len(),
    ensures
        sum_totals(creds.update(i, c)) + creds[i].total_allocated == sum_totals(creds)
            + c.total_allocated,
    decreases creds.len(),
{
    let u = creds.update(i, c);
    if i == creds.len() - 1 {
        assert(u.drop_last() =~= creds.drop_last());
    } else {
        lemma_sum_totals_update(creds.drop_last(), i, c);
        assert(u.drop_last() =~= creds.drop_last().update(i, c));
    }
}

pub proof fn lemma_sum_amounts_push(
    allocs: Seq<crate::state::AllocationModel>,
    a: crate::state::AllocationModel,
)
    ensures
        sum_amounts(allocs.push(a)) == sum_amounts(allocs) + a.amount,
{
    assert(allocs.push(a).drop_last() =~= allocs);
}

/// The ledger created by initialization satisfies the invariant.
pub proof fn lemma_initial_inv(config: ConfigModel)
    requires
        config.total_cred == 0,
        config.total_users == 0,
    ensures
        initial_ledger(config).inv(),
{
}

/// Registration keeps the invariant.
pub proof fn lemma_register_inv(
    l: LedgerModel,
    sender: Seq<u8>,
    cred_id: Seq<char>,
    scrt_address: Seq<u8>,
    alias: Option<Seq<char>>,
)
    requires
        l.inv(),
    ensures
        ledger_register(l, sender, cred_id, scrt_address, alias).0.inv(),
{
    let (l2, r) = ledger_register(l, sender, cred_id, scrt_address, alias);
    if r is Ok {
        lemma_index_of(l.creds, cred_id);
        let c = CredModel {
            cred_id,
            scrt_address,
            total_allocated: 0,
            allocations: Seq::empty(),
            alias,
        };
        assert(l2.creds == l.creds.push(c));
        lemma_sum_totals_push(l.creds, c);
        assert(c.wf());
        assert forall|i: int| 0 <= i < l2.creds.len() implies #[trigger] l2.creds[i].wf() by {
            if i < l.creds.len() {
                assert(l2.creds[i] == l.creds[i]);
            }
        }
        assert(cred_ids_unique(l2.creds));
    }
}

/// Allocation keeps the invariant.
pub proof fn lemma_allocate_inv(
    l: LedgerModel,
    sender: Seq<u8>,
    cred_id: Seq<char>,
    allocation_id: Seq<char>,
    amount: nat,
    policy: PolicyType,
)
    requires
        l.inv(),
    ensures
        ledger_allocate(l, sender, cred_id, allocation_id, amount, policy).0.inv(),
{
    let (l2, r) = ledger_allocate(l, sender, cred_id, allocation_id, amount, policy);
    if r is Ok {
        lemma_index_of(l.creds, cred_id);
        let i = index_of(l.creds, cred_id);
        let old_c = l.creds[i];
        let a = crate::state::AllocationModel { policy, amount, allocation_id };
        let c = CredModel {
            cred_id: old_c.cred_id,
            scrt_address: old_c.scrt_address,
            total_allocated: old_c.total_allocated + amount,
            allocations: old_c.allocations.push(a),
            alias: old_c.alias,
        };
        assert(l2.creds == l.creds.update(i, c));
        lemma_sum_totals_update(l.creds, i, c);
        lemma_sum_amounts_push(old_c.allocations, a);
        assert(old_c.wf());
        assert(crate::state::allocation_ids_unique(c.allocations)) by {
            assert forall|p: int, q: int|
                0 <= p < c.allocations.len() && 0 <= q < c.allocations.len()
                    && #[trigger] c.allocations[p].allocation_id
                    == #[trigger] c.allocations[q].allocation_id implies p == q by {
                if p < old_c.allocations.len() && q == old_c.allocations.len() {
                    assert(old_c.allocations[p].allocation_id == allocation_id);
                }
                if q < old_c.allocations.len() && p == old_c.allocations.len() {
                    assert(old_c.allocations[q].allocation_id == allocation_id);
                }
            }
        }
        assert(c.wf());
        assert forall|k: int| 0 <= k < l2.creds.len() implies #[trigger] l2.creds[k].wf() by {
            if k != i {
                assert(l2.creds[k] == l.creds[k]);
            }
        }
        assert(cred_ids_unique(l2.creds)) by {
            assert forall|p: int, q: int|
                0 <= p < l2.creds.len() && 0 <= q < l2.creds.len() && #[trigger] l2.creds[p].cred_id
                    == #[trigger] l2.creds[q].cred_id implies p == q by {
                assert(l2.creds[p].cred_id == l.creds[p].cred_id);
                assert(l2.creds[q].cred_id == l.creds[q].cred_id);
            }
        }
    }
}

} // verus!
