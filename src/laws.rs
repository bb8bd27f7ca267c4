use vstd::prelude::*;

use crate::error::ContractError;
use crate::ledger::{
    cred_ids_unique, initial_ledger, lemma_allocate_inv, lemma_index_of, lemma_initial_inv,
    lemma_register_inv, ledger_allocate, ledger_register, sum_totals, LedgerModel,
};
use crate::state::{initial_config, sum_amounts, ContractInfoModel, PolicyType};
use crate::tokens::MintModel;

verus! {

/// `l2` keeps everything of `l` that may only grow: the credit total, the
/// user count, and each credential, at its place, with a total no smaller.
pub open spec fn grows(l: LedgerModel, l2: LedgerModel) -> bool {
    &&& l.config.total_cred <= l2.config.total_cred
    &&& l.config.total_users <= l2.config.total_users
    &&& l.creds.len() <= l2.creds.len()
    &&& forall|i: int|
        0 <= i < l.creds.len() ==> {
            &&& #[trigger] l2.creds[i].cred_id == l.creds[i].cred_id
            &&& l2.creds[i].total_allocated >= l.creds[i].total_allocated
        }
}

/// Sum consistency. A new ledger balances, each command keeps a balanced
/// ledger balanced, and in a balanced ledger the credit total is the sum of
/// the credentials' totals, each of which is the sum of that credential's own
/// allocations.
pub proof fn law_sum_consistency(
    owner: Seq<u8>,
    token_contract: ContractInfoModel,
    l: LedgerModel,
    sender: Seq<u8>,
    cred_id: Seq<char>,
    scrt_address: Seq<u8>,
    alias: Option<Seq<char>>,
    allocation_id: Seq<char>,
    amount: nat,
    policy: PolicyType,
)
    requires
        l.inv(),
    ensures
        initial_ledger(initial_config(owner, token_contract)).inv(),
        ledger_register(l, sender, cred_id, scrt_address, alias).0.inv(),
        ledger_allocate(l, sender, cred_id, allocation_id, amount, policy).0.inv(),
        l.config.total_cred == sum_totals(l.creds),
        forall|i: int|
            0 <= i < l.creds.len() ==> #[trigger] l.creds[i].total_allocated == sum_amounts(
                l.creds[i].allocations,
            ),
{
    lemma_initial_inv(initial_config(owner, token_contract));
    lemma_register_inv(l, sender, cred_id, scrt_address, alias);
    lemma_allocate_inv(l, sender, cred_id, allocation_id, amount, policy);
    assert forall|i: int| 0 <= i < l.creds.len() implies #[trigger] l.creds[i].total_allocated
        == sum_amounts(l.creds[i].allocations) by {
        assert(l.creds[i].wf());
    }
}

/// Uniqueness. No two credentials of a ledger share an id, and registering
/// an id that is already registered fails and leaves the ledger as it was.
pub proof fn law_unique_registration(
    l: LedgerModel,
    sender: Seq<u8>,
    cred_id: Seq<char>,
    scrt_address: Seq<u8>,
    alias: Option<Seq<char>>,
)
    requires
        l.inv(),
    ensures
        cred_ids_unique(l.creds),
        cred_ids_unique(ledger_register(l, sender, cred_id, scrt_address, alias).0.creds),
        l.registered(cred_id) ==> {
            &&& ledger_register(l, sender, cred_id, scrt_address, alias).0 == l
            &&& ledger_register(l, sender, cred_id, scrt_address, alias).1 is Err
        },
        l.registered(cred_id) && sender == l.config.owner ==> ledger_register(
            l,
            sender,
            cred_id,
            scrt_address,
            alias,
        ).1 == Err::<(), ContractError>(ContractError::AlreadyExists),
{
    lemma_register_inv(l, sender, cred_id, scrt_address, alias);
}

/// Allocation idempotence. Of two identical allocation commands in a row at
/// most one succeeds; when the first does, the second fails as a duplicate
/// and leaves the ledger, and so every total, as the first left it.
pub proof fn law_allocate_once(
    l: LedgerModel,
    sender: Seq<u8>,
    cred_id: Seq<char>,
    allocation_id: Seq<char>,
    amount: nat,
    policy: PolicyType,
)
    requires
        l.inv(),
    ensures
        ({
            let (l1, r1) = ledger_allocate(l, sender, cred_id, allocation_id, amount, policy);
            let (l2, r2) = ledger_allocate(l1, sender, cred_id, allocation_id, amount, policy);
            &&& !(r1 is Ok && r2 is Ok)
            &&& r1 is Ok ==> r2 == Err::<MintModel, ContractError>(
                ContractError::DuplicateAllocation,
            ) && l2 == l1
        }),
{
    let (l1, r1) = ledger_allocate(l, sender, cred_id, allocation_id, amount, policy);
    lemma_index_of(l.creds, cred_id);
    if r1 is Ok {
        let i = crate::ledger::index_of(l.creds, cred_id);
        lemma_allocate_inv(l, sender, cred_id, allocation_id, amount, policy);
        lemma_index_of(l1.creds, cred_id);
        crate::ledger::lemma_index_of_unique(l1.creds, cred_id, i);
        let allocs = l1.creds[i].allocations;
        assert(allocs[allocs.len() - 1].allocation_id == allocation_id);
    }
}

/// Authorization. Every command from a caller other than the owner fails as
/// unauthorized and changes nothing.
pub proof fn law_owner_only(
    l: LedgerModel,
    sender: Seq<u8>,
    cred_id: Seq<char>,
    scrt_address: Seq<u8>,
    alias: Option<Seq<char>>,
    allocation_id: Seq<char>,
    amount: nat,
    policy: PolicyType,
)
    requires
        sender != l.config.owner,
    ensures
        ledger_register(l, sender, cred_id, scrt_address, alias) == (
            l,
            Err::<(), ContractError>(ContractError::Unauthorized),
        ),
        ledger_allocate(l, sender, cred_id, allocation_id, amount, policy) == (
            l,
            Err::<MintModel, ContractError>(ContractError::Unauthorized),
        ),
{
}

/// Monotonicity. No command lowers the credit total, the user count, or any
/// credential's total, and none removes or moves a credential.
pub proof fn law_monotonic(
    l: LedgerModel,
    sender: Seq<u8>,
    cred_id: Seq<char>,
    scrt_address: Seq<u8>,
    alias: Option<Seq<char>>,
    allocation_id: Seq<char>,
    amount: nat,
    policy: PolicyType,
)
    ensures
        grows(l, ledger_register(l, sender, cred_id, scrt_address, alias).0),
        grows(l, ledger_allocate(l, sender, cred_id, allocation_id, amount, policy).0),
{
    lemma_index_of(l.creds, cred_id);
}

} // verus!
