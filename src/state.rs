use vstd::prelude::*;

use crate::error::ContractError;
use crate::tokens::{copy_bytes, mint, mint_spec, MintInstruction, MintModel};

verus! {

/// How the minted credit of an allocation is meant to be distributed; carried
/// along for downstream use and never read by the ledger's arithmetic.
#[derive(Clone, Copy, Debug, PartialEq, Eq, Structural)]
pub enum PolicyType {
    Balanced,
    Immediate,
}

/// The token contract that executes the ledger's mint instructions.
#[derive(Clone, Debug, PartialEq)]
pub struct ContractInfo {
    /// Code hash of the token contract.
    pub code_hash: String,
    /// Address of the token contract.
    pub address: String,
}

pub struct ContractInfoModel {
    pub code_hash: Seq<char>,
    pub address: Seq<char>,
}

impl View for ContractInfo {
    type V = ContractInfoModel;

    open spec fn view(&self) -> ContractInfoModel {
        ContractInfoModel { code_hash: self.code_hash@, address: self.address@ }
    }
}


/// The ledger's configuration record: who may change the ledger, its running
/// totals, and the token contract that mints for it.
#[derive(Clone, Debug, PartialEq)]
pub struct State {
    /// Sum of every amount ever allocated.
    pub total_cred: u128,
    /// Number of registered credentials.
    pub total_users: u64,
    /// Canonical address of the only caller allowed to change the ledger.
    pub owner: Vec<u8>,
    pub token_contract: ContractInfo,
}

pub struct ConfigModel {
    pub total_cred: nat,
    pub total_users: nat,
    pub owner: Seq<u8>,
    pub token_contract: ContractInfoModel,
}

impl View for State {
    type V = ConfigModel;

    open spec fn view(&self) -> ConfigModel {
        ConfigModel {
            total_cred: self.total_cred as nat,
            total_users: self.total_users as nat,
            owner: self.owner@,
            token_contract: self.token_contract@,
        }
    }
}

/// One recorded grant of credit to a credential. Two allocations are equal
/// when their ids are, whatever their amounts and policies.
#[derive(Clone, Debug)]
pub struct Allocation {
    pub policy: PolicyType,
    pub amount: u128,
    pub allocation_id: String,
}

pub struct AllocationModel {
    pub policy: PolicyType,
    pub amount: nat,
    pub allocation_id: Seq<char>,
}

impl View for Allocation {
    type V = AllocationModel;

    open spec fn view(&self) -> AllocationModel {
        AllocationModel {
            policy: self.policy,
            amount: self.amount as nat,
            allocation_id: self.allocation_id@,
        }
    }
}

impl PartialEq for Allocation {
    fn eq(&self, other: &Allocation) -> (r: bool)
        ensures
            r == (self.allocation_id@ == other.allocation_id@),
    {
        self.allocation_id == other.allocation_id
    }
}

impl vstd::std_specs::cmp::PartialEqSpecImpl for Allocation {
    open spec fn obeys_eq_spec() -> bool {
        true
    }

    open spec fn eq_spec(&self, other: &Allocation) -> bool {
        self.allocation_id@ == other.allocation_id@
    }
}

/// A registered credential: an external identity, where its credit is paid,
/// and every allocation made to it.
#[derive(Clone, Debug, PartialEq)]
pub struct UserCred {
    /// The identity's id at its source; also its key in the registry.
    pub cred_id: String,
    /// Canonical address that receives the credential's minted tokens.
    pub scrt_address: Vec<u8>,
    /// Sum of the amounts of `allocations`.
    pub total_allocated: u128,
    /// The allocations in the order in which they were made.
    pub allocations: Vec<Allocation>,
    pub alias: Option<String>,
}

pub struct CredModel {
    pub cred_id: Seq<char>,
    pub scrt_address: Seq<u8>,
    pub total_allocated: nat,
    pub allocations: Seq<AllocationModel>,
    pub alias: Option<Seq<char>>,
}

pub open spec fn alias_view(alias: Option<String>) -> Option<Seq<char>> {
    match alias {
        Some(a) => Some(a@),
        None => None,
    }
}

impl View for UserCred {
    type V = CredModel;

    open spec fn view(&self) -> CredModel {
        CredModel {
            cred_id: self.cred_id@,
            scrt_address: self.scrt_address@,
            total_allocated: self.total_allocated as nat,
            allocations: self.allocations@.map_values(|a: Allocation| a@),
            alias: alias_view(self.alias),
        }
    }
}

pub open spec fn slot_view(slot: Option<UserCred>) -> Option<CredModel> {
    match slot {
        Some(c) => Some(c@),
        None => None,
    }
}

/// Sum of the amounts of a sequence of allocations.
pub open spec fn sum_amounts(allocs: Seq<AllocationModel>) -> nat
    decreases allocs.len(),
{
    if allocs.len() == 0 {
        0
    } else {
        sum_amounts(allocs.drop_last()) + allocs.last().amount
    }
}

/// Whether some allocation of `allocs` has the id `id`.
pub open spec fn has_allocation(allocs: Seq<AllocationModel>, id: Seq<char>) -> bool {
    exists|i: int| 0 <= i < allocs.len() && #[trigger] allocs[i].allocation_id == id
}

/// No two allocations of `allocs` share an id.
pub open spec fn allocation_ids_unique(allocs: Seq<AllocationModel>) -> bool {
    forall|i: int, j: int|
        0 <= i < allocs.len() && 0 <= j < allocs.len() && #[trigger] allocs[i].allocation_id
            == #[trigger] allocs[j].allocation_id ==> i == j
}

impl CredModel {
    /// The credential's total is the sum of its allocations, whose ids are
    /// pairwise distinct.
    pub open spec fn wf(self) -> bool {
        &&& self.total_allocated == sum_amounts(self.allocations)
        &&& allocation_ids_unique(self.allocations)
    }
}

/// The configuration that `initialize` creates.
pub open spec fn initial_config(owner: Seq<u8>, token_contract: ContractInfoModel) -> ConfigModel {
    ConfigModel { total_cred: 0, total_users: 0, owner, token_contract }
}

/// Registration against the configuration and the registry slot of the
/// credential's id: the new configuration, the new slot, and the outcome.
/// A failed registration changes nothing.
pub open spec fn register_step(
    config: ConfigModel,
    slot: Option<CredModel>,
    sender: Seq<u8>,
    cred_id: Seq<char>,
    scrt_address: Seq<u8>,
    alias: Option<Seq<char>>,
) -> (ConfigModel, Option<CredModel>, Result<(), ContractError>) {
    if sender != config.owner {
        (config, slot, Err(ContractError::Unauthorized))
    } else if slot is Some {
        (config, slot, Err(ContractError::AlreadyExists))
    } else if config.total_users >= u64::MAX {
        (config, slot, Err(ContractError::ArithmeticOverflow))
    } else {
        (
            ConfigModel {
                total_cred: config.total_cred,
                total_users: config.total_users + 1,
                owner: config.owner,
                token_contract: config.token_contract,
            },
            Some(
                CredModel {
                    cred_id,
                    scrt_address,
                    total_allocated: 0,
                    allocations: Seq::empty(),
                    alias,
                },
            ),
            Ok(()),
        )
    }
}

/// Allocation against the configuration and the registry slot of the
/// credential's id: the new configuration, the new slot, and the mint
/// instruction or the error. A failed allocation changes nothing.
pub open spec fn allocate_step(
    config: ConfigModel,
    slot: Option<CredModel>,
    sender: Seq<u8>,
    allocation_id: Seq<char>,
    amount: nat,
    policy: PolicyType,
) -> (ConfigModel, Option<CredModel>, Result<MintModel, ContractError>) {
    if sender != config.owner {
        (config, slot, Err(ContractError::Unauthorized))
    } else {
        match slot {
            None => (config, slot, Err(ContractError::NotRegistered)),
            Some(c) => if has_allocation(c.allocations, allocation_id) {
                (config, slot, Err(ContractError::DuplicateAllocation))
            } else if config.total_cred + amount > u128::MAX || c.total_allocated + amount
                > u128::MAX {
                (config, slot, Err(ContractError::ArithmeticOverflow))
            } else {
                (
                    ConfigModel {
                        total_cred: config.total_cred + amount,
                        total_users: config.total_users,
                        owner: config.owner,
                        token_contract: config.token_contract,
                    },
                    Some(
                        CredModel {
                            cred_id: c.cred_id,
                            scrt_address: c.scrt_address,
                            total_allocated: c.total_allocated + amount,
                            allocations: c.allocations.push(
                                AllocationModel { policy, amount, allocation_id },
                            ),
                            alias: c.alias,
                        },
                    ),
                    Ok(mint_spec(config.token_contract, amount, c.scrt_address)),
                )
            },
        }
    }
}

pub open spec fn mint_result_view(r: Result<MintInstruction, ContractError>) -> Result<
    MintModel,
    ContractError,
> {
    match r {
        Ok(m) => Ok(m@),
        Err(e) => Err(e),
    }
}

/// Whether two byte strings are equal.
pub(crate) fn same_bytes(a: &Vec<u8>, b: &Vec<u8>) -> (r: bool)
    ensures
        r == (a@ == b@),
{
    if a.len() != b.len() {
        return false;
    }
    let mut i: usize = 0;
    while i < a.len()
        invariant
            a@.len() == b@.len(),
            i <= a@.len(),
            forall|k: int| 0 <= k < i ==> a@[k] == b@[k],
        decreases a@.len() - i,
    {
        if a[i] != b[i] {
            return false;
        }
        i = i + 1;
    }
    assert(a@ =~= b@);
    true
}

impl UserCred {
    /// Whether the credential holds an allocation with the id `allocation_id`.
    /// Only ids are compared.
    pub fn is_allocated(&self, allocation_id: &String) -> (r: bool)
        ensures
            r == has_allocation(self@.allocations, allocation_id@),
    {
        let ghost allocs = self@.allocations;
        let mut i: usize = 0;
        while i < self.allocations.len()
            invariant
                i <= self.allocations@.len(),
                allocs == self.allocations@.map_values(|a: Allocation| a@),
                forall|k: int| 0 <= k < i ==> allocs[k].allocation_id != allocation_id@,
            decreases self.allocations@.len() - i,
        {
            if self.allocations[i].allocation_id == *allocation_id {
                assert(allocs[i as int].allocation_id == allocation_id@);
                return true;
            }
            i = i + 1;
        }
        false
    }
}

impl State {
    /// The configuration of a new ledger: no credit, no credentials.
    pub fn new(owner: Vec<u8>, token_contract: ContractInfo) -> (r: State)
        ensures
            r@ == initial_config(owner@, token_contract@),
    {
        State { total_cred: 0, total_users: 0, owner, token_contract }
    }

    /// Registers the credential `cred_id` in its registry slot `slot`, which
    /// holds what the registry has under that id.
    pub fn register(
        &mut self,
        slot: &mut Option<UserCred>,
        sender: &Vec<u8>,
        cred_id: String,
        scrt_address: Vec<u8>,
        alias: Option<String>,
    ) -> (r: Result<(), ContractError>)
        ensures
            (final(self)@, slot_view(*final(slot)), r) == register_step(
                old(self)@,
                slot_view(*old(slot)),
                sender@,
                cred_id@,
                scrt_address@,
                alias_view(alias),
            ),
    {
        if !same_bytes(sender, &self.owner) {
            return Err(ContractError::Unauthorized);
        }
        if slot.is_some() {
            return Err(ContractError::AlreadyExists);
        }
        if self.total_users == u64::MAX {
            return Err(ContractError::ArithmeticOverflow);
        }
        self.total_users = self.total_users + 1;
        let cred = UserCred {
            cred_id,
            scrt_address,
            total_allocated: 0,
            allocations: Vec::new(),
            alias,
        };
        assert(cred@.allocations =~= Seq::<AllocationModel>::empty());
        *slot = Some(cred);
        Ok(())
    }

    /// Records an allocation of `amount` under `allocation_id` to the
    /// credential in `slot`, and returns the mint instruction that pays it.
    pub fn allocate(
        &mut self,
        slot: &mut Option<UserCred>,
        sender: &Vec<u8>,
        allocation_id: String,
        amount: u128,
        policy_type: PolicyType,
    ) -> (r: Result<MintInstruction, ContractError>)
        ensures
            (final(self)@, slot_view(*final(slot)), mint_result_view(r)) == allocate_step(
                old(self)@,
                slot_view(*old(slot)),
                sender@,
                allocation_id@,
                amount as nat,
                policy_type,
            ),
    {
        if !same_bytes(sender, &self.owner) {
            return Err(ContractError::Unauthorized);
        }
        match slot {
            None => Err(ContractError::NotRegistered),
            Some(cred) => {
                if cred.is_allocated(&allocation_id) {
                    return Err(ContractError::DuplicateAllocation);
                }
                let total_cred = match self.total_cred.checked_add(amount) {
                    Some(t) => t,
                    None => return Err(ContractError::ArithmeticOverflow),
                };
                let total_allocated = match cred.total_allocated.checked_add(amount) {
                    Some(t) => t,
                    None => return Err(ContractError::ArithmeticOverflow),
                };
                let ghost old_allocs = cred.allocations@;
                self.total_cred = total_cred;
                cred.total_allocated = total_allocated;
                let allocation = Allocation { policy: policy_type, amount, allocation_id };
                cred.allocations.push(allocation);
                assert(cred.allocations@.map_values(|a: Allocation| a@) =~= old_allocs.map_values(
                    |a: Allocation| a@,
                ).push(allocation@));
                Ok(mint(&self.token_contract, amount, &cred.scrt_address))
            },
        }
    }
}

} // verus!
