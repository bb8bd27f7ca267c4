use vstd::prelude::*;

use crate::error::ContractError;
use crate::ledger::{
    cred_ids_unique, index_of, initial_ledger, lemma_allocate_inv, lemma_index_of, lemma_index_of_unique,
    lemma_initial_inv, lemma_register_inv, ledger_allocate, ledger_register, lookup, LedgerModel,
};
use crate::msg::{
    CredAllocatedResponse, CredRegisteredResponse, HandleMsg, HandleResponse, InitMsg, QueryMsg,
    QueryResponse, TotalAllocatedResponse, UserCredResponse,
};
use crate::state::{
    alias_view, has_allocation, initial_config, ContractInfo, PolicyType, State, UserCred,
};
use crate::tokens::{copy_bytes, MintModel};

verus! {

/// One ledger instance: its configuration record and its registry of
/// credentials. Only the functions of this module change it.
pub struct Ledger {
    state: State,
    creds: Vec<UserCred>,
}

impl View for Ledger {
    type V = LedgerModel;

    closed spec fn view(&self) -> LedgerModel {
        LedgerModel { config: self.state@, creds: self.creds@.map_values(|c: UserCred| c@) }
    }
}

impl Ledger {
    /// Holds of every ledger that `init` and the commands produce.
    pub open spec fn wf(&self) -> bool {
        self@.inv()
    }

    /// Position of the credential `id` in the registry.
    fn find(&self, id: &String) -> (r: Option<usize>)
        requires
            self.wf(),
        ensures
            match r {
                Some(i) => i < self.creds@.len() && i as int == index_of(self@.creds, id@)
                    && self@.creds[i as int] == self.creds@[i as int]@,
                None => index_of(self@.creds, id@) == -1,
            },
    {
        let ghost creds = self@.creds;
        proof {
            lemma_index_of(creds, id@);
        }
        let mut i: usize = 0;
        while i < self.creds.len()
            invariant
                i <= self.creds@.len(),
                creds == self.creds@.map_values(|c: UserCred| c@),
                cred_ids_unique(creds),
                forall|k: int| 0 <= k < i ==> #[trigger] creds[k].cred_id != id@,
            decreases self.creds@.len() - i,
        {
            if self.creds[i].cred_id == *id {
                proof {
                    lemma_index_of_unique(creds, id@, i as int);
                }
                return Some(i);
            }
            i = i + 1;
        }
        None
    }
}

/// What a command's result says as plain values: the mint instructions on
/// success, or the error.
pub open spec fn handle_result_view(r: Result<HandleResponse, ContractError>) -> Result<
    Seq<MintModel>,
    ContractError,
> {
    match r {
        Ok(h) => Ok(h@),
        Err(e) => Err(e),
    }
}

/// A registration hands back no mint instruction.
pub open spec fn register_result(r: Result<(), ContractError>) -> Result<Seq<MintModel>, ContractError> {
    match r {
        Ok(()) => Ok(Seq::empty()),
        Err(e) => Err(e),
    }
}

/// An allocation hands back exactly one mint instruction.
pub open spec fn allocate_result(r: Result<MintModel, ContractError>) -> Result<
    Seq<MintModel>,
    ContractError,
> {
    match r {
        Ok(m) => Ok(seq![m]),
        Err(e) => Err(e),
    }
}

/// Creates a ledger owned by `sender` (a canonical address), with no
/// credentials and no credit.
pub fn init(sender: Vec<u8>, msg: InitMsg) -> (r: Ledger)
    ensures
        r@ == initial_ledger(initial_config(sender@, msg.token_contract@)),
        r.wf(),
{
    let state = State::new(sender, msg.token_contract);
    let r = Ledger { state, creds: Vec::new() };
    assert(r@.creds =~= Seq::empty());
    proof {
        lemma_initial_inv(r@.config);
    }
    r
}

/// Registers the credential `cred_id`, paid to the canonical address
/// `scrt_address`, on behalf of `sender`.
pub fn try_register_user(
    deps: &mut Ledger,
    sender: &Vec<u8>,
    cred_id: String,
    scrt_address: Vec<u8>,
    alias: Option<String>,
) -> (r: Result<HandleResponse, ContractError>)
    requires
        old(deps).wf(),
    ensures
        final(deps).wf(),
        final(deps)@ == ledger_register(
            old(deps)@,
            sender@,
            cred_id@,
            scrt_address@,
            alias_view(alias),
        ).0,
        handle_result_view(r) == register_result(
            ledger_register(old(deps)@, sender@, cred_id@, scrt_address@, alias_view(alias)).1,
        ),
{
    let ghost l = deps@;
    let ghost id = cred_id@;
    proof {
        lemma_register_inv(l, sender@, id, scrt_address@, alias_view(alias));
        lemma_index_of(l.creds, id);
    }
    let found = deps.find(&cred_id);
    let r = match found {
        Some(i) => {
            let mut slot = Some(deps.creds.remove(i));
            let r = deps.state.register(&mut slot, sender, cred_id, scrt_address, alias);
            if let Some(c) = slot {
                deps.creds.insert(i, c);
                assert(deps@.creds =~= l.creds.update(i as int, c@));
            }
            r
        },
        None => {
            let mut slot: Option<UserCred> = None;
            let r = deps.state.register(&mut slot, sender, cred_id, scrt_address, alias);
            if let Some(c) = slot {
                deps.creds.push(c);
                assert(deps@.creds =~= l.creds.push(c@));
            }
            r
        },
    };
    assert(deps@.creds =~= ledger_register(l, sender@, id, scrt_address@, alias_view(alias)).0.creds);
    match r {
        Ok(()) => {
            let messages = Vec::new();
            let resp = HandleResponse { messages };
            assert(resp@ =~= Seq::empty());
            Ok(resp)
        },
        Err(e) => Err(e),
    }
}


/// Records an allocation of `amount` under `allocation_id` to the credential
/// `cred_id` on behalf of `sender`, and hands back the mint instruction that
/// pays it.
pub fn try_allocate(
    deps: &mut Ledger,
    sender: &Vec<u8>,
    cred_id: String,
    allocation_id: String,
    amount: u128,
    policy_type: PolicyType,
) -> (r: Result<HandleResponse, ContractError>)
    requires
        old(deps).wf(),
    ensures
        final(deps).wf(),
        final(deps)@ == ledger_allocate(
            old(deps)@,
            sender@,
            cred_id@,
            allocation_id@,
            amount as nat,
            policy_type,
        ).0,
        handle_result_view(r) == allocate_result(
            ledger_allocate(
                old(deps)@,
                sender@,
                cred_id@,
                allocation_id@,
                amount as nat,
                policy_type,
            ).1,
        ),
{
    let ghost l = deps@;
    let ghost id = cred_id@;
    let ghost aid = allocation_id@;
    proof {
        lemma_allocate_inv(l, sender@, id, aid, amount as nat, policy_type);
        lemma_index_of(l.creds, id);
    }
    let found = deps.find(&cred_id);
    let r = match found {
        Some(i) => {
            let mut slot = Some(deps.creds.remove(i));
            let r = deps.state.allocate(&mut slot, sender, allocation_id, amount, policy_type);
            if let Some(c) = slot {
                deps.creds.insert(i, c);
                assert(deps@.creds =~= l.creds.update(i as int, c@));
            }
            r
        },
        None => {
            let mut slot: Option<UserCred> = None;
            deps.state.allocate(&mut slot, sender, allocation_id, amount, policy_type)
        },
    };
    assert(deps@.creds =~= ledger_allocate(
        l,
        sender@,
        id,
        aid,
        amount as nat,
        policy_type,
    ).0.creds);
    match r {
        Ok(m) => {
            let mut messages = Vec::new();
            messages.push(m);
            let resp = HandleResponse { messages };
            assert(resp@ =~= seq![m@]);
            Ok(resp)
        },
        Err(e) => Err(e),
    }
}

/// What `handle` does with `msg`: the ledger after it and the result.
pub open spec fn handle_spec(
    l: LedgerModel,
    sender: Seq<u8>,
    msg: HandleMsg,
    l2: LedgerModel,
    r: Result<HandleResponse, ContractError>,
) -> bool {
    match msg {
        HandleMsg::Allocate { allocation_id, amount, cred_id, policy_type } => {
            let (next, out) = ledger_allocate(
                l,
                sender,
                cred_id@,
                allocation_id@,
                amount as nat,
                policy_type,
            );
            l2 == next && handle_result_view(r) == allocate_result(out)
        },
        HandleMsg::RegisterUser { cred_id, scrt_address, alias } => {
            let (next, out) = ledger_register(l, sender, cred_id@, scrt_address@, alias_view(alias));
            l2 == next && handle_result_view(r) == register_result(out)
        },
    }
}

/// Carries out the command `msg` on behalf of `sender`.
pub fn handle(deps: &mut Ledger, sender: &Vec<u8>, msg: HandleMsg) -> (r: Result<
    HandleResponse,
    ContractError,
>)
    requires
        old(deps).wf(),
    ensures
        final(deps).wf(),
        handle_spec(old(deps)@, sender@, msg, final(deps)@, r),
{
    match msg {
        HandleMsg::Allocate { cred_id, allocation_id, amount, policy_type } => try_allocate(
            deps,
            sender,
            cred_id,
            allocation_id,
            amount,
            policy_type,
        ),
        HandleMsg::RegisterUser { cred_id, scrt_address, alias } => try_register_user(
            deps,
            sender,
            cred_id,
            scrt_address,
            alias,
        ),
    }
}

/// A copy of a configuration record.
pub fn copy_state(s: &State) -> (r: State)
    ensures
        r@ == s@,
{
    State {
        total_cred: s.total_cred,
        total_users: s.total_users,
        owner: copy_bytes(&s.owner),
        token_contract: ContractInfo {
            code_hash: s.token_contract.code_hash.clone(),
            address: s.token_contract.address.clone(),
        },
    }
}

/// The registry slot of the credential `id`.
fn slot_of<'a>(deps: &'a Ledger, id: &String) -> (r: Option<&'a UserCred>)
    requires
        deps.wf(),
    ensures
        match r {
            Some(c) => lookup(deps@.creds, id@) == Some(c@),
            None => lookup(deps@.creds, id@) is None,
        },
{
    match deps.find(id) {
        Some(i) => Some(&deps.creds[i]),
        None => None,
    }
}

/// The total of the credential in `slot`; fails if the slot is empty.
pub fn total_allocated_of(slot: Option<&UserCred>) -> (r: Result<TotalAllocatedResponse, ContractError>)
    ensures
        match slot {
            Some(c) => r == Ok::<TotalAllocatedResponse, ContractError>(
                TotalAllocatedResponse { total_allocated: c.total_allocated },
            ),
            None => r == Err::<TotalAllocatedResponse, ContractError>(ContractError::NotRegistered),
        },
{
    match slot {
        Some(c) => Ok(TotalAllocatedResponse { total_allocated: c.total_allocated }),
        None => Err(ContractError::NotRegistered),
    }
}

/// Whether the credential in `slot` holds an allocation with the id
/// `allocation_id`; fails if the slot is empty.
pub fn allocated_in(slot: Option<&UserCred>, allocation_id: &String) -> (r: Result<
    CredAllocatedResponse,
    ContractError,
>)
    ensures
        match slot {
            Some(c) => r == Ok::<CredAllocatedResponse, ContractError>(
                CredAllocatedResponse {
                    allocated: has_allocation(c@.allocations, allocation_id@),
                },
            ),
            None => r == Err::<CredAllocatedResponse, ContractError>(ContractError::NotRegistered),
        },
{
    match slot {
        Some(c) => Ok(CredAllocatedResponse { allocated: c.is_allocated(allocation_id) }),
        None => Err(ContractError::NotRegistered),
    }
}

/// The payout address and total of the credential in `slot`; fails if the
/// slot is empty.
pub fn user_cred_of(slot: Option<&UserCred>) -> (r: Result<UserCredResponse, ContractError>)
    ensures
        match slot {
            Some(c) => r matches Ok(u) && u.scrt_address@ == c.scrt_address@ && u.total_allocated
                == c.total_allocated,
            None => r == Err::<UserCredResponse, ContractError>(ContractError::NotRegistered),
        },
{
    match slot {
        Some(c) => Ok(
            UserCredResponse {
                scrt_address: copy_bytes(&c.scrt_address),
                total_allocated: c.total_allocated,
            },
        ),
        None => Err(ContractError::NotRegistered),
    }
}

/// Whether the credential `id` is registered. Never fails.
pub fn query_user_registered(deps: &Ledger, id: String) -> (r: CredRegisteredResponse)
    requires
        deps.wf(),
    ensures
        r.registered == deps@.registered(id@),
{
    let found = deps.find(&id);
    CredRegisteredResponse { registered: found.is_some() }
}

/// Whether the credential `id` holds an allocation with the id
/// `allocation_id`; fails if the credential is not registered.
pub fn query_allocated(deps: &Ledger, id: String, allocation_id: String) -> (r: Result<
    CredAllocatedResponse,
    ContractError,
>)
    requires
        deps.wf(),
    ensures
        r == match lookup(deps@.creds, id@) {
            Some(c) => Ok(
                CredAllocatedResponse { allocated: has_allocation(c.allocations, allocation_id@) },
            ),
            None => Err(ContractError::NotRegistered),
        },
{
    allocated_in(slot_of(deps, &id), &allocation_id)
}

/// The payout address and total of the credential `id`; fails if it is not
/// registered.
pub fn query_user_cred(deps: &Ledger, id: String) -> (r: Result<UserCredResponse, ContractError>)
    requires
        deps.wf(),
    ensures
        match lookup(deps@.creds, id@) {
            Some(c) => r matches Ok(u) && u.scrt_address@ == c.scrt_address && u.total_allocated
                == c.total_allocated,
            None => r == Err::<UserCredResponse, ContractError>(ContractError::NotRegistered),
        },
{
    user_cred_of(slot_of(deps, &id))
}

/// The total allocated to the credential `id`; fails if it is not registered.
pub fn query_total_allocated(deps: &Ledger, id: String) -> (r: Result<
    TotalAllocatedResponse,
    ContractError,
>)
    requires
        deps.wf(),
    ensures
        match lookup(deps@.creds, id@) {
            Some(c) => r matches Ok(t) && t.total_allocated == c.total_allocated,
            None => r == Err::<TotalAllocatedResponse, ContractError>(ContractError::NotRegistered),
        },
{
    total_allocated_of(slot_of(deps, &id))
}

/// The answer that `query` owes to `msg` on the ledger `l`.
pub open spec fn query_spec(l: LedgerModel, msg: QueryMsg, r: Result<QueryResponse, ContractError>) -> bool {
    match msg {
        QueryMsg::Config {  } => r matches Ok(QueryResponse::Config(s)) && s@ == l.config,
        QueryMsg::GetTotalAllocated { cred_id } => match lookup(l.creds, cred_id@) {
            Some(c) => r matches Ok(QueryResponse::TotalAllocated(t)) && t.total_allocated
                == c.total_allocated,
            None => r == Err::<QueryResponse, ContractError>(ContractError::NotRegistered),
        },
        QueryMsg::IsCredRegistered { cred_id } => r matches Ok(QueryResponse::CredRegistered(b))
            && b.registered == l.registered(cred_id@),
        QueryMsg::IsAllocated { cred_id, allocation_id } => match lookup(l.creds, cred_id@) {
            Some(c) => r matches Ok(QueryResponse::CredAllocated(b)) && b.allocated
                == has_allocation(c.allocations, allocation_id@),
            None => r == Err::<QueryResponse, ContractError>(ContractError::NotRegistered),
        },
        QueryMsg::GetUserCred { cred_id } => match lookup(l.creds, cred_id@) {
            Some(c) => r matches Ok(QueryResponse::UserCred(u)) && u.scrt_address@
                == c.scrt_address && u.total_allocated == c.total_allocated,
            None => r == Err::<QueryResponse, ContractError>(ContractError::NotRegistered),
        },
    }
}

/// Answers the question `msg`. Never changes the ledger.
pub fn query(deps: &Ledger, msg: QueryMsg) -> (r: Result<QueryResponse, ContractError>)
    requires
        deps.wf(),
    ensures
        query_spec(deps@, msg, r),
{
    match msg {
        QueryMsg::Config {  } => Ok(QueryResponse::Config(copy_state(&deps.state))),
        QueryMsg::GetTotalAllocated { cred_id } => match query_total_allocated(deps, cred_id) {
            Ok(t) => Ok(QueryResponse::TotalAllocated(t)),
            Err(e) => Err(e),
        },
        QueryMsg::IsCredRegistered { cred_id } => Ok(
            QueryResponse::CredRegistered(query_user_registered(deps, cred_id)),
        ),
        QueryMsg::GetUserCred { cred_id } => match query_user_cred(deps, cred_id) {
            Ok(u) => Ok(QueryResponse::UserCred(u)),
            Err(e) => Err(e),
        },
        QueryMsg::IsAllocated { cred_id, allocation_id } => match query_allocated(
            deps,
            cred_id,
            allocation_id,
        ) {
            Ok(a) => Ok(QueryResponse::CredAllocated(a)),
            Err(e) => Err(e),
        },
    }
}

} // verus!
