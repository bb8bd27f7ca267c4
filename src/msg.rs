use vstd::prelude::*;

use crate::state::{ContractInfo, PolicyType, State};
use crate::tokens::{MintInstruction, MintModel};

verus! {

/// What initialization is given besides its caller.
#[derive(Clone, Debug, PartialEq)]
pub struct InitMsg {
    pub token_contract: ContractInfo,
}

/// The commands that change a ledger.
#[derive(Clone, Debug, PartialEq)]
pub enum HandleMsg {
    /// Grant `amount` to the credential `cred_id` under `allocation_id`.
    Allocate { allocation_id: String, amount: u128, cred_id: String, policy_type: PolicyType },
    /// Register the credential `cred_id`, paid to the canonical address
    /// `scrt_address`.
    RegisterUser { cred_id: String, scrt_address: Vec<u8>, alias: Option<String> },
}

/// The read-only questions a ledger answers.
#[derive(Clone, Debug, PartialEq)]
pub enum QueryMsg {
    Config {},
    GetTotalAllocated { cred_id: String },
    IsCredRegistered { cred_id: String },
    IsAllocated { cred_id: String, allocation_id: String },
    GetUserCred { cred_id: String },
}

#[derive(Clone, Debug, PartialEq)]
pub struct TotalAllocatedResponse {
    pub total_allocated: u128,
}

#[derive(Clone, Copy, Debug, PartialEq, Eq, Structural)]
pub struct CredRegisteredResponse {
    pub registered: bool,
}

#[derive(Clone, Copy, Debug, PartialEq, Eq, Structural)]
pub struct CredAllocatedResponse {
    pub allocated: bool,
}

#[derive(Clone, Debug, PartialEq)]
pub struct UserCredResponse {
    pub scrt_address: Vec<u8>,
    pub total_allocated: u128,
}

/// The answer to a `QueryMsg`, one variant per question.
#[derive(Clone, Debug, PartialEq)]
pub enum QueryResponse {
    Config(State),
    TotalAllocated(TotalAllocatedResponse),
    CredRegistered(CredRegisteredResponse),
    CredAllocated(CredAllocatedResponse),
    UserCred(UserCredResponse),
}

/// What a successful command hands back to the host: the mint instructions
/// that it is to execute.
#[derive(Clone, Debug, PartialEq)]
pub struct HandleResponse {
    pub messages: Vec<MintInstruction>,
}

impl View for HandleResponse {
    type V = Seq<MintModel>;

    open spec fn view(&self) -> Seq<MintModel> {
        self.messages@.map_values(|m: MintInstruction| m@)
    }
}

} // verus!
