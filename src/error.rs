use vstd::prelude::*;

verus! {

/// Every way in which a command or query of the ledger can fail.
#[derive(Clone, Copy, Debug, PartialEq, Eq, Structural)]
pub enum ContractError {
    /// The caller is not the configured owner.
    Unauthorized,
    /// The operation targets a credential that was never registered.
    NotRegistered,
    /// A credential with that id is already registered.
    AlreadyExists,
    /// The credential already holds an allocation with that id.
    DuplicateAllocation,
    /// A running total would exceed the range of its integer type.
    ArithmeticOverflow,
}

impl ContractError {
    /// The human-readable message that the host reports with the error.
    pub fn message(&self) -> (r: String)
        ensures
            r@ == self.message_spec(),
    {
        match self {
            ContractError::Unauthorized => String::from_str("Unauthorized"),
            ContractError::NotRegistered => String::from_str("User not registered"),
            ContractError::AlreadyExists => String::from_str("User already exists"),
            ContractError::DuplicateAllocation => String::from_str("Already allocated"),
            ContractError::ArithmeticOverflow => String::from_str("Arithmetic overflow"),
        }
    }

    pub open spec fn message_spec(&self) -> Seq<char> {
        match self {
            ContractError::Unauthorized => "Unauthorized"@,
            ContractError::NotRegistered => "User not registered"@,
            ContractError::AlreadyExists => "User already exists"@,
            ContractError::DuplicateAllocation => "Already allocated"@,
            ContractError::ArithmeticOverflow => "Arithmetic overflow"@,
        }
    }
}

} // verus!
