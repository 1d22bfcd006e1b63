use vstd::prelude::*;

verus! {

/// The error of `cosmwasm_std`, carried through without looking inside.
#[verifier::external_type_specification]
#[verifier::external_body]
pub struct ExStdError(cosmwasm_std::StdError);

/// Why the contract turned a message down.
#[derive(Debug, PartialEq)]
pub enum ContractError {
    /// The host failed: an address is malformed, a record is missing, a query
    /// was not answered, or a message could not be encoded.
    Std(cosmwasm_std::StdError),
    /// The sender is not the owner, or the token is not whitelisted.
    Unauthorized,
    /// The loan is below the borrow limit, so there is nothing to liquidate.
    CollateralRatioSafe,
}

impl ContractError {
    /// The text reported for an error that the contract itself raised; an
    /// error of the host has its own text.
    pub fn message(&self) -> (text: Option<String>)
        ensures
            match self {
                ContractError::Std(_) => text is None,
                ContractError::Unauthorized => text is Some && text->0@ == "Unauthorized"@,
                ContractError::CollateralRatioSafe => text is Some && text->0@
                    == "collateral ratio is safe"@,
            },
    {
        match self {
            ContractError::Std(_) => None,
            ContractError::Unauthorized => Some("Unauthorized".to_owned()),
            ContractError::CollateralRatioSafe => Some("collateral ratio is safe".to_owned()),
        }
    }
}

} // verus!
