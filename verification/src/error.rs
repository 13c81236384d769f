//! The errors the contract reports.
use vstd::prelude::*;

use crate::state::StoredItem;

verus! {

/// Why an operation of the contract failed.
#[derive(Debug, PartialEq)]
pub enum ContractError {
    /// An error the host reported, such as a rejected address.
    Std(cosmwasm_std::StdError),
    /// An item the operation reads is absent from the storage.
    NotFound(StoredItem),
    /// Only the owner may withdraw; `owner` is who that is.
    Unauthorized { owner: String },
    /// The storage was written by another contract, of this name.
    InvalidName(String),
    /// The storage was written by a release this one cannot migrate.
    InvalidVersion(String),
}

/// What an error is.
pub enum ErrorView {
    Std(cosmwasm_std::StdError),
    NotFound(StoredItem),
    Unauthorized { owner: Seq<char> },
    InvalidName(Seq<char>),
    InvalidVersion(Seq<char>),
}

impl View for ContractError {
    type V = ErrorView;

    open spec fn view(&self) -> ErrorView {
        match self {
            ContractError::Std(e) => ErrorView::Std(*e),
            ContractError::NotFound(item) => ErrorView::NotFound(*item),
            ContractError::Unauthorized { owner } => ErrorView::Unauthorized { owner: owner@ },
            ContractError::InvalidName(name) => ErrorView::InvalidName(name@),
            ContractError::InvalidVersion(version) => ErrorView::InvalidVersion(version@),
        }
    }
}

/// The view of the outcome of an operation.
pub open spec fn outcome_view<T: View>(r: Result<T, ContractError>) -> Result<T::V, ErrorView> {
    match r {
        Ok(t) => Ok(t@),
        Err(e) => Err(e@),
    }
}

} // verus!
