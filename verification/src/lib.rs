//! A counting contract: it counts the donations that reach a minimal amount,
//! lets its owner withdraw what it holds, forwards a part of its funds to a
//! parent contract every few donations, and migrates the storage of its
//! earlier releases.
//!
//! The contract's storage is a `ContractStore`. Each entry point takes it and
//! the inputs of the call; what comes from the host (whether it accepts an
//! address, the contract's balance) is handed in as a value.
pub mod outside;
pub mod coin;
pub mod msg;
pub mod state;
pub mod error;
pub mod response;
pub mod contract;
pub mod legacy;
pub mod laws;

use vstd::prelude::*;

use crate::coin::{coins_view, Coin, CoinView};
use crate::contract::{
    address_check_view, check_matches, donate_allowed, donated, instantiated, migrated, value_of,
    withdrawal, ExecStep, StepView,
};
use crate::error::{outcome_view, ContractError, ErrorView};
use crate::msg::{parent_opt_view, ExecMsg, InstantiateMsg, MigrateMsg, QueryMsg, ValueResp};
use crate::response::{empty_response, Response};
use crate::state::{ContractStore, StoreView};

verus! {

/// Creates the contract. It answers with an empty response even when the host
/// rejected the parent's address; then no parent donation is recorded.
pub fn instantiate(
    store: &mut ContractStore,
    sender: &String,
    msg: InstantiateMsg,
    check: Option<Result<String, cosmwasm_std::StdError>>,
) -> (res: Result<Response, ContractError>)
    requires
        check_matches(msg.parent, check),
    ensures
        final(store)@ == instantiated(old(store)@, sender@, msg@, address_check_view(check)).0,
        res matches Ok(resp) && resp@ == empty_response(),
{
    let _ = contract::instantiate(store, sender, msg, check);
    Ok(Response::new())
}

/// Whether an action can be carried out without overflowing.
pub open spec fn execute_allowed(s: StoreView, funds: Seq<CoinView>, msg: ExecMsg) -> bool {
    msg is Donate ==> donate_allowed(s, funds)
}

/// The storage after an action, and where the action stands.
pub open spec fn executed(s: StoreView, sender: Seq<char>, funds: Seq<CoinView>, msg: ExecMsg) -> (
    StoreView,
    Result<StepView, ErrorView>,
) {
    match msg {
        ExecMsg::Donate {} => donated(s, sender, funds),
        ExecMsg::Withdraw {} => (s, withdrawal(s, sender)),
    }
}

/// Carries out an action sent by `sender` with `funds`.
pub fn execute(store: &mut ContractStore, sender: &String, funds: &Vec<Coin>, msg: ExecMsg) -> (res:
    Result<ExecStep, ContractError>)
    requires
        execute_allowed(old(store)@, coins_view(funds@), msg),
    ensures
        (final(store)@, outcome_view(res)) == executed(old(store)@, sender@, coins_view(funds@), msg),
{
    match msg {
        ExecMsg::Donate {} => contract::donate(store, sender, funds),
        ExecMsg::Withdraw {} => contract::withdraw(store, sender),
    }
}

/// Answers a query.
pub fn query(store: &ContractStore, msg: QueryMsg) -> (res: Result<ValueResp, ContractError>)
    ensures
        outcome_view(res) == value_of(store@),
{
    match msg {
        QueryMsg::Value {} => contract::value(store),
    }
}

/// Migrates the storage of an earlier release.
pub fn migrate(
    store: &mut ContractStore,
    msg: MigrateMsg,
    check: Option<Result<String, cosmwasm_std::StdError>>,
) -> (res: Result<Response, ContractError>)
    requires
        check_matches(msg.parent, check),
    ensures
        (final(store)@, outcome_view(res)) == migrated(
            old(store)@,
            parent_opt_view(msg.parent),
            address_check_view(check),
        ),
{
    contract::migrate(store, msg, check)
}

} // verus!
