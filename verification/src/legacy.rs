//! The first release of the contract, which kept its counter, its minimal
//! donation and its owner as separate storage items. Its storage is what the
//! current release migrates from.
use vstd::prelude::*;

use crate::coin::{coins_view, donation_qualifies, qualifies, Coin, CoinView};
use crate::contract::{poke_response, withdraw as withdraw_current, withdrawal, ExecStep, CONTRACT_NAME, FIRST_VERSION};
use crate::error::{outcome_view, ContractError, ErrorView};
use crate::outside::u64_to_string;
use crate::response::{empty_response, Response, ResponseView};
use crate::state::{ContractStore, ContractVersion, StoreView, StoredItem, VersionView};
use crate::msg::ValueResp;

verus! {

/// The message that created a contract of the first release.
#[derive(Clone, Debug, PartialEq, Eq)]
pub struct InstantiateMsg {
    pub minimal_donation: Coin,
}

/// The version that the first release recorded.
pub open spec fn first_version() -> VersionView {
    (CONTRACT_NAME@, FIRST_VERSION@)
}

/// The storage after instantiating the first release: its version, a zero
/// counter, the minimal donation, and the sender as owner.
pub open spec fn instantiated(s: StoreView, sender: Seq<char>, minimal_donation: CoinView) -> StoreView {
    StoreView {
        contract_version: Some(first_version()),
        counter: Some(0),
        minimal_donation: Some(minimal_donation),
        owner: Some(sender),
        ..s
    }
}

/// Instantiates the first release.
pub fn instantiate(store: &mut ContractStore, sender: &String, msg: InstantiateMsg) -> (res: Result<
    Response,
    ContractError,
>)
    ensures
        final(store)@ == instantiated(old(store)@, sender@, msg.minimal_donation@),
        res matches Ok(resp) && resp@ == empty_response(),
{
    store.contract_version = Some(
        ContractVersion {
            contract: String::from_str(CONTRACT_NAME),
            version: String::from_str(FIRST_VERSION),
        },
    );
    store.counter = Some(0);
    store.minimal_donation = Some(msg.minimal_donation);
    store.owner = Some(sender.clone());
    Ok(Response::new())
}

/// The answer of the first release to a `Value` query.
pub open spec fn value_of(s: StoreView) -> Result<u64, ErrorView> {
    match s.counter {
        Some(c) => Ok(c),
        None => Err(ErrorView::NotFound(StoredItem::Counter)),
    }
}

/// The count of the first release.
pub fn value(store: &ContractStore) -> (res: Result<ValueResp, ContractError>)
    ensures
        outcome_view(res) == value_of(store@),
{
    match store.counter {
        Some(value) => Ok(ValueResp { value }),
        None => Err(ContractError::NotFound(StoredItem::Counter)),
    }
}

/// Whether a donation to the first release can be counted without overflow.
pub open spec fn donate_allowed(s: StoreView, funds: Seq<CoinView>) -> bool {
    match (s.minimal_donation, s.counter) {
        (Some(m), Some(c)) => qualifies(funds, m) ==> c < u64::MAX,
        _ => true,
    }
}

/// The storage after a donation to the first release, and the answer: the
/// counter grows by one when some coin reaches the minimal donation.
pub open spec fn donated(s: StoreView, sender: Seq<char>, funds: Seq<CoinView>) -> (
    StoreView,
    Result<ResponseView, ErrorView>,
) {
    match s.minimal_donation {
        None => (s, Err(ErrorView::NotFound(StoredItem::MinimalDonation))),
        Some(m) => match s.counter {
            None => (s, Err(ErrorView::NotFound(StoredItem::Counter))),
            Some(c) => {
                let counter = if qualifies(funds, m) {
                    (c + 1) as u64
                } else {
                    c
                };
                (StoreView { counter: Some(counter), ..s }, Ok(poke_response(sender, counter)))
            },
        },
    }
}

/// Whether a donation of `funds` to the first release would overflow its counter.
pub fn donate_overflows(store: &ContractStore, funds: &Vec<Coin>) -> (overflows: bool)
    ensures
        overflows == !donate_allowed(store@, coins_view(funds@)),
{
    match (&store.minimal_donation, store.counter) {
        (Some(m), Some(c)) => donation_qualifies(funds, m) && c == u64::MAX,
        _ => false,
    }
}

/// Receives a donation to the first release.
pub fn donate(store: &mut ContractStore, sender: &String, funds: &Vec<Coin>) -> (res: Result<
    Response,
    ContractError,
>)
    requires
        donate_allowed(old(store)@, coins_view(funds@)),
    ensures
        (final(store)@, outcome_view(res)) == donated(old(store)@, sender@, coins_view(funds@)),
{
    let minimal_donation = match &store.minimal_donation {
        Some(m) => m.duplicate(),
        None => return Err(ContractError::NotFound(StoredItem::MinimalDonation)),
    };
    let mut value = match store.counter {
        Some(c) => c,
        None => return Err(ContractError::NotFound(StoredItem::Counter)),
    };
    if donation_qualifies(funds, &minimal_donation) {
        value = value + 1;
    }
    store.counter = Some(value);
    let resp = Response::new();
    let resp = resp.add_attribute("action", String::from_str("poke"));
    let resp = resp.add_attribute("sender", sender.clone());
    let resp = resp.add_attribute("counter", u64_to_string(value));
    assert(resp@.messages =~= poke_response(sender@, value).messages);
    assert(resp@.attributes =~= poke_response(sender@, value).attributes);
    Ok(resp)
}

/// Asks to send the whole balance to `sender`, which must be the owner; the
/// first release withdraws as the current one does.
pub fn withdraw(store: &ContractStore, sender: &String) -> (res: Result<ExecStep, ContractError>)
    ensures
        outcome_view(res) == withdrawal(store@, sender@),
{
    withdraw_current(store, sender)
}

} // verus!
