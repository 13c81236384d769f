//! What the contract keeps in its storage, item by item, across its releases.
use vstd::prelude::*;

use crate::coin::{Coin, CoinView, Decimal};

verus! {

/// The name and the release of the code that last wrote the storage.
#[derive(Clone, Debug, PartialEq, Eq)]
pub struct ContractVersion {
    pub contract: String,
    pub version: String,
}

/// What a contract version is: its name and its release.
pub type VersionView = (Seq<char>, Seq<char>);

impl View for ContractVersion {
    type V = VersionView;

    open spec fn view(&self) -> VersionView {
        (self.contract@, self.version@)
    }
}

/// The state of the current release: the count, the minimal donation that
/// counts, and how many counted donations remain before the next one that
/// also pays the parent (when there is a parent).
#[derive(Clone, Debug, PartialEq, Eq)]
pub struct State {
    pub counter: u64,
    pub minimal_donation: Coin,
    pub donating_parent: Option<u64>,
}

/// What a state is.
pub struct StateView {
    pub counter: u64,
    pub minimal_donation: CoinView,
    pub donating_parent: Option<u64>,
}

impl View for State {
    type V = StateView;

    open spec fn view(&self) -> StateView {
        StateView {
            counter: self.counter,
            minimal_donation: self.minimal_donation@,
            donating_parent: self.donating_parent,
        }
    }
}

/// The parent that receives a part of the funds: its address, the number of
/// counted donations between two payments, and the part it receives.
#[derive(Clone, Debug, PartialEq, Eq)]
pub struct ParentDonation {
    pub address: String,
    pub donating_parent_period: u64,
    pub part: Decimal,
}

/// What a parent donation is.
pub struct ParentDonationView {
    pub address: Seq<char>,
    pub donating_parent_period: u64,
    pub part: Decimal,
}

impl View for ParentDonation {
    type V = ParentDonationView;

    open spec fn view(&self) -> ParentDonationView {
        ParentDonationView {
            address: self.address@,
            donating_parent_period: self.donating_parent_period,
            part: self.part,
        }
    }
}

impl ParentDonation {
    /// A copy of this parent donation.
    pub fn duplicate(&self) -> (copy: ParentDonation)
        ensures
            copy@ == self@,
    {
        ParentDonation {
            address: self.address.clone(),
            donating_parent_period: self.donating_parent_period,
            part: self.part,
        }
    }
}

/// The items of the contract's storage. Each is absent until some release
/// writes it; the counter and the minimal donation are those of the first
/// release, which kept them apart.
#[derive(Clone, Debug, PartialEq, Eq)]
pub struct ContractStore {
    /// Key `contract_info`, written by every release.
    pub contract_version: Option<ContractVersion>,
    /// Key `counter`, the count of the first release.
    pub counter: Option<u64>,
    /// Key `minimal_donation`, the minimal donation of the first release.
    pub minimal_donation: Option<Coin>,
    /// Key `state`.
    pub state: Option<State>,
    /// Key `owner`, the address allowed to withdraw.
    pub owner: Option<String>,
    /// Key `parent_donation`.
    pub parent_donation: Option<ParentDonation>,
}

/// What the storage holds.
pub struct StoreView {
    pub contract_version: Option<VersionView>,
    pub counter: Option<u64>,
    pub minimal_donation: Option<CoinView>,
    pub state: Option<StateView>,
    pub owner: Option<Seq<char>>,
    pub parent_donation: Option<ParentDonationView>,
}

impl View for ContractStore {
    type V = StoreView;

    open spec fn view(&self) -> StoreView {
        StoreView {
            contract_version: match self.contract_version {
                Some(v) => Some(v@),
                None => None,
            },
            counter: self.counter,
            minimal_donation: match self.minimal_donation {
                Some(c) => Some(c@),
                None => None,
            },
            state: match self.state {
                Some(s) => Some(s@),
                None => None,
            },
            owner: match self.owner {
                Some(o) => Some(o@),
                None => None,
            },
            parent_donation: match self.parent_donation {
                Some(p) => Some(p@),
                None => None,
            },
        }
    }
}

impl ContractStore {
    /// The storage of a contract that has not been instantiated.
    pub fn new() -> (store: ContractStore)
        ensures
            store@ == empty_store(),
    {
        ContractStore {
            contract_version: None,
            counter: None,
            minimal_donation: None,
            state: None,
            owner: None,
            parent_donation: None,
        }
    }
}

/// The empty storage.
pub open spec fn empty_store() -> StoreView {
    StoreView {
        contract_version: None,
        counter: None,
        minimal_donation: None,
        state: None,
        owner: None,
        parent_donation: None,
    }
}

/// The storage items an operation may find missing.
#[derive(Clone, Copy, Debug, PartialEq, Eq, Structural)]
pub enum StoredItem {
    ContractVersion,
    Counter,
    MinimalDonation,
    State,
    Owner,
    ParentDonation,
}

} // verus!
