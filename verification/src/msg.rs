//! The messages the contract accepts and the answers it gives.
use vstd::prelude::*;

use crate::coin::{Coin, CoinView, Decimal};

verus! {

/// A parent contract to which a part of the funds goes every
/// `donating_period` counted donations.
#[derive(Clone, Debug, PartialEq, Eq)]
pub struct Parent {
    pub addr: String,
    pub donating_period: u64,
    pub part: Decimal,
}

/// What a parent is: its address, its period and its part.
pub struct ParentView {
    pub addr: Seq<char>,
    pub donating_period: u64,
    pub part: Decimal,
}

impl View for Parent {
    type V = ParentView;

    open spec fn view(&self) -> ParentView {
        ParentView { addr: self.addr@, donating_period: self.donating_period, part: self.part }
    }
}

/// The view of an optional parent.
pub open spec fn parent_opt_view(p: Option<Parent>) -> Option<ParentView> {
    match p {
        Some(p) => Some(p@),
        None => None,
    }
}

/// The message that creates the contract.
#[derive(Clone, Debug, PartialEq, Eq)]
pub struct InstantiateMsg {
    pub minimal_donation: Coin,
    pub parent: Option<Parent>,
}

/// What an instantiate message is.
pub struct InstantiateMsgView {
    pub minimal_donation: CoinView,
    pub parent: Option<ParentView>,
}

impl View for InstantiateMsg {
    type V = InstantiateMsgView;

    open spec fn view(&self) -> InstantiateMsgView {
        InstantiateMsgView {
            minimal_donation: self.minimal_donation@,
            parent: parent_opt_view(self.parent),
        }
    }
}

/// The message that migrates the storage of an earlier release.
#[derive(Clone, Debug, PartialEq, Eq)]
pub struct MigrateMsg {
    pub parent: Option<Parent>,
}

/// The queries the contract answers.
#[derive(Clone, Copy, Debug, PartialEq, Eq, Structural)]
pub enum QueryMsg {
    Value {},
}

/// The actions the contract executes.
#[derive(Clone, Copy, Debug, PartialEq, Eq, Structural)]
pub enum ExecMsg {
    Donate {},
    Withdraw {},
}

/// The answer to a `Value` query: the number of counted donations.
#[derive(Clone, Copy, Debug, PartialEq, Eq, Structural)]
pub struct ValueResp {
    pub value: u64,
}

} // verus!
