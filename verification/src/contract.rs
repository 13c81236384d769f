//! The operations of the current release on the contract's storage: what each
//! one reads, what it writes and what it answers.
use vstd::prelude::*;

use crate::coin::{
    coins_view, donation_qualifies, duplicate_coins, qualifies, scale_coins, scaled_coins,
    scaling_fits, Coin, CoinView,
};
use crate::error::{outcome_view, ContractError, ErrorView};
use crate::msg::{parent_opt_view, ExecMsg, InstantiateMsg, InstantiateMsgView, MigrateMsg, Parent, ParentView, ValueResp};
use crate::outside::{decimal_digits, u64_to_string};
use crate::response::{empty_response, CosmosMsg, MsgView, Response, ResponseView};
use crate::state::{
    ContractStore, ContractVersion, ParentDonation, ParentDonationView, State, StateView,
    StoreView, StoredItem, VersionView,
};

verus! {

/// The name under which every release of this contract records itself.
pub const CONTRACT_NAME: &'static str = "counting-contract";

/// The release of this code.
pub const CONTRACT_VERSION: &'static str = "0.3.0";

/// The release of the first code, which kept the counter apart.
pub const FIRST_VERSION: &'static str = "0.1.0";

/// The release of the second code, whose state had no parent.
pub const SECOND_VERSION: &'static str = "0.2.0";

/// The version this code records.
pub open spec fn current_version() -> VersionView {
    (CONTRACT_NAME@, CONTRACT_VERSION@)
}

/// The version record of this code.
pub fn current_contract_version() -> (v: ContractVersion)
    ensures
        v@ == current_version(),
{
    ContractVersion {
        contract: String::from_str(CONTRACT_NAME),
        version: String::from_str(CONTRACT_VERSION),
    }
}

impl View for ValueResp {
    type V = u64;

    open spec fn view(&self) -> u64 {
        self.value
    }
}

/// What the host answered when asked to validate an address, when it was asked.
pub open spec fn address_check_view(
    check: Option<Result<String, cosmwasm_std::StdError>>,
) -> Option<Result<Seq<char>, cosmwasm_std::StdError>> {
    match check {
        Some(Ok(a)) => Some(Ok(a@)),
        Some(Err(e)) => Some(Err(e)),
        None => None,
    }
}

/// The donating period of an optional parent.
pub open spec fn period_of(parent: Option<ParentView>) -> Option<u64> {
    match parent {
        Some(p) => Some(p.donating_period),
        None => None,
    }
}

/// Records the parent, if any, at the address the host validated: the answer
/// is the host's error when it rejected the address.
pub open spec fn record_parent(
    s: StoreView,
    parent: Option<ParentView>,
    check: Option<Result<Seq<char>, cosmwasm_std::StdError>>,
) -> (StoreView, Result<ResponseView, ErrorView>) {
    match parent {
        Some(p) => match check {
            Some(Ok(address)) => (
                StoreView {
                    parent_donation: Some(
                        ParentDonationView {
                            address,
                            donating_parent_period: p.donating_period,
                            part: p.part,
                        },
                    ),
                    ..s
                },
                Ok(empty_response()),
            ),
            Some(Err(e)) => (s, Err(ErrorView::Std(e))),
            None => (s, Ok(empty_response())),
        },
        None => (s, Ok(empty_response())),
    }
}

/// The storage after instantiation, and the answer: the version, a zero count
/// with the minimal donation and the parent's period, the sender as owner,
/// then the parent at its validated address.
pub open spec fn instantiated(
    s: StoreView,
    sender: Seq<char>,
    msg: InstantiateMsgView,
    check: Option<Result<Seq<char>, cosmwasm_std::StdError>>,
) -> (StoreView, Result<ResponseView, ErrorView>) {
    record_parent(
        StoreView {
            contract_version: Some(current_version()),
            state: Some(
                StateView {
                    counter: 0,
                    minimal_donation: msg.minimal_donation,
                    donating_parent: period_of(msg.parent),
                },
            ),
            owner: Some(sender),
            ..s
        },
        msg.parent,
        check,
    )
}

/// Whether the host was asked to validate an address exactly when there is a parent.
pub open spec fn check_matches<P, C>(parent: Option<P>, check: Option<C>) -> bool {
    parent is Some <==> check is Some
}

/// Writes the parent donation when there is a parent, at the address the
/// host validated.
fn save_parent(
    store: &mut ContractStore,
    parent: Option<Parent>,
    check: Option<Result<String, cosmwasm_std::StdError>>,
) -> (res: Result<Response, ContractError>)
    requires
        check_matches(parent, check),
    ensures
        (final(store)@, outcome_view(res)) == record_parent(
            old(store)@,
            parent_opt_view(parent),
            address_check_view(check),
        ),
{
    if let Some(parent) = parent {
        match check {
            Some(Ok(address)) => {
                store.parent_donation = Some(
                    ParentDonation {
                        address,
                        donating_parent_period: parent.donating_period,
                        part: parent.part,
                    },
                );
            },
            Some(Err(e)) => {
                return Err(ContractError::Std(e));
            },
            None => {},
        }
    }
    Ok(Response::new())
}

/// Instantiates the contract: records the version, a zero count with the
/// minimal donation and the parent's period, the sender as owner, and the
/// parent at the address the host validated (`check`, present when there is a
/// parent). When the host rejected that address the answer is its error and no
/// parent donation is recorded, but what was written before stays.
pub fn instantiate(
    store: &mut ContractStore,
    sender: &String,
    msg: InstantiateMsg,
    check: Option<Result<String, cosmwasm_std::StdError>>,
) -> (res: Result<Response, ContractError>)
    requires
        check_matches(msg.parent, check),
    ensures
        (final(store)@, outcome_view(res)) == instantiated(
            old(store)@,
            sender@,
            msg@,
            address_check_view(check),
        ),
{
    store.contract_version = Some(current_contract_version());
    let donating_parent = match &msg.parent {
        Some(p) => Some(p.donating_period),
        None => None,
    };
    let ghost pv = parent_opt_view(msg.parent);
    assert(donating_parent == period_of(pv));
    store.state = Some(State { counter: 0, minimal_donation: msg.minimal_donation, donating_parent });
    store.owner = Some(sender.clone());
    save_parent(store, msg.parent, check)
}

/// The answer to a `Value` query on a storage.
pub open spec fn value_of(s: StoreView) -> Result<u64, ErrorView> {
    match s.state {
        Some(st) => Ok(st.counter),
        None => Err(ErrorView::NotFound(StoredItem::State)),
    }
}

/// The number of counted donations.
pub fn value(store: &ContractStore) -> (res: Result<ValueResp, ContractError>)
    ensures
        outcome_view(res) == value_of(store@),
{
    match &store.state {
        Some(state) => Ok(ValueResp { value: state.counter }),
        None => Err(ContractError::NotFound(StoredItem::State)),
    }
}

/// What a donation answers when it pays no parent: the action, the sender and the count.
pub open spec fn poke_response(sender: Seq<char>, counter: u64) -> ResponseView {
    ResponseView {
        messages: seq![],
        attributes: seq![
            ("action"@, "poke"@),
            ("sender"@, sender),
            ("counter"@, decimal_digits(counter as nat)),
        ],
    }
}

/// Adds the attributes of a donation to an answer.
fn add_poke_attributes(resp: Response, sender: &String, counter: u64) -> (out: Response)
    ensures
        out@.messages == resp@.messages,
        out@.attributes == resp@.attributes + poke_response(sender@, counter).attributes,
{
    let ghost before = resp@;
    let out = resp.add_attribute("action", String::from_str("poke"));
    let out = out.add_attribute("sender", sender.clone());
    let out = out.add_attribute("counter", u64_to_string(counter));
    assert(out@.attributes =~= before.attributes + poke_response(sender@, counter).attributes);
    out
}

/// The outside work an action waits for: the contract's balance, and what to
/// do with it.
#[derive(Clone, Debug, PartialEq, Eq)]
pub enum BalanceUse {
    /// Send a part of the balance to the parent, then answer as a donation of
    /// `sender` that brought the count to `counter`.
    PayParent { parent: ParentDonation, sender: String, counter: u64 },
    /// Send the whole balance to `sender`, the owner.
    Withdraw { sender: String },
}

/// What a balance use is.
pub enum BalanceUseView {
    PayParent { parent: ParentDonationView, sender: Seq<char>, counter: u64 },
    Withdraw { sender: Seq<char> },
}

impl View for BalanceUse {
    type V = BalanceUseView;

    open spec fn view(&self) -> BalanceUseView {
        match self {
            BalanceUse::PayParent { parent, sender, counter } => BalanceUseView::PayParent {
                parent: parent@,
                sender: sender@,
                counter: *counter,
            },
            BalanceUse::Withdraw { sender } => BalanceUseView::Withdraw { sender: sender@ },
        }
    }
}

/// Where an action stands: answered, or waiting for the contract's balance.
#[derive(Clone, Debug, PartialEq, Eq)]
pub enum ExecStep {
    Done(Response),
    QueryBalance(BalanceUse),
}

/// What a step is.
pub enum StepView {
    Done(ResponseView),
    QueryBalance(BalanceUseView),
}

impl View for ExecStep {
    type V = StepView;

    open spec fn view(&self) -> StepView {
        match self {
            ExecStep::Done(r) => StepView::Done(r@),
            ExecStep::QueryBalance(u) => StepView::QueryBalance(u@),
        }
    }
}

/// Whether a donation can be carried out without overflowing: a counted
/// donation needs room in the count, and a countdown that is not already at zero.
pub open spec fn donate_allowed(s: StoreView, funds: Seq<CoinView>) -> bool {
    match s.state {
        Some(st) => qualifies(funds, st.minimal_donation) ==> {
            &&& st.counter < u64::MAX
            &&& st.donating_parent != Some(0u64)
        },
        None => true,
    }
}

/// The storage after a donation of `funds` by `sender`, and where it stands.
/// A donation counts when some coin reaches the minimal donation; a counted
/// donation moves the parent's countdown, and when the countdown ends it
/// restarts at the period and a part of the balance goes to the parent.
pub open spec fn donated(s: StoreView, sender: Seq<char>, funds: Seq<CoinView>) -> (
    StoreView,
    Result<StepView, ErrorView>,
) {
    match s.state {
        None => (s, Err(ErrorView::NotFound(StoredItem::State))),
        Some(st) => if !qualifies(funds, st.minimal_donation) {
            (s, Ok(StepView::Done(poke_response(sender, st.counter))))
        } else {
            let counter = (st.counter + 1) as u64;
            match st.donating_parent {
                None => (
                    StoreView { state: Some(StateView { counter, ..st }), ..s },
                    Ok(StepView::Done(poke_response(sender, counter))),
                ),
                Some(k) => if k != 1 {
                    (
                        StoreView {
                            state: Some(
                                StateView { counter, donating_parent: Some((k - 1) as u64), ..st },
                            ),
                            ..s
                        },
                        Ok(StepView::Done(poke_response(sender, counter))),
                    )
                } else {
                    match s.parent_donation {
                        None => (s, Err(ErrorView::NotFound(StoredItem::ParentDonation))),
                        Some(pd) => (
                            StoreView {
                                state: Some(
                                    StateView {
                                        counter,
                                        donating_parent: Some(pd.donating_parent_period),
                                        ..st
                                    },
                                ),
                                ..s
                            },
                            Ok(
                                StepView::QueryBalance(
                                    BalanceUseView::PayParent { parent: pd, sender, counter },
                                ),
                            ),
                        ),
                    }
                },
            }
        },
    }
}

/// Whether a donation of `funds` would overflow the count or a countdown at zero.
pub fn donate_overflows(store: &ContractStore, funds: &Vec<Coin>) -> (overflows: bool)
    ensures
        overflows == !donate_allowed(store@, coins_view(funds@)),
{
    match &store.state {
        Some(state) => {
            if donation_qualifies(funds, &state.minimal_donation) {
                state.counter == u64::MAX || state.donating_parent == Some(0u64)
            } else {
                false
            }
        },
        None => false,
    }
}

/// Receives a donation of `funds` from `sender`: counts it when some coin
/// reaches the minimal donation, moves the parent's countdown, and when the
/// countdown ends asks for the balance to pay the parent.
pub fn donate(store: &mut ContractStore, sender: &String, funds: &Vec<Coin>) -> (res: Result<
    ExecStep,
    ContractError,
>)
    requires
        donate_allowed(old(store)@, coins_view(funds@)),
    ensures
        (final(store)@, outcome_view(res)) == donated(old(store)@, sender@, coins_view(funds@)),
{
    let ghost s0 = store@;
    let state = match store.state.take() {
        Some(state) => state,
        None => {
            assert(store@ == s0);
            return Err(ContractError::NotFound(StoredItem::State));
        },
    };
    if !donation_qualifies(funds, &state.minimal_donation) {
        let counter = state.counter;
        store.state = Some(state);
        assert(store@ == s0);
        let resp = add_poke_attributes(Response::new(), sender, counter);
        assert(resp@ == poke_response(sender@, counter));
        return Ok(ExecStep::Done(resp));
    }
    let counter = state.counter + 1;
    match state.donating_parent {
        None => {
            store.state = Some(State { counter, minimal_donation: state.minimal_donation, donating_parent: None });
            let resp = add_poke_attributes(Response::new(), sender, counter);
            assert(resp@ == poke_response(sender@, counter));
            Ok(ExecStep::Done(resp))
        },
        Some(k) => {
            let remaining = k - 1;
            if remaining != 0 {
                store.state = Some(
                    State {
                        counter,
                        minimal_donation: state.minimal_donation,
                        donating_parent: Some(remaining),
                    },
                );
                let resp = add_poke_attributes(Response::new(), sender, counter);
                assert(resp@ == poke_response(sender@, counter));
                Ok(ExecStep::Done(resp))
            } else {
                match &store.parent_donation {
                    None => {
                        store.state = Some(state);
                        assert(store@ == s0);
                        Err(ContractError::NotFound(StoredItem::ParentDonation))
                    },
                    Some(pd) => {
                        let parent = pd.duplicate();
                        let period = parent.donating_parent_period;
                        store.state = Some(
                            State {
                                counter,
                                minimal_donation: state.minimal_donation,
                                donating_parent: Some(period),
                            },
                        );
                        Ok(
                            ExecStep::QueryBalance(
                                BalanceUse::PayParent { parent, sender: sender.clone(), counter },
                            ),
                        )
                    },
                }
            }
        },
    }
}

/// Where a withdrawal by `sender` stands: refused unless `sender` is the owner,
/// and otherwise waiting for the balance, which goes to the owner.
pub open spec fn withdrawal(s: StoreView, sender: Seq<char>) -> Result<StepView, ErrorView> {
    match s.owner {
        None => Err(ErrorView::NotFound(StoredItem::Owner)),
        Some(owner) => if sender != owner {
            Err(ErrorView::Unauthorized { owner })
        } else {
            Ok(StepView::QueryBalance(BalanceUseView::Withdraw { sender }))
        },
    }
}

/// Asks to send the whole balance to `sender`, which must be the owner.
pub fn withdraw(store: &ContractStore, sender: &String) -> (res: Result<ExecStep, ContractError>)
    ensures
        outcome_view(res) == withdrawal(store@, sender@),
{
    match &store.owner {
        None => Err(ContractError::NotFound(StoredItem::Owner)),
        Some(owner) => {
            if *sender != *owner {
                Err(ContractError::Unauthorized { owner: owner.clone() })
            } else {
                Ok(ExecStep::QueryBalance(BalanceUse::Withdraw { sender: sender.clone() }))
            }
        },
    }
}

/// Whether the balance can be used as `use_` says without overflowing.
pub open spec fn balance_use_allowed(use_: BalanceUseView, balance: Seq<CoinView>) -> bool {
    match use_ {
        BalanceUseView::PayParent { parent, .. } => scaling_fits(balance, parent.part),
        BalanceUseView::Withdraw { .. } => true,
    }
}

/// The answer once the balance is known: for a parent payment, a message that
/// donates to the parent the part of each coin of the balance, then the
/// attributes of the donation; for a withdrawal, a message that sends the
/// whole balance to the owner.
pub open spec fn balance_used(use_: BalanceUseView, balance: Seq<CoinView>) -> ResponseView {
    match use_ {
        BalanceUseView::PayParent { parent, sender, counter } => ResponseView {
            messages: seq![
                MsgView::WasmExecute {
                    contract_addr: parent.address,
                    msg: ExecMsg::Donate {},
                    funds: scaled_coins(balance, parent.part),
                },
            ],
            attributes: seq![("donated_to_parent"@, parent.address)] + poke_response(
                sender,
                counter,
            ).attributes,
        },
        BalanceUseView::Withdraw { sender } => ResponseView {
            messages: seq![MsgView::BankSend { to_address: sender, amount: balance }],
            attributes: seq![("action"@, "withdraw"@), ("sender"@, sender)],
        },
    }
}

/// Whether using `balance` as `use_` says would overflow.
pub fn balance_use_overflows(use_: &BalanceUse, balance: &Vec<Coin>) -> (overflows: bool)
    ensures
        overflows == !balance_use_allowed(use_@, coins_view(balance@)),
{
    match use_ {
        BalanceUse::PayParent { parent, .. } => !crate::coin::scaling_fits_exec(balance, parent.part),
        BalanceUse::Withdraw { .. } => false,
    }
}

/// Finishes an action with the contract's balance.
pub fn use_balance(use_: BalanceUse, balance: &Vec<Coin>) -> (resp: Response)
    requires
        balance_use_allowed(use_@, coins_view(balance@)),
    ensures
        resp@ == balance_used(use_@, coins_view(balance@)),
{
    let ghost u = use_@;
    match use_ {
        BalanceUse::PayParent { parent, sender, counter } => {
            let funds = scale_coins(balance, parent.part);
            let address = parent.address.clone();
            let msg = CosmosMsg::WasmExecute {
                contract_addr: parent.address,
                msg: ExecMsg::Donate {},
                funds,
            };
            let resp = Response::new().add_message(msg);
            let resp = resp.add_attribute("donated_to_parent", address);
            let resp = add_poke_attributes(resp, &sender, counter);
            assert(resp@.messages =~= balance_used(u, coins_view(balance@)).messages);
            assert(resp@.attributes =~= balance_used(u, coins_view(balance@)).attributes);
            resp
        },
        BalanceUse::Withdraw { sender } => {
            let msg = CosmosMsg::BankSend { to_address: sender.clone(), amount: duplicate_coins(balance) };
            let resp = Response::new().add_message(msg);
            let resp = resp.add_attribute("action", String::from_str("withdraw"));
            let resp = resp.add_attribute("sender", sender);
            assert(resp@.messages =~= balance_used(u, coins_view(balance@)).messages);
            assert(resp@.attributes =~= balance_used(u, coins_view(balance@)).attributes);
            resp
        },
    }
}

/// The state that a migration writes: the given count and minimal donation,
/// and the countdown of the new parent, if any.
pub open spec fn migrated_state(counter: u64, minimal_donation: CoinView, parent: Option<ParentView>) -> StateView {
    StateView { counter, minimal_donation, donating_parent: period_of(parent) }
}

/// The storage after migrating the items of the first release, and the answer:
/// its counter and minimal donation become the state, and the parent is recorded.
pub open spec fn migrated_from_first(
    s: StoreView,
    parent: Option<ParentView>,
    check: Option<Result<Seq<char>, cosmwasm_std::StdError>>,
) -> (StoreView, Result<ResponseView, ErrorView>) {
    match s.counter {
        None => (s, Err(ErrorView::NotFound(StoredItem::Counter))),
        Some(counter) => match s.minimal_donation {
            None => (s, Err(ErrorView::NotFound(StoredItem::MinimalDonation))),
            Some(minimal_donation) => record_parent(
                StoreView { state: Some(migrated_state(counter, minimal_donation, parent)), ..s },
                parent,
                check,
            ),
        },
    }
}

/// Moves the counter and the minimal donation of the first release into the
/// state, with the countdown of the new parent, and records that parent.
pub fn migrate_0_1_0(
    store: &mut ContractStore,
    parent: Option<Parent>,
    check: Option<Result<String, cosmwasm_std::StdError>>,
) -> (res: Result<Response, ContractError>)
    requires
        check_matches(parent, check),
    ensures
        (final(store)@, outcome_view(res)) == migrated_from_first(
            old(store)@,
            parent_opt_view(parent),
            address_check_view(check),
        ),
{
    let counter = match store.counter {
        Some(c) => c,
        None => return Err(ContractError::NotFound(StoredItem::Counter)),
    };
    let minimal_donation = match &store.minimal_donation {
        Some(m) => m.duplicate(),
        None => return Err(ContractError::NotFound(StoredItem::MinimalDonation)),
    };
    let donating_parent = match &parent {
        Some(p) => Some(p.donating_period),
        None => None,
    };
    assert(donating_parent == period_of(parent_opt_view(parent)));
    store.state = Some(State { counter, minimal_donation, donating_parent });
    save_parent(store, parent, check)
}

/// The storage after migrating the state of the second release, and the
/// answer: its count and minimal donation stay, the countdown of the new
/// parent is added, and the parent is recorded.
pub open spec fn migrated_from_second(
    s: StoreView,
    parent: Option<ParentView>,
    check: Option<Result<Seq<char>, cosmwasm_std::StdError>>,
) -> (StoreView, Result<ResponseView, ErrorView>) {
    match s.state {
        None => (s, Err(ErrorView::NotFound(StoredItem::State))),
        Some(st) => record_parent(
            StoreView { state: Some(migrated_state(st.counter, st.minimal_donation, parent)), ..s },
            parent,
            check,
        ),
    }
}

/// Gives the state of the second release the countdown of the new parent,
/// and records that parent.
pub fn migrate_0_2_0(
    store: &mut ContractStore,
    parent: Option<Parent>,
    check: Option<Result<String, cosmwasm_std::StdError>>,
) -> (res: Result<Response, ContractError>)
    requires
        check_matches(parent, check),
    ensures
        (final(store)@, outcome_view(res)) == migrated_from_second(
            old(store)@,
            parent_opt_view(parent),
            address_check_view(check),
        ),
{
    let (counter, minimal_donation) = match &store.state {
        Some(st) => (st.counter, st.minimal_donation.duplicate()),
        None => return Err(ContractError::NotFound(StoredItem::State)),
    };
    let donating_parent = match &parent {
        Some(p) => Some(p.donating_period),
        None => None,
    };
    assert(donating_parent == period_of(parent_opt_view(parent)));
    store.state = Some(State { counter, minimal_donation, donating_parent });
    save_parent(store, parent, check)
}

/// Records the current version after a successful step of migration.
pub open spec fn then_record_version(step: (StoreView, Result<ResponseView, ErrorView>)) -> (
    StoreView,
    Result<ResponseView, ErrorView>,
) {
    match step.1 {
        Ok(resp) => (StoreView { contract_version: Some(current_version()), ..step.0 }, Ok(resp)),
        Err(e) => (step.0, Err(e)),
    }
}

/// The storage after a migration, and the answer. Storage of another contract
/// is refused; storage of the first or second release is migrated and then
/// records the current version; storage of the current release is left as it
/// is; storage of any other release is refused.
pub open spec fn migrated(
    s: StoreView,
    parent: Option<ParentView>,
    check: Option<Result<Seq<char>, cosmwasm_std::StdError>>,
) -> (StoreView, Result<ResponseView, ErrorView>) {
    match s.contract_version {
        None => (s, Err(ErrorView::NotFound(StoredItem::ContractVersion))),
        Some(v) => if v.0 != CONTRACT_NAME@ {
            (s, Err(ErrorView::InvalidName(v.0)))
        } else if v.1 == FIRST_VERSION@ {
            then_record_version(migrated_from_first(s, parent, check))
        } else if v.1 == SECOND_VERSION@ {
            then_record_version(migrated_from_second(s, parent, check))
        } else if v.1 == CONTRACT_VERSION@ {
            (s, Ok(empty_response()))
        } else {
            (s, Err(ErrorView::InvalidVersion(v.1)))
        },
    }
}

/// Migrates the storage of an earlier release of this contract to this one.
pub fn migrate(
    store: &mut ContractStore,
    msg: MigrateMsg,
    check: Option<Result<String, cosmwasm_std::StdError>>,
) -> (res: Result<Response, ContractError>)
    requires
        check_matches(msg.parent, check),
    ensures
        (final(store)@, outcome_view(res)) == migrated(
            old(store)@,
            parent_opt_view(msg.parent),
            address_check_view(check),
        ),
{
    let parent = msg.parent;
    let (name, version) = match &store.contract_version {
        Some(v) => (v.contract.clone(), v.version.clone()),
        None => return Err(ContractError::NotFound(StoredItem::ContractVersion)),
    };
    if name != String::from_str(CONTRACT_NAME) {
        return Err(ContractError::InvalidName(name));
    }
    let resp = if version == String::from_str(FIRST_VERSION) {
        migrate_0_1_0(store, parent, check)?
    } else if version == String::from_str(SECOND_VERSION) {
        migrate_0_2_0(store, parent, check)?
    } else if version == String::from_str(CONTRACT_VERSION) {
        return Ok(Response::new());
    } else {
        return Err(ContractError::InvalidVersion(version));
    };
    store.contract_version = Some(current_contract_version());
    Ok(resp)
}

} // verus!
