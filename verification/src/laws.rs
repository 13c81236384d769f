//! What holds of the contract across its operations.
use vstd::prelude::*;

use crate::coin::{qualifies, CoinView};
use crate::contract::{
    balance_used, check_matches, current_version, donated, instantiated, migrated, value_of,
    withdrawal, BalanceUseView, StepView, CONTRACT_VERSION, FIRST_VERSION, SECOND_VERSION,
};
use crate::error::ErrorView;
use crate::legacy;
use crate::msg::{InstantiateMsgView, ParentView};
use crate::response::{empty_response, MsgView};
use crate::state::{ParentDonationView, StateView, StoreView};
use crate::outside::decimal_digits;
use crate::contract::CONTRACT_NAME;
use crate::msg::ExecMsg;
use crate::contract::period_of;
use crate::{execute_allowed, executed};
use vstd::arithmetic::div_mod::{
    lemma_fundamental_div_mod, lemma_fundamental_div_mod_converse, lemma_mod_pos_bound,
};

verus! {

/// The three releases have different version strings.
proof fn lemma_releases_differ()
    ensures
        FIRST_VERSION@ != SECOND_VERSION@,
        FIRST_VERSION@ != CONTRACT_VERSION@,
        SECOND_VERSION@ != CONTRACT_VERSION@,
{
    reveal_strlit("0.1.0");
    reveal_strlit("0.2.0");
    reveal_strlit("0.3.0");
    assert(FIRST_VERSION@[2] != SECOND_VERSION@[2]);
    assert(FIRST_VERSION@[2] != CONTRACT_VERSION@[2]);
    assert(SECOND_VERSION@[2] != CONTRACT_VERSION@[2]);
}

/// A freshly instantiated contract has counted nothing.
pub proof fn lemma_instantiate_then_value_is_zero(
    s: StoreView,
    sender: Seq<char>,
    msg: InstantiateMsgView,
    check: Option<Result<Seq<char>, cosmwasm_std::StdError>>,
)
    ensures
        value_of(instantiated(s, sender, msg, check).0) == Ok::<u64, ErrorView>(0),
        instantiated(s, sender, msg, check).0.owner == Some(sender),
{
}

/// A donation counts exactly when some coin reaches the minimal donation: the
/// count grows by one then and stays otherwise. A donation changes nothing but
/// the state, and never the minimal donation; a donation that fails changes nothing.
pub proof fn lemma_donation_counts_when_it_qualifies(
    s: StoreView,
    sender: Seq<char>,
    funds: Seq<CoinView>,
)
    requires
        s.state is Some,
    ensures
        ({
            let (s2, r) = donated(s, sender, funds);
            let st = s.state->Some_0;
            &&& s2.contract_version == s.contract_version
            &&& s2.counter == s.counter
            &&& s2.minimal_donation == s.minimal_donation
            &&& s2.owner == s.owner
            &&& s2.parent_donation == s.parent_donation
            &&& s2.state is Some
            &&& s2.state->Some_0.minimal_donation == st.minimal_donation
            &&& r is Ok ==> value_of(s2) == Ok::<u64, ErrorView>(
                if qualifies(funds, st.minimal_donation) {
                    (st.counter + 1) as u64
                } else {
                    st.counter
                },
            )
            &&& r is Err ==> s2 == s
        }),
{
}

/// The countdown to the next parent payment stays between one and the period,
/// when it starts there.
pub open spec fn countdown_in_period(s: StoreView) -> bool {
    match s.state {
        Some(st) => match st.donating_parent {
            Some(k) => match s.parent_donation {
                Some(pd) => 1 <= k <= pd.donating_parent_period,
                None => false,
            },
            None => true,
        },
        None => true,
    }
}

/// Instantiating with a parent whose period is at least one and whose address
/// the host accepted starts the countdown at the period.
pub proof fn lemma_instantiate_starts_countdown(
    s: StoreView,
    sender: Seq<char>,
    msg: InstantiateMsgView,
    check: Option<Result<Seq<char>, cosmwasm_std::StdError>>,
)
    requires
        check_matches(msg.parent, check),
        msg.parent is Some ==> msg.parent->Some_0.donating_period >= 1,
        !(check matches Some(Err(_))),
    ensures
        countdown_in_period(instantiated(s, sender, msg, check).0),
{
}

/// A donation keeps the countdown between one and the period, and pays the
/// parent exactly when it counts and the countdown was at one; the countdown
/// then starts again at the period.
pub proof fn lemma_donation_keeps_countdown(s: StoreView, sender: Seq<char>, funds: Seq<CoinView>)
    requires
        countdown_in_period(s),
        s.state is Some,
    ensures
        countdown_in_period(donated(s, sender, funds).0),
        donated(s, sender, funds).1 is Ok,
        (donated(s, sender, funds).1 matches Ok(StepView::QueryBalance(_))) <==> (qualifies(
            funds,
            s.state->Some_0.minimal_donation,
        ) && s.state->Some_0.donating_parent == Some(1u64)),
{
}

/// A withdrawal goes ahead exactly when the sender is the owner, and is
/// otherwise refused with the owner's address.
pub proof fn lemma_only_owner_withdraws(s: StoreView, sender: Seq<char>)
    requires
        s.owner is Some,
    ensures
        (withdrawal(s, sender) is Ok) <==> s.owner == Some(sender),
        s.owner != Some(sender) ==> withdrawal(s, sender) == Err::<StepView, ErrorView>(
            ErrorView::Unauthorized { owner: s.owner->Some_0 },
        ),
{
}

/// A withdrawal by the owner sends the whole balance to the owner.
pub proof fn lemma_withdrawal_sends_whole_balance(s: StoreView, owner: Seq<char>, balance: Seq<CoinView>)
    requires
        s.owner == Some(owner),
    ensures
        withdrawal(s, owner) == Ok::<StepView, ErrorView>(
            StepView::QueryBalance(BalanceUseView::Withdraw { sender: owner }),
        ),
        balance_used(BalanceUseView::Withdraw { sender: owner }, balance).messages == seq![
            MsgView::BankSend { to_address: owner, amount: balance },
        ],
{
}

/// Migrating the storage of the first release keeps its count and minimal
/// donation in the state, keeps the owner, and records the current version,
/// unless the host rejects the new parent's address.
pub proof fn lemma_migration_from_first_keeps_count(
    s: StoreView,
    parent: Option<ParentView>,
    check: Option<Result<Seq<char>, cosmwasm_std::StdError>>,
)
    requires
        s.contract_version == Some(legacy::first_version()),
        s.counter is Some,
        s.minimal_donation is Some,
        !(check matches Some(Err(_))),
    ensures
        ({
            let (s2, r) = migrated(s, parent, check);
            &&& r == Ok::<_, ErrorView>(empty_response())
            &&& value_of(s2) == legacy::value_of(s)
            &&& s2.state->Some_0.minimal_donation == s.minimal_donation->Some_0
            &&& s2.owner == s.owner
            &&& s2.contract_version == Some(current_version())
        }),
{
    lemma_releases_differ();
}

/// Migrating the storage of the second release keeps its count and minimal
/// donation, keeps the owner, and records the current version, unless the
/// host rejects the new parent's address.
pub proof fn lemma_migration_from_second_keeps_count(
    s: StoreView,
    parent: Option<ParentView>,
    check: Option<Result<Seq<char>, cosmwasm_std::StdError>>,
)
    requires
        s.contract_version == Some((crate::contract::CONTRACT_NAME@, SECOND_VERSION@)),
        s.state is Some,
        !(check matches Some(Err(_))),
    ensures
        ({
            let (s2, r) = migrated(s, parent, check);
            &&& r == Ok::<_, ErrorView>(empty_response())
            &&& value_of(s2) == value_of(s)
            &&& s2.state->Some_0.minimal_donation == s.state->Some_0.minimal_donation
            &&& s2.owner == s.owner
            &&& s2.contract_version == Some(current_version())
        }),
{
    lemma_releases_differ();
}

/// Storage that this release wrote is left as it is by a migration.
pub proof fn lemma_migrating_current_storage_changes_nothing(
    s: StoreView,
    parent: Option<ParentView>,
    check: Option<Result<Seq<char>, cosmwasm_std::StdError>>,
)
    requires
        s.contract_version == Some(current_version()),
    ensures
        migrated(s, parent, check) == (s, Ok::<_, ErrorView>(empty_response())),
{
    lemma_releases_differ();
}

/// Migrating twice is migrating once: after a migration that succeeded, a
/// second one changes nothing.
pub proof fn lemma_migration_is_idempotent(
    s: StoreView,
    parent: Option<ParentView>,
    check: Option<Result<Seq<char>, cosmwasm_std::StdError>>,
    parent2: Option<ParentView>,
    check2: Option<Result<Seq<char>, cosmwasm_std::StdError>>,
)
    requires
        migrated(s, parent, check).1 is Ok,
    ensures
        migrated(migrated(s, parent, check).0, parent2, check2) == (
            migrated(s, parent, check).0,
            Ok::<_, ErrorView>(empty_response()),
        ),
{
    lemma_releases_differ();
    let s2 = migrated(s, parent, check).0;
    assert(s2.contract_version == Some(current_version()));
    lemma_migrating_current_storage_changes_nothing(s2, parent2, check2);
}

/// A contract instantiated by this release is left as it is by a migration.
pub proof fn lemma_instantiate_then_migrate_changes_nothing(
    s: StoreView,
    sender: Seq<char>,
    msg: InstantiateMsgView,
    check: Option<Result<Seq<char>, cosmwasm_std::StdError>>,
    parent: Option<ParentView>,
    check2: Option<Result<Seq<char>, cosmwasm_std::StdError>>,
)
    ensures
        migrated(instantiated(s, sender, msg, check).0, parent, check2) == (
            instantiated(s, sender, msg, check).0,
            Ok::<_, ErrorView>(empty_response()),
        ),
{
    lemma_migrating_current_storage_changes_nothing(instantiated(s, sender, msg, check).0, parent, check2);
}

/// A contract of the first release keeps its count through a donation and a
/// migration: the count after migrating is the count before, plus one when
/// the donation qualified.
pub proof fn lemma_first_release_count_survives_migration(
    s: StoreView,
    sender: Seq<char>,
    minimal_donation: CoinView,
    donor: Seq<char>,
    funds: Seq<CoinView>,
)
    ensures
        ({
            let s1 = legacy::instantiated(s, sender, minimal_donation);
            let s2 = legacy::donated(s1, donor, funds).0;
            let s3 = migrated(s2, None, None).0;
            value_of(s3) == Ok::<u64, ErrorView>(if qualifies(funds, minimal_donation) { 1 } else { 0 })
        }),
{
    let s1 = legacy::instantiated(s, sender, minimal_donation);
    let s2 = legacy::donated(s1, donor, funds).0;
    assert(s2.contract_version == Some(legacy::first_version()));
    lemma_migration_from_first_keeps_count(s2, None, None);
}

/// The storage after `n` donations of `funds` by `sender`, one after another.
pub open spec fn donated_times(s: StoreView, sender: Seq<char>, funds: Seq<CoinView>, n: nat) -> StoreView
    decreases n,
{
    if n == 0 {
        s
    } else {
        donated(donated_times(s, sender, funds, (n - 1) as nat), sender, funds).0
    }
}

/// With a countdown at `k`, counted donations pay the parent on the `k`-th one
/// and not before: after `n < k` of them the countdown is at `k - n`, the
/// minimal donation and the parent are unchanged, and the next one pays the
/// parent exactly when `n + 1 == k`. Since a payment restarts the countdown
/// at the period, the parent is paid once every period counted donations.
pub proof fn lemma_parent_paid_once_per_countdown(
    s: StoreView,
    sender: Seq<char>,
    funds: Seq<CoinView>,
    n: nat,
)
    requires
        countdown_in_period(s),
        s.state is Some,
        s.state->Some_0.donating_parent is Some,
        qualifies(funds, s.state->Some_0.minimal_donation),
        n < s.state->Some_0.donating_parent->Some_0,
    ensures
        ({
            let k = s.state->Some_0.donating_parent->Some_0;
            let sn = donated_times(s, sender, funds, n);
            &&& countdown_in_period(sn)
            &&& sn.state is Some
            &&& sn.state->Some_0.donating_parent == Some((k - n) as u64)
            &&& sn.state->Some_0.minimal_donation == s.state->Some_0.minimal_donation
            &&& sn.parent_donation == s.parent_donation
            &&& (donated(sn, sender, funds).1 matches Ok(StepView::QueryBalance(_))) <==> n + 1 == k
        }),
    decreases n,
{
    if n > 0 {
        lemma_parent_paid_once_per_countdown(s, sender, funds, (n - 1) as nat);
        let prev = donated_times(s, sender, funds, (n - 1) as nat);
        lemma_donation_keeps_countdown(prev, sender, funds);
    }
    let sn = donated_times(s, sender, funds, n);
    lemma_donation_keeps_countdown(sn, sender, funds);
}

/// For a state without parent, a donation to this release and a donation to
/// the first release, holding the same count and minimal donation, give the
/// same answer and the same new count.
pub proof fn lemma_current_and_first_release_donate_alike(
    s: StoreView,
    first: StoreView,
    sender: Seq<char>,
    funds: Seq<CoinView>,
)
    requires
        s.state is Some,
        s.state->Some_0.donating_parent is None,
        first.counter == Some(s.state->Some_0.counter),
        first.minimal_donation == Some(s.state->Some_0.minimal_donation),
    ensures
        ({
            let (a, ra) = donated(s, sender, funds);
            let (b, rb) = legacy::donated(first, sender, funds);
            &&& rb matches Ok(r) && ra == Ok::<StepView, ErrorView>(StepView::Done(r))
            &&& value_of(a) == legacy::value_of(b)
        }),
{
}

/// A countdown runs exactly when a parent donation is recorded.
pub open spec fn countdown_iff_parent(s: StoreView) -> bool {
    s.state is Some ==> (s.state->Some_0.donating_parent is Some <==> s.parent_donation is Some)
}

/// Instantiating a contract whose storage records no parent donation, with a
/// parent address the host accepted (if there is a parent), starts a countdown
/// exactly when it records a parent, and both carry the parent's period.
pub proof fn lemma_instantiate_links_countdown_and_parent(
    s: StoreView,
    sender: Seq<char>,
    msg: InstantiateMsgView,
    check: Option<Result<Seq<char>, cosmwasm_std::StdError>>,
)
    requires
        check_matches(msg.parent, check),
        s.parent_donation is None,
        !(check matches Some(Err(_))),
    ensures
        ({
            let s2 = instantiated(s, sender, msg, check).0;
            &&& countdown_iff_parent(s2)
            &&& s2.state->Some_0.donating_parent == period_of(msg.parent)
            &&& match s2.parent_donation {
                Some(pd) => period_of(msg.parent) == Some(pd.donating_parent_period),
                None => msg.parent is None,
            }
        }),
{
}

/// A migration that succeeds, from storage of an earlier release that records
/// no parent donation or from storage of this release in which a countdown
/// runs exactly when a parent is recorded, leaves a countdown running exactly
/// when a parent is recorded, when the host accepted the parent's address.
pub proof fn lemma_migration_links_countdown_and_parent(
    s: StoreView,
    parent: Option<ParentView>,
    check: Option<Result<Seq<char>, cosmwasm_std::StdError>>,
)
    requires
        check_matches(parent, check),
        !(check matches Some(Err(_))),
        migrated(s, parent, check).1 is Ok,
        s.contract_version == Some(current_version()) ==> countdown_iff_parent(s),
        s.contract_version != Some(current_version()) ==> s.parent_donation is None,
    ensures
        countdown_iff_parent(migrated(s, parent, check).0),
{
    lemma_releases_differ();
}

/// An action keeps a countdown running exactly when a parent is recorded.
pub proof fn lemma_execute_keeps_countdown_link(
    s: StoreView,
    sender: Seq<char>,
    funds: Seq<CoinView>,
    msg: ExecMsg,
)
    requires
        countdown_iff_parent(s),
    ensures
        countdown_iff_parent(executed(s, sender, funds, msg).0),
{
}

/// One action sent to the contract: who sends it, with which funds, and what it asks.
pub struct Call {
    pub sender: Seq<char>,
    pub funds: Seq<CoinView>,
    pub msg: ExecMsg,
}

/// The storage after a sequence of actions, one after another.
pub open spec fn after_calls(s: StoreView, calls: Seq<Call>) -> StoreView
    decreases calls.len(),
{
    if calls.len() == 0 {
        s
    } else {
        let c = calls.last();
        executed(after_calls(s, calls.drop_last()), c.sender, c.funds, c.msg).0
    }
}

/// Whether each action of a sequence can be carried out without overflowing,
/// in the storage that the actions before it left.
pub open spec fn calls_allowed(s: StoreView, calls: Seq<Call>) -> bool
    decreases calls.len(),
{
    if calls.len() == 0 {
        true
    } else {
        let c = calls.last();
        calls_allowed(s, calls.drop_last()) && execute_allowed(
            after_calls(s, calls.drop_last()),
            c.funds,
            c.msg,
        )
    }
}

/// The number of actions of a sequence that paid the parent.
pub open spec fn parent_payments(s: StoreView, calls: Seq<Call>) -> nat
    decreases calls.len(),
{
    if calls.len() == 0 {
        0
    } else {
        let c = calls.last();
        let step = executed(after_calls(s, calls.drop_last()), c.sender, c.funds, c.msg).1;
        parent_payments(s, calls.drop_last()) + if step matches Ok(
            StepView::QueryBalance(BalanceUseView::PayParent { .. }),
        ) {
            1nat
        } else {
            0nat
        }
    }
}

/// One action keeps the owner, the minimal donation, the parent donation and
/// the version; the count grows by one when the action is a donation that
/// reaches the minimal donation and succeeds, and stays otherwise; a
/// withdrawal changes nothing.
pub proof fn lemma_execute_keeps_all_but_count(
    s: StoreView,
    sender: Seq<char>,
    funds: Seq<CoinView>,
    msg: ExecMsg,
)
    requires
        s.state is Some,
        execute_allowed(s, funds, msg),
    ensures
        ({
            let (s2, r) = executed(s, sender, funds, msg);
            let st = s.state->Some_0;
            &&& s2.owner == s.owner
            &&& s2.parent_donation == s.parent_donation
            &&& s2.contract_version == s.contract_version
            &&& s2.state is Some
            &&& s2.state->Some_0.minimal_donation == st.minimal_donation
            &&& s2.state->Some_0.counter == if msg is Donate && qualifies(funds, st.minimal_donation)
                && r is Ok {
                st.counter + 1
            } else {
                st.counter as int
            }
            &&& msg is Withdraw ==> s2 == s
        }),
{
}

/// Over any sequence of actions, the owner, the minimal donation, the parent
/// donation and the version stay as they were, and the count never decreases.
pub proof fn lemma_calls_keep_all_but_count(s: StoreView, calls: Seq<Call>)
    requires
        s.state is Some,
        calls_allowed(s, calls),
    ensures
        ({
            let s2 = after_calls(s, calls);
            &&& s2.owner == s.owner
            &&& s2.parent_donation == s.parent_donation
            &&& s2.contract_version == s.contract_version
            &&& s2.state is Some
            &&& s2.state->Some_0.minimal_donation == s.state->Some_0.minimal_donation
            &&& s2.state->Some_0.counter >= s.state->Some_0.counter
        }),
    decreases calls.len(),
{
    if calls.len() > 0 {
        lemma_calls_keep_all_but_count(s, calls.drop_last());
        let c = calls.last();
        lemma_execute_keeps_all_but_count(after_calls(s, calls.drop_last()), c.sender, c.funds, c.msg);
    }
}

/// The countdown of a contract with a parent of period `k` is `k` minus the
/// count modulo `k`.
pub open spec fn countdown_follows_count(s: StoreView, k: u64) -> bool {
    &&& k >= 1
    &&& s.state is Some
    &&& s.parent_donation is Some
    &&& s.parent_donation->Some_0.donating_parent_period == k
    &&& s.state->Some_0.donating_parent == Some(
        (k - s.state->Some_0.counter as int % k as int) as u64,
    )
}

proof fn lemma_next_count(c: int, k: int)
    requires
        c >= 0,
        k > 0,
    ensures
        0 <= c % k < k,
        c % k == k - 1 ==> (c + 1) % k == 0 && (c + 1) / k == c / k + 1,
        c % k != k - 1 ==> (c + 1) % k == c % k + 1 && (c + 1) / k == c / k,
{
    lemma_mod_pos_bound(c, k);
    lemma_fundamental_div_mod(c, k);
    let q = c / k;
    let r = c % k;
    if r == k - 1 {
        assert(c + 1 == (q + 1) * k + 0) by (nonlinear_arith)
            requires c == k * q + r, r == k - 1;
        lemma_fundamental_div_mod_converse(c + 1, k, q + 1, 0);
    } else {
        assert(c + 1 == q * k + (r + 1)) by (nonlinear_arith)
            requires c == k * q + r;
        lemma_fundamental_div_mod_converse(c + 1, k, q, r + 1);
    }
}

/// One action keeps the countdown at the period minus the count modulo the
/// period, and pays the parent exactly when it brings the count to a multiple
/// of the period.
pub proof fn lemma_execute_keeps_countdown_formula(
    s: StoreView,
    sender: Seq<char>,
    funds: Seq<CoinView>,
    msg: ExecMsg,
    k: u64,
)
    requires
        countdown_follows_count(s, k),
        execute_allowed(s, funds, msg),
    ensures
        ({
            let (s2, r) = executed(s, sender, funds, msg);
            let c = s.state->Some_0.counter as int;
            let c2 = s2.state->Some_0.counter as int;
            &&& countdown_follows_count(s2, k)
            &&& (r matches Ok(StepView::QueryBalance(BalanceUseView::PayParent { .. }))) <==> (c2
                != c && c2 % (k as int) == 0)
            &&& c2 / (k as int) == c / (k as int) + if r matches Ok(
                StepView::QueryBalance(BalanceUseView::PayParent { .. }),
            ) {
                1int
            } else {
                0int
            }
        }),
{
    let st = s.state->Some_0;
    lemma_next_count(st.counter as int, k as int);
}

/// Over any sequence of actions, the countdown stays at the period minus the
/// count modulo the period, and the parent is paid once for each multiple of
/// the period that the count passes.
pub proof fn lemma_calls_pay_parent_once_per_period(s: StoreView, calls: Seq<Call>, k: u64)
    requires
        countdown_follows_count(s, k),
        calls_allowed(s, calls),
    ensures
        countdown_follows_count(after_calls(s, calls), k),
        parent_payments(s, calls) == after_calls(s, calls).state->Some_0.counter as int / (k as int)
            - s.state->Some_0.counter as int / (k as int),
    decreases calls.len(),
{
    if calls.len() > 0 {
        lemma_calls_pay_parent_once_per_period(s, calls.drop_last(), k);
        let c = calls.last();
        lemma_execute_keeps_countdown_formula(after_calls(s, calls.drop_last()), c.sender, c.funds, c.msg, k);
    }
}

/// A contract instantiated with a parent of period `k >= 1` whose address the
/// host accepted, then sent any actions: its countdown is `k` minus the count
/// modulo `k`, and it has paid the parent the count divided by `k` times.
pub proof fn lemma_instantiated_contract_pays_parent_every_period(
    s: StoreView,
    sender: Seq<char>,
    msg: InstantiateMsgView,
    address: Seq<char>,
    calls: Seq<Call>,
)
    requires
        msg.parent is Some,
        msg.parent->Some_0.donating_period >= 1,
        calls_allowed(instantiated(s, sender, msg, Some(Ok(address))).0, calls),
    ensures
        ({
            let s0 = instantiated(s, sender, msg, Some(Ok(address))).0;
            let s2 = after_calls(s0, calls);
            let k = msg.parent->Some_0.donating_period;
            &&& countdown_follows_count(s2, k)
            &&& parent_payments(s0, calls) == s2.state->Some_0.counter as int / (k as int)
        }),
{
    let s0 = instantiated(s, sender, msg, Some(Ok(address))).0;
    let k = msg.parent->Some_0.donating_period;
    assert(0int % (k as int) == 0);
    assert(0int / (k as int) == 0);
    lemma_calls_pay_parent_once_per_period(s0, calls, k);
}

/// A donation in which any coin, at any position, has the minimal donation's
/// denomination and at least its amount raises the count by one, in this
/// release and in the first one. In this release it fails only when it ends a
/// countdown of a contract that recorded no parent.
pub proof fn lemma_any_reaching_coin_counts(
    s: StoreView,
    sender: Seq<char>,
    funds: Seq<CoinView>,
    i: int,
)
    requires
        s.state is Some,
        0 <= i < funds.len(),
        funds[i].0 == s.state->Some_0.minimal_donation.0,
        funds[i].1 >= s.state->Some_0.minimal_donation.1,
        s.state->Some_0.counter < u64::MAX,
    ensures
        ({
            let (s2, r) = donated(s, sender, funds);
            &&& r is Ok ==> value_of(s2) == Ok::<u64, ErrorView>((s.state->Some_0.counter + 1) as u64)
            &&& r is Err ==> s.state->Some_0.donating_parent == Some(1u64) && s.parent_donation is None
        }),
{
    assert(funds[i].0 == s.state->Some_0.minimal_donation.0);
}

/// The same for the first release.
pub proof fn lemma_first_release_any_reaching_coin_counts(
    s: StoreView,
    sender: Seq<char>,
    funds: Seq<CoinView>,
    i: int,
)
    requires
        s.minimal_donation is Some,
        s.counter is Some,
        0 <= i < funds.len(),
        funds[i].0 == s.minimal_donation->Some_0.0,
        funds[i].1 >= s.minimal_donation->Some_0.1,
        s.counter->Some_0 < u64::MAX,
    ensures
        legacy::donated(s, sender, funds).1 is Ok,
        legacy::value_of(legacy::donated(s, sender, funds).0) == Ok::<u64, ErrorView>(
            (s.counter->Some_0 + 1) as u64,
        ),
{
    assert(funds[i].0 == s.minimal_donation->Some_0.0);
}

/// A donation in which no coin has the minimal donation's denomination and at
/// least its amount changes nothing and answers with the unchanged count.
pub proof fn lemma_no_reaching_coin_changes_nothing(s: StoreView, sender: Seq<char>, funds: Seq<CoinView>)
    requires
        s.state is Some,
        forall|i: int|
            0 <= i < funds.len() ==> !(funds[i].0 == s.state->Some_0.minimal_donation.0 && funds[i].1
                >= s.state->Some_0.minimal_donation.1),
    ensures
        donated(s, sender, funds).0 == s,
        donated(s, sender, funds).1 is Ok,
{
    assert(!qualifies(funds, s.state->Some_0.minimal_donation));
}

/// A coin that reaches the minimal donation makes a donation count wherever it
/// stands among the funds: alone, first, or last.
pub proof fn lemma_reaching_coin_counts_at_any_position(
    s: StoreView,
    sender: Seq<char>,
    m: CoinView,
    rest: Seq<CoinView>,
)
    requires
        s.state is Some,
        s.state->Some_0.donating_parent is None,
        m.0 == s.state->Some_0.minimal_donation.0,
        m.1 >= s.state->Some_0.minimal_donation.1,
        s.state->Some_0.counter < u64::MAX,
    ensures
        value_of(donated(s, sender, seq![m]).0) == value_of(donated(s, sender, seq![m] + rest).0),
        value_of(donated(s, sender, seq![m]).0) == value_of(donated(s, sender, rest + seq![m]).0),
        value_of(donated(s, sender, seq![m]).0) == Ok::<u64, ErrorView>((s.state->Some_0.counter + 1) as u64),
{
    lemma_any_reaching_coin_counts(s, sender, seq![m], 0);
    assert((seq![m] + rest)[0] == m);
    lemma_any_reaching_coin_counts(s, sender, seq![m] + rest, 0);
    assert((rest + seq![m])[rest.len() as int] == m);
    lemma_any_reaching_coin_counts(s, sender, rest + seq![m], rest.len() as int);
}

/// Every donation that succeeds answers with the count stored after it: with
/// no message and the attributes action `poke`, the sender, and the new count
/// in decimal; or, when it ends a countdown, with a request to pay the parent
/// that carries the sender and the new count.
pub proof fn lemma_donation_reports_new_count(s: StoreView, sender: Seq<char>, funds: Seq<CoinView>)
    requires
        s.state is Some,
    ensures
        ({
            let (s2, r) = donated(s, sender, funds);
            &&& r is Ok ==> s2.state is Some
            &&& r matches Ok(StepView::Done(resp)) ==> {
                &&& resp.messages == Seq::<MsgView>::empty()
                &&& resp.attributes == seq![
                    ("action"@, "poke"@),
                    ("sender"@, sender),
                    ("counter"@, decimal_digits(s2.state->Some_0.counter as nat)),
                ]
            }
            &&& r matches Ok(StepView::QueryBalance(u)) ==> u == BalanceUseView::PayParent {
                parent: s.parent_donation->Some_0,
                sender,
                counter: s2.state->Some_0.counter,
            }
        }),
{
}

/// Every donation to the first release answers with the count stored after it.
pub proof fn lemma_first_release_donation_reports_new_count(
    s: StoreView,
    sender: Seq<char>,
    funds: Seq<CoinView>,
)
    ensures
        ({
            let (s2, r) = legacy::donated(s, sender, funds);
            r matches Ok(resp) ==> {
                &&& s2.counter is Some
                &&& resp.messages == Seq::<MsgView>::empty()
                &&& resp.attributes == seq![
                    ("action"@, "poke"@),
                    ("sender"@, sender),
                    ("counter"@, decimal_digits(s2.counter->Some_0 as nat)),
                ]
            }
        }),
{
}

/// Paying the parent sends it one message, a donation to its address, whose
/// funds hold, for each coin of the balance at the same position, the same
/// denomination and the amount times the part, divided by 10^18 and rounded
/// down; the answer then names the parent and reports the donation.
pub proof fn lemma_parent_gets_its_part_of_each_coin(
    parent: ParentDonationView,
    sender: Seq<char>,
    counter: u64,
    balance: Seq<CoinView>,
)
    ensures
        ({
            let r = balance_used(BalanceUseView::PayParent { parent, sender, counter }, balance);
            &&& r.messages.len() == 1
            &&& r.messages[0] matches MsgView::WasmExecute { contract_addr, msg, funds } && {
                &&& contract_addr == parent.address
                &&& msg == ExecMsg::Donate {}
                &&& funds.len() == balance.len()
                &&& forall|i: int|
                    0 <= i < balance.len() ==> #[trigger] funds[i] == (
                        balance[i].0,
                        (balance[i].1 as int * parent.part.atomics as int / 1_000_000_000_000_000_000int) as u128,
                    )
            }
            &&& r.attributes == seq![
                ("donated_to_parent"@, parent.address),
                ("action"@, "poke"@),
                ("sender"@, sender),
                ("counter"@, decimal_digits(counter as nat)),
            ]
        }),
{
    let r = balance_used(BalanceUseView::PayParent { parent, sender, counter }, balance);
    assert(r.attributes =~= seq![
        ("donated_to_parent"@, parent.address),
        ("action"@, "poke"@),
        ("sender"@, sender),
        ("counter"@, decimal_digits(counter as nat)),
    ]);
}

/// Instantiating records the sender as owner, a zero count with the message's
/// minimal donation, and, for a parent whose address the host accepted, a
/// parent donation with that address and the message's period and part, and
/// a countdown at that period; without a parent, no countdown and the parent
/// donation as it was.
pub proof fn lemma_instantiate_records_message(
    s: StoreView,
    sender: Seq<char>,
    msg: InstantiateMsgView,
    address: Seq<char>,
)
    ensures
        ({
            let check = if msg.parent is Some {
                Some(Ok::<Seq<char>, cosmwasm_std::StdError>(address))
            } else {
                None
            };
            let (s2, r) = instantiated(s, sender, msg, check);
            &&& r == Ok::<_, ErrorView>(empty_response())
            &&& s2.owner == Some(sender)
            &&& s2.contract_version == Some((CONTRACT_NAME@, CONTRACT_VERSION@))
            &&& match msg.parent {
                Some(p) => {
                    &&& s2.state == Some(
                        StateView {
                            counter: 0,
                            minimal_donation: msg.minimal_donation,
                            donating_parent: Some(p.donating_period),
                        },
                    )
                    &&& s2.parent_donation == Some(
                        ParentDonationView {
                            address,
                            donating_parent_period: p.donating_period,
                            part: p.part,
                        },
                    )
                },
                None => {
                    &&& s2.state == Some(
                        StateView { counter: 0, minimal_donation: msg.minimal_donation, donating_parent: None },
                    )
                    &&& s2.parent_donation == s.parent_donation
                },
            }
        }),
{
}

/// Migrating the storage of the second release keeps its count and minimal
/// donation; with a parent whose address the host accepted it records that
/// parent's address, period and part and starts the countdown at the period;
/// without a parent it runs no countdown and keeps the parent donation.
pub proof fn lemma_migration_from_second_records_parent(
    s: StoreView,
    parent: Option<ParentView>,
    address: Seq<char>,
)
    requires
        s.contract_version == Some((CONTRACT_NAME@, SECOND_VERSION@)),
        s.state is Some,
    ensures
        ({
            let check = if parent is Some {
                Some(Ok::<Seq<char>, cosmwasm_std::StdError>(address))
            } else {
                None
            };
            let (s2, r) = migrated(s, parent, check);
            let st = s.state->Some_0;
            &&& r == Ok::<_, ErrorView>(empty_response())
            &&& s2.contract_version == Some((CONTRACT_NAME@, CONTRACT_VERSION@))
            &&& match parent {
                Some(p) => {
                    &&& s2.state == Some(
                        StateView {
                            counter: st.counter,
                            minimal_donation: st.minimal_donation,
                            donating_parent: Some(p.donating_period),
                        },
                    )
                    &&& s2.parent_donation == Some(
                        ParentDonationView {
                            address,
                            donating_parent_period: p.donating_period,
                            part: p.part,
                        },
                    )
                },
                None => {
                    &&& s2.state == Some(
                        StateView {
                            counter: st.counter,
                            minimal_donation: st.minimal_donation,
                            donating_parent: None,
                        },
                    )
                    &&& s2.parent_donation == s.parent_donation
                },
            }
        }),
{
    lemma_releases_differ();
}

/// Migrating the storage of the first release moves its counter and minimal
/// donation into the state; with a parent whose address the host accepted it
/// records that parent's address, period and part and starts the countdown at
/// the period; without a parent it runs no countdown and keeps the parent donation.
pub proof fn lemma_migration_from_first_records_parent(
    s: StoreView,
    parent: Option<ParentView>,
    address: Seq<char>,
)
    requires
        s.contract_version == Some((CONTRACT_NAME@, FIRST_VERSION@)),
        s.counter is Some,
        s.minimal_donation is Some,
    ensures
        ({
            let check = if parent is Some {
                Some(Ok::<Seq<char>, cosmwasm_std::StdError>(address))
            } else {
                None
            };
            let (s2, r) = migrated(s, parent, check);
            &&& r == Ok::<_, ErrorView>(empty_response())
            &&& s2.contract_version == Some((CONTRACT_NAME@, CONTRACT_VERSION@))
            &&& match parent {
                Some(p) => {
                    &&& s2.state == Some(
                        StateView {
                            counter: s.counter->Some_0,
                            minimal_donation: s.minimal_donation->Some_0,
                            donating_parent: Some(p.donating_period),
                        },
                    )
                    &&& s2.parent_donation == Some(
                        ParentDonationView {
                            address,
                            donating_parent_period: p.donating_period,
                            part: p.part,
                        },
                    )
                },
                None => {
                    &&& s2.state == Some(
                        StateView {
                            counter: s.counter->Some_0,
                            minimal_donation: s.minimal_donation->Some_0,
                            donating_parent: None,
                        },
                    )
                    &&& s2.parent_donation == s.parent_donation
                },
            }
        }),
{
    lemma_releases_differ();
}

} // verus!
