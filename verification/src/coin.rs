//! Tokens: an amount of one denomination, the fixed-point fraction that a
//! parent contract receives, and the computations the contract makes on them.
use vstd::prelude::*;

use crate::outside::{decimal_share, decimal_share_spec};

verus! {

/// An amount of tokens of one denomination.
#[derive(Clone, Debug, PartialEq, Eq)]
pub struct Coin {
    pub denom: String,
    pub amount: u128,
}

/// What a coin is: its denomination and its amount.
pub type CoinView = (Seq<char>, u128);

impl View for Coin {
    type V = CoinView;

    open spec fn view(&self) -> CoinView {
        (self.denom@, self.amount)
    }
}

/// The views of a list of coins, in order.
pub open spec fn coins_view(coins: Seq<Coin>) -> Seq<CoinView> {
    coins.map_values(|c: Coin| c@)
}

impl Coin {
    /// A coin of `amount` tokens of `denom`.
    pub fn new(amount: u128, denom: &str) -> (coin: Coin)
        ensures
            coin@ == (denom@, amount),
    {
        Coin { denom: String::from_str(denom), amount }
    }

    /// A copy of this coin.
    pub fn duplicate(&self) -> (coin: Coin)
        ensures
            coin == *self,
            coin@ == self@,
    {
        Coin { denom: self.denom.clone(), amount: self.amount }
    }
}

/// A copy of a list of coins.
pub fn duplicate_coins(coins: &Vec<Coin>) -> (copy: Vec<Coin>)
    ensures
        copy@ == coins@,
        coins_view(copy@) == coins_view(coins@),
{
    let mut copy: Vec<Coin> = Vec::new();
    let mut i: usize = 0;
    while i < coins.len()
        invariant
            i <= coins.len(),
            copy@ == coins@.subrange(0, i as int),
        decreases coins.len() - i,
    {
        copy.push(coins[i].duplicate());
        i = i + 1;
    }
    assert(copy@ == coins@);
    copy
}

/// A fixed-point number with 18 fractional digits, held as its count of
/// 10^-18 units (`atomics`), as `cosmwasm_std::Decimal` holds it.
#[derive(Clone, Copy, Debug, PartialEq, Eq, Structural)]
pub struct Decimal {
    pub atomics: u128,
}

impl Decimal {
    /// The decimal `x / 100`.
    pub fn percent(x: u64) -> (d: Decimal)
        ensures
            d.atomics == x as int * 10_000_000_000_000_000,
    {
        assert(x as int * 10_000_000_000_000_000 <= u128::MAX) by (nonlinear_arith)
            requires x <= u64::MAX;
        Decimal { atomics: x as u128 * 10_000_000_000_000_000u128 }
    }
}

/// Whether some coin among `funds` is of the denomination of `minimal` and at
/// least as large: the condition under which a donation counts.
pub open spec fn qualifies(funds: Seq<CoinView>, minimal: CoinView) -> bool {
    exists|i: int| 0 <= i < funds.len() && #[trigger] funds[i].0 == minimal.0 && funds[i].1 >= minimal.1
}

/// Whether `funds` hold a coin of the denomination of `minimal` with at least its amount.
pub fn donation_qualifies(funds: &Vec<Coin>, minimal: &Coin) -> (ok: bool)
    ensures
        ok == qualifies(coins_view(funds@), minimal@),
{
    let ghost fv = coins_view(funds@);
    let mut i: usize = 0;
    while i < funds.len()
        invariant
            i <= funds.len(),
            fv == coins_view(funds@),
            forall|j: int| 0 <= j < i ==> !(#[trigger] fv[j].0 == minimal@.0 && fv[j].1 >= minimal@.1),
        decreases funds.len() - i,
    {
        let coin = &funds[i];
        if coin.denom == minimal.denom && coin.amount >= minimal.amount {
            assert(fv[i as int] == coin@);
            assert(fv[i as int].0 == minimal@.0 && fv[i as int].1 >= minimal@.1);
            return true;
        }
        assert(fv[i as int] == coin@);
        i = i + 1;
    }
    false
}

/// Each coin of `balance` scaled by `part`: the same denominations in the same
/// order, each amount multiplied by `part` and rounded down.
pub open spec fn scaled_coins(balance: Seq<CoinView>, part: Decimal) -> Seq<CoinView> {
    balance.map_values(|c: CoinView| (c.0, decimal_share_spec(c.1, part.atomics) as u128))
}

/// Whether scaling every coin of `balance` by `part` stays within 128 bits.
pub open spec fn scaling_fits(balance: Seq<CoinView>, part: Decimal) -> bool {
    forall|i: int| 0 <= i < balance.len() ==> decimal_share_spec(#[trigger] balance[i].1, part.atomics) <= u128::MAX
}

/// Whether scaling every coin of `balance` by `part` stays within 128 bits.
pub fn scaling_fits_exec(balance: &Vec<Coin>, part: Decimal) -> (fits: bool)
    ensures
        fits == scaling_fits(coins_view(balance@), part),
{
    let ghost bv = coins_view(balance@);
    let mut i: usize = 0;
    while i < balance.len()
        invariant
            i <= balance.len(),
            bv == coins_view(balance@),
            forall|j: int| 0 <= j < i ==> decimal_share_spec(#[trigger] bv[j].1, part.atomics) <= u128::MAX,
        decreases balance.len() - i,
    {
        let amount = balance[i].amount;
        assert(bv[i as int].1 == amount);
        if !share_fits(amount, part.atomics) {
            return false;
        }
        i = i + 1;
    }
    true
}

/// Whether `amount * part / 10^18` fits in 128 bits.
fn share_fits(amount: u128, part: u128) -> (fits: bool)
    ensures
        fits == (decimal_share_spec(amount, part) <= u128::MAX),
{
    // Write part = ph * 10^18 + pl with pl < 10^18. Then
    // amount * part / 10^18 = amount * ph + (amount * pl) / 10^18.
    let f: u128 = 1_000_000_000_000_000_000u128;
    let ph = part / f;
    let pl = part % f;
    proof {
        lemma_share_split(amount as int, part as int, ph as int, pl as int, f as int);
    }
    if ph != 0 && amount > u128::MAX / ph {
        proof {
            lemma_product_exceeds(amount as int, ph as int);
        }
        return false;
    }
    proof {
        lemma_product_fits(amount as int, ph as int);
    }
    let high = amount * ph;
    // amount * pl / 10^18 < amount, so it fits; compute it as (amount / f) * pl + ((amount % f) * pl) / f.
    let ah = amount / f;
    let al = amount % f;
    proof {
        lemma_low_split(amount as int, pl as int, ah as int, al as int, f as int);
    }
    let low_a = ah * pl;
    let low_b = (al * pl) / f;
    if low_a > u128::MAX - low_b {
        return false;
    }
    let low = low_a + low_b;
    low <= u128::MAX - high
}

proof fn lemma_share_split(amount: int, part: int, ph: int, pl: int, f: int)
    requires
        f == 1_000_000_000_000_000_000,
        amount >= 0,
        part >= 0,
        ph == part / f,
        pl == part % f,
    ensures
        (amount * part) / f == amount * ph + (amount * pl) / f,
        0 <= pl < f,
{
    assert(part == ph * f + pl) by (nonlinear_arith)
        requires f > 0, ph == part / f, pl == part % f;
    assert(amount * part == amount * ph * f + amount * pl) by (nonlinear_arith)
        requires part == ph * f + pl;
    assert((amount * ph * f + amount * pl) / f == amount * ph + (amount * pl) / f) by (nonlinear_arith)
        requires f > 0;
}

proof fn lemma_product_exceeds(a: int, b: int)
    requires
        b > 0,
        a > (u128::MAX as int) / b,
    ensures
        a * b > u128::MAX,
{
    assert(a * b > u128::MAX) by (nonlinear_arith)
        requires b > 0, a > (u128::MAX as int) / b;
}

proof fn lemma_product_fits(a: int, b: int)
    requires
        a >= 0,
        b >= 0,
        b == 0 || a <= (u128::MAX as int) / b,
    ensures
        a * b <= u128::MAX,
{
    if b != 0 {
        assert(a * b <= u128::MAX) by (nonlinear_arith)
            requires b > 0, a <= (u128::MAX as int) / b, a >= 0;
    }
}

proof fn lemma_low_split(amount: int, pl: int, ah: int, al: int, f: int)
    requires
        f == 1_000_000_000_000_000_000,
        amount >= 0,
        0 <= pl < f,
        ah == amount / f,
        al == amount % f,
    ensures
        (amount * pl) / f == ah * pl + (al * pl) / f,
        al * pl <= u128::MAX,
        ah * pl <= amount,
{
    assert(amount == ah * f + al) by (nonlinear_arith)
        requires f > 0, ah == amount / f, al == amount % f;
    assert(amount * pl == ah * pl * f + al * pl) by (nonlinear_arith)
        requires amount == ah * f + al;
    assert((ah * pl * f + al * pl) / f == ah * pl + (al * pl) / f) by (nonlinear_arith)
        requires f > 0;
    assert(al * pl <= u128::MAX) by (nonlinear_arith)
        requires 0 <= al < f, 0 <= pl < f, f == 1_000_000_000_000_000_000;
    assert(ah * pl <= amount) by (nonlinear_arith)
        requires 0 <= pl < f, amount == ah * f + al, ah >= 0, al >= 0;
}

/// Each coin of `balance` scaled by `part`, rounded down, in the same order.
pub fn scale_coins(balance: &Vec<Coin>, part: Decimal) -> (scaled: Vec<Coin>)
    requires
        scaling_fits(coins_view(balance@), part),
    ensures
        coins_view(scaled@) == scaled_coins(coins_view(balance@), part),
{
    let ghost bv = coins_view(balance@);
    let mut scaled: Vec<Coin> = Vec::new();
    let mut i: usize = 0;
    while i < balance.len()
        invariant
            i <= balance.len(),
            bv == coins_view(balance@),
            scaling_fits(bv, part),
            coins_view(scaled@) == scaled_coins(bv, part).subrange(0, i as int),
        decreases balance.len() - i,
    {
        let coin = &balance[i];
        assert(bv[i as int] == coin@);
        assert(decimal_share_spec(bv[i as int].1, part.atomics) <= u128::MAX);
        let share = decimal_share(coin.amount, part.atomics);
        let ghost before = scaled@;
        scaled.push(Coin { denom: coin.denom.clone(), amount: share });
        assert(coins_view(scaled@) == coins_view(before).push((coin.denom@, share)));
        assert(scaled_coins(bv, part).subrange(0, i + 1) == scaled_coins(bv, part).subrange(0, i as int).push(
            scaled_coins(bv, part)[i as int],
        ));
        i = i + 1;
    }
    assert(scaled_coins(bv, part).subrange(0, balance.len() as int) == scaled_coins(bv, part));
    scaled
}

} // verus!
