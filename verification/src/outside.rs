//! The calls this library makes into code it does not verify: the fixed-point
//! multiplication of `cosmwasm_std`, the decimal formatting of `u64` by std,
//! and the error type of `cosmwasm_std` that is carried through unchanged.
use vstd::prelude::*;

verus! {

/// `cosmwasm_std::StdError`, the error the host reports (for instance when it
/// rejects an address). The library never looks inside it; it only hands it on.
#[verifier::external_type_specification]
#[verifier::external_body]
pub struct ExStdError(cosmwasm_std::StdError);

/// The number of atomic units in one whole `Decimal`: 10^18.
pub open spec fn decimal_fractional() -> nat {
    1_000_000_000_000_000_000
}

/// The share `amount * part` where `part` is a fixed-point number with 18
/// fractional digits, rounded down.
pub open spec fn decimal_share_spec(amount: u128, part_atomics: u128) -> int {
    (amount as int * part_atomics as int) / (decimal_fractional() as int)
}

/// `<Uint128 as Mul<Decimal>>::mul` of `cosmwasm_std`: it returns zero when either
/// side is zero and otherwise `amount.multiply_ratio(part, 10^18)`, which computes
/// `amount * part / 10^18` rounded down in 256-bit arithmetic and panics when the
/// result does not fit in 128 bits. The contract claims exactly that result, for
/// the inputs on which it does not panic.
#[verifier::external_body]
pub(crate) fn decimal_share(amount: u128, part_atomics: u128) -> (share: u128)
    requires
        decimal_share_spec(amount, part_atomics) <= u128::MAX,
    ensures
        share == decimal_share_spec(amount, part_atomics),
{
    (cosmwasm_std::Uint128::new(amount) * cosmwasm_std::Decimal::raw(part_atomics)).u128()
}

/// The character of a decimal digit `d < 10`.
pub open spec fn digit_char(d: nat) -> char {
    ((d + 48) as u32) as char
}

/// The decimal representation of `n`, without sign or leading zeros.
pub open spec fn decimal_digits(n: nat) -> Seq<char>
    decreases n,
{
    if n < 10 {
        seq![digit_char(n)]
    } else {
        decimal_digits(n / 10).push(digit_char(n % 10))
    }
}

/// `ToString::to_string` on a `u64` (through its `Display` impl in std), which
/// writes the number in base ten with no sign, padding or leading zeros.
#[verifier::external_body]
pub(crate) fn u64_to_string(n: u64) -> (text: String)
    ensures
        text@ == decimal_digits(n as nat),
{
    n.to_string()
}

} // verus!
