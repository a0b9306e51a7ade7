//! Arithmetic on gas amounts and fees, in wei and in units of gas.
use vstd::prelude::*;

verus! {

/// `gas` with `percent` per cent of it added, the added part rounded down.
pub open spec fn raised(gas: nat, percent: nat) -> nat {
    gas + (gas * percent) / 100
}

/// Whether `raised(gas, percent)` can be computed in 128 bits, intermediate results included.
pub open spec fn can_raise(gas: u128, percent: u128) -> bool {
    &&& gas * percent <= u128::MAX
    &&& raised(gas as nat, percent as nat) <= u128::MAX
}

/// Adds `percent` per cent to `gas`.
pub fn raise(gas: u128, percent: u128) -> (more: u128)
    requires
        can_raise(gas, percent),
    ensures
        more == raised(gas as nat, percent as nat),
        more >= gas,
        100 * (more - gas) <= gas * percent < 100 * (more - gas) + 100,
{
    gas + (gas * percent) / 100
}

/// Whether [`raise`] can be given these amounts.
pub fn raises(gas: u128, percent: u128) -> (possible: bool)
    ensures
        possible == can_raise(gas, percent),
        possible == (gas * percent <= u128::MAX && gas + (gas * percent) / 100 <= u128::MAX),
{
    match gas.checked_mul(percent) {
        Some(product) => gas.checked_add(product / 100).is_some(),
        None => false,
    }
}

/// Raising adds `percent` hundredths of the gas: the whole units of it and nothing more.
pub proof fn law_raising_adds_the_percentage(gas: nat, percent: nat)
    ensures
        raised(gas, percent) >= gas,
        100 * (raised(gas, percent) - gas) <= gas * percent,
        gas * percent < 100 * (raised(gas, percent) - gas) + 100,
{
}

/// Gas can be raised exactly where neither the product with the percentage nor the sum exceeds 128
/// bits.
pub proof fn law_raising_is_possible_within_range(gas: u128, percent: u128)
    ensures
        can_raise(gas, percent) == (gas * percent <= u128::MAX && gas + (gas * percent) / 100
            <= u128::MAX),
{
}

} // verus!
