//! The contract's unsigned 256-bit integers.
use vstd::prelude::*;

verus! {

/// An unsigned 256-bit integer: four limbs, the least significant one first.
#[derive(Clone, Copy, Debug, PartialEq, Eq)]
pub struct U256 {
    pub limbs: [u64; 4],
}

/// The integer that four limbs stand for, the least significant one first.
pub open spec fn limbs_value(limbs: Seq<u64>) -> nat {
    (limbs[0] + limbs[1] * 0x1_0000_0000_0000_0000 + limbs[2]
        * 0x1_0000_0000_0000_0000_0000_0000_0000_0000 + limbs[3]
        * 0x1_0000_0000_0000_0000_0000_0000_0000_0000_0000_0000_0000_0000) as nat
}

impl View for U256 {
    type V = nat;

    open spec fn view(&self) -> nat {
        limbs_value(self.limbs@)
    }
}

/// An integer does not fit into 64 bits: how many bits its type has, what is left of it in 64
/// bits, and the largest integer that fits.
#[derive(Clone, Copy, Debug, PartialEq, Eq, Structural)]
pub struct UintOverflow {
    pub bits: usize,
    pub wrapped: u64,
    pub max: u64,
}

/// What taking `value`, an integer of 256 bits, for one of 64 bits gives.
pub open spec fn narrowed(value: nat) -> Result<u64, UintOverflow> {
    if value <= u64::MAX {
        Ok(value as u64)
    } else {
        Err(
            UintOverflow {
                bits: 256,
                wrapped: (value % 0x1_0000_0000_0000_0000) as u64,
                max: u64::MAX,
            },
        )
    }
}

/// `Uint::<256, 4>::from` of `alloy_primitives` (its `U256`) on a `u64`: the integer of the same
/// value, whose limbs are then read with `Uint::into_limbs`.
#[verifier::external_body]
fn limbs_from_u64(value: u64) -> (limbs: [u64; 4])
    ensures
        limbs_value(limbs@) == value,
{
    alloy_primitives::U256::from(value).into_limbs()
}

/// `u64::try_from` on a `Uint::<256, 4>` of `alloy_primitives` (its `U256`), made from its limbs
/// with `Uint::from_limbs`: the integer of the same value where it fits into 64 bits, and
/// otherwise `FromUintError::Overflow` with the bits of the type, the lowest 64 bits of the value
/// and the largest `u64`.
#[verifier::external_body]
fn u64_from_limbs(limbs: [u64; 4]) -> (result: Result<u64, UintOverflow>)
    ensures
        result == narrowed(limbs_value(limbs@)),
{
    match u64::try_from(alloy_primitives::U256::from_limbs(limbs)) {
        Ok(value) => Ok(value),
        Err(alloy_primitives::ruint::FromUintError::Overflow(bits, wrapped, max)) => {
            Err(UintOverflow { bits, wrapped, max })
        },
    }
}

impl U256 {
    /// The integer of the same value.
    pub fn from_u64(value: u64) -> (uint: U256)
        ensures
            uint@ == value,
            uint.limbs@[0] == value,
            uint.limbs@[1] == 0 && uint.limbs@[2] == 0 && uint.limbs@[3] == 0,
    {
        U256 { limbs: limbs_from_u64(value) }
    }

    /// The integer in 64 bits, if it fits.
    pub fn to_u64(&self) -> (result: Result<u64, UintOverflow>)
        ensures
            result == narrowed(self@),
            result is Ok == (self.limbs@[1] == 0 && self.limbs@[2] == 0 && self.limbs@[3] == 0),
            result matches Ok(value) ==> value == self.limbs@[0],
            result matches Err(overflow) ==> overflow.bits == 256 && overflow.wrapped
                == self.limbs@[0] && overflow.max == 0xFFFF_FFFF_FFFF_FFFF,
    {
        u64_from_limbs(self.limbs)
    }
}

/// The integer of four limbs is what they stand for in the positional system whose base is two to
/// the power of sixty-four.
pub proof fn law_limbs_are_digits(uint: U256)
    ensures
        uint@ == ((uint.limbs@[3] * 0x1_0000_0000_0000_0000 + uint.limbs@[2])
            * 0x1_0000_0000_0000_0000 + uint.limbs@[1]) * 0x1_0000_0000_0000_0000 + uint.limbs@[0],
{
}

/// An integer is taken for one of 64 bits exactly when it fits, and then for itself. Otherwise the
/// error tells the width of its type, what it leaves over multiples of two to the power of
/// sixty-four, and the largest integer that fits.
pub proof fn law_narrowing_keeps_what_fits(value: nat)
    ensures
        narrowed(value) is Ok == (value < 0x1_0000_0000_0000_0000),
        narrowed(value) matches Ok(narrow) ==> narrow == value,
        narrowed(value) matches Err(overflow) ==> overflow.bits == 256 && overflow.max
            == 0xFFFF_FFFF_FFFF_FFFF && (value - overflow.wrapped) % 0x1_0000_0000_0000_0000 == 0,
{
}

} // verus!
