use vstd::prelude::*;
use crate::errors::ApiError;

verus! {

/// A 256-bit unsigned integer held as four 64-bit limbs, least significant
/// first: the fixed-width numeric type that the entrypoint contract
/// interface mandates for every gas, fee and nonce field.
#[derive(Clone, Copy, Debug, PartialEq, Eq, Structural)]
pub struct Uint256 {
    pub limb0: u64,
    pub limb1: u64,
    pub limb2: u64,
    pub limb3: u64,
}

impl Uint256 {
    /// The numeric value of the four limbs.
    pub open spec fn as_nat(self) -> nat {
        self.limb0 as nat + self.limb1 as nat * 0x1_0000_0000_0000_0000
            + self.limb2 as nat * 0x1_0000_0000_0000_0000_0000_0000_0000_0000
            + self.limb3 as nat
            * 0x1_0000_0000_0000_0000_0000_0000_0000_0000_0000_0000_0000_0000
    }

    /// The 256-bit value that a 64-bit value widens to.
    pub open spec fn spec_from_u64(v: u64) -> Uint256 {
        Uint256 { limb0: v, limb1: 0, limb2: 0, limb3: 0 }
    }

    /// Whether the value fits back into the 64-bit source width.
    pub open spec fn fits_u64(self) -> bool {
        self.as_nat() <= u64::MAX as nat
    }

    /// Lossless widening of an unsigned 64-bit value.
    pub fn from_u64(v: u64) -> (r: Uint256)
        ensures
            r == Uint256::spec_from_u64(v),
            r.as_nat() == v as nat,
    {
        Uint256 { limb0: v, limb1: 0, limb2: 0, limb3: 0 }
    }

    /// Checked widening from the signed source representation: a negative
    /// value is rejected, never wrapped or reinterpreted as a large
    /// unsigned value.
    pub fn checked_from_i64(v: i64) -> (r: Result<Uint256, ApiError>)
        ensures
            v >= 0 ==> r == Ok::<Uint256, ApiError>(Uint256::spec_from_u64(v as u64)),
            v < 0 ==> r == Err::<Uint256, ApiError>(ApiError::InvalidFieldValue),
    {
        if v < 0 {
            Err(ApiError::InvalidFieldValue)
        } else {
            Ok(Uint256::from_u64(v as u64))
        }
    }

    /// The low 64 bits; equal to the whole value whenever that value fits
    /// the source width.
    pub fn low_u64(&self) -> (r: u64)
        ensures
            r == self.limb0,
            self.fits_u64() ==> r as nat == self.as_nat(),
    {
        proof {
            if self.fits_u64() {
                if self.limb1 > 0 || self.limb2 > 0 || self.limb3 > 0 {
                    assert(self.as_nat() > u64::MAX as nat);
                }
            }
        }
        self.limb0
    }
}

/// Law: widening a 64-bit value is lossless — the widened value equals the
/// source, still fits the source width, and its low limb is the source
/// value itself, so reducing it back to 64 bits loses nothing.
pub proof fn lemma_widen_round_trip(v: u64)
    ensures
        Uint256::spec_from_u64(v).as_nat() == v as nat,
        Uint256::spec_from_u64(v).fits_u64(),
        Uint256::spec_from_u64(v).limb0 == v,
{
}

} // verus!
