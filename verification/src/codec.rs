use vstd::prelude::*;
use crate::address::Address;
use crate::errors::ApiError;
use crate::uint256::Uint256;

verus! {

/// The internal, chain-agnostic operation record as an upstream request
/// handler produces it. Integer fields arrive in a signed 64-bit source
/// representation; the invariant that this layer enforces before widening is
/// that each is non-negative. Byte fields carry no length invariant here.
#[derive(Clone, Debug)]
pub struct UserOperation {
    pub sender: Address,
    pub nonce: i64,
    pub init_code: Vec<u8>,
    pub calldata: Vec<u8>,
    pub call_gas_limit: i64,
    pub verification_gas_limit: i64,
    pub pre_verification_gas: i64,
    pub max_fee_per_gas: i64,
    pub max_priority_fee_per_gas: i64,
    pub signature: Vec<u8>,
    pub paymaster_and_data: Vec<u8>,
}

impl UserOperation {
    /// Every integer field is non-negative, so each widens safely.
    pub open spec fn valid(self) -> bool {
        &&& self.nonce >= 0
        &&& self.call_gas_limit >= 0
        &&& self.verification_gas_limit >= 0
        &&& self.pre_verification_gas >= 0
        &&& self.max_fee_per_gas >= 0
        &&& self.max_priority_fee_per_gas >= 0
    }
}

/// The parameter record in the exact shape the entrypoint contract interface
/// expects: every bounded integer field widened to 256 bits, byte fields
/// carried unchanged.
#[derive(Clone, Debug)]
pub struct EntryPointCallParams {
    pub sender: Address,
    pub nonce: Uint256,
    pub init_code: Vec<u8>,
    pub call_data: Vec<u8>,
    pub call_gas_limit: Uint256,
    pub verification_gas_limit: Uint256,
    pub pre_verification_gas: Uint256,
    pub max_fee_per_gas: Uint256,
    pub max_priority_fee_per_gas: Uint256,
    pub signature: Vec<u8>,
    pub paymaster_and_data: Vec<u8>,
}

/// The exact relation between a source operation and its translation: every
/// integer field widened without change of value, every byte field and the
/// sender byte-for-byte identical.
pub open spec fn translated(op: UserOperation, p: EntryPointCallParams) -> bool {
    &&& p.sender.bytes@ == op.sender.bytes@
    &&& p.nonce == Uint256::spec_from_u64(op.nonce as u64)
    &&& p.init_code@ == op.init_code@
    &&& p.call_data@ == op.calldata@
    &&& p.call_gas_limit == Uint256::spec_from_u64(op.call_gas_limit as u64)
    &&& p.verification_gas_limit == Uint256::spec_from_u64(op.verification_gas_limit as u64)
    &&& p.pre_verification_gas == Uint256::spec_from_u64(op.pre_verification_gas as u64)
    &&& p.max_fee_per_gas == Uint256::spec_from_u64(op.max_fee_per_gas as u64)
    &&& p.max_priority_fee_per_gas == Uint256::spec_from_u64(op.max_priority_fee_per_gas as u64)
    &&& p.signature@ == op.signature@
    &&& p.paymaster_and_data@ == op.paymaster_and_data@
}

/// Pure translation of an operation record into the entrypoint contract's
/// parameter structure: each integer field is widened by an explicit checked
/// conversion, each byte payload passes through unchanged. A negative source
/// field fails with `InvalidFieldValue` — it is never wrapped into a large
/// unsigned value.
pub fn get_entry_point_user_operation_payload(user_op: UserOperation) -> (r: Result<
    EntryPointCallParams,
    ApiError,
>)
    ensures
        user_op.valid() ==> (r matches Ok(p) && translated(user_op, p)),
        !user_op.valid() ==> r == Err::<EntryPointCallParams, ApiError>(
            ApiError::InvalidFieldValue,
        ),
{
    let nonce = match Uint256::checked_from_i64(user_op.nonce) {
        Ok(v) => v,
        Err(e) => {
            return Err(e);
        },
    };
    let call_gas_limit = match Uint256::checked_from_i64(user_op.call_gas_limit) {
        Ok(v) => v,
        Err(e) => {
            return Err(e);
        },
    };
    let verification_gas_limit = match Uint256::checked_from_i64(user_op.verification_gas_limit) {
        Ok(v) => v,
        Err(e) => {
            return Err(e);
        },
    };
    let pre_verification_gas = match Uint256::checked_from_i64(user_op.pre_verification_gas) {
        Ok(v) => v,
        Err(e) => {
            return Err(e);
        },
    };
    let max_fee_per_gas = match Uint256::checked_from_i64(user_op.max_fee_per_gas) {
        Ok(v) => v,
        Err(e) => {
            return Err(e);
        },
    };
    let max_priority_fee_per_gas = match Uint256::checked_from_i64(
        user_op.max_priority_fee_per_gas,
    ) {
        Ok(v) => v,
        Err(e) => {
            return Err(e);
        },
    };
    Ok(
        EntryPointCallParams {
            sender: user_op.sender,
            nonce,
            init_code: user_op.init_code,
            call_data: user_op.calldata,
            call_gas_limit,
            verification_gas_limit,
            pre_verification_gas,
            max_fee_per_gas,
            max_priority_fee_per_gas,
            signature: user_op.signature,
            paymaster_and_data: user_op.paymaster_and_data,
        },
    )
}

/// Law: translation is deterministic. Any two translations of the same
/// operation agree on every field, so translating twice gives field-wise
/// equal results.
pub proof fn lemma_translate_deterministic(
    op: UserOperation,
    p1: EntryPointCallParams,
    p2: EntryPointCallParams,
)
    requires
        translated(op, p1),
        translated(op, p2),
    ensures
        p1.sender.bytes@ == p2.sender.bytes@,
        p1.nonce == p2.nonce,
        p1.init_code@ == p2.init_code@,
        p1.call_data@ == p2.call_data@,
        p1.call_gas_limit == p2.call_gas_limit,
        p1.verification_gas_limit == p2.verification_gas_limit,
        p1.pre_verification_gas == p2.pre_verification_gas,
        p1.max_fee_per_gas == p2.max_fee_per_gas,
        p1.max_priority_fee_per_gas == p2.max_priority_fee_per_gas,
        p1.signature@ == p2.signature@,
        p1.paymaster_and_data@ == p2.paymaster_and_data@,
{
}

/// Law: widening is round-trip safe. For a valid operation, every widened
/// integer field of the translation holds exactly the source value, still
/// fits the 64-bit source width, and reduces back to it; every byte field —
/// the empty ones included — is byte-for-byte the source payload.
pub proof fn lemma_translate_round_trip(op: UserOperation, p: EntryPointCallParams)
    requires
        op.valid(),
        translated(op, p),
    ensures
        p.nonce.as_nat() == op.nonce as int,
        p.nonce.fits_u64(),
        p.nonce.limb0 == op.nonce as u64,
        p.call_gas_limit.as_nat() == op.call_gas_limit as int,
        p.call_gas_limit.fits_u64(),
        p.call_gas_limit.limb0 == op.call_gas_limit as u64,
        p.verification_gas_limit.as_nat() == op.verification_gas_limit as int,
        p.verification_gas_limit.fits_u64(),
        p.verification_gas_limit.limb0 == op.verification_gas_limit as u64,
        p.pre_verification_gas.as_nat() == op.pre_verification_gas as int,
        p.pre_verification_gas.fits_u64(),
        p.pre_verification_gas.limb0 == op.pre_verification_gas as u64,
        p.max_fee_per_gas.as_nat() == op.max_fee_per_gas as int,
        p.max_fee_per_gas.fits_u64(),
        p.max_fee_per_gas.limb0 == op.max_fee_per_gas as u64,
        p.max_priority_fee_per_gas.as_nat() == op.max_priority_fee_per_gas as int,
        p.max_priority_fee_per_gas.fits_u64(),
        p.max_priority_fee_per_gas.limb0 == op.max_priority_fee_per_gas as u64,
        p.sender.bytes@ == op.sender.bytes@,
        p.init_code@ == op.init_code@,
        p.call_data@ == op.calldata@,
        p.signature@ == op.signature@,
        p.paymaster_and_data@ == op.paymaster_and_data@,
{
}

} // verus!
