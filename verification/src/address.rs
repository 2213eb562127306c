use vstd::prelude::*;
use crate::errors::ConfigError;

verus! {

/// Number of bytes in an entrypoint or account address.
pub const ADDRESS_LEN: usize = 20;

/// An on-chain address: a fixed-length byte sequence.
#[derive(Clone, Debug)]
pub struct Address {
    pub bytes: Vec<u8>,
}

impl Address {
    /// Well-formedness: exactly `ADDRESS_LEN` bytes.
    pub open spec fn wf(self) -> bool {
        self.bytes@.len() == ADDRESS_LEN
    }

    /// Checked construction from raw bytes; a sequence of the wrong length
    /// is a malformed configuration entry.
    pub fn new(bytes: Vec<u8>) -> (r: Result<Address, ConfigError>)
        ensures
            bytes@.len() == ADDRESS_LEN ==> (r matches Ok(a) && a.bytes@ == bytes@ && a.wf()),
            bytes@.len() != ADDRESS_LEN ==> r == Err::<Address, ConfigError>(
                ConfigError::MalformedEntry,
            ),
    {
        if bytes.len() == ADDRESS_LEN {
            Ok(Address { bytes })
        } else {
            Err(ConfigError::MalformedEntry)
        }
    }

    /// An identical copy, byte for byte.
    pub fn duplicate(&self) -> (r: Address)
        ensures
            r.bytes@ == self.bytes@,
    {
        Address { bytes: clone_bytes(&self.bytes) }
    }
}

/// An identical copy of a byte vector.
pub fn clone_bytes(v: &Vec<u8>) -> (r: Vec<u8>)
    ensures
        r@ == v@,
{
    let mut r: Vec<u8> = Vec::new();
    let mut i: usize = 0;
    while i < v.len()
        invariant
            i <= v@.len(),
            r@ == v@.subrange(0, i as int),
        decreases v@.len() - i,
    {
        r.push(v[i]);
        proof {
            assert(r@ =~= v@.subrange(0, i as int + 1));
        }
        i = i + 1;
    }
    proof {
        assert(r@ =~= v@);
    }
    r
}

} // verus!
