//! Native byte order.  The platform's own order is, by definition, either
//! big- or little-endian; which of the two cannot be observed from verified
//! code, so these conversions stand behind trusted wrappers over the
//! standard library whose contracts promise exactly that disjunction and no
//! more.

use vstd::prelude::*;
use crate::endian::be_bytes;
use crate::endian::be_val;
use crate::endian::le_bytes;
use crate::endian::le_val;

verus! {

/// Relies on `u16::from_ne_bytes`: it reads the 2 bytes in the
/// platform's native order, which is either big- or little-endian.
#[verifier::external_body]
pub(crate) fn u16_from_ne(bytes: &Vec<u8>) -> (v: u16)
    requires
        bytes@.len() == 2,
    ensures
        v == be_val(bytes@) || v == le_val(bytes@),
{
    u16::from_ne_bytes([bytes[0], bytes[1]])
}

/// Relies on `u16::to_ne_bytes`: it yields the 2 bytes in the
/// platform's native order, which is either big- or little-endian.
#[verifier::external_body]
pub(crate) fn u16_to_ne(v: u16) -> (bytes: Vec<u8>)
    ensures
        bytes@.len() == 2,
        bytes@ == be_bytes(v as nat, 2) || bytes@ == le_bytes(v as nat, 2),
{
    v.to_ne_bytes().to_vec()
}

/// Relies on `u32::from_ne_bytes`: it reads the 4 bytes in the
/// platform's native order, which is either big- or little-endian.
#[verifier::external_body]
pub(crate) fn u32_from_ne(bytes: &Vec<u8>) -> (v: u32)
    requires
        bytes@.len() == 4,
    ensures
        v == be_val(bytes@) || v == le_val(bytes@),
{
    u32::from_ne_bytes([bytes[0], bytes[1], bytes[2], bytes[3]])
}

/// Relies on `u32::to_ne_bytes`: it yields the 4 bytes in the
/// platform's native order, which is either big- or little-endian.
#[verifier::external_body]
pub(crate) fn u32_to_ne(v: u32) -> (bytes: Vec<u8>)
    ensures
        bytes@.len() == 4,
        bytes@ == be_bytes(v as nat, 4) || bytes@ == le_bytes(v as nat, 4),
{
    v.to_ne_bytes().to_vec()
}

/// Relies on `u64::from_ne_bytes`: it reads the 8 bytes in the
/// platform's native order, which is either big- or little-endian.
#[verifier::external_body]
pub(crate) fn u64_from_ne(bytes: &Vec<u8>) -> (v: u64)
    requires
        bytes@.len() == 8,
    ensures
        v == be_val(bytes@) || v == le_val(bytes@),
{
    u64::from_ne_bytes(bytes.as_slice().try_into().unwrap())
}

/// Relies on `u64::to_ne_bytes`: it yields the 8 bytes in the
/// platform's native order, which is either big- or little-endian.
#[verifier::external_body]
pub(crate) fn u64_to_ne(v: u64) -> (bytes: Vec<u8>)
    ensures
        bytes@.len() == 8,
        bytes@ == be_bytes(v as nat, 8) || bytes@ == le_bytes(v as nat, 8),
{
    v.to_ne_bytes().to_vec()
}

/// Relies on `u128::from_ne_bytes`: it reads the 16 bytes in the
/// platform's native order, which is either big- or little-endian.
#[verifier::external_body]
pub(crate) fn u128_from_ne(bytes: &Vec<u8>) -> (v: u128)
    requires
        bytes@.len() == 16,
    ensures
        v == be_val(bytes@) || v == le_val(bytes@),
{
    u128::from_ne_bytes(bytes.as_slice().try_into().unwrap())
}

/// Relies on `u128::to_ne_bytes`: it yields the 16 bytes in the
/// platform's native order, which is either big- or little-endian.
#[verifier::external_body]
pub(crate) fn u128_to_ne(v: u128) -> (bytes: Vec<u8>)
    ensures
        bytes@.len() == 16,
        bytes@ == be_bytes(v as nat, 16) || bytes@ == le_bytes(v as nat, 16),
{
    v.to_ne_bytes().to_vec()
}

} // verus!
