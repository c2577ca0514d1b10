//! Encoder for the permission-response wire format.
//!
//! A permission event blocks the monitored operation until the
//! caller writes back exactly eight bytes: the descriptor the
//! verdict applies to as a little-endian signed 32-bit value,
//! followed by the kernel's allow or deny code as a little-endian
//! unsigned 32-bit value.

use vstd::prelude::*;

use crate::wire::spec_u32_le_bytes;
use crate::wire::u32_le_bytes;

verus! {

/// Kernel code for allowing the operation that raised a permission
/// event.
pub const FAN_ALLOW: u32 = 0x01;

/// Kernel code for denying the operation that raised a permission
/// event.
pub const FAN_DENY: u32 = 0x02;

/// Number of bytes in one encoded response.
pub const RESPONSE_LEN: usize = 8;

/// The caller's verdict on a permission event.
#[allow(non_camel_case_types)]
#[derive(Clone, Copy, PartialEq, Eq, Structural, Debug)]
pub enum FanotifyPermissionResponse {
    /// Let the blocked operation proceed.
    FAN_ALLOW,
    /// Refuse the blocked operation.
    FAN_DENY,
}

impl FanotifyPermissionResponse {
    /// The kernel-defined integer code of this verdict.
    pub open spec fn spec_code(self) -> u32 {
        match self {
            FanotifyPermissionResponse::FAN_ALLOW => FAN_ALLOW,
            FanotifyPermissionResponse::FAN_DENY => FAN_DENY,
        }
    }

    /// The kernel-defined integer code of this verdict.
    pub fn code(self) -> (r: u32)
        ensures
            r == self.spec_code(),
    {
        match self {
            FanotifyPermissionResponse::FAN_ALLOW => FAN_ALLOW,
            FanotifyPermissionResponse::FAN_DENY => FAN_DENY,
        }
    }
}

/// One answer to a permission event: the descriptor the verdict
/// applies to, and the verdict. Built by the caller per event and
/// consumed immediately by the encoder, never stored.
#[derive(Clone, Copy, Debug)]
pub struct FanotifyResponse {
    /// The descriptor value the verdict applies to. Only the numeric
    /// value is sent; the descriptor need not still be open.
    pub fd: i32,
    /// Allow or deny the blocked operation.
    pub response: FanotifyPermissionResponse,
}

/// The exact eight bytes answering a permission event on descriptor
/// `fd` with verdict code `code`: the little-endian bytes of the
/// descriptor value, then the little-endian bytes of the code.
pub open spec fn spec_encode_response(fd: i32, code: u32) -> Seq<u8> {
    spec_u32_le_bytes(fd as u32) + spec_u32_le_bytes(code)
}

/// Encode `response` as the exact byte sequence the kernel expects
/// to receive as one full write on the channel descriptor.
pub fn encode_response(response: &FanotifyResponse) -> (r: Vec<u8>)
    ensures
        r@ == spec_encode_response(response.fd, response.response.spec_code()),
        r@.len() == RESPONSE_LEN,
{
    let fd_bits: u32 = #[verifier::truncate] (response.fd as u32);
    let mut bytes = u32_le_bytes(fd_bits);
    let mut code_bytes = u32_le_bytes(response.response.code());
    bytes.append(&mut code_bytes);
    proof {
        assert(bytes@ =~= spec_encode_response(response.fd, response.response.spec_code()));
    }
    bytes
}

} // verus!
