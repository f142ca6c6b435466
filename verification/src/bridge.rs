//! Input marshalling for the foreign calls.
//!
//! The foreign engine takes a nul-terminated byte buffer, so an input with an
//! embedded nul byte cannot be represented and is rejected before any foreign
//! call is made.

use vstd::prelude::*;
use vstd::slice::slice_to_vec;
use vstd::string::*;

use crate::error::Error;

verus! {

/// The content-bearing foreign entry points an input buffer can be built for.
#[derive(Clone, Copy, PartialEq, Eq, Structural, Debug)]
pub enum ForeignCall {
    /// The single-document load call.
    Load,
    /// The multi-document load call.
    LoadAll,
    /// The version call (takes no input buffer).
    Version,
}

/// Whether a byte sequence holds an embedded nul byte.
pub open spec fn has_nul(b: Seq<u8>) -> bool {
    exists|i: int| 0 <= i < b.len() && b[i] == 0u8
}

/// The diagnostic for an input with an embedded nul byte, naming the call
/// the input was meant for.
pub open spec fn nul_input_msg_spec(call: ForeignCall) -> Seq<char> {
    match call {
        ForeignCall::Load => "load: input contains a nil-byte"@,
        ForeignCall::LoadAll => "load_all: input contains a nil-byte"@,
        ForeignCall::Version => "version: input contains a nil-byte"@,
    }
}

/// The diagnostic for a foreign call that returned a null pointer, naming
/// the call that did.
pub open spec fn null_reply_msg_spec(call: ForeignCall) -> Seq<char> {
    match call {
        ForeignCall::Load => "yamlstar_load: returned null"@,
        ForeignCall::LoadAll => "yamlstar_load_all: returned null"@,
        ForeignCall::Version => "yamlstar_version: returned null"@,
    }
}

/// Builds the nul-terminated buffer handed to a content-bearing foreign call:
/// the input bytes followed by a single terminating nul. Inputs holding an
/// embedded nul byte cannot cross the foreign boundary and are rejected with
/// the FFI-contract error, so no buffer for them ever exists.
pub fn prepare_input(bytes: &[u8], call: ForeignCall) -> (r: Result<Vec<u8>, Error>)
    ensures
        r is Ok <==> !has_nul(bytes@),
        r matches Ok(v) ==> v@ == bytes@.push(0u8),
        r matches Err(e) ==> (e matches Error::Ffi(m) && m@ == nul_input_msg_spec(call)),
{
    let n: usize = bytes.len();
    let mut i: usize = 0;
    while i < n
        invariant
            n == bytes@.len(),
            0 <= i <= n,
            forall|j: int| 0 <= j < i ==> bytes@[j] != 0u8,
        decreases n - i,
    {
        if bytes[i] == 0u8 {
            let msg: String = match call {
                ForeignCall::Load => "load: input contains a nil-byte".to_owned(),
                ForeignCall::LoadAll => "load_all: input contains a nil-byte".to_owned(),
                ForeignCall::Version => "version: input contains a nil-byte".to_owned(),
            };
            return Err(Error::Ffi(msg));
        }
        i += 1;
    }
    let mut buffer: Vec<u8> = slice_to_vec(bytes);
    buffer.push(0u8);
    Ok(buffer)
}

/// As `prepare_input`, for a string input: the buffer is the string's UTF-8
/// bytes followed by a terminating nul.
pub fn prepare_input_str(s: &str, call: ForeignCall) -> (r: Result<Vec<u8>, Error>)
    ensures
        r is Ok <==> !has_nul(s.spec_bytes()),
        r matches Ok(v) ==> v@ == s.spec_bytes().push(0u8),
        r matches Err(e) ==> (e matches Error::Ffi(m) && m@ == nul_input_msg_spec(call)),
{
    prepare_input(s.as_bytes(), call)
}

/// The FFI-contract error for a foreign call that returned a null pointer,
/// naming the call that did.
pub fn null_reply_error(call: ForeignCall) -> (e: Error)
    ensures
        e matches Error::Ffi(m) && m@ == null_reply_msg_spec(call),
{
    let msg: String = match call {
        ForeignCall::Load => "yamlstar_load: returned null".to_owned(),
        ForeignCall::LoadAll => "yamlstar_load_all: returned null".to_owned(),
        ForeignCall::Version => "yamlstar_version: returned null".to_owned(),
    };
    Error::Ffi(msg)
}

} // verus!
