//! The register response: the record a key returns after a successful
//! registration.
//!
//! | offset | length | field                                   |
//! |--------|--------|-----------------------------------------|
//! | 0      | 1      | reserved byte, always `0x05`            |
//! | 1      | 65     | public key, an uncompressed EC point    |
//! | 66     | 1      | key handle length `L`                   |
//! | 67     | `L`    | key handle                              |
//! | 67+`L` | rest   | attestation certificate and signature   |

use vstd::prelude::*;
use crate::error::ErrorKind;

verus! {

/// The value of the reserved first byte.
pub const RESERVED_BYTE: u8 = 0x05;

/// Length of the public key field.
pub const PUBLIC_KEY_LEN: usize = 65;

/// Offset of the byte that holds the key handle's length.
pub const KEY_HANDLE_LEN_OFFSET: usize = 66;

/// Offset of the key handle's first byte.
pub const KEY_HANDLE_OFFSET: usize = 67;

/// Whether `bytes` follow the layout of a register response: the fixed part
/// is all there, the reserved byte is right, and the key handle the length
/// byte announces fits into what follows.
pub open spec fn is_register_response(bytes: Seq<u8>) -> bool {
    &&& bytes.len() >= KEY_HANDLE_OFFSET
    &&& bytes[0] == RESERVED_BYTE
    &&& KEY_HANDLE_OFFSET + bytes[KEY_HANDLE_LEN_OFFSET as int] <= bytes.len()
}

/// The public key field of a register response.
pub open spec fn public_key_of(bytes: Seq<u8>) -> Seq<u8> {
    bytes.subrange(1, 1 + PUBLIC_KEY_LEN)
}

/// The key handle field of a register response.
pub open spec fn key_handle_of(bytes: Seq<u8>) -> Seq<u8> {
    bytes.subrange(
        KEY_HANDLE_OFFSET as int,
        KEY_HANDLE_OFFSET + bytes[KEY_HANDLE_LEN_OFFSET as int],
    )
}

/// What follows the key handle: the attestation block, which is never looked
/// into.
pub open spec fn attestation_of(bytes: Seq<u8>) -> Seq<u8> {
    bytes.subrange(
        KEY_HANDLE_OFFSET + bytes[KEY_HANDLE_LEN_OFFSET as int],
        bytes.len() as int,
    )
}

/// Whether `bytes` follow the layout of a register response.
pub fn has_register_layout(bytes: &Vec<u8>) -> (follows: bool)
    ensures
        follows == is_register_response(bytes@),
{
    bytes.len() >= KEY_HANDLE_OFFSET && bytes[0] == RESERVED_BYTE && bytes.len()
        - KEY_HANDLE_OFFSET >= bytes[KEY_HANDLE_LEN_OFFSET] as usize
}

/// Extracts the key handle from a register response.
///
/// Fails with `FormatError` exactly when the bytes are not a register
/// response; the input is left as it is either way.
pub fn u2f_get_key_handle_from_register_response(register_response: &Vec<u8>) -> (result: Result<
    Vec<u8>,
    ErrorKind,
>)
    ensures
        is_register_response(register_response@) ==> result is Ok && result->Ok_0@
            == key_handle_of(register_response@),
        !is_register_response(register_response@) ==> result == Err::<Vec<u8>, ErrorKind>(
            ErrorKind::FormatError,
        ),
{
    if !has_register_layout(register_response) {
        return Err(ErrorKind::FormatError);
    }
    let key_handle_len: usize = register_response[KEY_HANDLE_LEN_OFFSET] as usize;
    let mut public_key = register_response.clone();
    let mut key_handle = public_key.split_off(KEY_HANDLE_OFFSET);
    let _attestation = key_handle.split_off(key_handle_len);
    assert(key_handle@ =~= key_handle_of(register_response@));
    Ok(key_handle)
}

/// A register response is the concatenation of its fields, so taking the key
/// handle out loses nothing of the public key or the attestation block.
pub proof fn lemma_register_response_fields(bytes: Seq<u8>)
    requires
        is_register_response(bytes),
    ensures
        public_key_of(bytes).len() == PUBLIC_KEY_LEN,
        key_handle_of(bytes).len() == bytes[KEY_HANDLE_LEN_OFFSET as int],
        bytes == seq![RESERVED_BYTE] + public_key_of(bytes) + seq![
            bytes[KEY_HANDLE_LEN_OFFSET as int],
        ] + key_handle_of(bytes) + attestation_of(bytes),
{
    let joined = seq![RESERVED_BYTE] + public_key_of(bytes) + seq![
        bytes[KEY_HANDLE_LEN_OFFSET as int],
    ] + key_handle_of(bytes) + attestation_of(bytes);
    assert(joined =~= bytes);
}

} // verus!
