//! The three protocol operations: register, check a key handle, sign.
//!
//! Each operation is one exchange with one key: a request goes out, a
//! response comes back. This module builds the request bytes and reads the
//! response bytes; carrying them to the key and back is the transport's
//! work. Nothing here retries.
//!
//! A request is a command header, the request data, and two zero bytes that
//! ask for a response of any length:
//!
//! | offset | length | field                                  |
//! |--------|--------|----------------------------------------|
//! | 0      | 1      | class, always `0`                      |
//! | 1      | 1      | instruction                            |
//! | 2      | 1      | first parameter                        |
//! | 3      | 1      | second parameter, always `0`           |
//! | 4      | 3      | data length, big-endian                |
//! | 7      | n      | data                                   |
//! | 7+n    | 2      | expected response length, always `0 0` |
//!
//! A response is the response data followed by a two-byte status word,
//! big-endian.

use vstd::prelude::*;
use crate::error::ErrorKind;
use crate::response::{has_register_layout, is_register_response};

verus! {

/// Length of a challenge parameter and of an application parameter.
pub const PARAMETER_SIZE: usize = 32;

/// The longest key handle a caller may supply.
pub const MAX_KEY_HANDLE_SIZE: usize = 256;

/// Instruction byte of the register command.
pub const U2F_REGISTER: u8 = 0x01;

/// Instruction byte of the authenticate command.
pub const U2F_AUTHENTICATE: u8 = 0x02;

/// First parameter of authenticate: wait for the user, then sign.
pub const U2F_REQUEST_USER_PRESENCE: u8 = 0x03;

/// First parameter of authenticate: only say whether the key handle is known.
pub const U2F_CHECK_IS_REGISTERED: u8 = 0x07;

/// Status word: the command was carried out.
pub const SW_NO_ERROR: u16 = 0x9000;

/// Status word: the user has not confirmed their presence.
pub const SW_CONDITIONS_NOT_SATISFIED: u16 = 0x6985;

/// Status word: the key does not know the key handle.
pub const SW_WRONG_DATA: u16 = 0x6A80;

/// Length of the status word that ends a response.
pub const STATUS_SIZE: usize = 2;

/// The bytes of a request with the given instruction, first parameter and
/// data.
pub open spec fn request_frame(ins: u8, control: u8, data: Seq<u8>) -> Seq<u8> {
    seq![0u8, ins, control, 0u8, 0u8, (data.len() / 256) as u8, (data.len() % 256) as u8] + data
        + seq![0u8, 0u8]
}

/// Whether the parameters of a register operation have the sizes the
/// protocol fixes.
pub open spec fn valid_register_input(challenge: Seq<u8>, application: Seq<u8>) -> bool {
    challenge.len() == PARAMETER_SIZE && application.len() == PARAMETER_SIZE
}

/// Whether the parameters of a sign operation have the sizes the protocol
/// allows.
pub open spec fn valid_sign_input(
    challenge: Seq<u8>,
    application: Seq<u8>,
    key_handle: Seq<u8>,
) -> bool {
    &&& challenge.len() == PARAMETER_SIZE
    &&& application.len() == PARAMETER_SIZE
    &&& key_handle.len() <= MAX_KEY_HANDLE_SIZE
}

/// The data of a register request: challenge, then application.
pub open spec fn register_data(challenge: Seq<u8>, application: Seq<u8>) -> Seq<u8> {
    challenge + application
}

/// The data of an authenticate request: challenge, application, one byte
/// with the low eight bits of the key handle's length, and the key handle.
pub open spec fn authenticate_data(
    challenge: Seq<u8>,
    application: Seq<u8>,
    key_handle: Seq<u8>,
) -> Seq<u8> {
    challenge + application + seq![(key_handle.len() % 256) as u8] + key_handle
}

/// The bytes of a register request.
pub open spec fn register_frame(challenge: Seq<u8>, application: Seq<u8>) -> Seq<u8> {
    request_frame(U2F_REGISTER, U2F_REQUEST_USER_PRESENCE, register_data(challenge, application))
}

/// The bytes of the request that only checks a key handle.
pub open spec fn check_frame(challenge: Seq<u8>, application: Seq<u8>, key_handle: Seq<u8>) -> Seq<
    u8,
> {
    request_frame(
        U2F_AUTHENTICATE,
        U2F_CHECK_IS_REGISTERED,
        authenticate_data(challenge, application, key_handle),
    )
}

/// The bytes of the request that waits for the user and signs.
pub open spec fn sign_frame(challenge: Seq<u8>, application: Seq<u8>, key_handle: Seq<u8>) -> Seq<
    u8,
> {
    request_frame(
        U2F_AUTHENTICATE,
        U2F_REQUEST_USER_PRESENCE,
        authenticate_data(challenge, application, key_handle),
    )
}

/// Whether a response is long enough to end in a status word.
pub open spec fn has_status(response: Seq<u8>) -> bool {
    response.len() >= STATUS_SIZE
}

/// The status word that ends a response.
pub open spec fn status_of(response: Seq<u8>) -> int {
    response[response.len() - 2] * 256 + response[response.len() - 1]
}

/// The response data: everything before the status word.
pub open spec fn payload_of(response: Seq<u8>) -> Seq<u8> {
    response.subrange(0, response.len() - STATUS_SIZE)
}

/// What a register exchange yields, given the response bytes.
pub open spec fn register_outcome(response: Seq<u8>) -> Result<Seq<u8>, ErrorKind> {
    if !has_status(response) {
        Err(ErrorKind::FormatError)
    } else if status_of(response) != SW_NO_ERROR {
        Err(ErrorKind::TransportError)
    } else if !is_register_response(payload_of(response)) {
        Err(ErrorKind::FormatError)
    } else {
        Ok(payload_of(response))
    }
}

/// What a check-only exchange yields, given the response bytes. A key that
/// knows the handle answers that the user's presence is still required; any
/// other status means the handle is not this key's.
pub open spec fn check_outcome(response: Seq<u8>) -> Result<bool, ErrorKind> {
    if !has_status(response) {
        Err(ErrorKind::FormatError)
    } else {
        Ok(status_of(response) == SW_CONDITIONS_NOT_SATISFIED)
    }
}

/// What a sign exchange yields, given the response bytes.
pub open spec fn sign_outcome(response: Seq<u8>) -> Result<Seq<u8>, ErrorKind> {
    if !has_status(response) {
        Err(ErrorKind::FormatError)
    } else if status_of(response) != SW_NO_ERROR {
        Err(ErrorKind::TransportError)
    } else {
        Ok(payload_of(response))
    }
}

/// Appends a copy of `src` to `dst`.
fn append(dst: &mut Vec<u8>, src: &Vec<u8>)
    ensures
        final(dst)@ == old(dst)@ + src@,
{
    let mut i: usize = 0;
    while i < src.len()
        invariant
            i <= src.len(),
            dst@ == old(dst)@ + src@.subrange(0, i as int),
        decreases src.len() - i,
    {
        dst.push(src[i]);
        i += 1;
    }
    assert(src@.subrange(0, src.len() as int) == src@);
}

/// Frames `data` as a request.
fn frame_request(ins: u8, control: u8, data: &Vec<u8>) -> (frame: Vec<u8>)
    requires
        data.len() <= 0xffff,
    ensures
        frame@ == request_frame(ins, control, data@),
{
    let len: usize = data.len();
    let mut frame: Vec<u8> = Vec::new();
    frame.push(0);
    frame.push(ins);
    frame.push(control);
    frame.push(0);
    frame.push(0);
    frame.push((len / 256) as u8);
    frame.push((len % 256) as u8);
    append(&mut frame, data);
    frame.push(0);
    frame.push(0);
    frame
}

/// The data of an authenticate request.
fn build_authenticate_data(challenge: &Vec<u8>, application: &Vec<u8>, key_handle: &Vec<u8>) -> (data:
    Vec<u8>)
    requires
        valid_sign_input(challenge@, application@, key_handle@),
    ensures
        data@ == authenticate_data(challenge@, application@, key_handle@),
{
    let mut data: Vec<u8> = Vec::new();
    append(&mut data, challenge);
    append(&mut data, application);
    data.push((key_handle.len() % 256) as u8);
    append(&mut data, key_handle);
    data
}

/// A copy of `bytes`.
pub(crate) fn copy_bytes(bytes: &Vec<u8>) -> (copy: Vec<u8>)
    ensures
        copy@ == bytes@,
{
    let mut copy: Vec<u8> = Vec::new();
    append(&mut copy, bytes);
    copy
}

/// The request of a register exchange, for parameters of the right sizes.
pub(crate) fn encode_register(challenge: &Vec<u8>, application: &Vec<u8>) -> (frame: Vec<u8>)
    requires
        valid_register_input(challenge@, application@),
    ensures
        frame@ == register_frame(challenge@, application@),
{
    let mut data: Vec<u8> = Vec::new();
    append(&mut data, challenge);
    append(&mut data, application);
    frame_request(U2F_REGISTER, U2F_REQUEST_USER_PRESENCE, &data)
}

/// The request of a check-only exchange, for parameters of the right sizes.
pub(crate) fn encode_check(challenge: &Vec<u8>, application: &Vec<u8>, key_handle: &Vec<u8>) -> (frame:
    Vec<u8>)
    requires
        valid_sign_input(challenge@, application@, key_handle@),
    ensures
        frame@ == check_frame(challenge@, application@, key_handle@),
{
    let data = build_authenticate_data(challenge, application, key_handle);
    frame_request(U2F_AUTHENTICATE, U2F_CHECK_IS_REGISTERED, &data)
}

/// The request of a sign exchange, for parameters of the right sizes.
pub(crate) fn encode_sign(challenge: &Vec<u8>, application: &Vec<u8>, key_handle: &Vec<u8>) -> (frame:
    Vec<u8>)
    requires
        valid_sign_input(challenge@, application@, key_handle@),
    ensures
        frame@ == sign_frame(challenge@, application@, key_handle@),
{
    let data = build_authenticate_data(challenge, application, key_handle);
    frame_request(U2F_AUTHENTICATE, U2F_REQUEST_USER_PRESENCE, &data)
}

/// Builds the request of a register exchange.
///
/// Fails with `InvalidInput` exactly when challenge or application is not
/// 32 bytes long.
pub fn register_request(challenge: &Vec<u8>, application: &Vec<u8>) -> (result: Result<
    Vec<u8>,
    ErrorKind,
>)
    ensures
        valid_register_input(challenge@, application@) ==> result is Ok && result->Ok_0@
            == register_frame(challenge@, application@),
        !valid_register_input(challenge@, application@) ==> result == Err::<Vec<u8>, ErrorKind>(
            ErrorKind::InvalidInput,
        ),
{
    if challenge.len() != PARAMETER_SIZE || application.len() != PARAMETER_SIZE {
        return Err(ErrorKind::InvalidInput);
    }
    Ok(encode_register(challenge, application))
}

/// Builds the request that asks a key whether it knows `key_handle`, without
/// waiting for the user and without signing.
///
/// Fails with `InvalidInput` exactly when challenge or application is not
/// 32 bytes long or the key handle is longer than 256 bytes.
pub fn check_request(challenge: &Vec<u8>, application: &Vec<u8>, key_handle: &Vec<u8>) -> (result:
    Result<Vec<u8>, ErrorKind>)
    ensures
        valid_sign_input(challenge@, application@, key_handle@) ==> result is Ok && result->Ok_0@
            == check_frame(challenge@, application@, key_handle@),
        !valid_sign_input(challenge@, application@, key_handle@) ==> result == Err::<
            Vec<u8>,
            ErrorKind,
        >(ErrorKind::InvalidInput),
{
    if challenge.len() != PARAMETER_SIZE || application.len() != PARAMETER_SIZE
        || key_handle.len() > MAX_KEY_HANDLE_SIZE {
        return Err(ErrorKind::InvalidInput);
    }
    Ok(encode_check(challenge, application, key_handle))
}

/// Builds the request that makes a key wait for the user and sign.
///
/// Fails with `InvalidInput` exactly when challenge or application is not
/// 32 bytes long or the key handle is longer than 256 bytes.
pub fn sign_request(challenge: &Vec<u8>, application: &Vec<u8>, key_handle: &Vec<u8>) -> (result:
    Result<Vec<u8>, ErrorKind>)
    ensures
        valid_sign_input(challenge@, application@, key_handle@) ==> result is Ok && result->Ok_0@
            == sign_frame(challenge@, application@, key_handle@),
        !valid_sign_input(challenge@, application@, key_handle@) ==> result == Err::<
            Vec<u8>,
            ErrorKind,
        >(ErrorKind::InvalidInput),
{
    if challenge.len() != PARAMETER_SIZE || application.len() != PARAMETER_SIZE
        || key_handle.len() > MAX_KEY_HANDLE_SIZE {
        return Err(ErrorKind::InvalidInput);
    }
    Ok(encode_sign(challenge, application, key_handle))
}

/// Splits a response into its data and its status word.
fn split_response(response: &Vec<u8>) -> (parts: (Vec<u8>, u16))
    requires
        has_status(response@),
    ensures
        parts.0@ == payload_of(response@),
        parts.1 == status_of(response@),
{
    let len: usize = response.len();
    let high: u16 = response[len - 2] as u16;
    let low: u16 = response[len - 1] as u16;
    let mut payload = response.clone();
    payload.truncate(len - 2);
    assert(payload@ =~= payload_of(response@));
    (payload, high * 256 + low)
}

/// Reads the response of a register exchange.
///
/// Succeeds, with the response data, only when the key reports success and
/// the data is a register response. Every other response is an error, which
/// a polling caller takes as "not yet".
pub fn register_result(response: &Vec<u8>) -> (result: Result<Vec<u8>, ErrorKind>)
    ensures
        match register_outcome(response@) {
            Ok(bytes) => result is Ok && result->Ok_0@ == bytes,
            Err(kind) => result == Err::<Vec<u8>, ErrorKind>(kind),
        },
{
    if response.len() < STATUS_SIZE {
        return Err(ErrorKind::FormatError);
    }
    let (payload, status) = split_response(response);
    if status != SW_NO_ERROR {
        return Err(ErrorKind::TransportError);
    }
    if !has_register_layout(&payload) {
        return Err(ErrorKind::FormatError);
    }
    Ok(payload)
}

/// Reads the response of a check-only exchange: whether the key knows the
/// key handle.
///
/// Fails with `FormatError` exactly when the response is too short to hold
/// a status word.
pub fn check_result(response: &Vec<u8>) -> (result: Result<bool, ErrorKind>)
    ensures
        result == check_outcome(response@),
{
    if response.len() < STATUS_SIZE {
        return Err(ErrorKind::FormatError);
    }
    let (_payload, status) = split_response(response);
    Ok(status == SW_CONDITIONS_NOT_SATISFIED)
}

/// Reads the response of a sign exchange.
///
/// Succeeds, with the response data, only when the key reports success,
/// which it does once the user has confirmed their presence.
pub fn sign_result(response: &Vec<u8>) -> (result: Result<Vec<u8>, ErrorKind>)
    ensures
        match sign_outcome(response@) {
            Ok(bytes) => result is Ok && result->Ok_0@ == bytes,
            Err(kind) => result == Err::<Vec<u8>, ErrorKind>(kind),
        },
{
    if response.len() < STATUS_SIZE {
        return Err(ErrorKind::FormatError);
    }
    let (payload, status) = split_response(response);
    if status != SW_NO_ERROR {
        return Err(ErrorKind::TransportError);
    }
    Ok(payload)
}

} // verus!
