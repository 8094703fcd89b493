use u2fhid::error::ErrorKind;
use u2fhid::protocol::{check_request, check_result, register_request, register_result};
use u2fhid::protocol::{sign_request, sign_result};
use u2fhid::protocol::{MAX_KEY_HANDLE_SIZE, PARAMETER_SIZE};

fn challenge() -> Vec<u8> {
    (0..32u8).collect()
}

fn application() -> Vec<u8> {
    (100..132u8).collect()
}

fn register_payload(handle: &[u8]) -> Vec<u8> {
    let mut bytes = vec![0x05u8];
    bytes.extend_from_slice(&[0x04; 65]);
    bytes.push(handle.len() as u8);
    bytes.extend_from_slice(handle);
    bytes.extend_from_slice(&[0x30, 0x82, 0x01]);
    bytes
}

fn with_status(mut payload: Vec<u8>, status: u16) -> Vec<u8> {
    payload.push((status >> 8) as u8);
    payload.push(status as u8);
    payload
}

#[test]
fn sizes_are_those_of_the_protocol() {
    assert_eq!(PARAMETER_SIZE, 32);
    assert_eq!(MAX_KEY_HANDLE_SIZE, 256);
}

#[test]
fn register_request_bytes() {
    let request = register_request(&challenge(), &application()).unwrap();
    let mut expected = vec![0x00, 0x01, 0x03, 0x00, 0x00, 0x00, 0x40];
    expected.extend_from_slice(&challenge());
    expected.extend_from_slice(&application());
    expected.extend_from_slice(&[0x00, 0x00]);
    assert_eq!(request, expected);
    assert_eq!(request.len(), 7 + 64 + 2);
}

#[test]
fn register_request_refuses_wrong_sizes() {
    for len in [0usize, 1, 31, 33, 64] {
        let odd = vec![0u8; len];
        assert_eq!(register_request(&odd, &application()), Err(ErrorKind::InvalidInput));
        assert_eq!(register_request(&challenge(), &odd), Err(ErrorKind::InvalidInput));
    }
}

#[test]
fn check_request_bytes() {
    let handle = vec![9u8, 8, 7, 6, 5];
    let request = check_request(&challenge(), &application(), &handle).unwrap();
    let mut expected = vec![0x00, 0x02, 0x07, 0x00, 0x00, 0x00, 70];
    expected.extend_from_slice(&challenge());
    expected.extend_from_slice(&application());
    expected.push(5);
    expected.extend_from_slice(&handle);
    expected.extend_from_slice(&[0x00, 0x00]);
    assert_eq!(request, expected);
}

#[test]
fn sign_request_bytes() {
    let handle = vec![9u8, 8, 7, 6, 5];
    let request = sign_request(&challenge(), &application(), &handle).unwrap();
    let mut expected = vec![0x00, 0x02, 0x03, 0x00, 0x00, 0x00, 70];
    expected.extend_from_slice(&challenge());
    expected.extend_from_slice(&application());
    expected.push(5);
    expected.extend_from_slice(&handle);
    expected.extend_from_slice(&[0x00, 0x00]);
    assert_eq!(request, expected);
}

#[test]
fn long_request_uses_both_length_bytes() {
    let handle = vec![0x11u8; 200];
    let request = sign_request(&challenge(), &application(), &handle).unwrap();
    // 32 + 32 + 1 + 200 = 265 = 0x0109
    assert_eq!(request[4..7].to_vec(), vec![0x00, 0x01, 0x09]);
    assert_eq!(request[7 + 64], 200);
    assert_eq!(request.len(), 7 + 265 + 2);
}

#[test]
fn key_handle_of_256_bytes_is_framed_with_length_byte_zero() {
    let handle = vec![0x22u8; 256];
    let request = check_request(&challenge(), &application(), &handle).unwrap();
    // 32 + 32 + 1 + 256 = 321 = 0x0141
    assert_eq!(request[4..7].to_vec(), vec![0x00, 0x01, 0x41]);
    assert_eq!(request[7 + 64], 0);
    assert_eq!(request[7 + 65..7 + 65 + 256].to_vec(), handle);
}

#[test]
fn authenticate_requests_refuse_wrong_sizes() {
    let handle = vec![1u8; 16];
    let long = vec![1u8; 257];
    let short = vec![0u8; 31];
    assert_eq!(check_request(&short, &application(), &handle), Err(ErrorKind::InvalidInput));
    assert_eq!(check_request(&challenge(), &short, &handle), Err(ErrorKind::InvalidInput));
    assert_eq!(check_request(&challenge(), &application(), &long), Err(ErrorKind::InvalidInput));
    assert_eq!(sign_request(&short, &application(), &handle), Err(ErrorKind::InvalidInput));
    assert_eq!(sign_request(&challenge(), &short, &handle), Err(ErrorKind::InvalidInput));
    assert_eq!(sign_request(&challenge(), &application(), &long), Err(ErrorKind::InvalidInput));
    assert!(sign_request(&challenge(), &application(), &Vec::new()).is_ok());
}

#[test]
fn register_result_strips_the_status_word() {
    let payload = register_payload(&[1, 2, 3, 4]);
    let response = with_status(payload.clone(), 0x9000);
    assert_eq!(register_result(&response), Ok(payload));
}

#[test]
fn register_result_without_presence_is_not_yet() {
    let response = with_status(Vec::new(), 0x6985);
    assert_eq!(register_result(&response), Err(ErrorKind::TransportError));
    let response = with_status(register_payload(&[1]), 0x6985);
    assert_eq!(register_result(&response), Err(ErrorKind::TransportError));
}

#[test]
fn register_result_refuses_malformed_data() {
    let mut payload = register_payload(&[1, 2, 3, 4]);
    payload[0] = 0x06;
    assert_eq!(register_result(&with_status(payload, 0x9000)), Err(ErrorKind::FormatError));
    assert_eq!(register_result(&with_status(vec![0x05], 0x9000)), Err(ErrorKind::FormatError));
    assert_eq!(register_result(&with_status(Vec::new(), 0x9000)), Err(ErrorKind::FormatError));
    assert_eq!(register_result(&vec![0x90]), Err(ErrorKind::FormatError));
    assert_eq!(register_result(&Vec::new()), Err(ErrorKind::FormatError));
}

#[test]
fn check_result_reads_the_status_word() {
    assert_eq!(check_result(&vec![0x69, 0x85]), Ok(true));
    assert_eq!(check_result(&vec![0x6a, 0x80]), Ok(false));
    assert_eq!(check_result(&vec![0x90, 0x00]), Ok(false));
    assert_eq!(check_result(&vec![0x67, 0x00]), Ok(false));
    assert_eq!(check_result(&vec![0xff, 0x69, 0x85]), Ok(true));
    assert_eq!(check_result(&vec![0x85, 0x69]), Ok(false));
}

#[test]
fn check_result_needs_a_status_word() {
    assert_eq!(check_result(&Vec::new()), Err(ErrorKind::FormatError));
    assert_eq!(check_result(&vec![0x69]), Err(ErrorKind::FormatError));
}

#[test]
fn sign_result_strips_the_status_word() {
    let signature = vec![0x01, 0x00, 0x00, 0x00, 0x2a, 0x30, 0x44];
    assert_eq!(sign_result(&with_status(signature.clone(), 0x9000)), Ok(signature));
    assert_eq!(sign_result(&vec![0x90, 0x00]), Ok(Vec::new()));
}

#[test]
fn sign_result_failures() {
    assert_eq!(sign_result(&vec![0x69, 0x85]), Err(ErrorKind::TransportError));
    assert_eq!(sign_result(&vec![0x6a, 0x80]), Err(ErrorKind::TransportError));
    assert_eq!(sign_result(&vec![1, 2, 3, 0x90, 0x01]), Err(ErrorKind::TransportError));
    assert_eq!(sign_result(&vec![0x00]), Err(ErrorKind::FormatError));
    assert_eq!(sign_result(&Vec::new()), Err(ErrorKind::FormatError));
}
