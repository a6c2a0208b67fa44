//! Framing of the datagram protocol of the socket server: requests are validated and answered
//! with a 4-byte header (version, type, sync flag, reserved) and a body.
//!
//! Request types: 1 is Now (4 bytes), 2 is Before and 3 is After (12 bytes, the last 8 holding a
//! big-endian epoch time in nanoseconds).

use vstd::prelude::*;

verus! {

/// Version of the protocol.
pub const RESPONSE_VERSION: u8 = 1;

/// Response type of an error.
pub const ERROR_RESPONSE: u8 = 0;

/// Whether a request of this version, type and size is valid.
pub open spec fn is_valid_request(request_version: u8, request_type: u8, request_size: usize) -> bool {
    request_version == RESPONSE_VERSION && ((request_type == 1 && request_size == 4) || ((
    request_type == 2 || request_type == 3) && request_size == 12))
}

/// Validate a request: the version must match, and the size must be that of its type.
pub fn validate_request(request_version: u8, request_type: u8, request_size: usize) -> (r: bool)
    ensures
        r == is_valid_request(request_version, request_type, request_size),
{
    if request_version != RESPONSE_VERSION {
        return false;
    }
    match request_type {
        1 => request_size == 4,
        2 => request_size == 12,
        3 => request_size == 12,
        _ => false,
    }
}

/// Build the response header; a type other than 0 to 3 is answered as an error.
pub fn build_response_header(request_type: u8, sync_flag: u8) -> (r: Vec<u8>)
    ensures
        r@ == seq![
            RESPONSE_VERSION,
            if request_type <= 3 { request_type } else { ERROR_RESPONSE },
            sync_flag,
            0u8,
        ],
{
    let mut response: Vec<u8> = Vec::new();
    response.push(RESPONSE_VERSION);
    let response_type = if request_type <= 3 {
        request_type
    } else {
        ERROR_RESPONSE
    };
    response.push(response_type);
    response.push(sync_flag);
    response.push(0);
    response
}

/// Whether an epoch time is before the earliest possible current time: 1 if so, else 0.
pub fn clockbound_before(earliest: u64, time_epoch: u64) -> (r: u8)
    ensures
        r == (if time_epoch < earliest { 1u8 } else { 0u8 }),
{
    if time_epoch < earliest {
        1
    } else {
        0
    }
}

/// Whether an epoch time is after the latest possible current time: 1 if so, else 0.
pub fn clockbound_after(latest: u64, time_epoch: u64) -> (r: u8)
    ensures
        r == (if time_epoch > latest { 1u8 } else { 0u8 }),
{
    if time_epoch > latest {
        1
    } else {
        0
    }
}

/// The big-endian bytes of a 64-bit integer.
pub open spec fn be_bytes(x: u64) -> Seq<u8> {
    seq![
        (x >> 56) as u8,
        ((x >> 48) & 0xff) as u8,
        ((x >> 40) & 0xff) as u8,
        ((x >> 32) & 0xff) as u8,
        ((x >> 24) & 0xff) as u8,
        ((x >> 16) & 0xff) as u8,
        ((x >> 8) & 0xff) as u8,
        (x & 0xff) as u8,
    ]
}

fn push_be_u64(out: &mut Vec<u8>, x: u64)
    ensures
        final(out)@ == old(out)@ + be_bytes(x),
{
    out.push((x >> 56) as u8);
    out.push(((x >> 48) & 0xff) as u8);
    out.push(((x >> 40) & 0xff) as u8);
    out.push(((x >> 32) & 0xff) as u8);
    out.push(((x >> 24) & 0xff) as u8);
    out.push(((x >> 16) & 0xff) as u8);
    out.push(((x >> 8) & 0xff) as u8);
    out.push((x & 0xff) as u8);
}

/// The response to a Now request: the header followed by the earliest and latest times.
pub fn build_response_now(header: Vec<u8>, earliest: u64, latest: u64) -> (r: Vec<u8>)
    ensures
        r@ == header@ + be_bytes(earliest) + be_bytes(latest),
{
    let mut response = header;
    push_be_u64(&mut response, earliest);
    push_be_u64(&mut response, latest);
    response
}

/// The response to a Before or After request: the header followed by the answer byte.
pub fn build_response_before_after(header: Vec<u8>, earliest: u64, latest: u64, time_epoch: u64) -> (r:
    Vec<u8>)
    requires
        header@.len() >= 2,
    ensures
        header@[1] == 2 ==> r@ == header@.push(if time_epoch < earliest { 1u8 } else { 0u8 }),
        header@[1] == 3 ==> r@ == header@.push(if time_epoch > latest { 1u8 } else { 0u8 }),
        header@[1] != 2 && header@[1] != 3 ==> r@ == header@,
{
    let mut response = header;
    if response[1] == 2 {
        let b = clockbound_before(earliest, time_epoch);
        response.push(b);
    } else if response[1] == 3 {
        let b = clockbound_after(latest, time_epoch);
        response.push(b);
    }
    response
}

} // verus!
