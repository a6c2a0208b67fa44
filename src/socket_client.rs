//! Requests and responses of the datagram protocol, as a client of the socket server frames and
//! reads them (see `response` for the server side).

use vstd::prelude::*;

use crate::response::be_bytes;

verus! {

#[verifier::external_type_specification]
#[verifier::external_body]
pub struct ExIoError(std::io::Error);

/// Clock frequency error assumed when timing a callback, in parts per million.
pub const FREQUENCY_ERROR: u64 = 1;

/// Errors of a client of the socket server.
#[derive(Debug)]
pub enum ClockBoundCError {
    /// Could not connect to the server's socket.
    ConnectError(std::io::Error),
    /// Could not bind to a socket.
    BindError(std::io::Error),
    /// Could not set permissions on the socket file.
    SetPermissionsError(std::io::Error),
    /// Could not send a message to the server.
    SendMessageError(std::io::Error),
    /// Could not receive a message from the server.
    ReceiveMessageError(std::io::Error),
    /// Could not write a request.
    WriteRequestError(std::io::Error),
}

/// Error bounds, in nanoseconds since the Unix epoch.
#[derive(Debug, Clone, Copy, PartialEq, Eq, Structural)]
pub struct Bound {
    /// System time minus the bound on clock error.
    pub earliest: u64,
    /// System time plus the bound on clock error.
    pub latest: u64,
}

/// Header of a response.
#[derive(Debug, Clone, Copy, PartialEq, Eq, Structural)]
pub struct ResponseHeader {
    pub response_version: u8,
    pub response_type: u8,
    /// Whether chrony reports the clock as unsynchronized.
    pub unsynchronized_flag: bool,
}

/// Response to a Now request.
#[derive(Debug, Clone, Copy, PartialEq, Eq, Structural)]
pub struct ResponseNow {
    pub header: ResponseHeader,
    pub bound: Bound,
    /// The system time the bounds were taken around, in nanoseconds since the Unix epoch.
    pub timestamp: u64,
}

/// Response to a Before request.
#[derive(Debug, Clone, Copy, PartialEq, Eq, Structural)]
pub struct ResponseBefore {
    pub header: ResponseHeader,
    /// Whether the requested time is before the current error bounds.
    pub before: bool,
}

/// Response to an After request.
#[derive(Debug, Clone, Copy, PartialEq, Eq, Structural)]
pub struct ResponseAfter {
    pub header: ResponseHeader,
    /// Whether the requested time is after the current error bounds.
    pub after: bool,
}

/// Bounds on when a callback ran and for how long, in nanoseconds.
#[derive(Debug, Clone, Copy, PartialEq, Eq, Structural)]
pub struct TimingResult {
    /// The callback began executing no earlier than this time (since the Unix epoch).
    pub earliest_start: u64,
    /// The callback finished executing no later than this time (since the Unix epoch).
    pub latest_finish: u64,
    /// No less than this much time elapsed while the callback ran.
    pub min_execution_time: u64,
    /// No more than this much time elapsed while the callback ran.
    pub max_execution_time: u64,
}

/// The integer held in 8 big-endian bytes.
pub open spec fn be_value(b: Seq<u8>) -> int {
    b[0] * 0x100_0000_0000_0000 + b[1] * 0x1_0000_0000_0000 + b[2] * 0x100_0000_0000 + b[3]
        * 0x1_0000_0000 + b[4] * 0x100_0000 + b[5] * 0x1_0000 + b[6] * 0x100 + b[7]
}

fn read_be_u64(bytes: &[u8], at: usize) -> (r: u64)
    requires
        at <= 12,
        at + 8 <= bytes@.len(),
    ensures
        r as int == be_value(bytes@.subrange(at as int, at + 8)),
{
    let mut acc: u64 = 0;
    let mut i: usize = 0;
    while i < 8
        invariant
            at <= 12,
            at + 8 <= bytes@.len(),
            0 <= i <= 8,
            acc as int == be_prefix(bytes@.subrange(at as int, at + 8), i as int),
        decreases 8 - i,
    {
        proof {
            lemma_be_prefix_bound(bytes@.subrange(at as int, at + 8), i as int);
            lemma_pow2_8_small(i as int);
            assert(bytes@.subrange(at as int, at + 8)[i as int] == bytes@[at + i]);
            assert(be_prefix(bytes@.subrange(at as int, at + 8), i + 1) == acc * 256
                + bytes@[at + i]);
        }
        acc = acc * 256 + bytes[at + i] as u64;
        i = i + 1;
    }
    proof {
        lemma_be_prefix_full(bytes@.subrange(at as int, at + 8));
    }
    acc
}

/// The integer held in the first `n` of `b`'s bytes, big-endian.
pub open spec fn be_prefix(b: Seq<u8>, n: int) -> int
    decreases n,
{
    if n <= 0 {
        0
    } else {
        be_prefix(b, n - 1) * 256 + b[n - 1]
    }
}

proof fn lemma_be_prefix_bound(b: Seq<u8>, n: int)
    requires
        0 <= n <= 8,
        b.len() == 8,
    ensures
        0 <= be_prefix(b, n) < pow2_8(n),
    decreases n,
{
    if n > 0 {
        lemma_be_prefix_bound(b, n - 1);
        assert(pow2_8(n) == pow2_8(n - 1) * 256);
        assert(be_prefix(b, n - 1) * 256 + b[n - 1] < pow2_8(n - 1) * 256) by (nonlinear_arith)
            requires
                be_prefix(b, n - 1) < pow2_8(n - 1),
                0 <= b[n - 1] < 256,
        ;
    }
}

/// `256` to the power `n`.
pub open spec fn pow2_8(n: int) -> int
    decreases n,
{
    if n <= 0 {
        1
    } else {
        256 * pow2_8(n - 1)
    }
}

proof fn lemma_pow2_8_small(n: int)
    requires
        0 <= n <= 7,
    ensures
        pow2_8(n) <= 0x100_0000_0000_0000,
    decreases n,
{
    if n > 0 {
        lemma_pow2_8_small(n - 1);
        reveal_with_fuel(pow2_8, 2);
        if n == 7 {
            reveal_with_fuel(pow2_8, 8);
        } else {
            lemma_pow2_8_smaller(n - 1);
        }
    }
}

proof fn lemma_pow2_8_smaller(n: int)
    requires
        0 <= n <= 5,
    ensures
        pow2_8(n) <= 0x1_0000_0000_0000,
    decreases n,
{
    reveal_with_fuel(pow2_8, 7);
    if n > 0 {
        lemma_pow2_8_smaller(n - 1);
    }
}

proof fn lemma_be_prefix_full(b: Seq<u8>)
    requires
        b.len() == 8,
    ensures
        be_prefix(b, 8) == be_value(b),
{
    reveal_with_fuel(be_prefix, 9);
}

/// The header a response starts with.
pub open spec fn header_of_response(b: Seq<u8>) -> ResponseHeader {
    ResponseHeader { response_version: b[0], response_type: b[1], unsynchronized_flag: b[2] != 0 }
}

fn read_header(response: &[u8]) -> (r: ResponseHeader)
    requires
        response@.len() >= 4,
    ensures
        r == header_of_response(response@),
{
    ResponseHeader {
        response_version: response[0],
        response_type: response[1],
        unsynchronized_flag: response[2] != 0,
    }
}

/// The 4 bytes of a Now request.
pub fn now_request() -> (r: Vec<u8>)
    ensures
        r@ == seq![1u8, 1u8, 0u8, 0u8],
{
    vec![1, 1, 0, 0]
}

/// The 12 bytes of a Before (`request_type` 2) or After (3) request about `time`.
pub fn before_after_request(request_type: u8, time: u64) -> (r: Vec<u8>)
    ensures
        r@ == seq![1u8, request_type, 0u8, 0u8] + be_bytes(time),
{
    let mut request: Vec<u8> = vec![1, request_type, 0, 0];
    request.push((time >> 56) as u8);
    request.push(((time >> 48) & 0xff) as u8);
    request.push(((time >> 40) & 0xff) as u8);
    request.push(((time >> 32) & 0xff) as u8);
    request.push(((time >> 24) & 0xff) as u8);
    request.push(((time >> 16) & 0xff) as u8);
    request.push(((time >> 8) & 0xff) as u8);
    request.push((time & 0xff) as u8);
    request
}

/// Read the 20-byte response to a Now request. The timestamp is the middle of the bounds.
pub fn parse_response_now(response: &[u8]) -> (r: ResponseNow)
    requires
        response@.len() >= 20,
        be_value(response@.subrange(4, 12)) <= be_value(response@.subrange(12, 20)),
    ensures
        r.header == header_of_response(response@),
        r.bound.earliest as int == be_value(response@.subrange(4, 12)),
        r.bound.latest as int == be_value(response@.subrange(12, 20)),
        r.timestamp as int == r.bound.latest - (r.bound.latest - r.bound.earliest) / 2,
{
    let header = read_header(response);
    let earliest = read_be_u64(response, 4);
    let latest = read_be_u64(response, 12);
    ResponseNow {
        header,
        bound: Bound { earliest, latest },
        timestamp: latest - (latest - earliest) / 2,
    }
}

/// Read the 5-byte response to a Before request.
pub fn parse_response_before(response: &[u8]) -> (r: ResponseBefore)
    requires
        response@.len() >= 5,
    ensures
        r.header == header_of_response(response@),
        r.before == (response@[4] != 0),
{
    ResponseBefore { header: read_header(response), before: response[4] != 0 }
}

/// Read the 5-byte response to an After request.
pub fn parse_response_after(response: &[u8]) -> (r: ResponseAfter)
    requires
        response@.len() >= 5,
    ensures
        r.header == header_of_response(response@),
        r.after == (response@[4] != 0),
{
    ResponseAfter { header: read_header(response), after: response[4] != 0 }
}

/// The middle of two instants, rounded down.
pub open spec fn midpoint(a: u64, b: u64) -> int {
    (a + b) / 2
}

fn midpoint_of(a: u64, b: u64) -> (r: u64)
    ensures
        r as int == midpoint(a, b),
{
    a / 2 + b / 2 + (a % 2 + b % 2) / 2
}

/// The allowance for clock frequency error over `t` nanoseconds, rounded up.
pub open spec fn frequency_allowance(t: int) -> int {
    (t * FREQUENCY_ERROR + 999_999) / 1_000_000
}

/// Bound how long a callback ran from the Now bounds taken before and after it: the execution
/// time is the distance between the midpoints of the two bounds, give or take the allowance for
/// clock frequency error. There is no result when the second midpoint precedes the first, or when
/// the upper bound does not fit in 64 bits.
pub fn timing_result(start: Bound, finish: Bound) -> (r: Option<TimingResult>)
    ensures
        r is Some <==> (midpoint(start.earliest, start.latest) <= midpoint(finish.earliest, finish.latest)
            && midpoint(finish.earliest, finish.latest) - midpoint(start.earliest, start.latest)
            + frequency_allowance(midpoint(finish.earliest, finish.latest) - midpoint(start.earliest, start.latest))
            <= u64::MAX),
        r is Some ==> ({
            let t = midpoint(finish.earliest, finish.latest) - midpoint(start.earliest, start.latest);
            let res = r->Some_0;
            &&& res.earliest_start == start.earliest
            &&& res.latest_finish == finish.latest
            &&& res.min_execution_time == t - frequency_allowance(t)
            &&& res.max_execution_time == t + frequency_allowance(t)
        }),
{
    let start_midpoint = midpoint_of(start.earliest, start.latest);
    let end_midpoint = midpoint_of(finish.earliest, finish.latest);
    if end_midpoint < start_midpoint {
        return None;
    }
    let execution_time = end_midpoint - start_midpoint;
    let error_rate = execution_time / 1_000_000 + if execution_time % 1_000_000 == 0 {
        0
    } else {
        1
    };
    proof {
        assert(error_rate == frequency_allowance(execution_time as int)) by (nonlinear_arith)
            requires
                error_rate == execution_time / 1_000_000 + if execution_time % 1_000_000 == 0 {
                    0int
                } else {
                    1int
                },
                execution_time >= 0,
        ;
        assert(error_rate <= execution_time) by (nonlinear_arith)
            requires
                error_rate == execution_time / 1_000_000 + if execution_time % 1_000_000 == 0 {
                    0int
                } else {
                    1int
                },
                execution_time >= 0,
        ;
    }
    if execution_time > u64::MAX - error_rate {
        return None;
    }
    Some(
        TimingResult {
            earliest_start: start.earliest,
            latest_finish: finish.latest,
            min_execution_time: execution_time - error_rate,
            max_execution_time: execution_time + error_rate,
        },
    )
}

} // verus!
