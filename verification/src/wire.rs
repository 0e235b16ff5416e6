//! The wire format: a one-byte request answered by a fixed nine-byte response.

use vstd::prelude::*;

verus! {

/// Length of a request in bytes. The value of the byte carries no meaning.
pub const REQUEST_LEN: usize = 1;

/// Length of a response in bytes: status marker, length field, payload.
pub const RESPONSE_LEN: usize = 9;

/// Status marker that opens every response: ASCII `+`.
pub const STATUS_OK: u8 = 0x2B;

/// Length of the response payload, as carried in the length field.
pub const PAYLOAD_LEN: u32 = 4;

/// The byte a client sends as its request.
pub const REQUEST_BYTE: u8 = 0;

/// The payload of every response: ASCII `pong`.
pub open spec fn payload() -> Seq<u8> {
    seq![0x70u8, 0x6Fu8, 0x6Eu8, 0x67u8]
}

/// The four bytes of `x`, least significant first.
pub open spec fn le_bytes(x: u32) -> Seq<u8> {
    seq![
        (x % 0x100) as u8,
        ((x / 0x100) % 0x100) as u8,
        ((x / 0x1_0000) % 0x100) as u8,
        ((x / 0x100_0000) % 0x100) as u8,
    ]
}

/// A frame: the status marker, the body's length as a little-endian `u32`,
/// then the body.
pub open spec fn frame(status: u8, body: Seq<u8>) -> Seq<u8>
    recommends
        body.len() <= u32::MAX,
{
    seq![status] + le_bytes(body.len() as u32) + body
}

/// The response, the same for every request on every connection.
pub open spec fn response() -> Seq<u8> {
    frame(STATUS_OK, payload())
}

/// The response written out byte by byte.
pub proof fn response_bytes()
    ensures
        response() == seq![0x2Bu8, 0x04u8, 0x00u8, 0x00u8, 0x00u8, 0x70u8, 0x6Fu8, 0x6Eu8, 0x67u8],
        response().len() == RESPONSE_LEN,
{
    assert(response() =~= seq![
        0x2Bu8,
        0x04u8,
        0x00u8,
        0x00u8,
        0x00u8,
        0x70u8,
        0x6Fu8,
        0x6Eu8,
        0x67u8,
    ]);
}

/// Appends the little-endian bytes of `x` to `out`.
fn push_le_bytes(out: &mut Vec<u8>, x: u32)
    ensures
        final(out)@ == old(out)@ + le_bytes(x),
{
    out.push((x % 0x100) as u8);
    out.push(((x / 0x100) % 0x100) as u8);
    out.push(((x / 0x1_0000) % 0x100) as u8);
    out.push(((x / 0x100_0000) % 0x100) as u8);
    assert(out@ =~= old(out)@ + le_bytes(x));
}

/// Builds the response. A server builds it once and writes the same bytes
/// for every request.
pub fn encode_response() -> (out: Vec<u8>)
    ensures
        out@ == response(),
{
    let mut out: Vec<u8> = Vec::new();
    out.push(STATUS_OK);
    push_le_bytes(&mut out, PAYLOAD_LEN);
    out.push(0x70u8);
    out.push(0x6Fu8);
    out.push(0x6Eu8);
    out.push(0x67u8);
    assert(out@ =~= response());
    out
}

/// Whether `buf` holds exactly one response.
pub fn is_response(buf: &[u8]) -> (ok: bool)
    ensures
        ok == (buf@ == response()),
{
    proof {
        response_bytes();
    }
    if buf.len() != RESPONSE_LEN {
        return false;
    }
    let ok = buf[0] == STATUS_OK && buf[1] == 4 && buf[2] == 0 && buf[3] == 0 && buf[4] == 0
        && buf[5] == 0x70 && buf[6] == 0x6F && buf[7] == 0x6E && buf[8] == 0x67;
    assert(ok ==> buf@ =~= response());
    ok
}

} // verus!
