//! Wire protocol shared with plugin subprocesses: length-prefixed frames
//! and the JSON handshake record.
//!
//! A frame is a 4-byte little-endian unsigned length followed by exactly
//! that many payload bytes.  A zero-length frame is a valid, explicit
//! "no payload" terminator, distinct from the end of the stream.

use vstd::prelude::*;

verus! {

/// Little-endian bytes of a 32-bit length, least significant byte first.
pub open spec fn le32_bytes(n: nat) -> Seq<u8> {
    seq![
        (n % 256) as u8,
        ((n / 256) % 256) as u8,
        ((n / 65536) % 256) as u8,
        ((n / 16777216) % 256) as u8,
    ]
}

/// The value encoded by four little-endian bytes.
pub open spec fn le32_value(b: Seq<u8>) -> nat
    recommends
        b.len() == 4,
{
    (b[0] + b[1] * 256 + b[2] * 65536 + b[3] * 16777216) as nat
}

/// One frame on the wire: a 4-byte little-endian length, then the payload.
pub open spec fn frame_bytes(payload: Seq<u8>) -> Seq<u8> {
    le32_bytes(payload.len()) + payload
}

/// Fewer than 4 bytes remain at `pos`: no length prefix can be read, which
/// callers take as clean end of stream.
pub open spec fn frame_header_missing(data: Seq<u8>, pos: int) -> bool {
    data.len() - pos < 4
}

/// The length declared by the prefix at `pos`.
pub open spec fn frame_len_at(data: Seq<u8>, pos: int) -> nat
    recommends
        0 <= pos,
        !frame_header_missing(data, pos),
{
    le32_value(data.subrange(pos, pos + 4))
}

/// A length prefix is present but the stream ends before the declared
/// payload does.
pub open spec fn frame_payload_truncated(data: Seq<u8>, pos: int) -> bool
    recommends
        0 <= pos,
{
    &&& !frame_header_missing(data, pos)
    &&& pos + 4 + frame_len_at(data, pos) > data.len()
}

/// The payload of the complete frame at `pos`.
pub open spec fn frame_payload_at(data: Seq<u8>, pos: int) -> Seq<u8>
    recommends
        0 <= pos,
        !frame_header_missing(data, pos),
        !frame_payload_truncated(data, pos),
{
    data.subrange(pos + 4, pos + 4 + frame_len_at(data, pos))
}

/// The position just past the frame at `pos`.
pub open spec fn frame_next_pos(data: Seq<u8>, pos: int) -> int {
    pos + 4 + frame_len_at(data, pos)
}

/// Reading a frame fails only this way; every other malformation is below
/// the framing layer's notice.
#[derive(Clone, Copy, PartialEq, Eq, Structural, Debug)]
pub enum ProtocolError {
    /// A length prefix was read but the payload ended early.
    Truncated,
}

/// Round trip of the length encoding.
pub proof fn lemma_le32_round_trip(n: nat)
    requires
        n <= u32::MAX,
    ensures
        le32_value(le32_bytes(n)) == n,
{
    assert(le32_value(le32_bytes(n)) == n) by (nonlinear_arith)
        requires
            n <= 0xffff_ffff,
    {
        assert(le32_bytes(n)[0] == (n % 256) as u8);
    }
}

/// Append one frame (4-byte little-endian length, then the payload) to `out`.
pub fn write_frame(out: &mut Vec<u8>, payload: &Vec<u8>)
    requires
        payload@.len() <= u32::MAX,
    ensures
        final(out)@ == old(out)@ + frame_bytes(payload@),
{
    let len: u32 = payload.len() as u32;
    out.push((len % 256) as u8);
    out.push(((len / 256) % 256) as u8);
    out.push(((len / 65536) % 256) as u8);
    out.push(((len / 16777216) % 256) as u8);
    assert(out@ == old(out)@ + le32_bytes(payload@.len()));
    let mut i: usize = 0;
    while i < payload.len()
        invariant
            i <= payload@.len(),
            out@ == old(out)@ + le32_bytes(payload@.len()) + payload@.subrange(0, i as int),
        decreases payload@.len() - i,
    {
        out.push(payload[i]);
        i = i + 1;
    }
    assert(payload@.subrange(0, payload@.len() as int) == payload@);
    assert(out@ == old(out)@ + frame_bytes(payload@));
}

/// Read one frame from `data` starting at `pos`.
///
/// Returns `Ok(None)` when fewer than 4 bytes remain (clean end of
/// stream), `Err` when a length prefix is present but the payload is cut
/// short, and otherwise the payload — empty payloads included — together
/// with the position just past the frame.
pub fn read_frame(data: &Vec<u8>, pos: usize) -> (r: Result<Option<(Vec<u8>, usize)>, ProtocolError>)
    requires
        pos <= data@.len(),
    ensures
        match r {
            Ok(None) => frame_header_missing(data@, pos as int),
            Ok(Some((payload, next))) => {
                &&& !frame_header_missing(data@, pos as int)
                &&& !frame_payload_truncated(data@, pos as int)
                &&& payload@ == frame_payload_at(data@, pos as int)
                &&& next == frame_next_pos(data@, pos as int)
            },
            Err(e) => {
                &&& frame_payload_truncated(data@, pos as int)
                &&& e == ProtocolError::Truncated
            },
        },
{
    if data.len() - pos < 4 {
        return Ok(None);
    }
    let b0 = data[pos];
    let b1 = data[pos + 1];
    let b2 = data[pos + 2];
    let b3 = data[pos + 3];
    let len32: u32 = b0 as u32 + b1 as u32 * 256 + b2 as u32 * 65536 + b3 as u32 * 16777216;
    let len: usize = len32 as usize;
    assert(data@.subrange(pos as int, pos as int + 4) =~= seq![b0, b1, b2, b3]);
    assert(len == frame_len_at(data@, pos as int));
    let avail = data.len() - pos - 4;
    if len > avail {
        return Err(ProtocolError::Truncated);
    }
    let start = pos + 4;
    let end = start + len;
    let mut payload: Vec<u8> = Vec::new();
    let mut j: usize = start;
    while j < end
        invariant
            start <= j <= end,
            end <= data@.len(),
            payload@ == data@.subrange(start as int, j as int),
        decreases end - j,
    {
        payload.push(data[j]);
        assert(payload@ =~= data@.subrange(start as int, j as int + 1));
        j = j + 1;
    }
    Ok(Some((payload, end)))
}

/// What draining a framed stdout yields: the concatenation of every
/// payload up to (not including) a zero-length terminator frame or the end
/// of the stream, or a protocol error if a frame is cut short first.
pub open spec fn spec_collect_frames(data: Seq<u8>, pos: int) -> Result<Seq<u8>, ProtocolError>
    recommends
        0 <= pos <= data.len(),
    decreases data.len() - pos,
{
    if frame_header_missing(data, pos) {
        Ok(Seq::empty())
    } else if frame_payload_truncated(data, pos) {
        Err(ProtocolError::Truncated)
    } else if frame_len_at(data, pos) == 0 {
        Ok(Seq::empty())
    } else {
        match spec_collect_frames(data, frame_next_pos(data, pos)) {
            Ok(rest) => Ok(frame_payload_at(data, pos) + rest),
            Err(e) => Err(e),
        }
    }
}

/// Drain a captured framed output stream: concatenate frame payloads until
/// a zero-length terminator frame or the end of the stream.
pub fn collect_framed_output(data: &Vec<u8>) -> (r: Result<Vec<u8>, ProtocolError>)
    ensures
        match r {
            Ok(out) => spec_collect_frames(data@, 0) == Ok::<Seq<u8>, ProtocolError>(out@),
            Err(e) => spec_collect_frames(data@, 0) == Err::<Seq<u8>, ProtocolError>(e),
        },
{
    let mut out: Vec<u8> = Vec::new();
    let mut pos: usize = 0;
    loop
        invariant
            pos <= data@.len(),
            spec_collect_frames(data@, 0) == match spec_collect_frames(data@, pos as int) {
                Ok(rest) => Ok::<Seq<u8>, ProtocolError>(out@ + rest),
                Err(e) => Err::<Seq<u8>, ProtocolError>(e),
            },
        decreases data@.len() - pos,
    {
        match read_frame(data, pos) {
            Ok(None) => {
                assert(out@ + Seq::<u8>::empty() =~= out@);
                return Ok(out);
            },
            Ok(Some((chunk, next))) => {
                if chunk.len() == 0 {
                    assert(out@ + Seq::<u8>::empty() =~= out@);
                    return Ok(out);
                }
                let ghost prev_out = out@;
                let mut chunk = chunk;
                out.append(&mut chunk);
                assert(out@ == prev_out + frame_payload_at(data@, pos as int));
                proof {
                    if let Ok(rest) = spec_collect_frames(data@, next as int) {
                        assert(prev_out + (frame_payload_at(data@, pos as int) + rest) =~= out@
                            + rest);
                    }
                }
                pos = next;
            },
            Err(e) => {
                return Err(e);
            },
        }
    }
}

/// Frame round trip: a frame written for any payload — the empty payload
/// included — reads back as exactly that payload, wherever it sits in the
/// stream, and reading it is distinct from the end-of-stream case.
pub proof fn lemma_frame_round_trip(prefix: Seq<u8>, payload: Seq<u8>, rest: Seq<u8>)
    requires
        payload.len() <= u32::MAX,
    ensures
        ({
            let data = prefix + frame_bytes(payload) + rest;
            let pos = prefix.len() as int;
            &&& !frame_header_missing(data, pos)
            &&& !frame_payload_truncated(data, pos)
            &&& frame_payload_at(data, pos) == payload
            &&& frame_next_pos(data, pos) == pos + 4 + payload.len()
        }),
{
    let data = prefix + frame_bytes(payload) + rest;
    let pos = prefix.len() as int;
    assert(data.subrange(pos, pos + 4) =~= le32_bytes(payload.len()));
    lemma_le32_round_trip(payload.len());
    assert(frame_len_at(data, pos) == payload.len());
    assert(data.subrange(pos + 4, pos + 4 + payload.len()) =~= payload);
}

/// The protocol version sent in every handshake.
pub const PROTOCOL_VERSION: &'static str = "0.1";

/// The protocol version sent in every handshake.
pub fn protocol_version() -> (s: &'static str)
    ensures
        s@ == "0.1"@,
{
    PROTOCOL_VERSION
}

/// First frame sent to a plugin that uses the framed convention: protocol
/// version, the negotiated input/output media types, and an open-ended
/// configuration document carried as JSON text.
pub struct Handshake {
    pub protocol: String,
    pub input_type: String,
    pub output_type: String,
    /// JSON text of the configuration payload.
    pub config: String,
}

impl Handshake {
    /// Build a handshake; the protocol version is filled in automatically.
    pub fn new(input_type: String, output_type: String, config: String) -> (h: Handshake)
        ensures
            h.protocol@ == "0.1"@,
            h.input_type == input_type,
            h.output_type == output_type,
            h.config == config,
    {
        let protocol = protocol_version().to_owned();
        Handshake { protocol, input_type, output_type, config }
    }
}

/// Structured error payload a plugin may emit (as JSON) before exiting
/// non-zero.  Advisory only: the runner's authoritative failure signal is
/// the process exit status.
pub struct ErrorFrame {
    pub typ: String,
    pub message: String,
    pub fatal: bool,
}

/// The bytes written to a framed plugin's standard input: the handshake
/// frame, then a payload frame only when the payload is non-empty.
pub open spec fn spec_framed_request(handshake_json: Seq<u8>, payload: Seq<u8>) -> Seq<u8> {
    if payload.len() == 0 {
        frame_bytes(handshake_json)
    } else {
        frame_bytes(handshake_json) + frame_bytes(payload)
    }
}

/// Build the full framed request for one plugin invocation.
pub fn framed_request(handshake_json: &Vec<u8>, payload: &Vec<u8>) -> (r: Vec<u8>)
    requires
        handshake_json@.len() <= u32::MAX,
        payload@.len() <= u32::MAX,
    ensures
        r@ == spec_framed_request(handshake_json@, payload@),
{
    let mut out: Vec<u8> = Vec::new();
    write_frame(&mut out, handshake_json);
    if payload.len() > 0 {
        write_frame(&mut out, payload);
    }
    out
}

} // verus!
