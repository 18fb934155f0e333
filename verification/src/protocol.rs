//! Binary framing of the Doubao streaming speech-recognition protocol.
//!
//! A frame is a 4-byte header followed by optional fields and a payload:
//!
//! * byte 0: `[protocol_version(4b) | header_size(4b)]`
//! * byte 1: `[message_type(4b) | flags(4b)]`
//! * byte 2: `[serialization(4b) | compression(4b)]`
//! * byte 3: reserved
//!
//! Client frames carry a 4-byte big-endian size and a gzip-compressed body.
//! Server frames are parsed by [`parse_server_response`].
use vstd::prelude::*;
use vstd::utf8::{decode_utf8, encode_utf8, encode_utf8_decode_utf8, encode_utf8_valid_utf8, valid_utf8};
use std::io::{Read, Write};
use crate::text::{dec_seq, hex2_seq, owned, push_str, u64_to_dec, u8_to_hex2};

verus! {

// ── Trusted items: gzip (flate2) and UTF-8 decoding (std) ──

/// What `flate2`'s gzip encoder at `Compression::fast()` writes for `data`.
/// The header carries no timestamp, so the result depends on `data` alone.
pub uninterp spec fn gzip_fast(data: Seq<u8>) -> Seq<u8>;

/// What `flate2`'s `GzDecoder::read_to_end` yields for `data` (or the I/O
/// error text when `data` is not a gzip stream).
pub uninterp spec fn gunzip(data: Seq<u8>) -> Result<Seq<u8>, Seq<char>>;

/// The text of the error `String::from_utf8` reports for invalid `bytes`.
pub uninterp spec fn utf8_error_text(bytes: Seq<u8>) -> Seq<char>;

/// What `String::from_utf8_lossy` yields for `bytes`.
pub uninterp spec fn utf8_lossy(bytes: Seq<u8>) -> Seq<char>;

/// Compresses `data` with `flate2::write::GzEncoder` at `Compression::fast()`
/// (`write_all` then `finish`).  Claimed: it succeeds, because the encoder
/// writes into a `Vec` (whose writes never fail) and the deflate compressor
/// reports an error only for calls out of order (data after the finishing
/// call), which this sequence does not make; the output is the named
/// [`gzip_fast`] of the input, it is not empty (the encoder always writes
/// the gzip header), and it decodes back to the input with `GzDecoder`
/// (gzip is lossless).
#[verifier::external_body]
fn gzip_compress(data: &[u8]) -> (r: Result<Vec<u8>, String>)
    ensures
        match r {
            Ok(v) => v@ == gzip_fast(data@) && gunzip(v@) == Ok::<Seq<u8>, Seq<char>>(data@)
                && v@.len() > 0,
            Err(_) => false,
        },
{
    let mut encoder = flate2::write::GzEncoder::new(Vec::new(), flate2::Compression::fast());
    encoder.write_all(data).map_err(|e| e.to_string())?;
    encoder.finish().map_err(|e| e.to_string())
}

/// Decompresses a gzip stream with `flate2::read::GzDecoder::read_to_end`.
/// Claimed: the result is the named [`gunzip`] of the input.
#[verifier::external_body]
fn gzip_decompress(data: &[u8]) -> (r: Result<Vec<u8>, String>)
    ensures
        match r {
            Ok(v) => gunzip(data@) == Ok::<Seq<u8>, Seq<char>>(v@),
            Err(e) => gunzip(data@) == Err::<Seq<u8>, Seq<char>>(e@),
        },
{
    let mut decoder = flate2::read::GzDecoder::new(data);
    let mut result = Vec::new();
    decoder.read_to_end(&mut result).map_err(|e| e.to_string())?;
    Ok(result)
}

/// `String::from_utf8`: succeeds exactly on valid UTF-8, and then holds the
/// decoded characters; otherwise returns the error's text.
#[verifier::external_body]
fn utf8_to_string(bytes: Vec<u8>) -> (r: Result<String, String>)
    ensures
        match r {
            Ok(s) => valid_utf8(bytes@) && s@ == decode_utf8(bytes@),
            Err(e) => !valid_utf8(bytes@) && e@ == utf8_error_text(bytes@),
        },
{
    String::from_utf8(bytes).map_err(|e| e.to_string())
}

/// `String::from_utf8_lossy(..).to_string()`: the named [`utf8_lossy`]
/// text, which for valid UTF-8 is the decoded text itself.
#[verifier::external_body]
pub(crate) fn utf8_to_string_lossy(bytes: &[u8]) -> (s: String)
    ensures
        s@ == utf8_lossy(bytes@),
        valid_utf8(bytes@) ==> s@ == decode_utf8(bytes@),
{
    String::from_utf8_lossy(bytes).to_string()
}

// ── Header and big-endian fields ──

/// The 4-byte header for the given message type, flags, serialization and
/// compression (each keeps its low 4 bits).
pub open spec fn header_spec(msg_type: u8, flags: u8, serialization: u8, compression: u8) -> Seq<u8> {
    seq![
        0x11u8,
        ((msg_type as nat % 16) * 16 + flags as nat % 16) as u8,
        ((serialization as nat % 16) * 16 + compression as nat % 16) as u8,
        0u8,
    ]
}

/// Big-endian bytes of a 32-bit value.
pub open spec fn be_bytes(n: u32) -> Seq<u8> {
    seq![
        (n as nat / 16777216 % 256) as u8,
        (n as nat / 65536 % 256) as u8,
        (n as nat / 256 % 256) as u8,
        (n as nat % 256) as u8,
    ]
}

/// The big-endian 32-bit value stored at `d[p..p + 4]`.
pub open spec fn be_u32_at(d: Seq<u8>, p: int) -> u32 {
    (d[p] as nat * 16777216 + d[p + 1] as nat * 65536 + d[p + 2] as nat * 256 + d[p
        + 3] as nat) as u32
}

/// Build the 4-byte protocol header.
fn build_header(msg_type: u8, flags: u8, serialization: u8, compression: u8) -> (h: [u8; 4])
    ensures
        h@ == header_spec(msg_type, flags, serialization, compression),
{
    let h = [0x11u8, (msg_type % 16) * 16 + flags % 16, (serialization % 16) * 16 + compression
        % 16, 0x00u8];
    assert(h@ =~= header_spec(msg_type, flags, serialization, compression));
    h
}

fn be_bytes_of(n: u32) -> (b: [u8; 4])
    ensures
        b@ == be_bytes(n),
{
    let b = [(n / 16777216 % 256) as u8, (n / 65536 % 256) as u8, (n / 256 % 256) as u8, (n
        % 256) as u8];
    assert(b@ =~= be_bytes(n));
    b
}

fn be_u32_from(d: &[u8], p: usize) -> (n: u32)
    requires
        p + 4 <= d@.len(),
    ensures
        n == be_u32_at(d@, p as int),
{
    (d[p] as u32) * 16777216 + (d[p + 1] as u32) * 65536 + (d[p + 2] as u32) * 256 + (d[p
        + 3] as u32)
}

// ── Client frames ──

/// A client frame: header, big-endian body size, body.
pub open spec fn client_frame(header: Seq<u8>, body: Seq<u8>) -> Seq<u8> {
    header + be_bytes(body.len() as u32) + body
}

/// What `build_full_client_request` returns for a configuration whose UTF-8
/// bytes are `config`.
pub open spec fn full_client_request_spec(config: Seq<u8>) -> Seq<u8> {
    client_frame(header_spec(1, 0, 1, 1), gzip_fast(config))
}

/// What `build_audio_request` returns for an audio chunk.
pub open spec fn audio_request_spec(audio: Seq<u8>, is_last: bool) -> Seq<u8> {
    client_frame(header_spec(2, if is_last { 2 } else { 0 }, 0, 1), gzip_fast(audio))
}

fn assemble(header: [u8; 4], body: Vec<u8>) -> (p: Vec<u8>)
    ensures
        p@ == client_frame(header@, body@),
{
    let size = be_bytes_of(body.len() as u32);
    let mut packet: Vec<u8> = Vec::new();
    let mut i: usize = 0;
    while i < 4
        invariant
            i <= 4,
            packet@ == header@.take(i as int),
        decreases 4 - i,
    {
        packet.push(header[i]);
        i = i + 1;
        assert(packet@ =~= header@.take(i as int));
    }
    i = 0;
    while i < 4
        invariant
            i <= 4,
            packet@ == header@ + size@.take(i as int),
        decreases 4 - i,
    {
        packet.push(size[i]);
        i = i + 1;
        assert(packet@ =~= header@ + size@.take(i as int));
    }
    i = 0;
    while i < body.len()
        invariant
            i <= body@.len(),
            packet@ == header@ + size@ + body@.take(i as int),
        decreases body@.len() - i,
    {
        packet.push(body[i]);
        i = i + 1;
        assert(packet@ =~= header@ + size@ + body@.take(i as int));
    }
    assert(body@.take(i as int) =~= body@);
    assert(header@.take(4) =~= header@);
    assert(size@.take(4) =~= size@);
    packet
}

/// The full client request frame: gzip-compressed JSON configuration.
/// Building it always succeeds.  Read back as a server full response (the
/// message type byte set to `0x90`, the rest as built), the frame gives
/// back the configuration text, with sequence number 0.
pub fn build_full_client_request(config_json: &str) -> (r: Result<Vec<u8>, String>)
    ensures
        r matches Ok(p) && p@ == full_client_request_spec(encode_utf8(config_json@))
            && gunzip(p@.subrange(8, p@.len() as int)) == Ok::<Seq<u8>, Seq<char>>(
            encode_utf8(config_json@),
        ),
        r matches Ok(p) ==> (p@.len() < 4294967304 ==> parse_spec(p@.update(1, 0x90u8)) == Ok::<
            ServerMessageView,
            Seq<char>,
        >(ServerMessageView::Response { sequence: 0, payload: config_json@, is_last: false })),
{
    let header = build_header(0x01, 0x00, 0x01, 0x01);
    let compressed = gzip_compress(config_json.as_bytes())?;
    let ghost gz = compressed@;
    let p = assemble(header, compressed);
    assert(p@.subrange(8, p@.len() as int) =~= gz);
    proof {
        if p@.len() < 4294967304 {
            let d = p@.update(1, 0x90u8);
            let lb = be_bytes(gz.len() as u32);
            lemma_be_roundtrip(gz.len() as u32);
            assert(d.subrange(4, 8) =~= lb);
            assert(be_u32_at(d, 4) == be_u32_at(lb, 0));
            assert(d.subrange(8, 8 + gz.len() as int) =~= gz);
            encode_utf8_valid_utf8(config_json@);
            encode_utf8_decode_utf8(config_json@);
            assert(d[0] == 0x11u8 && d[1] == 0x90u8 && d[2] == 0x11u8);
        }
    }
    Ok(p)
}

/// An audio-only frame: gzip-compressed PCM; `is_last` marks the final
/// one.  Building it always succeeds.
pub fn build_audio_request(audio_data: &[u8], is_last: bool) -> (r: Result<Vec<u8>, String>)
    ensures
        r matches Ok(p) && p@ == audio_request_spec(audio_data@, is_last)
            && gunzip(p@.subrange(8, p@.len() as int)) == Ok::<Seq<u8>, Seq<char>>(audio_data@),
{
    let flags: u8 = if is_last {
        0x02
    } else {
        0x00
    };
    let header = build_header(0x02, flags, 0x00, 0x01);
    let compressed = gzip_compress(audio_data)?;
    let p = assemble(header, compressed);
    assert(p@.subrange(8, p@.len() as int) =~= compressed@);
    Ok(p)
}

// ── Server frames ──

#[derive(Debug)]
pub enum ServerMessage {
    Response { sequence: i32, payload: String, _is_last: bool },
    Error { code: u32, message: String },
}

/// A parsed server frame, with its texts as character sequences.
pub enum ServerMessageView {
    Response { sequence: i32, payload: Seq<char>, is_last: bool },
    Error { code: u32, message: Seq<char> },
}

impl View for ServerMessage {
    type V = ServerMessageView;

    open spec fn view(&self) -> ServerMessageView {
        match self {
            ServerMessage::Response { sequence, payload, _is_last } => ServerMessageView::Response {
                sequence: *sequence,
                payload: payload@,
                is_last: *_is_last,
            },
            ServerMessage::Error { code, message } => ServerMessageView::Error {
                code: *code,
                message: message@,
            },
        }
    }
}

/// Whether bit `k` (0, 1 or 2) of the 4-bit flags is set.
pub open spec fn flag_bit(flags: nat, k: nat) -> bool {
    if k == 0 {
        flags % 2 == 1
    } else if k == 1 {
        flags / 2 % 2 == 1
    } else {
        flags / 4 % 2 == 1
    }
}

/// The message text for a payload shorter than its declared size.
pub open spec fn incomplete_payload_text(expected: nat, got: nat) -> Seq<char> {
    "Incomplete payload: expected "@ + dec_seq(expected) + " bytes, got "@ + dec_seq(got)
}

/// The acknowledgement payload used when a response carries no body.
pub open spec fn empty_json() -> Seq<char> {
    "{}"@
}

/// Parse result once the optional fields end at `pos`.
pub open spec fn parse_body(d: Seq<u8>, pos: int, msg_type: nat, compression: nat, sequence: i32, is_last: bool) -> Result<ServerMessageView, Seq<char>> {
    if msg_type == 9 {
        if d.len() < pos + 4 {
            Ok(ServerMessageView::Response { sequence, payload: empty_json(), is_last })
        } else {
            let size = be_u32_at(d, pos) as int;
            let start = pos + 4;
            if size == 0 {
                Ok(ServerMessageView::Response { sequence, payload: empty_json(), is_last })
            } else if d.len() < start + size {
                Err(incomplete_payload_text(size as nat, (d.len() - start) as nat))
            } else {
                let raw = d.subrange(start, start + size);
                let json = if compression == 1 {
                    gunzip(raw)
                } else {
                    Ok(raw)
                };
                match json {
                    Err(e) => Err(e),
                    Ok(bytes) => if valid_utf8(bytes) {
                        Ok(
                            ServerMessageView::Response {
                                sequence,
                                payload: decode_utf8(bytes),
                                is_last,
                            },
                        )
                    } else {
                        Err(utf8_error_text(bytes))
                    },
                }
            }
        }
    } else if msg_type == 15 {
        if d.len() < pos + 8 {
            Err("Error response too short"@)
        } else {
            let code = be_u32_at(d, pos);
            let size = be_u32_at(d, pos + 4) as int;
            let start = pos + 8;
            let raw = if d.len() >= start + size {
                d.subrange(start, start + size)
            } else {
                d.subrange(start, d.len() as int)
            };
            let bytes = if compression == 1 && raw.len() > 0 {
                match gunzip(raw) {
                    Ok(b) => b,
                    Err(_) => raw,
                }
            } else {
                raw
            };
            Ok(ServerMessageView::Error { code, message: utf8_lossy(bytes) })
        }
    } else {
        Err("Unknown message type: 0x"@ + hex2_seq(msg_type as u8))
    }
}

/// What `parse_server_response` returns for the frame `d`.
pub open spec fn parse_spec(d: Seq<u8>) -> Result<ServerMessageView, Seq<char>> {
    if d.len() < 4 {
        Err("Response too short"@)
    } else {
        let header_size = (d[0] as nat % 16) * 4;
        let msg_type = d[1] as nat / 16;
        let flags = d[1] as nat % 16;
        let compression = d[2] as nat % 16;
        if d.len() < header_size {
            Err("Response shorter than header"@)
        } else if flag_bit(flags, 0) && d.len() < header_size + 4 {
            Err("Missing sequence field"@)
        } else {
            let sequence: i32 = if flag_bit(flags, 0) {
                be_u32_at(d, header_size as int) as i32
            } else {
                0
            };
            let pos1: int = if flag_bit(flags, 0) {
                header_size as int + 4
            } else {
                header_size as int
            };
            if flag_bit(flags, 2) && d.len() < pos1 + 4 {
                Err("Missing event field"@)
            } else {
                let pos2 = if flag_bit(flags, 2) {
                    pos1 + 4
                } else {
                    pos1
                };
                parse_body(d, pos2, msg_type, compression, sequence, flag_bit(flags, 1))
            }
        }
    }
}

fn subslice(d: &[u8], a: usize, b: usize) -> (v: Vec<u8>)
    requires
        a <= b <= d@.len(),
    ensures
        v@ == d@.subrange(a as int, b as int),
{
    let mut v: Vec<u8> = Vec::new();
    let mut i = a;
    while i < b
        invariant
            a <= i <= b <= d@.len(),
            v@ == d@.subrange(a as int, i as int),
        decreases b - i,
    {
        v.push(d[i]);
        i = i + 1;
        assert(v@ =~= d@.subrange(a as int, i as int));
    }
    v
}

/// Parse a server response following the binary protocol:
/// after the header come a sequence number (flag bit 0), an event field
/// (flag bit 2, skipped), then for a full response (type 0x09) a size and
/// payload, or for an error (type 0x0F) a code, a size and a message.
#[verifier::rlimit(60)]
#[verifier::spinoff_prover]
pub fn parse_server_response(data: &[u8]) -> (r: Result<ServerMessage, String>)
    ensures
        match r {
            Ok(m) => parse_spec(data@) == Ok::<ServerMessageView, Seq<char>>(m@),
            Err(e) => parse_spec(data@) == Err::<ServerMessageView, Seq<char>>(e@),
        },
{
    let n = data.len();
    if n < 4 {
        return Err(owned("Response too short"));
    }
    let header_size = (data[0] % 16) as usize * 4;
    let msg_type = data[1] / 16;
    let flags = data[1] % 16;
    let compression = data[2] % 16;

    if n < header_size {
        return Err(owned("Response shorter than header"));
    }
    let mut pos = header_size;
    let mut sequence: i32 = 0;
    if flags % 2 == 1 {
        if n - pos < 4 {
            return Err(owned("Missing sequence field"));
        }
        sequence = be_u32_from(data, pos) as i32;
        pos = pos + 4;
    }
    let is_last = flags / 2 % 2 == 1;
    if flags / 4 % 2 == 1 {
        if n - pos < 4 {
            return Err(owned("Missing event field"));
        }
        pos = pos + 4;
    }
    assert(pos <= n);
    if msg_type == 9 {
        if n - pos < 4 {
            return Ok(ServerMessage::Response { sequence, payload: owned("{}"), _is_last: is_last });
        }
        let payload_size = be_u32_from(data, pos) as usize;
        pos = pos + 4;
        if payload_size == 0 {
            return Ok(ServerMessage::Response { sequence, payload: owned("{}"), _is_last: is_last });
        }
        if n - pos < payload_size {
            let mut msg = owned("Incomplete payload: expected ");
            push_str(&mut msg, u64_to_dec(payload_size as u64).as_str());
            push_str(&mut msg, " bytes, got ");
            push_str(&mut msg, u64_to_dec((n - pos) as u64).as_str());
            return Err(msg);
        }
        let raw = subslice(data, pos, pos + payload_size);
        let json_bytes = if compression == 1 {
            gzip_decompress(raw.as_slice())?
        } else {
            raw
        };
        let json = utf8_to_string(json_bytes)?;
        Ok(ServerMessage::Response { sequence, payload: json, _is_last: is_last })
    } else if msg_type == 15 {
        if n - pos < 8 {
            return Err(owned("Error response too short"));
        }
        let code = be_u32_from(data, pos);
        let msg_size = be_u32_from(data, pos + 4) as usize;
        pos = pos + 8;
        let raw = if n - pos >= msg_size {
            subslice(data, pos, pos + msg_size)
        } else {
            subslice(data, pos, n)
        };
        let bytes = if compression == 1 && raw.len() > 0 {
            match gzip_decompress(raw.as_slice()) {
                Ok(b) => b,
                Err(_) => raw,
            }
        } else {
            raw
        };
        let message = utf8_to_string_lossy(bytes.as_slice());
        Ok(ServerMessage::Error { code, message })
    } else {
        let mut msg = owned("Unknown message type: 0x");
        push_str(&mut msg, u8_to_hex2(msg_type).as_str());
        Err(msg)
    }
}

// ── Laws ──

/// Reading back the big-endian bytes of a 32-bit value gives the value.
pub proof fn lemma_be_roundtrip(n: u32)
    ensures
        be_u32_at(be_bytes(n), 0) == n,
{
    let b = be_bytes(n);
    let x = n as nat;
    assert(x == (x / 16777216 % 256) * 16777216 + (x / 65536 % 256) * 65536 + (x / 256 % 256)
        * 256 + x % 256) by (nonlinear_arith)
        requires
            x < 4294967296,
    ;
}

/// A server full-response frame: header (type 0x09, sequence flag, JSON,
/// uncompressed), the sequence number, the payload size and the payload.
pub open spec fn response_frame(sequence: i32, payload: Seq<u8>) -> Seq<u8> {
    header_spec(9, 1, 1, 0) + be_bytes(sequence as u32) + be_bytes(payload.len() as u32) + payload
}

/// A server error frame: header (type 0x0F, no flags, uncompressed), the
/// error code, the message size and the message.
pub open spec fn error_frame(code: u32, message: Seq<u8>) -> Seq<u8> {
    header_spec(15, 0, 1, 0) + be_bytes(code) + be_bytes(message.len() as u32) + message
}

/// Parsing a full-response frame gives back its sequence number and its
/// (UTF-8) payload text.
#[verifier::rlimit(60)]
#[verifier::spinoff_prover]
pub proof fn lemma_parse_response_frame(sequence: i32, payload: Seq<u8>)
    requires
        0 < payload.len() < 4294967296,
        valid_utf8(payload),
    ensures
        parse_spec(response_frame(sequence, payload)) == Ok::<ServerMessageView, Seq<char>>(
            ServerMessageView::Response {
                sequence,
                payload: decode_utf8(payload),
                is_last: false,
            },
        ),
{
    let d = response_frame(sequence, payload);
    let sb = be_bytes(sequence as u32);
    let lb = be_bytes(payload.len() as u32);
    lemma_be_roundtrip(sequence as u32);
    lemma_be_roundtrip(payload.len() as u32);
    assert(d.subrange(4, 8) =~= sb);
    assert(d.subrange(8, 12) =~= lb);
    assert(be_u32_at(d, 4) == be_u32_at(sb, 0));
    assert(be_u32_at(d, 8) == be_u32_at(lb, 0));
    assert((sequence as u32) as i32 == sequence) by (bit_vector);
    assert(d.subrange(12, 12 + payload.len() as int) =~= payload);
}

/// Parsing an error frame gives back its code and its message text.
#[verifier::spinoff_prover]
pub proof fn lemma_parse_error_frame(code: u32, message: Seq<u8>)
    requires
        message.len() < 4294967296,
    ensures
        parse_spec(error_frame(code, message)) == Ok::<ServerMessageView, Seq<char>>(
            ServerMessageView::Error { code, message: utf8_lossy(message) },
        ),
{
    let d = error_frame(code, message);
    let cb = be_bytes(code);
    let lb = be_bytes(message.len() as u32);
    lemma_be_roundtrip(code);
    lemma_be_roundtrip(message.len() as u32);
    assert(d.subrange(4, 8) =~= cb);
    assert(d.subrange(8, 12) =~= lb);
    assert(be_u32_at(d, 4) == be_u32_at(cb, 0));
    assert(be_u32_at(d, 8) == be_u32_at(lb, 0));
    assert(d.subrange(12, 12 + message.len() as int) =~= message);
}

} // verus!
