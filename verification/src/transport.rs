//! The operation-level receive path: routing one websocket frame through the
//! decompression codec and decoding inbound event envelopes.
//!
//! The socket itself, and the task that awaits it, live outside this crate;
//! they hand each received frame (or the absence of one, on a read timeout)
//! to [`process_frame`] and perform the sends this crate's message builders
//! serialize.

use vstd::prelude::*;
use vstd::slice::slice_subrange;
use vstd::slice::slice_to_vec;
use crate::compression::ends_with_zlib_marker;
use crate::compression::zlib_inflate_of;
use crate::compression::Compression;
use crate::error::bytes_to_string_lossy;
use crate::error::CloseInfo;
use crate::error::Error;
use crate::error::utf8_lossy_of;

verus! {

/// Dispatch event text is retained verbatim for downstream replay, but
/// truncated to this many bytes rather than growing without bound.
pub const DISPATCH_TEXT_LIMIT: usize = 4294967295;

/// A frame as the socket layer hands it over, after the transport's bounded
/// wait.  A read timeout is represented by handing no frame at all.
pub enum WsFrame {
    /// A text frame: treated as already-decompressed JSON bytes.
    Text(Vec<u8>),
    /// A binary frame, to be routed through the compression codec.
    Binary(Vec<u8>),
    /// An explicit close frame with its optional payload.
    Close(Option<CloseInfo>),
    /// Any other frame kind, such as ping or pong.
    Other,
}

/// An inbound gateway event, decoded from one envelope.
pub enum GatewayEvent {
    /// An application-level event: its sequence number, its event name, and
    /// the verbatim envelope text as received (post-decompression,
    /// pre-parse), truncated to [`DISPATCH_TEXT_LIMIT`] bytes.
    Dispatch { seq_num: u64, name: Vec<u8>, original_str: Vec<u8> },
    /// The server asks for an immediate heartbeat.
    Heartbeat,
    /// The server asks the client to reconnect.
    Reconnect,
    /// The session was invalidated; the flag says whether it is resumable.
    InvalidateSession { resumable: bool },
    /// The first message of a connection, carrying the heartbeat interval in
    /// milliseconds.
    Hello { heartbeat_interval: u64 },
    /// The server acknowledged a heartbeat.
    HeartbeatAck,
}

/// The mathematical shape of a [`GatewayEvent`].
#[verifier::ext_equal]
pub enum GatewayEventV {
    Dispatch { seq_num: u64, name: Seq<u8>, original_str: Seq<u8> },
    Heartbeat,
    Reconnect,
    InvalidateSession { resumable: bool },
    Hello { heartbeat_interval: u64 },
    HeartbeatAck,
}

impl View for GatewayEvent {
    type V = GatewayEventV;

    open spec fn view(&self) -> GatewayEventV {
        match self {
            GatewayEvent::Dispatch { seq_num, name, original_str } => GatewayEventV::Dispatch {
                seq_num: *seq_num,
                name: name@,
                original_str: original_str@,
            },
            GatewayEvent::Heartbeat => GatewayEventV::Heartbeat,
            GatewayEvent::Reconnect => GatewayEventV::Reconnect,
            GatewayEvent::InvalidateSession { resumable } => GatewayEventV::InvalidateSession {
                resumable: *resumable,
            },
            GatewayEvent::Hello { heartbeat_interval } => GatewayEventV::Hello {
                heartbeat_interval: *heartbeat_interval,
            },
            GatewayEvent::HeartbeatAck => GatewayEventV::HeartbeatAck,
        }
    }
}

/// The scalar fields scanned out of one inbound envelope: the opcode, the
/// sequence number, the event name, and the two payload scalars a non-dispatch
/// event can carry (a boolean `d`, or `d.heartbeat_interval`).
struct EventFields {
    op: u64,
    seq_num: Option<u64>,
    event_name: Option<Vec<u8>>,
    d_bool: Option<bool>,
    d_heartbeat_interval: Option<u64>,
}

/// The verbatim dispatch text: the envelope bytes, truncated to the
/// retention bound.
pub open spec fn dispatch_text_of(raw: Seq<u8>) -> Seq<u8> {
    if raw.len() <= DISPATCH_TEXT_LIMIT {
        raw
    } else {
        raw.take(DISPATCH_TEXT_LIMIT as int)
    }
}

/// Which event an envelope's scanned fields denote, and for which field
/// combinations an envelope is rejected.
pub open spec fn event_of_fields(
    op: u64,
    seq_num: Option<u64>,
    event_name: Option<Seq<u8>>,
    d_bool: Option<bool>,
    d_heartbeat_interval: Option<u64>,
    raw: Seq<u8>,
) -> Option<GatewayEventV> {
    if op == 0 {
        match (seq_num, event_name) {
            (Some(s), Some(name)) => Some(
                GatewayEventV::Dispatch {
                    seq_num: s,
                    name: name,
                    original_str: dispatch_text_of(raw),
                },
            ),
            _ => None,
        }
    } else if op == 1 {
        Some(GatewayEventV::Heartbeat)
    } else if op == 7 {
        Some(GatewayEventV::Reconnect)
    } else if op == 9 {
        match d_bool {
            Some(b) => Some(GatewayEventV::InvalidateSession { resumable: b }),
            None => None,
        }
    } else if op == 10 {
        match d_heartbeat_interval {
            Some(i) => Some(GatewayEventV::Hello { heartbeat_interval: i }),
            None => None,
        }
    } else if op == 11 {
        Some(GatewayEventV::HeartbeatAck)
    } else {
        None
    }
}

/// Turns scanned envelope fields into the typed event they denote, or the
/// parse error carrying the offending text.
fn event_from_fields(fields: EventFields, raw: &[u8]) -> (r: Result<GatewayEvent, Error>)
    ensures
        (match r {
            Ok(ev) => event_of_fields(
                fields.op,
                fields.seq_num,
                match fields.event_name {
                    Some(n) => Some(n@),
                    None => None,
                },
                fields.d_bool,
                fields.d_heartbeat_interval,
                raw@,
            ) == Some(ev@),
            Err(e) => e matches Error::Json(t) && t@ == utf8_lossy_of(raw@) && event_of_fields(
                fields.op,
                fields.seq_num,
                match fields.event_name {
                    Some(n) => Some(n@),
                    None => None,
                },
                fields.d_bool,
                fields.d_heartbeat_interval,
                raw@,
            ) is None,
        }),
{
    let op = fields.op;
    if op == 0 {
        match (fields.seq_num, fields.event_name) {
            (Some(s), Some(name)) => {
                let original_str = if raw.len() <= DISPATCH_TEXT_LIMIT {
                    slice_to_vec(raw)
                } else {
                    slice_to_vec(slice_subrange(raw, 0, DISPATCH_TEXT_LIMIT))
                };
                Ok(GatewayEvent::Dispatch { seq_num: s, name, original_str })
            },
            _ => Err(Error::Json(bytes_to_string_lossy(raw))),
        }
    } else if op == 1 {
        Ok(GatewayEvent::Heartbeat)
    } else if op == 7 {
        Ok(GatewayEvent::Reconnect)
    } else if op == 9 {
        match fields.d_bool {
            Some(b) => Ok(GatewayEvent::InvalidateSession { resumable: b }),
            None => Err(Error::Json(bytes_to_string_lossy(raw))),
        }
    } else if op == 10 {
        match fields.d_heartbeat_interval {
            Some(i) => Ok(GatewayEvent::Hello { heartbeat_interval: i }),
            None => Err(Error::Json(bytes_to_string_lossy(raw))),
        }
    } else if op == 11 {
        Ok(GatewayEvent::HeartbeatAck)
    } else {
        Err(Error::Json(bytes_to_string_lossy(raw)))
    }
}


/// A JSON whitespace byte.
pub open spec fn is_json_ws(c: u8) -> bool {
    c == 32 || c == 9 || c == 10 || c == 13
}

/// The first index at or after `i` holding no whitespace.
pub open spec fn spec_skip_ws(b: Seq<u8>, i: int) -> int
    decreases b.len() - i,
{
    if 0 <= i && i < b.len() && is_json_ws(b[i]) {
        spec_skip_ws(b, i + 1)
    } else {
        i
    }
}

/// Skipping whitespace stays inside the text.
proof fn lemma_spec_skip_ws_bounds(b: Seq<u8>, i: int)
    requires
        0 <= i <= b.len(),
    ensures
        i <= spec_skip_ws(b, i) <= b.len(),
    decreases b.len() - i,
{
    if i < b.len() && is_json_ws(b[i]) {
        lemma_spec_skip_ws_bounds(b, i + 1);
    }
}

/// One step of decimal scanning: the accumulated value, whether a digit was
/// seen, and the overflow guards of the scanner, byte for byte.
pub open spec fn spec_scan_u64_rec(b: Seq<u8>, j: int, value: u64, any: bool) -> Option<
    (u64, int),
>
    decreases b.len() - j,
{
    if 0 <= j && j < b.len() && 48 <= b[j] <= 57 {
        let digit = (b[j] - 48) as u64;
        if value > 1844674407370955161 {
            None
        } else if value * 10 > u64::MAX - digit {
            None
        } else {
            spec_scan_u64_rec(b, j + 1, (value * 10 + digit) as u64, true)
        }
    } else if any {
        Some((value, j))
    } else {
        None
    }
}

/// The unsigned decimal number starting at `i`, if any: its value and the
/// index after its digits; `None` when no digit is present or the value
/// overflows.
pub open spec fn spec_scan_u64(b: Seq<u8>, i: int) -> Option<(u64, int)> {
    spec_scan_u64_rec(b, i, 0, false)
}

/// A scanned number ends inside the text, after at least one byte.
proof fn lemma_spec_scan_u64_rec_bounds(b: Seq<u8>, j: int, value: u64, any: bool)
    requires
        0 <= j <= b.len(),
    ensures
        spec_scan_u64_rec(b, j, value, any) matches Some((_, k)) ==> j <= k <= b.len() && (!any
            ==> j < k),
    decreases b.len() - j,
{
    if 0 <= j && j < b.len() && 48 <= b[j] <= 57 {
        let digit = (b[j] - 48) as u64;
        if value <= 1844674407370955161 && value * 10 <= u64::MAX - digit {
            lemma_spec_scan_u64_rec_bounds(b, j + 1, (value * 10 + digit) as u64, true);
        }
    }
}

/// Advances past JSON whitespace.
fn skip_ws(b: &[u8], i: usize) -> (r: usize)
    requires
        i <= b@.len(),
    ensures
        i <= r && r <= b@.len(),
        r as int == spec_skip_ws(b@, i as int),
{
    let mut j = i;
    while j < b.len() && (b[j] == 32 || b[j] == 9 || b[j] == 10 || b[j] == 13)
        invariant
            i <= j && j <= b@.len(),
            spec_skip_ws(b@, i as int) == spec_skip_ws(b@, j as int),
        decreases b@.len() - j,
    {
        j = j + 1;
    }
    j
}

/// Reads an unsigned decimal number starting at `i`; `None` on overflow or
/// when no digit is present.
fn scan_u64(b: &[u8], i: usize) -> (r: Option<(u64, usize)>)
    requires
        i <= b@.len(),
    ensures
        (match r {
            Some((v, j)) => i < j && j <= b@.len() && spec_scan_u64(b@, i as int) == Some(
                (v, j as int),
            ),
            None => spec_scan_u64(b@, i as int) is None,
        }),
{
    let mut j = i;
    let mut value: u64 = 0;
    let mut any = false;
    while j < b.len() && b[j] >= 48 && b[j] <= 57
        invariant
            i <= j && j <= b@.len(),
            any == (j != i),
            spec_scan_u64(b@, i as int) == spec_scan_u64_rec(b@, j as int, value, any),
        decreases b@.len() - j,
    {
        let digit = (b[j] - 48) as u64;
        if value > 1844674407370955161 {
            return None;
        }
        value = value * 10;
        if value > u64::MAX - digit {
            return None;
        }
        value = value + digit;
        any = true;
        j = j + 1;
    }
    if any {
        Some((value, j))
    } else {
        None
    }
}


/// The value of one hex digit, or 16 for any other byte.
pub open spec fn hex_val(h: u8) -> int {
    if 48 <= h <= 57 {
        h - 48
    } else if 97 <= h <= 102 {
        h - 87
    } else if 65 <= h <= 70 {
        h - 55
    } else {
        16
    }
}

/// The value of the four hex digits at `j`, or 65536 when any byte is not a
/// hex digit or the text is too short.
pub open spec fn spec_hex4(b: Seq<u8>, j: int) -> int {
    if 0 <= j && j + 4 <= b.len() && hex_val(b[j]) < 16 && hex_val(b[j + 1]) < 16 && hex_val(
        b[j + 2],
    ) < 16 && hex_val(b[j + 3]) < 16 {
        hex_val(b[j]) * 4096 + hex_val(b[j + 1]) * 256 + hex_val(b[j + 2]) * 16 + hex_val(
            b[j + 3],
        )
    } else {
        65536
    }
}

/// The UTF-8 bytes of a code point below 0x110000.
pub open spec fn utf8_bytes_of(cp: int) -> Seq<u8> {
    if cp < 0x80 {
        seq![cp as u8]
    } else if cp < 0x800 {
        seq![(192 + cp / 64) as u8, (128 + cp % 64) as u8]
    } else if cp < 0x10000 {
        seq![(224 + cp / 4096) as u8, (128 + (cp / 64) % 64) as u8, (128 + cp % 64) as u8]
    } else {
        seq![
            (240 + cp / 262144) as u8,
            (128 + (cp / 4096) % 64) as u8,
            (128 + (cp / 64) % 64) as u8,
            (128 + cp % 64) as u8,
        ]
    }
}

/// The string scan from inside the quotes: `out` holds the content read so
/// far; on the closing quote the content and the index after it come back.
/// The simple escapes map to their bytes, `\uXXXX` escapes encode as UTF-8,
/// a high surrogate must be followed by an escaped low surrogate (together
/// one code point), and a lone low surrogate is malformed.
pub open spec fn spec_scan_string_rec(b: Seq<u8>, j: int, out: Seq<u8>) -> Option<(Seq<u8>, int)>
    decreases b.len() - j,
{
    if !(0 <= j && j < b.len()) {
        None
    } else {
        let c = b[j];
        if c == 34 {
            Some((out, j + 1))
        } else if c == 92 {
            if j + 1 >= b.len() {
                None
            } else {
                let e = b[j + 1];
                if e == 34 || e == 92 || e == 47 {
                    spec_scan_string_rec(b, j + 2, out.push(e))
                } else if e == 110 {
                    spec_scan_string_rec(b, j + 2, out.push(10))
                } else if e == 116 {
                    spec_scan_string_rec(b, j + 2, out.push(9))
                } else if e == 114 {
                    spec_scan_string_rec(b, j + 2, out.push(13))
                } else if e == 98 {
                    spec_scan_string_rec(b, j + 2, out.push(8))
                } else if e == 102 {
                    spec_scan_string_rec(b, j + 2, out.push(12))
                } else if e == 117 {
                    if b.len() - j < 6 {
                        None
                    } else {
                        let code = spec_hex4(b, j + 2);
                        if code >= 65536 {
                            None
                        } else if 0xDC00 <= code <= 0xDFFF {
                            None
                        } else if 0xD800 <= code <= 0xDBFF {
                            if b.len() - j < 12 {
                                None
                            } else if b[j + 6] != 92 || b[j + 7] != 117 {
                                None
                            } else {
                                let low = spec_hex4(b, j + 8);
                                if !(0xDC00 <= low <= 0xDFFF) {
                                    None
                                } else {
                                    let cp = 0x10000 + (code - 0xD800) * 1024 + (low - 0xDC00);
                                    spec_scan_string_rec(b, j + 12, out + utf8_bytes_of(cp))
                                }
                            }
                        } else {
                            spec_scan_string_rec(b, j + 6, out + utf8_bytes_of(code))
                        }
                    }
                } else {
                    None
                }
            }
        } else {
            spec_scan_string_rec(b, j + 1, out.push(c))
        }
    }
}

/// The JSON string literal starting at `i`: its content bytes and the index
/// after the closing quote.
pub open spec fn spec_scan_string(b: Seq<u8>, i: int) -> Option<(Seq<u8>, int)> {
    if 0 <= i && i < b.len() && b[i] == 34 {
        spec_scan_string_rec(b, i + 1, Seq::<u8>::empty())
    } else {
        None
    }
}

/// A scanned string ends inside the text, after at least one byte.
proof fn lemma_spec_scan_string_rec_bounds(b: Seq<u8>, j: int, out: Seq<u8>)
    requires
        0 <= j <= b.len(),
    ensures
        spec_scan_string_rec(b, j, out) matches Some((_, k)) ==> j < k <= b.len(),
    decreases b.len() - j,
{
    if 0 <= j && j < b.len() {
        let c = b[j];
        if c == 34 {
        } else if c == 92 {
            if j + 1 < b.len() {
                let e = b[j + 1];
                if e == 34 || e == 92 || e == 47 {
                    lemma_spec_scan_string_rec_bounds(b, j + 2, out.push(e));
                } else if e == 110 {
                    lemma_spec_scan_string_rec_bounds(b, j + 2, out.push(10));
                } else if e == 116 {
                    lemma_spec_scan_string_rec_bounds(b, j + 2, out.push(9));
                } else if e == 114 {
                    lemma_spec_scan_string_rec_bounds(b, j + 2, out.push(13));
                } else if e == 98 {
                    lemma_spec_scan_string_rec_bounds(b, j + 2, out.push(8));
                } else if e == 102 {
                    lemma_spec_scan_string_rec_bounds(b, j + 2, out.push(12));
                } else if e == 117 {
                    if b.len() - j >= 6 {
                        let code = spec_hex4(b, j + 2);
                        if code < 65536 && !(0xDC00 <= code <= 0xDFFF) {
                            if 0xD800 <= code <= 0xDBFF {
                                if b.len() - j >= 12 && b[j + 6] == 92 && b[j + 7] == 117 {
                                    let low = spec_hex4(b, j + 8);
                                    if 0xDC00 <= low <= 0xDFFF {
                                        let cp = 0x10000 + (code - 0xD800) * 1024 + (low
                                            - 0xDC00);
                                        lemma_spec_scan_string_rec_bounds(
                                            b,
                                            j + 12,
                                            out + utf8_bytes_of(cp),
                                        );
                                    }
                                }
                            } else {
                                lemma_spec_scan_string_rec_bounds(
                                    b,
                                    j + 6,
                                    out + utf8_bytes_of(code),
                                );
                            }
                        }
                    }
                }
            }
        } else {
            lemma_spec_scan_string_rec_bounds(b, j + 1, out.push(c));
        }
    }
}

/// A scanned string ends inside the text, after the opening quote.
proof fn lemma_spec_scan_string_bounds(b: Seq<u8>, i: int)
    ensures
        spec_scan_string(b, i) matches Some((_, k)) ==> i < k <= b.len(),
{
    if 0 <= i && i < b.len() && b[i] == 34 {
        lemma_spec_scan_string_rec_bounds(b, i + 1, Seq::<u8>::empty());
    }
}

/// The value of one hex digit, or 16 for any other byte.
fn hex_nibble(h: u8) -> (r: u8)
    ensures
        r as int == hex_val(h),
{
    if h >= 48 && h <= 57 {
        h - 48
    } else if h >= 97 && h <= 102 {
        h - 87
    } else if h >= 65 && h <= 70 {
        h - 55
    } else {
        16
    }
}

/// The value of the four hex digits at `j`, or 65536 on any non-hex byte.
fn read_hex4(b: &[u8], j: usize) -> (r: u32)
    requires
        j + 4 <= b@.len(),
    ensures
        r as int == spec_hex4(b@, j as int),
        r <= 65536,
{
    let h0 = hex_nibble(b[j]);
    let h1 = hex_nibble(b[j + 1]);
    let h2 = hex_nibble(b[j + 2]);
    let h3 = hex_nibble(b[j + 3]);
    if h0 >= 16 || h1 >= 16 || h2 >= 16 || h3 >= 16 {
        65536
    } else {
        (h0 as u32) * 4096 + (h1 as u32) * 256 + (h2 as u32) * 16 + (h3 as u32)
    }
}

/// Reads a JSON string literal starting at the opening quote, decoding the
/// simple escapes and `\uXXXX` escapes (surrogate pairs included).
/// Returns the content bytes and the index after the closing quote.
fn scan_string(b: &[u8], i: usize) -> (r: Option<(Vec<u8>, usize)>)
    requires
        i < b@.len(),
    ensures
        (match r {
            Some((s, j)) => i < j && j <= b@.len() && spec_scan_string(b@, i as int) == Some(
                (s@, j as int),
            ),
            None => spec_scan_string(b@, i as int) is None,
        }),
{
    if b[i] != 34 {
        return None;
    }
    let mut out: Vec<u8> = Vec::new();
    let mut j = i + 1;
    loop
        invariant
            i < j && j <= b@.len(),
            b@[i as int] == 34,
            spec_scan_string(b@, i as int) == spec_scan_string_rec(b@, j as int, out@),
        decreases b@.len() - j,
    {
        if j >= b.len() {
            return None;
        }
        let c = b[j];
        if c == 34 {
            return Some((out, j + 1));
        }
        if c == 92 {
            if j + 1 >= b.len() {
                return None;
            }
            let e = b[j + 1];
            if e == 34 || e == 92 || e == 47 {
                out.push(e);
                j = j + 2;
            } else if e == 110 {
                out.push(10);
                j = j + 2;
            } else if e == 116 {
                out.push(9);
                j = j + 2;
            } else if e == 114 {
                out.push(13);
                j = j + 2;
            } else if e == 98 {
                out.push(8);
                j = j + 2;
            } else if e == 102 {
                out.push(12);
                j = j + 2;
            } else if e == 117 {
                if b.len() - j < 6 {
                    return None;
                }
                let code = read_hex4(b, j + 2);
                if code >= 65536 {
                    return None;
                }
                if code >= 0xDC00 && code <= 0xDFFF {
                    return None;
                }
                if code >= 0xD800 && code <= 0xDBFF {
                    if b.len() - j < 12 {
                        return None;
                    }
                    if b[j + 6] != 92 || b[j + 7] != 117 {
                        return None;
                    }
                    let low = read_hex4(b, j + 8);
                    if !(low >= 0xDC00 && low <= 0xDFFF) {
                        return None;
                    }
                    let cp: u32 = 65536 + (code - 0xD800) * 1024 + (low - 0xDC00);
                    let ghost out0 = out@;
                    out.push(240 + (cp / 262144) as u8);
                    out.push(128 + ((cp / 4096) % 64) as u8);
                    out.push(128 + ((cp / 64) % 64) as u8);
                    out.push(128 + (cp % 64) as u8);
                    proof {
                        assert(out@ =~= out0 + utf8_bytes_of(cp as int));
                    }
                    j = j + 12;
                } else if code < 0x80 {
                    let ghost out0 = out@;
                    out.push(code as u8);
                    proof {
                        assert(out@ =~= out0 + utf8_bytes_of(code as int));
                    }
                    j = j + 6;
                } else if code < 0x800 {
                    let ghost out0 = out@;
                    out.push(192 + (code / 64) as u8);
                    out.push(128 + (code % 64) as u8);
                    proof {
                        assert(out@ =~= out0 + utf8_bytes_of(code as int));
                    }
                    j = j + 6;
                } else {
                    let ghost out0 = out@;
                    out.push(224 + (code / 4096) as u8);
                    out.push(128 + ((code / 64) % 64) as u8);
                    out.push(128 + (code % 64) as u8);
                    proof {
                        assert(out@ =~= out0 + utf8_bytes_of(code as int));
                    }
                    j = j + 6;
                }
            } else {
                return None;
            }
        } else {
            out.push(c);
            j = j + 1;
        }
    }
}


/// A byte that can appear in a number, `true`, `false` or `null` token.
pub open spec fn is_token_byte(c: u8) -> bool {
    c == 43 || c == 45 || c == 46 || (48 <= c <= 57) || (97 <= c <= 122) || (65 <= c <= 90)
}

/// The first index at or after `k` holding no token byte.
pub open spec fn spec_token_run_end(b: Seq<u8>, k: int) -> int
    decreases b.len() - k,
{
    if 0 <= k && k < b.len() && is_token_byte(b[k]) {
        spec_token_run_end(b, k + 1)
    } else {
        k
    }
}

/// A token run stays inside the text.
proof fn lemma_spec_token_run_end_bounds(b: Seq<u8>, k: int)
    requires
        0 <= k <= b.len(),
    ensures
        k <= spec_token_run_end(b, k) <= b.len(),
    decreases b.len() - k,
{
    if k < b.len() && is_token_byte(b[k]) {
        lemma_spec_token_run_end_bounds(b, k + 1);
    }
}

/// One step of value skipping at bracket depth `depth`: strings, brackets,
/// separators, whitespace and scalar tokens, exactly as the scanner walks
/// them; the index after the value once the depth returns to zero.
pub open spec fn spec_skip_value_rec(b: Seq<u8>, j: int, depth: int) -> Option<int>
    decreases b.len() - j,
    via spec_skip_value_rec_dec
{
    if !(0 <= j && j < b.len()) {
        None
    } else {
        let c = b[j];
        if c == 34 {
            match spec_scan_string(b, j) {
                None => None,
                Some((_, k)) => if depth == 0 {
                    Some(k)
                } else {
                    spec_skip_value_rec(b, k, depth)
                },
            }
        } else if c == 123 || c == 91 {
            if depth == usize::MAX as int {
                None
            } else {
                spec_skip_value_rec(b, j + 1, depth + 1)
            }
        } else if c == 125 || c == 93 {
            if depth == 0 {
                None
            } else if depth == 1 {
                Some(j + 1)
            } else {
                spec_skip_value_rec(b, j + 1, depth - 1)
            }
        } else if c == 44 || c == 58 {
            if depth == 0 {
                None
            } else {
                spec_skip_value_rec(b, j + 1, depth)
            }
        } else if is_json_ws(c) {
            spec_skip_value_rec(b, j + 1, depth)
        } else {
            let k = spec_token_run_end(b, j);
            if k == j {
                None
            } else if depth == 0 {
                Some(k)
            } else {
                spec_skip_value_rec(b, k, depth)
            }
        }
    }
}

#[via_fn]
proof fn spec_skip_value_rec_dec(b: Seq<u8>, j: int, depth: int) {
    if 0 <= j && j < b.len() {
        let c = b[j];
        if c == 34 {
            lemma_spec_scan_string_bounds(b, j);
        } else if !(c == 123 || c == 91 || c == 125 || c == 93 || c == 44 || c == 58
            || is_json_ws(c)) {
            lemma_spec_token_run_end_bounds(b, j);
        }
    }
}

/// The index after one whole JSON value starting at `i`.
pub open spec fn spec_skip_value(b: Seq<u8>, i: int) -> Option<int> {
    spec_skip_value_rec(b, i, 0)
}

/// A skipped value ends inside the text, after at least one byte.
#[verifier::rlimit(60)]
proof fn lemma_spec_skip_value_rec_bounds(b: Seq<u8>, j: int, depth: int)
    requires
        0 <= j <= b.len(),
    ensures
        spec_skip_value_rec(b, j, depth) matches Some(k) ==> j < k <= b.len(),
    decreases b.len() - j,
{
    let r = spec_skip_value_rec(b, j, depth);
    if 0 <= j && j < b.len() {
        let c = b[j];
        if c == 34 {
            lemma_spec_scan_string_bounds(b, j);
            match spec_scan_string(b, j) {
                Some((_, k)) => {
                    if depth == 0 {
                        assert(r == Some(k));
                    } else {
                        lemma_spec_skip_value_rec_bounds(b, k, depth);
                        assert(r == spec_skip_value_rec(b, k, depth));
                    }
                    assert(r matches Some(k2) ==> j < k2 <= b.len());
                },
                None => {
                    assert(r is None);
                },
            }
        } else if c == 123 || c == 91 {
            if depth == usize::MAX as int {
                assert(r is None);
            } else {
                lemma_spec_skip_value_rec_bounds(b, j + 1, depth + 1);
                assert(r == spec_skip_value_rec(b, j + 1, depth + 1));
                assert(r matches Some(k2) ==> j < k2 <= b.len());
            }
        } else if c == 125 || c == 93 {
            if depth == 0 {
                assert(r is None);
            } else if depth == 1 {
                assert(r == Some(j + 1));
                assert(r matches Some(k2) ==> j < k2 <= b.len());
            } else {
                lemma_spec_skip_value_rec_bounds(b, j + 1, depth - 1);
                assert(r == spec_skip_value_rec(b, j + 1, depth - 1));
                assert(r matches Some(k2) ==> j < k2 <= b.len());
            }
        } else if c == 44 || c == 58 {
            if depth == 0 {
                assert(r is None);
            } else {
                lemma_spec_skip_value_rec_bounds(b, j + 1, depth);
                assert(r == spec_skip_value_rec(b, j + 1, depth));
                assert(r matches Some(k2) ==> j < k2 <= b.len());
            }
        } else if is_json_ws(c) {
            lemma_spec_skip_value_rec_bounds(b, j + 1, depth);
            assert(r == spec_skip_value_rec(b, j + 1, depth));
            assert(r matches Some(k2) ==> j < k2 <= b.len());
        } else {
            lemma_spec_token_run_end_bounds(b, j);
            let k = spec_token_run_end(b, j);
            if k == j {
                assert(r is None);
            } else if depth == 0 {
                assert(r == Some(k));
                assert(r matches Some(k2) ==> j < k2 <= b.len());
            } else {
                lemma_spec_skip_value_rec_bounds(b, k, depth);
                assert(r == spec_skip_value_rec(b, k, depth));
                assert(r matches Some(k2) ==> j < k2 <= b.len());
            }
        }
    } else {
        assert(r is None);
    }
}

/// Skips one JSON value of any shape, tracking bracket depth iteratively.
/// Returns the index after the value.
fn skip_value(b: &[u8], i: usize) -> (r: Option<usize>)
    requires
        i <= b@.len(),
    ensures
        (match r {
            Some(j) => i < j && j <= b@.len() && spec_skip_value(b@, i as int) == Some(j as int),
            None => spec_skip_value(b@, i as int) is None,
        }),
{
    proof {
        lemma_spec_skip_value_rec_bounds(b@, i as int, 0);
    }
    let mut j = i;
    let mut depth: usize = 0;
    loop
        invariant
            i <= j && j <= b@.len(),
            spec_skip_value(b@, i as int) == spec_skip_value_rec(b@, j as int, depth as int),
        decreases b@.len() - j,
    {
        if j >= b.len() {
            return None;
        }
        let c = b[j];
        if c == 34 {
            match scan_string(b, j) {
                Some((_, k)) => {
                    j = k;
                },
                None => {
                    return None;
                },
            }
            if depth == 0 {
                return Some(j);
            }
        } else if c == 123 || c == 91 {
            if depth == usize::MAX {
                return None;
            }
            depth = depth + 1;
            j = j + 1;
        } else if c == 125 || c == 93 {
            if depth == 0 {
                return None;
            }
            depth = depth - 1;
            j = j + 1;
            if depth == 0 {
                return Some(j);
            }
        } else if c == 44 || c == 58 {
            if depth == 0 {
                return None;
            }
            j = j + 1;
        } else if c == 32 || c == 9 || c == 10 || c == 13 {
            j = j + 1;
        } else {
            // a number, true, false or null: consume its characters
            let ghost j_before = j as int;
            let mut k = j;
            while k < b.len() && (b[k] == 43 || b[k] == 45 || b[k] == 46 || (b[k] >= 48 && b[k]
                <= 57) || (b[k] >= 97 && b[k] <= 122) || (b[k] >= 65 && b[k] <= 90))
                invariant
                    j <= k && k <= b@.len(),
                    j == j_before,
                    spec_token_run_end(b@, j_before) == spec_token_run_end(b@, k as int),
                decreases b@.len() - k,
            {
                k = k + 1;
            }
            proof {
                assert(spec_token_run_end(b@, j_before) == k as int);
            }
            if k == j {
                return None;
            }
            j = k;
            if depth == 0 {
                return Some(j);
            }
        }
    }
}


/// `"heartbeat_interval"`
pub open spec fn k_heartbeat_interval() -> Seq<u8> {
    seq![104u8, 101u8, 97u8, 114u8, 116u8, 98u8, 101u8, 97u8, 116u8, 95u8, 105u8, 110u8, 116u8, 101u8, 114u8, 118u8, 97u8, 108u8]
}

/// One field of the nested `d` object: the key string, a colon, then either
/// the extracted `heartbeat_interval` number or any skipped value, and the
/// separator; the extracted value (last occurrence wins) and the index after
/// the closing brace come back.
pub open spec fn spec_scan_d_rec(b: Seq<u8>, j: int, interval: Option<u64>) -> Option<
    (Option<u64>, int),
>
    decreases b.len() - j,
    via spec_scan_d_rec_dec
{
    if !(0 <= j && j < b.len()) {
        None
    } else {
        match spec_scan_string(b, j) {
            None => None,
            Some((key, after_key)) => {
                let k1 = spec_skip_ws(b, after_key);
                if k1 >= b.len() || b[k1] != 58 {
                    None
                } else {
                    let k2 = spec_skip_ws(b, k1 + 1);
                    let scanned: Option<(Option<u64>, int)> = if key == k_heartbeat_interval() {
                        match spec_scan_u64(b, k2) {
                            None => None,
                            Some((v, after)) => Some((Some(v), after)),
                        }
                    } else {
                        match spec_skip_value(b, k2) {
                            None => None,
                            Some(after) => Some((interval, after)),
                        }
                    };
                    match scanned {
                        None => None,
                        Some((interval2, after_val)) => {
                            let k3 = spec_skip_ws(b, after_val);
                            if k3 >= b.len() {
                                None
                            } else if b[k3] == 125 {
                                Some((interval2, k3 + 1))
                            } else if b[k3] != 44 {
                                None
                            } else {
                                let j2 = spec_skip_ws(b, k3 + 1);
                                if j2 <= j {
                                    None
                                } else {
                                    spec_scan_d_rec(b, j2, interval2)
                                }
                            }
                        },
                    }
                }
            },
        }
    }
}

#[via_fn]
proof fn spec_scan_d_rec_dec(b: Seq<u8>, j: int, interval: Option<u64>) {
    if 0 <= j && j < b.len() {
        lemma_spec_scan_string_bounds(b, j);
        match spec_scan_string(b, j) {
            Some((key, after_key)) => {
                lemma_spec_skip_ws_bounds(b, after_key);
                let k1 = spec_skip_ws(b, after_key);
                if k1 < b.len() && b[k1] == 58 {
                    lemma_spec_skip_ws_bounds(b, k1 + 1);
                    let k2 = spec_skip_ws(b, k1 + 1);
                    lemma_spec_scan_u64_rec_bounds(b, k2, 0, false);
                    lemma_spec_skip_value_rec_bounds(b, k2, 0);
                    let scanned: Option<(Option<u64>, int)> = if key == k_heartbeat_interval() {
                        match spec_scan_u64(b, k2) {
                            None => None,
                            Some((v, after)) => Some((Some(v), after)),
                        }
                    } else {
                        match spec_skip_value(b, k2) {
                            None => None,
                            Some(after) => Some((interval, after)),
                        }
                    };
                    match scanned {
                        Some((_, after_val)) => {
                            lemma_spec_skip_ws_bounds(b, after_val);
                            let k3 = spec_skip_ws(b, after_val);
                            if k3 < b.len() && b[k3] != 125 && b[k3] == 44 {
                                lemma_spec_skip_ws_bounds(b, k3 + 1);
                            }
                        },
                        None => {},
                    }
                }
            },
            None => {},
        }
    }
}

/// The nested `d` object from just after its opening brace: the extracted
/// `heartbeat_interval` (if present) and the index after the closing brace.
pub open spec fn spec_scan_d_object(b: Seq<u8>, i: int) -> Option<(Option<u64>, int)> {
    if !(0 <= i <= b.len()) {
        None
    } else {
        let j = spec_skip_ws(b, i);
        if j < b.len() && b[j] == 125 {
            Some((None, j + 1))
        } else {
            spec_scan_d_rec(b, j, None)
        }
    }
}

/// Scans the fields of a nested `d` object, extracting
/// `heartbeat_interval` and skipping everything else.  `i` points just after
/// the opening brace.  Returns the extracted value (if present) and the index
/// after the closing brace.
fn scan_d_object(b: &[u8], i: usize) -> (r: Option<(Option<u64>, usize)>)
    requires
        i <= b@.len(),
    ensures
        (match r {
            Some((iv, j)) => i <= j && j <= b@.len() && spec_scan_d_object(b@, i as int) == Some(
                (iv, j as int),
            ),
            None => spec_scan_d_object(b@, i as int) is None,
        }),
{
    let mut j = skip_ws(b, i);
    let mut interval: Option<u64> = None;
    if j < b.len() && b[j] == 125 {
        return Some((interval, j + 1));
    }
    loop
        invariant
            i <= j && j <= b@.len(),
            spec_scan_d_object(b@, i as int) == spec_scan_d_rec(b@, j as int, interval),
        decreases b@.len() - j,
    {
        let j0 = j;
        if j >= b.len() {
            return None;
        }
        let (key, after_key) = match scan_string(b, j) {
            Some(p) => p,
            None => {
                return None;
            },
        };
        let mut k = skip_ws(b, after_key);
        if k >= b.len() || b[k] != 58 {
            return None;
        }
        k = skip_ws(b, k + 1);
        let is_interval = bytes_eq_interval(key.as_slice());
        if is_interval {
            match scan_u64(b, k) {
                Some((v, after)) => {
                    interval = Some(v);
                    k = after;
                },
                None => {
                    return None;
                },
            }
        } else {
            match skip_value(b, k) {
                Some(after) => {
                    k = after;
                },
                None => {
                    return None;
                },
            }
        }
        k = skip_ws(b, k);
        if k >= b.len() {
            return None;
        }
        if b[k] == 125 {
            return Some((interval, k + 1));
        }
        if b[k] != 44 {
            return None;
        }
        j = skip_ws(b, k + 1);
        if j <= j0 {
            return None;
        }
    }
}

/// `"heartbeat_interval"` as a vector.
fn heartbeat_interval_key() -> (r: Vec<u8>)
    ensures
        r@ == k_heartbeat_interval(),
{
    let mut v: Vec<u8> = Vec::new();
    v.push(104);
    v.push(101);
    v.push(97);
    v.push(114);
    v.push(116);
    v.push(98);
    v.push(101);
    v.push(97);
    v.push(116);
    v.push(95);
    v.push(105);
    v.push(110);
    v.push(116);
    v.push(101);
    v.push(114);
    v.push(118);
    v.push(97);
    v.push(108);
    assert(v@ =~= k_heartbeat_interval());
    v
}

/// Whether a key's bytes spell `heartbeat_interval`.
fn bytes_eq_interval(key: &[u8]) -> (r: bool)
    ensures
        r == (key@ == k_heartbeat_interval()),
{
    let expected = heartbeat_interval_key();
    if key.len() != 18 {
        return false;
    }
    let mut i: usize = 0;
    while i < 18
        invariant
            i <= 18,
            key@.len() == 18,
            expected@ == k_heartbeat_interval(),
            forall|m: int| 0 <= m < i ==> key@[m] == expected@[m],
        decreases 18 - i,
    {
        if key[i] != expected[i] {
            assert(key@[i as int] != k_heartbeat_interval()[i as int]);
            return false;
        }
        i = i + 1;
    }
    assert(key@ =~= k_heartbeat_interval());
    true
}


/// A field's end stays inside the text, after at least one byte.
proof fn lemma_spec_scan_d_rec_bounds(b: Seq<u8>, j: int, interval: Option<u64>)
    requires
        0 <= j <= b.len(),
    ensures
        spec_scan_d_rec(b, j, interval) matches Some((_, k)) ==> j < k <= b.len(),
    decreases b.len() - j,
{
    if 0 <= j && j < b.len() {
        lemma_spec_scan_string_bounds(b, j);
        match spec_scan_string(b, j) {
            Some((key, after_key)) => {
                lemma_spec_skip_ws_bounds(b, after_key);
                let k1 = spec_skip_ws(b, after_key);
                if k1 < b.len() && b[k1] == 58 {
                    lemma_spec_skip_ws_bounds(b, k1 + 1);
                    let k2 = spec_skip_ws(b, k1 + 1);
                    lemma_spec_scan_u64_rec_bounds(b, k2, 0, false);
                    lemma_spec_skip_value_rec_bounds(b, k2, 0);
                    let scanned: Option<(Option<u64>, int)> = if key == k_heartbeat_interval() {
                        match spec_scan_u64(b, k2) {
                            None => None,
                            Some((v, after)) => Some((Some(v), after)),
                        }
                    } else {
                        match spec_skip_value(b, k2) {
                            None => None,
                            Some(after) => Some((interval, after)),
                        }
                    };
                    match scanned {
                        Some((interval2, after_val)) => {
                            lemma_spec_skip_ws_bounds(b, after_val);
                            let k3 = spec_skip_ws(b, after_val);
                            if k3 < b.len() && b[k3] != 125 && b[k3] == 44 {
                                lemma_spec_skip_ws_bounds(b, k3 + 1);
                                let j2 = spec_skip_ws(b, k3 + 1);
                                if j2 > j {
                                    lemma_spec_scan_d_rec_bounds(b, j2, interval2);
                                }
                            }
                        },
                        None => {},
                    }
                }
            },
            None => {},
        }
    }
}

/// A scanned `d` object ends inside the text, after at least one byte.
proof fn lemma_spec_scan_d_object_bounds(b: Seq<u8>, i: int)
    requires
        0 <= i <= b.len(),
    ensures
        spec_scan_d_object(b, i) matches Some((_, k)) ==> i < k <= b.len(),
{
    lemma_spec_skip_ws_bounds(b, i);
    let j = spec_skip_ws(b, i);
    if !(j < b.len() && b[j] == 125) {
        lemma_spec_scan_d_rec_bounds(b, j, None);
    }
}

/// One `key: value` field of the envelope object, updating the recognised
/// scalar fields (`op`, `s`, `t`, and `d` as a boolean or as an object whose
/// `heartbeat_interval` is extracted; every other value skipped), then the
/// separator; on the closing brace the collected fields and the index after
/// it come back.
pub open spec fn spec_scan_fields_rec(
    b: Seq<u8>,
    j: int,
    op: Option<u64>,
    s: Option<u64>,
    t: Option<Seq<u8>>,
    db: Option<bool>,
    di: Option<u64>,
) -> Option<(Option<u64>, Option<u64>, Option<Seq<u8>>, Option<bool>, Option<u64>, int)>
    decreases b.len() - j,
    via spec_scan_fields_rec_dec
{
    if !(0 <= j && j < b.len()) {
        None
    } else {
        match spec_scan_string(b, j) {
            None => None,
            Some((key, after_key)) => {
                let k1 = spec_skip_ws(b, after_key);
                if k1 >= b.len() || b[k1] != 58 {
                    None
                } else {
                    let k2 = spec_skip_ws(b, k1 + 1);
                    if k2 >= b.len() {
                        None
                    } else {
                        let stepped: Option<
                            (Option<u64>, Option<u64>, Option<Seq<u8>>, Option<bool>, Option<
                                u64,
                            >, int),
                        > = if key == seq![111u8, 112u8] {
                            match spec_scan_u64(b, k2) {
                                None => None,
                                Some((v, after)) => Some((Some(v), s, t, db, di, after)),
                            }
                        } else if key == seq![115u8] {
                            if b[k2] == 110 {
                                match spec_skip_value(b, k2) {
                                    None => None,
                                    Some(after) => Some((op, s, t, db, di, after)),
                                }
                            } else {
                                match spec_scan_u64(b, k2) {
                                    None => None,
                                    Some((v, after)) => Some((op, Some(v), t, db, di, after)),
                                }
                            }
                        } else if key == seq![116u8] {
                            if b[k2] == 110 {
                                match spec_skip_value(b, k2) {
                                    None => None,
                                    Some(after) => Some((op, s, t, db, di, after)),
                                }
                            } else {
                                match spec_scan_string(b, k2) {
                                    None => None,
                                    Some((name, after)) => Some(
                                        (op, s, Some(name), db, di, after),
                                    ),
                                }
                            }
                        } else if key == seq![100u8] {
                            if b[k2] == 116 || b[k2] == 102 {
                                match spec_skip_value(b, k2) {
                                    None => None,
                                    Some(after) => Some(
                                        (op, s, t, Some(b[k2] == 116), di, after),
                                    ),
                                }
                            } else if b[k2] == 123 {
                                match spec_scan_d_object(b, k2 + 1) {
                                    None => None,
                                    Some((interval, after)) => Some(
                                        (op, s, t, db, interval, after),
                                    ),
                                }
                            } else {
                                match spec_skip_value(b, k2) {
                                    None => None,
                                    Some(after) => Some((op, s, t, db, di, after)),
                                }
                            }
                        } else {
                            match spec_skip_value(b, k2) {
                                None => None,
                                Some(after) => Some((op, s, t, db, di, after)),
                            }
                        };
                        match stepped {
                            None => None,
                            Some((op2, s2, t2, db2, di2, after_val)) => {
                                let k3 = spec_skip_ws(b, after_val);
                                if k3 >= b.len() {
                                    None
                                } else if b[k3] == 125 {
                                    Some((op2, s2, t2, db2, di2, k3 + 1))
                                } else if b[k3] != 44 {
                                    None
                                } else {
                                    let j2 = spec_skip_ws(b, k3 + 1);
                                    if j2 <= j {
                                        None
                                    } else {
                                        spec_scan_fields_rec(b, j2, op2, s2, t2, db2, di2)
                                    }
                                }
                            },
                        }
                    }
                }
            },
        }
    }
}

#[via_fn]
proof fn spec_scan_fields_rec_dec(
    b: Seq<u8>,
    j: int,
    op: Option<u64>,
    s: Option<u64>,
    t: Option<Seq<u8>>,
    db: Option<bool>,
    di: Option<u64>,
) {
    if 0 <= j && j < b.len() {
        lemma_spec_scan_string_bounds(b, j);
        match spec_scan_string(b, j) {
            Some((key, after_key)) => {
                lemma_spec_skip_ws_bounds(b, after_key);
                let k1 = spec_skip_ws(b, after_key);
                if k1 < b.len() && b[k1] == 58 {
                    lemma_spec_skip_ws_bounds(b, k1 + 1);
                    let k2 = spec_skip_ws(b, k1 + 1);
                    if k2 < b.len() {
                        lemma_spec_scan_u64_rec_bounds(b, k2, 0, false);
                        lemma_spec_skip_value_rec_bounds(b, k2, 0);
                        lemma_spec_scan_string_bounds(b, k2);
                        lemma_spec_scan_d_object_bounds(b, k2 + 1);
                        let stepped: Option<
                            (Option<u64>, Option<u64>, Option<Seq<u8>>, Option<bool>, Option<
                                u64,
                            >, int),
                        > = if key == seq![111u8, 112u8] {
                            match spec_scan_u64(b, k2) {
                                None => None,
                                Some((v, after)) => Some((Some(v), s, t, db, di, after)),
                            }
                        } else if key == seq![115u8] {
                            if b[k2] == 110 {
                                match spec_skip_value(b, k2) {
                                    None => None,
                                    Some(after) => Some((op, s, t, db, di, after)),
                                }
                            } else {
                                match spec_scan_u64(b, k2) {
                                    None => None,
                                    Some((v, after)) => Some((op, Some(v), t, db, di, after)),
                                }
                            }
                        } else if key == seq![116u8] {
                            if b[k2] == 110 {
                                match spec_skip_value(b, k2) {
                                    None => None,
                                    Some(after) => Some((op, s, t, db, di, after)),
                                }
                            } else {
                                match spec_scan_string(b, k2) {
                                    None => None,
                                    Some((name, after)) => Some(
                                        (op, s, Some(name), db, di, after),
                                    ),
                                }
                            }
                        } else if key == seq![100u8] {
                            if b[k2] == 116 || b[k2] == 102 {
                                match spec_skip_value(b, k2) {
                                    None => None,
                                    Some(after) => Some(
                                        (op, s, t, Some(b[k2] == 116), di, after),
                                    ),
                                }
                            } else if b[k2] == 123 {
                                match spec_scan_d_object(b, k2 + 1) {
                                    None => None,
                                    Some((interval, after)) => Some(
                                        (op, s, t, db, interval, after),
                                    ),
                                }
                            } else {
                                match spec_skip_value(b, k2) {
                                    None => None,
                                    Some(after) => Some((op, s, t, db, di, after)),
                                }
                            }
                        } else {
                            match spec_skip_value(b, k2) {
                                None => None,
                                Some(after) => Some((op, s, t, db, di, after)),
                            }
                        };
                        match stepped {
                            Some((op2, s2, t2, db2, di2, after_val)) => {
                                lemma_spec_skip_ws_bounds(b, after_val);
                                let k3 = spec_skip_ws(b, after_val);
                                if k3 < b.len() && b[k3] != 125 && b[k3] == 44 {
                                    lemma_spec_skip_ws_bounds(b, k3 + 1);
                                }
                            },
                            None => {},
                        }
                    }
                }
            },
            None => {},
        }
    }
}

/// The trailing part of the envelope scan: after the object, only
/// whitespace may remain, and the opcode must have been present.
pub open spec fn spec_finish_fields(
    b: Seq<u8>,
    state: Option<(Option<u64>, Option<u64>, Option<Seq<u8>>, Option<bool>, Option<u64>, int)>,
) -> Option<(u64, Option<u64>, Option<Seq<u8>>, Option<bool>, Option<u64>)> {
    match state {
        None => None,
        Some((op, s, t, db, di, jend)) => {
            if spec_skip_ws(b, jend) != b.len() {
                None
            } else {
                match op {
                    Some(opv) => Some((opv, s, t, db, di)),
                    None => None,
                }
            }
        },
    }
}

/// The fields one inbound envelope denotes: a single JSON object whose
/// recognised fields are `op` (an integer), `s` (an integer or null), `t`
/// (a string or null) and `d` (a boolean, an object whose
/// `heartbeat_interval` is extracted, or any other value); unknown fields
/// are skipped, later occurrences override earlier ones, and the whole text
/// must be consumed.
pub open spec fn spec_scan_event_fields(b: Seq<u8>) -> Option<
    (u64, Option<u64>, Option<Seq<u8>>, Option<bool>, Option<u64>),
> {
    let j0 = spec_skip_ws(b, 0);
    if j0 >= b.len() || b[j0] != 123 {
        None
    } else {
        let j1 = spec_skip_ws(b, j0 + 1);
        let state = if j1 < b.len() && b[j1] == 125 {
            Some(
                (None::<u64>, None::<u64>, None::<Seq<u8>>, None::<bool>, None::<u64>, j1 + 1),
            )
        } else {
            spec_scan_fields_rec(b, j1, None, None, None, None, None)
        };
        spec_finish_fields(b, state)
    }
}

/// Scans one inbound envelope: a single JSON object whose recognised fields
/// are `op` (an integer), `s` (an integer or null), `t` (a string or null)
/// and `d` (a boolean, an object, or any other value, which is skipped).
/// Unknown fields are skipped.  The whole text must be consumed.
fn scan_event_fields(b: &[u8]) -> (r: Option<EventFields>)
    ensures
        (match r {
            Some(f) => spec_scan_event_fields(b@) == Some(
                (
                    f.op,
                    f.seq_num,
                    (match f.event_name {
                        Some(n) => Some(n@),
                        None => None,
                    }),
                    f.d_bool,
                    f.d_heartbeat_interval,
                ),
            ),
            None => spec_scan_event_fields(b@) is None,
        }),
{
    let mut op: Option<u64> = None;
    let mut seq_num: Option<u64> = None;
    let mut event_name: Option<Vec<u8>> = None;
    let mut d_bool: Option<bool> = None;
    let mut d_interval: Option<u64> = None;
    let mut j = skip_ws(b, 0);
    if j >= b.len() || b[j] != 123 {
        return None;
    }
    j = skip_ws(b, j + 1);
    let mut done = false;
    if j < b.len() && b[j] == 125 {
        j = j + 1;
        done = true;
    }
    while !done
        invariant
            j <= b@.len(),
            !done ==> spec_scan_event_fields(b@) == spec_finish_fields(
                b@,
                spec_scan_fields_rec(
                    b@,
                    j as int,
                    op,
                    seq_num,
                    (match event_name {
                        Some(n) => Some(n@),
                        None => None,
                    }),
                    d_bool,
                    d_interval,
                ),
            ),
            done ==> spec_scan_event_fields(b@) == spec_finish_fields(
                b@,
                Some(
                    (
                        op,
                        seq_num,
                        (match event_name {
                            Some(n) => Some(n@),
                            None => None,
                        }),
                        d_bool,
                        d_interval,
                        j as int,
                    ),
                ),
            ),
        decreases b@.len() - j + 1,
    {
        let j0 = j;
        if j >= b.len() {
            return None;
        }
        let (key, after_key) = match scan_string(b, j) {
            Some(p) => p,
            None => {
                return None;
            },
        };
        let mut k = skip_ws(b, after_key);
        if k >= b.len() || b[k] != 58 {
            return None;
        }
        k = skip_ws(b, k + 1);
        if k >= b.len() {
            return None;
        }
        let is_op = key_is_two(key.as_slice(), 111, 112);
        let is_s = key_is_byte(key.as_slice(), 115);
        let is_t = key_is_byte(key.as_slice(), 116);
        let is_d = key_is_byte(key.as_slice(), 100);
        if is_op {
            match scan_u64(b, k) {
                Some((v, after)) => {
                    op = Some(v);
                    k = after;
                },
                None => {
                    return None;
                },
            }
        } else if is_s {
            if b[k] == 110 {
                match skip_value(b, k) {
                    Some(after) => {
                        k = after;
                    },
                    None => {
                        return None;
                    },
                }
            } else {
                match scan_u64(b, k) {
                    Some((v, after)) => {
                        seq_num = Some(v);
                        k = after;
                    },
                    None => {
                        return None;
                    },
                }
            }
        } else if is_t {
            if b[k] == 110 {
                match skip_value(b, k) {
                    Some(after) => {
                        k = after;
                    },
                    None => {
                        return None;
                    },
                }
            } else {
                match scan_string(b, k) {
                    Some((name, after)) => {
                        event_name = Some(name);
                        k = after;
                    },
                    None => {
                        return None;
                    },
                }
            }
        } else if is_d {
            if b[k] == 116 || b[k] == 102 {
                match skip_value(b, k) {
                    Some(after) => {
                        d_bool = Some(b[k] == 116);
                        k = after;
                    },
                    None => {
                        return None;
                    },
                }
            } else if b[k] == 123 {
                match scan_d_object(b, k + 1) {
                    Some((interval, after)) => {
                        d_interval = interval;
                        k = after;
                    },
                    None => {
                        return None;
                    },
                }
            } else {
                match skip_value(b, k) {
                    Some(after) => {
                        k = after;
                    },
                    None => {
                        return None;
                    },
                }
            }
        } else {
            match skip_value(b, k) {
                Some(after) => {
                    k = after;
                },
                None => {
                    return None;
                },
            }
        }
        k = skip_ws(b, k);
        if k >= b.len() {
            return None;
        }
        if b[k] == 125 {
            j = k + 1;
            done = true;
        } else if b[k] == 44 {
            j = skip_ws(b, k + 1);
            if j <= j0 {
                return None;
            }
        } else {
            return None;
        }
    }
    let end = skip_ws(b, j);
    if end != b.len() {
        return None;
    }
    match op {
        Some(op_value) => Some(
            EventFields { op: op_value, seq_num, event_name, d_bool, d_heartbeat_interval: d_interval },
        ),
        None => None,
    }
}

/// Whether a key spells the two given bytes.
fn key_is_two(key: &[u8], a: u8, c: u8) -> (r: bool)
    ensures
        r == (key@ == seq![a, c]),
{
    if key.len() == 2 && key[0] == a && key[1] == c {
        assert(key@ =~= seq![a, c]);
        true
    } else {
        proof {
            if key@ == seq![a, c] {
                assert(key@.len() == 2 && key@[0] == a && key@[1] == c);
            }
        }
        false
    }
}

/// Whether a key is the single given byte.
fn key_is_byte(key: &[u8], c: u8) -> (r: bool)
    ensures
        r == (key@ == seq![c]),
{
    if key.len() == 1 && key[0] == c {
        assert(key@ =~= seq![c]);
        true
    } else {
        proof {
            if key@ == seq![c] {
                assert(key@.len() == 1 && key@[0] == c);
            }
        }
        false
    }
}

/// The event a payload's bytes denote: the envelope fields the scan reads,
/// turned into the typed event, or nothing when the text does not scan as an
/// envelope or its fields fit no event.
pub open spec fn event_denoted(bytes: Seq<u8>) -> Option<GatewayEventV> {
    match spec_scan_event_fields(bytes) {
        Some((op, s, t, db, di)) => event_of_fields(op, s, t, db, di, bytes),
        None => None,
    }
}

/// Parses one inbound envelope into a typed event: exactly the event the
/// bytes denote, or the [`Error::Json`] carrying the offending text when
/// they denote none.
pub fn parse_event(bytes: &[u8]) -> (r: Result<GatewayEvent, Error>)
    ensures
        (match r {
            Ok(ev) => event_denoted(bytes@) == Some(ev@),
            Err(e) => e matches Error::Json(t) && t@ == utf8_lossy_of(bytes@) && event_denoted(
                bytes@,
            ) is None,
        }),
{
    match scan_event_fields(bytes) {
        Some(fields) => event_from_fields(fields, bytes),
        None => Err(Error::Json(bytes_to_string_lossy(bytes))),
    }
}

/// Routes one received frame (or the absence of one) through the codec.
///
/// - No frame (the bounded wait elapsed, or the stream yielded nothing):
///   no event, no error, and the decompression state untouched — the
///   connection stays usable.
/// - A close frame is promoted to [`Error::Closed`], deliberately distinct
///   from the silent no-event outcome.
/// - A text frame is parsed as an envelope.
/// - A binary frame feeds the codec; an incomplete logical message is "no
///   event".
/// - Any other frame kind is "no event".
pub fn process_frame(compression: &mut Compression, frame: Option<WsFrame>) -> (r: Result<
    Option<GatewayEvent>,
    Error,
>)
    requires
        old(compression).inv(),
    ensures
        final(compression).inv(),
        final(compression).mode() == old(compression).mode(),
        frame is None ==> (r matches Ok(ev) && ev is None
            && *final(compression) == *old(compression)),
        frame matches Some(WsFrame::Other) ==> (r matches Ok(ev) && ev is None
            && *final(compression) == *old(compression)),
        frame matches Some(WsFrame::Close(ci)) ==> (r matches Err(e)
            && e matches Error::Closed(x) && x == ci),
        frame matches Some(WsFrame::Text(t)) ==> *final(compression) == *old(compression) && (
        match r {
            Ok(ev) => ev matches Some(e) && event_denoted(t@) == Some(e@),
            Err(e) => e matches Error::Json(txt) && txt@ == utf8_lossy_of(t@) && event_denoted(
                t@,
            ) is None,
        }),
        frame matches Some(WsFrame::Binary(bb)) ==> (match r {
            Ok(ev) => ev matches Some(e) ==> exists|m: Seq<u8>|
                #[trigger] event_denoted(m) == Some(e@),
            Err(e) => e is DecompressZlib || e is DecompressZstd || e is DecompressZstdCorrupted
                || (e matches Error::Json(txt) && exists|m: Seq<u8>|
                #[trigger] event_denoted(m) is None && txt@ == utf8_lossy_of(m)),
        }),
        frame matches Some(WsFrame::Binary(bb)) ==> (old(compression).mode() is Identity ==> (
        match r {
            Ok(None) => false,
            Ok(Some(e)) => zlib_inflate_of(bb@) matches Some(m) && event_denoted(m) == Some(e@),
            Err(e) => (e is DecompressZlib && zlib_inflate_of(bb@) is None) || (
            e matches Error::Json(txt) && zlib_inflate_of(bb@) matches Some(m) && event_denoted(
                m,
            ) is None && txt@ == utf8_lossy_of(m)),
        })),
        frame matches Some(WsFrame::Binary(bb)) ==> (old(compression).mode() is Zlib ==> (
        match r {
            Ok(None) => !ends_with_zlib_marker(old(compression).zlib_buffer() + bb@)
                && final(compression).zlib_buffer() == old(compression).zlib_buffer() + bb@
                && final(compression).zlib_context() == old(compression).zlib_context()
                && final(compression).zlib_scratch() == old(compression).zlib_scratch(),
            Ok(Some(_)) => ends_with_zlib_marker(old(compression).zlib_buffer() + bb@)
                && final(compression).zlib_buffer() == Seq::<u8>::empty(),
            Err(e) => (e is DecompressZlib && ends_with_zlib_marker(
                old(compression).zlib_buffer() + bb@,
            ) && final(compression).zlib_buffer() == old(compression).zlib_buffer() + bb@) || (
            e is Json && ends_with_zlib_marker(old(compression).zlib_buffer() + bb@)
                && final(compression).zlib_buffer() == Seq::<u8>::empty()),
        })),
        frame matches Some(WsFrame::Binary(bb)) ==> (old(compression).mode() is Zstd ==> (
        match r {
            Ok(None) => final(compression).zstd_pending() >= old(compression).zstd_pending(),
            Ok(Some(_)) => final(compression).zstd_pending() == 0,
            Err(e) => ((e is DecompressZstd || e is DecompressZstdCorrupted)
                && final(compression).zstd_pending() == old(compression).zstd_pending()) || (
            e is Json && final(compression).zstd_pending() == 0),
        })),
{
    match frame {
        None => Ok(None),
        Some(WsFrame::Other) => Ok(None),
        Some(WsFrame::Close(ci)) => Err(Error::Closed(ci)),
        Some(WsFrame::Text(payload)) => {
            match parse_event(payload.as_slice()) {
                Ok(ev) => Ok(Some(ev)),
                Err(e) => Err(e),
            }
        },
        Some(WsFrame::Binary(payload)) => {
            let decompressed = match compression.inflate(payload.as_slice()) {
                Ok(Some(d)) => d,
                Ok(None) => {
                    return Ok(None);
                },
                Err(e) => {
                    return Err(e);
                },
            };
            match parse_event(decompressed.as_slice()) {
                Ok(ev) => {
                    proof {
                        assert(event_denoted(decompressed@) == Some(ev@));
                    }
                    Ok(Some(ev))
                },
                Err(e) => {
                    proof {
                        assert(e matches Error::Json(txt) ==> event_denoted(decompressed@)
                            is None && txt@ == utf8_lossy_of(decompressed@));
                    }
                    Err(e)
                },
            }
        },
    }
}

} // verus!
