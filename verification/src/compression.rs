//! Transport-level payload decompression for inbound binary frames.
//!
//! One of three mutually exclusive schemes is negotiated when a connection is
//! opened and never changes afterwards: per-message one-shot inflation, a
//! persistent zlib inflate context spanning frames, or a persistent streaming
//! zstd decoder.  The streaming schemes must reassemble one logical message
//! from any number of physical frames without ever dropping buffered bytes,
//! and must report corrupted input as a typed error instead of panicking.

use vstd::prelude::*;
use vstd::slice::slice_subrange;
use vstd::slice::slice_to_vec;
use crate::error::Error;

verus! {

/// The transport compression scheme requested for a connection.  Selected
/// exactly once at construction time; immutable for the connection's
/// lifetime.
#[derive(Clone, Copy, Debug, PartialEq, Eq, Structural)]
pub enum TransportCompression {
    /// No transport-level stream compression: each binary frame is an
    /// independent complete zlib stream, inflated on its own, and the
    /// identify payload asks the server to deflate each payload individually.
    Identity,
    /// A shared zlib deflate stream spans frames.
    Zlib,
    /// A shared zstd frame stream spans frames.
    Zstd,
}

/// The fixed capacity of the output scratch buffer each streaming scheme
/// allocates once at connection setup.
pub const DECOMPRESSED_CAPACITY: usize = 64 * 1024;

/// What a complete, independent zlib stream inflates to: `Some` of the
/// decompressed bytes, or `None` when the input is not a well-formed stream.
/// The result depends on the input bytes alone.
pub uninterp spec fn zlib_inflate_of(s: Seq<u8>) -> Option<Seq<u8>>;

/// Relies on `flate2::read::ZlibDecoder`: a one-shot inflate of a single
/// complete zlib stream, read to its end.  The outcome is a function of the
/// input bytes alone, named by [`zlib_inflate_of`].
#[verifier::external_body]
fn zlib_decompress_all(bytes: &[u8]) -> (r: Result<Vec<u8>, ()>)
    ensures
        r is Ok <==> zlib_inflate_of(bytes@) is Some,
        r matches Ok(v) ==> Some(v@) == zlib_inflate_of(bytes@),
{
    let mut out: Vec<u8> = Vec::with_capacity(bytes.len().saturating_mul(3));
    let mut decoder = flate2::read::ZlibDecoder::new(bytes);
    match std::io::Read::read_to_end(&mut decoder, &mut out) {
        Ok(_) => Ok(out),
        Err(_) => Err(()),
    }
}

#[verifier::external_type_specification]
#[verifier::external_body]
pub struct ExZlibDecompress(flate2::Decompress);

/// Relies on `flate2::Decompress::new`: a fresh zlib inflate context
/// expecting a zlib header.
#[verifier::external_body]
fn zlib_context_new() -> flate2::Decompress {
    flate2::Decompress::new(true)
}

/// Relies on `flate2::Decompress::decompress_vec` with a synchronous flush:
/// decompressed bytes are appended into the vector's spare capacity, so the
/// vector keeps its existing contents as a prefix and only grows, whether the
/// call succeeds or fails.
#[verifier::external_body]
fn zlib_context_inflate(
    inflater: &mut flate2::Decompress,
    input: &[u8],
    output: &mut Vec<u8>,
) -> (r: Result<(), ()>)
    ensures
        old(output)@.len() <= final(output)@.len(),
        final(output)@.subrange(0, old(output)@.len() as int) == old(output)@,
{
    match inflater.decompress_vec(input, output, flate2::FlushDecompress::Sync) {
        Ok(_) => Ok(()),
        Err(_) => Err(()),
    }
}

#[verifier::external_type_specification]
#[verifier::external_body]
pub struct ExZstdDCtx<'a>(zstd_safe::DCtx<'a>);

/// Relies on `zstd_safe::DStream::create` (`DStream` is an alias of `DCtx`):
/// a fresh decompression context.
#[verifier::external_body]
fn zstd_context_new() -> zstd_safe::DStream<'static> {
    zstd_safe::DStream::create()
}

/// Relies on `zstd_safe::DStream::init` (`ZSTD_initDStream`): prepares the
/// context for streaming decompression; a failure carries the backend's
/// error code.
#[verifier::external_body]
fn zstd_context_init(inflater: &mut zstd_safe::DStream<'static>) -> (r: Result<(), usize>)
{
    match inflater.init() {
        Ok(_) => Ok(()),
        Err(code) => Err(code),
    }
}

/// Relies on `zstd_safe::DStream::decompress_stream` (`ZSTD_decompressStream`):
/// one decompression step reading from `input` at `in_pos` and writing into
/// `output` at `out_pos`.  Both cursor positions only move forward and stay
/// within their buffers, and the output vector's length is unchanged.  On
/// success the result carries the decoder's next-input hint (0 meaning the
/// current frame is complete) and the new cursor positions; on failure the
/// backend's error code.
#[verifier::external_body]
fn zstd_context_step(
    inflater: &mut zstd_safe::DStream<'static>,
    input: &[u8],
    in_pos: usize,
    output: &mut Vec<u8>,
    out_pos: usize,
) -> (r: Result<(usize, usize, usize), usize>)
    requires
        in_pos <= input@.len(),
        out_pos <= old(output)@.len(),
    ensures
        final(output)@.len() == old(output)@.len(),
        (match r {
            Ok((hint, new_in, new_out)) => in_pos <= new_in && new_in <= input@.len()
                && out_pos <= new_out && new_out <= final(output)@.len(),
            Err(_) => true,
        }),
{
    let mut in_buffer = zstd_safe::InBuffer { src: input, pos: in_pos };
    let mut out_buffer = zstd_safe::OutBuffer::around_pos(output.as_mut_slice(), out_pos);
    match inflater.decompress_stream(&mut out_buffer, &mut in_buffer) {
        Ok(hint) => {
            let new_out = out_buffer.pos();
            Ok((hint, in_buffer.pos, new_out))
        },
        Err(code) => Err(code),
    }
}

/// The decision the streaming-zstd loop takes after one decoder step, from
/// the step outcome, the input position before the step, and the input
/// length.
#[derive(Clone, Copy, Debug, PartialEq, Eq, Structural)]
pub enum ZstdStep {
    /// The decoder signalled zero further output needed: a message is
    /// complete.
    Complete,
    /// The consumed-input position advanced: keep decoding.
    Progressed,
    /// No progress, but all input was consumed: a normal "need more frames"
    /// condition.
    NeedMoreInput,
    /// No progress while unread input remains, though the decoder reported
    /// no error: the stream is corrupted.
    Corrupted,
    /// The decoder itself failed with this code.
    Failed(usize),
}

/// The classification of one decoder step: a zero hint completes the
/// message; otherwise an advanced input position continues the loop, an
/// exhausted input asks for more frames, and a stalled position on unread
/// input is corruption; a decoder failure carries its code.
pub open spec fn zstd_step_decision(
    step: Result<(usize, usize, usize), usize>,
    processed: int,
    input_len: int,
) -> ZstdStep {
    match step {
        Err(code) => ZstdStep::Failed(code),
        Ok((hint, new_in, _)) => if hint == 0 {
            ZstdStep::Complete
        } else if new_in > processed {
            ZstdStep::Progressed
        } else if new_in == input_len {
            ZstdStep::NeedMoreInput
        } else {
            ZstdStep::Corrupted
        },
    }
}

/// Fixes the complete / continue / need-more / corrupted / failed decision
/// for every possible decoder step outcome.
pub fn classify_zstd_step(
    step: &Result<(usize, usize, usize), usize>,
    processed: usize,
    input_len: usize,
) -> (r: ZstdStep)
    ensures
        r == zstd_step_decision(*step, processed as int, input_len as int),
{
    match step {
        Err(code) => ZstdStep::Failed(*code),
        Ok((hint, new_in, _)) => {
            if *hint == 0 {
                ZstdStep::Complete
            } else if *new_in > processed {
                ZstdStep::Progressed
            } else if *new_in == input_len {
                ZstdStep::NeedMoreInput
            } else {
                ZstdStep::Corrupted
            }
        },
    }
}

/// The 4-byte sync-flush marker `00 00 FF FF` closing a logical message in a
/// shared deflate stream.
pub open spec fn ends_with_zlib_marker(s: Seq<u8>) -> bool {
    s.len() >= 4 && s[s.len() - 4] == 0x00 && s[s.len() - 3] == 0x00 && s[s.len() - 2] == 0xFF
        && s[s.len() - 1] == 0xFF
}

/// The per-connection decompression state: exactly one variant is ever live,
/// chosen from the negotiated [`TransportCompression`].
pub enum Compression {
    /// Identity mode: no persistent state; each binary frame is inflated
    /// independently from scratch.
    Payload,
    /// Streaming zlib: a persistent inflate context, the accumulation buffer
    /// of compressed bytes received so far, and the reusable output scratch.
    Zlib { inflater: flate2::Decompress, compressed: Vec<u8>, decompressed: Vec<u8> },
    /// Streaming zstd: a persistent streaming decoder, the fixed-size output
    /// scratch, and the number of scratch bytes already produced for the
    /// message being reassembled.
    Zstd { inflater: zstd_safe::DStream<'static>, decompressed: Vec<u8>, out_pos: usize },
}

impl Compression {
    /// The scheme this state serves.
    pub open spec fn mode(&self) -> TransportCompression {
        match self {
            Compression::Payload => TransportCompression::Identity,
            Compression::Zlib { .. } => TransportCompression::Zlib,
            Compression::Zstd { .. } => TransportCompression::Zstd,
        }
    }

    /// The compressed bytes accumulated and not yet decompressed (streaming
    /// zlib only).
    pub open spec fn zlib_buffer(&self) -> Seq<u8> {
        match self {
            Compression::Zlib { compressed, .. } => compressed@,
            _ => Seq::<u8>::empty(),
        }
    }

    /// The number of output bytes buffered for the message being reassembled
    /// (streaming zstd only).
    pub open spec fn zstd_pending(&self) -> int {
        match self {
            Compression::Zstd { out_pos, .. } => *out_pos as int,
            _ => 0,
        }
    }

    /// The persistent zlib inflate context (streaming zlib only).
    pub open spec fn zlib_context(&self) -> flate2::Decompress {
        match self {
            Compression::Zlib { inflater, .. } => *inflater,
            _ => vstd::pervasive::arbitrary(),
        }
    }

    /// The reusable zlib output scratch (streaming zlib only).
    pub open spec fn zlib_scratch(&self) -> Seq<u8> {
        match self {
            Compression::Zlib { decompressed, .. } => decompressed@,
            _ => Seq::<u8>::empty(),
        }
    }

    /// Well-formedness: the zstd scratch has its fixed capacity and the
    /// produced position stays inside it.
    pub open spec fn inv(&self) -> bool {
        match self {
            Compression::Zstd { decompressed, out_pos, .. } => decompressed@.len()
                == DECOMPRESSED_CAPACITY && *out_pos <= decompressed@.len(),
            _ => true,
        }
    }

    /// Builds the decompression state for a negotiated scheme.  Each
    /// streaming scheme allocates its fixed output scratch once, here.  Only
    /// initialising the zstd decoder can fail.
    pub fn new(mode: TransportCompression) -> (r: Result<Compression, Error>)
        ensures
            (match r {
                Ok(c) => c.inv() && c.mode() == mode && c.zlib_buffer() == Seq::<u8>::empty()
                    && c.zstd_pending() == 0,
                Err(e) => mode is Zstd && e is DecompressZstd,
            }),
    {
        match mode {
            TransportCompression::Identity => Ok(Compression::Payload),
            TransportCompression::Zlib => Ok(
                Compression::Zlib {
                    inflater: zlib_context_new(),
                    compressed: Vec::new(),
                    decompressed: Vec::with_capacity(DECOMPRESSED_CAPACITY),
                },
            ),
            TransportCompression::Zstd => {
                let mut inflater = zstd_context_new();
                match zstd_context_init(&mut inflater) {
                    Ok(()) => {
                        let decompressed: Vec<u8> = vec![0u8; DECOMPRESSED_CAPACITY];
                        Ok(Compression::Zstd { inflater, decompressed, out_pos: 0 })
                    },
                    Err(code) => Err(Error::DecompressZstd(code)),
                }
            },
        }
    }

    /// Feeds the raw bytes of one binary frame to the active scheme.
    ///
    /// Returns `Ok(Some(message))` when a logical message is complete,
    /// `Ok(None)` when more frames are needed, and an error for corrupted or
    /// undecodable input.  In streaming zlib mode the accumulation buffer
    /// retains every unconsumed byte across calls and is cleared only after a
    /// complete message was extracted; in streaming zstd mode the output
    /// produced so far is retained across calls until the message completes.
    pub fn inflate(&mut self, slice: &[u8]) -> (r: Result<Option<Vec<u8>>, Error>)
        requires
            old(self).inv(),
        ensures
            final(self).inv(),
            final(self).mode() == old(self).mode(),
            old(self).mode() is Identity ==> (match r {
                Ok(Some(v)) => Some(v@) == zlib_inflate_of(slice@),
                Ok(None) => false,
                Err(e) => e is DecompressZlib && zlib_inflate_of(slice@) is None,
            }),
            old(self).mode() is Zlib ==> (match r {
                Ok(None) => !ends_with_zlib_marker(old(self).zlib_buffer() + slice@)
                    && final(self).zlib_buffer() == old(self).zlib_buffer() + slice@
                    && final(self).zlib_context() == old(self).zlib_context()
                    && final(self).zlib_scratch() == old(self).zlib_scratch(),
                Ok(Some(_)) => ends_with_zlib_marker(old(self).zlib_buffer() + slice@)
                    && final(self).zlib_buffer() == Seq::<u8>::empty(),
                Err(e) => e is DecompressZlib
                    && ends_with_zlib_marker(old(self).zlib_buffer() + slice@)
                    && final(self).zlib_buffer() == old(self).zlib_buffer() + slice@,
            }),
            old(self).mode() is Zstd ==> (match r {
                Ok(None) => final(self).zstd_pending() >= old(self).zstd_pending(),
                Ok(Some(v)) => final(self).zstd_pending() == 0
                    && v@.len() >= old(self).zstd_pending(),
                Err(e) => (e is DecompressZstd || e is DecompressZstdCorrupted)
                    && final(self).zstd_pending() == old(self).zstd_pending(),
            }),
    {
        match self {
            Compression::Payload => {
                match zlib_decompress_all(slice) {
                    Ok(v) => Ok(Some(v)),
                    Err(()) => Err(Error::DecompressZlib),
                }
            },
            Compression::Zlib { inflater, compressed, decompressed } => {
                compressed.extend_from_slice(slice);
                let len = compressed.len();
                if len < 4 {
                    return Ok(None);
                }
                let marker = *vstd::slice::slice_index_get(compressed.as_slice(), len - 4) == 0x00
                    && *vstd::slice::slice_index_get(compressed.as_slice(), len - 3) == 0x00
                    && *vstd::slice::slice_index_get(compressed.as_slice(), len - 2) == 0xFF
                    && *vstd::slice::slice_index_get(compressed.as_slice(), len - 1) == 0xFF;
                if !marker {
                    return Ok(None);
                }
                decompressed.clear();
                match zlib_context_inflate(inflater, compressed.as_slice(), decompressed) {
                    Ok(()) => {},
                    Err(()) => {
                        return Err(Error::DecompressZlib);
                    },
                }
                compressed.clear();
                let produced = slice_to_vec(decompressed.as_slice());
                Ok(Some(produced))
            },
            Compression::Zstd { inflater, decompressed, out_pos } => {
                let start: usize = *out_pos;
                match zstd_drain(inflater, slice, 0, decompressed, start) {
                    Err(e) => Err(e),
                    Ok((new_pos, false)) => {
                        *out_pos = new_pos;
                        Ok(None)
                    },
                    Ok((new_pos, true)) => {
                        let message = slice_to_vec(
                            slice_subrange(decompressed.as_slice(), 0, new_pos),
                        );
                        *out_pos = 0;
                        Ok(Some(message))
                    },
                }
            },
        }
    }
}

/// Runs streaming zstd decompression steps until the decoder reports a
/// complete frame, runs out of input, or signals corruption.
///
/// After every step the outcome is classified by [`classify_zstd_step`],
/// whose contract fixes the decision for each step value: a zero hint
/// completes the message, progress continues the loop, exhausted input is
/// the normal "need more frames" condition, and a stall on unread input is
/// the distinct corrupted-stream error.  Returns the final output position
/// and whether the message is complete.
fn zstd_drain(
    inflater: &mut zstd_safe::DStream<'static>,
    slice: &[u8],
    processed: usize,
    decompressed: &mut Vec<u8>,
    pos: usize,
) -> (r: Result<(usize, bool), Error>)
    requires
        processed <= slice@.len(),
        pos <= old(decompressed)@.len(),
    ensures
        final(decompressed)@.len() == old(decompressed)@.len(),
        (match r {
            Ok((new_pos, _)) => pos <= new_pos && new_pos <= final(decompressed)@.len(),
            Err(e) => e is DecompressZstd || e is DecompressZstdCorrupted,
        }),
    decreases slice@.len() - processed,
{
    let step = zstd_context_step(inflater, slice, processed, decompressed, pos);
    let decision = classify_zstd_step(&step, processed, slice.len());
    match decision {
        ZstdStep::Failed(code) => Err(Error::DecompressZstd(code)),
        ZstdStep::Corrupted => Err(Error::DecompressZstdCorrupted),
        _ => {
            let (new_in, new_out) = match step {
                Ok((_, new_in, new_out)) => (new_in, new_out),
                Err(_) => {
                    proof {
                        assert(false);
                    }
                    (0, 0)
                },
            };
            match decision {
                ZstdStep::Complete => Ok((new_out, true)),
                ZstdStep::Progressed => zstd_drain(inflater, slice, new_in, decompressed, new_out),
                _ => Ok((new_out, false)),
            }
        },
    }
}

} // verus!
