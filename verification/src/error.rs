//! The single error channel for every gateway operation.

use vstd::prelude::*;
use crate::json::dec_digits;
use crate::json::write_u64;

verus! {

/// The payload of an explicit websocket close frame: a status code and a
/// human-readable reason.
#[derive(Clone, Debug)]
pub struct CloseInfo {
    pub code: u16,
    pub reason: String,
}

/// An error that occurred while attempting to deal with the gateway.
#[derive(Clone, Debug)]
pub enum Error {
    /// There was an error building a URL.
    BuildingUrl,
    /// The connection closed, potentially uncleanly; carries the close frame
    /// if one was received.  Deliberately distinct from the silent "no event"
    /// outcome of a read timeout.
    Closed(Option<CloseInfo>),
    /// Expected a Hello during a handshake.
    ExpectedHello,
    /// When there was an error sending a heartbeat.
    HeartbeatFailed,
    /// When invalid authentication (a bad token) was sent in the IDENTIFY.
    InvalidAuthentication,
    /// Expected a Ready or an InvalidateSession.
    InvalidHandshake,
    /// When invalid sharding data was sent in the IDENTIFY.
    InvalidShardData,
    /// When no authentication was sent in the IDENTIFY.
    NoAuthentication,
    /// When a session id was expected (for resuming), but was not present.
    NoSessionId,
    /// When a shard would have too many guilds assigned to it.
    OverloadedShard,
    /// Failed to reconnect after a number of attempts.
    ReconnectFailure,
    /// When undocumented gateway intents are provided.
    InvalidGatewayIntents,
    /// When disallowed gateway intents are provided.
    DisallowedGatewayIntents,
    /// A decompression error from the zlib backend.
    DecompressZlib,
    /// A decompression error from the zstd backend, carrying the backend's
    /// failure code.
    DecompressZstd(usize),
    /// When zstd decompression fails because the decoder made no progress on
    /// input that is still unread: corrupted data rather than a decode error
    /// reported by the backend itself.
    DecompressZstdCorrupted,
    /// When decompressed gateway data is not valid UTF-8.
    DecompressUtf8,
    /// When inbound text could not be parsed as a gateway event envelope;
    /// carries the offending text for diagnostics.
    Json(String),
}

/// What one lossy UTF-8 decoding of a byte sequence reads as: invalid
/// sequences become replacement characters.  The result depends on the bytes
/// alone.
pub uninterp spec fn utf8_lossy_of(bytes: Seq<u8>) -> Seq<char>;

/// Relies on `String::from_utf8_lossy`: decodes bytes to text, replacing
/// invalid sequences.  ASCII bytes are valid UTF-8 and decode to themselves,
/// one character per byte, so on all-ASCII input the result is exactly the
/// bytes read as characters.
#[verifier::external_body]
pub(crate) fn bytes_to_string_lossy(bytes: &[u8]) -> (r: String)
    ensures
        r@ == utf8_lossy_of(bytes@),
        (forall|k: int| 0 <= k < bytes@.len() ==> bytes@[k] < 128) ==> r@ == bytes@.map_values(
            |b: u8| b as char,
        ),
{
    String::from_utf8_lossy(bytes).into_owned()
}

/// The description of each error kind, as bytes: a fixed text per variant,
/// with the zstd decode failure carrying its code in decimal.
pub open spec fn description_bytes(e: &Error) -> Seq<u8> {
    match e {
        Error::BuildingUrl => seq![69u8, 114u8, 114u8, 111u8, 114u8, 32u8, 98u8, 117u8, 105u8, 108u8, 100u8, 105u8, 110u8, 103u8, 32u8, 117u8, 114u8, 108u8],
        Error::Closed(_) => seq![67u8, 111u8, 110u8, 110u8, 101u8, 99u8, 116u8, 105u8, 111u8, 110u8, 32u8, 99u8, 108u8, 111u8, 115u8, 101u8, 100u8],
        Error::ExpectedHello => seq![69u8, 120u8, 112u8, 101u8, 99u8, 116u8, 101u8, 100u8, 32u8, 97u8, 32u8, 72u8, 101u8, 108u8, 108u8, 111u8],
        Error::HeartbeatFailed => seq![70u8, 97u8, 105u8, 108u8, 101u8, 100u8, 32u8, 115u8, 101u8, 110u8, 100u8, 105u8, 110u8, 103u8, 32u8, 97u8, 32u8, 104u8, 101u8, 97u8, 114u8, 116u8, 98u8, 101u8, 97u8, 116u8],
        Error::InvalidAuthentication => seq![83u8, 101u8, 110u8, 116u8, 32u8, 105u8, 110u8, 118u8, 97u8, 108u8, 105u8, 100u8, 32u8, 97u8, 117u8, 116u8, 104u8, 101u8, 110u8, 116u8, 105u8, 99u8, 97u8, 116u8, 105u8, 111u8, 110u8],
        Error::InvalidHandshake => seq![69u8, 120u8, 112u8, 101u8, 99u8, 116u8, 101u8, 100u8, 32u8, 97u8, 32u8, 118u8, 97u8, 108u8, 105u8, 100u8, 32u8, 72u8, 97u8, 110u8, 100u8, 115u8, 104u8, 97u8, 107u8, 101u8],
        Error::InvalidShardData => seq![83u8, 101u8, 110u8, 116u8, 32u8, 105u8, 110u8, 118u8, 97u8, 108u8, 105u8, 100u8, 32u8, 115u8, 104u8, 97u8, 114u8, 100u8, 32u8, 100u8, 97u8, 116u8, 97u8],
        Error::NoAuthentication => seq![83u8, 101u8, 110u8, 116u8, 32u8, 110u8, 111u8, 32u8, 97u8, 117u8, 116u8, 104u8, 101u8, 110u8, 116u8, 105u8, 99u8, 97u8, 116u8, 105u8, 111u8, 110u8],
        Error::NoSessionId => seq![78u8, 111u8, 32u8, 83u8, 101u8, 115u8, 115u8, 105u8, 111u8, 110u8, 32u8, 73u8, 100u8, 32u8, 112u8, 114u8, 101u8, 115u8, 101u8, 110u8, 116u8, 32u8, 119u8, 104u8, 101u8, 110u8, 32u8, 114u8, 101u8, 113u8, 117u8, 105u8, 114u8, 101u8, 100u8],
        Error::OverloadedShard => seq![83u8, 104u8, 97u8, 114u8, 100u8, 32u8, 104u8, 97u8, 115u8, 32u8, 116u8, 111u8, 111u8, 32u8, 109u8, 97u8, 110u8, 121u8, 32u8, 103u8, 117u8, 105u8, 108u8, 100u8, 115u8],
        Error::ReconnectFailure => seq![70u8, 97u8, 105u8, 108u8, 101u8, 100u8, 32u8, 116u8, 111u8, 32u8, 82u8, 101u8, 99u8, 111u8, 110u8, 110u8, 101u8, 99u8, 116u8],
        Error::InvalidGatewayIntents => seq![73u8, 110u8, 118u8, 97u8, 108u8, 105u8, 100u8, 32u8, 103u8, 97u8, 116u8, 101u8, 119u8, 97u8, 121u8, 32u8, 105u8, 110u8, 116u8, 101u8, 110u8, 116u8, 115u8, 32u8, 119u8, 101u8, 114u8, 101u8, 32u8, 112u8, 114u8, 111u8, 118u8, 105u8, 100u8, 101u8, 100u8],
        Error::DisallowedGatewayIntents => seq![68u8, 105u8, 115u8, 97u8, 108u8, 108u8, 111u8, 119u8, 101u8, 100u8, 32u8, 103u8, 97u8, 116u8, 101u8, 119u8, 97u8, 121u8, 32u8, 105u8, 110u8, 116u8, 101u8, 110u8, 116u8, 115u8, 32u8, 119u8, 101u8, 114u8, 101u8, 32u8, 112u8, 114u8, 111u8, 118u8, 105u8, 100u8, 101u8, 100u8],
        Error::DecompressZlib => seq![90u8, 108u8, 105u8, 98u8, 32u8, 100u8, 101u8, 99u8, 111u8, 109u8, 112u8, 114u8, 101u8, 115u8, 115u8, 105u8, 111u8, 110u8, 32u8, 101u8, 114u8, 114u8, 111u8, 114u8],
        Error::DecompressZstd(code) => seq![90u8, 115u8, 116u8, 100u8, 32u8, 100u8, 101u8, 99u8, 111u8, 109u8, 112u8, 114u8, 101u8, 115u8, 115u8, 105u8, 111u8, 110u8, 32u8, 101u8, 114u8, 114u8, 111u8, 114u8, 58u8, 32u8] + dec_digits(*code as nat),
        Error::DecompressZstdCorrupted => seq![90u8, 115u8, 116u8, 100u8, 32u8, 100u8, 101u8, 99u8, 111u8, 109u8, 112u8, 114u8, 101u8, 115u8, 115u8, 105u8, 111u8, 110u8, 32u8, 101u8, 114u8, 114u8, 111u8, 114u8, 58u8, 32u8, 99u8, 111u8, 114u8, 114u8, 117u8, 112u8, 116u8, 101u8, 100u8, 32u8, 100u8, 97u8, 116u8, 97u8],
        Error::DecompressUtf8 => seq![68u8, 101u8, 99u8, 111u8, 109u8, 112u8, 114u8, 101u8, 115u8, 115u8, 101u8, 100u8, 32u8, 100u8, 97u8, 116u8, 97u8, 32u8, 105u8, 115u8, 32u8, 110u8, 111u8, 116u8, 32u8, 118u8, 97u8, 108u8, 105u8, 100u8, 32u8, 85u8, 84u8, 70u8, 45u8, 56u8],
        Error::Json(_) => seq![77u8, 97u8, 108u8, 102u8, 111u8, 114u8, 109u8, 101u8, 100u8, 32u8, 103u8, 97u8, 116u8, 101u8, 119u8, 97u8, 121u8, 32u8, 101u8, 118u8, 101u8, 110u8, 116u8, 32u8, 101u8, 110u8, 118u8, 101u8, 108u8, 111u8, 112u8, 101u8],
    }
}

/// The description of each error kind, as text.
pub open spec fn description_text(e: &Error) -> Seq<char> {
    description_bytes(e).map_values(|b: u8| b as char)
}

/// Every description byte is ASCII.
proof fn lemma_description_bytes_ascii(e: &Error)
    ensures
        forall|k: int| 0 <= k < description_bytes(e).len() ==> #[trigger] description_bytes(e)[k]
            < 128,
{
    match e {
        Error::DecompressZstd(code) => {
            lemma_dec_digits_ascii(*code as nat);
        },
        _ => {},
    }
}

/// Decimal digits are the ASCII bytes 48 through 57.
proof fn lemma_dec_digits_ascii(n: nat)
    ensures
        forall|k: int| 0 <= k < dec_digits(n).len() ==> 48 <= #[trigger] dec_digits(n)[k] <= 57,
    decreases n,
{
    if n >= 10 {
        lemma_dec_digits_ascii(n / 10);
        assert forall|k: int| 0 <= k < dec_digits(n).len() implies 48 <= #[trigger] dec_digits(
            n,
        )[k] <= 57 by {
            if k < dec_digits(n / 10).len() {
                assert(dec_digits(n)[k] == dec_digits(n / 10)[k]);
            } else {
                assert(dec_digits(n)[k] == (48 + n % 10) as u8);
            }
        }
    }
}

impl Error {
    /// A short description of the error kind, in place of a `Display` impl:
    /// the fixed text per variant given by [`description_text`].
    #[verifier::rlimit(100)]
    pub fn description(&self) -> (r: String)
        ensures
            r@ == description_text(self),
    {
        let mut v: Vec<u8> = Vec::new();
        match self {
            Error::BuildingUrl => {
                v.push(69);
                v.push(114);
                v.push(114);
                v.push(111);
                v.push(114);
                v.push(32);
                v.push(98);
                v.push(117);
                v.push(105);
                v.push(108);
                v.push(100);
                v.push(105);
                v.push(110);
                v.push(103);
                v.push(32);
                v.push(117);
                v.push(114);
                v.push(108);
            },
            Error::Closed(_) => {
                v.push(67);
                v.push(111);
                v.push(110);
                v.push(110);
                v.push(101);
                v.push(99);
                v.push(116);
                v.push(105);
                v.push(111);
                v.push(110);
                v.push(32);
                v.push(99);
                v.push(108);
                v.push(111);
                v.push(115);
                v.push(101);
                v.push(100);
            },
            Error::ExpectedHello => {
                v.push(69);
                v.push(120);
                v.push(112);
                v.push(101);
                v.push(99);
                v.push(116);
                v.push(101);
                v.push(100);
                v.push(32);
                v.push(97);
                v.push(32);
                v.push(72);
                v.push(101);
                v.push(108);
                v.push(108);
                v.push(111);
            },
            Error::HeartbeatFailed => {
                v.push(70);
                v.push(97);
                v.push(105);
                v.push(108);
                v.push(101);
                v.push(100);
                v.push(32);
                v.push(115);
                v.push(101);
                v.push(110);
                v.push(100);
                v.push(105);
                v.push(110);
                v.push(103);
                v.push(32);
                v.push(97);
                v.push(32);
                v.push(104);
                v.push(101);
                v.push(97);
                v.push(114);
                v.push(116);
                v.push(98);
                v.push(101);
                v.push(97);
                v.push(116);
            },
            Error::InvalidAuthentication => {
                v.push(83);
                v.push(101);
                v.push(110);
                v.push(116);
                v.push(32);
                v.push(105);
                v.push(110);
                v.push(118);
                v.push(97);
                v.push(108);
                v.push(105);
                v.push(100);
                v.push(32);
                v.push(97);
                v.push(117);
                v.push(116);
                v.push(104);
                v.push(101);
                v.push(110);
                v.push(116);
                v.push(105);
                v.push(99);
                v.push(97);
                v.push(116);
                v.push(105);
                v.push(111);
                v.push(110);
            },
            Error::InvalidHandshake => {
                v.push(69);
                v.push(120);
                v.push(112);
                v.push(101);
                v.push(99);
                v.push(116);
                v.push(101);
                v.push(100);
                v.push(32);
                v.push(97);
                v.push(32);
                v.push(118);
                v.push(97);
                v.push(108);
                v.push(105);
                v.push(100);
                v.push(32);
                v.push(72);
                v.push(97);
                v.push(110);
                v.push(100);
                v.push(115);
                v.push(104);
                v.push(97);
                v.push(107);
                v.push(101);
            },
            Error::InvalidShardData => {
                v.push(83);
                v.push(101);
                v.push(110);
                v.push(116);
                v.push(32);
                v.push(105);
                v.push(110);
                v.push(118);
                v.push(97);
                v.push(108);
                v.push(105);
                v.push(100);
                v.push(32);
                v.push(115);
                v.push(104);
                v.push(97);
                v.push(114);
                v.push(100);
                v.push(32);
                v.push(100);
                v.push(97);
                v.push(116);
                v.push(97);
            },
            Error::NoAuthentication => {
                v.push(83);
                v.push(101);
                v.push(110);
                v.push(116);
                v.push(32);
                v.push(110);
                v.push(111);
                v.push(32);
                v.push(97);
                v.push(117);
                v.push(116);
                v.push(104);
                v.push(101);
                v.push(110);
                v.push(116);
                v.push(105);
                v.push(99);
                v.push(97);
                v.push(116);
                v.push(105);
                v.push(111);
                v.push(110);
            },
            Error::NoSessionId => {
                v.push(78);
                v.push(111);
                v.push(32);
                v.push(83);
                v.push(101);
                v.push(115);
                v.push(115);
                v.push(105);
                v.push(111);
                v.push(110);
                v.push(32);
                v.push(73);
                v.push(100);
                v.push(32);
                v.push(112);
                v.push(114);
                v.push(101);
                v.push(115);
                v.push(101);
                v.push(110);
                v.push(116);
                v.push(32);
                v.push(119);
                v.push(104);
                v.push(101);
                v.push(110);
                v.push(32);
                v.push(114);
                v.push(101);
                v.push(113);
                v.push(117);
                v.push(105);
                v.push(114);
                v.push(101);
                v.push(100);
            },
            Error::OverloadedShard => {
                v.push(83);
                v.push(104);
                v.push(97);
                v.push(114);
                v.push(100);
                v.push(32);
                v.push(104);
                v.push(97);
                v.push(115);
                v.push(32);
                v.push(116);
                v.push(111);
                v.push(111);
                v.push(32);
                v.push(109);
                v.push(97);
                v.push(110);
                v.push(121);
                v.push(32);
                v.push(103);
                v.push(117);
                v.push(105);
                v.push(108);
                v.push(100);
                v.push(115);
            },
            Error::ReconnectFailure => {
                v.push(70);
                v.push(97);
                v.push(105);
                v.push(108);
                v.push(101);
                v.push(100);
                v.push(32);
                v.push(116);
                v.push(111);
                v.push(32);
                v.push(82);
                v.push(101);
                v.push(99);
                v.push(111);
                v.push(110);
                v.push(110);
                v.push(101);
                v.push(99);
                v.push(116);
            },
            Error::InvalidGatewayIntents => {
                v.push(73);
                v.push(110);
                v.push(118);
                v.push(97);
                v.push(108);
                v.push(105);
                v.push(100);
                v.push(32);
                v.push(103);
                v.push(97);
                v.push(116);
                v.push(101);
                v.push(119);
                v.push(97);
                v.push(121);
                v.push(32);
                v.push(105);
                v.push(110);
                v.push(116);
                v.push(101);
                v.push(110);
                v.push(116);
                v.push(115);
                v.push(32);
                v.push(119);
                v.push(101);
                v.push(114);
                v.push(101);
                v.push(32);
                v.push(112);
                v.push(114);
                v.push(111);
                v.push(118);
                v.push(105);
                v.push(100);
                v.push(101);
                v.push(100);
            },
            Error::DisallowedGatewayIntents => {
                v.push(68);
                v.push(105);
                v.push(115);
                v.push(97);
                v.push(108);
                v.push(108);
                v.push(111);
                v.push(119);
                v.push(101);
                v.push(100);
                v.push(32);
                v.push(103);
                v.push(97);
                v.push(116);
                v.push(101);
                v.push(119);
                v.push(97);
                v.push(121);
                v.push(32);
                v.push(105);
                v.push(110);
                v.push(116);
                v.push(101);
                v.push(110);
                v.push(116);
                v.push(115);
                v.push(32);
                v.push(119);
                v.push(101);
                v.push(114);
                v.push(101);
                v.push(32);
                v.push(112);
                v.push(114);
                v.push(111);
                v.push(118);
                v.push(105);
                v.push(100);
                v.push(101);
                v.push(100);
            },
            Error::DecompressZlib => {
                v.push(90);
                v.push(108);
                v.push(105);
                v.push(98);
                v.push(32);
                v.push(100);
                v.push(101);
                v.push(99);
                v.push(111);
                v.push(109);
                v.push(112);
                v.push(114);
                v.push(101);
                v.push(115);
                v.push(115);
                v.push(105);
                v.push(111);
                v.push(110);
                v.push(32);
                v.push(101);
                v.push(114);
                v.push(114);
                v.push(111);
                v.push(114);
            },
            Error::DecompressZstd(code) => {
                v.push(90);
                v.push(115);
                v.push(116);
                v.push(100);
                v.push(32);
                v.push(100);
                v.push(101);
                v.push(99);
                v.push(111);
                v.push(109);
                v.push(112);
                v.push(114);
                v.push(101);
                v.push(115);
                v.push(115);
                v.push(105);
                v.push(111);
                v.push(110);
                v.push(32);
                v.push(101);
                v.push(114);
                v.push(114);
                v.push(111);
                v.push(114);
                v.push(58);
                v.push(32);
                write_u64(*code as u64, &mut v);
            },
            Error::DecompressZstdCorrupted => {
                v.push(90);
                v.push(115);
                v.push(116);
                v.push(100);
                v.push(32);
                v.push(100);
                v.push(101);
                v.push(99);
                v.push(111);
                v.push(109);
                v.push(112);
                v.push(114);
                v.push(101);
                v.push(115);
                v.push(115);
                v.push(105);
                v.push(111);
                v.push(110);
                v.push(32);
                v.push(101);
                v.push(114);
                v.push(114);
                v.push(111);
                v.push(114);
                v.push(58);
                v.push(32);
                v.push(99);
                v.push(111);
                v.push(114);
                v.push(114);
                v.push(117);
                v.push(112);
                v.push(116);
                v.push(101);
                v.push(100);
                v.push(32);
                v.push(100);
                v.push(97);
                v.push(116);
                v.push(97);
            },
            Error::DecompressUtf8 => {
                v.push(68);
                v.push(101);
                v.push(99);
                v.push(111);
                v.push(109);
                v.push(112);
                v.push(114);
                v.push(101);
                v.push(115);
                v.push(115);
                v.push(101);
                v.push(100);
                v.push(32);
                v.push(100);
                v.push(97);
                v.push(116);
                v.push(97);
                v.push(32);
                v.push(105);
                v.push(115);
                v.push(32);
                v.push(110);
                v.push(111);
                v.push(116);
                v.push(32);
                v.push(118);
                v.push(97);
                v.push(108);
                v.push(105);
                v.push(100);
                v.push(32);
                v.push(85);
                v.push(84);
                v.push(70);
                v.push(45);
                v.push(56);
            },
            Error::Json(_) => {
                v.push(77);
                v.push(97);
                v.push(108);
                v.push(102);
                v.push(111);
                v.push(114);
                v.push(109);
                v.push(101);
                v.push(100);
                v.push(32);
                v.push(103);
                v.push(97);
                v.push(116);
                v.push(101);
                v.push(119);
                v.push(97);
                v.push(121);
                v.push(32);
                v.push(101);
                v.push(118);
                v.push(101);
                v.push(110);
                v.push(116);
                v.push(32);
                v.push(101);
                v.push(110);
                v.push(118);
                v.push(101);
                v.push(108);
                v.push(111);
                v.push(112);
                v.push(101);
            },
        }
        proof {
            assert(v@ =~= description_bytes(self));
            lemma_description_bytes_ascii(self);
        }
        bytes_to_string_lossy(v.as_slice())
    }
}

} // verus!
