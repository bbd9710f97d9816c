//! Secret storage and token validation.

use vstd::prelude::*;
use vstd::string::StringSliceAdditionalSpecFns;
use vstd::utf8::encode_utf8;
use vstd::utf8::encode_utf8_valid_utf8;
use vstd::utf8::is_char_boundary;
use vstd::utf8::is_char_boundary_iff_not_is_continuation_byte;
use vstd::utf8::is_char_boundary_start_end_of_seq;
use vstd::utf8::is_continuation_byte;
use vstd::utf8::is_leading_byte_width_1;
use vstd::utf8::length_of_first_scalar;
use vstd::utf8::pop_first_scalar;
use vstd::utf8::valid_first_scalar;
use vstd::utf8::valid_utf8;
use vstd::utf8::valid_utf8_concat;
use vstd::utf8::valid_utf8_split;

verus! {

/// A string holding a secret.  Deliberately without a `Debug` form, so the
/// content cannot end up in logs by accident.
#[derive(Clone)]
pub struct SecretString {
    inner: String,
}

impl View for SecretString {
    type V = Seq<char>;

    closed spec fn view(&self) -> Seq<char> {
        self.inner@
    }
}

impl SecretString {
    pub fn new(inner: String) -> (r: SecretString)
        ensures
            r@ == inner@,
    {
        SecretString { inner }
    }

    pub fn expose_secret(&self) -> (r: &str)
        ensures
            r@ == self@,
    {
        self.inner.as_str()
    }
}

/// Error that can be returned when reading or validating a token.
#[derive(Clone, Debug)]
pub enum TokenError {
    /// The environment variable holding the token could not be read; carries
    /// a description of the failure.
    Env(String),
    /// The token text is not in a plausible token format.
    InvalidToken,
}

/// A type for securely storing and passing around an authentication token.
#[derive(Clone)]
pub struct Token {
    secret: SecretString,
}

impl View for Token {
    type V = Seq<char>;

    closed spec fn view(&self) -> Seq<char> {
        self.secret@
    }
}

/// An ASCII whitespace byte, as trimming removes it.
pub open spec fn is_ws_byte(b: u8) -> bool {
    b == 32 || b == 9 || b == 10 || b == 13
}

/// `s` without leading whitespace.
pub open spec fn trim_start_bytes(s: Seq<u8>) -> Seq<u8>
    decreases s.len(),
{
    if s.len() > 0 && is_ws_byte(s[0]) {
        trim_start_bytes(s.drop_first())
    } else {
        s
    }
}

/// `s` without trailing whitespace.
pub open spec fn trim_end_bytes(s: Seq<u8>) -> Seq<u8>
    decreases s.len(),
{
    if s.len() > 0 && is_ws_byte(s[s.len() - 1]) {
        trim_end_bytes(s.drop_last())
    } else {
        s
    }
}

/// `"Bot "`
pub open spec fn bot_prefix() -> Seq<u8> {
    seq![66u8, 111u8, 116u8, 32u8]
}

/// `"Bearer "`
pub open spec fn bearer_prefix() -> Seq<u8> {
    seq![66u8, 101u8, 97u8, 114u8, 101u8, 114u8, 32u8]
}

/// `s` without every leading repetition of `Bot `.
pub open spec fn strip_bot(s: Seq<u8>) -> Seq<u8>
    decreases s.len(),
{
    if s.len() >= 4 && s.take(4) == bot_prefix() {
        strip_bot(s.skip(4))
    } else {
        s
    }
}

/// `s` without every leading repetition of `Bearer `.
pub open spec fn strip_bearer(s: Seq<u8>) -> Seq<u8>
    decreases s.len(),
{
    if s.len() >= 7 && s.take(7) == bearer_prefix() {
        strip_bearer(s.skip(7))
    } else {
        s
    }
}

/// The token text after trimming whitespace and stripping the accepted
/// prefixes: first every `Bot `, then every `Bearer `.
pub open spec fn token_normalize(s: Seq<u8>) -> Seq<u8> {
    strip_bearer(strip_bot(trim_end_bytes(trim_start_bytes(s))))
}

/// The number of `.` bytes in `s`.
pub open spec fn dot_count(s: Seq<u8>) -> int
    decreases s.len(),
{
    if s.len() == 0 {
        0
    } else {
        (if s[0] == 46 {
            1int
        } else {
            0int
        }) + dot_count(s.drop_first())
    }
}

/// A plausible token: three parts separated by the period character, each
/// non-empty.
pub open spec fn token_valid(t: Seq<u8>) -> bool {
    &&& t.len() > 0
    &&& t[0] != 46
    &&& t[t.len() - 1] != 46
    &&& dot_count(t) == 2
    &&& forall|i: int| 0 <= i < t.len() - 1 ==> ((#[trigger] t[i]) == 46 ==> t[i + 1] != 46)
}

/// The stored form of a validated token: capped at 128 bytes, cut back to a
/// UTF-8 character boundary.
pub open spec fn token_capped(t: Seq<u8>) -> Seq<u8> {
    if t.len() <= 128 {
        t
    } else {
        t.take(char_boundary_at_most(t, 128))
    }
}

/// The largest index at most `i` that starts a UTF-8 character (a byte whose
/// top two bits are not `10`), or 0.
pub open spec fn char_boundary_at_most(t: Seq<u8>, i: int) -> int
    decreases i,
{
    if i <= 0 {
        0
    } else if 0 <= i < t.len() && (t[i] < 128 || t[i] >= 192) {
        i
    } else {
        char_boundary_at_most(t, i - 1)
    }
}

/// Relies on `String::from_utf8`: succeeds exactly on valid UTF-8 and the
/// resulting string's bytes are the input bytes.
#[verifier::external_body]
fn string_from_utf8(bytes: Vec<u8>) -> (r: Result<String, ()>)
    ensures
        r is Ok <==> valid_utf8(bytes@),
        r matches Ok(s) ==> encode_utf8(s@) == bytes@,
{
    match String::from_utf8(bytes) {
        Ok(s) => Ok(s),
        Err(_) => Err(()),
    }
}

/// Whether the window `b[start..end]` begins with `prefix`.
fn has_prefix_at(b: &[u8], start: usize, end: usize, prefix: &[u8]) -> (r: bool)
    requires
        start <= end && end <= b@.len(),
    ensures
        r == (b@.subrange(start as int, end as int).len() >= prefix@.len() && b@.subrange(
            start as int,
            end as int,
        ).take(prefix@.len() as int) == prefix@),
{
    let ghost w = b@.subrange(start as int, end as int);
    if end - start < prefix.len() {
        return false;
    }
    let mut i: usize = 0;
    while i < prefix.len()
        invariant
            i <= prefix@.len(),
            start + prefix@.len() <= end && end <= b@.len(),
            w == b@.subrange(start as int, end as int),
            forall|k: int| 0 <= k < i ==> b@[start + k] == prefix@[k],
        decreases prefix@.len() - i,
    {
        if b[start + i] != prefix[i] {
            assert(w.take(prefix@.len() as int)[i as int] != prefix@[i as int]);
            return false;
        }
        i = i + 1;
    }
    assert(w.take(prefix@.len() as int) =~= prefix@);
    true
}

/// `"Bot "` as a vector.
fn bot_prefix_bytes() -> (r: Vec<u8>)
    ensures
        r@ == bot_prefix(),
{
    let mut v: Vec<u8> = Vec::new();
    v.push(66);
    v.push(111);
    v.push(116);
    v.push(32);
    assert(v@ =~= bot_prefix());
    v
}

/// `"Bearer "` as a vector.
fn bearer_prefix_bytes() -> (r: Vec<u8>)
    ensures
        r@ == bearer_prefix(),
{
    let mut v: Vec<u8> = Vec::new();
    v.push(66);
    v.push(101);
    v.push(97);
    v.push(114);
    v.push(101);
    v.push(114);
    v.push(32);
    assert(v@ =~= bearer_prefix());
    v
}


/// An all-ASCII byte sequence is valid UTF-8: each byte is a one-byte
/// scalar.
proof fn lemma_ascii_valid_utf8(bytes: Seq<u8>)
    requires
        forall|k: int| 0 <= k < bytes.len() ==> bytes[k] < 128,
    ensures
        valid_utf8(bytes),
    decreases bytes.len(),
{
    if bytes.len() > 0 {
        assert(is_leading_byte_width_1(bytes[0]));
        assert(valid_first_scalar(bytes));
        assert(length_of_first_scalar(bytes) == 1);
        assert(pop_first_scalar(bytes) =~= bytes.drop_first());
        lemma_ascii_valid_utf8(bytes.drop_first());
    }
}

/// A position preceded only by ASCII bytes is a character boundary.
proof fn lemma_boundary_after_ascii(bytes: Seq<u8>, i: int)
    requires
        valid_utf8(bytes),
        0 <= i <= bytes.len(),
        forall|k: int| 0 <= k < i ==> bytes[k] < 128,
    ensures
        is_char_boundary(bytes, i),
    decreases i,
{
    if i > 0 {
        assert(is_leading_byte_width_1(bytes[0]));
        assert(length_of_first_scalar(bytes) == 1);
        let rest = pop_first_scalar(bytes);
        assert(rest =~= bytes.drop_first());
        lemma_boundary_after_ascii(rest, i - 1);
    }
}

/// A window of a valid UTF-8 sequence is valid when it starts at a
/// character boundary and ends before a non-continuation byte (or at the
/// sequence's end).
proof fn lemma_valid_utf8_window(bytes: Seq<u8>, a: int, c: int)
    requires
        valid_utf8(bytes),
        0 <= a <= c <= bytes.len(),
        is_char_boundary(bytes, a),
        c < bytes.len() ==> !is_continuation_byte(bytes[c]),
    ensures
        valid_utf8(bytes.subrange(a, c)),
{
    valid_utf8_split(bytes, a);
    let suffix = bytes.subrange(a, bytes.len() as int);
    if c == bytes.len() {
        is_char_boundary_start_end_of_seq(suffix);
    } else {
        assert(suffix[c - a] == bytes[c]);
        is_char_boundary_iff_not_is_continuation_byte(suffix, c - a);
    }
    valid_utf8_split(suffix, c - a);
    assert(bytes.subrange(a, c) =~= suffix.subrange(0, c - a));
}

impl Token {
    pub fn expose_secret(&self) -> (r: &str)
        ensures
            r@ == self@,
    {
        self.secret.expose_secret()
    }

    /// Parses a token and validates that it is likely in a valid format.
    ///
    /// The text is trimmed, an optional `Bot ` or `Bearer ` prefix is
    /// stripped, and the rest must consist of three non-empty parts separated
    /// by the period character.  The stored secret is the normalized token,
    /// capped at 128 bytes on a character boundary, behind a `Bot ` prefix.
    #[verifier::rlimit(80)]
    pub fn parse(s: &str) -> (r: Result<Token, TokenError>)
        ensures
            r is Ok <==> token_valid(token_normalize(s.spec_bytes())),
            r matches Ok(t) ==> encode_utf8(t@) == bot_prefix() + token_capped(
                token_normalize(s.spec_bytes()),
            ),
            r matches Err(e) ==> e is InvalidToken,
    {
        let b = s.as_bytes();
        let ghost s0 = b@;
        let mut start: usize = 0;
        let mut end: usize = b.len();
        proof {
            assert(s0.skip(0) =~= s0);
        }
        while start < end && (b[start] == 32 || b[start] == 9 || b[start] == 10 || b[start] == 13)
            invariant
                s0 == b@,
                start <= end && end == b@.len(),
                forall|k: int| 0 <= k < start ==> s0[k] < 128,
                trim_start_bytes(s0) == trim_start_bytes(s0.skip(start as int)),
            decreases end - start,
        {
            proof {
                assert(start < end);
                assert(s0.skip(start as int).drop_first() =~= s0.skip(start as int + 1));
            }
            start = start + 1;
        }
        assert(trim_start_bytes(s0) =~= s0.skip(start as int));
        let ghost t1 = s0.skip(start as int);
        proof {
            assert(s0.subrange(start as int, end as int) =~= t1);
        }
        while end > start && (b[end - 1] == 32 || b[end - 1] == 9 || b[end - 1] == 10 || b[end - 1]
            == 13)
            invariant
                s0 == b@,
                start <= end && end <= b@.len(),
                t1 == s0.skip(start as int),
                forall|k: int| end <= k < b@.len() ==> is_ws_byte(s0[k]),
                trim_end_bytes(t1) == trim_end_bytes(s0.subrange(start as int, end as int)),
            decreases end,
        {
            proof {
                assert(s0.subrange(start as int, end as int).drop_last() =~= s0.subrange(
                    start as int,
                    end as int - 1,
                ));
            }
            end = end - 1;
        }
        assert(trim_end_bytes(t1) =~= s0.subrange(start as int, end as int));
        let ghost t2 = s0.subrange(start as int, end as int);
        let bot = bot_prefix_bytes();
        let bearer = bearer_prefix_bytes();
        loop
            invariant
                s0 == b@,
                bot@ == bot_prefix(),
                start <= end && end <= b@.len(),
                forall|k: int| 0 <= k < start ==> s0[k] < 128,
                strip_bot(t2) == strip_bot(s0.subrange(start as int, end as int)),
            ensures
                start <= end && end <= b@.len(),
                forall|k: int| 0 <= k < start ==> s0[k] < 128,
                strip_bot(t2) == s0.subrange(start as int, end as int),
            decreases end - start,
        {
            if !has_prefix_at(b, start, end, bot.as_slice()) {
                break;
            }
            proof {
                assert(s0.subrange(start as int, end as int).skip(4) =~= s0.subrange(
                    start as int + 4,
                    end as int,
                ));
                assert forall|k: int| 0 <= k < start + 4 implies s0[k] < 128 by {
                    if k >= start {
                        let w = s0.subrange(start as int, end as int).take(4);
                        assert(s0[k] == w[k - start as int]);
                    }
                }
            }
            start = start + 4;
        }
        let ghost t3 = s0.subrange(start as int, end as int);
        loop
            invariant
                s0 == b@,
                bearer@ == bearer_prefix(),
                start <= end && end <= b@.len(),
                forall|k: int| 0 <= k < start ==> s0[k] < 128,
                strip_bearer(t3) == strip_bearer(s0.subrange(start as int, end as int)),
            ensures
                start <= end && end <= b@.len(),
                forall|k: int| 0 <= k < start ==> s0[k] < 128,
                strip_bearer(t3) == s0.subrange(start as int, end as int),
            decreases end - start,
        {
            if !has_prefix_at(b, start, end, bearer.as_slice()) {
                break;
            }
            proof {
                assert(s0.subrange(start as int, end as int).skip(7) =~= s0.subrange(
                    start as int + 7,
                    end as int,
                ));
                assert forall|k: int| 0 <= k < start + 7 implies s0[k] < 128 by {
                    if k >= start {
                        let w = s0.subrange(start as int, end as int).take(7);
                        assert(s0[k] == w[k - start as int]);
                    }
                }
            }
            start = start + 7;
        }
        let ghost tok = s0.subrange(start as int, end as int);
        assert(tok == token_normalize(s.spec_bytes()));
        if start >= end {
            assert(!token_valid(tok));
            return Err(TokenError::InvalidToken);
        }
        if b[start] == 46 || b[end - 1] == 46 {
            assert(!token_valid(tok));
            return Err(TokenError::InvalidToken);
        }
        let mut dots: usize = 0;
        let mut i: usize = start;
        let mut adjacent = false;
        while i < end
            invariant
                s0 == b@,
                start <= i && i <= end && end <= b@.len(),
                start < end,
                tok == s0.subrange(start as int, end as int),
                dots == dot_count(tok.take(i as int - start as int)),
                dots <= i - start,
                adjacent == exists|k: int|
                    0 <= k < (i as int - start as int) - 1 && (#[trigger] tok[k]) == 46
                        && tok[k + 1] == 46,
            decreases end - i,
        {
            let ghost pos = i as int - start as int;
            proof {
                lemma_dot_count_take_step(tok, pos);
            }
            if b[i] == 46 {
                dots = dots + 1;
                if i > start && b[i - 1] == 46 {
                    proof {
                        assert(tok[pos - 1] == 46 && tok[pos] == 46);
                    }
                    adjacent = true;
                }
            }
            i = i + 1;
            proof {
                if adjacent {
                } else {
                    assert(forall|k: int|
                        0 <= k < pos ==> !((#[trigger] tok[k]) == 46 && tok[k + 1] == 46));
                }
            }
        }
        proof {
            assert(tok.take(end as int - start as int) =~= tok);
        }
        if dots != 2 || adjacent {
            proof {
                if dots != 2 {
                    assert(!token_valid(tok));
                } else {
                    let k = choose|k: int|
                        0 <= k < tok.len() - 1 && (#[trigger] tok[k]) == 46 && tok[k + 1] == 46;
                    assert(tok[k] == 46 && tok[k + 1] == 46);
                    assert(!token_valid(tok));
                }
            }
            return Err(TokenError::InvalidToken);
        }
        assert(token_valid(tok));
        let mut cap_end: usize = end;
        if end - start > 128 {
            cap_end = start + 128;
            while cap_end > start && b[cap_end] >= 128 && b[cap_end] < 192
                invariant
                    s0 == b@,
                    start <= cap_end && cap_end < end && end <= b@.len(),
                    tok == s0.subrange(start as int, end as int),
                    char_boundary_at_most(tok, 128) == char_boundary_at_most(
                        tok,
                        cap_end as int - start as int,
                    ),
                decreases cap_end,
            {
                cap_end = cap_end - 1;
            }
            proof {
                assert(char_boundary_at_most(tok, cap_end as int - start as int) == cap_end as int
                    - start as int);
                assert(cap_end == start || !is_continuation_byte(s0[cap_end as int]));
            }
        }
        let mut stored: Vec<u8> = Vec::new();
        stored.push(66);
        stored.push(111);
        stored.push(116);
        stored.push(32);
        assert(stored@ =~= bot_prefix() + s0.subrange(start as int, start as int));
        let mut k = start;
        while k < cap_end
            invariant
                s0 == b@,
                start <= k && k <= cap_end && cap_end <= end && end <= b@.len(),
                stored@ == bot_prefix() + s0.subrange(start as int, k as int),
            decreases cap_end - k,
        {
            stored.push(b[k]);
            assert(stored@ =~= bot_prefix() + s0.subrange(start as int, k as int + 1));
            k = k + 1;
        }
        proof {
            assert(s0.subrange(start as int, cap_end as int) =~= tok.take(
                cap_end as int - start as int,
            ));
            assert(stored@ =~= bot_prefix() + token_capped(tok));
            broadcast use encode_utf8_valid_utf8;
            assert(valid_utf8(s0));
            lemma_boundary_after_ascii(s0, start as int);
            if cap_end == start {
                assert(s0.subrange(start as int, cap_end as int) =~= Seq::<u8>::empty());
                assert(valid_utf8(s0.subrange(start as int, cap_end as int)));
            } else {
                lemma_valid_utf8_window(s0, start as int, cap_end as int);
            }
            lemma_ascii_valid_utf8(bot_prefix());
            valid_utf8_concat(bot_prefix(), s0.subrange(start as int, cap_end as int));
            assert(valid_utf8(stored@));
        }
        match string_from_utf8(stored) {
            Ok(inner) => Ok(Token { secret: SecretString::new(inner) }),
            Err(()) => {
                proof {
                    assert(false);
                }
                Err(TokenError::InvalidToken)
            },
        }
    }
}

/// Counting dots in a prefix grows by one exactly at a dot.
proof fn lemma_dot_count_take_step(t: Seq<u8>, i: int)
    requires
        0 <= i < t.len(),
    ensures
        dot_count(t.take(i + 1)) == dot_count(t.take(i)) + (if t[i] == 46 {
            1int
        } else {
            0int
        }),
{
    let a = t.take(i + 1);
    lemma_dot_count_last(a);
    assert(a.drop_last() =~= t.take(i));
}

/// Counting dots can be split at the last byte.
proof fn lemma_dot_count_last(s: Seq<u8>)
    requires
        s.len() > 0,
    ensures
        dot_count(s) == dot_count(s.drop_last()) + (if s[s.len() - 1] == 46 {
            1int
        } else {
            0int
        }),
    decreases s.len(),
{
    if s.len() == 1 {
        assert(s.drop_last() =~= Seq::<u8>::empty());
        assert(s.drop_first() =~= Seq::<u8>::empty());
    } else {
        lemma_dot_count_last(s.drop_first());
        assert(s.drop_first().drop_last() =~= s.drop_last().drop_first());
    }
}

} // verus!
