//! A small JSON document model with a verified serializer.
//!
//! The message codec builds outbound `{op, d}` envelopes as [`Json`] values
//! and turns them into wire bytes here.  Strings are carried as their UTF-8
//! bytes, unescaped; escaping happens during serialization.  The only numbers
//! the protocol writes are unsigned integers.

use vstd::prelude::*;

verus! {

broadcast use
    vstd::std_specs::vec::axiom_vec_index_decreases,
    vstd::std_specs::vec::axiom_vec_decreases_to_view,
    vstd::seq::axiom_seq_index_decreases,
    vstd::seq::axiom_seq_subrange_decreases;

/// A JSON value as the message codec manipulates it.
pub enum Json {
    Null,
    Bool(bool),
    UInt(u64),
    Str(Vec<u8>),
    Arr(Vec<Json>),
    Obj(Vec<(Vec<u8>, Json)>),
}

/// The mathematical shape of a [`Json`] value: the same tree over `Seq<u8>`.
#[verifier::ext_equal]
pub enum JsonV {
    Null,
    Bool(bool),
    UInt(u64),
    Str(Seq<u8>),
    Arr(Seq<JsonV>),
    Obj(Seq<(Seq<u8>, JsonV)>),
}

/// The shapes of the elements of a sequence of JSON values.
pub open spec fn view_elems(v: Seq<Json>) -> Seq<JsonV>
    decreases v, 0int, 0int,
    via view_elems_dec
{
    if v.len() == 0 {
        Seq::empty()
    } else {
        seq![jview(v[0])] + view_elems(v.drop_first())
    }
}

#[via_fn]
proof fn view_elems_dec(v: Seq<Json>) {
    if v.len() > 0 {
        assert(decreases_to!(v => v[0]));
    }
}

/// The shapes of the fields of a JSON object.
pub open spec fn view_fields(v: Seq<(Vec<u8>, Json)>) -> Seq<(Seq<u8>, JsonV)>
    decreases v, 0int, 0int,
    via view_fields_dec
{
    if v.len() == 0 {
        Seq::empty()
    } else {
        seq![(v[0].0@, jview(v[0].1))] + view_fields(v.drop_first())
    }
}

#[via_fn]
proof fn view_fields_dec(v: Seq<(Vec<u8>, Json)>) {
    if v.len() > 0 {
        assert(decreases_to!(v => v[0]));
        assert(decreases_to!(v[0] => v[0].1));
    }
}

/// The shape of a single JSON value.
pub open spec fn jview(j: Json) -> JsonV
    decreases j, 1int, 0int,
    via jview_dec
{
    match j {
        Json::Null => JsonV::Null,
        Json::Bool(b) => JsonV::Bool(b),
        Json::UInt(n) => JsonV::UInt(n),
        Json::Str(s) => JsonV::Str(s@),
        Json::Arr(v) => JsonV::Arr(view_elems(v@)),
        Json::Obj(v) => JsonV::Obj(view_fields(v@)),
    }
}

#[via_fn]
proof fn jview_dec(j: Json) {
    match j {
        Json::Arr(v) => {
            assert(decreases_to!(v => v@));
        },
        Json::Obj(v) => {
            assert(decreases_to!(v => v@));
        },
        _ => {},
    }
}

impl View for Json {
    type V = JsonV;

    open spec fn view(&self) -> JsonV {
        jview(*self)
    }
}

/// The length of `view_elems` matches, element by element.
pub proof fn lemma_view_elems(v: Seq<Json>)
    ensures
        view_elems(v).len() == v.len(),
        forall|k: int| 0 <= k < v.len() ==> #[trigger] view_elems(v)[k] == v[k]@,
    decreases v.len(),
{
    if v.len() > 0 {
        lemma_view_elems(v.drop_first());
        assert forall|k: int| 0 <= k < v.len() implies #[trigger] view_elems(v)[k] == v[k]@ by {
            if k > 0 {
                assert(view_elems(v)[k] == view_elems(v.drop_first())[k - 1]);
                assert(v.drop_first()[k - 1] == v[k]);
            }
        }
    }
}

/// The length of `view_fields` matches, field by field.
pub proof fn lemma_view_fields(v: Seq<(Vec<u8>, Json)>)
    ensures
        view_fields(v).len() == v.len(),
        forall|k: int| 0 <= k < v.len()
            ==> #[trigger] view_fields(v)[k] == (v[k].0@, v[k].1@),
    decreases v.len(),
{
    if v.len() > 0 {
        lemma_view_fields(v.drop_first());
        assert forall|k: int| 0 <= k < v.len() implies #[trigger] view_fields(v)[k] == (
            v[k].0@,
            v[k].1@,
        ) by {
            if k > 0 {
                assert(view_fields(v)[k] == view_fields(v.drop_first())[k - 1]);
                assert(v.drop_first()[k - 1] == v[k]);
            }
        }
    }
}

/// The decimal digits of `n`, most significant first.
pub open spec fn dec_digits(n: nat) -> Seq<u8>
    decreases n,
{
    if n < 10 {
        seq![(48 + n) as u8]
    } else {
        dec_digits(n / 10) + seq![(48 + n % 10) as u8]
    }
}

/// The lower-case hex digit for a value below 16.
pub open spec fn hex_digit(n: u8) -> u8 {
    if n < 10 {
        (48 + n) as u8
    } else {
        (87 + n) as u8
    }
}

/// How one byte of string content appears inside a JSON string literal:
/// quote and backslash are escaped, control bytes become `\u00XX`, everything
/// else (UTF-8 continuation bytes included) passes through.
pub open spec fn escape_byte(b: u8) -> Seq<u8> {
    if b == 34 {
        seq![92u8, 34u8]
    } else if b == 92 {
        seq![92u8, 92u8]
    } else if b < 32 {
        seq![92u8, 117u8, 48u8, 48u8, hex_digit(b / 16), hex_digit((b % 16) as u8)]
    } else {
        seq![b]
    }
}

/// The escaped form of the first `i` bytes of `s`.
pub open spec fn escape_prefix(s: Seq<u8>, i: int) -> Seq<u8>
    decreases i,
{
    if i <= 0 {
        Seq::empty()
    } else {
        escape_prefix(s, i - 1) + escape_byte(s[i - 1])
    }
}

/// The escaped form of a whole string content.
pub open spec fn escape_bytes(s: Seq<u8>) -> Seq<u8> {
    escape_prefix(s, s.len() as int)
}

/// Serialization of a JSON value to wire bytes: no whitespace, object fields
/// in their stored order.
pub open spec fn ser_json(j: JsonV) -> Seq<u8>
    decreases j, 1int, 0int,
{
    match j {
        JsonV::Null => seq![110u8, 117u8, 108u8, 108u8],
        JsonV::Bool(b) => if b {
            seq![116u8, 114u8, 117u8, 101u8]
        } else {
            seq![102u8, 97u8, 108u8, 115u8, 101u8]
        },
        JsonV::UInt(n) => dec_digits(n as nat),
        JsonV::Str(s) => seq![34u8] + escape_bytes(s) + seq![34u8],
        JsonV::Arr(v) => seq![91u8] + ser_items(v, v.len() as int) + seq![93u8],
        JsonV::Obj(v) => seq![123u8] + ser_fields(v, v.len() as int) + seq![125u8],
    }
}

/// Serialization of the first `i` array items, comma separated.
pub open spec fn ser_items(v: Seq<JsonV>, i: int) -> Seq<u8>
    decreases v, 0int, i,
    via ser_items_dec
{
    if i <= 0 || i > v.len() {
        Seq::empty()
    } else if i == 1 {
        ser_json(v[0])
    } else {
        ser_items(v, i - 1) + seq![44u8] + ser_json(v[i - 1])
    }
}

#[via_fn]
proof fn ser_items_dec(v: Seq<JsonV>, i: int) {
    if 0 < i && i <= v.len() {
        assert(decreases_to!(v => v[0]));
        assert(decreases_to!(v => v[i - 1]));
    }
}

/// Serialization of the first `i` object fields, comma separated, each field
/// being a quoted escaped key, a colon and the value.
pub open spec fn ser_fields(v: Seq<(Seq<u8>, JsonV)>, i: int) -> Seq<u8>
    decreases v, 0int, i,
    via ser_fields_dec
{
    if i <= 0 || i > v.len() {
        Seq::empty()
    } else if i == 1 {
        ser_field(v[0])
    } else {
        ser_fields(v, i - 1) + seq![44u8] + ser_field(v[i - 1])
    }
}

#[via_fn]
proof fn ser_fields_dec(v: Seq<(Seq<u8>, JsonV)>, i: int) {
    if 0 < i && i <= v.len() {
        assert(decreases_to!(v => v[0]));
        assert(decreases_to!(v => v[i - 1]));
    }
}

/// Serialization of a single object field.
pub open spec fn ser_field(f: (Seq<u8>, JsonV)) -> Seq<u8>
    decreases f, 1int, 0int,
{
    seq![34u8] + escape_bytes(f.0) + seq![34u8, 58u8] + ser_json(f.1)
}

/// Appends the decimal digits of `n` to `out`.
pub fn write_u64(n: u64, out: &mut Vec<u8>)
    ensures
        final(out)@ == old(out)@ + dec_digits(n as nat),
    decreases n,
{
    if n < 10 {
        out.push(48 + n as u8);
        assert(out@ =~= old(out)@ + dec_digits(n as nat));
    } else {
        write_u64(n / 10, out);
        out.push(48 + (n % 10) as u8);
        assert(out@ =~= old(out)@ + dec_digits(n as nat));
    }
}

/// The lower-case hex digit for a value below 16.
fn hex_digit_of(n: u8) -> (r: u8)
    requires
        n < 16,
    ensures
        r == hex_digit(n),
{
    if n < 10 {
        48 + n
    } else {
        87 + n
    }
}

/// Appends the escaped form of one string-content byte to `out`.
fn write_escaped_byte(b: u8, out: &mut Vec<u8>)
    ensures
        final(out)@ == old(out)@ + escape_byte(b),
{
    if b == 34 {
        out.push(92);
        out.push(34);
    } else if b == 92 {
        out.push(92);
        out.push(92);
    } else if b < 32 {
        out.push(92);
        out.push(117);
        out.push(48);
        out.push(48);
        out.push(hex_digit_of(b / 16));
        out.push(hex_digit_of(b % 16));
    } else {
        out.push(b);
    }
    assert(out@ =~= old(out)@ + escape_byte(b));
}

/// Appends a quoted, escaped JSON string literal holding `s` to `out`.
pub fn write_json_string(s: &[u8], out: &mut Vec<u8>)
    ensures
        final(out)@ == old(out)@ + seq![34u8] + escape_bytes(s@) + seq![34u8],
{
    out.push(34);
    let ghost start = out@;
    let mut i: usize = 0;
    while i < s.len()
        invariant
            i <= s@.len(),
            out@ == start + escape_prefix(s@, i as int),
        decreases s@.len() - i,
    {
        write_escaped_byte(s[i], out);
        i = i + 1;
        assert(out@ =~= start + escape_prefix(s@, i as int));
    }
    out.push(34);
    assert(out@ =~= old(out)@ + seq![34u8] + escape_bytes(s@) + seq![34u8]);
}

/// Appends the serialization of `j` to `out`.
pub fn write_json(j: &Json, out: &mut Vec<u8>)
    ensures
        final(out)@ == old(out)@ + ser_json(j@),
    decreases j, 0int, 0int,
{
    match j {
        Json::Null => {
            out.push(110);
            out.push(117);
            out.push(108);
            out.push(108);
            assert(out@ =~= old(out)@ + ser_json(j@));
        },
        Json::Bool(b) => {
            if *b {
                out.push(116);
                out.push(114);
                out.push(117);
                out.push(101);
            } else {
                out.push(102);
                out.push(97);
                out.push(108);
                out.push(115);
                out.push(101);
            }
            assert(out@ =~= old(out)@ + ser_json(j@));
        },
        Json::UInt(n) => {
            write_u64(*n, out);
        },
        Json::Str(s) => {
            write_json_string(s.as_slice(), out);
            assert(out@ =~= old(out)@ + ser_json(j@));
        },
        Json::Arr(v) => {
            proof {
                lemma_view_elems(v@);
            }
            let ghost vv = view_elems(v@);
            out.push(91);
            let ghost start = out@;
            let mut i: usize = 0;
            while i < v.len()
                invariant
                    *j == Json::Arr(*v),
                    i <= v@.len(),
                    vv == view_elems(v@),
                    vv.len() == v@.len(),
                    forall|k: int| 0 <= k < v@.len() ==> vv[k] == #[trigger] v@[k]@,
                    out@ == start + ser_items(vv, i as int),
                decreases v@.len() - i,
            {
                if i > 0 {
                    out.push(44);
                }
                proof {
                    assert(*j == Json::Arr(*v));
                    assert(decreases_to!(*j => (*j)->Arr_0));
                    assert(decreases_to!(*j => *v));
                    assert(decreases_to!(*v => v@[i as int]));
                    assert(decreases_to!(*j => v@[i as int]));
                }
                write_json(&v[i], out);
                i = i + 1;
                assert(out@ =~= start + ser_items(vv, i as int));
            }
            out.push(93);
            assert(out@ =~= old(out)@ + ser_json(j@));
        },
        Json::Obj(v) => {
            proof {
                lemma_view_fields(v@);
            }
            let ghost vv = view_fields(v@);
            out.push(123);
            let ghost start = out@;
            let mut i: usize = 0;
            while i < v.len()
                invariant
                    *j == Json::Obj(*v),
                    i <= v@.len(),
                    vv == view_fields(v@),
                    vv.len() == v@.len(),
                    forall|k: int| 0 <= k < v@.len()
                        ==> vv[k] == (#[trigger] v@[k].0@, v@[k].1@),
                    out@ == start + ser_fields(vv, i as int),
                decreases v@.len() - i,
            {
                if i > 0 {
                    out.push(44);
                }
                let field = &v[i];
                write_json_string(field.0.as_slice(), out);
                out.push(58);
                proof {
                    assert(*j == Json::Obj(*v));
                    assert(decreases_to!(*j => (*j)->Obj_0));
                    assert(decreases_to!(*j => *v));
                    assert(decreases_to!(*v => v@[i as int]));
                    assert(decreases_to!(v@[i as int] => v@[i as int].1));
                    assert(decreases_to!(*j => v@[i as int].1));
                }
                write_json(&field.1, out);
                i = i + 1;
                proof {
                    if i == 1 {
                        assert(ser_fields(vv, 1) == ser_field(vv[0]));
                    } else {
                        assert(ser_fields(vv, i as int) == ser_fields(vv, i - 1) + seq![44u8]
                            + ser_field(vv[i - 1]));
                    }
                    assert(out@ =~= start + ser_fields(vv, i as int));
                }
            }
            out.push(125);
            assert(out@ =~= old(out)@ + ser_json(j@));
        },
    }
}

/// The wire bytes of a JSON value.
pub fn json_to_bytes(j: &Json) -> (r: Vec<u8>)
    ensures
        r@ == ser_json(j@),
{
    let mut out: Vec<u8> = Vec::new();
    write_json(j, &mut out);
    out
}

} // verus!
