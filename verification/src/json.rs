//! A JSON document model held as plain values, with the lookups that the
//! media filters read.

use vstd::prelude::*;
use vstd::utf8::encode_utf8;

verus! {

/// A JSON value. Numbers keep their JSON text; objects keep their members in
/// order.
#[derive(Debug, PartialEq)]
pub enum JsonValue {
    Null,
    Bool(bool),
    Number(String),
    Str(String),
    Array(Vec<JsonValue>),
    Object(Vec<(String, JsonValue)>),
}

/// The value of the first member named `key`, if any.
pub open spec fn member_lookup(members: Seq<(String, JsonValue)>, key: Seq<char>) -> Option<JsonValue>
    decreases members.len(),
{
    if members.len() == 0 {
        None
    } else if members[0].0@ == key {
        Some(members[0].1)
    } else {
        member_lookup(members.drop_first(), key)
    }
}

/// `value[key]` for an object, `None` for anything else.
pub open spec fn value_lookup(value: JsonValue, key: Seq<char>) -> Option<JsonValue> {
    match value {
        JsonValue::Object(members) => member_lookup(members@, key),
        _ => None,
    }
}

/// Whether two string slices hold the same characters.
pub fn text_eq(a: &str, b: &str) -> (r: bool)
    ensures
        r == (a@ == b@),
{
    let ab = a.as_bytes();
    let bb = b.as_bytes();
    proof {
        vstd::utf8::encode_utf8_decode_utf8(a@);
        vstd::utf8::encode_utf8_decode_utf8(b@);
    }
    if ab.len() != bb.len() {
        return false;
    }
    let mut i: usize = 0;
    while i < ab.len()
        invariant
            ab@ == vstd::utf8::encode_utf8(a@),
            bb@ == vstd::utf8::encode_utf8(b@),
            ab@.len() == bb@.len(),
            0 <= i <= ab@.len(),
            forall|j: int| 0 <= j < i ==> ab@[j] == bb@[j],
        decreases ab@.len() - i,
    {
        if ab[i] != bb[i] {
            return false;
        }
        i = i + 1;
    }
    assert(ab@ =~= bb@);
    true
}

/// `b` holds the same JSON as `a`: the same values, member for member and
/// element for element.
pub open spec fn json_same(a: JsonValue, b: JsonValue) -> bool
    decreases a,
{
    match a {
        JsonValue::Array(vs) => {
            &&& b matches JsonValue::Array(ws)
            &&& ws@.len() == vs@.len()
            &&& forall|i: int| 0 <= i < vs@.len() ==> json_same(#[trigger] vs@[i], ws@[i])
        },
        JsonValue::Object(ms) => {
            &&& b matches JsonValue::Object(ns)
            &&& ns@.len() == ms@.len()
            &&& forall|i: int|
                0 <= i < ms@.len() ==> (#[trigger] ns@[i]).0 == ms@[i].0 && json_same(
                    ms@[i].1,
                    ns@[i].1,
                )
        },
        _ => b == a,
    }
}

/// Whether the byte sequence `s` begins with `prefix`.
pub open spec fn bytes_start_with(s: Seq<u8>, prefix: Seq<u8>) -> bool {
    prefix.len() <= s.len() && s.subrange(0, prefix.len() as int) == prefix
}

/// Whether the UTF-8 text of `s` begins with that of `prefix`.
pub open spec fn spec_starts_with(s: Seq<char>, prefix: Seq<char>) -> bool {
    bytes_start_with(vstd::utf8::encode_utf8(s), vstd::utf8::encode_utf8(prefix))
}

/// A byte sequence begins with `y` followed by `b` exactly when its first
/// byte is `y` and the rest begins with `b`.
proof fn lemma_bytes_start_with_cons(a: Seq<u8>, y: u8, b: Seq<u8>)
    requires
        a.len() > 0,
    ensures
        bytes_start_with(a, seq![y] + b) <==> (a[0] == y && bytes_start_with(
            a.drop_first(),
            b,
        )),
{
    let p = seq![y] + b;
    if bytes_start_with(a, p) {
        assert(a[0] == a.subrange(0, p.len() as int)[0]);
        assert(a.drop_first().subrange(0, b.len() as int) =~= a.subrange(0, p.len() as int).drop_first());
        assert(p.drop_first() =~= b);
    }
    if a[0] == y && bytes_start_with(a.drop_first(), b) {
        assert(a.subrange(0, p.len() as int) =~= p);
    }
}

/// The leading byte of the UTF-8 encoding of a character outside ASCII is
/// at least `0x80`.
proof fn lemma_non_ascii_leading_byte(s: Seq<char>)
    requires
        s.len() > 0,
        (s[0] as u32) >= 0x80,
    ensures
        encode_utf8(s).len() > 0,
        encode_utf8(s)[0] >= 0x80,
{
    let c = s[0] as u32;
    vstd::utf8::char_is_scalar(s[0]);
    assert(encode_utf8(s) == vstd::utf8::encode_scalar(c) + encode_utf8(s.drop_first()));
    assert(0x80 <= c <= 0x7FF ==> (0xC0u8 | ((c >> 6) & 0x1F) as u8) >= 0x80) by (bit_vector);
    assert(0x800 <= c <= 0xFFFF ==> (0xE0u8 | ((c >> 12) & 0x0F) as u8) >= 0x80) by (bit_vector);
    assert(0x10000 <= c <= 0x10FFFF ==> (0xF0u8 | ((c >> 18) & 0x7) as u8) >= 0x80)
        by (bit_vector);
}

/// For an ASCII prefix, beginning with it byte for byte is beginning with
/// it character for character.
pub proof fn lemma_ascii_prefix(s: Seq<char>, p: Seq<char>)
    requires
        vstd::utf8::is_ascii_chars(p),
    ensures
        spec_starts_with(s, p) <==> (p.len() <= s.len() && s.subrange(0, p.len() as int) == p),
    decreases p.len(),
{
    if p.len() == 0 {
        assert(encode_utf8(p) =~= Seq::<u8>::empty());
        assert(encode_utf8(s).subrange(0, 0) =~= Seq::<u8>::empty());
        assert(s.subrange(0, 0) =~= p);
    } else {
        let p0 = p[0];
        assert('\0' <= p[0] <= '\u{7f}');
        let pc = p0 as u32;
        assert(pc < 0x80);
        assert((pc & 0x7F) as u8 == pc as u8) by (bit_vector)
            requires
                pc < 0x80,
        ;
        assert(encode_utf8(p) == seq![pc as u8] + encode_utf8(p.drop_first()));
        let rest = p.drop_first();
        assert(vstd::utf8::is_ascii_chars(rest)) by {
            assert forall|i: int| 0 <= i < rest.len() implies '\0' <= #[trigger] rest[i]
                <= '\u{7f}' by {
                assert(rest[i] == p[i + 1]);
            }
        }
        if s.len() == 0 {
            assert(encode_utf8(s) =~= Seq::<u8>::empty());
        } else {
            let sc = s[0] as u32;
            lemma_bytes_start_with_cons(encode_utf8(s), pc as u8, encode_utf8(rest));
            lemma_ascii_prefix(s.drop_first(), rest);
            if sc < 0x80 {
                assert((sc & 0x7F) as u8 == sc as u8) by (bit_vector)
                    requires
                        sc < 0x80,
                ;
                assert(encode_utf8(s) == seq![sc as u8] + encode_utf8(s.drop_first()));
                assert(encode_utf8(s).drop_first() =~= encode_utf8(s.drop_first()));
                assert((sc as u8 == pc as u8) <==> (sc == pc)) by (bit_vector)
                    requires
                        sc < 0x80,
                        pc < 0x80,
                ;
                vstd::utf8::char_u32_cast(s[0], sc);
                vstd::utf8::char_u32_cast(p[0], pc);
                if p.len() <= s.len() && s.subrange(0, p.len() as int) == p {
                    assert(s[0] == s.subrange(0, p.len() as int)[0]);
                    assert(s.drop_first().subrange(0, rest.len() as int) =~= s.subrange(
                        0,
                        p.len() as int,
                    ).drop_first());
                }
                if sc == pc && rest.len() <= s.drop_first().len() && s.drop_first().subrange(
                    0,
                    rest.len() as int,
                ) == rest {
                    assert((sc as char) == (pc as char));
                    assert(s[0] == p[0]);
                    let t = s.subrange(0, p.len() as int);
                    assert forall|i: int| 0 <= i < p.len() implies #[trigger] t[i] == p[i] by {
                        if i > 0 {
                            assert(s.drop_first().subrange(0, rest.len() as int)[i - 1] == rest[i
                                - 1]);
                        }
                    }
                    assert(t =~= p);
                }
            } else {
                lemma_non_ascii_leading_byte(s);
                assert(s[0] != p[0]);
                if p.len() <= s.len() && s.subrange(0, p.len() as int) == p {
                    assert(s[0] == s.subrange(0, p.len() as int)[0]);
                }
            }
        }
    }
}

/// Whether `s` begins with `prefix`, compared byte for byte.
pub fn starts_with(s: &str, prefix: &str) -> (r: bool)
    ensures
        r == spec_starts_with(s@, prefix@),
{
    let sb = s.as_bytes();
    let pb = prefix.as_bytes();
    if pb.len() > sb.len() {
        return false;
    }
    let mut i: usize = 0;
    while i < pb.len()
        invariant
            sb@ == vstd::utf8::encode_utf8(s@),
            pb@ == vstd::utf8::encode_utf8(prefix@),
            pb@.len() <= sb@.len(),
            0 <= i <= pb@.len(),
            forall|j: int| 0 <= j < i ==> sb@[j] == pb@[j],
        decreases pb@.len() - i,
    {
        if sb[i] != pb[i] {
            assert(sb@.subrange(0, pb@.len() as int)[i as int] != pb@[i as int]);
            return false;
        }
        i = i + 1;
    }
    assert(sb@.subrange(0, pb@.len() as int) =~= pb@);
    true
}

/// Looks up the first member named `key`.
pub fn object_get<'a>(members: &'a Vec<(String, JsonValue)>, key: &str) -> (r: Option<&'a JsonValue>)
    ensures
        match r {
            Some(v) => member_lookup(members@, key@) == Some(*v),
            None => member_lookup(members@, key@) is None,
        },
{
    let mut i: usize = 0;
    assert(members@.skip(0) =~= members@);
    while i < members.len()
        invariant
            0 <= i <= members@.len(),
            member_lookup(members@, key@) == member_lookup(members@.skip(i as int), key@),
        decreases members@.len() - i,
    {
        assert(members@.skip(i as int).drop_first() =~= members@.skip(i + 1));
        if text_eq(members[i].0.as_str(), key) {
            return Some(&members[i].1);
        }
        i = i + 1;
    }
    None
}

/// `value[key]` for an object, `None` for anything else.
pub fn value_get<'a>(value: &'a JsonValue, key: &str) -> (r: Option<&'a JsonValue>)
    ensures
        match r {
            Some(v) => value_lookup(*value, key@) == Some(*v),
            None => value_lookup(*value, key@) is None,
        },
{
    match value {
        JsonValue::Object(members) => object_get(members, key),
        _ => None,
    }
}


/// The hexadecimal digit, lower case, of a value below 16.
pub open spec fn hex_digit(n: u8) -> u8 {
    if n < 10 { (48 + n) as u8 } else { (87 + n) as u8 }
}

/// How one byte of a string's UTF-8 encoding is written inside a JSON string:
/// quote, backslash and control bytes are escaped, every other byte is kept.
pub open spec fn escape_byte(b: u8) -> Seq<u8> {
    if b == 0x22 {
        seq![0x5cu8, 0x22u8]
    } else if b == 0x5c {
        seq![0x5cu8, 0x5cu8]
    } else if b == 0x08 {
        seq![0x5cu8, 0x62u8]
    } else if b == 0x0c {
        seq![0x5cu8, 0x66u8]
    } else if b == 0x0a {
        seq![0x5cu8, 0x6eu8]
    } else if b == 0x0d {
        seq![0x5cu8, 0x72u8]
    } else if b == 0x09 {
        seq![0x5cu8, 0x74u8]
    } else if b < 0x20 {
        seq![0x5cu8, 0x75u8, 0x30u8, 0x30u8, hex_digit(b / 16), hex_digit(b % 16)]
    } else {
        seq![b]
    }
}

/// The escaped form of a byte sequence.
pub open spec fn escape_bytes(s: Seq<u8>) -> Seq<u8>
    decreases s.len(),
{
    if s.len() == 0 {
        Seq::empty()
    } else {
        escape_bytes(s.drop_last()) + escape_byte(s.last())
    }
}

/// A JSON string literal holding `s`.
pub open spec fn string_json(s: Seq<char>) -> Seq<u8> {
    seq![0x22u8] + escape_bytes(vstd::utf8::encode_utf8(s)) + seq![0x22u8]
}

/// The compact JSON text of a value, as bytes.
pub open spec fn json_bytes(v: JsonValue) -> Seq<u8>
    decreases v, 0int,
{
    match v {
        JsonValue::Null => seq![0x6eu8, 0x75u8, 0x6cu8, 0x6cu8],
        JsonValue::Bool(b) => if b {
            seq![0x74u8, 0x72u8, 0x75u8, 0x65u8]
        } else {
            seq![0x66u8, 0x61u8, 0x6cu8, 0x73u8, 0x65u8]
        },
        JsonValue::Number(t) => vstd::utf8::encode_utf8(t@),
        JsonValue::Str(s) => string_json(s@),
        JsonValue::Array(vs) => {
            proof { vstd::std_specs::vec::axiom_vec_decreases_to_view(vs); }
            seq![0x5bu8] + array_items(vs@) + seq![0x5du8]
        },
        JsonValue::Object(ms) => {
            proof { vstd::std_specs::vec::axiom_vec_decreases_to_view(ms); }
            seq![0x7bu8] + object_items(ms@) + seq![0x7du8]
        },
    }
}

/// The elements of an array, separated by commas.
pub open spec fn array_items(s: Seq<JsonValue>) -> Seq<u8>
    decreases s, 1int,
{
    if s.len() == 0 {
        Seq::empty()
    } else if s.len() == 1 {
        json_bytes(s[0])
    } else {
        array_items(s.drop_last()) + seq![0x2cu8] + json_bytes(s.last())
    }
}

/// The members of an object, `"key":value`, separated by commas.
pub open spec fn object_items(s: Seq<(String, JsonValue)>) -> Seq<u8>
    decreases s, 1int,
{
    if s.len() == 0 {
        Seq::empty()
    } else if s.len() == 1 {
        member_json(s[0].0@) + json_bytes(s[0].1)
    } else {
        object_items(s.drop_last()) + seq![0x2cu8] + member_json(s.last().0@) + json_bytes(s.last().1)
    }
}

/// The key of an object member and the colon after it.
pub open spec fn member_json(key: Seq<char>) -> Seq<u8> {
    string_json(key) + seq![0x3au8]
}

/// The compact JSON text of an array of values.
pub open spec fn json_array_bytes(s: Seq<JsonValue>) -> Seq<u8> {
    seq![0x5bu8] + array_items(s) + seq![0x5du8]
}


fn hex_digit_exec(n: u8) -> (r: u8)
    requires
        n < 16,
    ensures
        r == hex_digit(n),
{
    if n < 10 { 48 + n } else { 87 + n }
}

/// Appends the escaped form of `b` to `out`.
fn push_escaped_byte(b: u8, out: &mut Vec<u8>)
    ensures
        final(out)@ == old(out)@ + escape_byte(b),
{
    if b == 0x22 || b == 0x5c {
        out.push(0x5c);
        out.push(b);
    } else if b == 0x08 {
        out.push(0x5c);
        out.push(0x62);
    } else if b == 0x0c {
        out.push(0x5c);
        out.push(0x66);
    } else if b == 0x0a {
        out.push(0x5c);
        out.push(0x6e);
    } else if b == 0x0d {
        out.push(0x5c);
        out.push(0x72);
    } else if b == 0x09 {
        out.push(0x5c);
        out.push(0x74);
    } else if b < 0x20 {
        out.push(0x5c);
        out.push(0x75);
        out.push(0x30);
        out.push(0x30);
        out.push(hex_digit_exec(b / 16));
        out.push(hex_digit_exec(b % 16));
    } else {
        out.push(b);
    }
    assert(final(out)@ =~= old(out)@ + escape_byte(b));
}

/// Appends the JSON string literal holding `s` to `out`.
fn push_string_json(s: &str, out: &mut Vec<u8>)
    ensures
        final(out)@ == old(out)@ + string_json(s@),
{
    let bytes = s.as_bytes();
    let ghost start = out@;
    out.push(0x22);
    let mut i: usize = 0;
    while i < bytes.len()
        invariant
            bytes@ == vstd::utf8::encode_utf8(s@),
            0 <= i <= bytes@.len(),
            out@ == start + seq![0x22u8] + escape_bytes(bytes@.take(i as int)),
        decreases bytes@.len() - i,
    {
        assert(bytes@.take(i + 1).drop_last() =~= bytes@.take(i as int));
        push_escaped_byte(bytes[i], out);
        i = i + 1;
        assert(out@ =~= start + seq![0x22u8] + escape_bytes(bytes@.take(i as int)));
    }
    assert(bytes@.take(i as int) =~= bytes@);
    out.push(0x22);
    assert(out@ =~= start + string_json(s@));
}

fn push_bytes(bytes: &[u8], out: &mut Vec<u8>)
    ensures
        final(out)@ == old(out)@ + bytes@,
{
    let ghost start = out@;
    let mut i: usize = 0;
    while i < bytes.len()
        invariant
            0 <= i <= bytes@.len(),
            out@ == start + bytes@.take(i as int),
        decreases bytes@.len() - i,
    {
        out.push(bytes[i]);
        i = i + 1;
        assert(out@ =~= start + bytes@.take(i as int));
    }
    assert(bytes@.take(i as int) =~= bytes@);
}

/// Appends the compact JSON text of `v` to `out`.
#[verifier::loop_isolation(false)]
pub fn write_json(v: &JsonValue, out: &mut Vec<u8>)
    ensures
        final(out)@ == old(out)@ + json_bytes(*v),
    decreases v,
{
    let ghost start = out@;
    match v {
        JsonValue::Null => {
            out.push(0x6e);
            out.push(0x75);
            out.push(0x6c);
            out.push(0x6c);
            assert(out@ =~= start + json_bytes(*v));
        },
        JsonValue::Bool(b) => {
            if *b {
                out.push(0x74);
                out.push(0x72);
                out.push(0x75);
                out.push(0x65);
            } else {
                out.push(0x66);
                out.push(0x61);
                out.push(0x6c);
                out.push(0x73);
                out.push(0x65);
            }
            assert(out@ =~= start + json_bytes(*v));
        },
        JsonValue::Number(t) => {
            push_bytes(t.as_str().as_bytes(), out);
        },
        JsonValue::Str(s) => {
            push_string_json(s.as_str(), out);
        },
        JsonValue::Array(vs) => {
            out.push(0x5b);
            write_array_items(vs, out);
            out.push(0x5d);
            assert(out@ =~= start + json_bytes(*v));
        },
        JsonValue::Object(ms) => {
            out.push(0x7b);
            let mut i: usize = 0;
            while i < ms.len()
                invariant
                    0 <= i <= ms@.len(),
                    out@ == start + seq![0x7bu8] + object_items(ms@.take(i as int)),
                decreases ms@.len() - i,
            {
                let ghost before = out@;
                assert(ms@.take(i + 1).drop_last() =~= ms@.take(i as int));
                if i > 0 {
                    out.push(0x2c);
                }
                push_string_json(ms[i].0.as_str(), out);
                out.push(0x3a);
                proof {
                    vstd::std_specs::vec::axiom_vec_decreases_to_view(*ms);
                    vstd::seq::axiom_seq_index_decreases(ms@, i as int);
                }
                write_json(&ms[i].1, out);
                i = i + 1;
                assert(out@ =~= start + seq![0x7bu8] + object_items(ms@.take(i as int)));
            }
            assert(ms@.take(i as int) =~= ms@);
            out.push(0x7d);
            assert(out@ =~= start + json_bytes(*v));
        },
    }
}

/// Appends the elements of an array, separated by commas, to `out`.
#[verifier::loop_isolation(false)]
fn write_array_items(vs: &Vec<JsonValue>, out: &mut Vec<u8>)
    ensures
        final(out)@ == old(out)@ + array_items(vs@),
    decreases vs,
{
    let ghost start = out@;
    let mut i: usize = 0;
    while i < vs.len()
        invariant
            0 <= i <= vs@.len(),
            out@ == start + array_items(vs@.take(i as int)),
        decreases vs@.len() - i,
    {
        assert(vs@.take(i + 1).drop_last() =~= vs@.take(i as int));
        if i > 0 {
            out.push(0x2c);
        }
        proof {
            vstd::std_specs::vec::axiom_vec_decreases_to_view(*vs);
            vstd::seq::axiom_seq_index_decreases(vs@, i as int);
        }
        write_json(&vs[i], out);
        i = i + 1;
        assert(out@ =~= start + array_items(vs@.take(i as int)));
    }
    assert(vs@.take(i as int) =~= vs@);
}

/// The compact JSON text of an array of values, as bytes.
pub fn json_array_text(values: &Vec<JsonValue>) -> (r: Vec<u8>)
    ensures
        r@ == json_array_bytes(values@),
{
    let mut out: Vec<u8> = Vec::new();
    out.push(0x5b);
    write_array_items(values, &mut out);
    out.push(0x5d);
    assert(out@ =~= json_array_bytes(values@));
    out
}

} // verus!
