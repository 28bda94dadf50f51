//! Text the frontend sends: percent-encoded query values, request
//! addresses, and the ids it gives new entity attributes.

use vstd::prelude::*;

use crate::text::{decimal, push_decimal, push_str, to_string};

verus! {

/// Bytes left as they are by percent-encoding, as JavaScript's
/// `encodeURIComponent` leaves them: ASCII letters and digits and
/// `- _ . ! ~ * ' ( )`.
pub open spec fn unreserved(b: u8) -> bool {
    ||| (65 <= b <= 90)
    ||| (97 <= b <= 122)
    ||| (48 <= b <= 57)
    ||| b == 45
    ||| b == 95
    ||| b == 46
    ||| b == 33
    ||| b == 126
    ||| b == 42
    ||| b == 39
    ||| b == 40
    ||| b == 41
}

/// An upper-case hexadecimal digit.
pub open spec fn hex_upper(d: nat) -> char {
    if d < 10 {
        (d + 48) as char
    } else {
        (d + 55) as char
    }
}

/// The value of a hexadecimal digit (either case), if it is one.
pub open spec fn hex_value(c: char) -> Option<nat> {
    let v = c as u32;
    if 48 <= v <= 57 {
        Some((v - 48) as nat)
    } else if 65 <= v <= 70 {
        Some((v - 55) as nat)
    } else if 97 <= v <= 102 {
        Some((v - 87) as nat)
    } else {
        None
    }
}

/// One byte, percent-encoded.
pub open spec fn encode_byte(b: u8) -> Seq<char> {
    if unreserved(b) {
        seq![b as char]
    } else {
        seq!['%', hex_upper((b / 16) as nat), hex_upper((b % 16) as nat)]
    }
}

/// Bytes, percent-encoded one after the other.
pub open spec fn encode_bytes(bs: Seq<u8>) -> Seq<char>
    decreases bs.len(),
{
    if bs.len() == 0 {
        Seq::empty()
    } else {
        encode_byte(bs[0]) + encode_bytes(bs.drop_first())
    }
}

/// A text as a query value: its UTF-8 bytes, percent-encoded.
pub open spec fn uri_component(s: Seq<char>) -> Seq<char> {
    encode_bytes(vstd::utf8::encode_utf8(s))
}

/// Percent-decoding: `%` and two hexadecimal digits stand for a byte, any
/// other character for its own code (truncated to a byte).
pub open spec fn percent_decode(cs: Seq<char>) -> Seq<u8>
    decreases cs.len(),
{
    if cs.len() == 0 {
        Seq::empty()
    } else if cs.len() >= 3 && cs[0] == '%' && hex_value(cs[1]) is Some && hex_value(cs[2]) is Some {
        seq![(hex_value(cs[1])->0 * 16 + hex_value(cs[2])->0) as u8] + percent_decode(cs.skip(3))
    } else {
        seq![cs[0] as u8] + percent_decode(cs.drop_first())
    }
}

proof fn lemma_encode_push(bs: Seq<u8>, b: u8)
    ensures
        encode_bytes(bs.push(b)) == encode_bytes(bs) + encode_byte(b),
    decreases bs.len(),
{
    if bs.len() == 0 {
        assert(bs.push(b).drop_first() =~= Seq::<u8>::empty());
        assert(encode_bytes(bs.push(b)) =~= encode_byte(b) + encode_bytes(Seq::<u8>::empty()));
    } else {
        lemma_encode_push(bs.drop_first(), b);
        assert(bs.push(b).drop_first() =~= bs.drop_first().push(b));
        assert(encode_bytes(bs.push(b)) =~= encode_byte(bs[0]) + encode_bytes(bs.drop_first().push(b)));
    }
}

proof fn lemma_hex_digit(d: nat)
    requires
        d < 16,
    ensures
        hex_value(hex_upper(d)) == Some(d),
{
}

/// Decoding undoes percent-encoding: the bytes come back unchanged.
pub proof fn law_percent_round_trip(bs: Seq<u8>)
    ensures
        percent_decode(encode_bytes(bs)) == bs,
    decreases bs.len(),
{
    if bs.len() > 0 {
        let b = bs[0];
        let rest = bs.drop_first();
        law_percent_round_trip(rest);
        let e = encode_byte(b);
        let tail = encode_bytes(rest);
        let all = e + tail;
        assert(encode_bytes(bs) == all);
        if unreserved(b) {
            assert(all[0] == b as char);
            assert(all[0] != '%');
            assert(all.drop_first() =~= tail);
            assert((b as char) as u8 == b);
            assert(percent_decode(all) =~= seq![b] + percent_decode(tail));
        } else {
            lemma_hex_digit((b / 16) as nat);
            lemma_hex_digit((b % 16) as nat);
            assert(all[0] == '%');
            assert(all[1] == hex_upper((b / 16) as nat));
            assert(all[2] == hex_upper((b % 16) as nat));
            assert(all.skip(3) =~= tail);
            assert(((b / 16) as nat * 16 + (b % 16) as nat) as u8 == b);
            assert(percent_decode(all) =~= seq![b] + percent_decode(tail));
        }
        assert(seq![b] + rest =~= bs);
    }
}

fn is_unreserved(b: u8) -> (r: bool)
    ensures
        r == unreserved(b),
{
    (65 <= b && b <= 90) || (97 <= b && b <= 122) || (48 <= b && b <= 57) || b == 45
        || b == 95 || b == 46 || b == 33 || b == 126 || b == 42 || b == 39 || b == 40
        || b == 41
}

fn hex_digit_upper(d: u8) -> (r: char)
    requires
        d < 16,
    ensures
        r == hex_upper(d as nat),
{
    if d < 10 {
        (d + 48) as char
    } else {
        (d + 55) as char
    }
}

/// Percent-encodes a query value as JavaScript's `encodeURIComponent` does:
/// the unreserved ASCII bytes stay, every other byte of the UTF-8 text
/// becomes `%` and two upper-case hexadecimal digits.
pub fn js_encode_uri_component(s: &str) -> (r: String)
    ensures
        r@ == uri_component(s@),
{
    let bytes = s.as_bytes();
    let mut out: Vec<char> = Vec::new();
    let mut i: usize = 0;
    while i < bytes.len()
        invariant
            i <= bytes@.len(),
            bytes@ == vstd::utf8::encode_utf8(s@),
            out@ == encode_bytes(bytes@.take(i as int)),
        decreases bytes@.len() - i,
    {
        let b = bytes[i];
        proof {
            lemma_encode_push(bytes@.take(i as int), b);
            assert(bytes@.take(i as int + 1) =~= bytes@.take(i as int).push(b));
        }
        if is_unreserved(b) {
            out.push(b as char);
        } else {
            out.push('%');
            out.push(hex_digit_upper(b / 16));
            out.push(hex_digit_upper(b % 16));
        }
        assert(out@ =~= encode_bytes(bytes@.take(i as int)) + encode_byte(b));
        i = i + 1;
    }
    assert(bytes@.take(i as int) =~= bytes@);
    to_string(&out)
}

/// The address of the API.
pub open spec fn api_base() -> Seq<char> {
    "http://localhost:9908"@
}

/// The address of an API resource: the base address and the path.
pub fn api_url(path: &str) -> (r: String)
    ensures
        r@ == api_base() + path@,
{
    let mut out: Vec<char> = Vec::new();
    push_str(&mut out, "http://localhost:9908");
    push_str(&mut out, path);
    to_string(&out)
}

/// The address of a page of entities: ten per page, with the search as an
/// encoded query value when there is one.
pub open spec fn entities_address(page: u32, search: Seq<char>) -> Seq<char> {
    api_base() + "/entities?page="@ + decimal(page as nat) + "&pageSize=10"@ + (if search.len() == 0 {
        Seq::empty()
    } else {
        "&search="@ + uri_component(search)
    })
}

pub fn entities_url(page: u32, search: &str) -> (r: String)
    ensures
        r@ == entities_address(page, search@),
{
    let mut out: Vec<char> = Vec::new();
    push_str(&mut out, "http://localhost:9908");
    push_str(&mut out, "/entities?page=");
    push_decimal(&mut out, page as u64);
    push_str(&mut out, "&pageSize=10");
    if !search.is_empty() {
        push_str(&mut out, "&search=");
        let encoded = js_encode_uri_component(search);
        push_str(&mut out, encoded.as_str());
    }
    to_string(&out)
}

/// The value of the `Authorization` header for a session.
pub fn bearer(session_key: &str) -> (r: String)
    ensures
        r@ == "Bearer "@ + session_key@,
{
    let mut out: Vec<char> = Vec::new();
    push_str(&mut out, "Bearer ");
    push_str(&mut out, session_key);
    to_string(&out)
}

/// A lower-case hexadecimal digit.
pub open spec fn hex_lower(d: nat) -> char {
    if d < 10 {
        (d + 48) as char
    } else {
        (d + 87) as char
    }
}

/// A byte as two lower-case hexadecimal digits.
pub open spec fn hex_pair(b: u8) -> Seq<char> {
    seq![hex_lower((b / 16) as nat), hex_lower((b % 16) as nat)]
}

/// Bytes as lower-case hexadecimal, two digits each.
pub open spec fn hex_run(bs: Seq<u8>) -> Seq<char>
    decreases bs.len(),
{
    if bs.len() == 0 {
        Seq::empty()
    } else {
        hex_run(bs.drop_last()) + hex_pair(bs.last())
    }
}

/// Sixteen bytes with the version (4) and variant (RFC 4122) bits set.
pub open spec fn uuid_bytes(bs: Seq<u8>) -> Seq<u8> {
    bs.update(6, (bs[6] & 0x0f) | 0x40).update(8, (bs[8] & 0x3f) | 0x80)
}

/// The text form of a UUID: 8-4-4-4-12 hexadecimal digits.
pub open spec fn uuid_text(bs: Seq<u8>) -> Seq<char> {
    hex_run(bs.subrange(0, 4)) + seq!['-'] + hex_run(bs.subrange(4, 6)) + seq!['-'] + hex_run(
        bs.subrange(6, 8),
    ) + seq!['-'] + hex_run(bs.subrange(8, 10)) + seq!['-'] + hex_run(bs.subrange(10, 16))
}

/// The bytes used when no random bytes can be had: the counter, then the
/// counter times a fixed odd constant (wrapping), both big-endian.
pub open spec fn counter_bytes(counter: u64) -> Seq<u8> {
    let mixed = ((counter as nat * 0x9e37_79b9_7f4a_7c15nat) % 0x1_0000_0000_0000_0000nat) as u64;
    Seq::new(
        16,
        |i: int|
            if i < 8 {
                ((counter >> ((56 - 8 * i) as u64)) & 0xff) as u8
            } else {
                ((mixed >> ((56 - 8 * (i - 8)) as u64)) & 0xff) as u8
            },
    )
}

fn hex_digit_lower(d: u8) -> (r: char)
    requires
        d < 16,
    ensures
        r == hex_lower(d as nat),
{
    if d < 10 {
        (d + 48) as char
    } else {
        (d + 87) as char
    }
}

fn push_hex(out: &mut Vec<char>, bs: &Vec<u8>, from: usize, to: usize)
    requires
        from <= to <= bs@.len(),
    ensures
        final(out)@ == old(out)@ + hex_run(bs@.subrange(from as int, to as int)),
{
    let mut i: usize = from;
    while i < to
        invariant
            from <= i <= to <= bs@.len(),
            out@ == old(out)@ + hex_run(bs@.subrange(from as int, i as int)),
        decreases to - i,
    {
        let b = bs[i];
        out.push(hex_digit_lower(b / 16));
        out.push(hex_digit_lower(b % 16));
        assert(bs@.subrange(from as int, i as int + 1).drop_last() =~= bs@.subrange(
            from as int,
            i as int,
        ));
        i = i + 1;
    }
}

/// Sets the version and variant bits of sixteen bytes and writes them as a
/// UUID.
pub fn format_uuid(bytes: &Vec<u8>) -> (r: String)
    requires
        bytes@.len() == 16,
    ensures
        r@ == uuid_text(uuid_bytes(bytes@)),
{
    let mut bs = bytes.clone();
    assert(bs@ == bytes@);
    let b6 = (bs[6] & 0x0f) | 0x40;
    bs.set(6, b6);
    let b8 = (bs[8] & 0x3f) | 0x80;
    bs.set(8, b8);
    assert(bs@ =~= uuid_bytes(bytes@));
    let mut out: Vec<char> = Vec::new();
    push_hex(&mut out, &bs, 0, 4);
    out.push('-');
    push_hex(&mut out, &bs, 4, 6);
    out.push('-');
    push_hex(&mut out, &bs, 6, 8);
    out.push('-');
    push_hex(&mut out, &bs, 8, 10);
    out.push('-');
    push_hex(&mut out, &bs, 10, 16);
    to_string(&out)
}

/// The bytes of the fallback id for a counter value.
pub fn fallback_id_bytes(counter: u64) -> (r: Vec<u8>)
    ensures
        r@ == counter_bytes(counter),
{
    let mixed = counter.wrapping_mul(0x9e37_79b9_7f4a_7c15);
    let mut r: Vec<u8> = Vec::new();
    let mut i: u64 = 0;
    while i < 8
        invariant
            i <= 8,
            mixed == ((counter as nat * 0x9e37_79b9_7f4a_7c15nat) % 0x1_0000_0000_0000_0000nat) as u64,
            r@.len() == i,
            forall|k: int| 0 <= k < i ==> #[trigger] r@[k] == counter_bytes(counter)[k],
        decreases 8 - i,
    {
        r.push(((counter >> (56 - 8 * i)) & 0xff) as u8);
        i = i + 1;
    }
    while i < 16
        invariant
            8 <= i <= 16,
            mixed == ((counter as nat * 0x9e37_79b9_7f4a_7c15nat) % 0x1_0000_0000_0000_0000nat) as u64,
            r@.len() == i,
            forall|k: int| 0 <= k < i ==> #[trigger] r@[k] == counter_bytes(counter)[k],
        decreases 16 - i,
    {
        r.push(((mixed >> (56 - 8 * (i - 8))) & 0xff) as u8);
        i = i + 1;
    }
    assert(r@ =~= counter_bytes(counter));
    r
}

/// The id of a new entity attribute: a version-4 UUID from sixteen random
/// bytes, or, when none could be had, from the bytes of a counter.
pub fn new_entity_attribute_id(random: Option<Vec<u8>>, counter: u64) -> (r: String)
    requires
        random matches Some(b) ==> b@.len() == 16,
    ensures
        random matches Some(b) ==> r@ == uuid_text(uuid_bytes(b@)),
        random is None ==> r@ == uuid_text(uuid_bytes(counter_bytes(counter))),
{
    match random {
        Some(b) => format_uuid(&b),
        None => {
            let b = fallback_id_bytes(counter);
            format_uuid(&b)
        },
    }
}

proof fn lemma_hex_run(bs: Seq<u8>)
    ensures
        hex_run(bs).len() == 2 * bs.len(),
        forall|i: int|
            0 <= i < bs.len() ==> hex_run(bs)[2 * i] == hex_lower((bs[i] / 16) as nat) && hex_run(
                bs,
            )[2 * i + 1] == hex_lower((bs[i] % 16) as nat),
    decreases bs.len(),
{
    if bs.len() > 0 {
        let t = bs.drop_last();
        lemma_hex_run(t);
        assert forall|i: int| 0 <= i < bs.len() implies hex_run(bs)[2 * i] == hex_lower(
            (bs[i] / 16) as nat,
        ) && hex_run(bs)[2 * i + 1] == hex_lower((bs[i] % 16) as nat) by {
            if i < t.len() {
                assert(t[i] == bs[i]);
            }
        }
    }
}

/// The ids given to new attributes are version-4 UUIDs of the RFC 4122
/// variant: the first digit of the third group is `4`, and the first digit
/// of the fourth group is one of `8`, `9`, `a`, `b`.
pub proof fn law_uuid_version(bs: Seq<u8>)
    requires
        bs.len() == 16,
    ensures
        uuid_text(uuid_bytes(bs)).len() == 36,
        uuid_text(uuid_bytes(bs))[14] == '4',
        ({
            let c = uuid_text(uuid_bytes(bs))[19];
            c == '8' || c == '9' || c == 'a' || c == 'b'
        }),
{
    let u = uuid_bytes(bs);
    let x6: u8 = bs[6];
    let x8: u8 = bs[8];
    let b6: u8 = (x6 & 0x0f) | 0x40;
    let b8: u8 = (x8 & 0x3f) | 0x80;
    assert(u[6] == b6);
    assert(u[8] == b8);
    assert(b6 / 16 == 4) by (bit_vector)
        requires
            b6 == (x6 & 0x0f) | 0x40,
    ;
    assert(8 <= b8 / 16 <= 11) by (bit_vector)
        requires
            b8 == (x8 & 0x3f) | 0x80,
    ;
    let g3 = u.subrange(6, 8);
    let g4 = u.subrange(8, 10);
    lemma_hex_run(u.subrange(0, 4));
    lemma_hex_run(u.subrange(4, 6));
    lemma_hex_run(g3);
    lemma_hex_run(g4);
    lemma_hex_run(u.subrange(10, 16));
    assert(g3[0] == b6);
    assert(g4[0] == b8);
    assert(hex_run(g3)[0] == hex_lower((b6 / 16) as nat));
    assert(hex_run(g4)[0] == hex_lower((b8 / 16) as nat));
    let text = uuid_text(u);
    assert(text[14] == hex_run(g3)[0]);
    assert(text[19] == hex_run(g4)[0]);
}

} // verus!
