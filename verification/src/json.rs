//! JSON text for request bodies, written as the API expects it.

use vstd::prelude::*;

use crate::text::{decimal, decimal_int, push_decimal, push_decimal_i64, push_str, to_string};
use crate::text_std::chars_of;

verus! {

/// How one character is written inside a JSON string: backslash, quote,
/// line feed and carriage return are escaped, everything else is kept.
pub open spec fn escape_char(c: char) -> Seq<char> {
    if c == '\\' {
        seq!['\\', '\\']
    } else if c == '"' {
        seq!['\\', '"']
    } else if c == '\n' {
        seq!['\\', 'n']
    } else if c == '\r' {
        seq!['\\', 'r']
    } else {
        seq![c]
    }
}

/// The escaped form of a whole character sequence.
pub open spec fn escape(s: Seq<char>) -> Seq<char>
    decreases s.len(),
{
    if s.len() == 0 {
        seq![]
    } else {
        escape(s.drop_last()) + escape_char(s.last())
    }
}

/// `s` as a JSON string literal: escaped and between double quotes.
pub open spec fn quoted(s: Seq<char>) -> Seq<char> {
    seq!['"'] + escape(s) + seq!['"']
}

/// `true` or `false`.
pub open spec fn bool_text(b: bool) -> Seq<char> {
    if b {
        "true"@
    } else {
        "false"@
    }
}

/// A JSON string literal for `Some`, `null` for `None`.
pub open spec fn quoted_or_null(o: Option<Seq<char>>) -> Seq<char> {
    match o {
        Some(s) => quoted(s),
        None => "null"@,
    }
}

/// The parts separated by commas.
pub open spec fn comma_joined(parts: Seq<Seq<char>>) -> Seq<char>
    decreases parts.len(),
{
    if parts.len() == 0 {
        seq![]
    } else if parts.len() == 1 {
        parts[0]
    } else {
        comma_joined(parts.drop_last()) + seq![','] + parts.last()
    }
}

/// The views of a list of character vectors.
pub open spec fn views(parts: Seq<Vec<char>>) -> Seq<Seq<char>> {
    parts.map_values(|v: Vec<char>| v@)
}

/// Appends the escaped form of `s`.
pub fn push_escaped(out: &mut Vec<char>, s: &Vec<char>)
    ensures
        final(out)@ == old(out)@ + escape(s@),
{
    let mut i: usize = 0;
    while i < s.len()
        invariant
            i <= s@.len(),
            out@ == old(out)@ + escape(s@.take(i as int)),
        decreases s@.len() - i,
    {
        let c = s[i];
        let ghost before = out@;
        if c == '\\' {
            out.push('\\');
            out.push('\\');
        } else if c == '"' {
            out.push('\\');
            out.push('"');
        } else if c == '\n' {
            out.push('\\');
            out.push('n');
        } else if c == '\r' {
            out.push('\\');
            out.push('r');
        } else {
            out.push(c);
        }
        assert(out@ =~= before + escape_char(c));
        assert(s@.take(i as int + 1).drop_last() =~= s@.take(i as int));
        i = i + 1;
    }
    assert(s@.take(i as int) =~= s@);
}

/// Appends `s` as a JSON string literal.
pub fn push_quoted(out: &mut Vec<char>, s: &Vec<char>)
    ensures
        final(out)@ == old(out)@ + quoted(s@),
{
    out.push('"');
    push_escaped(out, s);
    out.push('"');
    assert(out@ =~= old(out)@ + quoted(s@));
}

/// Appends a string slice as a JSON string literal.
pub fn push_quoted_str(out: &mut Vec<char>, s: &str)
    ensures
        final(out)@ == old(out)@ + quoted(s@),
{
    let cs = chars_of(s);
    push_quoted(out, &cs);
}

/// Appends `true` or `false`.
pub fn push_bool(out: &mut Vec<char>, b: bool)
    ensures
        final(out)@ == old(out)@ + bool_text(b),
{
    if b {
        push_str(out, "true");
    } else {
        push_str(out, "false");
    }
}

/// Appends a JSON string literal for `Some`, `null` for `None`.
pub fn push_quoted_or_null(out: &mut Vec<char>, o: &Option<String>)
    ensures
        final(out)@ == old(out)@ + quoted_or_null(match o {
            Some(s) => Some(s@),
            None => None,
        }),
{
    match o {
        Some(s) => push_quoted_str(out, s.as_str()),
        None => push_str(out, "null"),
    }
}

/// Appends the parts separated by commas.
pub fn push_comma_joined(out: &mut Vec<char>, parts: &Vec<Vec<char>>)
    ensures
        final(out)@ == old(out)@ + comma_joined(views(parts@)),
{
    let mut i: usize = 0;
    while i < parts.len()
        invariant
            i <= parts@.len(),
            out@ == old(out)@ + comma_joined(views(parts@.take(i as int))),
        decreases parts@.len() - i,
    {
        let ghost before = out@;
        if i > 0 {
            out.push(',');
        }
        let part = &parts[i];
        let mut j: usize = 0;
        let ghost mid = out@;
        while j < part.len()
            invariant
                j <= part@.len(),
                out@ == mid + part@.take(j as int),
            decreases part@.len() - j,
        {
            out.push(part[j]);
            assert(part@.take(j as int + 1) =~= part@.take(j as int).push(part@[j as int]));
            j = j + 1;
        }
        assert(part@.take(j as int) =~= part@);
        proof {
            let next = views(parts@.take(i as int + 1));
            assert(next.drop_last() =~= views(parts@.take(i as int)));
            assert(next.last() == part@);
            if i == 0 {
                assert(next.len() == 1);
                assert(out@ =~= old(out)@ + comma_joined(next));
            } else {
                assert(out@ =~= before + seq![','] + part@);
                assert(out@ =~= old(out)@ + comma_joined(next));
            }
        }
        i = i + 1;
    }
    assert(parts@.take(i as int) =~= parts@);
}

/// `value` as a JSON string literal.
pub fn json_string(value: &str) -> (r: String)
    ensures
        r@ == quoted(value@),
{
    let mut out: Vec<char> = Vec::new();
    push_quoted_str(&mut out, value);
    assert(out@ =~= quoted(value@));
    to_string(&out)
}

/// The character a two-character JSON escape `\x` stands for, if `x`
/// starts one (`\uXXXX` escapes are not among them).
pub open spec fn unescaped(x: char) -> Option<char> {
    if x == '"' {
        Some('"')
    } else if x == '\\' {
        Some('\\')
    } else if x == '/' {
        Some('/')
    } else if x == 'b' {
        Some('\x08')
    } else if x == 'f' {
        Some('\x0c')
    } else if x == 'n' {
        Some('\n')
    } else if x == 'r' {
        Some('\r')
    } else if x == 't' {
        Some('\t')
    } else {
        None
    }
}

/// A control character, which JSON does not allow unescaped in a string.
pub open spec fn is_control(c: char) -> bool {
    (c as u32) < 0x20
}

/// The text that the inside of a JSON string literal denotes, read from the
/// front: `None` when it holds an unescaped quote or control character, a
/// dangling backslash, or an escape other than the two-character ones.
pub open spec fn decode_body(t: Seq<char>) -> Option<Seq<char>>
    decreases t.len(),
{
    if t.len() == 0 {
        Some(Seq::empty())
    } else if t[0] == '\\' {
        if t.len() < 2 {
            None
        } else {
            match unescaped(t[1]) {
                Some(c) => match decode_body(t.subrange(2, t.len() as int)) {
                    Some(r) => Some(seq![c] + r),
                    None => None,
                },
                None => None,
            }
        }
    } else if t[0] == '"' || is_control(t[0]) {
        None
    } else {
        match decode_body(t.drop_first()) {
            Some(r) => Some(seq![t[0]] + r),
            None => None,
        }
    }
}

/// The text a JSON string literal denotes, if `lit` is one (without
/// `\uXXXX` escapes).
pub open spec fn decode_json_string(lit: Seq<char>) -> Option<Seq<char>> {
    if lit.len() >= 2 && lit[0] == '"' && lit.last() == '"' {
        decode_body(lit.subrange(1, lit.len() - 1))
    } else {
        None
    }
}

proof fn lemma_escape_concat(a: Seq<char>, b: Seq<char>)
    ensures
        escape(a + b) == escape(a) + escape(b),
    decreases b.len(),
{
    if b.len() == 0 {
        assert(a + b =~= a);
        assert(escape(a) + escape(b) =~= escape(a));
    } else {
        lemma_escape_concat(a, b.drop_last());
        assert((a + b).drop_last() =~= a + b.drop_last());
        assert((a + b).last() == b.last());
        assert(escape(a + b) =~= escape(a) + escape(b));
    }
}

proof fn lemma_decode_escaped(s: Seq<char>)
    requires
        forall|i: int| 0 <= i < s.len() && is_control(#[trigger] s[i]) ==> s[i] == '\n' || s[i] == '\r',
    ensures
        decode_body(escape(s)) == Some(s),
    decreases s.len(),
{
    if s.len() > 0 {
        let c = s[0];
        let rest = s.drop_first();
        assert(s =~= seq![c] + rest);
        lemma_escape_concat(seq![c], rest);
        assert(seq![c].drop_last() =~= Seq::<char>::empty());
        assert(seq![c].last() == c);
        assert(escape(Seq::<char>::empty()) =~= Seq::<char>::empty());
        assert(escape(seq![c]) == escape(seq![c].drop_last()) + escape_char(seq![c].last()));
        assert(escape(seq![c]) =~= escape_char(c));
        lemma_decode_escaped(rest);
        let t = escape(s);
        assert(t =~= escape_char(c) + escape(rest));
        if c == '\\' || c == '"' || c == '\n' || c == '\r' {
            assert(t.subrange(2, t.len() as int) =~= escape(rest));
        } else {
            assert(t.drop_first() =~= escape(rest));
        }
        assert(decode_body(t) =~= Some(seq![c] + rest));
    }
}

/// The JSON string literal of a text denotes that text again, when the text
/// holds no control character but line feeds and carriage returns.
pub proof fn law_json_string_round_trip(s: Seq<char>)
    requires
        forall|i: int| 0 <= i < s.len() && is_control(#[trigger] s[i]) ==> s[i] == '\n' || s[i] == '\r',
    ensures
        decode_json_string(quoted(s)) == Some(s),
{
    lemma_decode_escaped(s);
    let q = quoted(s);
    assert(q.subrange(1, q.len() - 1) =~= escape(s));
}

} // verus!
