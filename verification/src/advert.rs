//! Capability advertisement serialization, shared by every dialect: each
//! capability becomes one structured declaration — a discriminator marking it
//! as a function, and a nested object with its name, description and raw
//! parameter schema — and the declarations are serialized as a JSON list.
//! Member names appear in sorted order, string values are escaped by the
//! standard JSON rules.

use crate::text::{chars_to_string, str_to_chars};
use crate::tools::Tool;
use vstd::prelude::*;

verus! {

/// The lowercase hexadecimal digit for `n`.
pub open spec fn hex_digit(n: u32) -> char {
    if n == 0 {
        '0'
    } else if n == 1 {
        '1'
    } else if n == 2 {
        '2'
    } else if n == 3 {
        '3'
    } else if n == 4 {
        '4'
    } else if n == 5 {
        '5'
    } else if n == 6 {
        '6'
    } else if n == 7 {
        '7'
    } else if n == 8 {
        '8'
    } else if n == 9 {
        '9'
    } else if n == 10 {
        'a'
    } else if n == 11 {
        'b'
    } else if n == 12 {
        'c'
    } else if n == 13 {
        'd'
    } else if n == 14 {
        'e'
    } else {
        'f'
    }
}

/// How one character appears inside a JSON string literal: quote and
/// backslash get a backslash, control characters get their short escape or a
/// `\u00XX` escape, everything else stands as itself.
pub open spec fn escape_char(c: char) -> Seq<char> {
    let n = c as u32;
    if n == 0x22 {
        seq!['\\', '"']
    } else if n == 0x5C {
        seq!['\\', '\\']
    } else if n == 0x08 {
        seq!['\\', 'b']
    } else if n == 0x09 {
        seq!['\\', 't']
    } else if n == 0x0A {
        seq!['\\', 'n']
    } else if n == 0x0C {
        seq!['\\', 'f']
    } else if n == 0x0D {
        seq!['\\', 'r']
    } else if n < 0x20 {
        seq!['\\', 'u', '0', '0', hex_digit(n / 16), hex_digit(n % 16)]
    } else {
        seq![c]
    }
}

/// The escaped body of the JSON string literal for `s`.
pub open spec fn quote_body(s: Seq<char>) -> Seq<char>
    decreases s.len(),
{
    if s.len() == 0 {
        Seq::empty()
    } else {
        escape_char(s[0]) + quote_body(s.skip(1))
    }
}

/// The JSON string literal for `s`: a quote, the escaped body, a quote.
pub open spec fn quote_spec(s: Seq<char>) -> Seq<char> {
    seq!['"'] + quote_body(s) + seq!['"']
}

proof fn lemma_quote_body_snoc(s: Seq<char>, c: char)
    ensures
        quote_body(s.push(c)) == quote_body(s) + escape_char(c),
    decreases s.len(),
{
    if s.len() == 0 {
        assert(s.push(c)[0] == c);
        assert(s.push(c).skip(1) =~= Seq::<char>::empty());
        assert(quote_body(s.push(c)) == escape_char(c) + quote_body(Seq::<char>::empty()));
        assert(escape_char(c) + Seq::<char>::empty() =~= escape_char(c));
        assert(Seq::<char>::empty() + escape_char(c) =~= escape_char(c));
    } else {
        assert(s.push(c)[0] == s[0]);
        assert(s.push(c).skip(1) =~= s.skip(1).push(c));
        assert(quote_body(s.push(c)) == escape_char(s[0]) + quote_body(s.skip(1).push(c)));
        lemma_quote_body_snoc(s.skip(1), c);
        assert(quote_body(s) == escape_char(s[0]) + quote_body(s.skip(1)));
        assert(escape_char(s[0]) + (quote_body(s.skip(1)) + escape_char(c)) =~= (escape_char(s[0])
            + quote_body(s.skip(1))) + escape_char(c));
    }
}

/// Appends the JSON escape of `c` to `out`.
fn push_escaped(out: &mut Vec<char>, c: char)
    ensures
        final(out)@ == old(out)@ + escape_char(c),
{
    let ghost before = out@;
    let n = c as u32;
    if n == 0x22 {
        out.push('\\');
        out.push('"');
    } else if n == 0x5C {
        out.push('\\');
        out.push('\\');
    } else if n == 0x08 {
        out.push('\\');
        out.push('b');
    } else if n == 0x09 {
        out.push('\\');
        out.push('t');
    } else if n == 0x0A {
        out.push('\\');
        out.push('n');
    } else if n == 0x0C {
        out.push('\\');
        out.push('f');
    } else if n == 0x0D {
        out.push('\\');
        out.push('r');
    } else if n < 0x20 {
        out.push('\\');
        out.push('u');
        out.push('0');
        out.push('0');
        let hi = n / 16;
        let lo = n % 16;
        let hc = if hi == 0 {
            '0'
        } else {
            '1'
        };
        proof {
            assert(hc == hex_digit(n / 16));
        }
        out.push(hc);
        let lc = if lo == 0 {
            '0'
        } else if lo == 1 {
            '1'
        } else if lo == 2 {
            '2'
        } else if lo == 3 {
            '3'
        } else if lo == 4 {
            '4'
        } else if lo == 5 {
            '5'
        } else if lo == 6 {
            '6'
        } else if lo == 7 {
            '7'
        } else if lo == 8 {
            '8'
        } else if lo == 9 {
            '9'
        } else if lo == 10 {
            'a'
        } else if lo == 11 {
            'b'
        } else if lo == 12 {
            'c'
        } else if lo == 13 {
            'd'
        } else if lo == 14 {
            'e'
        } else {
            'f'
        };
        proof {
            assert(lc == hex_digit(n % 16));
        }
        out.push(lc);
    } else {
        out.push(c);
    }
    proof {
        assert(out@ =~= before + escape_char(c));
    }
}

/// Builds the JSON string literal for the characters of `s`.
pub fn json_quote(s: &Vec<char>) -> (r: Vec<char>)
    ensures
        r@ == quote_spec(s@),
{
    let mut out: Vec<char> = Vec::new();
    out.push('"');
    proof {
        assert(out@ =~= seq!['"'] + quote_body(s@.subrange(0, 0)));
    }
    let mut i: usize = 0;
    while i < s.len()
        invariant
            i <= s@.len(),
            out@ == seq!['"'] + quote_body(s@.subrange(0, i as int)),
        decreases s@.len() - i,
    {
        push_escaped(&mut out, s[i]);
        proof {
            assert(s@.subrange(0, i + 1) =~= s@.subrange(0, i as int).push(s@[i as int]));
            lemma_quote_body_snoc(s@.subrange(0, i as int), s@[i as int]);
            assert((seq!['"'] + quote_body(s@.subrange(0, i as int))) + escape_char(s@[i as int])
                =~= seq!['"'] + quote_body(s@.subrange(0, i + 1)));
        }
        i += 1;
    }
    out.push('"');
    proof {
        assert(s@.subrange(0, s@.len() as int) =~= s@);
        assert(out@ =~= quote_spec(s@));
    }
    out
}

/// The value of a lowercase hexadecimal digit; 16 marks a non-digit.
pub open spec fn hex_val(c: char) -> u32 {
    if c == '0' {
        0
    } else if c == '1' {
        1
    } else if c == '2' {
        2
    } else if c == '3' {
        3
    } else if c == '4' {
        4
    } else if c == '5' {
        5
    } else if c == '6' {
        6
    } else if c == '7' {
        7
    } else if c == '8' {
        8
    } else if c == '9' {
        9
    } else if c == 'a' {
        10
    } else if c == 'b' {
        11
    } else if c == 'c' {
        12
    } else if c == 'd' {
        13
    } else if c == 'e' {
        14
    } else if c == 'f' {
        15
    } else {
        16
    }
}

/// The character a two-character escape stands for.
pub open spec fn short_escape_char(e: char) -> char {
    if e == 'b' {
        '\u{8}'
    } else if e == 't' {
        '\t'
    } else if e == 'n' {
        '\n'
    } else if e == 'f' {
        '\u{c}'
    } else if e == 'r' {
        '\r'
    } else {
        e
    }
}

/// Scans the body of a JSON string literal up to its closing quote: the
/// decoded content and the number of input characters consumed, closing
/// quote included.
pub open spec fn scan_qbody(s: Seq<char>) -> Option<(Seq<char>, int)>
    decreases s.len(),
{
    if s.len() == 0 {
        None
    } else if s[0] == '"' {
        Some((Seq::empty(), 1))
    } else if s[0] == '\\' {
        if s.len() < 2 {
            None
        } else if s[1] == 'u' {
            if s.len() >= 6 && s[2] == '0' && s[3] == '0' && hex_val(s[4]) < 16 && hex_val(s[5])
                < 16 {
                match scan_qbody(s.skip(6)) {
                    Some(p) => Some(
                        (seq![((16 * hex_val(s[4]) + hex_val(s[5])) as u32) as char] + p.0, p.1 + 6),
                    ),
                    None => None,
                }
            } else {
                None
            }
        } else {
            match scan_qbody(s.skip(2)) {
                Some(p) => Some((seq![short_escape_char(s[1])] + p.0, p.1 + 2)),
                None => None,
            }
        }
    } else {
        match scan_qbody(s.skip(1)) {
            Some(p) => Some((seq![s[0]] + p.0, p.1 + 1)),
            None => None,
        }
    }
}

/// The content and extent of the JSON string literal at the head of `s`.
pub open spec fn scan_quoted(s: Seq<char>) -> Option<(Seq<char>, int)> {
    if s.len() >= 1 && s[0] == '"' {
        match scan_qbody(s.skip(1)) {
            Some(p) => Some((p.0, p.1 + 1)),
            None => None,
        }
    } else {
        None
    }
}

/// Scanning the escaped body of `x` followed by a closing quote recovers
/// `x` exactly and stops at that quote, whatever follows it.
proof fn lemma_scan_qbody_roundtrip(x: Seq<char>, rest: Seq<char>)
    ensures
        scan_qbody(quote_body(x) + seq!['"'] + rest) == Some(
            (x, quote_body(x).len() + 1 as int),
        ),
    decreases x.len(),
{
    let s = quote_body(x) + seq!['"'] + rest;
    if x.len() == 0 {
        assert(quote_body(x) =~= Seq::<char>::empty());
        assert(s =~= seq!['"'] + rest);
        assert(s[0] == '"');
        assert(x =~= Seq::<char>::empty());
    } else {
        let c = x[0];
        let e = escape_char(c);
        let x1 = x.skip(1);
        assert(quote_body(x) == e + quote_body(x1));
        let s1 = quote_body(x1) + seq!['"'] + rest;
        lemma_scan_qbody_roundtrip(x1, rest);
        let n = c as u32;
        assert(seq![c] + x1 =~= x);
        if n == 0x22 || n == 0x5C || n == 0x08 || n == 0x09 || n == 0x0A || n == 0x0C || n
            == 0x0D {
            assert(e.len() == 2 && e[0] == '\\');
            assert(s[0] == '\\');
            assert(s[1] == e[1]);
            assert(e[1] != 'u');
            assert(s.skip(2) =~= s1);
            vstd::utf8::char_u32_cast(c, n);
            vstd::utf8::char_u32_cast(short_escape_char(e[1]), n);
            assert(short_escape_char(e[1]) == c);
        } else if n < 0x20 {
            assert(e.len() == 6);
            assert(s[0] == '\\' && s[1] == 'u' && s[2] == '0' && s[3] == '0');
            assert(s[4] == hex_digit(n / 16) && s[5] == hex_digit(n % 16));
            assert(hex_val(hex_digit(n / 16)) == n / 16);
            assert(hex_val(hex_digit(n % 16)) == n % 16);
            assert(s.skip(6) =~= s1);
            assert(16 * (n / 16) + n % 16 == n);
            assert(((16 * hex_val(s[4]) + hex_val(s[5])) as u32) == n);
            vstd::utf8::char_u32_cast(c, n);
            assert(((16 * hex_val(s[4]) + hex_val(s[5])) as u32) as char == c);
        } else {
            assert(e =~= seq![c]);
            assert(s[0] == c);
            assert(c != '"' && c != '\\');
            assert(s.skip(1) =~= s1);
        }
    }
}

/// Scanning the JSON string literal for `x` recovers `x` exactly and stops
/// at the closing quote, whatever follows it.
pub proof fn lemma_scan_quoted_roundtrip(x: Seq<char>, rest: Seq<char>)
    ensures
        scan_quoted(quote_spec(x) + rest) == Some((x, quote_spec(x).len() as int)),
{
    let s = quote_spec(x) + rest;
    assert(s[0] == '"');
    assert(s.skip(1) =~= quote_body(x) + seq!['"'] + rest);
    lemma_scan_qbody_roundtrip(x, rest);
}

/// The serialized declaration of one capability: sorted members, the fixed
/// `function` discriminator, and the raw schema text in place.
pub open spec fn advert_entry_spec(name: Seq<char>, desc: Seq<char>, params: Seq<char>) -> Seq<char> {
    "{\"function\":{\"description\":"@ + quote_spec(desc) + ",\"name\":"@ + quote_spec(name)
        + ",\"parameters\":"@ + params + "},\"type\":\"function\"}"@
}

/// The serialized declaration of capability `t`.
pub open spec fn advert_entry_of<T: Tool>(t: T) -> Seq<char> {
    advert_entry_spec(t.spec_name(), t.spec_description(), t.spec_parameters())
}

/// Builds the serialized declaration of one capability.
pub fn advert_entry<T: Tool>(tool: &T) -> (r: String)
    ensures
        r@ == advert_entry_of(*tool),
{
    let mut out: Vec<char> = str_to_chars("{\"function\":{\"description\":");
    let desc = tool.description();
    let mut qd = json_quote(&str_to_chars(desc.as_str()));
    out.append(&mut qd);
    let mut mid1 = str_to_chars(",\"name\":");
    out.append(&mut mid1);
    let name = tool.name();
    let mut qn = json_quote(&str_to_chars(name.as_str()));
    out.append(&mut qn);
    let mut mid2 = str_to_chars(",\"parameters\":");
    out.append(&mut mid2);
    let params = tool.parameters();
    let mut ps = str_to_chars(params.as_str());
    out.append(&mut ps);
    let mut tail = str_to_chars("},\"type\":\"function\"}");
    out.append(&mut tail);
    chars_to_string(&out)
}

/// The `name`, `description` and `parameters` read back from a serialized
/// capability declaration, scanning it from the front: the fixed member
/// markers, the two string literals, and the raw schema text up to the
/// fixed closing members.
pub open spec fn advert_entry_fields(e: Seq<char>) -> Option<(Seq<char>, Seq<char>, Seq<char>)> {
    let head = "{\"function\":{\"description\":"@;
    let name_marker = ",\"name\":"@;
    let params_marker = ",\"parameters\":"@;
    let suf = "},\"type\":\"function\"}"@;
    if e.len() >= head.len() && e.subrange(0, head.len() as int) == head {
        match scan_quoted(e.skip(head.len() as int)) {
            Some(d) => {
                let rest1 = e.skip(head.len() as int + d.1);
                if rest1.len() >= name_marker.len() && rest1.subrange(0, name_marker.len() as int) == name_marker {
                    match scan_quoted(rest1.skip(name_marker.len() as int)) {
                        Some(nm) => {
                            let rest2 = rest1.skip(name_marker.len() as int + nm.1);
                            if rest2.len() >= params_marker.len() + suf.len() && rest2.subrange(
                                0,
                                params_marker.len() as int,
                            ) == params_marker && rest2.subrange(
                                rest2.len() - suf.len(),
                                rest2.len() as int,
                            ) == suf {
                                Some(
                                    (
                                        nm.0,
                                        d.0,
                                        rest2.subrange(params_marker.len() as int, rest2.len() - suf.len()),
                                    ),
                                )
                            } else {
                                None
                            }
                        },
                        None => None,
                    }
                } else {
                    None
                }
            },
            None => None,
        }
    } else {
        None
    }
}

/// Advertisement serialization round-trips: reading the fields back from a
/// serialized capability declaration yields the original name, description
/// and parameter schema unchanged, for every value of the three.
pub proof fn lemma_advert_entry_roundtrip(name: Seq<char>, desc: Seq<char>, params: Seq<char>)
    ensures
        advert_entry_fields(advert_entry_spec(name, desc, params)) == Some(
            (name, desc, params),
        ),
{
    let head = "{\"function\":{\"description\":"@;
    let name_marker = ",\"name\":"@;
    let params_marker = ",\"parameters\":"@;
    let suf = "},\"type\":\"function\"}"@;
    let qd = quote_spec(desc);
    let qn = quote_spec(name);
    let e = advert_entry_spec(name, desc, params);
    assert(e.subrange(0, head.len() as int) =~= head);
    assert(e.skip(head.len() as int) =~= qd + (name_marker + qn + params_marker + params + suf));
    lemma_scan_quoted_roundtrip(desc, name_marker + qn + params_marker + params + suf);
    let rest1 = e.skip(head.len() as int + qd.len() as int);
    assert(rest1 =~= name_marker + qn + params_marker + params + suf);
    assert(rest1.subrange(0, name_marker.len() as int) =~= name_marker);
    assert(rest1.skip(name_marker.len() as int) =~= qn + (params_marker + params + suf));
    lemma_scan_quoted_roundtrip(name, params_marker + params + suf);
    let rest2 = rest1.skip(name_marker.len() as int + qn.len() as int);
    assert(rest2 =~= params_marker + params + suf);
    assert(rest2.subrange(0, params_marker.len() as int) =~= params_marker);
    assert(rest2.subrange(rest2.len() - suf.len(), rest2.len() as int) =~= suf);
    assert(rest2.subrange(params_marker.len() as int, rest2.len() - suf.len()) =~= params);
}

/// The round-trip, stated of a capability: reading the fields back from its
/// serialized declaration yields its own attributes unchanged.
pub proof fn lemma_advert_roundtrip<T: Tool>(t: T)
    ensures
        advert_entry_fields(advert_entry_of(t)) == Some(
            (t.spec_name(), t.spec_description(), t.spec_parameters()),
        ),
{
    lemma_advert_entry_roundtrip(t.spec_name(), t.spec_description(), t.spec_parameters());
}

/// The declarations of `tools[i..]`, each preceded by a separating comma.
pub open spec fn advert_tail<T: Tool>(tools: Seq<T>, i: int) -> Seq<char>
    decreases tools.len() - i,
{
    if i < 0 || i >= tools.len() {
        Seq::empty()
    } else {
        ","@ + advert_entry_of(tools[i]) + advert_tail(tools, i + 1)
    }
}

/// The serialized list of every capability declaration in `tools`, in order.
pub open spec fn advert_list_spec<T: Tool>(tools: Seq<T>) -> Seq<char> {
    if tools.len() == 0 {
        "[]"@
    } else {
        "["@ + advert_entry_of(tools[0]) + advert_tail(tools, 1) + "]"@
    }
}

/// Serializes the whole registry into its advertisement list.
pub fn advertise_tools<T: Tool>(tools: &Vec<T>) -> (r: String)
    ensures
        r@ == advert_list_spec(tools@),
{
    if tools.len() == 0 {
        return chars_to_string(&str_to_chars("[]"));
    }
    let mut out: Vec<char> = str_to_chars("[");
    let first = advert_entry(&tools[0]);
    let mut f = str_to_chars(first.as_str());
    out.append(&mut f);
    let mut i: usize = 1;
    while i < tools.len()
        invariant
            1 <= i <= tools@.len(),
            advert_list_spec(tools@) == out@ + advert_tail(tools@, i as int) + "]"@,
        decreases tools@.len() - i,
    {
        let ghost out0 = out@;
        let mut c = str_to_chars(",");
        out.append(&mut c);
        let e = advert_entry(&tools[i]);
        let mut ev = str_to_chars(e.as_str());
        out.append(&mut ev);
        proof {
            assert(out0 + advert_tail(tools@, i as int) + "]"@ =~= out@ + advert_tail(
                tools@,
                i + 1,
            ) + "]"@);
        }
        i += 1;
    }
    let mut close = str_to_chars("]");
    out.append(&mut close);
    proof {
        assert(advert_tail(tools@, tools@.len() as int) =~= Seq::<char>::empty());
        assert(out@ =~= advert_list_spec(tools@));
    }
    chars_to_string(&out)
}

} // verus!
