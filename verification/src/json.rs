//! Parsing of the library's own JSON serialization, and the proof that
//! parsing undoes serializing.
//!
//! The grammar is exactly what `Document::to_json_string` emits: a compact
//! `{"data":[...]}` object whose items are double-quoted strings escaped as
//! `crate::text::esc` escapes them.
use crate::document::{items_text, json_text};
use crate::text::{esc, esc_char, hex_char, quoted};
use vstd::prelude::*;

verus! {

/// The character with the given code point.
pub open spec fn char_of(v: int) -> char {
    (v as u32) as char
}

pub open spec fn is_hex_digit(c: char) -> bool {
    exists|v: int| 0 <= v < 16 && c == hex_char(v)
}

/// The value of a lowercase hexadecimal digit character.
pub open spec fn hex_val(c: char) -> int {
    choose|v: int| 0 <= v < 16 && c == hex_char(v)
}

pub proof fn lemma_hex_inverse(v: int)
    requires
        0 <= v < 16,
    ensures
        is_hex_digit(hex_char(v)),
        hex_val(hex_char(v)) == v,
{
    assert(is_hex_digit(hex_char(v)));
    let w = hex_val(hex_char(v));
    assert(0 <= w < 16 && hex_char(v) == hex_char(w));
    assert(v == w);
}

pub proof fn lemma_char_of_inverse(c: char)
    requires
        (c as u32) < 128,
    ensures
        char_of((c as u32) as int) == c,
{
    vstd::utf8::char_u32_cast(c, c as u32);
    assert(((c as u32) as int) as u32 == c as u32);
}

/// Prepends a character to the content of a successful parse.
pub open spec fn cons_parsed(c: char, r: Option<(Seq<char>, Seq<char>)>) -> Option<
    (Seq<char>, Seq<char>),
> {
    match r {
        Some(p) => Some((seq![c] + p.0, p.1)),
        None => None,
    }
}

/// Parses the body of a double-quoted string up to and including its
/// closing quote: the unescaped content and the remainder after the quote.
pub open spec fn parse_string_body(s: Seq<char>) -> Option<(Seq<char>, Seq<char>)>
    decreases s.len(),
{
    if s.len() == 0 {
        None
    } else if s[0] == '"' {
        Some((Seq::empty(), s.skip(1)))
    } else if s[0] == '\\' {
        if s.len() >= 2 && (s[1] == '"' || s[1] == '\\') {
            cons_parsed(s[1], parse_string_body(s.skip(2)))
        } else if s.len() >= 6 && s[1] == 'u' && s[2] == '0' && s[3] == '0' && is_hex_digit(s[4])
            && is_hex_digit(s[5]) && (hex_val(s[4]) * 16 + hex_val(s[5]) < 32 || hex_val(s[4]) * 16
            + hex_val(s[5]) == 127) {
            cons_parsed(char_of(hex_val(s[4]) * 16 + hex_val(s[5])), parse_string_body(s.skip(6)))
        } else {
            None
        }
    } else if (s[0] as u32) < 32 || (s[0] as u32) == 127 {
        None
    } else {
        cons_parsed(s[0], parse_string_body(s.skip(1)))
    }
}

pub proof fn lemma_parse_string_body_len(s: Seq<char>)
    ensures
        parse_string_body(s) matches Some(p) ==> p.1.len() < s.len(),
    decreases s.len(),
{
    if s.len() == 0 {
    } else if s[0] == '"' {
    } else if s[0] == '\\' {
        if s.len() >= 2 {
            lemma_parse_string_body_len(s.skip(2));
        }
        if s.len() >= 6 {
            lemma_parse_string_body_len(s.skip(6));
        }
    } else {
        lemma_parse_string_body_len(s.skip(1));
    }
}

/// Parses a non-empty comma-separated list of quoted strings closed by the
/// exact suffix `]}`, consuming the whole sequence.
pub open spec fn parse_items(s: Seq<char>) -> Option<Seq<Seq<char>>>
    decreases s.len(),
    via parse_items_decreases
{
    if s.len() >= 1 && s[0] == '"' {
        match parse_string_body(s.skip(1)) {
            Some(p) => {
                if p.1 == seq![']', '}'] {
                    Some(seq![p.0])
                } else if p.1.len() >= 1 && p.1[0] == ',' {
                    match parse_items(p.1.skip(1)) {
                        Some(ts) => Some(seq![p.0] + ts),
                        None => None,
                    }
                } else {
                    None
                }
            },
            None => None,
        }
    } else {
        None
    }
}

#[via_fn]
proof fn parse_items_decreases(s: Seq<char>) {
    if s.len() >= 1 && s[0] == '"' {
        lemma_parse_string_body_len(s.skip(1));
    }
}

pub open spec fn doc_header() -> Seq<char> {
    seq!['{', '"', 'd', 'a', 't', 'a', '"', ':', '[']
}

/// Parses the whole document: the strings under the `"data"` field.
pub open spec fn parse_doc(s: Seq<char>) -> Option<Seq<Seq<char>>> {
    if s.len() >= 11 && s.take(9) == doc_header() {
        if s.skip(9) == seq![']', '}'] {
            Some(Seq::empty())
        } else {
            parse_items(s.skip(9))
        }
    } else {
        None
    }
}

/// Unescaping undoes escaping: the body parser consumes an escaped string
/// and its closing quote and hands back the original string.
pub proof fn lemma_parse_escaped(x: Seq<char>, rest: Seq<char>)
    ensures
        parse_string_body(esc(x) + seq!['"'] + rest) == Some((x, rest)),
    decreases x.len(),
{
    let u = esc(x) + seq!['"'] + rest;
    if x.len() == 0 {
        assert(u =~= seq!['"'] + rest);
        assert(u[0] == '"');
        assert(u.skip(1) =~= rest);
        assert(Seq::<char>::empty() =~= x);
    } else {
        let c = x[0];
        let e = esc_char(c);
        let x1 = x.skip(1);
        let tail = esc(x1) + seq!['"'] + rest;
        assert(esc(x) == e + esc(x1));
        assert(u =~= e + tail);
        lemma_parse_escaped(x1, rest);
        if c == '"' {
            assert(e =~= seq!['\\', '"']);
            assert(u[0] == '\\' && u[1] == '"');
            assert(u.skip(2) =~= tail);
            assert(parse_string_body(u) == cons_parsed('"', Some((x1, rest))));
            assert(seq!['"'] + x1 =~= x);
        } else if c == '\\' {
            assert(e =~= seq!['\\', '\\']);
            assert(u[0] == '\\' && u[1] == '\\');
            assert(u.skip(2) =~= tail);
            assert(parse_string_body(u) == cons_parsed('\\', Some((x1, rest))));
            assert(seq!['\\'] + x1 =~= x);
        } else if (c as u32) < 32 || (c as u32) == 127 {
            let v = (c as u32) as int;
            assert(0 <= v < 128);
            assert(e =~= seq!['\\', 'u', '0', '0', hex_char(v / 16), hex_char(v % 16)]);
            assert(u.len() >= 6);
            assert(u[0] == '\\' && u[1] == 'u' && u[2] == '0' && u[3] == '0');
            assert(u[4] == hex_char(v / 16) && u[5] == hex_char(v % 16));
            lemma_hex_inverse(v / 16);
            lemma_hex_inverse(v % 16);
            assert(hex_val(u[4]) * 16 + hex_val(u[5]) == v);
            lemma_char_of_inverse(c);
            assert(u[1] != '"' && u[1] != '\\');
            assert(u.skip(6) =~= tail);
            assert(parse_string_body(u) == cons_parsed(c, Some((x1, rest))));
            assert(seq![c] + x1 =~= x);
        } else {
            assert(e =~= seq![c]);
            assert(u[0] == c);
            assert(c != '"' && c != '\\');
            assert(u.skip(1) =~= tail);
            assert(parse_string_body(u) == cons_parsed(c, Some((x1, rest))));
            assert(seq![c] + x1 =~= x);
        }
    }
}

/// The list parser undoes the serialization of a non-empty item list.
pub proof fn lemma_parse_items_round(d: Seq<Seq<char>>)
    requires
        d.len() >= 1,
    ensures
        parse_items(items_text(d, seq![',']) + seq![']', '}']) == Some(d),
    decreases d.len(),
{
    let sep = seq![','];
    let u = items_text(d, sep) + seq![']', '}'];
    if d.len() == 1 {
        assert(items_text(d, sep) == quoted(d[0]));
        assert(u =~= seq!['"'] + (esc(d[0]) + seq!['"'] + seq![']', '}']));
        assert(u[0] == '"');
        assert(u.skip(1) =~= esc(d[0]) + seq!['"'] + seq![']', '}']);
        lemma_parse_escaped(d[0], seq![']', '}']);
        assert(parse_items(u) == Some(seq![d[0]]));
        assert(seq![d[0]] =~= d);
    } else {
        let d1 = d.skip(1);
        let rest = sep + items_text(d1, sep) + seq![']', '}'];
        assert(items_text(d, sep) == quoted(d[0]) + sep + items_text(d1, sep));
        assert(u =~= seq!['"'] + (esc(d[0]) + seq!['"'] + rest));
        assert(u[0] == '"');
        assert(u.skip(1) =~= esc(d[0]) + seq!['"'] + rest);
        lemma_parse_escaped(d[0], rest);
        assert(parse_string_body(u.skip(1)) == Some((d[0], rest)));
        assert(rest[0] == ',');
        assert(rest.len() >= 3);
        assert(rest != seq![']', '}']);
        assert(rest.skip(1) =~= items_text(d1, sep) + seq![']', '}']);
        lemma_parse_items_round(d1);
        assert(parse_items(u) == Some(seq![d[0]] + d1));
        assert(seq![d[0]] + d1 =~= d);
    }
}

/// Round trip: parsing the JSON serialization of any item list yields
/// exactly that list.
pub proof fn lemma_json_round_trip(d: Seq<Seq<char>>)
    ensures
        parse_doc(json_text(d)) == Some(d),
{
    let u = json_text(d);
    let sep = seq![','];
    if d.len() == 0 {
        assert(items_text(d, sep) == Seq::<char>::empty());
        assert(u =~= doc_header() + seq![']', '}']);
        assert(u.len() == 11);
        assert(u.take(9) =~= doc_header());
        assert(u.skip(9) =~= seq![']', '}']);
        assert(parse_doc(u) == Some(Seq::<Seq<char>>::empty()));
        assert(Seq::<Seq<char>>::empty() =~= d);
    } else {
        assert(u =~= doc_header() + (items_text(d, sep) + seq![']', '}']));
        assert(u.take(9) =~= doc_header());
        assert(u.skip(9) =~= items_text(d, sep) + seq![']', '}']);
        lemma_parse_items_round(d);
        assert(items_text(d, sep).len() >= 2);
        assert(u.len() >= 13);
        assert(u.skip(9)[0] == '"');
        assert(u.skip(9) != seq![']', '}']);
        assert(parse_doc(u) == Some(d));
    }
}

/// The value of a lowercase hex digit character, or None for any other
/// character.
fn hex_val_exec(c: char) -> (r: Option<u32>)
    ensures
        r matches Some(v) ==> is_hex_digit(c) && hex_val(c) == v as int && v < 16,
        r is None ==> !is_hex_digit(c),
{
    let v: u32 = if c == '0' {
        0
    } else if c == '1' {
        1
    } else if c == '2' {
        2
    } else if c == '3' {
        3
    } else if c == '4' {
        4
    } else if c == '5' {
        5
    } else if c == '6' {
        6
    } else if c == '7' {
        7
    } else if c == '8' {
        8
    } else if c == '9' {
        9
    } else if c == 'a' {
        10
    } else if c == 'b' {
        11
    } else if c == 'c' {
        12
    } else if c == 'd' {
        13
    } else if c == 'e' {
        14
    } else if c == 'f' {
        15
    } else {
        proof {
            assert forall|w: int| 0 <= w < 16 implies hex_char(w) != c by {}
            assert(!is_hex_digit(c));
        }
        return None;
    };
    proof {
        assert(c == hex_char(v as int));
        lemma_hex_inverse(v as int);
    }
    Some(v)
}

/// The exec side of `parse_string_body`, from position `i`; on success the
/// unescaped content and the position just past the closing quote.
fn parse_string_body_exec(s: &str, i: usize) -> (r: Option<(String, usize)>)
    requires
        i <= s@.len(),
    ensures
        r matches Some(p) ==> i < p.1 <= s@.len() && parse_string_body(s@.skip(i as int)) == Some(
            (p.0@, s@.skip(p.1 as int)),
        ),
        r is None ==> parse_string_body(s@.skip(i as int)) is None,
    decreases s@.len() - i,
{
    let n = s.unicode_len();
    let ghost t = s@.skip(i as int);
    if i == n {
        return None;
    }
    let c0 = s.get_char(i);
    proof {
        assert(t[0] == s@[i as int]);
    }
    if c0 == '"' {
        proof {
            assert(t.skip(1) =~= s@.skip(i + 1 as int));
        }
        return Some((String::new(), i + 1));
    }
    if c0 == '\\' {
        if i + 1 == n {
            return None;
        }
        let c1 = s.get_char(i + 1);
        proof {
            assert(t[1] == s@[i + 1 as int]);
        }
        if c1 == '"' || c1 == '\\' {
            proof {
                assert(t.skip(2) =~= s@.skip(i + 2 as int));
            }
            match parse_string_body_exec(s, i + 2) {
                Some((tail, j)) => {
                    let mut content = String::new();
                    content.push(c1);
                    content.append(tail.as_str());
                    proof {
                        assert(content@ =~= seq![c1] + tail@);
                    }
                    return Some((content, j));
                },
                None => {
                    return None;
                },
            }
        }
        if c1 == 'u' && n - i >= 6 {
            let c2 = s.get_char(i + 2);
            let c3 = s.get_char(i + 3);
            let c4 = s.get_char(i + 4);
            let c5 = s.get_char(i + 5);
            proof {
                assert(t.len() >= 6);
                assert(t[2] == s@[i + 2 as int]);
                assert(t[3] == s@[i + 3 as int]);
                assert(t[4] == s@[i + 4 as int]);
                assert(t[5] == s@[i + 5 as int]);
            }
            if c2 == '0' && c3 == '0' {
                let h1 = hex_val_exec(c4);
                let h2 = hex_val_exec(c5);
                match (h1, h2) {
                    (Some(v1), Some(v2)) => {
                        let v = v1 * 16 + v2;
                        if v < 32 || v == 127 {
                            proof {
                                assert(t.skip(6) =~= s@.skip(i + 6 as int));
                            }
                            match parse_string_body_exec(s, i + 6) {
                                Some((tail, j)) => {
                                    let c = (v as u8) as char;
                                    proof {
                                        assert(c == char_of(v as int));
                                    }
                                    let mut content = String::new();
                                    content.push(c);
                                    content.append(tail.as_str());
                                    proof {
                                        assert(content@ =~= seq![c] + tail@);
                                    }
                                    return Some((content, j));
                                },
                                None => {
                                    return None;
                                },
                            }
                        } else {
                            return None;
                        }
                    },
                    _ => {
                        return None;
                    },
                }
            } else {
                return None;
            }
        } else {
            return None;
        }
    }
    if (c0 as u32) < 32 || (c0 as u32) == 127 {
        return None;
    }
    proof {
        assert(t.skip(1) =~= s@.skip(i + 1 as int));
    }
    match parse_string_body_exec(s, i + 1) {
        Some((tail, j)) => {
            let mut content = String::new();
            content.push(c0);
            content.append(tail.as_str());
            proof {
                assert(content@ =~= seq![c0] + tail@);
            }
            Some((content, j))
        },
        None => None,
    }
}

/// The exec side of `parse_items`, from position `i`: on success the parsed
/// strings are appended to `out` in order.
fn parse_items_into(s: &str, i: usize, out: &mut Vec<String>) -> (ok: bool)
    requires
        i <= s@.len(),
    ensures
        ok ==> (parse_items(s@.skip(i as int)) matches Some(d) && final(out).deep_view() == old(
            out,
        ).deep_view() + d),
        !ok ==> parse_items(s@.skip(i as int)) is None,
    decreases s@.len() - i,
{
    let n = s.unicode_len();
    let ghost t = s@.skip(i as int);
    if i == n {
        return false;
    }
    let c0 = s.get_char(i);
    proof {
        assert(t[0] == s@[i as int]);
    }
    if c0 != '"' {
        return false;
    }
    proof {
        assert(t.skip(1) =~= s@.skip(i + 1 as int));
    }
    match parse_string_body_exec(s, i + 1) {
        None => false,
        Some((item, j)) => {
            let ghost rem = s@.skip(j as int);
            let ghost item_view = item@;
            if n - j == 2 && s.get_char(j) == ']' && s.get_char(j + 1) == '}' {
                proof {
                    assert(rem.len() == 2);
                    assert(rem[0] == s@[j as int]);
                    assert(rem[1] == s@[j + 1 as int]);
                    assert(rem =~= seq![']', '}']);
                }
                out.push(item);
                proof {
                    assert(parse_items(t) == Some(seq![item_view]));
                    assert(out.deep_view() =~= old(out).deep_view() + seq![item_view]);
                }
                true
            } else if j < n && s.get_char(j) == ',' {
                proof {
                    assert(rem[0] == s@[j as int]);
                    assert(rem.len() >= 1);
                    assert(rem != seq![']', '}']);
                    assert(rem.skip(1) =~= s@.skip(j + 1 as int));
                }
                out.push(item);
                let ghost mid = out.deep_view();
                proof {
                    assert(mid =~= old(out).deep_view() + seq![item_view]);
                }
                let ok = parse_items_into(s, j + 1, out);
                proof {
                    if ok {
                        let d1 = parse_items(s@.skip(j + 1 as int))->Some_0;
                        assert(parse_items(t) == Some(seq![item_view] + d1));
                        assert(out.deep_view() =~= old(out).deep_view() + (seq![item_view] + d1));
                    } else {
                        assert(parse_items(t) is None);
                    }
                }
                ok
            } else {
                proof {
                    if rem == seq![']', '}'] {
                        assert(rem.len() == 2);
                        assert(s@[j as int] == ']' && s@[j + 1 as int] == '}');
                        assert(false);
                    }
                    assert(parse_items(t) is None);
                }
                false
            }
        },
    }
}

/// Parses the library's own JSON serialization: the strings under the
/// `"data"` field of a compact `{"data":[...]}` document.
pub fn parse_json_data(s: &str) -> (r: Option<Vec<String>>)
    ensures
        parse_doc(s@) matches Some(d) ==> r matches Some(v) && v.deep_view() == d,
        parse_doc(s@) is None ==> r is None,
{
    let n = s.unicode_len();
    if n < 11 {
        return None;
    }
    if s.get_char(0) != '{' || s.get_char(1) != '"' || s.get_char(2) != 'd' || s.get_char(3) != 'a'
        || s.get_char(4) != 't' || s.get_char(5) != 'a' || s.get_char(6) != '"' || s.get_char(7)
        != ':' || s.get_char(8) != '[' {
        proof {
            assert(s@.take(9) != doc_header());
        }
        return None;
    }
    proof {
        assert(s@.take(9) =~= doc_header());
    }
    if n == 11 && s.get_char(9) == ']' && s.get_char(10) == '}' {
        proof {
            assert(s@.skip(9) =~= seq![']', '}']);
        }
        let v: Vec<String> = Vec::new();
        proof {
            assert(v.deep_view() =~= Seq::<Seq<char>>::empty());
        }
        return Some(v);
    }
    proof {
        if s@.skip(9) == seq![']', '}'] {
            assert(s@.len() == 11);
            assert(s@[9] == ']' && s@[10] == '}');
            assert(false);
        }
    }
    let mut v: Vec<String> = Vec::new();
    if parse_items_into(s, 9, &mut v) {
        proof {
            let d = parse_items(s@.skip(9))->Some_0;
            assert(v.deep_view() =~= Seq::<Seq<char>>::empty() + d);
            assert(v.deep_view() =~= d);
        }
        Some(v)
    } else {
        None
    }
}

} // verus!
