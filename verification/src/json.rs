use vstd::prelude::*;
use crate::text::{chars_of, string_from_chars};

verus! {

// ------------------------------------------------------------------
// Models
// ------------------------------------------------------------------
/// One translated segment, at the specification level.
pub struct SpecPair {
    pub src: Seq<char>,
    pub dst: Seq<char>,
}

/// The provider's response envelope, at the specification level.
pub struct SpecEnvelope {
    pub from: Seq<char>,
    pub to: Seq<char>,
    pub trans_result: Seq<SpecPair>,
    pub error_code: Option<Seq<char>>,
    pub error_msg: Option<Seq<char>>,
}

/// One translated segment: the echoed source and its translation.
#[derive(Debug, Clone)]
pub struct TransPair {
    pub src: String,
    pub dst: String,
}

impl View for TransPair {
    type V = SpecPair;

    open spec fn view(&self) -> SpecPair {
        SpecPair { src: self.src@, dst: self.dst@ }
    }
}

/// The provider's response envelope: `from`, `to` and `trans_result` are
/// required, the error fields appear only in provider error responses.
#[derive(Debug)]
pub struct Envelope {
    pub from: String,
    pub to: String,
    pub trans_result: Vec<TransPair>,
    pub error_code: Option<String>,
    pub error_msg: Option<String>,
}

impl View for Envelope {
    type V = SpecEnvelope;

    open spec fn view(&self) -> SpecEnvelope {
        SpecEnvelope {
            from: self.from@,
            to: self.to@,
            trans_result: Seq::new(self.trans_result@.len(), |i: int| self.trans_result@[i]@),
            error_code: match self.error_code {
                Some(s) => Some(s@),
                None => None,
            },
            error_msg: match self.error_msg {
                Some(s) => Some(s@),
                None => None,
            },
        }
    }
}

// ------------------------------------------------------------------
// The grammar, as specification-level parsing functions. Each takes the
// input and a position and yields the parsed value with the position just
// after it, or nothing when the input does not match.
// ------------------------------------------------------------------
/// The whitespace the grammar allows between tokens.
pub open spec fn spec_is_json_ws(c: char) -> bool {
    c == ' ' || c == '\t' || c == '\n' || c == '\r'
}

fn is_json_ws(c: char) -> (r: bool)
    ensures
        r == spec_is_json_ws(c),
{
    c == ' ' || c == '\t' || c == '\n' || c == '\r'
}

/// First position at or after `i` holding no whitespace.
pub open spec fn spec_skip_ws(s: Seq<char>, i: int) -> int
    decreases s.len() - i when 0 <= i <= s.len()
{
    if i < s.len() && spec_is_json_ws(s[i]) {
        spec_skip_ws(s, i + 1)
    } else {
        i
    }
}

/// The character a single-character escape sequence `\c` stands for;
/// `\u` escapes are handled separately.
pub open spec fn spec_unescape(c: char) -> Option<char> {
    if c == '"' {
        Some('"')
    } else if c == '\\' {
        Some('\\')
    } else if c == '/' {
        Some('/')
    } else if c == 'n' {
        Some('\n')
    } else if c == 't' {
        Some('\t')
    } else if c == 'r' {
        Some('\r')
    } else if c == 'b' {
        Some('\u{8}')
    } else if c == 'f' {
        Some('\u{c}')
    } else {
        None
    }
}

/// The numeric value of one hexadecimal digit character, either case.
pub open spec fn spec_hex_val(c: char) -> Option<int> {
    if '0' <= c && c <= '9' {
        Some((c as int) - 48)
    } else if 'a' <= c && c <= 'f' {
        Some((c as int) - 87)
    } else if 'A' <= c && c <= 'F' {
        Some((c as int) - 55)
    } else {
        None
    }
}

/// The value named by the four hexadecimal digits of a `\uXXXX` escape.
pub open spec fn spec_u_val(a: char, b: char, c: char, d: char) -> Option<int> {
    match (spec_hex_val(a), spec_hex_val(b), spec_hex_val(c), spec_hex_val(d)) {
        (Some(h0), Some(h1), Some(h2), Some(h3)) => Some(h0 * 4096 + h1 * 256 + h2 * 16 + h3),
        _ => None,
    }
}

/// The remainder of a quoted string once the opening quote is consumed:
/// characters collect into `acc` until the closing quote.
pub open spec fn spec_string_body(s: Seq<char>, i: int, acc: Seq<char>) -> Option<(Seq<char>, int)>
    decreases s.len() - i when 0 <= i <= s.len()
{
    if i >= s.len() {
        None
    } else if s[i] == '"' {
        Some((acc, i + 1))
    } else if s[i] == '\\' {
        if i + 1 < s.len() {
            if s[i + 1] == 'u' {
                if i + 5 < s.len() {
                    match spec_u_val(s[i + 2], s[i + 3], s[i + 4], s[i + 5]) {
                        Some(code) => if code < 0xD800 || code >= 0xE000 {
                            // A basic-plane code point.
                            spec_string_body(s, i + 6, acc.push(code as char))
                        } else if code < 0xDC00 {
                            // A high surrogate: a low surrogate escape must
                            // follow, and the pair names one character.
                            if i + 11 < s.len() && s[i + 6] == '\\' && s[i + 7] == 'u' {
                                match spec_u_val(s[i + 8], s[i + 9], s[i + 10], s[i + 11]) {
                                    Some(lo) => if 0xDC00 <= lo && lo < 0xE000 {
                                        spec_string_body(
                                            s,
                                            i + 12,
                                            acc.push(
                                                (0x10000 + (code - 0xD800) * 1024 + (lo
                                                    - 0xDC00)) as char,
                                            ),
                                        )
                                    } else {
                                        None
                                    },
                                    None => None,
                                }
                            } else {
                                None
                            }
                        } else {
                            // A lone low surrogate names no character.
                            None
                        },
                        None => None,
                    }
                } else {
                    None
                }
            } else {
                match spec_unescape(s[i + 1]) {
                    Some(c) => spec_string_body(s, i + 2, acc.push(c)),
                    None => None,
                }
            }
        } else {
            None
        }
    } else {
        spec_string_body(s, i + 1, acc.push(s[i]))
    }
}

/// A quoted string starting exactly at `i`.
pub open spec fn spec_string(s: Seq<char>, i: int) -> Option<(Seq<char>, int)> {
    if 0 <= i < s.len() && s[i] == '"' {
        spec_string_body(s, i + 1, Seq::empty())
    } else {
        None
    }
}

/// The members of one `{src, dst}` object, keys in either order, each
/// exactly once, starting after the opening brace.
pub open spec fn spec_pair_members(
    s: Seq<char>,
    i: int,
    src: Option<Seq<char>>,
    dst: Option<Seq<char>>,
) -> Option<(SpecPair, int)>
    decreases s.len() - i when 0 <= i <= s.len()
{
    let k = spec_skip_ws(s, i);
    match spec_string(s, k) {
        None => None,
        Some((key, j1)) => {
            let j2 = spec_skip_ws(s, j1);
            if j2 < s.len() && s[j2] == ':' {
                let j3 = spec_skip_ws(s, j2 + 1);
                let parsed: Option<(Option<Seq<char>>, Option<Seq<char>>, int)> = if key
                    == "src"@ {
                    if src is Some {
                        None
                    } else {
                        match spec_string(s, j3) {
                            Some((v, j4)) => Some((Some(v), dst, j4)),
                            None => None,
                        }
                    }
                } else if key == "dst"@ {
                    if dst is Some {
                        None
                    } else {
                        match spec_string(s, j3) {
                            Some((v, j4)) => Some((src, Some(v), j4)),
                            None => None,
                        }
                    }
                } else {
                    None
                };
                match parsed {
                    None => None,
                    Some((src2, dst2, j4)) => {
                        let j5 = spec_skip_ws(s, j4);
                        if j5 < s.len() && s[j5] == ',' {
                            if i < j5 + 1 <= s.len() {
                                spec_pair_members(s, j5 + 1, src2, dst2)
                            } else {
                                None
                            }
                        } else if j5 < s.len() && s[j5] == '}' {
                            match (src2, dst2) {
                                (Some(a), Some(b)) => Some((SpecPair { src: a, dst: b }, j5 + 1)),
                                _ => None,
                            }
                        } else {
                            None
                        }
                    },
                }
            } else {
                None
            }
        },
    }
}

/// The elements of a non-empty `trans_result` array: `{src, dst}` objects
/// separated by commas, up to the closing bracket.
pub open spec fn spec_items(s: Seq<char>, i: int, acc: Seq<SpecPair>) -> Option<
    (Seq<SpecPair>, int),
>
    decreases s.len() - i when 0 <= i <= s.len()
{
    let k = spec_skip_ws(s, i);
    if k < s.len() && s[k] == '{' {
        match spec_pair_members(s, k + 1, None, None) {
            None => None,
            Some((p, j)) => {
                let j2 = spec_skip_ws(s, j);
                if j2 < s.len() && s[j2] == ',' {
                    if i < j2 + 1 <= s.len() {
                        spec_items(s, j2 + 1, acc.push(p))
                    } else {
                        None
                    }
                } else if j2 < s.len() && s[j2] == ']' {
                    Some((acc.push(p), j2 + 1))
                } else {
                    None
                }
            },
        }
    } else {
        None
    }
}

/// A `trans_result` array starting exactly at `i`.
pub open spec fn spec_array(s: Seq<char>, i: int) -> Option<(Seq<SpecPair>, int)> {
    if 0 <= i < s.len() && s[i] == '[' {
        let k = spec_skip_ws(s, i + 1);
        if k < s.len() && s[k] == ']' {
            Some((Seq::empty(), k + 1))
        } else {
            spec_items(s, i + 1, Seq::empty())
        }
    } else {
        None
    }
}

/// Fields gathered while reading the envelope's members.
pub struct SpecAcc {
    pub from: Option<Seq<char>>,
    pub to: Option<Seq<char>>,
    pub tr: Option<Seq<SpecPair>>,
    pub ec: Option<Seq<char>>,
    pub em: Option<Seq<char>>,
}

/// The members of the envelope object, in any order, each at most once:
/// string fields `from`, `to`, `error_code`, `error_msg` and the array
/// `trans_result`. Any other key is not part of the grammar.
pub open spec fn spec_members(s: Seq<char>, i: int, acc: SpecAcc) -> Option<(SpecAcc, int)>
    decreases s.len() - i when 0 <= i <= s.len()
{
    let k = spec_skip_ws(s, i);
    match spec_string(s, k) {
        None => None,
        Some((key, j1)) => {
            let j2 = spec_skip_ws(s, j1);
            if j2 < s.len() && s[j2] == ':' {
                let j3 = spec_skip_ws(s, j2 + 1);
                let parsed: Option<(SpecAcc, int)> = if key == "from"@ {
                    if acc.from is Some {
                        None
                    } else {
                        match spec_string(s, j3) {
                            Some((v, j4)) => Some((SpecAcc { from: Some(v), ..acc }, j4)),
                            None => None,
                        }
                    }
                } else if key == "to"@ {
                    if acc.to is Some {
                        None
                    } else {
                        match spec_string(s, j3) {
                            Some((v, j4)) => Some((SpecAcc { to: Some(v), ..acc }, j4)),
                            None => None,
                        }
                    }
                } else if key == "error_code"@ {
                    if acc.ec is Some {
                        None
                    } else {
                        match spec_string(s, j3) {
                            Some((v, j4)) => Some((SpecAcc { ec: Some(v), ..acc }, j4)),
                            None => None,
                        }
                    }
                } else if key == "error_msg"@ {
                    if acc.em is Some {
                        None
                    } else {
                        match spec_string(s, j3) {
                            Some((v, j4)) => Some((SpecAcc { em: Some(v), ..acc }, j4)),
                            None => None,
                        }
                    }
                } else if key == "trans_result"@ {
                    if acc.tr is Some {
                        None
                    } else {
                        match spec_array(s, j3) {
                            Some((a, j4)) => Some((SpecAcc { tr: Some(a), ..acc }, j4)),
                            None => None,
                        }
                    }
                } else {
                    None
                };
                match parsed {
                    None => None,
                    Some((acc2, j4)) => {
                        let j5 = spec_skip_ws(s, j4);
                        if j5 < s.len() && s[j5] == ',' {
                            if i < j5 + 1 <= s.len() {
                                spec_members(s, j5 + 1, acc2)
                            } else {
                                None
                            }
                        } else if j5 < s.len() && s[j5] == '}' {
                            Some((acc2, j5 + 1))
                        } else {
                            None
                        }
                    },
                }
            } else {
                None
            }
        },
    }
}

/// The whole envelope: one object covering the entire input (whitespace
/// around it allowed), with `from`, `to` and `trans_result` all present.
pub open spec fn spec_envelope(s: Seq<char>) -> Option<SpecEnvelope> {
    let i = spec_skip_ws(s, 0);
    if i < s.len() && s[i] == '{' {
        match spec_members(
            s,
            i + 1,
            SpecAcc { from: None, to: None, tr: None, ec: None, em: None },
        ) {
            None => None,
            Some((acc, j)) => {
                if spec_skip_ws(s, j) == s.len() {
                    match (acc.from, acc.to, acc.tr) {
                        (Some(f), Some(t), Some(a)) => Some(
                            SpecEnvelope {
                                from: f,
                                to: t,
                                trans_result: a,
                                error_code: acc.ec,
                                error_msg: acc.em,
                            },
                        ),
                        _ => None,
                    }
                } else {
                    None
                }
            },
        }
    } else {
        None
    }
}

// ------------------------------------------------------------------
// The executable parser; each function returns exactly what its
// specification-level counterpart says.
// ------------------------------------------------------------------
fn skip_ws(v: &Vec<char>, i: usize) -> (r: usize)
    requires
        i <= v@.len(),
    ensures
        r as int == spec_skip_ws(v@, i as int),
        i <= r <= v@.len(),
    decreases v@.len() - i,
{
    if i < v.len() && is_json_ws(v[i]) {
        skip_ws(v, i + 1)
    } else {
        i
    }
}

fn unescape(c: char) -> (r: Option<char>)
    ensures
        r == spec_unescape(c),
{
    if c == '"' {
        Some('"')
    } else if c == '\\' {
        Some('\\')
    } else if c == '/' {
        Some('/')
    } else if c == 'n' {
        Some('\n')
    } else if c == 't' {
        Some('\t')
    } else if c == 'r' {
        Some('\r')
    } else if c == 'b' {
        Some('\u{8}')
    } else if c == 'f' {
        Some('\u{c}')
    } else {
        None
    }
}

fn hex_val(c: char) -> (r: Option<u8>)
    ensures
        match r {
            Some(d) => spec_hex_val(c) == Some(d as int) && d < 16,
            None => spec_hex_val(c) is None,
        },
{
    match c {
        '0' => Some(0),
        '1' => Some(1),
        '2' => Some(2),
        '3' => Some(3),
        '4' => Some(4),
        '5' => Some(5),
        '6' => Some(6),
        '7' => Some(7),
        '8' => Some(8),
        '9' => Some(9),
        'a' => Some(10),
        'b' => Some(11),
        'c' => Some(12),
        'd' => Some(13),
        'e' => Some(14),
        'f' => Some(15),
        'A' => Some(10),
        'B' => Some(11),
        'C' => Some(12),
        'D' => Some(13),
        'E' => Some(14),
        'F' => Some(15),
        _ => None,
    }
}

/// Relies on `char::from_u32`: it returns the character with the given code
/// point, and nothing exactly for surrogate code points and values beyond
/// the largest code point.
pub assume_specification[ char::from_u32 ](n: u32) -> (r: Option<char>)
    ensures
        r == (if n < 0xD800 || (0xE000 <= n && n <= 0x10FFFF) {
            Some(n as char)
        } else {
            None::<char>
        }),
;

fn u_val(a: char, b: char, c: char, d: char) -> (r: Option<u32>)
    ensures
        match r {
            Some(x) => spec_u_val(a, b, c, d) == Some(x as int) && x < 0x10000,
            None => spec_u_val(a, b, c, d) is None,
        },
{
    match (hex_val(a), hex_val(b), hex_val(c), hex_val(d)) {
        (Some(h0), Some(h1), Some(h2), Some(h3)) => Some(
            (h0 as u32) * 4096 + (h1 as u32) * 256 + (h2 as u32) * 16 + (h3 as u32),
        ),
        _ => None,
    }
}

fn parse_string_body(v: &Vec<char>, i: usize, acc: Vec<char>) -> (r: Option<(Vec<char>, usize)>)
    requires
        i <= v@.len(),
    ensures
        match r {
            Some((t, j)) => spec_string_body(v@, i as int, acc@) == Some((t@, j as int)) && i < j
                <= v@.len(),
            None => spec_string_body(v@, i as int, acc@) is None,
        },
    decreases v@.len() - i,
{
    let mut acc = acc;
    if i >= v.len() {
        None
    } else {
        let c = v[i];
        if c == '"' {
            Some((acc, i + 1))
        } else if c == '\\' {
            if i + 1 < v.len() {
                if v[i + 1] == 'u' {
                    if v.len() - i > 5 {
                        match u_val(v[i + 2], v[i + 3], v[i + 4], v[i + 5]) {
                            Some(code) => {
                                if code < 0xD800 || code >= 0xE000 {
                                    match char::from_u32(code) {
                                        Some(e) => {
                                            acc.push(e);
                                            parse_string_body(v, i + 6, acc)
                                        },
                                        None => {
                                            proof {
                                                assert(false);
                                            }
                                            None
                                        },
                                    }
                                } else if code < 0xDC00 {
                                    if v.len() - i > 11 && v[i + 6] == '\\' && v[i + 7] == 'u' {
                                        match u_val(v[i + 8], v[i + 9], v[i + 10], v[i + 11]) {
                                            Some(lo) => {
                                                if 0xDC00 <= lo && lo < 0xE000 {
                                                    let combined: u32 = 0x10000 + (code - 0xD800)
                                                        * 1024 + (lo - 0xDC00);
                                                    match char::from_u32(combined) {
                                                        Some(e) => {
                                                            acc.push(e);
                                                            parse_string_body(v, i + 12, acc)
                                                        },
                                                        None => {
                                                            proof {
                                                                assert(false);
                                                            }
                                                            None
                                                        },
                                                    }
                                                } else {
                                                    None
                                                }
                                            },
                                            None => None,
                                        }
                                    } else {
                                        None
                                    }
                                } else {
                                    None
                                }
                            },
                            None => None,
                        }
                    } else {
                        None
                    }
                } else {
                    match unescape(v[i + 1]) {
                        Some(e) => {
                            acc.push(e);
                            parse_string_body(v, i + 2, acc)
                        },
                        None => None,
                    }
                }
            } else {
                None
            }
        } else {
            acc.push(c);
            parse_string_body(v, i + 1, acc)
        }
    }
}

fn parse_string(v: &Vec<char>, i: usize) -> (r: Option<(Vec<char>, usize)>)
    requires
        i <= v@.len(),
    ensures
        match r {
            Some((t, j)) => spec_string(v@, i as int) == Some((t@, j as int)) && i < j <= v@.len(),
            None => spec_string(v@, i as int) is None,
        },
{
    if i < v.len() && v[i] == '"' {
        parse_string_body(v, i + 1, Vec::new())
    } else {
        None
    }
}

/// One `{src, dst}` object's members, mirroring `spec_pair_members`.
fn parse_pair_members(
    v: &Vec<char>,
    i: usize,
    src: Option<Vec<char>>,
    dst: Option<Vec<char>>,
) -> (r: Option<(TransPair, usize)>)
    requires
        i <= v@.len(),
    ensures
        match r {
            Some((p, j)) => spec_pair_members(v@, i as int, opt_chars_view(src), opt_chars_view(dst))
                == Some((p@, j as int)) && i < j <= v@.len(),
            None => spec_pair_members(v@, i as int, opt_chars_view(src), opt_chars_view(dst)) is None,
        },
    decreases v@.len() - i,
{
    let k = skip_ws(v, i);
    match parse_string(v, k) {
        None => None,
        Some((key, j1)) => {
            let j2 = skip_ws(v, j1);
            if j2 < v.len() && v[j2] == ':' {
                let j3 = skip_ws(v, j2 + 1);
                let parsed: Option<(Option<Vec<char>>, Option<Vec<char>>, usize)> = if
                crate::text::chars_eq_str(&key, "src") {
                    if src.is_some() {
                        None
                    } else {
                        match parse_string(v, j3) {
                            Some((val, j4)) => Some((Some(val), dst, j4)),
                            None => None,
                        }
                    }
                } else if crate::text::chars_eq_str(&key, "dst") {
                    if dst.is_some() {
                        None
                    } else {
                        match parse_string(v, j3) {
                            Some((val, j4)) => Some((src, Some(val), j4)),
                            None => None,
                        }
                    }
                } else {
                    None
                };
                match parsed {
                    None => None,
                    Some((src2, dst2, j4)) => {
                        let j5 = skip_ws(v, j4);
                        if j5 < v.len() && v[j5] == ',' {
                            parse_pair_members(v, j5 + 1, src2, dst2)
                        } else if j5 < v.len() && v[j5] == '}' {
                            match (src2, dst2) {
                                (Some(a), Some(b)) => Some(
                                    (
                                        TransPair {
                                            src: string_from_chars(a),
                                            dst: string_from_chars(b),
                                        },
                                        j5 + 1,
                                    ),
                                ),
                                _ => None,
                            }
                        } else {
                            None
                        }
                    },
                }
            } else {
                None
            }
        },
    }
}

/// The view of an optional character buffer.
pub open spec fn opt_chars_view(o: Option<Vec<char>>) -> Option<Seq<char>> {
    match o {
        Some(v) => Some(v@),
        None => None,
    }
}

/// The elements of a non-empty array, mirroring `spec_items`.
fn parse_items(v: &Vec<char>, i: usize, acc: Vec<TransPair>) -> (r: Option<(Vec<TransPair>, usize)>)
    requires
        i <= v@.len(),
    ensures
        match r {
            Some((a, j)) => spec_items(v@, i as int, pairs_view(acc@)) == Some(
                (pairs_view(a@), j as int),
            ) && i < j <= v@.len(),
            None => spec_items(v@, i as int, pairs_view(acc@)) is None,
        },
    decreases v@.len() - i,
{
    let mut acc = acc;
    let k = skip_ws(v, i);
    if k < v.len() && v[k] == '{' {
        match parse_pair_members(v, k + 1, None, None) {
            None => None,
            Some((p, j)) => {
                let j2 = skip_ws(v, j);
                if j2 < v.len() && v[j2] == ',' {
                    let ghost prev = acc@;
                    acc.push(p);
                    proof {
                        assert(pairs_view(acc@) =~= pairs_view(prev).push(p@));
                    }
                    parse_items(v, j2 + 1, acc)
                } else if j2 < v.len() && v[j2] == ']' {
                    let ghost prev = acc@;
                    acc.push(p);
                    proof {
                        assert(pairs_view(acc@) =~= pairs_view(prev).push(p@));
                    }
                    Some((acc, j2 + 1))
                } else {
                    None
                }
            },
        }
    } else {
        None
    }
}

/// The sequence of segment models a buffer of segments stands for.
pub open spec fn pairs_view(a: Seq<TransPair>) -> Seq<SpecPair> {
    Seq::new(a.len(), |i: int| a[i]@)
}

fn parse_array(v: &Vec<char>, i: usize) -> (r: Option<(Vec<TransPair>, usize)>)
    requires
        i <= v@.len(),
    ensures
        match r {
            Some((a, j)) => spec_array(v@, i as int) == Some((pairs_view(a@), j as int)) && i < j
                <= v@.len(),
            None => spec_array(v@, i as int) is None,
        },
{
    if i < v.len() && v[i] == '[' {
        let k = skip_ws(v, i + 1);
        if k < v.len() && v[k] == ']' {
            let empty: Vec<TransPair> = Vec::new();
            proof {
                assert(pairs_view(empty@) =~= Seq::<SpecPair>::empty());
            }
            Some((empty, k + 1))
        } else {
            let empty: Vec<TransPair> = Vec::new();
            proof {
                assert(pairs_view(empty@) =~= Seq::<SpecPair>::empty());
            }
            parse_items(v, i + 1, empty)
        }
    } else {
        None
    }
}

/// Fields gathered while reading the envelope's members.
struct EnvAcc {
    from: Option<Vec<char>>,
    to: Option<Vec<char>>,
    tr: Option<Vec<TransPair>>,
    ec: Option<Vec<char>>,
    em: Option<Vec<char>>,
}

spec fn acc_view(a: EnvAcc) -> SpecAcc {
    SpecAcc {
        from: opt_chars_view(a.from),
        to: opt_chars_view(a.to),
        tr: match a.tr {
            Some(t) => Some(pairs_view(t@)),
            None => None,
        },
        ec: opt_chars_view(a.ec),
        em: opt_chars_view(a.em),
    }
}

/// The envelope object's members, mirroring `spec_members`.
fn parse_members(v: &Vec<char>, i: usize, acc: EnvAcc) -> (r: Option<(EnvAcc, usize)>)
    requires
        i <= v@.len(),
    ensures
        match r {
            Some((a, j)) => spec_members(v@, i as int, acc_view(acc)) == Some(
                (acc_view(a), j as int),
            ) && i < j <= v@.len(),
            None => spec_members(v@, i as int, acc_view(acc)) is None,
        },
    decreases v@.len() - i,
{
    let mut acc = acc;
    let k = skip_ws(v, i);
    match parse_string(v, k) {
        None => None,
        Some((key, j1)) => {
            let j2 = skip_ws(v, j1);
            if j2 < v.len() && v[j2] == ':' {
                let j3 = skip_ws(v, j2 + 1);
                let parsed: Option<(EnvAcc, usize)> = if crate::text::chars_eq_str(&key, "from") {
                    if acc.from.is_some() {
                        None
                    } else {
                        match parse_string(v, j3) {
                            Some((val, j4)) => {
                                acc.from = Some(val);
                                Some((acc, j4))
                            },
                            None => None,
                        }
                    }
                } else if crate::text::chars_eq_str(&key, "to") {
                    if acc.to.is_some() {
                        None
                    } else {
                        match parse_string(v, j3) {
                            Some((val, j4)) => {
                                acc.to = Some(val);
                                Some((acc, j4))
                            },
                            None => None,
                        }
                    }
                } else if crate::text::chars_eq_str(&key, "error_code") {
                    if acc.ec.is_some() {
                        None
                    } else {
                        match parse_string(v, j3) {
                            Some((val, j4)) => {
                                acc.ec = Some(val);
                                Some((acc, j4))
                            },
                            None => None,
                        }
                    }
                } else if crate::text::chars_eq_str(&key, "error_msg") {
                    if acc.em.is_some() {
                        None
                    } else {
                        match parse_string(v, j3) {
                            Some((val, j4)) => {
                                acc.em = Some(val);
                                Some((acc, j4))
                            },
                            None => None,
                        }
                    }
                } else if crate::text::chars_eq_str(&key, "trans_result") {
                    if acc.tr.is_some() {
                        None
                    } else {
                        match parse_array(v, j3) {
                            Some((a, j4)) => {
                                acc.tr = Some(a);
                                Some((acc, j4))
                            },
                            None => None,
                        }
                    }
                } else {
                    None
                };
                match parsed {
                    None => None,
                    Some((acc2, j4)) => {
                        let j5 = skip_ws(v, j4);
                        if j5 < v.len() && v[j5] == ',' {
                            parse_members(v, j5 + 1, acc2)
                        } else if j5 < v.len() && v[j5] == '}' {
                            Some((acc2, j5 + 1))
                        } else {
                            None
                        }
                    },
                }
            } else {
                None
            }
        },
    }
}

/// Parses the provider's response envelope.
///
/// The grammar is the envelope the provider documents: one JSON object with
/// string members `from` and `to`, an array `trans_result` of objects each
/// holding exactly the string members `src` and `dst`, and optional string
/// members `error_code` and `error_msg`; members may come in any order but
/// at most once each. Strings accept the single-character escapes
/// (`\" \\ \/ \n \t \r \b \f`) and `\uXXXX` escapes, with surrogate pairs
/// naming the code points beyond the basic plane; members outside the
/// envelope are not accepted.
pub fn parse_envelope(body: &str) -> (r: Option<Envelope>)
    ensures
        match r {
            Some(env) => spec_envelope(body@) == Some(env@),
            None => spec_envelope(body@) is None,
        },
{
    let v = chars_of(body);
    let i = skip_ws(&v, 0);
    if i < v.len() && v[i] == '{' {
        let acc0 = EnvAcc { from: None, to: None, tr: None, ec: None, em: None };
        match parse_members(&v, i + 1, acc0) {
            None => None,
            Some((acc, j)) => {
                if skip_ws(&v, j) == v.len() {
                    match (acc.from, acc.to, acc.tr) {
                        (Some(f), Some(t), Some(a)) => {
                            proof {
                                assert(pairs_view(a@) =~= Seq::new(a@.len(), |i: int| a@[i]@));
                            }
                            let env = Envelope {
                                from: string_from_chars(f),
                                to: string_from_chars(t),
                                trans_result: a,
                                error_code: match acc.ec {
                                    Some(c) => Some(string_from_chars(c)),
                                    None => None,
                                },
                                error_msg: match acc.em {
                                    Some(m) => Some(string_from_chars(m)),
                                    None => None,
                                },
                            };
                            Some(env)
                        },
                        _ => None,
                    }
                } else {
                    None
                }
            },
        }
    } else {
        None
    }
}

} // verus!
