//! A structural JSON parser over raw body bytes.
//!
//! The grammar is given as recursive specification functions over the byte
//! sequence; the executable parser returns exactly what the specification
//! says for every input.  Two deliberate restrictions, both recorded here:
//! string payloads are validated but not decoded (the validator never reads
//! them), and object member names must decode to ASCII, since they are
//! matched byte-for-byte against declared property names.

use vstd::prelude::*;

use crate::json::{arr_view, json_view, member_view, obj_view, Json, JsonV};
use crate::json::{lemma_arr_view, lemma_obj_view};

verus! {

/// JSON whitespace.
pub open spec fn is_ws(b: u8) -> bool {
    b == 0x20 || b == 0x09 || b == 0x0a || b == 0x0d
}

/// An ASCII decimal digit.
pub open spec fn is_digit(b: u8) -> bool {
    0x30 <= b <= 0x39
}

/// An ASCII hexadecimal digit.
pub open spec fn is_hex(b: u8) -> bool {
    is_digit(b) || (0x41 <= b <= 0x46) || (0x61 <= b <= 0x66)
}

/// The value of a hexadecimal digit.
pub open spec fn hex_val(b: u8) -> nat {
    if is_digit(b) {
        (b - 0x30) as nat
    } else if 0x41 <= b <= 0x46 {
        (b - 0x41 + 10) as nat
    } else {
        (b - 0x61 + 10) as nat
    }
}

/// The characters that may follow a backslash in a short escape.
pub open spec fn is_short_escape(b: u8) -> bool {
    b == 0x22 || b == 0x5c || b == 0x2f || b == 0x62 || b == 0x66 || b == 0x6e || b == 0x72
        || b == 0x74
}

/// The byte a short escape stands for.
pub open spec fn esc_byte(b: u8) -> u8 {
    if b == 0x62 {
        0x08
    } else if b == 0x66 {
        0x0c
    } else if b == 0x6e {
        0x0a
    } else if b == 0x72 {
        0x0d
    } else if b == 0x74 {
        0x09
    } else {
        b
    }
}

/// The first position at or after `i` holding no whitespace.
pub open spec fn skip_ws(s: Seq<u8>, i: nat) -> nat
    decreases s.len() - i,
{
    if i < s.len() && is_ws(s[i as int]) {
        skip_ws(s, i + 1)
    } else {
        i
    }
}

/// The first position at or after `i` holding no decimal digit.
pub open spec fn scan_digits(s: Seq<u8>, i: nat) -> nat
    decreases s.len() - i,
{
    if i < s.len() && is_digit(s[i as int]) {
        scan_digits(s, i + 1)
    } else {
        i
    }
}

/// End of the fraction part starting at `k`, if one is present.
pub open spec fn after_frac(s: Seq<u8>, k: nat) -> nat {
    if k + 1 < s.len() && s[k as int] == 0x2e && is_digit(s[k as int + 1]) {
        scan_digits(s, k + 1)
    } else {
        k
    }
}

/// End of the exponent part starting at `k`, if one is present.
pub open spec fn after_exp(s: Seq<u8>, k: nat) -> nat {
    if k < s.len() && (s[k as int] == 0x65 || s[k as int] == 0x45) {
        let m = if k + 1 < s.len() && (s[k as int + 1] == 0x2b || s[k as int + 1] == 0x2d) {
            k + 2
        } else {
            k + 1
        };
        if m < s.len() && is_digit(s[m as int]) {
            scan_digits(s, m)
        } else {
            k
        }
    } else {
        k
    }
}

/// Parses a JSON number starting at `i`; returns the position after it.
pub open spec fn parse_number(s: Seq<u8>, i: nat) -> Option<nat> {
    let j = if i < s.len() && s[i as int] == 0x2d {
        i + 1
    } else {
        i
    };
    if j < s.len() && is_digit(s[j as int]) {
        let k = if s[j as int] == 0x30 {
            j + 1
        } else {
            scan_digits(s, j)
        };
        Some(after_exp(s, after_frac(s, k)))
    } else {
        None
    }
}

/// Prepends a decoded byte to a string-scan result.
pub open spec fn cons_byte(b: u8, r: Option<(Option<Seq<u8>>, nat)>) -> Option<
    (Option<Seq<u8>>, nat),
> {
    match r {
        Some((d, j)) => match d {
            Some(dd) => Some((Some(seq![b] + dd), j)),
            None => Some((None, j)),
        },
        None => None,
    }
}

/// Marks a string-scan result as not decodable to ASCII.
pub open spec fn drop_decoded(r: Option<(Option<Seq<u8>>, nat)>) -> Option<
    (Option<Seq<u8>>, nat),
> {
    match r {
        Some((_, j)) => Some((None, j)),
        None => None,
    }
}

/// Scans a string body from `i` (just after the opening quote) up to and over
/// the closing quote.  The first component is the decoded contents, present
/// only when every character is ASCII.
pub open spec fn string_tail(s: Seq<u8>, i: nat) -> Option<(Option<Seq<u8>>, nat)>
    decreases s.len() - i,
{
    if i >= s.len() {
        None
    } else {
        let b = s[i as int];
        if b == 0x22 {
            Some((Some(Seq::empty()), i + 1))
        } else if b == 0x5c {
            if i + 2 <= s.len() && is_short_escape(s[i as int + 1]) {
                cons_byte(esc_byte(s[i as int + 1]), string_tail(s, i + 2))
            } else if i + 6 <= s.len() && s[i as int + 1] == 0x75 && is_hex(s[i as int + 2])
                && is_hex(s[i as int + 3]) && is_hex(s[i as int + 4]) && is_hex(
                s[i as int + 5],
            ) {
                let v = hex_val(s[i as int + 2]) * 4096 + hex_val(s[i as int + 3]) * 256 + hex_val(
                    s[i as int + 4],
                ) * 16 + hex_val(s[i as int + 5]);
                if v < 0x80 {
                    cons_byte(v as u8, string_tail(s, i + 6))
                } else {
                    drop_decoded(string_tail(s, i + 6))
                }
            } else {
                None
            }
        } else if b >= 0x20 {
            if b < 0x80 {
                cons_byte(b, string_tail(s, i + 1))
            } else {
                drop_decoded(string_tail(s, i + 1))
            }
        } else {
            None
        }
    }
}

/// Parses a JSON string starting at the opening quote at `i`.
pub open spec fn parse_string(s: Seq<u8>, i: nat) -> Option<(Option<Seq<u8>>, nat)> {
    if i < s.len() && s[i as int] == 0x22 {
        string_tail(s, (i + 1) as nat)
    } else {
        None
    }
}

/// Decoded member-name bytes as characters.
pub open spec fn key_chars(bs: Seq<u8>) -> Seq<char> {
    bs.map_values(|b: u8| b as char)
}

/// Parses one JSON value starting at `i` (no leading whitespace).
pub open spec fn parse_value(s: Seq<u8>, i: nat) -> Option<(JsonV, nat)>
    decreases s.len() - i, 0int,
{
    if i >= s.len() {
        None
    } else {
        let b = s[i as int];
        if b == 0x6e {
            if i + 4 <= s.len() && s[i as int + 1] == 0x75 && s[i as int + 2] == 0x6c && s[i as int
                + 3] == 0x6c {
                Some((JsonV::Null, i + 4))
            } else {
                None
            }
        } else if b == 0x74 {
            if i + 4 <= s.len() && s[i as int + 1] == 0x72 && s[i as int + 2] == 0x75 && s[i as int
                + 3] == 0x65 {
                Some((JsonV::Bool(true), i + 4))
            } else {
                None
            }
        } else if b == 0x66 {
            if i + 5 <= s.len() && s[i as int + 1] == 0x61 && s[i as int + 2] == 0x6c && s[i as int
                + 3] == 0x73 && s[i as int + 4] == 0x65 {
                Some((JsonV::Bool(false), i + 5))
            } else {
                None
            }
        } else if b == 0x22 {
            match parse_string(s, i) {
                Some((_, j)) => Some((JsonV::Str, j)),
                None => None,
            }
        } else if b == 0x2d || is_digit(b) {
            match parse_number(s, i) {
                Some(j) => Some((JsonV::Num, j)),
                None => None,
            }
        } else if b == 0x5b {
            let j = skip_ws(s, i + 1);
            if j < s.len() && s[j as int] == 0x5d {
                Some((JsonV::Arr(Seq::empty()), j + 1))
            } else if i < j && j <= s.len() {
                match parse_elems(s, j) {
                    Some((elems, k)) => Some((JsonV::Arr(elems), k)),
                    None => None,
                }
            } else {
                None
            }
        } else if b == 0x7b {
            let j = skip_ws(s, i + 1);
            if j < s.len() && s[j as int] == 0x7d {
                Some((JsonV::Obj(Seq::empty()), j + 1))
            } else if i < j && j <= s.len() {
                match parse_members(s, j) {
                    Some((members, k)) => Some((JsonV::Obj(members), k)),
                    None => None,
                }
            } else {
                None
            }
        } else {
            None
        }
    }
}

/// Parses the elements of a non-empty array, starting at the first element,
/// up to and over the closing bracket.
pub open spec fn parse_elems(s: Seq<u8>, i: nat) -> Option<(Seq<JsonV>, nat)>
    decreases s.len() - i, 1int,
{
    match parse_value(s, i) {
        None => None,
        Some((v, j)) => {
            let k = skip_ws(s, j);
            if k < s.len() && s[k as int] == 0x2c {
                let m = skip_ws(s, k + 1);
                if i < m && m <= s.len() {
                    match parse_elems(s, m) {
                        Some((rest, e)) => Some((seq![v] + rest, e)),
                        None => None,
                    }
                } else {
                    None
                }
            } else if k < s.len() && s[k as int] == 0x5d {
                Some((seq![v], k + 1))
            } else {
                None
            }
        },
    }
}

/// Parses the members of a non-empty object, starting at the first member
/// name, up to and over the closing brace.
pub open spec fn parse_members(s: Seq<u8>, i: nat) -> Option<(Seq<(Seq<char>, JsonV)>, nat)>
    decreases s.len() - i, 1int,
{
    match parse_string(s, i) {
        None => None,
        Some((dec, j)) => match dec {
            None => None,
            Some(kb) => {
                let c = skip_ws(s, j);
                if c < s.len() && s[c as int] == 0x3a {
                    let vp = skip_ws(s, c + 1);
                    if i < vp && vp <= s.len() {
                        match parse_value(s, vp) {
                            None => None,
                            Some((v, e)) => {
                                let k = skip_ws(s, e);
                                if k < s.len() && s[k as int] == 0x2c {
                                    let m = skip_ws(s, k + 1);
                                    if i < m && m <= s.len() {
                                        match parse_members(s, m) {
                                            Some((rest, f)) => Some(
                                                (seq![(key_chars(kb), v)] + rest, f),
                                            ),
                                            None => None,
                                        }
                                    } else {
                                        None
                                    }
                                } else if k < s.len() && s[k as int] == 0x7d {
                                    Some((seq![(key_chars(kb), v)], k + 1))
                                } else {
                                    None
                                }
                            },
                        }
                    } else {
                        None
                    }
                } else {
                    None
                }
            },
        },
    }
}

/// Parses a whole JSON document: one value, surrounded only by whitespace.
pub open spec fn spec_parse_json(s: Seq<u8>) -> Option<JsonV> {
    let i = skip_ws(s, 0);
    match parse_value(s, i) {
        Some((v, j)) => if j <= s.len() && skip_ws(s, j) == s.len() {
            Some(v)
        } else {
            None
        },
        None => None,
    }
}

/// Relies on `String::from_utf8`: bytes below 0x80 are valid UTF-8 and decode
/// to the characters with those code points.
#[verifier::external_body]
fn ascii_string(bytes: Vec<u8>) -> (r: String)
    requires
        forall|k: int| 0 <= k < bytes@.len() ==> bytes@[k] < 0x80,
    ensures
        r@ == bytes@.map_values(|b: u8| b as char),
{
    match String::from_utf8(bytes) {
        Ok(s) => s,
        Err(_) => String::new(),
    }
}

/// The decoded contents of a scanned string, as the specification sees them.
pub open spec fn opt_bytes_view(o: Option<Vec<u8>>) -> Option<Seq<u8>> {
    match o {
        Some(v) => Some(v@),
        None => None,
    }
}

fn skip_ws_x(s: &Vec<u8>, i: usize) -> (r: usize)
    requires
        i <= s@.len(),
    ensures
        r as nat == skip_ws(s@, i as nat),
        i <= r <= s@.len(),
{
    let mut j = i;
    loop
        invariant
            i <= j <= s@.len(),
            skip_ws(s@, i as nat) == skip_ws(s@, j as nat),
        decreases s@.len() - j,
    {
        if j < s.len() {
            let b = s[j];
            if b == 0x20 || b == 0x09 || b == 0x0a || b == 0x0d {
                j = j + 1;
            } else {
                return j;
            }
        } else {
            return j;
        }
    }
}

fn scan_digits_x(s: &Vec<u8>, i: usize) -> (r: usize)
    requires
        i <= s@.len(),
    ensures
        r as nat == scan_digits(s@, i as nat),
        i <= r <= s@.len(),
{
    let mut j = i;
    loop
        invariant
            i <= j <= s@.len(),
            scan_digits(s@, i as nat) == scan_digits(s@, j as nat),
        decreases s@.len() - j,
    {
        if j < s.len() {
            let b = s[j];
            if 0x30 <= b && b <= 0x39 {
                j = j + 1;
            } else {
                return j;
            }
        } else {
            return j;
        }
    }
}

fn parse_number_x(s: &Vec<u8>, i: usize) -> (r: Option<usize>)
    requires
        i <= s@.len(),
    ensures
        match r {
            Some(j) => parse_number(s@, i as nat) == Some(j as nat) && i < j <= s@.len(),
            None => parse_number(s@, i as nat) is None,
        },
{
    let j = if i < s.len() && s[i] == 0x2d {
        i + 1
    } else {
        i
    };
    if j < s.len() && 0x30 <= s[j] && s[j] <= 0x39 {
        let k = if s[j] == 0x30 {
            j + 1
        } else {
            let kk = scan_digits_x(s, j + 1);
            proof {
                assert(scan_digits(s@, j as nat) == scan_digits(s@, (j + 1) as nat));
            }
            kk
        };
        let k2 = if s.len() - k >= 2 && s[k] == 0x2e && 0x30 <= s[k + 1] && s[k + 1] <= 0x39 {
            scan_digits_x(s, k + 1)
        } else {
            k
        };
        let k3 = if k2 < s.len() && (s[k2] == 0x65 || s[k2] == 0x45) {
            let m = if s.len() - k2 >= 2 && (s[k2 + 1] == 0x2b || s[k2 + 1] == 0x2d) {
                k2 + 2
            } else {
                k2 + 1
            };
            if m < s.len() && 0x30 <= s[m] && s[m] <= 0x39 {
                scan_digits_x(s, m)
            } else {
                k2
            }
        } else {
            k2
        };
        proof {
            assert(after_frac(s@, k as nat) == k2 as nat);
            assert(after_exp(s@, k2 as nat) == k3 as nat);
        }
        Some(k3)
    } else {
        None
    }
}

fn string_tail_x(s: &Vec<u8>, i: usize) -> (r: Option<(Option<Vec<u8>>, usize)>)
    requires
        i <= s@.len(),
    ensures
        match r {
            Some(p) => {
                &&& string_tail(s@, i as nat) == Some((opt_bytes_view(p.0), p.1 as nat))
                &&& i < p.1 <= s@.len()
                &&& (p.0 matches Some(kb) ==> forall|k: int| 0 <= k < kb@.len() ==> kb@[k] < 0x80)
            },
            None => string_tail(s@, i as nat) is None,
        },
    decreases s@.len() - i,
{
    if i >= s.len() {
        return None;
    }
    let b = s[i];
    if b == 0x22 {
        Some((Some(Vec::new()), i + 1))
    } else if b == 0x5c {
        if s.len() - i >= 2 && is_short_escape_x(s[i + 1]) {
            let e = esc_byte_x(s[i + 1]);
            match string_tail_x(s, i + 2) {
                Some((d, j)) => Some((cons_byte_x(e, d), j)),
                None => None,
            }
        } else if s.len() - i >= 6 && s[i + 1] == 0x75 && is_hex_x(s[i + 2]) && is_hex_x(s[i + 3])
            && is_hex_x(s[i + 4]) && is_hex_x(s[i + 5]) {
            let v: u32 = (hex_val_x(s[i + 2]) as u32) * 4096 + (hex_val_x(s[i + 3]) as u32) * 256
                + (hex_val_x(s[i + 4]) as u32) * 16 + (hex_val_x(s[i + 5]) as u32);
            if v < 0x80 {
                match string_tail_x(s, i + 6) {
                    Some((d, j)) => Some((cons_byte_x(v as u8, d), j)),
                    None => None,
                }
            } else {
                match string_tail_x(s, i + 6) {
                    Some((_, j)) => Some((None, j)),
                    None => None,
                }
            }
        } else {
            None
        }
    } else if b >= 0x20 {
        if b < 0x80 {
            match string_tail_x(s, i + 1) {
                Some((d, j)) => Some((cons_byte_x(b, d), j)),
                None => None,
            }
        } else {
            match string_tail_x(s, i + 1) {
                Some((_, j)) => Some((None, j)),
                None => None,
            }
        }
    } else {
        None
    }
}

/// Prepends a decoded byte in the executable scan.
fn cons_byte_x(b: u8, d: Option<Vec<u8>>) -> (r: Option<Vec<u8>>)
    ensures
        opt_bytes_view(r) == match opt_bytes_view(d) {
            Some(dd) => Some(seq![b] + dd),
            None => None::<Seq<u8>>,
        },
        (r matches Some(kb) ==> kb@ == seq![b] + d.unwrap()@),
        r is Some <==> d is Some,
{
    match d {
        Some(mut dd) => {
            let ghost before = dd@;
            dd.insert(0, b);
            proof {
                assert(dd@ =~= seq![b] + before);
            }
            Some(dd)
        },
        None => None,
    }
}

fn is_short_escape_x(b: u8) -> (r: bool)
    ensures
        r == is_short_escape(b),
{
    b == 0x22 || b == 0x5c || b == 0x2f || b == 0x62 || b == 0x66 || b == 0x6e || b == 0x72
        || b == 0x74
}

fn esc_byte_x(b: u8) -> (r: u8)
    ensures
        r == esc_byte(b),
{
    if b == 0x62 {
        0x08
    } else if b == 0x66 {
        0x0c
    } else if b == 0x6e {
        0x0a
    } else if b == 0x72 {
        0x0d
    } else if b == 0x74 {
        0x09
    } else {
        b
    }
}

fn is_hex_x(b: u8) -> (r: bool)
    ensures
        r == is_hex(b),
{
    (0x30 <= b && b <= 0x39) || (0x41 <= b && b <= 0x46) || (0x61 <= b && b <= 0x66)
}

fn hex_val_x(b: u8) -> (r: u8)
    requires
        is_hex(b),
    ensures
        r as nat == hex_val(b),
        r < 16,
{
    if 0x30 <= b && b <= 0x39 {
        b - 0x30
    } else if 0x41 <= b && b <= 0x46 {
        b - 0x41 + 10
    } else {
        b - 0x61 + 10
    }
}

fn parse_string_x(s: &Vec<u8>, i: usize) -> (r: Option<(Option<Vec<u8>>, usize)>)
    requires
        i <= s@.len(),
    ensures
        match r {
            Some(p) => {
                &&& parse_string(s@, i as nat) == Some((opt_bytes_view(p.0), p.1 as nat))
                &&& i < p.1 <= s@.len()
                &&& (p.0 matches Some(kb) ==> forall|k: int| 0 <= k < kb@.len() ==> kb@[k] < 0x80)
            },
            None => parse_string(s@, i as nat) is None,
        },
{
    if i < s.len() && s[i] == 0x22 {
        string_tail_x(s, i + 1)
    } else {
        None
    }
}

fn parse_value_x(s: &Vec<u8>, i: usize) -> (r: Option<(Json, usize)>)
    requires
        i <= s@.len(),
    ensures
        match r {
            Some(p) => parse_value(s@, i as nat) == Some((p.0@, p.1 as nat)) && i < p.1
                <= s@.len(),
            None => parse_value(s@, i as nat) is None,
        },
    decreases s@.len() - i, 0int,
{
    if i >= s.len() {
        return None;
    }
    let b = s[i];
    if b == 0x6e {
        if s.len() - i >= 4 && s[i + 1] == 0x75 && s[i + 2] == 0x6c && s[i + 3] == 0x6c {
            Some((Json::Null, i + 4))
        } else {
            None
        }
    } else if b == 0x74 {
        if s.len() - i >= 4 && s[i + 1] == 0x72 && s[i + 2] == 0x75 && s[i + 3] == 0x65 {
            Some((Json::Bool(true), i + 4))
        } else {
            None
        }
    } else if b == 0x66 {
        if s.len() - i >= 5 && s[i + 1] == 0x61 && s[i + 2] == 0x6c && s[i + 3] == 0x73 && s[i + 4]
            == 0x65 {
            Some((Json::Bool(false), i + 5))
        } else {
            None
        }
    } else if b == 0x22 {
        match parse_string_x(s, i) {
            Some((_, j)) => Some((Json::Str, j)),
            None => None,
        }
    } else if b == 0x2d || (0x30 <= b && b <= 0x39) {
        match parse_number_x(s, i) {
            Some(j) => Some((Json::Num, j)),
            None => None,
        }
    } else if b == 0x5b {
        let j = skip_ws_x(s, i + 1);
        if j < s.len() && s[j] == 0x5d {
            let items: Vec<Json> = Vec::new();
            proof {
                lemma_arr_view(items, 0);
                assert(arr_view(items, 0) =~= Seq::<JsonV>::empty());
            }
            Some((Json::Arr(items), j + 1))
        } else {
            match parse_elems_x(s, j) {
                Some((items, k)) => {
                    proof {
                        lemma_arr_view(items, 0);
                        assert(items@.subrange(0, items@.len() as int) =~= items@);
                    }
                    Some((Json::Arr(items), k))
                },
                None => None,
            }
        }
    } else if b == 0x7b {
        let j = skip_ws_x(s, i + 1);
        if j < s.len() && s[j] == 0x7d {
            let members: Vec<(String, Json)> = Vec::new();
            proof {
                lemma_obj_view(members, 0);
                assert(obj_view(members, 0) =~= Seq::<(Seq<char>, JsonV)>::empty());
            }
            Some((Json::Obj(members), j + 1))
        } else {
            match parse_members_x(s, j) {
                Some((members, k)) => {
                    proof {
                        lemma_obj_view(members, 0);
                        assert(members@.subrange(0, members@.len() as int) =~= members@);
                    }
                    Some((Json::Obj(members), k))
                },
                None => None,
            }
        }
    } else {
        None
    }
}

fn parse_elems_x(s: &Vec<u8>, i: usize) -> (r: Option<(Vec<Json>, usize)>)
    requires
        i <= s@.len(),
    ensures
        match r {
            Some(p) => parse_elems(s@, i as nat) == Some(
                (p.0@.map_values(|x: Json| json_view(x)), p.1 as nat),
            ) && i < p.1 <= s@.len(),
            None => parse_elems(s@, i as nat) is None,
        },
    decreases s@.len() - i, 1int,
{
    match parse_value_x(s, i) {
        None => None,
        Some((v, j)) => {
            let k = skip_ws_x(s, j);
            if k < s.len() && s[k] == 0x2c {
                let m = skip_ws_x(s, k + 1);
                match parse_elems_x(s, m) {
                    Some((mut rest, e)) => {
                        let ghost old_rest = rest@;
                        rest.insert(0, v);
                        proof {
                            assert(rest@.map_values(|x: Json| json_view(x)) =~= seq![
                                json_view(v),
                            ] + old_rest.map_values(|x: Json| json_view(x)));
                        }
                        Some((rest, e))
                    },
                    None => None,
                }
            } else if k < s.len() && s[k] == 0x5d {
                let mut one: Vec<Json> = Vec::new();
                one.push(v);
                proof {
                    assert(one@.map_values(|x: Json| json_view(x)) =~= seq![json_view(v)]);
                }
                Some((one, k + 1))
            } else {
                None
            }
        },
    }
}

fn parse_members_x(s: &Vec<u8>, i: usize) -> (r: Option<(Vec<(String, Json)>, usize)>)
    requires
        i <= s@.len(),
    ensures
        match r {
            Some(p) => parse_members(s@, i as nat) == Some(
                (p.0@.map_values(|q: (String, Json)| member_view(q)), p.1 as nat),
            ) && i < p.1 <= s@.len(),
            None => parse_members(s@, i as nat) is None,
        },
    decreases s@.len() - i, 1int,
{
    match parse_string_x(s, i) {
        None => None,
        Some((dec, j)) => match dec {
            None => None,
            Some(kb) => {
                let c = skip_ws_x(s, j);
                if c < s.len() && s[c] == 0x3a {
                    let vp = skip_ws_x(s, c + 1);
                    let ghost kbv = kb@;
                    let key = ascii_string(kb);
                    proof {
                        assert(key@ =~= key_chars(kbv));
                    }
                    match parse_value_x(s, vp) {
                        None => None,
                        Some((v, e)) => {
                            let k = skip_ws_x(s, e);
                            if k < s.len() && s[k] == 0x2c {
                                let m = skip_ws_x(s, k + 1);
                                match parse_members_x(s, m) {
                                    Some((mut rest, f)) => {
                                        let ghost old_rest = rest@;
                                        rest.insert(0, (key, v));
                                        proof {
                                            assert(rest@.map_values(
                                                |q: (String, Json)| member_view(q),
                                            ) =~= seq![(key_chars(kbv), json_view(v))]
                                                + old_rest.map_values(
                                                |q: (String, Json)| member_view(q),
                                            ));
                                        }
                                        Some((rest, f))
                                    },
                                    None => None,
                                }
                            } else if k < s.len() && s[k] == 0x7d {
                                let mut one: Vec<(String, Json)> = Vec::new();
                                one.push((key, v));
                                proof {
                                    assert(one@.map_values(|q: (String, Json)| member_view(q))
                                        =~= seq![(key_chars(kbv), json_view(v))]);
                                }
                                Some((one, k + 1))
                            } else {
                                None
                            }
                        },
                    }
                } else {
                    None
                }
            },
        },
    }
}

/// Parses a whole JSON document.  Returns exactly what [`spec_parse_json`]
/// says of the bytes.
pub fn parse_json(s: &Vec<u8>) -> (r: Option<Json>)
    ensures
        match r {
            Some(v) => spec_parse_json(s@) == Some(v@),
            None => spec_parse_json(s@) is None,
        },
{
    let i = skip_ws_x(s, 0);
    match parse_value_x(s, i) {
        Some((v, j)) => {
            let k = skip_ws_x(s, j);
            if k == s.len() {
                Some(v)
            } else {
                None
            }
        },
        None => None,
    }
}

} // verus!
