//! Correlation identifiers: choosing the id that names a proxied call, and
//! parsing the client's comma-separated list of header names to fuse the id
//! into.

use vstd::prelude::*;
use vstd::string::StrSliceExecFns;
use vstd::string::StringExecFns;

verus! {

/// Relies on `uuid::Uuid::new_v4` and its hyphenated `Display` form: a
/// fresh random version-4 identifier always renders as 36 characters.
#[verifier::external_body]
fn fresh_uuid() -> (r: String)
    ensures
        r@.len() == 36,
{
    uuid::Uuid::new_v4().to_string()
}

/// The correlation id of a request: the client-supplied value when one is
/// present, otherwise a freshly generated identifier.
pub fn resolve_correlation_id(supplied: Option<&str>) -> (r: String)
    ensures
        match supplied {
            Some(s) => r@ == s@,
            None => r@.len() == 36,
        },
{
    match supplied {
        Some(s) => String::from_str(s),
        None => fresh_uuid(),
    }
}

/// A whitespace character, for trimming header names.
pub open spec fn is_space(c: char) -> bool {
    c == ' ' || c == '\t' || c == '\r' || c == '\n'
}

/// `s` without its leading whitespace.
pub open spec fn trim_start(s: Seq<char>) -> Seq<char>
    decreases s.len(),
{
    if s.len() > 0 && is_space(s[0]) {
        trim_start(s.drop_first())
    } else {
        s
    }
}

/// `s` without its trailing whitespace.
pub open spec fn trim_end(s: Seq<char>) -> Seq<char>
    decreases s.len(),
{
    if s.len() > 0 && is_space(s.last()) {
        trim_end(s.drop_last())
    } else {
        s
    }
}

/// `s` without leading and trailing whitespace.
pub open spec fn spec_trim(s: Seq<char>) -> Seq<char> {
    trim_end(trim_start(s))
}

fn scan_start(s: &str) -> (a: usize)
    ensures
        a <= s@.len(),
        trim_start(s@) == s@.skip(a as int),
{
    let len = s.unicode_len();
    let mut a: usize = 0;
    proof {
        assert(s@.skip(0) =~= s@);
    }
    loop
        invariant
            a <= len,
            len == s@.len(),
            trim_start(s@) == trim_start(s@.skip(a as int)),
        decreases len - a,
    {
        if a < len {
            let c = s.get_char(a);
            if c == ' ' || c == '\t' || c == '\r' || c == '\n' {
                proof {
                    assert(s@.skip(a as int).drop_first() =~= s@.skip(a as int + 1));
                }
                a = a + 1;
            } else {
                proof {
                    assert(trim_start(s@.skip(a as int)) == s@.skip(a as int));
                }
                return a;
            }
        } else {
            proof {
                assert(trim_start(s@.skip(a as int)) == s@.skip(a as int));
            }
            return a;
        }
    }
}

fn scan_end(s: &str, a: usize) -> (b: usize)
    requires
        a <= s@.len(),
        trim_start(s@) == s@.skip(a as int),
    ensures
        a <= b <= s@.len(),
        spec_trim(s@) == s@.subrange(a as int, b as int),
{
    let len = s.unicode_len();
    let mut b: usize = len;
    proof {
        assert(s@.subrange(a as int, len as int) =~= s@.skip(a as int));
    }
    loop
        invariant
            a <= b <= len,
            len == s@.len(),
            trim_start(s@) == s@.skip(a as int),
            trim_end(s@.skip(a as int)) == trim_end(s@.subrange(a as int, b as int)),
        decreases b,
    {
        if b > a {
            let c = s.get_char(b - 1);
            if c == ' ' || c == '\t' || c == '\r' || c == '\n' {
                proof {
                    assert(s@.subrange(a as int, b as int).last() == s@[b as int - 1]);
                    assert(s@.subrange(a as int, b as int).drop_last() =~= s@.subrange(
                        a as int,
                        b as int - 1,
                    ));
                }
                b = b - 1;
            } else {
                proof {
                    assert(s@.subrange(a as int, b as int).last() == s@[b as int - 1]);
                    assert(trim_end(s@.subrange(a as int, b as int)) == s@.subrange(
                        a as int,
                        b as int,
                    ));
                }
                return b;
            }
        } else {
            proof {
                assert(s@.subrange(a as int, b as int).len() == 0);
                assert(trim_end(s@.subrange(a as int, b as int)) == s@.subrange(
                    a as int,
                    b as int,
                ));
            }
            return b;
        }
    }
}

/// Trims leading and trailing whitespace.
fn trim_x(s: &str) -> (r: String)
    ensures
        r@ == spec_trim(s@),
{
    let a = scan_start(s);
    let b = scan_end(s, a);
    String::from_str(s.substring_char(a, b))
}

/// First position at or after `i` holding a comma, or the end.
pub open spec fn next_comma(s: Seq<char>, i: int) -> int
    decreases s.len() - i,
{
    if i < s.len() {
        if s[i] == ',' {
            i
        } else {
            next_comma(s, i + 1)
        }
    } else {
        s.len() as int
    }
}

/// The trimmed, non-empty names in the comma-separated list `s`, from
/// position `i` on.
pub open spec fn spec_fused(s: Seq<char>, i: int) -> Seq<Seq<char>>
    decreases s.len() - i,
{
    if 0 <= i <= s.len() {
        let j = next_comma(s, i);
        if i <= j && j < s.len() {
            let t = spec_trim(s.subrange(i, j));
            (if t.len() > 0 {
                seq![t]
            } else {
                Seq::empty()
            }) + spec_fused(s, j + 1)
        } else {
            let t = spec_trim(s.subrange(i, s.len() as int));
            if t.len() > 0 {
                seq![t]
            } else {
                Seq::empty()
            }
        }
    } else {
        Seq::empty()
    }
}

fn next_comma_x(s: &str, i: usize) -> (r: usize)
    requires
        i <= s@.len(),
    ensures
        r as int == next_comma(s@, i as int),
        i <= r <= s@.len(),
{
    let len = s.unicode_len();
    let mut j = i;
    loop
        invariant
            i <= j <= len,
            len == s@.len(),
            next_comma(s@, i as int) == next_comma(s@, j as int),
        decreases len - j,
    {
        if j < len {
            if s.get_char(j) == ',' {
                return j;
            }
            j = j + 1;
        } else {
            return j;
        }
    }
}

/// Splits a comma-separated header-name list, trimming each name and
/// dropping empty ones.
pub fn parse_fused_headers(list: &str) -> (r: Vec<String>)
    ensures
        r@.map_values(|x: String| x@) == spec_fused(list@, 0),
{
    let len = list.unicode_len();
    let mut out: Vec<String> = Vec::new();
    let mut i: usize = 0;
    loop
        invariant
            i <= len,
            len == list@.len(),
            spec_fused(list@, 0) == out@.map_values(|x: String| x@) + spec_fused(
                list@,
                i as int,
            ),
        decreases len - i,
    {
        let j = next_comma_x(list, i);
        let seg = list.substring_char(i, j);
        proof {
            assert(seg@ =~= list@.subrange(i as int, j as int));
            if j >= len {
                assert(list@.subrange(i as int, j as int) =~= list@.subrange(
                    i as int,
                    list@.len() as int,
                ));
            }
        }
        let t = trim_x(seg);
        let ghost tv = t@;
        let ghost pre = out@;
        let ghost head: Seq<Seq<char>> = if tv.len() > 0 {
            seq![tv]
        } else {
            Seq::empty()
        };
        if t.as_str().unicode_len() > 0 {
            out.push(t);
        }
        proof {
            assert(out@.map_values(|x: String| x@) =~= pre.map_values(|x: String| x@) + head);
        }
        if j < len {
            proof {
                assert(spec_fused(list@, i as int) == head + spec_fused(list@, j as int + 1));
                assert(pre.map_values(|x: String| x@) + (head + spec_fused(list@, j as int + 1))
                    =~= out@.map_values(|x: String| x@) + spec_fused(list@, j as int + 1));
            }
            i = j + 1;
        } else {
            proof {
                assert(spec_fused(list@, i as int) == head);
                assert(pre.map_values(|x: String| x@) + head =~= out@.map_values(|x: String| x@));
            }
            return out;
        }
    }
}

/// The testcase name: method, path-and-query, and correlation id, separated
/// by single spaces.
pub fn testcase_name(method: &str, path_and_query: &str, correlation_id: &str) -> (r: String)
    ensures
        r@ == method@ + " "@ + path_and_query@ + " "@ + correlation_id@,
{
    String::from_str(method).concat(" ").concat(path_and_query).concat(" ").concat(correlation_id)
}

} // verus!
