//! Route resolution: computing the path relative to the upstream's base
//! path, and matching it against the declared path templates, extracting
//! path parameters.
//!
//! A template segment is either a literal, matched character for character,
//! or `{name}`, which matches any one segment and records it as the
//! property `pathParameter-<name>`.  Templates are tried in document order
//! and the first match wins.

use vstd::prelude::*;
use vstd::string::StrSliceExecFns;
use vstd::string::StringExecFns;

use crate::record::{props_view, Property};
use crate::schema::{Document, PathItemRef};
use crate::text::{has_prefix, str_has_prefix};

verus! {

/// The request path relative to the upstream's base path: the base path is
/// stripped as a prefix when present (restoring a leading slash if the
/// strip removed it); otherwise the full path is used unchanged.
pub open spec fn spec_extract_path_remainder(upstream: Seq<char>, request: Seq<char>) -> Seq<
    char,
> {
    if has_prefix(request, upstream) {
        let p = request.skip(upstream.len() as int);
        if p.len() > 0 && p[0] == '/' {
            p
        } else {
            "/"@ + p
        }
    } else {
        request
    }
}

/// Strips the upstream base path from an inbound request path; see
/// [`spec_extract_path_remainder`].
pub fn extract_path_remainder(upstream_path: &str, request_path: &str) -> (r: String)
    ensures
        r@ == spec_extract_path_remainder(upstream_path@, request_path@),
{
    if str_has_prefix(request_path, upstream_path) {
        let ul = upstream_path.unicode_len();
        let rl = request_path.unicode_len();
        let rest = request_path.substring_char(ul, rl);
        proof {
            assert(rest@ =~= request_path@.skip(ul as int));
        }
        if rest.unicode_len() > 0 && rest.get_char(0) == '/' {
            String::from_str(rest)
        } else {
            String::from_str("/").concat(rest)
        }
    } else {
        String::from_str(request_path)
    }
}

/// First position at or after `i` holding a slash, or the end.
pub open spec fn next_slash(s: Seq<char>, i: int) -> int
    decreases s.len() - i,
{
    if i < s.len() {
        if s[i] == '/' {
            i
        } else {
            next_slash(s, i + 1)
        }
    } else {
        s.len() as int
    }
}

/// The slash-separated segments of `s` from position `i` on.
pub open spec fn split_slash(s: Seq<char>, i: int) -> Seq<Seq<char>>
    decreases s.len() - i,
{
    if 0 <= i <= s.len() {
        let j = next_slash(s, i);
        if i <= j && j < s.len() {
            seq![s.subrange(i, j)] + split_slash(s, j + 1)
        } else {
            seq![s.subrange(i, s.len() as int)]
        }
    } else {
        Seq::empty()
    }
}

/// A template segment of the form `{name}`.
pub open spec fn seg_is_param(seg: Seq<char>) -> bool {
    seg.len() >= 2 && seg[0] == '{' && seg[seg.len() - 1] == '}'
}

/// The parameter name inside a `{name}` segment.
pub open spec fn param_name(seg: Seq<char>) -> Seq<char> {
    seg.subrange(1, seg.len() - 1)
}

/// Segment-wise match of a template against a concrete path.
pub open spec fn segs_match(t: Seq<Seq<char>>, u: Seq<Seq<char>>) -> bool {
    t.len() == u.len() && forall|k: int|
        0 <= k < t.len() ==> (seg_is_param(#[trigger] t[k]) || t[k] == u[k])
}

/// The template matches the path.
pub open spec fn template_matches(template: Seq<char>, path: Seq<char>) -> bool {
    segs_match(split_slash(template, 0), split_slash(path, 0))
}

/// The `pathParameter-` properties extracted by a match, in segment order.
pub open spec fn params_from(t: Seq<Seq<char>>, u: Seq<Seq<char>>, i: int) -> Seq<
    (Seq<char>, Seq<char>),
>
    decreases t.len() - i,
{
    if 0 <= i < t.len() && i < u.len() {
        let rest = params_from(t, u, i + 1);
        if seg_is_param(t[i]) {
            seq![("pathParameter-"@ + param_name(t[i]), u[i])] + rest
        } else {
            rest
        }
    } else {
        Seq::empty()
    }
}

/// Index of the first declared template that matches `path`.
pub open spec fn first_match(paths: Seq<(String, PathItemRef)>, path: Seq<char>, i: int) -> Option<
    int,
>
    decreases paths.len() - i,
{
    if 0 <= i < paths.len() {
        if template_matches(paths[i].0@, path) {
            Some(i)
        } else {
            first_match(paths, path, i + 1)
        }
    } else {
        None
    }
}

/// A successful route match: the matched template and the extracted
/// path-parameter properties.
pub struct RouteMatch {
    pub template: String,
    pub params: Vec<Property>,
}

/// Scans for the next slash at or after `i`.
fn next_slash_x(s: &str, i: usize) -> (r: usize)
    requires
        i <= s@.len(),
    ensures
        r as int == next_slash(s@, i as int),
        i <= r <= s@.len(),
        r < s@.len() ==> s@[r as int] == '/',
{
    let len = s.unicode_len();
    let mut j = i;
    loop
        invariant
            i <= j <= len,
            len == s@.len(),
            next_slash(s@, i as int) == next_slash(s@, j as int),
        decreases len - j,
    {
        if j < len {
            if s.get_char(j) == '/' {
                return j;
            }
            j = j + 1;
        } else {
            return j;
        }
    }
}

/// Splits `s` into its slash-separated segments.
fn split_slash_x(s: &str) -> (r: Vec<String>)
    ensures
        r@.map_values(|x: String| x@) == split_slash(s@, 0),
{
    let len = s.unicode_len();
    let mut segs: Vec<String> = Vec::new();
    let mut i: usize = 0;
    loop
        invariant
            i <= len,
            len == s@.len(),
            split_slash(s@, 0) == segs@.map_values(|x: String| x@) + split_slash(s@, i as int),
        decreases len - i,
    {
        let j = next_slash_x(s, i);
        let seg = String::from_str(s.substring_char(i, j));
        proof {
            assert(seg@ =~= s@.subrange(i as int, j as int));
        }
        let ghost pre = segs@;
        segs.push(seg);
        proof {
            assert(segs@.map_values(|x: String| x@) =~= pre.map_values(|x: String| x@) + seq![
                seg@,
            ]);
        }
        if j < len {
            proof {
                assert(split_slash(s@, i as int) == seq![s@.subrange(i as int, j as int)]
                    + split_slash(s@, j as int + 1));
                assert(pre.map_values(|x: String| x@) + (seq![seg@] + split_slash(
                    s@,
                    j as int + 1,
                )) =~= segs@.map_values(|x: String| x@) + split_slash(s@, j as int + 1));
            }
            i = j + 1;
        } else {
            proof {
                assert(split_slash(s@, i as int) == seq![s@.subrange(i as int, s@.len() as int)]);
                assert(segs@.map_values(|x: String| x@) + Seq::<Seq<char>>::empty() =~= segs@
                    .map_values(|x: String| x@));
                assert(split_slash(s@, 0) =~= segs@.map_values(|x: String| x@));
            }
            return segs;
        }
    }
}

/// Whether `seg` is a `{name}` template segment.
fn seg_is_param_x(seg: &str) -> (r: bool)
    ensures
        r == seg_is_param(seg@),
{
    let l = seg.unicode_len();
    l >= 2 && seg.get_char(0) == '{' && seg.get_char(l - 1) == '}'
}

/// Segment-wise template match; see [`segs_match`].
fn segs_match_x(tsegs: &Vec<String>, usegs: &Vec<String>) -> (r: bool)
    ensures
        r == segs_match(
            tsegs@.map_values(|x: String| x@),
            usegs@.map_values(|x: String| x@),
        ),
{
    if tsegs.len() != usegs.len() {
        return false;
    }
    let mut k: usize = 0;
    while k < tsegs.len()
        invariant
            k <= tsegs@.len(),
            tsegs@.len() == usegs@.len(),
            forall|q: int|
                0 <= q < k ==> (seg_is_param(#[trigger] tsegs@[q]@) || tsegs@[q]@ == usegs@[q]@),
        decreases tsegs@.len() - k,
    {
        let t = &tsegs[k];
        if !seg_is_param_x(t.as_str()) {
            if !crate::text::str_eq(t.as_str(), usegs[k].as_str()) {
                proof {
                    let gt = tsegs@.map_values(|x: String| x@);
                    let gu = usegs@.map_values(|x: String| x@);
                    assert(gt[k as int] == tsegs@[k as int]@);
                    assert(gu[k as int] == usegs@[k as int]@);
                }
                return false;
            }
        }
        k = k + 1;
    }
    proof {
        let gt = tsegs@.map_values(|x: String| x@);
        let gu = usegs@.map_values(|x: String| x@);
        assert forall|q: int| 0 <= q < gt.len() implies (seg_is_param(#[trigger] gt[q]) || gt[q]
            == gu[q]) by {
            assert(gt[q] == tsegs@[q]@);
            assert(gu[q] == usegs@[q]@);
        }
    }
    true
}

/// Extracts the `pathParameter-` properties of a successful match.
fn params_x(tsegs: &Vec<String>, usegs: &Vec<String>) -> (r: Vec<Property>)
    requires
        tsegs@.len() == usegs@.len(),
    ensures
        props_view(r@) == params_from(
            tsegs@.map_values(|x: String| x@),
            usegs@.map_values(|x: String| x@),
            0,
        ),
{
    let ghost gt = tsegs@.map_values(|x: String| x@);
    let ghost gu = usegs@.map_values(|x: String| x@);
    let mut out: Vec<Property> = Vec::new();
    let mut k: usize = 0;
    while k < tsegs.len()
        invariant
            k <= tsegs@.len(),
            tsegs@.len() == usegs@.len(),
            gt == tsegs@.map_values(|x: String| x@),
            gu == usegs@.map_values(|x: String| x@),
            params_from(gt, gu, 0) == props_view(out@) + params_from(gt, gu, k as int),
        decreases tsegs@.len() - k,
    {
        let t = &tsegs[k];
        proof {
            assert(gt[k as int] == tsegs@[k as int]@);
            assert(gu[k as int] == usegs@[k as int]@);
        }
        if seg_is_param_x(t.as_str()) {
            let l = t.as_str().unicode_len();
            let name = t.as_str().substring_char(1, l - 1);
            let prop = Property {
                name: String::from_str("pathParameter-").concat(name),
                value: usegs[k].clone(),
            };
            proof {
                assert(name@ =~= param_name(gt[k as int]));
            }
            let ghost pre = out@;
            out.push(prop);
            proof {
                assert(props_view(out@) =~= props_view(pre) + seq![prop@]);
                assert(params_from(gt, gu, k as int) == seq![
                    ("pathParameter-"@ + param_name(gt[k as int]), gu[k as int]),
                ] + params_from(gt, gu, k as int + 1));
                assert(props_view(pre) + (seq![prop@] + params_from(gt, gu, k as int + 1)) =~= (
                props_view(pre) + seq![prop@]) + params_from(gt, gu, k as int + 1));
            }
        } else {
            proof {
                assert(params_from(gt, gu, k as int) == params_from(gt, gu, k as int + 1));
            }
        }
        k = k + 1;
    }
    proof {
        assert(props_view(out@) + Seq::<(Seq<char>, Seq<char>)>::empty() =~= props_view(out@));
    }
    out
}

/// Matches the relative path against the declared templates, in document
/// order; on success returns the matched template and its extracted
/// path-parameter properties.
pub fn match_route(doc: &Document, rel_path: &str) -> (r: Option<RouteMatch>)
    ensures
        match r {
            Some(m) => {
                &&& first_match(doc.paths@, rel_path@, 0) matches Some(idx)
                    && m.template@ == doc.paths@[idx].0@
                &&& props_view(m.params@) == params_from(
                    split_slash(m.template@, 0),
                    split_slash(rel_path@, 0),
                    0,
                )
            },
            None => first_match(doc.paths@, rel_path@, 0) is None,
        },
{
    let usegs = split_slash_x(rel_path);
    let mut i: usize = 0;
    while i < doc.paths.len()
        invariant
            i <= doc.paths@.len(),
            usegs@.map_values(|x: String| x@) == split_slash(rel_path@, 0),
            first_match(doc.paths@, rel_path@, 0) == first_match(doc.paths@, rel_path@, i as int),
        decreases doc.paths@.len() - i,
    {
        let template = &doc.paths[i].0;
        let tsegs = split_slash_x(template.as_str());
        if segs_match_x(&tsegs, &usegs) {
            let params = params_x(&tsegs, &usegs);
            proof {
                assert(first_match(doc.paths@, rel_path@, i as int) == Some(i as int));
            }
            return Some(RouteMatch { template: template.clone(), params });
        }
        proof {
            assert(first_match(doc.paths@, rel_path@, i as int) == first_match(
                doc.paths@,
                rel_path@,
                i as int + 1,
            ));
        }
        i = i + 1;
    }
    None
}

} // verus!
