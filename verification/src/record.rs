//! What the pipeline records about one proxied request: typed validation
//! failures, observed properties, and the completed testcase.

use vstd::multiset::Multiset;
use vstd::prelude::*;
use vstd::string::StringExecFns;

use crate::text::{digit_seq, spec_decimal};
use crate::text::decimal_string;

verus! {

/// Whether a failure arose from validating the client's request or the
/// upstream's response.
#[derive(Clone, Copy, PartialEq, Eq, Structural, Debug)]
pub enum Perspective {
    Request,
    Response,
}

/// The closed taxonomy of failure classifications.
#[derive(Clone, Copy, PartialEq, Eq, Structural, Debug)]
pub enum FailureKind {
    /// No route template matches the request path.
    PathNotFound,
    /// The route matched, but the path item declares no operation for the
    /// request's method.
    InvalidHTTPMethod,
    /// The response status has no declared entry.
    InvalidStatusCode,
    /// A declared response reference could not be resolved.
    MissingResponseDefinition,
    /// A declared schema, array-items, property or request-body reference
    /// was absent or could not be resolved.
    MissingSchemaDefinition,
    /// A non-empty body where the spec declares none.
    MismatchNonEmptyBody,
    /// No content-type header on a message with a non-empty body.
    MissingContentTypeHeader,
    /// A content-type header naming no declared content entry.
    MismatchedContentTypeHeader,
    /// A body claiming JSON content that does not parse.
    FailedJSONDeserialization,
    /// A null value where the schema is not nullable.
    UnexpectedNull,
    /// A boolean value against a non-boolean schema.
    UnexpectedBoolean,
    /// A number value against a schema that is neither number nor integer.
    UnexpectedNumber,
    /// A string value against a non-string schema.
    UnexpectedString,
    /// An object member that the schema does not declare.
    UnexpectedProperty,
    /// A schema kind the validator does not support.
    UnsupportedSchemaKind,
}

/// One recorded validation failure.
#[derive(Debug)]
pub struct Failure {
    pub kind: FailureKind,
    pub perspective: Perspective,
    pub text: String,
}

/// The mathematical form of a failure.
pub struct FailureV {
    pub kind: FailureKind,
    pub perspective: Perspective,
    pub text: Seq<char>,
}

impl View for Failure {
    type V = FailureV;

    open spec fn view(&self) -> FailureV {
        FailureV { kind: self.kind, perspective: self.perspective, text: self.text@ }
    }
}

/// One observed fact about a request or response.
#[derive(Debug)]
pub struct Property {
    pub name: String,
    pub value: String,
}

impl View for Property {
    type V = (Seq<char>, Seq<char>);

    open spec fn view(&self) -> (Seq<char>, Seq<char>) {
        (self.name@, self.value@)
    }
}

/// One proxied request's full validation outcome.
#[derive(Debug)]
pub struct Testcase {
    pub name: String,
    pub properties: Vec<Property>,
    pub failures: Vec<Failure>,
    pub elapsed_ms: u64,
}

/// The failures of a vector, as the specification sees them.
pub open spec fn fails_view(v: Seq<Failure>) -> Seq<FailureV> {
    v.map_values(|f: Failure| f@)
}

/// The properties of a vector, as the specification sees them.
pub open spec fn props_view(v: Seq<Property>) -> Seq<(Seq<char>, Seq<char>)> {
    v.map_values(|p: Property| p@)
}

/// The dotted classification string of a failure: the five route- and
/// reference-level kinds are unqualified; the rest carry the perspective as
/// a `Request.`/`Response.` prefix.
pub open spec fn spec_label(kind: FailureKind, p: Perspective) -> Seq<char> {
    let pre = match p {
        Perspective::Request => "Request."@,
        Perspective::Response => "Response."@,
    };
    match kind {
        FailureKind::PathNotFound => "PathNotFound"@,
        FailureKind::InvalidHTTPMethod => "InvalidHTTPMethod"@,
        FailureKind::InvalidStatusCode => "InvalidStatusCode"@,
        FailureKind::MissingResponseDefinition => "MissingResponseDefinition"@,
        FailureKind::MissingSchemaDefinition => "MissingSchemaDefinition"@,
        FailureKind::MismatchNonEmptyBody => pre + "MismatchNonEmptyBody"@,
        FailureKind::MissingContentTypeHeader => pre + "MissingContentTypeHeader"@,
        FailureKind::MismatchedContentTypeHeader => pre + "MismatchedContentTypeHeader"@,
        FailureKind::FailedJSONDeserialization => pre + "FailedJSONDeserialization"@,
        FailureKind::UnexpectedNull => pre + "FailedValidation.UnexpectedNull"@,
        FailureKind::UnexpectedBoolean => pre + "FailedValidation.UnexpectedBoolean"@,
        FailureKind::UnexpectedNumber => pre + "FailedValidation.UnexpectedNumber"@,
        FailureKind::UnexpectedString => pre + "FailedValidation.UnexpectedString"@,
        FailureKind::UnexpectedProperty => pre + "FailedValidation.UnexpectedProperty"@,
        FailureKind::UnsupportedSchemaKind => pre + "FailedValidation.UnsupportedSchemaKind"@,
    }
}

impl Failure {
    /// The classification string used by the report.
    pub fn label(&self) -> (r: String)
        ensures
            r@ == spec_label(self.kind, self.perspective),
    {
        let pre = match self.perspective {
            Perspective::Request => String::from_str("Request."),
            Perspective::Response => String::from_str("Response."),
        };
        match self.kind {
            FailureKind::PathNotFound => String::from_str("PathNotFound"),
            FailureKind::InvalidHTTPMethod => String::from_str("InvalidHTTPMethod"),
            FailureKind::InvalidStatusCode => String::from_str("InvalidStatusCode"),
            FailureKind::MissingResponseDefinition => String::from_str("MissingResponseDefinition"),
            FailureKind::MissingSchemaDefinition => String::from_str("MissingSchemaDefinition"),
            FailureKind::MismatchNonEmptyBody => pre.concat("MismatchNonEmptyBody"),
            FailureKind::MissingContentTypeHeader => pre.concat("MissingContentTypeHeader"),
            FailureKind::MismatchedContentTypeHeader => pre.concat("MismatchedContentTypeHeader"),
            FailureKind::FailedJSONDeserialization => pre.concat("FailedJSONDeserialization"),
            FailureKind::UnexpectedNull => pre.concat("FailedValidation.UnexpectedNull"),
            FailureKind::UnexpectedBoolean => pre.concat("FailedValidation.UnexpectedBoolean"),
            FailureKind::UnexpectedNumber => pre.concat("FailedValidation.UnexpectedNumber"),
            FailureKind::UnexpectedString => pre.concat("FailedValidation.UnexpectedString"),
            FailureKind::UnexpectedProperty => pre.concat("FailedValidation.UnexpectedProperty"),
            FailureKind::UnsupportedSchemaKind => pre.concat(
                "FailedValidation.UnsupportedSchemaKind",
            ),
        }
    }
}

/// Strict lexicographic order on character sequences, by code point.
pub open spec fn chars_lt(a: Seq<char>, b: Seq<char>) -> bool
    decreases a.len(),
{
    if b.len() == 0 {
        false
    } else if a.len() == 0 {
        true
    } else if a[0] != b[0] {
        (a[0] as int) < (b[0] as int)
    } else {
        chars_lt(a.drop_first(), b.drop_first())
    }
}

/// Strict order on properties: by name, then by value.
pub open spec fn prop_lt(a: (Seq<char>, Seq<char>), b: (Seq<char>, Seq<char>)) -> bool {
    chars_lt(a.0, b.0) || (a.0 == b.0 && chars_lt(a.1, b.1))
}

/// Insertion of `x` into `s` after every element below it.
pub open spec fn spec_insert_sorted(
    x: (Seq<char>, Seq<char>),
    s: Seq<(Seq<char>, Seq<char>)>,
) -> Seq<(Seq<char>, Seq<char>)>
    decreases s.len(),
{
    if s.len() > 0 && prop_lt(s[0], x) {
        seq![s[0]] + spec_insert_sorted(x, s.drop_first())
    } else {
        seq![x] + s
    }
}

/// Insertion sort of a property list, by name then value.  This is the
/// order in which a testcase's properties are stored.
pub open spec fn spec_sort_props(s: Seq<(Seq<char>, Seq<char>)>) -> Seq<(Seq<char>, Seq<char>)>
    decreases s.len(),
{
    if s.len() == 0 {
        Seq::empty()
    } else {
        spec_insert_sorted(s[0], spec_sort_props(s.drop_first()))
    }
}

/// Sorting keeps exactly the elements of the input.
pub proof fn lemma_insert_sorted_contains(
    x: (Seq<char>, Seq<char>),
    s: Seq<(Seq<char>, Seq<char>)>,
    y: (Seq<char>, Seq<char>),
)
    ensures
        spec_insert_sorted(x, s).contains(y) <==> (y == x || s.contains(y)),
    decreases s.len(),
{
    if s.len() > 0 && prop_lt(s[0], x) {
        lemma_insert_sorted_contains(x, s.drop_first(), y);
        assert(spec_insert_sorted(x, s) == seq![s[0]] + spec_insert_sorted(x, s.drop_first()));
        if s.contains(y) {
            let k = choose|k: int| 0 <= k < s.len() && s[k] == y;
            if k == 0 {
                assert(spec_insert_sorted(x, s)[0] == y);
            } else {
                assert(s.drop_first()[k - 1] == y);
            }
        }
        if spec_insert_sorted(x, s).contains(y) {
            let k = choose|k: int| 0 <= k < spec_insert_sorted(x, s).len()
                && spec_insert_sorted(x, s)[k] == y;
            if k == 0 {
                assert(s[0] == y);
            } else {
                assert(spec_insert_sorted(x, s.drop_first())[k - 1] == y);
            }
        }
        if y == x || s.contains(y) {
            if y == x || s.drop_first().contains(y) {
                let k = choose|k: int| 0 <= k < spec_insert_sorted(x, s.drop_first()).len()
                    && spec_insert_sorted(x, s.drop_first())[k] == y;
                assert(spec_insert_sorted(x, s)[k + 1] == y);
            }
        }
    } else {
        assert(spec_insert_sorted(x, s) == seq![x] + s);
        assert(spec_insert_sorted(x, s)[0] == x);
        if s.contains(y) {
            let k = choose|k: int| 0 <= k < s.len() && s[k] == y;
            assert(spec_insert_sorted(x, s)[k + 1] == y);
        }
        if spec_insert_sorted(x, s).contains(y) {
            let k = choose|k: int| 0 <= k < spec_insert_sorted(x, s).len()
                && spec_insert_sorted(x, s)[k] == y;
            if k > 0 {
                assert(s[k - 1] == y);
            }
        }
    }
}

/// The sorted property list holds exactly the properties of the input.
pub proof fn lemma_sort_props_contains(s: Seq<(Seq<char>, Seq<char>)>, y: (Seq<char>, Seq<char>))
    ensures
        spec_sort_props(s).contains(y) <==> s.contains(y),
    decreases s.len(),
{
    if s.len() > 0 {
        lemma_sort_props_contains(s.drop_first(), y);
        lemma_insert_sorted_contains(s[0], spec_sort_props(s.drop_first()), y);
        if s.contains(y) {
            let k = choose|k: int| 0 <= k < s.len() && s[k] == y;
            if k > 0 {
                assert(s.drop_first()[k - 1] == y);
            }
        }
        if y == s[0] || s.drop_first().contains(y) {
            if s.drop_first().contains(y) {
                let k = choose|k: int| 0 <= k < s.drop_first().len() && s.drop_first()[k] == y;
                assert(s[k + 1] == y);
            }
        }
    }
}

/// The order on character sequences relates any two of them.
pub proof fn lemma_chars_lt_connected(a: Seq<char>, b: Seq<char>)
    ensures
        chars_lt(a, b) || chars_lt(b, a) || a == b,
    decreases a.len(),
{
    if b.len() == 0 {
        if a.len() == 0 {
            assert(a =~= b);
        }
    } else if a.len() == 0 {
    } else if a[0] != b[0] {
    } else {
        lemma_chars_lt_connected(a.drop_first(), b.drop_first());
        if a.drop_first() == b.drop_first() {
            assert(a.len() == a.drop_first().len() + 1);
            assert(b.len() == b.drop_first().len() + 1);
            assert forall|i: int| 0 <= i < a.len() implies a[i] == b[i] by {
                if i > 0 {
                    assert(a.drop_first()[i - 1] == a[i]);
                    assert(b.drop_first()[i - 1] == b[i]);
                }
            }
            assert(a =~= b);
        }
    }
}

/// The order on character sequences is asymmetric.
pub proof fn lemma_chars_lt_asymmetric(a: Seq<char>, b: Seq<char>)
    ensures
        !(chars_lt(a, b) && chars_lt(b, a)),
    decreases a.len(),
{
    if a.len() > 0 && b.len() > 0 && a[0] == b[0] {
        lemma_chars_lt_asymmetric(a.drop_first(), b.drop_first());
    }
}

/// The order on character sequences is transitive.
pub proof fn lemma_chars_lt_transitive(a: Seq<char>, b: Seq<char>, c: Seq<char>)
    ensures
        chars_lt(a, b) && chars_lt(b, c) ==> chars_lt(a, c),
    decreases a.len(),
{
    if a.len() > 0 && b.len() > 0 && c.len() > 0 && a[0] == b[0] && b[0] == c[0] {
        lemma_chars_lt_transitive(a.drop_first(), b.drop_first(), c.drop_first());
    }
}

/// The order on properties relates any two of them.
pub proof fn lemma_prop_lt_connected(a: (Seq<char>, Seq<char>), b: (Seq<char>, Seq<char>))
    ensures
        prop_lt(a, b) || prop_lt(b, a) || a == b,
{
    lemma_chars_lt_connected(a.0, b.0);
    if a.0 == b.0 {
        lemma_chars_lt_connected(a.1, b.1);
    }
}

/// The order on properties is asymmetric.
pub proof fn lemma_prop_lt_asymmetric(a: (Seq<char>, Seq<char>), b: (Seq<char>, Seq<char>))
    ensures
        !(prop_lt(a, b) && prop_lt(b, a)),
{
    lemma_chars_lt_asymmetric(a.0, b.0);
    lemma_chars_lt_asymmetric(a.1, b.1);
}

/// The order on properties is transitive.
pub proof fn lemma_prop_lt_transitive(
    a: (Seq<char>, Seq<char>),
    b: (Seq<char>, Seq<char>),
    c: (Seq<char>, Seq<char>),
)
    ensures
        prop_lt(a, b) && prop_lt(b, c) ==> prop_lt(a, c),
{
    lemma_chars_lt_transitive(a.0, b.0, c.0);
    lemma_chars_lt_asymmetric(a.0, b.0);
    lemma_chars_lt_asymmetric(b.0, c.0);
    if a.0 == b.0 {
        lemma_chars_lt_transitive(a.1, b.1, c.1);
    }
    if b.0 == c.0 {
        lemma_chars_lt_transitive(a.1, b.1, c.1);
    }
}

/// No later element is below an earlier one.
pub open spec fn props_sorted(s: Seq<(Seq<char>, Seq<char>)>) -> bool {
    forall|i: int, j: int| 0 <= i < j < s.len() ==> !prop_lt(#[trigger] s[j], #[trigger] s[i])
}

/// Inserting into a sorted property list keeps it sorted.
pub proof fn lemma_insert_sorted_sorted(
    x: (Seq<char>, Seq<char>),
    s: Seq<(Seq<char>, Seq<char>)>,
)
    requires
        props_sorted(s),
    ensures
        props_sorted(spec_insert_sorted(x, s)),
    decreases s.len(),
{
    let r = spec_insert_sorted(x, s);
    if s.len() > 0 && prop_lt(s[0], x) {
        let tail = s.drop_first();
        assert forall|i: int, j: int| 0 <= i < j < tail.len() implies !prop_lt(
            #[trigger] tail[j],
            #[trigger] tail[i],
        ) by {
            assert(tail[j] == s[j + 1]);
            assert(tail[i] == s[i + 1]);
        }
        lemma_insert_sorted_sorted(x, tail);
        let rt = spec_insert_sorted(x, tail);
        assert(r == seq![s[0]] + rt);
        assert forall|i: int, j: int| 0 <= i < j < r.len() implies !prop_lt(
            #[trigger] r[j],
            #[trigger] r[i],
        ) by {
            if i == 0 {
                assert(r[j] == rt[j - 1]);
                assert(rt.contains(rt[j - 1]));
                lemma_insert_sorted_contains(x, tail, rt[j - 1]);
                if rt[j - 1] == x {
                    lemma_prop_lt_asymmetric(x, s[0]);
                } else {
                    let k = choose|k: int| 0 <= k < tail.len() && tail[k] == rt[j - 1];
                    assert(tail[k] == s[k + 1]);
                    assert(!prop_lt(s[k + 1], s[0]));
                }
            } else {
                assert(r[i] == rt[i - 1]);
                assert(r[j] == rt[j - 1]);
            }
        }
    } else {
        assert(r == seq![x] + s);
        assert forall|i: int, j: int| 0 <= i < j < r.len() implies !prop_lt(
            #[trigger] r[j],
            #[trigger] r[i],
        ) by {
            if i == 0 {
                assert(r[j] == s[j - 1]);
                if prop_lt(s[j - 1], x) {
                    lemma_prop_lt_connected(x, s[0]);
                    if x == s[0] {
                        assert(!prop_lt(s[j - 1], s[0]));
                    } else {
                        lemma_prop_lt_transitive(s[j - 1], x, s[0]);
                        assert(!prop_lt(s[j - 1], s[0]));
                    }
                }
            } else {
                assert(r[i] == s[i - 1]);
                assert(r[j] == s[j - 1]);
            }
        }
    }
}

/// The property sort yields a list sorted by name, then value.
pub proof fn lemma_sort_props_sorted(s: Seq<(Seq<char>, Seq<char>)>)
    ensures
        props_sorted(spec_sort_props(s)),
    decreases s.len(),
{
    if s.len() > 0 {
        lemma_sort_props_sorted(s.drop_first());
        lemma_insert_sorted_sorted(s[0], spec_sort_props(s.drop_first()));
    }
}

/// Prepending an element inserts it into the sequence's multiset.
proof fn lemma_cons_to_multiset(x: (Seq<char>, Seq<char>), t: Seq<(Seq<char>, Seq<char>)>)
    ensures
        (seq![x] + t).to_multiset() =~= t.to_multiset().insert(x),
{
    broadcast use vstd::seq_lib::group_to_multiset_ensures;
    broadcast use vstd::multiset::group_multiset_axioms;

    let u = seq![x] + t;
    assert(u.remove(0) =~= t);
    assert(u[0] == x);
    assert(u.remove(0).to_multiset() =~= u.to_multiset().remove(x));
    assert(u.contains(x));
    assert(u.to_multiset().count(x) > 0);
    assert(u.to_multiset() =~= u.to_multiset().remove(x).insert(x));
}

/// Insertion adds exactly the inserted element.
pub proof fn lemma_insert_sorted_multiset(
    x: (Seq<char>, Seq<char>),
    s: Seq<(Seq<char>, Seq<char>)>,
)
    ensures
        spec_insert_sorted(x, s).to_multiset() =~= s.to_multiset().insert(x),
    decreases s.len(),
{
    broadcast use vstd::multiset::group_multiset_axioms;

    let r = spec_insert_sorted(x, s);
    if s.len() > 0 && prop_lt(s[0], x) {
        let tail = s.drop_first();
        lemma_insert_sorted_multiset(x, tail);
        let rt = spec_insert_sorted(x, tail);
        assert(r == seq![s[0]] + rt);
        lemma_cons_to_multiset(s[0], rt);
        assert(s =~= seq![s[0]] + tail);
        lemma_cons_to_multiset(s[0], tail);
        assert(r.to_multiset() =~= tail.to_multiset().insert(x).insert(s[0]));
        assert(tail.to_multiset().insert(x).insert(s[0]) =~= tail.to_multiset().insert(
            s[0],
        ).insert(x));
    } else {
        assert(r == seq![x] + s);
        lemma_cons_to_multiset(x, s);
    }
}

/// The property sort is a permutation: it keeps exactly the recorded
/// properties, with their multiplicities.
pub proof fn lemma_sort_props_multiset(s: Seq<(Seq<char>, Seq<char>)>)
    ensures
        spec_sort_props(s).to_multiset() =~= s.to_multiset(),
    decreases s.len(),
{
    broadcast use vstd::multiset::group_multiset_axioms;

    if s.len() > 0 {
        let tail = s.drop_first();
        lemma_sort_props_multiset(tail);
        lemma_insert_sorted_multiset(s[0], spec_sort_props(tail));
        assert(s =~= seq![s[0]] + tail);
        lemma_cons_to_multiset(s[0], tail);
        assert(spec_sort_props(s) == spec_insert_sorted(s[0], spec_sort_props(tail)));
        assert(spec_sort_props(s).to_multiset() =~= spec_sort_props(tail).to_multiset().insert(
            s[0],
        ));
        assert(spec_sort_props(tail).to_multiset() == tail.to_multiset());
        assert(s.to_multiset() =~= tail.to_multiset().insert(s[0]));
    } else {
        assert(s =~= Seq::<(Seq<char>, Seq<char>)>::empty());
    }
}

/// Code-point comparison of two strings.
fn chars_lt_x(a: &str, b: &str) -> (r: bool)
    ensures
        r == chars_lt(a@, b@),
{
    let la = a.unicode_len();
    let lb = b.unicode_len();
    let mut i: usize = 0;
    proof {
        assert(a@.skip(0) =~= a@);
        assert(b@.skip(0) =~= b@);
    }
    loop
        invariant
            i <= la,
            i <= lb,
            la == a@.len(),
            lb == b@.len(),
            chars_lt(a@, b@) == chars_lt(a@.skip(i as int), b@.skip(i as int)),
        decreases la - i,
    {
        if i < lb {
            if i < la {
                let ca = a.get_char(i);
                let cb = b.get_char(i);
                if ca == cb {
                    proof {
                        assert(a@.skip(i as int).drop_first() =~= a@.skip(i as int + 1));
                        assert(b@.skip(i as int).drop_first() =~= b@.skip(i as int + 1));
                    }
                    i = i + 1;
                } else {
                    return (ca as u32) < (cb as u32);
                }
            } else {
                return true;
            }
        } else {
            return false;
        }
    }
}

/// Order of two properties, by name then value.
fn prop_lt_x(a: &Property, b: &Property) -> (r: bool)
    ensures
        r == prop_lt(a@, b@),
{
    if chars_lt_x(a.name.as_str(), b.name.as_str()) {
        true
    } else if crate::text::str_eq(a.name.as_str(), b.name.as_str()) {
        chars_lt_x(a.value.as_str(), b.value.as_str())
    } else {
        false
    }
}

/// Inserts `x` into the sorted vector `s`, after every element below it.
#[verifier::loop_isolation(false)]
fn insert_sorted(x: Property, s: Vec<Property>) -> (r: Vec<Property>)
    ensures
        props_view(r@) == spec_insert_sorted(x@, props_view(s@)),
{
    let mut s = s;
    let ghost gs = props_view(s@);
    let mut k: usize = 0;
    proof {
        assert(gs.take(0) =~= Seq::<(Seq<char>, Seq<char>)>::empty());
        assert(gs.skip(0) =~= gs);
        assert(spec_insert_sorted(x@, gs) == gs.take(0) + spec_insert_sorted(x@, gs.skip(0)));
    }
    loop
        invariant
            k <= s@.len(),
            gs == props_view(s@),
            gs.len() == s@.len(),
            spec_insert_sorted(x@, gs) == gs.take(k as int) + spec_insert_sorted(
                x@,
                gs.skip(k as int),
            ),
        decreases s@.len() - k,
    {
        if k < s.len() {
            proof {
                assert(gs[k as int] == s@[k as int]@);
                assert(gs.skip(k as int)[0] == gs[k as int]);
            }
            if prop_lt_x(&s[k], &x) {
                proof {
                    assert(gs.skip(k as int).drop_first() =~= gs.skip(k as int + 1));
                    assert(spec_insert_sorted(x@, gs.skip(k as int)) == seq![gs[k as int]]
                        + spec_insert_sorted(x@, gs.skip(k as int + 1)));
                    assert(gs.take(k as int) + (seq![gs[k as int]] + spec_insert_sorted(
                        x@,
                        gs.skip(k as int + 1),
                    )) =~= gs.take(k as int + 1) + spec_insert_sorted(x@, gs.skip(k as int + 1)));
                }
                k = k + 1;
            } else {
                proof {
                    assert(spec_insert_sorted(x@, gs.skip(k as int)) == seq![x@] + gs.skip(
                        k as int,
                    ));
                }
                let ghost pre = s@;
                s.insert(k, x);
                proof {
                    assert(props_view(s@) =~= gs.take(k as int) + (seq![x@] + gs.skip(k as int)));
                }
                return s;
            }
        } else {
            proof {
                assert(gs.skip(k as int).len() == 0);
                assert(spec_insert_sorted(x@, gs.skip(k as int)) == seq![x@] + gs.skip(k as int));
            }
            let ghost pre = s@;
            s.push(x);
            proof {
                assert(props_view(s@) =~= gs.take(k as int) + (seq![x@] + gs.skip(k as int)));
            }
            return s;
        }
    }
}

/// Sorts a property list by name, then value; see [`spec_sort_props`].
pub fn sort_props(v: Vec<Property>) -> (r: Vec<Property>)
    ensures
        props_view(r@) == spec_sort_props(props_view(v@)),
    decreases v@.len(),
{
    let mut v = v;
    if v.len() == 0 {
        proof {
            assert(props_view(v@) =~= Seq::<(Seq<char>, Seq<char>)>::empty());
        }
        v
    } else {
        let ghost gv = props_view(v@);
        let first = v.remove(0);
        proof {
            assert(props_view(v@) =~= gv.drop_first());
            assert(first@ == gv[0]);
        }
        let rest = sort_props(v);
        insert_sorted(first, rest)
    }
}

/// The elapsed time of a testcase rendered in seconds with two decimals,
/// rounding the milliseconds half-up to centiseconds.
pub open spec fn spec_time_label(ms: nat) -> Seq<char> {
    let centis = ((ms % 1000) + 5) / 10;
    let secs = ms / 1000 + if centis == 100 {
        1nat
    } else {
        0nat
    };
    let cc = if centis == 100 {
        0nat
    } else {
        centis
    };
    spec_decimal(secs) + "."@ + digit_seq(cc / 10) + digit_seq(cc % 10)
}

impl Testcase {
    /// Renders the elapsed time for the report.
    pub fn time_label(&self) -> (r: String)
        ensures
            r@ == spec_time_label(self.elapsed_ms as nat),
    {
        let ms = self.elapsed_ms;
        let centis: u64 = ((ms % 1000) + 5) / 10;
        let secs: u64 = ms / 1000 + if centis == 100 {
            1
        } else {
            0
        };
        let cc: u64 = if centis == 100 {
            0
        } else {
            centis
        };
        let mut r = decimal_string(secs);
        r.append(".");
        let mut tens = decimal_string(cc / 10);
        let mut ones = decimal_string(cc % 10);
        r.append(tens.as_str());
        r.append(ones.as_str());
        proof {
            assert(cc < 100);
            assert(spec_decimal((cc / 10) as nat) == digit_seq((cc / 10) as nat));
            assert(spec_decimal((cc % 10) as nat) == digit_seq((cc % 10) as nat));
        }
        r
    }
}

/// A one-element failure vector.
pub(crate) fn single_failure(kind: FailureKind, p: Perspective, text: String) -> (r: Vec<
    Failure,
>)
    ensures
        fails_view(r@) == seq![(FailureV { kind, perspective: p, text: text@ })],
{
    let mut v: Vec<Failure> = Vec::new();
    v.push(Failure { kind, perspective: p, text });
    proof {
        assert(fails_view(v@) =~= seq![(FailureV { kind, perspective: p, text: text@ })]);
    }
    v
}

/// An empty failure vector.
pub(crate) fn no_failures() -> (r: Vec<Failure>)
    ensures
        fails_view(r@) == Seq::<FailureV>::empty(),
{
    let v: Vec<Failure> = Vec::new();
    proof {
        assert(fails_view(v@) =~= Seq::<FailureV>::empty());
    }
    v
}

} // verus!
