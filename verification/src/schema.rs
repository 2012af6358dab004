//! The parsed OpenAPI document as the validator sees it: path items with
//! their operations, request-body and response declarations, schema nodes,
//! and the components section that named references point into.
//!
//! Reference resolution is a pure lookup.  A reference of the form
//! `#/components/<section>/<Name>` resolves by stripping the fixed prefix
//! and looking `<Name>` up in the matching component map; a components entry
//! that is itself a reference is not chased further and resolves to nothing.

use vstd::prelude::*;
use vstd::string::StrSliceExecFns;

use crate::text::{has_prefix, str_eq, str_has_prefix};

verus! {

/// A schema, inline or named.
pub enum SchemaRef {
    Inline(Box<Schema>),
    Ref(String),
}

/// A structural schema node.
pub struct Schema {
    pub nullable: bool,
    pub kind: SchemaKind,
}

/// The supported schema kinds.  Compositions other than `AllOf` and bare
/// non-object types fall under `Other` and are reported as unsupported.
pub enum SchemaKind {
    Object { properties: Vec<(String, SchemaRef)> },
    Array { items: Option<SchemaRef> },
    Str,
    Num,
    Int,
    Bool,
    AllOf { members: Vec<SchemaRef> },
    Other,
}

/// One declared content entry of a request body or response.
pub struct MediaType {
    pub schema: Option<SchemaRef>,
}

/// A declared request body: its content entries, keyed by content type.
pub struct RequestBody {
    pub content: Vec<(String, MediaType)>,
}

/// A declared response: its content entries, keyed by content type.
pub struct Response {
    pub content: Vec<(String, MediaType)>,
}

/// A request body, inline or named.
pub enum RequestBodyRef {
    Inline(RequestBody),
    Ref(String),
}

/// A response, inline or named.
pub enum ResponseRef {
    Inline(Response),
    Ref(String),
}

/// One HTTP-method entry under a path item.
pub struct Operation {
    pub operation_id: Option<String>,
    pub request_body: Option<RequestBodyRef>,
    pub responses: Vec<(u16, ResponseRef)>,
}

/// The operations declared for one path template.
pub struct PathItem {
    pub get: Option<Operation>,
    pub put: Option<Operation>,
    pub post: Option<Operation>,
    pub delete: Option<Operation>,
    pub options: Option<Operation>,
    pub head: Option<Operation>,
    pub patch: Option<Operation>,
    pub trace: Option<Operation>,
}

/// A path item, inline or named.  The pipeline does not resolve path-item
/// references; a referenced path item counts as not found.
pub enum PathItemRef {
    Inline(PathItem),
    Ref(String),
}

/// The components section: named schemas, responses and request bodies.
pub struct Components {
    pub schemas: Vec<(String, SchemaRef)>,
    pub responses: Vec<(String, ResponseRef)>,
    pub request_bodies: Vec<(String, RequestBodyRef)>,
}

/// The parsed OpenAPI document.
pub struct Document {
    pub paths: Vec<(String, PathItemRef)>,
    pub components: Option<Components>,
}

/// First entry of `entries` whose key reads `key`, scanning left to right.
pub open spec fn spec_lookup<T>(entries: Seq<(String, T)>, key: Seq<char>) -> Option<T>
    decreases entries.len(),
{
    if entries.len() == 0 {
        None
    } else if entries[0].0@ == key {
        Some(entries[0].1)
    } else {
        spec_lookup(entries.drop_first(), key)
    }
}

/// Looks `key` up among `entries`, returning the first match.
pub fn lookup<'a, T>(entries: &'a Vec<(String, T)>, key: &str) -> (r: Option<&'a T>)
    ensures
        match r {
            Some(t) => spec_lookup(entries@, key@) == Some(*t),
            None => spec_lookup(entries@, key@) is None,
        },
{
    let mut i: usize = 0;
    proof {
        assert(entries@.skip(0) =~= entries@);
    }
    while i < entries.len()
        invariant
            i <= entries@.len(),
            spec_lookup(entries@, key@) == spec_lookup(entries@.skip(i as int), key@),
        decreases entries@.len() - i,
    {
        let p = &entries[i];
        if str_eq(p.0.as_str(), key) {
            proof {
                assert(entries@.skip(i as int)[0] == entries@[i as int]);
            }
            return Some(&p.1);
        }
        proof {
            assert(entries@.skip(i as int).drop_first() =~= entries@.skip(i as int + 1));
            assert(entries@.skip(i as int)[0] == entries@[i as int]);
        }
        i = i + 1;
    }
    proof {
        assert(entries@.skip(i as int).len() == 0);
    }
    None
}

/// The component name of `r`, when `r` starts with the prefix `pre`.
pub open spec fn ref_name(r: Seq<char>, pre: Seq<char>) -> Seq<char> {
    r.subrange(pre.len() as int, r.len() as int)
}

/// Resolution of a schema reference: an inline node is itself; a
/// `#/components/schemas/` reference is looked up, one level only.
pub open spec fn spec_resolve_schema(r: SchemaRef, doc: Document) -> Option<Schema> {
    match r {
        SchemaRef::Inline(b) => Some(*b),
        SchemaRef::Ref(name) => if has_prefix(name@, "#/components/schemas/"@) {
            match doc.components {
                None => None,
                Some(c) => match spec_lookup(c.schemas@, ref_name(name@, "#/components/schemas/"@)) {
                    Some(SchemaRef::Inline(b)) => Some(*b),
                    _ => None,
                },
            }
        } else {
            None
        },
    }
}

/// Resolution of a response reference, against `#/components/responses/`.
pub open spec fn spec_resolve_response(r: ResponseRef, doc: Document) -> Option<Response> {
    match r {
        ResponseRef::Inline(b) => Some(b),
        ResponseRef::Ref(name) => if has_prefix(name@, "#/components/responses/"@) {
            match doc.components {
                None => None,
                Some(c) => match spec_lookup(
                    c.responses@,
                    ref_name(name@, "#/components/responses/"@),
                ) {
                    Some(ResponseRef::Inline(b)) => Some(b),
                    _ => None,
                },
            }
        } else {
            None
        },
    }
}

/// Resolution of a request-body reference, against
/// `#/components/requestBodies/`.
pub open spec fn spec_resolve_request_body(r: RequestBodyRef, doc: Document) -> Option<
    RequestBody,
> {
    match r {
        RequestBodyRef::Inline(b) => Some(b),
        RequestBodyRef::Ref(name) => if has_prefix(name@, "#/components/requestBodies/"@) {
            match doc.components {
                None => None,
                Some(c) => match spec_lookup(
                    c.request_bodies@,
                    ref_name(name@, "#/components/requestBodies/"@),
                ) {
                    Some(RequestBodyRef::Inline(b)) => Some(b),
                    _ => None,
                },
            }
        } else {
            None
        },
    }
}

/// Resolves a schema reference against the document.
pub fn resolve_schema<'a>(r: &'a SchemaRef, doc: &'a Document) -> (res: Option<&'a Schema>)
    ensures
        match res {
            Some(s) => spec_resolve_schema(*r, *doc) == Some(*s),
            None => spec_resolve_schema(*r, *doc) is None,
        },
{
    match r {
        SchemaRef::Inline(b) => Some(&**b),
        SchemaRef::Ref(name) => {
            let pre = "#/components/schemas/";
            if !str_has_prefix(name.as_str(), pre) {
                return None;
            }
            let plen = pre.unicode_len();
            let nlen = name.as_str().unicode_len();
            let rest = name.as_str().substring_char(plen, nlen);
            match &doc.components {
                None => None,
                Some(c) => match lookup(&c.schemas, rest) {
                    Some(SchemaRef::Inline(b)) => Some(&**b),
                    _ => None,
                },
            }
        },
    }
}

/// Resolves a response reference against the document.
pub fn resolve_response<'a>(r: &'a ResponseRef, doc: &'a Document) -> (res: Option<&'a Response>)
    ensures
        match res {
            Some(s) => spec_resolve_response(*r, *doc) == Some(*s),
            None => spec_resolve_response(*r, *doc) is None,
        },
{
    match r {
        ResponseRef::Inline(b) => Some(b),
        ResponseRef::Ref(name) => {
            let pre = "#/components/responses/";
            if !str_has_prefix(name.as_str(), pre) {
                return None;
            }
            let plen = pre.unicode_len();
            let nlen = name.as_str().unicode_len();
            let rest = name.as_str().substring_char(plen, nlen);
            match &doc.components {
                None => None,
                Some(c) => match lookup(&c.responses, rest) {
                    Some(ResponseRef::Inline(b)) => Some(b),
                    _ => None,
                },
            }
        },
    }
}

/// Resolves a request-body reference against the document.
pub fn resolve_request_body<'a>(r: &'a RequestBodyRef, doc: &'a Document) -> (res: Option<
    &'a RequestBody,
>)
    ensures
        match res {
            Some(s) => spec_resolve_request_body(*r, *doc) == Some(*s),
            None => spec_resolve_request_body(*r, *doc) is None,
        },
{
    match r {
        RequestBodyRef::Inline(b) => Some(b),
        RequestBodyRef::Ref(name) => {
            let pre = "#/components/requestBodies/";
            if !str_has_prefix(name.as_str(), pre) {
                return None;
            }
            let plen = pre.unicode_len();
            let nlen = name.as_str().unicode_len();
            let rest = name.as_str().substring_char(plen, nlen);
            match &doc.components {
                None => None,
                Some(c) => match lookup(&c.request_bodies, rest) {
                    Some(RequestBodyRef::Inline(b)) => Some(b),
                    _ => None,
                },
            }
        },
    }
}

} // verus!
