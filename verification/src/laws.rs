//! Laws of the validation pipeline, stated over the same specification
//! functions that the executable functions are proved against.

use vstd::prelude::*;

use crate::pipeline::{spec_validate_request, spec_validate_response, Method};
use crate::record::{lemma_sort_props_contains, spec_sort_props, FailureKind, FailureV,
    Perspective};
use crate::route::{first_match, spec_extract_path_remainder};
use crate::schema::{spec_lookup, Document, PathItem, PathItemRef, Schema, SchemaKind};
use crate::json::JsonV;
use crate::text::has_prefix;
use crate::validate::spec_validate;

verus! {

/// When the relative path matches no route template, the completed
/// testcase holds exactly one failure, of kind `PathNotFound`, and none of
/// its properties is a path parameter.
pub proof fn lemma_unrouted_testcase(
    doc: Document,
    upstream: Seq<char>,
    path: Seq<char>,
    m: Method,
    ct: Option<Seq<char>>,
    body: Seq<u8>,
    status: u16,
    rct: Option<Seq<char>>,
    rbody: Seq<u8>,
    cid: Seq<char>,
)
    requires
        first_match(doc.paths@, spec_extract_path_remainder(upstream, path), 0) is None,
    ensures
        ({
            let vr = spec_validate_request(doc, None, m, path, ct, body);
            let vs = spec_validate_response(doc, None, m, status, rct, rbody);
            (seq![
                (FailureV {
                    kind: FailureKind::PathNotFound,
                    perspective: Perspective::Request,
                    text: "Path not found"@,
                }),
            ] + vr.1 + vs.1) =~= seq![
                (FailureV {
                    kind: FailureKind::PathNotFound,
                    perspective: Perspective::Request,
                    text: "Path not found"@,
                }),
            ]
        }),
        ({
            let vr = spec_validate_request(doc, None, m, path, ct, body);
            let vs = spec_validate_response(doc, None, m, status, rct, rbody);
            let props = spec_sort_props(
                (vr.0 + seq![("correlationId"@, cid)]) + vs.0,
            );
            forall|k: int|
                0 <= k < props.len() ==> !has_prefix(#[trigger] props[k].0, "pathParameter-"@)
        }),
{
    let vr = spec_validate_request(doc, None, m, path, ct, body);
    let vs = spec_validate_response(doc, None, m, status, rct, rbody);
    let merged = (vr.0 + seq![("correlationId"@, cid)]) + vs.0;
    let props = spec_sort_props(merged);
    assert(vr.1 =~= Seq::<FailureV>::empty());
    assert(vs.1 =~= Seq::<FailureV>::empty());
    reveal_strlit("path");
    reveal_strlit("method");
    reveal_strlit("correlationId");
    reveal_strlit("statusCode");
    reveal_strlit("pathParameter-");
    assert forall|k: int| 0 <= k < props.len() implies !has_prefix(
        #[trigger] props[k].0,
        "pathParameter-"@,
    ) by {
        assert(props.contains(props[k]));
        lemma_sort_props_contains(merged, props[k]);
        let j = choose|j: int| 0 <= j < merged.len() && merged[j] == props[k];
        assert(merged.len() == 4);
        assert(props[k].0.len() < "pathParameter-"@.len());
    }
}

/// When the route matched but the path item declares no operation for the
/// request's method, the completed testcase holds exactly one failure, of
/// kind `InvalidHTTPMethod`: the request side reports it, and the response
/// side stops silently rather than repeat it.
pub proof fn lemma_wrong_method_testcase(
    doc: Document,
    t: Seq<char>,
    item: PathItem,
    m: Method,
    path: Seq<char>,
    ct: Option<Seq<char>>,
    body: Seq<u8>,
    status: u16,
    rct: Option<Seq<char>>,
    rbody: Seq<u8>,
)
    requires
        spec_lookup(doc.paths@, t) == Some(PathItemRef::Inline(item)),
        crate::pipeline::spec_operation_for(item, m) is None,
    ensures
        ({
            let vr = spec_validate_request(doc, Some(t), m, path, ct, body);
            let vs = spec_validate_response(doc, Some(t), m, status, rct, rbody);
            (vr.1 + vs.1) =~= seq![
                (FailureV {
                    kind: FailureKind::InvalidHTTPMethod,
                    perspective: Perspective::Request,
                    text: "Invalid HTTP method"@,
                }),
            ]
        }),
{
}

/// Validation is a pure function of the value, the schema and the
/// document: two runs over the same pair yield identical failure lists.
pub proof fn lemma_validate_deterministic(
    v: JsonV,
    schema: Schema,
    doc: Document,
    pointer: Seq<char>,
    p: Perspective,
    r1: Seq<FailureV>,
    r2: Seq<FailureV>,
)
    requires
        r1 == spec_validate(v, schema, doc, pointer, p),
        r2 == spec_validate(v, schema, doc, pointer, p),
    ensures
        r1 == r2,
{
}

/// A null value yields no failure exactly when the schema is nullable,
/// whatever the schema's kind; otherwise it yields exactly one
/// `UnexpectedNull` failure at the pointer.
pub proof fn lemma_validate_null(schema: Schema, doc: Document, pointer: Seq<char>, p: Perspective)
    ensures
        schema.nullable ==> spec_validate(JsonV::Null, schema, doc, pointer, p)
            == Seq::<FailureV>::empty(),
        !schema.nullable ==> spec_validate(JsonV::Null, schema, doc, pointer, p) == seq![
            (FailureV {
                kind: FailureKind::UnexpectedNull,
                perspective: p,
                text: "Received null value when null is not allowed at "@ + pointer,
            }),
        ],
        (spec_validate(JsonV::Null, schema, doc, pointer, p).len() == 0) <==> schema.nullable,
{
}

/// An array against an array schema that declares no items yields exactly
/// one `MissingSchemaDefinition` failure, whatever the elements: the
/// validator never descends into them.
pub proof fn lemma_array_without_items(
    elems: Seq<JsonV>,
    nullable: bool,
    doc: Document,
    pointer: Seq<char>,
    p: Perspective,
)
    ensures
        spec_validate(
            JsonV::Arr(elems),
            Schema { nullable, kind: SchemaKind::Array { items: None } },
            doc,
            pointer,
            p,
        ) == seq![
            (FailureV {
                kind: FailureKind::MissingSchemaDefinition,
                perspective: p,
                text: "Array schema does not contain items schema"@,
            }),
        ],
{
}

/// A response with status 204 or 304 is validated as if its body were
/// empty: the response-side record does not depend on the received body or
/// its content type.
pub proof fn lemma_no_content_status_ignores_body(
    doc: Document,
    route: Option<Seq<char>>,
    m: Method,
    status: u16,
    ct1: Option<Seq<char>>,
    body1: Seq<u8>,
    ct2: Option<Seq<char>>,
    body2: Seq<u8>,
)
    requires
        status == 204 || status == 304,
    ensures
        spec_validate_response(doc, route, m, status, ct1, body1) == spec_validate_response(
            doc,
            route,
            m,
            status,
            ct2,
            body2,
        ),
{
}

} // verus!
