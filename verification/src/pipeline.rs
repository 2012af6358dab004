//! The validation pipeline: one sequential decision chain per perspective.
//!
//! Both sides record basic properties, resolve the operation, locate the
//! declared body (the request body on the request side, the response for
//! the observed status on the response side), and hand over to the shared
//! content stage: content-type gate, declared content entry, JSON gate,
//! schema resolution, body parse, and the structural validator.
//!
//! Failures that the request side already reported are not repeated by the
//! response side: a missing route or operation stops it silently.

use vstd::prelude::*;
use vstd::string::StringExecFns;

use crate::parse::{parse_json, spec_parse_json};
use crate::record::{fails_view, no_failures, props_view, single_failure, Failure,
    FailureKind, FailureV, Perspective, Property};
use crate::schema::{lookup, resolve_request_body, resolve_response, resolve_schema, spec_lookup,
    spec_resolve_request_body, spec_resolve_response, spec_resolve_schema, Document, MediaType,
    Operation, PathItem, PathItemRef, ResponseRef};
use crate::text::{spec_decimal, str_eq};
use crate::text::decimal_string;
use crate::validate::{spec_validate, validate_schema};

verus! {

/// An HTTP method: the eight the pipeline can look up, or anything else.
#[derive(Debug, Clone)]
pub enum Method {
    Delete,
    Get,
    Head,
    Options,
    Patch,
    Post,
    Put,
    Trace,
    Other(String),
}

/// The name of a method, as recorded in properties and testcase names.
pub open spec fn spec_method_label(m: Method) -> Seq<char> {
    match m {
        Method::Delete => "DELETE"@,
        Method::Get => "GET"@,
        Method::Head => "HEAD"@,
        Method::Options => "OPTIONS"@,
        Method::Patch => "PATCH"@,
        Method::Post => "POST"@,
        Method::Put => "PUT"@,
        Method::Trace => "TRACE"@,
        Method::Other(s) => s@,
    }
}

/// Renders the method name.
pub fn method_label(m: &Method) -> (r: String)
    ensures
        r@ == spec_method_label(*m),
{
    match m {
        Method::Delete => String::from_str("DELETE"),
        Method::Get => String::from_str("GET"),
        Method::Head => String::from_str("HEAD"),
        Method::Options => String::from_str("OPTIONS"),
        Method::Patch => String::from_str("PATCH"),
        Method::Post => String::from_str("POST"),
        Method::Put => String::from_str("PUT"),
        Method::Trace => String::from_str("TRACE"),
        Method::Other(s) => s.clone(),
    }
}

/// The operation a path item declares for a method, if any.
pub open spec fn spec_operation_for(item: PathItem, m: Method) -> Option<Operation> {
    match m {
        Method::Delete => item.delete,
        Method::Get => item.get,
        Method::Head => item.head,
        Method::Options => item.options,
        Method::Patch => item.patch,
        Method::Post => item.post,
        Method::Put => item.put,
        Method::Trace => item.trace,
        Method::Other(_) => None,
    }
}

/// Looks the operation for `m` up in `item`.
pub fn operation_for<'a>(item: &'a PathItem, m: &Method) -> (r: Option<&'a Operation>)
    ensures
        match r {
            Some(op) => spec_operation_for(*item, *m) == Some(*op),
            None => spec_operation_for(*item, *m) is None,
        },
{
    let field = match m {
        Method::Delete => &item.delete,
        Method::Get => &item.get,
        Method::Head => &item.head,
        Method::Options => &item.options,
        Method::Patch => &item.patch,
        Method::Post => &item.post,
        Method::Put => &item.put,
        Method::Trace => &item.trace,
        Method::Other(_) => {
            return None;
        },
    };
    match field {
        Some(op) => Some(op),
        None => None,
    }
}

/// First declared response entry for a status code.
pub open spec fn spec_status_lookup(entries: Seq<(u16, ResponseRef)>, status: u16) -> Option<
    ResponseRef,
>
    decreases entries.len(),
{
    if entries.len() == 0 {
        None
    } else if entries[0].0 == status {
        Some(entries[0].1)
    } else {
        spec_status_lookup(entries.drop_first(), status)
    }
}

/// Looks the declared response for `status` up.
fn status_lookup<'a>(entries: &'a Vec<(u16, ResponseRef)>, status: u16) -> (r: Option<
    &'a ResponseRef,
>)
    ensures
        match r {
            Some(t) => spec_status_lookup(entries@, status) == Some(*t),
            None => spec_status_lookup(entries@, status) is None,
        },
{
    let mut i: usize = 0;
    proof {
        assert(entries@.skip(0) =~= entries@);
    }
    while i < entries.len()
        invariant
            i <= entries@.len(),
            spec_status_lookup(entries@, status) == spec_status_lookup(
                entries@.skip(i as int),
                status,
            ),
        decreases entries@.len() - i,
    {
        proof {
            assert(entries@.skip(i as int)[0] == entries@[i as int]);
            assert(entries@.skip(i as int).drop_first() =~= entries@.skip(i as int + 1));
        }
        if entries[i].0 == status {
            return Some(&entries[i].1);
        }
        i = i + 1;
    }
    None
}

/// The content-type property name of a perspective.
pub open spec fn ct_prop_name(p: Perspective) -> Seq<char> {
    match p {
        Perspective::Request => "requestContentType"@,
        Perspective::Response => "responseContentType"@,
    }
}

/// The message of a missing content-type header, per perspective.
pub open spec fn missing_ct_text(p: Perspective) -> Seq<char> {
    match p {
        Perspective::Request =>
            "Request did not include a Content-Type header, unable to validate request body schema."@,
        Perspective::Response => "Response did not include a Content-Type header"@,
    }
}

/// The message of an undeclared content type, per perspective.
pub open spec fn mismatched_ct_text(p: Perspective, c: Seq<char>) -> Seq<char> {
    match p {
        Perspective::Request => "Spec does not contain matching request for Content-Type: "@ + c,
        Perspective::Response => "Spec does not contain matching response for Content-Type: "@
            + c,
    }
}

/// The message of an unparseable JSON body, per perspective.
pub open spec fn parse_fail_text(p: Perspective) -> Seq<char> {
    match p {
        Perspective::Request => "Failed to parse request body as JSON"@,
        Perspective::Response => "Failed to parse response body as JSON"@,
    }
}

/// Steps shared by both perspectives once a declared content map is at
/// hand: the content-type gate, the declared content entry, the JSON gate,
/// schema resolution, the body parse, and the structural validator.
pub open spec fn spec_content_stage(
    doc: Document,
    content: Seq<(String, MediaType)>,
    ct: Option<Seq<char>>,
    body: Seq<u8>,
    props: Seq<(Seq<char>, Seq<char>)>,
    p: Perspective,
) -> (Seq<(Seq<char>, Seq<char>)>, Seq<FailureV>) {
    match ct {
        None => if body.len() > 0 {
            (
                props,
                seq![
                    (FailureV {
                        kind: FailureKind::MissingContentTypeHeader,
                        perspective: p,
                        text: missing_ct_text(p),
                    }),
                ],
            )
        } else {
            (props, Seq::empty())
        },
        Some(c) => {
            let props2 = props + seq![(ct_prop_name(p), c)];
            match spec_lookup(content, c) {
                None => (
                    props2,
                    seq![
                        (FailureV {
                            kind: FailureKind::MismatchedContentTypeHeader,
                            perspective: p,
                            text: mismatched_ct_text(p, c),
                        }),
                    ],
                ),
                Some(media) => if c != "application/json"@ {
                    (props2, Seq::empty())
                } else {
                    match media.schema {
                        None => (
                            props2,
                            seq![
                                (FailureV {
                                    kind: FailureKind::MissingSchemaDefinition,
                                    perspective: p,
                                    text:
                                        "Could not find schema defined inline or as a #/components/schemas/ reference"@,
                                }),
                            ],
                        ),
                        Some(sr) => match spec_resolve_schema(sr, doc) {
                            None => (
                                props2,
                                seq![
                                    (FailureV {
                                        kind: FailureKind::MissingSchemaDefinition,
                                        perspective: p,
                                        text:
                                            "Could not find schema defined inline or as a #/components/schemas/ reference"@,
                                    }),
                                ],
                            ),
                            Some(schema) => match spec_parse_json(body) {
                                None => (
                                    props2,
                                    seq![
                                        (FailureV {
                                            kind: FailureKind::FailedJSONDeserialization,
                                            perspective: p,
                                            text: parse_fail_text(p),
                                        }),
                                    ],
                                ),
                                Some(jv) => (props2, spec_validate(jv, schema, doc, "/"@, p)),
                            },
                        },
                    }
                },
            }
        },
    }
}

/// Runs the shared content stage; see [`spec_content_stage`].
fn content_stage(
    doc: &Document,
    content: &Vec<(String, MediaType)>,
    ct: Option<&String>,
    body: &Vec<u8>,
    props: Vec<Property>,
    p: Perspective,
) -> (r: (Vec<Property>, Vec<Failure>))
    ensures
        ({
            let sr = spec_content_stage(
                *doc,
                content@,
                match ct {
                    Some(c) => Some(c@),
                    None => None,
                },
                body@,
                props_view(props@),
                p,
            );
            props_view(r.0@) == sr.0 && fails_view(r.1@) == sr.1
        }),
{
    let mut props = props;
    match ct {
        None => {
            if body.len() > 0 {
                let text = match p {
                    Perspective::Request => String::from_str(
                        "Request did not include a Content-Type header, unable to validate request body schema.",
                    ),
                    Perspective::Response => String::from_str(
                        "Response did not include a Content-Type header",
                    ),
                };
                let f = single_failure(FailureKind::MissingContentTypeHeader, p, text);
                (props, f)
            } else {
                (props, no_failures())
            }
        },
        Some(c) => {
            let ghost pre = props@;
            let name = match p {
                Perspective::Request => String::from_str("requestContentType"),
                Perspective::Response => String::from_str("responseContentType"),
            };
            props.push(Property { name, value: c.clone() });
            proof {
                assert(props_view(props@) =~= props_view(pre) + seq![(ct_prop_name(p), c@)]);
            }
            match lookup(content, c.as_str()) {
                None => {
                    let text = match p {
                        Perspective::Request => String::from_str(
                            "Spec does not contain matching request for Content-Type: ",
                        ).concat(c.as_str()),
                        Perspective::Response => String::from_str(
                            "Spec does not contain matching response for Content-Type: ",
                        ).concat(c.as_str()),
                    };
                    let f = single_failure(FailureKind::MismatchedContentTypeHeader, p, text);
                    (props, f)
                },
                Some(media) => {
                    if !str_eq(c.as_str(), "application/json") {
                        (props, no_failures())
                    } else {
                        match &media.schema {
                            None => {
                                let f = single_failure(
                                    FailureKind::MissingSchemaDefinition,
                                    p,
                                    String::from_str(
                                        "Could not find schema defined inline or as a #/components/schemas/ reference",
                                    ),
                                );
                                (props, f)
                            },
                            Some(sr) => match resolve_schema(sr, doc) {
                                None => {
                                    let f = single_failure(
                                        FailureKind::MissingSchemaDefinition,
                                        p,
                                        String::from_str(
                                            "Could not find schema defined inline or as a #/components/schemas/ reference",
                                        ),
                                    );
                                    (props, f)
                                },
                                Some(schema) => match parse_json(body) {
                                    None => {
                                        let text = match p {
                                            Perspective::Request => String::from_str(
                                                "Failed to parse request body as JSON",
                                            ),
                                            Perspective::Response => String::from_str(
                                                "Failed to parse response body as JSON",
                                            ),
                                        };
                                        let f = single_failure(
                                            FailureKind::FailedJSONDeserialization,
                                            p,
                                            text,
                                        );
                                        (props, f)
                                    },
                                    Some(jv) => {
                                        let fails = validate_schema(&jv, schema, doc, "/", p);
                                        (props, fails)
                                    },
                                },
                            },
                        }
                    }
                },
            }
        },
    }
}

/// The request-side pipeline; see the module documentation.
pub open spec fn spec_validate_request(
    doc: Document,
    route: Option<Seq<char>>,
    m: Method,
    path: Seq<char>,
    ct: Option<Seq<char>>,
    body: Seq<u8>,
) -> (Seq<(Seq<char>, Seq<char>)>, Seq<FailureV>) {
    let props0 = seq![("path"@, path), ("method"@, spec_method_label(m))];
    match route {
        None => (props0, Seq::empty()),
        Some(t) => match spec_lookup(doc.paths@, t) {
            Some(PathItemRef::Inline(item)) => match spec_operation_for(item, m) {
                None => (
                    props0,
                    seq![
                        (FailureV {
                            kind: FailureKind::InvalidHTTPMethod,
                            perspective: Perspective::Request,
                            text: "Invalid HTTP method"@,
                        }),
                    ],
                ),
                Some(op) => {
                    let props1 = props0 + (match op.operation_id {
                        Some(oid) => seq![("operationId"@, oid@)],
                        None => Seq::empty(),
                    });
                    match op.request_body {
                        None => if body.len() > 0 {
                            (
                                props1,
                                seq![
                                    (FailureV {
                                        kind: FailureKind::MismatchNonEmptyBody,
                                        perspective: Perspective::Request,
                                        text:
                                            "Client supplied request body when none was included in spec."@,
                                    }),
                                ],
                            )
                        } else {
                            (props1, Seq::empty())
                        },
                        Some(rbr) => match spec_resolve_request_body(rbr, doc) {
                            None => (
                                props1,
                                seq![
                                    (FailureV {
                                        kind: FailureKind::MissingSchemaDefinition,
                                        perspective: Perspective::Request,
                                        text:
                                            "Could not find request defined inline or as a #/components/requestBodies/ reference"@,
                                    }),
                                ],
                            ),
                            Some(rb) => spec_content_stage(
                                doc,
                                rb.content@,
                                ct,
                                body,
                                props1,
                                Perspective::Request,
                            ),
                        },
                    }
                },
            },
            _ => (
                props0,
                seq![
                    (FailureV {
                        kind: FailureKind::PathNotFound,
                        perspective: Perspective::Request,
                        text: "Path not found in spec"@,
                    }),
                ],
            ),
        },
    }
}

/// Validates the client's request against the document.
pub fn validate_request(
    doc: &Document,
    route: Option<&String>,
    method: &Method,
    path: &str,
    content_type: Option<&String>,
    body: &Vec<u8>,
) -> (r: (Vec<Property>, Vec<Failure>))
    ensures
        ({
            let sr = spec_validate_request(
                *doc,
                match route {
                    Some(t) => Some(t@),
                    None => None,
                },
                *method,
                path@,
                match content_type {
                    Some(c) => Some(c@),
                    None => None,
                },
                body@,
            );
            props_view(r.0@) == sr.0 && fails_view(r.1@) == sr.1
        }),
{
    let mut props: Vec<Property> = Vec::new();
    props.push(Property { name: String::from_str("path"), value: String::from_str(path) });
    props.push(Property { name: String::from_str("method"), value: method_label(method) });
    proof {
        assert(props_view(props@) =~= seq![
            ("path"@, path@),
            ("method"@, spec_method_label(*method)),
        ]);
    }
    let t = match route {
        None => {
            return (props, no_failures());
        },
        Some(t) => t,
    };
    let item = match lookup(&doc.paths, t.as_str()) {
        Some(PathItemRef::Inline(item)) => item,
        _ => {
            let f = single_failure(
                FailureKind::PathNotFound,
                Perspective::Request,
                String::from_str("Path not found in spec"),
            );
            return (props, f);
        },
    };
    let op = match operation_for(item, method) {
        None => {
            let f = single_failure(
                FailureKind::InvalidHTTPMethod,
                Perspective::Request,
                String::from_str("Invalid HTTP method"),
            );
            return (props, f);
        },
        Some(op) => op,
    };
    let ghost props0 = props_view(props@);
    match &op.operation_id {
        Some(oid) => {
            props.push(Property { name: String::from_str("operationId"), value: oid.clone() });
            proof {
                assert(props_view(props@) =~= props0 + seq![("operationId"@, oid@)]);
            }
        },
        None => {
            proof {
                assert(props0 + Seq::<(Seq<char>, Seq<char>)>::empty() =~= props0);
            }
        },
    }
    let rbr = match &op.request_body {
        None => {
            if body.len() > 0 {
                let f = single_failure(
                    FailureKind::MismatchNonEmptyBody,
                    Perspective::Request,
                    String::from_str("Client supplied request body when none was included in spec."),
                );
                return (props, f);
            } else {
                return (props, no_failures());
            }
        },
        Some(rbr) => rbr,
    };
    let rb = match resolve_request_body(rbr, doc) {
        None => {
            let f = single_failure(
                FailureKind::MissingSchemaDefinition,
                Perspective::Request,
                String::from_str(
                    "Could not find request defined inline or as a #/components/requestBodies/ reference",
                ),
            );
            return (props, f);
        },
        Some(rb) => rb,
    };
    content_stage(doc, &rb.content, content_type, body, props, Perspective::Request)
}

/// The response-side pipeline; see the module documentation.  A response
/// with status 204 or 304 is treated as having an empty body: once its
/// declared response entry resolves, nothing further is checked.
pub open spec fn spec_validate_response(
    doc: Document,
    route: Option<Seq<char>>,
    m: Method,
    status: u16,
    ct: Option<Seq<char>>,
    body: Seq<u8>,
) -> (Seq<(Seq<char>, Seq<char>)>, Seq<FailureV>) {
    let props0 = seq![("statusCode"@, spec_decimal(status as nat))];
    match route {
        None => (props0, Seq::empty()),
        Some(t) => match spec_lookup(doc.paths@, t) {
            Some(PathItemRef::Inline(item)) => match spec_operation_for(item, m) {
                None => (props0, Seq::empty()),
                Some(op) => match spec_status_lookup(op.responses@, status) {
                    None => (
                        props0,
                        seq![
                            (FailureV {
                                kind: FailureKind::InvalidStatusCode,
                                perspective: Perspective::Response,
                                text: "Response not found for status code"@,
                            }),
                        ],
                    ),
                    Some(rr) => match spec_resolve_response(rr, doc) {
                        None => (
                            props0,
                            seq![
                                (FailureV {
                                    kind: FailureKind::MissingResponseDefinition,
                                    perspective: Perspective::Response,
                                    text:
                                        "Could not find response defined inline or as a #/components/responses/ reference"@,
                                }),
                            ],
                        ),
                        Some(resp) => if status == 204 || status == 304 {
                            (props0, Seq::empty())
                        } else {
                            spec_content_stage(
                                doc,
                                resp.content@,
                                ct,
                                body,
                                props0,
                                Perspective::Response,
                            )
                        },
                    },
                },
            },
            _ => (props0, Seq::empty()),
        },
    }
}

/// Validates the upstream's response against the document.
pub fn validate_response(
    doc: &Document,
    route: Option<&String>,
    method: &Method,
    status: u16,
    content_type: Option<&String>,
    body: &Vec<u8>,
) -> (r: (Vec<Property>, Vec<Failure>))
    ensures
        ({
            let sr = spec_validate_response(
                *doc,
                match route {
                    Some(t) => Some(t@),
                    None => None,
                },
                *method,
                status,
                match content_type {
                    Some(c) => Some(c@),
                    None => None,
                },
                body@,
            );
            props_view(r.0@) == sr.0 && fails_view(r.1@) == sr.1
        }),
{
    let mut props: Vec<Property> = Vec::new();
    props.push(
        Property { name: String::from_str("statusCode"), value: decimal_string(status as u64) },
    );
    proof {
        assert(props_view(props@) =~= seq![("statusCode"@, spec_decimal(status as nat))]);
    }
    let t = match route {
        None => {
            return (props, no_failures());
        },
        Some(t) => t,
    };
    let item = match lookup(&doc.paths, t.as_str()) {
        Some(PathItemRef::Inline(item)) => item,
        _ => {
            return (props, no_failures());
        },
    };
    let op = match operation_for(item, method) {
        None => {
            return (props, no_failures());
        },
        Some(op) => op,
    };
    let rr = match status_lookup(&op.responses, status) {
        None => {
            let f = single_failure(
                FailureKind::InvalidStatusCode,
                Perspective::Response,
                String::from_str("Response not found for status code"),
            );
            return (props, f);
        },
        Some(rr) => rr,
    };
    let resp = match resolve_response(rr, doc) {
        None => {
            let f = single_failure(
                FailureKind::MissingResponseDefinition,
                Perspective::Response,
                String::from_str(
                    "Could not find response defined inline or as a #/components/responses/ reference",
                ),
            );
            return (props, f);
        },
        Some(resp) => resp,
    };
    if status == 204 || status == 304 {
        return (props, no_failures());
    }
    content_stage(doc, &resp.content, content_type, body, props, Perspective::Response)
}

} // verus!
