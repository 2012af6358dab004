//! Per-exchange orchestration: what happens to one proxied call, apart from
//! the network I/O itself.
//!
//! The boundary layer hands the inbound request over as plain data, forwards
//! it upstream while this module's outcome is in hand, then hands back the
//! upstream's reply; the completed testcase is assembled here and appended
//! to the ledger by the caller.

use vstd::prelude::*;
use vstd::string::StringExecFns;

use crate::correlate::{parse_fused_headers, resolve_correlation_id, spec_fused, testcase_name};
use crate::pipeline::{method_label, spec_method_label, spec_validate_request, validate_request,
    Method};
use crate::record::{fails_view, props_view, sort_props, spec_sort_props, Failure, FailureKind,
    FailureV, Perspective, Property, Testcase};
use crate::route::{extract_path_remainder, first_match, match_route, params_from,
    spec_extract_path_remainder, split_slash};
use crate::schema::Document;

verus! {

/// The view of an optional owned string.
pub open spec fn opt_string_view(o: Option<String>) -> Option<Seq<char>> {
    match o {
        Some(s) => Some(s@),
        None => None,
    }
}

/// One inbound request, as plain data.
pub struct RequestData {
    pub method: Method,
    pub path: String,
    pub path_and_query: String,
    pub content_type: Option<String>,
    pub body: Vec<u8>,
    pub correlation_header: Option<String>,
    pub fused_header: Option<String>,
}

/// Everything the boundary layer needs between receiving a request and
/// completing its testcase: the matched route, the request-side record,
/// the correlation id with the headers to fuse it into, and the testcase
/// name.
pub struct RequestOutcome {
    pub route: Option<String>,
    pub properties: Vec<Property>,
    pub failures: Vec<Failure>,
    pub correlation_id: String,
    pub fused_headers: Vec<String>,
    pub name: String,
}

/// Resolves the route and runs the request-side pipeline; chooses the
/// correlation id and composes the testcase name.
pub fn evaluate_request(doc: &Document, upstream_base: &str, req: &RequestData) -> (r:
    RequestOutcome)
    ensures
        ({
            let rel = spec_extract_path_remainder(upstream_base@, req.path@);
            let fm = first_match(doc.paths@, rel, 0);
            match fm {
                None => {
                    let vr = spec_validate_request(
                        *doc,
                        None,
                        req.method,
                        req.path@,
                        opt_string_view(req.content_type),
                        req.body@,
                    );
                    &&& r.route is None
                    &&& props_view(r.properties@) == vr.0 + seq![
                        ("correlationId"@, r.correlation_id@),
                    ]
                    &&& fails_view(r.failures@) == seq![
                        (FailureV {
                            kind: FailureKind::PathNotFound,
                            perspective: Perspective::Request,
                            text: "Path not found"@,
                        }),
                    ] + vr.1
                },
                Some(idx) => {
                    &&& r.route matches Some(t) && t@ == doc.paths@[idx].0@ && ({
                        let vr = spec_validate_request(
                            *doc,
                            Some(t@),
                            req.method,
                            req.path@,
                            opt_string_view(req.content_type),
                            req.body@,
                        );
                        &&& props_view(r.properties@) == params_from(
                            split_slash(t@, 0),
                            split_slash(rel, 0),
                            0,
                        ) + vr.0 + seq![("correlationId"@, r.correlation_id@)]
                        &&& fails_view(r.failures@) == vr.1
                    })
                },
            }
        }),
        match req.correlation_header {
            Some(h) => r.correlation_id@ == h@,
            None => r.correlation_id@.len() == 36,
        },
        r.fused_headers@.map_values(|x: String| x@) == match req.fused_header {
            Some(f) => spec_fused(f@, 0),
            None => Seq::<Seq<char>>::empty(),
        },
        r.name@ == spec_method_label(req.method) + " "@ + req.path_and_query@ + " "@
            + r.correlation_id@,
{
    let rel = extract_path_remainder(upstream_base, req.path.as_str());
    let mut properties: Vec<Property>;
    let mut failures: Vec<Failure>;
    let route: Option<String>;
    match match_route(doc, rel.as_str()) {
        Some(rm) => {
            properties = rm.params;
            failures = Vec::new();
            route = Some(rm.template);
        },
        None => {
            properties = Vec::new();
            failures = Vec::new();
            failures.push(
                Failure {
                    kind: FailureKind::PathNotFound,
                    perspective: Perspective::Request,
                    text: String::from_str("Path not found"),
                },
            );
            route = None;
        },
    }
    let route_ref: Option<&String> = match &route {
        Some(t) => Some(t),
        None => None,
    };
    let ct_ref: Option<&String> = match &req.content_type {
        Some(c) => Some(c),
        None => None,
    };
    let pr = validate_request(doc, route_ref, &req.method, req.path.as_str(), ct_ref, &req.body);
    let mut rprops = pr.0;
    let mut rfails = pr.1;
    let ghost pre_props = props_view(properties@);
    let ghost pre_fails = fails_view(failures@);
    let ghost vr_props = props_view(rprops@);
    let ghost vr_fails = fails_view(rfails@);
    properties.append(&mut rprops);
    failures.append(&mut rfails);
    proof {
        assert(props_view(properties@) =~= pre_props + vr_props);
        assert(fails_view(failures@) =~= pre_fails + vr_fails);
    }
    let cid = match &req.correlation_header {
        Some(h) => resolve_correlation_id(Some(h.as_str())),
        None => resolve_correlation_id(None),
    };
    let ghost mid_props = props_view(properties@);
    properties.push(
        Property { name: String::from_str("correlationId"), value: cid.clone() },
    );
    proof {
        assert(props_view(properties@) =~= mid_props + seq![("correlationId"@, cid@)]);
        assert((pre_props + vr_props) + seq![("correlationId"@, cid@)] =~= pre_props + (vr_props
            + seq![("correlationId"@, cid@)]));
        assert(Seq::<(Seq<char>, Seq<char>)>::empty() + (vr_props + seq![
            ("correlationId"@, cid@),
        ]) =~= vr_props + seq![("correlationId"@, cid@)]);
    }
    let fused = match &req.fused_header {
        Some(f) => parse_fused_headers(f.as_str()),
        None => Vec::new(),
    };
    proof {
        match req.fused_header {
            Some(_) => {},
            None => {
                assert(fused@.map_values(|x: String| x@) =~= Seq::<Seq<char>>::empty());
            },
        }
    }
    let label = method_label(&req.method);
    let name = testcase_name(label.as_str(), req.path_and_query.as_str(), cid.as_str());
    RequestOutcome {
        route,
        properties,
        failures,
        correlation_id: cid,
        fused_headers: fused,
        name,
    }
}

/// Assembles the completed testcase: the two sides' records merged, the
/// properties sorted by name then value.
pub fn finish_testcase(
    name: String,
    req_props: Vec<Property>,
    req_fails: Vec<Failure>,
    resp_props: Vec<Property>,
    resp_fails: Vec<Failure>,
    elapsed_ms: u64,
) -> (tc: Testcase)
    ensures
        tc.name@ == name@,
        props_view(tc.properties@) == spec_sort_props(
            props_view(req_props@) + props_view(resp_props@),
        ),
        fails_view(tc.failures@) == fails_view(req_fails@) + fails_view(resp_fails@),
        tc.elapsed_ms == elapsed_ms,
{
    let mut props = req_props;
    let mut rp = resp_props;
    let ghost a = props_view(props@);
    let ghost b = props_view(rp@);
    props.append(&mut rp);
    proof {
        assert(props_view(props@) =~= a + b);
    }
    let sorted = sort_props(props);
    let mut fails = req_fails;
    let mut rf = resp_fails;
    let ghost fa = fails_view(fails@);
    let ghost fb = fails_view(rf@);
    fails.append(&mut rf);
    proof {
        assert(fails_view(fails@) =~= fa + fb);
    }
    Testcase { name, properties: sorted, failures: fails, elapsed_ms }
}

} // verus!
