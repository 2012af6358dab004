//! Request-side validation: each case sends one request whose body or
//! headers break the declared contract, against a conforming upstream reply.

use ovp::pipeline::{validate_response, Method};
use ovp::proxy::{evaluate_request, finish_testcase, RequestData};
use ovp::record::Testcase;
use ovp::schema::{Components, Document, MediaType, Operation, PathItem, PathItemRef,
    RequestBody, RequestBodyRef, Response, ResponseRef, Schema, SchemaKind, SchemaRef};

fn inline(kind: SchemaKind) -> SchemaRef {
    SchemaRef::Inline(Box::new(Schema { nullable: false, kind }))
}

fn pet_ref() -> SchemaRef {
    SchemaRef::Ref("#/components/schemas/Pet".to_string())
}

fn missing_ref() -> SchemaRef {
    SchemaRef::Ref("#/components/schemas/MissingPetsSchema".to_string())
}

fn json_media(schema: Option<SchemaRef>) -> Vec<(String, MediaType)> {
    vec![("application/json".to_string(), MediaType { schema })]
}

fn empty_item() -> PathItem {
    PathItem {
        get: None,
        put: None,
        post: None,
        delete: None,
        options: None,
        head: None,
        patch: None,
        trace: None,
    }
}

fn op(request_body: Option<RequestBodyRef>, responses: Vec<(u16, ResponseRef)>) -> Operation {
    Operation { operation_id: None, request_body, responses }
}

fn petstore() -> Document {
    let pets = PathItem {
        get: Some(op(
            None,
            vec![(
                200,
                ResponseRef::Inline(Response {
                    content: json_media(Some(inline(SchemaKind::Array {
                        items: Some(pet_ref()),
                    }))),
                }),
            )],
        )),
        post: Some(op(
            Some(RequestBodyRef::Inline(RequestBody { content: json_media(Some(pet_ref())) })),
            vec![(201, ResponseRef::Inline(Response { content: json_media(Some(pet_ref())) }))],
        )),
        ..empty_item()
    };
    let pet = PathItem {
        get: Some(op(
            None,
            vec![
                (200, ResponseRef::Inline(Response { content: json_media(Some(pet_ref())) })),
                (202, ResponseRef::Inline(Response { content: json_media(None) })),
            ],
        )),
        delete: Some(op(
            None,
            vec![
                (200, ResponseRef::Inline(Response { content: vec![] })),
                (204, ResponseRef::Inline(Response { content: vec![] })),
            ],
        )),
        ..empty_item()
    };
    let missing = PathItem {
        get: Some(op(
            None,
            vec![(
                200,
                ResponseRef::Inline(Response { content: json_media(Some(missing_ref())) }),
            )],
        )),
        post: Some(op(
            Some(RequestBodyRef::Inline(RequestBody {
                content: json_media(Some(missing_ref())),
            })),
            vec![(
                201,
                ResponseRef::Inline(Response {
                    content: json_media(Some(inline(SchemaKind::Object { properties: vec![] }))),
                }),
            )],
        )),
        ..empty_item()
    };
    let any_of = PathItem {
        get: Some(op(
            None,
            vec![(
                200,
                ResponseRef::Inline(Response {
                    content: json_media(Some(inline(SchemaKind::Other))),
                }),
            )],
        )),
        post: Some(op(
            Some(RequestBodyRef::Inline(RequestBody {
                content: json_media(Some(inline(SchemaKind::Other))),
            })),
            vec![(201, ResponseRef::Inline(Response { content: json_media(Some(pet_ref())) }))],
        )),
        ..empty_item()
    };
    Document {
        paths: vec![
            ("/pets".to_string(), PathItemRef::Inline(pets)),
            ("/pets/{id}".to_string(), PathItemRef::Inline(pet)),
            ("/missing_pets_schema".to_string(), PathItemRef::Inline(missing)),
            ("/any_of_pet_schema".to_string(), PathItemRef::Inline(any_of)),
        ],
        components: Some(Components {
            schemas: vec![(
                "Pet".to_string(),
                inline(SchemaKind::Object {
                    properties: vec![
                        ("id".to_string(), inline(SchemaKind::Int)),
                        ("name".to_string(), inline(SchemaKind::Str)),
                    ],
                }),
            )],
            responses: vec![],
            request_bodies: vec![],
        }),
    }
}

#[allow(clippy::too_many_arguments)]
fn proxy_call(
    method: Method,
    path: &str,
    req_ct: Option<&str>,
    req_body: &[u8],
    corr: &str,
    status: u16,
    resp_ct: Option<&str>,
    resp_body: &[u8],
) -> Testcase {
    let doc = petstore();
    let req = RequestData {
        method: method.clone(),
        path: path.to_string(),
        path_and_query: path.to_string(),
        content_type: req_ct.map(|s| s.to_string()),
        body: req_body.to_vec(),
        correlation_header: Some(corr.to_string()),
        fused_header: None,
    };
    let outcome = evaluate_request(&doc, "/", &req);
    let resp_ct = resp_ct.map(|s| s.to_string());
    let (sprops, sfails) = validate_response(
        &doc,
        outcome.route.as_ref(),
        &method,
        status,
        resp_ct.as_ref(),
        &resp_body.to_vec(),
    );
    finish_testcase(outcome.name, outcome.properties, outcome.failures, sprops, sfails, 0)
}

fn labels(tc: &Testcase) -> Vec<String> {
    tc.failures.iter().map(|f| f.label()).collect()
}

fn prop(tc: &Testcase, name: &str) -> Option<String> {
    tc.properties.iter().find(|p| p.name == name).map(|p| p.value.clone())
}

#[test]
fn integration_request_validation_mismatch_non_empty_body() {
    let tc = proxy_call(
        Method::Get,
        "/pets/1",
        Some("application/json"),
        br#"{"intentionally": "bogus"}"#,
        "mismatch_non_empty_body",
        200,
        Some("application/json"),
        br#"{"id": 1, "name": "dog"}"#,
    );
    assert_eq!(labels(&tc), vec!["Request.MismatchNonEmptyBody".to_string()]);
}

#[test]
fn integration_request_validation_missing_schema_definition() {
    let tc = proxy_call(
        Method::Post,
        "/missing_pets_schema",
        Some("application/json"),
        br#"{"name": "dog"}"#,
        "missing_schema_definition",
        201,
        Some("application/json"),
        b"{}",
    );
    assert_eq!(labels(&tc), vec!["MissingSchemaDefinition".to_string()]);
}

#[test]
fn integration_request_validation_missing_content_type_header() {
    let tc = proxy_call(
        Method::Post,
        "/pets",
        None,
        br#"{"name": "dog"}"#,
        "missing_content_type_header",
        201,
        Some("application/json"),
        br#"[{"id": 1, "name": "dog"}]"#,
    );
    assert_eq!(labels(&tc), vec!["Request.MissingContentTypeHeader".to_string()]);
}

#[test]
fn integration_request_validation_mismatched_content_type_header() {
    let tc = proxy_call(
        Method::Post,
        "/pets",
        Some("text/plain"),
        b"name: dog",
        "mismatched_content_type_header",
        201,
        Some("application/json"),
        br#"[{"id": 1, "name": "dog"}]"#,
    );
    assert_eq!(labels(&tc), vec!["Request.MismatchedContentTypeHeader".to_string()]);
    assert_eq!(prop(&tc, "requestContentType").as_deref(), Some("text/plain"));
}

#[test]
fn integration_request_validation_failed_json_deserialization() {
    let tc = proxy_call(
        Method::Post,
        "/pets",
        Some("application/json"),
        b"{intentionally invalid}",
        "failed_json_deserialization",
        201,
        Some("application/json"),
        br#"[{"id": 1, "name": "dog"}]"#,
    );
    assert_eq!(labels(&tc), vec!["Request.FailedJSONDeserialization".to_string()]);
}

#[test]
fn integration_request_validation_failed_validation_unexpected_number() {
    let tc = proxy_call(
        Method::Post,
        "/pets",
        Some("application/json"),
        br#"{"name": 0}"#,
        "failed_validation_unexpected_number",
        201,
        Some("application/json"),
        br#"{"id": 1, "name": "0"}"#,
    );
    assert_eq!(labels(&tc), vec!["Request.FailedValidation.UnexpectedNumber".to_string()]);
    assert_eq!(tc.failures[0].text, "Received unexpected number at /name/");
}

#[test]
fn integration_request_validation_failed_validation_unexpected_null() {
    let tc = proxy_call(
        Method::Post,
        "/pets",
        Some("application/json"),
        br#"{"name": null}"#,
        "failed_validation_unexpected_null",
        201,
        Some("application/json"),
        br#"{"id": 1, "name": "dog"}"#,
    );
    assert_eq!(labels(&tc), vec!["Request.FailedValidation.UnexpectedNull".to_string()]);
}

#[test]
fn integration_request_validation_failed_validation_unexpected_boolean() {
    let tc = proxy_call(
        Method::Post,
        "/pets",
        Some("application/json"),
        br#"{"name": true}"#,
        "failed_validation_unexpected_boolean",
        201,
        Some("application/json"),
        br#"{"id": 1, "name": "dog"}"#,
    );
    assert_eq!(labels(&tc), vec!["Request.FailedValidation.UnexpectedBoolean".to_string()]);
}

#[test]
fn integration_request_validation_failed_validation_unexpected_string() {
    let tc = proxy_call(
        Method::Post,
        "/pets",
        Some("application/json"),
        br#"{"id": "dog"}"#,
        "failed_validation_unexpected_string",
        201,
        Some("application/json"),
        br#"{"id": 1, "name": "dog"}"#,
    );
    assert_eq!(labels(&tc), vec!["Request.FailedValidation.UnexpectedString".to_string()]);
    assert_eq!(tc.failures[0].text, "Received unexpected string at /id/");
}

#[test]
fn integration_request_validation_failed_validation_unexpected_property() {
    let tc = proxy_call(
        Method::Post,
        "/pets",
        Some("application/json"),
        br#"{"name": "dog", "extra": "field"}"#,
        "failed_validation_unexpected_property",
        201,
        Some("application/json"),
        br#"{"id": 1, "name": "dog"}"#,
    );
    assert_eq!(labels(&tc), vec!["Request.FailedValidation.UnexpectedProperty".to_string()]);
    assert_eq!(tc.failures[0].text, "Unexpected property at /extra");
}

#[test]
fn integration_request_validation_failed_validation_unsupported_schema_kind() {
    let tc = proxy_call(
        Method::Post,
        "/any_of_pet_schema",
        Some("application/json"),
        br#"{"name": "dog"}"#,
        "failed_validation_unsupported_schema_kind",
        201,
        Some("application/json"),
        br#"{"id": 1, "name": "dog"}"#,
    );
    assert_eq!(labels(&tc), vec!["Request.FailedValidation.UnsupportedSchemaKind".to_string()]);
}
