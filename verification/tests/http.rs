use lockbox::api::{introspection_failure, ApiError, ValidationReport, Violation};
use lockbox::dto::{
    request_tenant, ApiKeyHeader, CreateNamespaceRequestDTO, CreateTagRequestDTO,
    IntrospectApiKeyRequestDTO, PaginatedResponseDTO, TenantIdHeader,
};
use lockbox::errors::{ApiKeyServiceError, DatabaseError};
use lockbox::model::Page;
use lockbox::rejection::{JsonRejection, PathProblem, PathRejection, QueryRejection};

fn generic(e: &ApiError) -> (u32, String) {
    match e {
        ApiError::Generic { code, message } => (*code, message.clone()),
        ApiError::Validation { .. } => panic!("not a generic error"),
    }
}

fn fields(r: &ValidationReport) -> Vec<(String, String)> {
    r.violations.iter().map(|v| (v.field.clone(), v.code.clone())).collect()
}

#[test]
fn error_constructors_carry_their_codes() {
    assert_eq!(generic(&ApiError::forbidden("no")), (403000, "no".to_string()));
    assert_eq!(generic(&ApiError::unprocessable_entity("u")), (422000, "u".to_string()));
    assert_eq!(generic(&ApiError::unexpected_error("x")), (500000, "x".to_string()));
    assert_eq!(generic(&ApiError::bad_request("b")), (400000, "b".to_string()));
    assert_eq!(generic(&ApiError::invalid_data_format("d")), (400002, "d".to_string()));
    assert_eq!(generic(&ApiError::not_found("n")), (404000, "n".to_string()));
    assert_eq!(generic(&ApiError::not_implemented()), (500001, "Not implemented".to_string()));
    assert_eq!(
        generic(&ApiError::invalid_content_type("text/plain")),
        (400001, "Invalid content type: text/plain".to_string())
    );
    let v = ApiError::validation_error(ValidationReport { violations: vec![] });
    assert_eq!(v.code(), 422001);
    assert_eq!(ApiError::new(418123, "teapot").code(), 418123);
}

#[test]
fn statuses_are_the_thousands_of_the_codes() {
    assert_eq!(ApiError::forbidden("no").status(), 403);
    assert_eq!(ApiError::not_found("n").status(), 404);
    assert_eq!(ApiError::invalid_content_type("x").status(), 400);
    assert_eq!(ApiError::not_implemented().status(), 500);
    let v = ApiError::validation_error(ValidationReport { violations: vec![] });
    assert_eq!(v.status(), 422);
}

#[test]
fn codes_without_a_status_fall_back() {
    assert_eq!(ApiError::new(7, "small").status(), 500);
    assert_eq!(ApiError::new(1_000_000, "large").status(), 500);
    let v = ApiError::Validation { code: 42, errors: ValidationReport { violations: vec![] } };
    assert_eq!(v.status(), 400);
    // 65_936_000 / 1000 = 65_936, which is 400 once cut to sixteen bits.
    assert_eq!(ApiError::new(65_936_000, "wraps").status(), 400);
}

#[test]
fn service_errors_become_api_errors() {
    let cases = [
        (ApiKeyServiceError::KeyNotFound, 404000, "API key not found"),
        (ApiKeyServiceError::KeyAlreadyExists, 400000, "API key already exists"),
        (ApiKeyServiceError::KeyExpired, 403000, "API key expired"),
        (ApiKeyServiceError::InvalidKey, 400000, "Invalid API key"),
        (ApiKeyServiceError::InsufficientScope, 403000, "Insufficient scope"),
        (ApiKeyServiceError::NamespaceNotFound, 404000, "Namespace not found"),
        (ApiKeyServiceError::NamespaceAlreadyExists, 400000, "Namespace already exists"),
        (ApiKeyServiceError::TagNotFound, 404000, "Tag not found"),
        (ApiKeyServiceError::TagAlreadyExists, 400000, "Tag already exists"),
        (ApiKeyServiceError::Unexpected("boom".to_string()), 500000, "Unexpected error: boom"),
        (
            ApiKeyServiceError::DatabaseError(DatabaseError::MissingPrimaryDsn),
            500000,
            "Database error: Missing primary DSN",
        ),
    ];
    for (err, code, message) in cases {
        let e = ApiError::from_service_error(err);
        assert_eq!(generic(&e), (code, message.to_string()));
        assert_eq!(e.status() as u32, code / 1000);
    }
}

#[test]
fn rejected_keys_are_reported_invalid() {
    for err in [ApiKeyServiceError::InvalidKey, ApiKeyServiceError::InsufficientScope, ApiKeyServiceError::KeyExpired] {
        let r = introspection_failure(err).unwrap();
        assert!(!r.valid);
        assert!(r.key.is_none());
    }
    let e = introspection_failure(ApiKeyServiceError::NamespaceNotFound).unwrap_err();
    assert_eq!(generic(&e), (404000, "Namespace not found".to_string()));
}

#[test]
fn path_rejections() {
    let e = ApiError::from_path_rejection(PathRejection::FailedToDeserializePathParams(
        PathProblem::WrongNumberOfParameters { got: 3, expected: 12 },
    ));
    assert_eq!(generic(&e), (400000, "Wrong number of path parameters: got 3, expected 12".to_string()));
    let e = ApiError::from_path_rejection(PathRejection::FailedToDeserializePathParams(
        PathProblem::ParseErrorAtIndex { index: 1024 },
    ));
    assert_eq!(generic(&e), (400000, "Failed to parse path parameter at index 1024".to_string()));
    let e = ApiError::from_path_rejection(PathRejection::FailedToDeserializePathParams(
        PathProblem::ParseErrorAtKey { key: "id".to_string() },
    ));
    assert_eq!(generic(&e), (400000, "Failed to parse path parameter 'id'".to_string()));
    let e = ApiError::from_path_rejection(PathRejection::FailedToDeserializePathParams(
        PathProblem::ParseError { value: "x".to_string(), expected_type: "u128".to_string() },
    ));
    assert_eq!(generic(&e), (400000, "Failed to parse path parameter value 'x' as u128".to_string()));
    let e = ApiError::from_path_rejection(PathRejection::FailedToDeserializePathParams(
        PathProblem::InvalidUtf8InPathParam { key: "k".to_string() },
    ));
    assert_eq!(generic(&e), (400000, "Invalid UTF-8 in path parameter 'k'".to_string()));
    let e = ApiError::from_path_rejection(PathRejection::FailedToDeserializePathParams(
        PathProblem::UnsupportedType { name: "T".to_string() },
    ));
    assert_eq!(generic(&e), (400000, "Unsupported type for path parameter 'T'".to_string()));
    let e = ApiError::from_path_rejection(PathRejection::FailedToDeserializePathParams(PathProblem::Other));
    assert_eq!(generic(&e), (500000, "Failed to extract path parameters".to_string()));
    let e = ApiError::from_path_rejection(PathRejection::MissingPathParams("no params".to_string()));
    assert_eq!(generic(&e), (500000, "no params".to_string()));
    let e = ApiError::from_path_rejection(PathRejection::FailedToDeserializePathParams(
        PathProblem::WrongNumberOfParameters { got: 0, expected: 1 },
    ));
    assert_eq!(generic(&e).1, "Wrong number of path parameters: got 0, expected 1");
}

#[test]
fn query_and_json_rejections() {
    assert_eq!(
        generic(&ApiError::from_query_rejection(QueryRejection::FailedToDeserializeQueryString)),
        (400000, "Invalid query string".to_string())
    );
    assert_eq!(
        generic(&ApiError::from_query_rejection(QueryRejection::Other)),
        (400000, "Unexpected query rejection".to_string())
    );
    assert_eq!(
        generic(&ApiError::from_json_rejection(JsonRejection::JsonDataError("missing field".to_string()))),
        (422000, "missing field".to_string())
    );
    assert_eq!(
        generic(&ApiError::from_json_rejection(JsonRejection::JsonSyntaxError)),
        (400002, "Invalid JSON syntax".to_string())
    );
    assert_eq!(
        generic(&ApiError::from_json_rejection(JsonRejection::MissingJsonContentType)),
        (400001, "Invalid content type: Missing JSON content type".to_string())
    );
    assert_eq!(
        generic(&ApiError::from_json_rejection(JsonRejection::Other)),
        (400000, "Unexpected JSON rejection".to_string())
    );
}

#[test]
fn namespace_and_tag_names_have_one_to_six_characters() {
    assert!(CreateNamespaceRequestDTO { name: "apik".to_string() }.validate().is_ok());
    assert!(CreateNamespaceRequestDTO { name: "éééééé".to_string() }.validate().is_ok());
    let r = CreateNamespaceRequestDTO { name: "".to_string() }.validate().unwrap_err();
    assert_eq!(fields(&r), vec![("name".to_string(), "length".to_string())]);
    assert!(CreateTagRequestDTO { name: "toolong".to_string() }.validate().is_err());
    assert!(CreateTagRequestDTO { name: "prod".to_string() }.validate().is_ok());
}

#[test]
fn introspection_bodies() {
    let ok = IntrospectApiKeyRequestDTO {
        token: "t".to_string(),
        scope: Some("read".to_string()),
        tags: Some(vec![None]),
    };
    assert!(ok.validate().is_ok());
    let bad = IntrospectApiKeyRequestDTO {
        token: "x".repeat(256),
        scope: None,
        tags: Some(vec![None, Some("a".to_string())]),
    };
    let r = bad.validate().unwrap_err();
    assert_eq!(
        fields(&r),
        vec![("token".to_string(), "length".to_string()), ("tags".to_string(), "length".to_string())]
    );
    let d = IntrospectApiKeyRequestDTO::default_request();
    assert_eq!(d.token, "");
    assert!(d.validate().is_ok());
}

#[test]
fn headers_and_tenants() {
    let h = TenantIdHeader::new("acme".to_string());
    assert_eq!(h.as_inner(), "acme");
    assert_eq!(request_tenant(Some(h), &"default".to_string()), "acme");
    assert_eq!(request_tenant(None, &"default".to_string()), "default");
    let k = ApiKeyHeader::new("apik_x".to_string());
    assert_eq!(k.as_inner(), "apik_x");
    assert_eq!(k.into_inner(), "apik_x");
}

#[test]
fn paginated_responses() {
    let d = PaginatedResponseDTO::builder(vec![1, 2, 3])
        .with_count(30)
        .with_next_page(Some(2))
        .with_previous_page(None)
        .build();
    assert_eq!(d.items, vec![1, 2, 3]);
    assert_eq!(d.count, 30);
    assert_eq!(d.next_page, Some(2));
    assert_eq!(d.previous_page, None);
    let page = Page { items: vec!["a"], count: 1, next_page: None, previous_page: Some(4) };
    let d = PaginatedResponseDTO::from_page(page);
    assert_eq!(d.items, vec!["a"]);
    assert_eq!(d.previous_page, Some(4));
    let empty = PaginatedResponseDTO::builder(Vec::<u8>::new()).build();
    assert_eq!(empty.count, 0);
    assert_eq!(empty.next_page, None);
}

#[test]
fn violations_keep_their_order() {
    let r = ValidationReport {
        violations: vec![
            Violation { field: "a".to_string(), code: "length".to_string() },
            Violation { field: "b".to_string(), code: "range".to_string() },
        ],
    };
    assert_eq!(fields(&r)[1].0, "b");
}
