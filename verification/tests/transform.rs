use aide_transform::error::Error;
use aide_transform::gen::{ErrorFilter, GenContext};
use aide_transform::openapi::{
    MediaType, OpenApi, Operation, Parameter, ParameterData, PathItem, Paths, ReferenceOr,
    Response, Responses, StatusCode,
};
use aide_transform::transform::{
    filter_no_duplicate_response, TransformOpenApi, TransformOperation, TransformParameter,
    TransformPathItem, TransformResponse,
};

fn empty_operation() -> Operation {
    Operation { operation_id: None, description: None, parameters: Vec::new(), responses: None }
}

fn query_parameter(name: &str) -> Parameter {
    Parameter::Query {
        parameter_data: ParameterData { name: name.to_string(), description: None },
    }
}

fn default_of(op: &Operation) -> Option<&Response> {
    match &op.responses {
        Some(rs) => match &rs.default {
            Some(ReferenceOr::Item(r)) => Some(r),
            _ => None,
        },
        None => None,
    }
}

#[test]
fn id_description_hidden_chain() {
    let mut ctx = GenContext::new();
    let t = TransformOperation::new(empty_operation())
        .id("get_user")
        .description("Returns one user.")
        .hidden(true);
    assert!(t.hidden);
    let op = t.into_inner();
    assert_eq!(op.operation_id.as_deref(), Some("get_user"));
    assert_eq!(op.description.as_deref(), Some("Returns one user."));
    assert!(ctx.errors.is_empty());
    ctx.error(Error::DuplicateRequestBody);
    assert_eq!(ctx.errors.len(), 1);
}

#[test]
fn default_response_sets_default() {
    let mut ctx = GenContext::new();
    let t = TransformOperation::new(empty_operation())
        .default_response(Some(Response::new("default")), &mut ctx);
    let op = t.into_inner();
    assert_eq!(default_of(&op).unwrap().description, "default");
    assert!(ctx.errors.is_empty());
}

#[test]
fn default_response_none_still_creates_responses() {
    let mut ctx = GenContext::new();
    let t = TransformOperation::new(empty_operation()).default_response(None, &mut ctx);
    let op = t.into_inner();
    let rs = op.responses.as_ref().unwrap();
    assert!(rs.default.is_none());
    assert!(rs.responses.is_empty());
    assert!(ctx.errors.is_empty());
}

#[test]
fn default_response_duplicate_records_error() {
    let mut ctx = GenContext::new();
    let t = TransformOperation::new(empty_operation())
        .default_response(Some(Response::new("first")), &mut ctx)
        .default_response(Some(Response::new("second")), &mut ctx);
    let op = t.into_inner();
    assert_eq!(default_of(&op).unwrap().description, "first");
    assert_eq!(ctx.errors.len(), 1);
    assert!(matches!(ctx.errors[0], Error::DefaultResponseExists));
}

#[test]
fn response_inserts_under_code() {
    let mut ctx = GenContext::new();
    let t = TransformOperation::new(empty_operation())
        .response(200, Some(Response::new("ok")), &mut ctx)
        .response(404, Some(Response::new("missing")), &mut ctx);
    let op = t.into_inner();
    let rs = op.responses.as_ref().unwrap();
    assert_eq!(rs.responses.len(), 2);
    assert_eq!(rs.responses[0].0, StatusCode::Code(200));
    assert_eq!(rs.responses[1].0, StatusCode::Code(404));
    match &rs.responses[1].1 {
        ReferenceOr::Item(r) => assert_eq!(r.description, "missing"),
        _ => panic!("expected an inlined response"),
    }
    assert!(ctx.errors.is_empty());
}

#[test]
fn response_duplicate_replaces_and_records_error() {
    let mut ctx = GenContext::new();
    let t = TransformOperation::new(empty_operation())
        .response(200, Some(Response::new("first")), &mut ctx)
        .response(200, Some(Response::new("second")), &mut ctx);
    let op = t.into_inner();
    let rs = op.responses.as_ref().unwrap();
    assert_eq!(rs.responses.len(), 1);
    match &rs.responses[0].1 {
        ReferenceOr::Item(r) => assert_eq!(r.description, "second"),
        _ => panic!("expected an inlined response"),
    }
    assert_eq!(ctx.errors.len(), 1);
    assert!(matches!(ctx.errors[0], Error::ResponseExists(StatusCode::Code(200))));
}

#[test]
fn response_range_stores_range_key() {
    let mut ctx = GenContext::new();
    let t = TransformOperation::new(empty_operation())
        .response_range(2, Some(Response::new("first")), &mut ctx)
        .response_range(2, Some(Response::new("second")), &mut ctx);
    let op = t.into_inner();
    let rs = op.responses.as_ref().unwrap();
    assert_eq!(rs.responses.len(), 1);
    assert_eq!(rs.responses[0].0, StatusCode::Range(2));
    assert_eq!(ctx.errors.len(), 1);
    assert!(matches!(ctx.errors[0], Error::ResponseExists(StatusCode::Range(2))));
}

#[test]
fn response_range_and_exact_code_do_not_collide() {
    let mut ctx = GenContext::new();
    let t = TransformOperation::new(empty_operation())
        .response(2, Some(Response::new("exact")), &mut ctx)
        .response_range(2, Some(Response::new("range")), &mut ctx);
    let op = t.into_inner();
    let rs = op.responses.as_ref().unwrap();
    assert_eq!(rs.responses.len(), 2);
    assert_eq!(rs.responses[0].0, StatusCode::Code(2));
    assert_eq!(rs.responses[1].0, StatusCode::Range(2));
    assert!(ctx.errors.is_empty());
}

#[test]
fn response_range_with_stores_range_key() {
    let mut ctx = GenContext::new();
    let t = TransformOperation::new(empty_operation()).response_range_with(
        5,
        Some(Response::new("server errors")),
        |r| r,
        &mut ctx,
    );
    let op = t.into_inner();
    let rs = op.responses.as_ref().unwrap();
    assert_eq!(rs.responses[0].0, StatusCode::Range(5));
    assert!(ctx.errors.is_empty());
}

#[test]
fn response_with_applies_transform() {
    let mut ctx = GenContext::new();
    let t = TransformOperation::new(empty_operation()).response_with(
        201,
        Some(Response::new("created")),
        |r| r.description("changed"),
        &mut ctx,
    );
    let op = t.into_inner();
    let rs = op.responses.as_ref().unwrap();
    match &rs.responses[0].1 {
        ReferenceOr::Item(r) => assert_eq!(r.description, "changed"),
        _ => panic!("expected an inlined response"),
    }
}

#[test]
fn response_with_hidden_inserts_nothing() {
    let mut ctx = GenContext::new();
    let t = TransformOperation::new(empty_operation()).response_with(
        500,
        Some(Response::new("oops")),
        |r| r.hidden(true),
        &mut ctx,
    );
    let op = t.into_inner();
    assert!(op.responses.as_ref().unwrap().responses.is_empty());
    assert!(ctx.errors.is_empty());
}

#[test]
fn default_response_with_hidden_leaves_default_unset() {
    let mut ctx = GenContext::new();
    let t = TransformOperation::new(empty_operation()).default_response_with(
        Some(Response::new("default")),
        |r| r.hidden(true),
        &mut ctx,
    );
    let op = t.into_inner();
    assert!(op.responses.as_ref().unwrap().default.is_none());
    assert!(ctx.errors.is_empty());
}

#[test]
fn parameter_sets_description() {
    let mut ctx = GenContext::new();
    let mut op = empty_operation();
    op.parameters.push(ReferenceOr::Item(query_parameter("page")));
    op.parameters.push(ReferenceOr::Item(query_parameter("limit")));
    let t = TransformOperation::new(op).parameter(
        "limit",
        |p: TransformParameter| p.description("page size"),
        &mut ctx,
    );
    let op = t.into_inner();
    assert_eq!(op.parameters.len(), 2);
    match &op.parameters[1] {
        ReferenceOr::Item(p) => {
            assert_eq!(p.parameter_data_ref().description.as_deref(), Some("page size"));
        },
        _ => panic!("expected an inlined parameter"),
    }
    match &op.parameters[0] {
        ReferenceOr::Item(p) => assert!(p.parameter_data_ref().description.is_none()),
        _ => panic!("expected an inlined parameter"),
    }
    assert!(ctx.errors.is_empty());
}

#[test]
fn parameter_missing_records_error() {
    let mut ctx = GenContext::new();
    let t = TransformOperation::new(empty_operation()).parameter_untyped(
        "nope",
        |p: TransformParameter| p,
        &mut ctx,
    );
    let op = t.into_inner();
    assert!(op.parameters.is_empty());
    assert_eq!(ctx.errors.len(), 1);
    match &ctx.errors[0] {
        Error::ParameterNotExists(name) => assert_eq!(name, "nope"),
        _ => panic!("expected a missing-parameter error"),
    }
}

#[test]
fn parameter_hidden_removes_it() {
    let mut ctx = GenContext::new();
    let mut op = empty_operation();
    op.parameters.push(ReferenceOr::Item(query_parameter("secret")));
    let t = TransformOperation::new(op).parameter(
        "secret",
        |p: TransformParameter| p.hidden(true),
        &mut ctx,
    );
    let op = t.into_inner();
    assert!(op.parameters.is_empty());
    assert!(ctx.errors.is_empty());
}

#[test]
fn filter_drops_duplicate_response_errors() {
    assert!(!filter_no_duplicate_response(&Error::DefaultResponseExists));
    assert!(!filter_no_duplicate_response(&Error::ResponseExists(StatusCode::Code(200))));
    assert!(filter_no_duplicate_response(&Error::DuplicateRequestBody));
    assert!(filter_no_duplicate_response(&Error::ParameterNotExists("q".to_string())));
    assert!(filter_no_duplicate_response(&Error::OperationExists("/a".to_string(), "get")));

    let mut ctx = GenContext::new();
    ctx.show_error = ErrorFilter::NoDuplicateResponse;
    ctx.error(Error::DefaultResponseExists);
    assert!(ctx.errors.is_empty());
    ctx.error(Error::DuplicateParameter("q".to_string()));
    assert_eq!(ctx.errors.len(), 1);
    ctx.reset_error_filter();
    assert_eq!(ctx.show_error, ErrorFilter::All);
}

#[test]
fn path_item_bulk_default_skips_existing() {
    let mut ctx = GenContext::new();
    let mut with_default = empty_operation();
    with_default.responses = Some(Responses {
        default: Some(ReferenceOr::Item(Response::new("kept"))),
        responses: Vec::new(),
    });
    let mut path = PathItem::new();
    path.get = Some(empty_operation());
    path.post = Some(with_default);
    let t = TransformPathItem::new(path)
        .description("users")
        .default_response(Some(Response::new("fallback")), &mut ctx);
    let path = t.into_inner();
    assert_eq!(path.description.as_deref(), Some("users"));
    assert_eq!(default_of(path.get.as_ref().unwrap()).unwrap().description, "fallback");
    assert_eq!(default_of(path.post.as_ref().unwrap()).unwrap().description, "kept");
    assert!(path.put.is_none());
    assert!(ctx.errors.is_empty());
    assert_eq!(ctx.show_error, ErrorFilter::All);
}

#[test]
fn openapi_bulk_default_leaves_references_alone() {
    let mut ctx = GenContext::new();
    let mut item = PathItem::new();
    item.get = Some(empty_operation());
    let api = OpenApi {
        paths: Some(Paths {
            paths: vec![
                ("/users".to_string(), ReferenceOr::Item(item)),
                (
                    "/shared".to_string(),
                    ReferenceOr::Reference { reference: "#/components/x".to_string() },
                ),
            ],
        }),
    };
    let t = TransformOpenApi::new(api).default_response(Some(Response::new("fallback")), &mut ctx);
    let api = t.into_inner();
    let paths = api.paths.as_ref().unwrap();
    assert_eq!(paths.paths.len(), 2);
    match &paths.paths[0].1 {
        ReferenceOr::Item(p) => {
            assert_eq!(default_of(p.get.as_ref().unwrap()).unwrap().description, "fallback");
        },
        _ => panic!("expected an inlined path item"),
    }
    assert!(matches!(&paths.paths[1].1, ReferenceOr::Reference { .. }));
    assert!(ctx.errors.is_empty());
}

#[test]
fn openapi_bulk_default_with_suppresses_duplicates() {
    let mut ctx = GenContext::new();
    let mut with_default = empty_operation();
    with_default.responses = Some(Responses {
        default: Some(ReferenceOr::Item(Response::new("kept"))),
        responses: Vec::new(),
    });
    let mut item = PathItem::new();
    item.get = Some(with_default);
    item.put = Some(empty_operation());
    let api = OpenApi {
        paths: Some(Paths { paths: vec![("/a".to_string(), ReferenceOr::Item(item))] }),
    };
    let t = TransformOpenApi::new(api).default_response_with(
        Some(Response::new("fallback")),
        |r: TransformResponse| r.description("from transform"),
        &mut ctx,
    );
    let api = t.into_inner();
    let paths = api.paths.as_ref().unwrap();
    match &paths.paths[0].1 {
        ReferenceOr::Item(p) => {
            assert_eq!(default_of(p.get.as_ref().unwrap()).unwrap().description, "kept");
            assert_eq!(
                default_of(p.put.as_ref().unwrap()).unwrap().description,
                "from transform"
            );
        },
        _ => panic!("expected an inlined path item"),
    }
    assert!(ctx.errors.is_empty());
    assert_eq!(ctx.show_error, ErrorFilter::All);
}

#[test]
fn path_item_bulk_default_with_suppresses_duplicates() {
    let mut ctx = GenContext::new();
    let mut with_default = empty_operation();
    with_default.responses = Some(Responses {
        default: Some(ReferenceOr::Item(Response::new("kept"))),
        responses: Vec::new(),
    });
    let mut path = PathItem::new();
    path.delete = Some(with_default);
    let t = TransformPathItem::new(path).default_response_with(
        Some(Response::new("fallback")),
        |r: TransformResponse| r,
        &mut ctx,
    );
    let path = t.into_inner();
    assert_eq!(default_of(path.delete.as_ref().unwrap()).unwrap().description, "kept");
    assert!(ctx.errors.is_empty());
    assert_eq!(ctx.show_error, ErrorFilter::All);
}

#[test]
fn example_sets_every_content_entry() {
    let mut response = Response::new("ok");
    response.add_content("application/json", MediaType::new());
    response.add_content("text/plain", MediaType::new());
    let value = serde_json::Value::String("sample".to_string());
    let t = TransformResponse::new(response).example(value.clone());
    let mut t = t;
    let inner = t.inner();
    assert_eq!(inner.content.len(), 2);
    assert_eq!(inner.content[0].1.example.as_ref(), Some(&value));
    assert_eq!(inner.content[1].1.example.as_ref(), Some(&value));
    assert_eq!(inner.content[0].0, "application/json");
}

#[test]
fn with_applies_transform_function() {
    let mut ctx = GenContext::new();
    let t = TransformOperation::new(empty_operation())
        .with(|op| op.id("composed"))
        .default_response(None, &mut ctx);
    let op = t.into_inner();
    assert_eq!(op.operation_id.as_deref(), Some("composed"));
}

#[test]
fn inner_mut_exposes_the_wrapped_value() {
    let mut t = TransformOpenApi::new(OpenApi { paths: None });
    assert!(t.inner_mut().paths.is_none());
    t.inner_mut().paths = Some(Paths { paths: Vec::new() });
    let api = t.into_inner();
    assert!(api.paths.is_some());
}
