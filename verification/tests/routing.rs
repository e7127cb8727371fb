use materializer_rpc::method::{Method, NAME};
use materializer_rpc::routing::{unimplemented_reply, MethodDescriptor, ServiceDescriptor};

#[test]
fn the_service_has_its_name() {
    assert_eq!(NAME, "materializer.Materializer");
    assert_eq!(ServiceDescriptor::new().name(), "materializer.Materializer");
}

#[test]
fn the_service_has_two_methods() {
    assert_eq!(ServiceDescriptor::new().len(), 2);
}

#[test]
fn methods_have_their_names() {
    assert_eq!(Method::ValidateOptions.method_name(), "ValidateOptions");
    assert_eq!(Method::UpsertView.method_name(), "UpsertView");
}

#[test]
fn a_path_is_service_slash_method() {
    assert_eq!(Method::ValidateOptions.to_path(), "materializer.Materializer/ValidateOptions");
    assert_eq!(Method::UpsertView.to_path(), "materializer.Materializer/UpsertView");
    for method in [Method::ValidateOptions, Method::UpsertView] {
        assert_eq!(method.to_path(), format!("{}/{}", NAME, method.method_name()));
    }
}

#[test]
fn a_uri_path_is_the_path_behind_a_slash() {
    assert_eq!(Method::ValidateOptions.to_uri_path(), "/materializer.Materializer/ValidateOptions");
    assert_eq!(Method::UpsertView.to_uri_path(), "/materializer.Materializer/UpsertView");
}

#[test]
fn a_uri_path_is_one_that_http_accepts() {
    for method in [Method::ValidateOptions, Method::UpsertView] {
        let parsed: http::uri::PathAndQuery = method.to_uri_path().parse().unwrap();
        assert_eq!(parsed.path(), method.to_uri_path());
        assert_eq!(parsed.query(), None);
    }
}

#[test]
fn a_descriptor_holds_the_paths_of_its_method() {
    let service = ServiceDescriptor::new();
    for method in [Method::ValidateOptions, Method::UpsertView] {
        let descriptor = service.descriptor(method);
        assert_eq!(descriptor.method(), method);
        assert_eq!(descriptor.path(), method.to_path());
        assert_eq!(descriptor.uri_path(), method.to_uri_path());
    }
    assert_eq!(MethodDescriptor::new(Method::UpsertView).path(), "materializer.Materializer/UpsertView");
}

#[test]
fn the_path_of_a_method_routes_to_it() {
    let service = ServiceDescriptor::new();
    assert_eq!(
        service.route("materializer.Materializer/ValidateOptions"),
        Some(Method::ValidateOptions)
    );
    assert_eq!(service.route("materializer.Materializer/UpsertView"), Some(Method::UpsertView));
    for method in [Method::ValidateOptions, Method::UpsertView] {
        assert_eq!(service.route(&method.to_path()), Some(method));
        assert_eq!(service.route_uri(&method.to_uri_path()), Some(method));
    }
}

#[test]
fn nothing_but_the_whole_path_routes() {
    let service = ServiceDescriptor::new();
    for path in [
        "",
        "/",
        "materializer.Materializer",
        "materializer.Materializer/",
        "materializer.Materializer/ValidateOption",
        "materializer.Materializer/ValidateOptionsX",
        "materializer.Materializer/ValidateOptions/",
        "materializer.Materializer/validateoptions",
        "Materializer/ValidateOptions",
        "materializer.Materializer/UpsertView?x=1",
        "/materializer.Materializer/UpsertView",
        " materializer.Materializer/UpsertView",
        "materializer.Materializer/DropView",
        "other.Service/UpsertView",
        "ValidateOptions",
    ] {
        assert_eq!(service.route(path), None, "{:?}", path);
    }
}

#[test]
fn nothing_but_the_whole_uri_path_routes() {
    let service = ServiceDescriptor::new();
    for path in [
        "",
        "/",
        "materializer.Materializer/UpsertView",
        "//materializer.Materializer/UpsertView",
        "/materializer.Materializer/UpsertView/",
        "/materializer.Materializer/Upsert",
        "/materializer.Materializer/",
        "/MATERIALIZER.MATERIALIZER/UPSERTVIEW",
        "/other.Service/ValidateOptions",
    ] {
        assert_eq!(service.route_uri(path), None, "{:?}", path);
    }
}

#[test]
fn the_fallback_reply_says_unimplemented() {
    let reply = unimplemented_reply();
    assert_eq!(reply.http_status, 200);
    assert_eq!(
        reply.headers,
        vec![
            ("grpc-status".to_string(), "12".to_string()),
            ("content-type".to_string(), "application/grpc".to_string()),
        ]
    );
    assert!(reply.body.is_empty());
}

#[test]
fn the_fallback_reply_is_one_that_http_accepts() {
    let reply = unimplemented_reply();
    let mut builder = http::Response::builder().status(reply.http_status);
    for (name, value) in &reply.headers {
        builder = builder.header(name.as_str(), value.as_str());
    }
    let response = builder.body(reply.body.clone()).unwrap();
    assert_eq!(response.status(), http::StatusCode::OK);
    assert_eq!(response.headers().get("grpc-status").unwrap(), "12");
    assert_eq!(response.headers().get("content-type").unwrap(), "application/grpc");
    assert_eq!(tonic::Code::from_bytes(response.headers()["grpc-status"].as_bytes()), tonic::Code::Unimplemented);
}
