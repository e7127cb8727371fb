use materializer_rpc::client::{Exchange, MaterializerClient, PendingCall, TransportError};
use materializer_rpc::interceptor::{Interceptor, Metadata, Passthrough};
use materializer_rpc::message::{Empty, MaterializedView, Options, Request};
use materializer_rpc::method::Method;
use materializer_rpc::routing::ServiceDescriptor;
use materializer_rpc::status::{Code, Status};

fn options(text: &str) -> Options {
    Options { options: text.to_string() }
}

fn view(bytes: &[u8]) -> MaterializedView {
    MaterializedView::decode(bytes).unwrap()
}

fn pair(name: &str, value: &str) -> (String, String) {
    (name.to_string(), value.to_string())
}

struct Stamp;

impl Interceptor for Stamp {
    fn intercept(&self, method: Method, metadata: Metadata) -> Result<Metadata, Status> {
        let mut metadata = metadata;
        metadata.entries.push(pair("x-method", method.method_name()));
        Ok(metadata)
    }
}

struct Refuse;

impl Interceptor for Refuse {
    fn intercept(&self, _method: Method, _metadata: Metadata) -> Result<Metadata, Status> {
        Err(Status::new(Code::PermissionDenied, "not for you".to_string()))
    }
}

#[test]
fn validate_options_goes_to_its_path_with_its_bytes() {
    let client = MaterializerClient::new(());
    let call = client.validate_options(options("a=1"));
    assert_eq!(call.method(), Method::ValidateOptions);
    let exchange = client.begin(call, Ok(())).unwrap();
    assert_eq!(exchange.method, Method::ValidateOptions);
    assert_eq!(exchange.path, "materializer.Materializer/ValidateOptions");
    assert_eq!(exchange.payload, vec![0x0a, 0x03, b'a', b'=', b'1']);
    assert_eq!(exchange.metadata, Metadata::new());
}

#[test]
fn upsert_view_goes_to_its_path_with_its_bytes() {
    let client = MaterializerClient::new(());
    let call = client.upsert_view(view(&[0x0a, 0x01, b'v']));
    assert_eq!(call.method(), Method::UpsertView);
    let exchange = client.begin(call, Ok(())).unwrap();
    assert_eq!(exchange.method, Method::UpsertView);
    assert_eq!(exchange.path, "materializer.Materializer/UpsertView");
    assert_eq!(exchange.payload, vec![0x0a, 0x01, b'v']);
}

#[test]
fn every_method_goes_to_service_slash_method() {
    let client = MaterializerClient::new(());
    let calls = vec![client.validate_options(options("")), client.upsert_view(view(&[]))];
    for call in calls {
        let method = call.method();
        let exchange = client.begin(call, Ok(())).unwrap();
        assert_eq!(exchange.path, format!("materializer.Materializer/{}", method.method_name()));
        assert_eq!(ServiceDescriptor::new().route(&exchange.path), Some(method));
    }
}

#[test]
fn empty_options_are_sent_as_they_are() {
    let client = MaterializerClient::new(());
    let exchange = client.begin(client.validate_options(options("")), Ok(())).unwrap();
    assert_eq!(exchange.payload, vec![0x0a, 0x00]);
}

#[test]
fn upsert_view_on_a_transport_that_is_not_ready_fails_at_once() {
    let client = MaterializerClient::new(());
    let call = client.upsert_view(view(&[0x08, 0x01]));
    let status = client.begin(call, Err("connection refused".to_string())).unwrap_err();
    assert_eq!(status.code(), Code::Unknown);
    assert_eq!(status.message(), "Service was not ready: connection refused");
}

#[test]
fn validate_options_on_a_transport_that_is_not_ready_fails_at_once() {
    let client = MaterializerClient::new(());
    let call = client.validate_options(options("x"));
    let status = call.on_ready(Err(String::new())).unwrap_err();
    assert_eq!(status, Status { code: Code::Unknown, message: "Service was not ready: ".to_string() });
}

#[test]
fn the_interceptor_is_not_asked_when_the_transport_is_not_ready() {
    let client = MaterializerClient::with_interceptor((), Refuse);
    let call = client.validate_options(options("x"));
    let status = client.begin(call, Err("busy".to_string())).unwrap_err();
    assert_eq!(status.code(), Code::Unknown);
    assert_eq!(status.message(), "Service was not ready: busy");
}

#[test]
fn an_interceptor_may_add_metadata_and_leaves_the_payload() {
    let plain = MaterializerClient::new(());
    let stamped = MaterializerClient::with_interceptor((), Stamp);
    let without = plain.begin(plain.validate_options(options("q")), Ok(())).unwrap();
    let with = stamped.begin(stamped.validate_options(options("q")), Ok(())).unwrap();
    assert_eq!(with.metadata.entries, vec![pair("x-method", "ValidateOptions")]);
    assert_eq!(with.payload, without.payload);
    assert_eq!(with.path, without.path);
}

#[test]
fn an_interceptor_may_refuse_a_call() {
    let client = MaterializerClient::with_interceptor((), Refuse);
    let call = client.upsert_view(view(&[]));
    let status = client.begin(call, Ok(())).unwrap_err();
    assert_eq!(status, Status { code: Code::PermissionDenied, message: "not for you".to_string() });
}

#[test]
fn the_steps_can_be_taken_one_by_one() {
    let service = ServiceDescriptor::new();
    let mut metadata = Metadata::new();
    metadata.entries.push(pair("trace", "7"));
    let call = PendingCall::new(Request::ValidateOptions(options("z")), metadata);
    let mut ready = call.on_ready(Ok(())).unwrap();
    assert_eq!(ready.method(), Method::ValidateOptions);
    let taken = ready.take_metadata();
    assert_eq!(taken.entries, vec![pair("trace", "7")]);
    let verdict = Passthrough {}.intercept(Method::ValidateOptions, taken);
    let exchange = ready.intercepted(&service, verdict).unwrap();
    assert_eq!(exchange.path, "materializer.Materializer/ValidateOptions");
    assert_eq!(exchange.payload, vec![0x0a, 0x01, b'z']);
    assert_eq!(exchange.metadata.entries, vec![pair("trace", "7")]);
    assert_eq!(exchange.on_reply(Ok(Vec::new())), Ok(Empty {}));
}

fn exchange() -> Exchange {
    let client = MaterializerClient::new(());
    client.begin(client.validate_options(options("x")), Ok(())).unwrap()
}

#[test]
fn an_empty_answer_is_the_empty_response() {
    assert_eq!(exchange().on_reply(Ok(Vec::new())), Ok(Empty {}));
}

#[test]
fn an_answer_with_fields_is_the_empty_response() {
    assert_eq!(exchange().on_reply(Ok(vec![0x08, 0x01, 0x12, 0x00])), Ok(Empty {}));
}

#[test]
fn an_answer_that_cannot_be_read_is_an_internal_status() {
    let status = exchange().on_reply(Ok(vec![0x0a, 0x05])).unwrap_err();
    assert_eq!(status.code(), Code::Internal);
    assert_eq!(status.message(), "failed to decode Protobuf message: buffer underflow");
}

#[test]
fn a_transport_failure_without_a_code_is_unknown() {
    let error = TransportError { code: None, message: "connection reset".to_string() };
    let status = exchange().on_reply(Err(error)).unwrap_err();
    assert_eq!(status, Status { code: Code::Unknown, message: "connection reset".to_string() });
}

#[test]
fn a_transport_failure_keeps_its_code() {
    let error = TransportError { code: Some(Code::Unavailable), message: "gone".to_string() };
    let status = exchange().on_reply(Err(error)).unwrap_err();
    assert_eq!(status, Status { code: Code::Unavailable, message: "gone".to_string() });
}

#[test]
fn a_server_that_knows_no_such_method_is_reported_as_such() {
    let error = TransportError { code: Some(Code::Unimplemented), message: String::new() };
    let status = exchange().on_reply(Err(error)).unwrap_err();
    assert_eq!(status.code(), Code::Unimplemented);
}

#[test]
fn calls_on_one_stub_keep_to_their_own_requests() {
    let client = MaterializerClient::new(());
    let texts = ["a", "bb", "ccc", "dddd", "eeeee"];
    let mut calls: Vec<PendingCall> = Vec::new();
    for text in texts {
        calls.push(client.validate_options(options(text)));
    }
    // taken up in the reverse order of their making
    let mut sent: Vec<Vec<u8>> = Vec::new();
    while let Some(call) = calls.pop() {
        sent.push(client.begin(call, Ok(())).unwrap().payload);
    }
    sent.reverse();
    for (text, payload) in texts.iter().zip(sent) {
        assert_eq!(Options::decode(&payload), Ok(options(text)));
    }
}

#[test]
fn a_call_that_is_dropped_leaves_the_others_as_they_were() {
    let client = MaterializerClient::new(());
    let first = client.validate_options(options("first"));
    let second = client.validate_options(options("second"));
    let third = client.upsert_view(view(&[0x08, 0x03]));
    drop(second);
    let third = client.begin(third, Ok(())).unwrap();
    let first = client.begin(first, Ok(())).unwrap();
    assert_eq!(first.payload, options("first").encode());
    assert_eq!(third.payload, vec![0x08, 0x03]);
    assert_eq!(first.on_reply(Ok(Vec::new())), Ok(Empty {}));
    drop(third);
}

#[test]
fn a_stub_holds_its_transport() {
    let client = MaterializerClient::new(41u8);
    assert_eq!(*client.get_ref(), 41);
    let copy = client.clone();
    assert_eq!(copy.into_inner(), 41);
    assert_eq!(client.into_inner(), 41);
}
