//! The server side of a unary call.
//!
//! An incoming call is received with its path, routed to a method, decoded
//! by the codec of that method, shown to the interceptor, executed by the
//! handler, and completed with the encoded response. Every stage behind the
//! first may complete the call with an error status instead. Each step takes
//! the call by value: a call that is complete cannot be stepped again, and
//! nothing is tried a second time.

use crate::interceptor::{Interceptor, Metadata, Passthrough};
use crate::message::{request_parse, Empty, MaterializedView, Options, Request, RequestView};
use crate::method::Method;
use crate::routing::{route_of, route_of_uri, unimplemented, unimplemented_reply, Reply};
use crate::routing::ServiceDescriptor;
use crate::status::{Code, Status};
use std::sync::Arc;
use vstd::prelude::*;

verus! {

/// The service as its implementer writes it: one handler for each method,
/// which is given the decoded request and answers with the response or with
/// a status of its choice.
pub trait Materializer {
    fn validate_options(&self, request: Options, metadata: Metadata) -> Result<Empty, Status>;

    fn upsert_view(&self, request: MaterializedView, metadata: Metadata) -> Result<Empty, Status>;
}

/// How a call ended.
#[derive(Debug, PartialEq, Eq)]
pub enum Outcome {
    /// The handler answered: the response in the codec of the method.
    Message(Vec<u8>),
    /// The call ended with a status and without a message.
    Failed(Status),
    /// The path called no method: the reply that says so.
    Unrouted(Reply),
}

/// A call that was routed to a method and waits for its body.
#[derive(Debug)]
pub struct RoutedCall {
    method: Method,
}

/// A call whose request was decoded and waits for the interceptor.
#[derive(Debug)]
pub struct DecodedCall {
    request: Request,
}

/// A call that is to be executed: the handler of the request's method is to
/// be given `request` and `metadata`.
#[derive(Debug)]
pub struct Invocation {
    pub request: Request,
    pub metadata: Metadata,
}

/// What becomes of a call once its handler has answered with `result`: the
/// encoded response, or the handler's status as it is.
pub open spec fn completed(result: Result<Empty, Status>, outcome: Outcome) -> bool {
    match result {
        Ok(response) => outcome matches Outcome::Message(payload) && payload@ == response.wire(),
        Err(status) => outcome == Outcome::Failed(status),
    }
}

/// Tells whether `result` is an answer that the handler of the request's
/// method may give to `request` with `metadata`.
pub open spec fn handled<T: Materializer>(
    handler: T,
    request: Request,
    metadata: Metadata,
    result: Result<Empty, Status>,
) -> bool {
    match request {
        Request::ValidateOptions(options) => call_ensures(
            T::validate_options,
            (&handler, options, metadata),
            result,
        ),
        Request::UpsertView(view) => call_ensures(
            T::upsert_view,
            (&handler, view, metadata),
            result,
        ),
    }
}

impl RoutedCall {
    /// The method that the call was routed to.
    pub closed spec fn spec_method(&self) -> Method {
        self.method
    }

    /// Makes the call that was routed to `method` by whoever holds the
    /// routing table.
    pub fn for_method(method: Method) -> (routed: RoutedCall)
        ensures
            routed.spec_method() == method,
    {
        RoutedCall { method }
    }

    /// Returns the method that the call was routed to.
    pub fn method(&self) -> (method: Method)
        ensures
            method == self.spec_method(),
    {
        self.method
    }

    /// Reads the body as the request of the method. Where it is no such
    /// message, the call is complete with `Internal`.
    pub fn decode(self, body: &[u8]) -> (r: Result<DecodedCall, Status>)
        ensures
            match request_parse(self.spec_method(), body@) {
                Some(request) => r matches Ok(decoded) && decoded.request() == request,
                None => r matches Err(status) && status@.code == Code::Internal,
            },
    {
        match Request::decode(self.method, body) {
            Ok(request) => Ok(DecodedCall { request }),
            Err(failure) => Err(failure.into_status()),
        }
    }
}

impl DecodedCall {
    /// The request that was decoded.
    pub closed spec fn request(&self) -> RequestView {
        self.request@
    }

    /// The request that was decoded, as the handler will be given it.
    pub closed spec fn decoded(&self) -> Request {
        self.request
    }

    /// Returns the method that the call was routed to.
    pub fn method(&self) -> (method: Method)
        ensures
            method == self.request().method(),
    {
        self.request.method()
    }

    /// Gives up the request as it was decoded, for a driver whose
    /// interceptor is run elsewhere.
    pub fn into_request(self) -> (request: Request)
        ensures
            request == self.decoded(),
            request@ == self.request(),
    {
        self.request
    }

    /// Takes the interceptor's verdict. Where it refused the call, the call
    /// is complete with the interceptor's status. Otherwise the request goes
    /// to the handler as it was decoded, with the metadata that the
    /// interceptor handed back.
    pub fn intercepted(self, verdict: Result<Metadata, Status>) -> (r: Result<Invocation, Status>)
        ensures
            match verdict {
                Ok(metadata) => r matches Ok(invocation) && invocation.request == self.decoded()
                    && invocation.request@ == self.request() && invocation.metadata == metadata,
                Err(status) => r == Err::<Invocation, Status>(status),
            },
    {
        match verdict {
            Ok(metadata) => Ok(Invocation { request: self.request, metadata }),
            Err(status) => Err(status),
        }
    }
}

/// Completes a call with the handler's answer: the response is encoded by
/// the codec of the method, and a status is passed on as it is.
pub fn complete(result: Result<Empty, Status>) -> (outcome: Outcome)
    ensures
        completed(result, outcome),
{
    match result {
        Ok(response) => Outcome::Message(response.encode()),
        Err(status) => Outcome::Failed(status),
    }
}

/// Calls `Arc::clone`, which makes another reference to the value that
/// `handle` refers to.
#[verifier::external_body]
fn share<T>(handle: &Arc<T>) -> (other: Arc<T>)
    ensures
        other == *handle,
{
    Arc::clone(handle)
}

/// The handle of a service implementation: the implementation, the
/// interceptor that its calls pass by, and the routing table. It is made
/// once and only read from then on.
#[derive(Debug)]
pub struct MaterializerServer<T: Materializer, I> {
    inner: Arc<T>,
    interceptor: I,
    service: ServiceDescriptor,
}

impl<T: Materializer> MaterializerServer<T, Passthrough> {
    /// Makes a handle of `inner`, without an interceptor.
    pub fn new(inner: T) -> (server: Self)
        ensures
            server.handler() == inner,
    {
        MaterializerServer {
            inner: Arc::new(inner),
            interceptor: Passthrough {  },
            service: ServiceDescriptor::new(),
        }
    }
}

impl<T: Materializer, I: Interceptor + Clone> Clone for MaterializerServer<T, I> {
    /// Makes another handle of the same implementation: the reference is
    /// copied, not what it refers to.
    fn clone(&self) -> (other: Self)
        ensures
            other.handler() == self.handler(),
            cloned::<I>(self.interceptor(), other.interceptor()),
    {
        MaterializerServer {
            inner: share(&self.inner),
            interceptor: self.interceptor.clone(),
            service: ServiceDescriptor::new(),
        }
    }
}

impl<T: Materializer, I: Interceptor> MaterializerServer<T, I> {
    /// The service implementation.
    pub closed spec fn handler(&self) -> T {
        *self.inner
    }

    /// The interceptor.
    pub closed spec fn interceptor(&self) -> I {
        self.interceptor
    }

    /// Makes a handle of `inner` whose calls pass by `interceptor`.
    pub fn with_interceptor(inner: T, interceptor: I) -> (server: Self)
        ensures
            server.handler() == inner,
            server.interceptor() == interceptor,
    {
        MaterializerServer { inner: Arc::new(inner), interceptor, service: ServiceDescriptor::new() }
    }

    /// Receives a call by its path. A path that is not, character for
    /// character, the path of a method is answered with `Unimplemented` and
    /// an empty body.
    pub fn route(&self, path: &str) -> (r: Result<RoutedCall, Reply>)
        ensures
            match route_of(path@) {
                Some(method) => r matches Ok(routed) && routed.spec_method() == method,
                None => r matches Err(reply) && reply@ == unimplemented(),
            },
    {
        match self.service.route(path) {
            Some(method) => Ok(RoutedCall { method }),
            None => Err(unimplemented_reply()),
        }
    }

    /// Receives a call by the path of its request URI, which is the path of
    /// a method behind a slash.
    pub fn route_uri(&self, uri_path: &str) -> (r: Result<RoutedCall, Reply>)
        ensures
            match route_of_uri(uri_path@) {
                Some(method) => r matches Ok(routed) && routed.spec_method() == method,
                None => r matches Err(reply) && reply@ == unimplemented(),
            },
    {
        match self.service.route_uri(uri_path) {
            Some(method) => Ok(RoutedCall { method }),
            None => Err(unimplemented_reply()),
        }
    }

    /// Hands `invocation` to the handler of its method and completes the
    /// call with the handler's answer.
    pub fn execute(&self, invocation: Invocation) -> (outcome: Outcome)
        ensures
            exists|result: Result<Empty, Status>| #[trigger]
                handled(self.handler(), invocation.request, invocation.metadata, result)
                    && completed(result, outcome),
    {
        let result = match invocation.request {
            Request::ValidateOptions(options) => self.inner.validate_options(
                options,
                invocation.metadata,
            ),
            Request::UpsertView(view) => self.inner.upsert_view(view, invocation.metadata),
        };
        assert(handled(self.handler(), invocation.request, invocation.metadata, result));
        complete(result)
    }

    /// Serves one call from its path to its outcome.
    ///
    /// A path that calls no method is answered with `Unimplemented` and an
    /// empty body, and the body is not read. A body that is no request of
    /// the method ends the call with `Internal`, and neither the interceptor
    /// nor the handler is asked. An interceptor that refuses ends the call
    /// with its status. Otherwise the handler of the method is given the
    /// request as it was decoded, and the call ends with its answer: this
    /// function rejects no request that its codec can read.
    pub fn call(&self, path: &str, metadata: Metadata, body: &[u8]) -> (outcome: Outcome)
        ensures
            match route_of(path@) {
                None => outcome matches Outcome::Unrouted(reply) && reply@ == unimplemented(),
                Some(method) => match request_parse(method, body@) {
                    None => outcome matches Outcome::Failed(status) && status@.code
                        == Code::Internal,
                    Some(parsed) => exists|verdict: Result<Metadata, Status>| #[trigger]
                        call_ensures(I::intercept, (&self.interceptor(), method, metadata), verdict)
                            && match verdict {
                            Err(status) => outcome == Outcome::Failed(status),
                            Ok(passed) => exists|request: Request, result: Result<Empty, Status>|
                                request@ == parsed && #[trigger] handled(
                                    self.handler(),
                                    request,
                                    passed,
                                    result,
                                ) && completed(result, outcome),
                        },
                },
            },
    {
        let routed = match self.route(path) {
            Ok(routed) => routed,
            Err(reply) => {
                return Outcome::Unrouted(reply);
            },
        };
        let method = routed.method();
        let decoded = match routed.decode(body) {
            Ok(decoded) => decoded,
            Err(status) => {
                return Outcome::Failed(status);
            },
        };
        let verdict = self.interceptor.intercept(method, metadata);
        let ghost request = decoded.decoded();
        match decoded.intercepted(verdict) {
            Ok(invocation) => {
                let ghost passed = invocation.metadata;
                let outcome = self.execute(invocation);
                proof {
                    let result = choose|result: Result<Empty, Status>| #[trigger]
                        handled(self.handler(), request, passed, result) && completed(
                            result,
                            outcome,
                        );
                    assert(handled(self.handler(), request, passed, result));
                }
                outcome
            },
            Err(status) => Outcome::Failed(status),
        }
    }
}

} // verus!
