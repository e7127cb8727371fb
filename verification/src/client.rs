//! The client side of a unary call.
//!
//! A call goes through three hands. The stub makes it; once the transport
//! has said whether it is ready, and the interceptor whether the call may
//! pass, it becomes an exchange, which names the path and the bytes to send;
//! and once the transport has answered, the exchange ends in a response or a
//! status. Each step takes the call by value: a call that has ended cannot
//! be stepped again.

use crate::interceptor::{Interceptor, Metadata, Passthrough};
use crate::message::{
    fields_well_formed, lemma_request_round_trip, request_parse, Empty, MaterializedView, Options,
    Request, RequestView,
};
use crate::method::{service_name, Method};
use crate::routing::{lemma_route_own_path, route_of, ServiceDescriptor};
use crate::status::{Code, Status, StatusView};
use vstd::prelude::*;
use vstd::string::StringExecFns;
use vstd::utf8::*;

verus! {

/// A failure of the transport during the exchange, with the status code
/// that the transport gave for it, if it gave one.
#[derive(Debug, PartialEq, Eq)]
pub struct TransportError {
    pub code: Option<Code>,
    pub message: String,
}

/// The status of a call that found the transport not ready: `Unknown`, with
/// the transport's reason behind a fixed lead.
pub open spec fn not_ready(reason: Seq<char>) -> StatusView {
    StatusView { code: Code::Unknown, message: "Service was not ready: "@ + reason }
}

/// The status of a call whose exchange failed: the transport's code, or
/// `Unknown` where it gave none, with the transport's message.
pub open spec fn transport_failure(code: Option<Code>, message: Seq<char>) -> StatusView {
    Status::of_error(code, message)
}

/// What is sent for a request: the path of its method, and its bytes by the
/// codec of its method.
pub open spec fn sent(request: RequestView) -> (Seq<char>, Seq<u8>) {
    (request.method().path(), request.wire())
}

/// Tells whether `r` is what becomes of a call that carries `request` once
/// the interceptor has given `verdict`: the interceptor's status where it
/// refused, and otherwise an exchange for that request with the metadata
/// that the interceptor handed back.
pub open spec fn admitted(
    request: RequestView,
    verdict: Result<Metadata, Status>,
    r: Result<Exchange, Status>,
) -> bool {
    match verdict {
        Ok(metadata) => r matches Ok(exchange) && exchange.method == request.method() && (
            exchange.path@,
            exchange.payload@,
        ) == sent(request) && exchange.metadata == metadata,
        Err(status) => r == Err::<Exchange, Status>(status),
    }
}

/// A call that has been made and waits for the transport to be ready.
#[derive(Debug)]
pub struct PendingCall {
    request: Request,
    metadata: Metadata,
}

/// A call that found the transport ready and waits for the interceptor.
#[derive(Debug)]
pub struct ReadyCall {
    request: Request,
    metadata: Metadata,
}

/// A call that is to be sent, or is in flight: the transport is to deliver
/// `payload` to `path` and to hand back what comes in answer.
#[derive(Debug)]
pub struct Exchange {
    pub method: Method,
    pub path: String,
    pub payload: Vec<u8>,
    pub metadata: Metadata,
}

impl PendingCall {
    /// The request that the call carries.
    pub closed spec fn request(&self) -> RequestView {
        self.request@
    }

    /// The metadata that the call was made with.
    pub closed spec fn metadata(&self) -> Metadata {
        self.metadata
    }

    /// Makes a call for `request`.
    pub fn new(request: Request, metadata: Metadata) -> (call: PendingCall)
        ensures
            call.request() == request@,
            call.metadata() == metadata,
    {
        PendingCall { request, metadata }
    }

    /// Returns the method that is called.
    pub fn method(&self) -> (method: Method)
        ensures
            method == self.request().method(),
    {
        self.request.method()
    }

    /// Takes the transport's word on whether it is ready. Where it is not,
    /// the call ends at once with `Unknown` and the transport's reason;
    /// nothing is encoded or sent.
    pub fn on_ready(self, readiness: Result<(), String>) -> (r: Result<ReadyCall, Status>)
        ensures
            match readiness {
                Ok(_) => r matches Ok(ready) && ready.request() == self.request()
                    && ready.metadata() == self.metadata(),
                Err(reason) => r matches Err(status) && status@ == not_ready(reason@),
            },
    {
        match readiness {
            Ok(_) => Ok(ReadyCall { request: self.request, metadata: self.metadata }),
            Err(reason) => {
                let mut message = "Service was not ready: ".to_owned();
                message.append(reason.as_str());
                Err(Status::new(Code::Unknown, message))
            },
        }
    }
}

impl ReadyCall {
    /// The request that the call carries.
    pub closed spec fn request(&self) -> RequestView {
        self.request@
    }

    /// The metadata that the call was made with.
    pub closed spec fn metadata(&self) -> Metadata {
        self.metadata
    }

    /// Returns the method that is called.
    pub fn method(&self) -> (method: Method)
        ensures
            method == self.request().method(),
    {
        self.request.method()
    }

    /// Hands out the metadata for the interceptor to look at, and keeps the
    /// request.
    pub fn take_metadata(&mut self) -> (metadata: Metadata)
        ensures
            metadata == old(self).metadata(),
            final(self).request() == old(self).request(),
    {
        let mut taken = Metadata::new();
        std::mem::swap(&mut self.metadata, &mut taken);
        taken
    }

    /// Takes the interceptor's verdict. Where it refused the call, the call
    /// ends with the interceptor's status. Otherwise the request is encoded
    /// by the codec of its method, and goes to the path of its method with
    /// the metadata that the interceptor handed back.
    pub fn intercepted(self, service: &ServiceDescriptor, verdict: Result<Metadata, Status>) -> (r:
        Result<Exchange, Status>)
        ensures
            admitted(self.request(), verdict, r),
    {
        match verdict {
            Ok(metadata) => {
                let method = self.request.method();
                let path = service.descriptor(method).path().to_owned();
                let payload = self.request.encode();
                Ok(Exchange { method, path, payload, metadata })
            },
            Err(status) => Err(status),
        }
    }
}

impl Exchange {
    /// Takes the transport's answer. A failure of the transport becomes a
    /// status with the transport's code, `Unknown` where it gave none.
    /// Bytes that came back are read as the response of the method; where
    /// they are no such message, the call ends with `Internal`.
    pub fn on_reply(self, reply: Result<Vec<u8>, TransportError>) -> (r: Result<Empty, Status>)
        ensures
            match reply {
                Ok(bytes) => if fields_well_formed(bytes@) {
                    r is Ok
                } else {
                    r matches Err(status) && status@.code == Code::Internal
                },
                Err(error) => r matches Err(status) && status@ == transport_failure(
                    error.code,
                    error.message@,
                ),
            },
    {
        match reply {
            Ok(bytes) => match Empty::decode(bytes.as_slice()) {
                Ok(response) => Ok(response),
                Err(failure) => Err(failure.into_status()),
            },
            Err(error) => Err(Status::from_error(error.code, error.message)),
        }
    }
}

/// The stub of the service: one method for each method of the service, each
/// of which makes a call for that method and nothing else. It holds the
/// transport for whoever drives the calls, and never uses it itself.
#[derive(Debug)]
pub struct MaterializerClient<T, I> {
    inner: T,
    interceptor: I,
    service: ServiceDescriptor,
}

impl<T> MaterializerClient<T, Passthrough> {
    /// Makes a stub over the transport `inner`, without an interceptor.
    pub fn new(inner: T) -> (client: Self)
        ensures
            client.transport() == inner,
    {
        MaterializerClient { inner, interceptor: Passthrough {  }, service: ServiceDescriptor::new() }
    }
}

impl<T: Clone, I: Interceptor + Clone> Clone for MaterializerClient<T, I> {
    /// Makes another stub over a clone of the transport.
    fn clone(&self) -> (other: Self)
        ensures
            cloned::<T>(self.transport(), other.transport()),
            cloned::<I>(self.interceptor(), other.interceptor()),
    {
        MaterializerClient {
            inner: self.inner.clone(),
            interceptor: self.interceptor.clone(),
            service: ServiceDescriptor::new(),
        }
    }
}

impl<T, I: Interceptor> MaterializerClient<T, I> {
    /// The transport that the stub holds.
    pub closed spec fn transport(&self) -> T {
        self.inner
    }

    /// The interceptor that the stub holds.
    pub closed spec fn interceptor(&self) -> I {
        self.interceptor
    }

    /// Makes a stub over the transport `inner` whose calls pass by
    /// `interceptor`.
    pub fn with_interceptor(inner: T, interceptor: I) -> (client: Self)
        ensures
            client.transport() == inner,
            client.interceptor() == interceptor,
    {
        MaterializerClient { inner, interceptor, service: ServiceDescriptor::new() }
    }

    /// Returns the transport.
    pub fn get_ref(&self) -> (inner: &T)
        ensures
            *inner == self.transport(),
    {
        &self.inner
    }

    /// Gives the transport back.
    pub fn into_inner(self) -> (inner: T)
        ensures
            inner == self.transport(),
    {
        self.inner
    }

    /// Makes a call of `ValidateOptions`. The request is not looked into:
    /// whether its text is acceptable is for the server to say.
    pub fn validate_options(&self, request: Options) -> (call: PendingCall)
        ensures
            call.request() == RequestView::ValidateOptions(request@),
            call.metadata().entries@.len() == 0,
    {
        PendingCall::new(Request::ValidateOptions(request), Metadata::new())
    }

    /// Makes a call of `UpsertView`.
    pub fn upsert_view(&self, request: MaterializedView) -> (call: PendingCall)
        ensures
            call.request() == RequestView::UpsertView(request@),
            call.metadata().entries@.len() == 0,
    {
        PendingCall::new(Request::UpsertView(request), Metadata::new())
    }

    /// Takes a call up to the point where it is to be sent: hears the
    /// transport on whether it is ready, and then the interceptor. Where the
    /// transport is not ready the call ends at once with `Unknown` and the
    /// interceptor is not asked; where the interceptor refuses, the call
    /// ends with its status.
    pub fn begin(&self, call: PendingCall, readiness: Result<(), String>) -> (r: Result<
        Exchange,
        Status,
    >)
        ensures
            match readiness {
                Ok(_) => exists|verdict: Result<Metadata, Status>|
                    {
                        &&& #[trigger] call_ensures(
                            I::intercept,
                            (&self.interceptor(), call.request().method(), call.metadata()),
                            verdict,
                        )
                        &&& admitted(call.request(), verdict, r)
                    },
                Err(reason) => r matches Err(status) && status@ == not_ready(reason@),
            },
    {
        match call.on_ready(readiness) {
            Ok(ready) => {
                let mut ready = ready;
                let method = ready.method();
                let metadata = ready.take_metadata();
                let verdict = self.interceptor.intercept(method, metadata);
                ready.intercepted(&self.service, verdict)
            },
            Err(status) => Err(status),
        }
    }
}

/// Every call goes to the path of its own method, which is the name of the
/// service, a slash and the name of the method, carrying the request in the
/// codec of that method: the server's table routes that path to the same
/// method, and the codec of that method reads the same request back.
pub proof fn lemma_sent_to_own_path(request: RequestView)
    requires
        request matches RequestView::ValidateOptions(text) ==> encode_utf8(text).len() <= u64::MAX,
        request matches RequestView::UpsertView(encoded) ==> fields_well_formed(encoded),
    ensures
        sent(request).0 == service_name() + seq!['/'] + request.method().name(),
        route_of(sent(request).0) == Some(request.method()),
        request_parse(request.method(), sent(request).1) == Some(request),
{
    lemma_route_own_path(request.method());
    lemma_request_round_trip(request);
}

} // verus!
