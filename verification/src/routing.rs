//! The routing table of the service and the reply to a path that it does not
//! hold.

use crate::method::{service_name, Method, NAME};
use crate::status::Code;
use vstd::prelude::*;

verus! {

/// One method of the service with the paths that it is called by, made once
/// and read from then on.
#[derive(Debug)]
pub struct MethodDescriptor {
    method: Method,
    path: String,
    uri_path: String,
}

impl MethodDescriptor {
    #[verifier::type_invariant]
    spec fn consistent(self) -> bool {
        &&& self.path@ == self.method.path()
        &&& self.uri_path@ == self.method.uri_path()
    }

    /// The method that is described.
    pub closed spec fn spec_method(&self) -> Method {
        self.method
    }

    /// Describes `method`.
    pub fn new(method: Method) -> (descriptor: MethodDescriptor)
        ensures
            descriptor.spec_method() == method,
    {
        MethodDescriptor { method, path: method.to_path(), uri_path: method.to_uri_path() }
    }

    /// Returns the method that is described.
    pub fn method(&self) -> (method: Method)
        ensures
            method == self.spec_method(),
    {
        self.method
    }

    /// Returns the path that the method is called by.
    pub fn path(&self) -> (path: &str)
        ensures
            path@ == self.spec_method().path(),
    {
        proof {
            use_type_invariant(self);
        }
        self.path.as_str()
    }

    /// Returns the path as it stands in the URI of a request.
    pub fn uri_path(&self) -> (path: &str)
        ensures
            path@ == self.spec_method().uri_path(),
    {
        proof {
            use_type_invariant(self);
        }
        self.uri_path.as_str()
    }
}

/// The method that a path calls: the one whose path it equals, character
/// for character, if there is one.
pub open spec fn route_of(path: Seq<char>) -> Option<Method> {
    if path == Method::ValidateOptions.path() {
        Some(Method::ValidateOptions)
    } else if path == Method::UpsertView.path() {
        Some(Method::UpsertView)
    } else {
        None
    }
}

/// The method that the path of a request URI calls: the one whose path it
/// equals behind its leading slash, if there is one.
pub open spec fn route_of_uri(uri_path: Seq<char>) -> Option<Method> {
    if uri_path == Method::ValidateOptions.uri_path() {
        Some(Method::ValidateOptions)
    } else if uri_path == Method::UpsertView.uri_path() {
        Some(Method::UpsertView)
    } else {
        None
    }
}

/// The service: its name and its methods in the order of their declaration.
#[derive(Debug)]
pub struct ServiceDescriptor {
    methods: Vec<MethodDescriptor>,
}

impl ServiceDescriptor {
    #[verifier::type_invariant]
    spec fn complete(self) -> bool {
        &&& self.methods@.len() == 2
        &&& self.methods@[0].spec_method() == Method::ValidateOptions
        &&& self.methods@[1].spec_method() == Method::UpsertView
    }

    /// The methods of the service, in the order of their declaration.
    pub closed spec fn methods(&self) -> Seq<Method> {
        Seq::new(self.methods@.len(), |i: int| self.methods@[i].spec_method())
    }

    /// Describes the service.
    pub fn new() -> (service: ServiceDescriptor)
        ensures
            service.methods() == seq![Method::ValidateOptions, Method::UpsertView],
    {
        let mut methods: Vec<MethodDescriptor> = Vec::new();
        methods.push(MethodDescriptor::new(Method::ValidateOptions));
        methods.push(MethodDescriptor::new(Method::UpsertView));
        let service = ServiceDescriptor { methods };
        assert(service.methods() =~= seq![Method::ValidateOptions, Method::UpsertView]);
        service
    }

    /// Returns the number of methods.
    pub fn len(&self) -> (n: usize)
        ensures
            n == self.methods().len(),
            self.methods() == seq![Method::ValidateOptions, Method::UpsertView],
    {
        proof {
            use_type_invariant(self);
            assert(self.methods() =~= seq![Method::ValidateOptions, Method::UpsertView]);
        }
        self.methods.len()
    }

    /// Returns the name of the service.
    pub fn name(&self) -> (name: &'static str)
        ensures
            name@ == service_name(),
    {
        NAME
    }

    /// Returns the descriptor of `method`.
    pub fn descriptor(&self, method: Method) -> (descriptor: &MethodDescriptor)
        ensures
            descriptor.spec_method() == method,
    {
        proof {
            use_type_invariant(self);
        }
        match method {
            Method::ValidateOptions => &self.methods[0],
            Method::UpsertView => &self.methods[1],
        }
    }

    /// Finds the method that `path` calls. Nothing but the whole path of a
    /// method matches.
    pub fn route(&self, path: &str) -> (found: Option<Method>)
        ensures
            found == route_of(path@),
    {
        proof {
            use_type_invariant(self);
        }
        let wanted = path.to_owned();
        let mut i: usize = 0;
        while i < self.methods.len()
            invariant
                i <= self.methods@.len() == 2,
                self.methods@[0].spec_method() == Method::ValidateOptions,
                self.methods@[1].spec_method() == Method::UpsertView,
                wanted@ == path@,
                forall|j: int| 0 <= j < i ==> self.methods@[j].spec_method().path() != path@,
            decreases self.methods@.len() - i,
        {
            let entry = &self.methods[i];
            proof {
                use_type_invariant(entry);
            }
            if entry.path == wanted {
                return Some(entry.method);
            }
            i += 1;
        }
        None
    }

    /// Finds the method that the path of a request URI calls.
    pub fn route_uri(&self, uri_path: &str) -> (found: Option<Method>)
        ensures
            found == route_of_uri(uri_path@),
    {
        proof {
            use_type_invariant(self);
        }
        let wanted = uri_path.to_owned();
        let mut i: usize = 0;
        while i < self.methods.len()
            invariant
                i <= self.methods@.len() == 2,
                self.methods@[0].spec_method() == Method::ValidateOptions,
                self.methods@[1].spec_method() == Method::UpsertView,
                wanted@ == uri_path@,
                forall|j: int|
                    0 <= j < i ==> self.methods@[j].spec_method().uri_path() != uri_path@,
            decreases self.methods@.len() - i,
        {
            let entry = &self.methods[i];
            proof {
                use_type_invariant(entry);
            }
            if entry.uri_path == wanted {
                return Some(entry.method);
            }
            i += 1;
        }
        None
    }
}

/// A response as the protocol carries it: the HTTP status, the header fields
/// in their order, and the body.
#[derive(Clone, Debug, PartialEq, Eq)]
pub struct Reply {
    pub http_status: u16,
    pub headers: Vec<(String, String)>,
    pub body: Vec<u8>,
}

/// A reply as a mathematical value.
pub struct ReplyView {
    pub http_status: u16,
    pub headers: Seq<(Seq<char>, Seq<char>)>,
    pub body: Seq<u8>,
}

impl View for Reply {
    type V = ReplyView;

    open spec fn view(&self) -> ReplyView {
        ReplyView {
            http_status: self.http_status,
            headers: Seq::new(
                self.headers@.len(),
                |i: int| (self.headers@[i].0@, self.headers@[i].1@),
            ),
            body: self.body@,
        }
    }
}

/// The reply to a path that calls no method: HTTP status 200, the status
/// code `Unimplemented` by its number in the header `grpc-status`, the
/// content type of the protocol, and no body.
pub open spec fn unimplemented() -> ReplyView {
    ReplyView {
        http_status: 200,
        headers: seq![
            ("grpc-status"@, Code::Unimplemented.digits()),
            ("content-type"@, "application/grpc"@),
        ],
        body: Seq::empty(),
    }
}

/// Makes the reply to a path that calls no method.
pub fn unimplemented_reply() -> (reply: Reply)
    ensures
        reply@ == unimplemented(),
{
    let mut headers: Vec<(String, String)> = Vec::new();
    headers.push(("grpc-status".to_owned(), Code::Unimplemented.header_value().to_owned()));
    headers.push(("content-type".to_owned(), "application/grpc".to_owned()));
    let reply = Reply { http_status: 200, headers, body: Vec::new() };
    assert(reply@.headers =~= unimplemented().headers);
    reply
}

/// A path and the same path behind a slash call the same method.
pub proof fn lemma_route_uri(path: Seq<char>)
    ensures
        route_of_uri(seq!['/'] + path) == route_of(path),
{
    let uri = seq!['/'] + path;
    assert(uri.skip(1) =~= path);
    assert(Method::ValidateOptions.uri_path().skip(1) =~= Method::ValidateOptions.path());
    assert(Method::UpsertView.uri_path().skip(1) =~= Method::UpsertView.path());
}

/// The path of a method calls that method and no other.
pub proof fn lemma_route_own_path(method: Method)
    ensures
        route_of(method.path()) == Some(method),
        route_of_uri(method.uri_path()) == Some(method),
{
    if method != Method::ValidateOptions {
        crate::method::lemma_paths_distinct(method, Method::ValidateOptions);
    }
}

} // verus!
