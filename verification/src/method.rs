//! The methods of the service and the paths that they are called by.

use vstd::prelude::*;
use vstd::string::StringExecFns;

verus! {

/// The methods that the service declares, in the order of their declaration.
#[derive(Clone, Copy, Debug, PartialEq, Eq, Structural)]
pub enum Method {
    ValidateOptions,
    UpsertView,
}

/// The name of the service, which stands in front of the path of each of its
/// methods and under which the service is registered with a router that
/// serves several services.
pub open spec fn service_name() -> Seq<char> {
    "materializer.Materializer"@
}

impl Method {
    /// The name of the method within the service.
    pub open spec fn name(self) -> Seq<char> {
        match self {
            Method::ValidateOptions => "ValidateOptions"@,
            Method::UpsertView => "UpsertView"@,
        }
    }

    /// The path that the method is called by: the name of the service, a
    /// slash, and the name of the method.
    pub open spec fn path(self) -> Seq<char> {
        service_name() + seq!['/'] + self.name()
    }

    /// The path as it stands in the URI of a request: a slash, then the
    /// path.
    pub open spec fn uri_path(self) -> Seq<char> {
        seq!['/'] + self.path()
    }

    /// Returns the name of the method within the service.
    pub fn method_name(self) -> (name: &'static str)
        ensures
            name@ == self.name(),
    {
        match self {
            Method::ValidateOptions => "ValidateOptions",
            Method::UpsertView => "UpsertView",
        }
    }

    /// Returns the path that the method is called by.
    pub fn to_path(self) -> (path: String)
        ensures
            path@ == self.path(),
    {
        let mut path = NAME.to_owned();
        path.append("/");
        path.append(self.method_name());
        proof {
            reveal_strlit("/");
            assert("/"@ =~= seq!['/']);
        }
        path
    }

    /// Returns the path as it stands in the URI of a request.
    pub fn to_uri_path(self) -> (path: String)
        ensures
            path@ == self.uri_path(),
    {
        let mut path = "/".to_owned();
        path.append(NAME);
        path.append("/");
        path.append(self.method_name());
        proof {
            reveal_strlit("/");
            assert("/"@ =~= seq!['/']);
            assert(path@ =~= self.uri_path());
        }
        path
    }
}

/// The name of the service.
pub const NAME: &'static str = "materializer.Materializer";

/// No two methods are called by the same path, with or without the leading
/// slash of a URI.
pub proof fn lemma_paths_distinct(a: Method, b: Method)
    requires
        a != b,
    ensures
        a.name() != b.name(),
        a.path() != b.path(),
        a.uri_path() != b.uri_path(),
{
    reveal_strlit("ValidateOptions");
    reveal_strlit("UpsertView");
    assert(a.name().len() != b.name().len());
    assert(a.path().len() == service_name().len() + 1 + a.name().len());
    assert(b.path().len() == service_name().len() + 1 + b.name().len());
    assert(a.uri_path().len() == 1 + a.path().len());
    assert(b.uri_path().len() == 1 + b.path().len());
}

} // verus!
