//! The hook that may look at a call before it goes on.

use crate::method::Method;
use crate::status::Status;
use vstd::prelude::*;

verus! {

/// What travels with a call beside its message: pairs of a name and a
/// value, in their order.
#[derive(Debug, PartialEq, Eq)]
pub struct Metadata {
    pub entries: Vec<(String, String)>,
}

impl Metadata {
    /// Makes metadata without entries.
    pub fn new() -> (metadata: Metadata)
        ensures
            metadata.entries@.len() == 0,
    {
        Metadata { entries: Vec::new() }
    }
}

/// A hook that is handed each call before it goes on: on the client before
/// the request is sent, on the server before the handler runs. It sees the
/// method and the metadata, never the message, and so cannot alter it. It
/// may hand back other metadata, or refuse the call with a status.
pub trait Interceptor {
    fn intercept(&self, method: Method, metadata: Metadata) -> Result<Metadata, Status>;
}

/// The hook of a handle that was made without one: it lets every call pass
/// as it is.
#[derive(Clone, Copy, Debug)]
pub struct Passthrough {}

impl Interceptor for Passthrough {
    fn intercept(&self, method: Method, metadata: Metadata) -> (verdict: Result<Metadata, Status>)
        ensures
            verdict == Ok::<Metadata, Status>(metadata),
    {
        Ok(metadata)
    }
}

} // verus!
