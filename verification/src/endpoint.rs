//! Endpoint descriptors: values that know the URL of a list endpoint.

use vstd::prelude::*;
use vstd::string::*;

verus! {

/// A value that knows the URL of a list endpoint. A cursor page carries one to
/// know where to ask for the pages around it, since the page itself holds
/// tokens and no link.
pub trait Endpoint {
    /// The URL that this descriptor resolves to. It is the same for the whole
    /// life of the descriptor.
    spec fn url(&self) -> Seq<char>;

    /// Resolves the URL.
    fn endpoint_url(&self) -> (url: &str)
        ensures
            url@ == self.url(),
    ;
}

/// A string describes the endpoint whose URL it holds.
impl Endpoint for String {
    open spec fn url(&self) -> Seq<char> {
        self@
    }

    fn endpoint_url(&self) -> (url: &str) {
        self.as_str()
    }
}

} // verus!
