//! Protocol versions and schemes a listening surface can serve.

use vstd::prelude::*;

verus! {

/// A version of the HTTP protocol.
#[derive(Clone, Copy, Debug, PartialEq, Eq, Hash, Structural)]
pub enum Version {
    Http09,
    Http10,
    Http11,
    Http2,
    Http3,
}

/// Whether connections are served in the clear or secured.
#[derive(Clone, Copy, Debug, PartialEq, Eq, Hash, Structural)]
pub enum Scheme {
    Http,
    Https,
}

} // verus!
