//! What an acceptor listens on, and what it hands out.

use vstd::prelude::*;
use crate::addr::SocketAddr;
use crate::protocol::{Scheme, Version};

verus! {

/// The description of one bound listening surface.
#[derive(Debug, PartialEq, Eq)]
pub struct Holding {
    /// The address that was actually bound.
    pub local_addr: SocketAddr,
    /// The protocol versions served there, in order.
    pub http_versions: Vec<Version>,
    /// The scheme served there.
    pub http_scheme: Scheme,
}

/// A [`Holding`] with its versions as a sequence.
pub struct HoldingView {
    pub local_addr: SocketAddr,
    pub http_versions: Seq<Version>,
    pub http_scheme: Scheme,
}

impl View for Holding {
    type V = HoldingView;

    open spec fn view(&self) -> HoldingView {
        HoldingView {
            local_addr: self.local_addr,
            http_versions: self.http_versions@,
            http_scheme: self.http_scheme,
        }
    }
}

impl Clone for Holding {
    fn clone(&self) -> (copy: Self)
        ensures
            copy@ == self@,
    {
        let http_versions = self.http_versions.clone();
        assert(http_versions@ =~= self.http_versions@);
        Holding { local_addr: self.local_addr, http_versions, http_scheme: self.http_scheme }
    }
}

impl HoldingView {
    /// Whether the holding names no protocol version twice.
    pub open spec fn well_formed(self) -> bool {
        self.http_versions.no_duplicates()
    }

    /// The holding of a plain listener bound to `local_addr`: HTTP/1.1 in the clear.
    pub open spec fn plain(local_addr: SocketAddr) -> HoldingView {
        HoldingView {
            local_addr,
            http_versions: seq![Version::Http11],
            http_scheme: Scheme::Http,
        }
    }
}

/// The holding of a plain listener is well formed, wherever it is bound.
pub proof fn lemma_plain_holding_is_well_formed(local_addr: SocketAddr)
    ensures
        HoldingView::plain(local_addr).well_formed(),
{
}

/// One accepted connection with what is known of it.
#[derive(Debug, PartialEq, Eq)]
pub struct Accepted<C> {
    /// The connection itself.
    pub conn: C,
    /// The address it was accepted on.
    pub local_addr: SocketAddr,
    /// The address of the peer.
    pub remote_addr: SocketAddr,
    /// The protocol version it speaks.
    pub http_version: Version,
    /// The scheme it is served under.
    pub http_scheme: Scheme,
}

impl<C> Accepted<C> {
    /// A connection `conn` from `remote_addr`, accepted on the plain listener
    /// at `local_addr`: HTTP/1.1 in the clear, with nothing to negotiate.
    pub open spec fn plain(conn: C, local_addr: SocketAddr, remote_addr: SocketAddr) -> Accepted<C> {
        Accepted {
            conn,
            local_addr,
            remote_addr,
            http_version: Version::Http11,
            http_scheme: Scheme::Http,
        }
    }
}

} // verus!
