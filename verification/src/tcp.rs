//! The plain TCP listener and the acceptor it is bound into.
//!
//! Binding and accepting are the transport's work. The listener and the
//! acceptor take what the transport reported and give the caller its answer.

use vstd::prelude::*;
use crate::addr::SocketAddr;
use crate::error::{ErrorKind, IoError, IoErrorView};
use crate::holding::{lemma_plain_holding_is_well_formed, Accepted, Holding, HoldingView};
use crate::protocol::{Scheme, Version};

verus! {

/// A TCP listener that has not been bound yet: it only remembers where to bind.
pub struct TcpListener<T> {
    local_addr: T,
}

impl<T> View for TcpListener<T> {
    type V = T;

    /// The address the listener was made with, in whatever form it was given.
    closed spec fn view(&self) -> T {
        self.local_addr
    }
}

/// The acceptor of a bound plain TCP listener.
///
/// It owns the listening resource `L` and describes it by a single holding,
/// made once from the address that was actually bound.
pub struct TcpAcceptor<L> {
    inner: L,
    holdings: Vec<Holding>,
}

/// A [`TcpAcceptor`] as a value: the listening resource and the holdings.
pub struct TcpAcceptorView<L> {
    pub inner: L,
    pub holdings: Seq<HoldingView>,
}

impl<L> TcpAcceptorView<L> {
    /// The acceptor for the resource `inner` bound to `local_addr`.
    pub open spec fn plain(inner: L, local_addr: SocketAddr) -> TcpAcceptorView<L> {
        TcpAcceptorView { inner, holdings: seq![HoldingView::plain(local_addr)] }
    }
}

impl<L> View for TcpAcceptor<L> {
    type V = TcpAcceptorView<L>;

    closed spec fn view(&self) -> TcpAcceptorView<L> {
        TcpAcceptorView { inner: self.inner, holdings: self.holdings@.map_values(|h: Holding| h@) }
    }
}

/// What a bind comes to.
///
/// `bound` is what the transport reported: the listening resource together
/// with the local address resolved for it, or the error where it failed to
/// give either. The answer is an acceptor for just that resource and address,
/// or that same error.
pub open spec fn bind_outcome<L, E>(
    bound: Result<(L, Result<SocketAddr, E>), E>,
    acceptor: Result<TcpAcceptor<L>, E>,
) -> bool {
    match bound {
        Ok((inner, Ok(addr))) => acceptor matches Ok(a) && a@ == TcpAcceptorView::plain(inner, addr),
        Ok((_, Err(e))) => acceptor matches Err(err) && err == e,
        Err(e) => acceptor matches Err(err) && err == e,
    }
}

/// What an acceptor bound to `local_addr` answers when the transport's accept
/// yielded `incoming`: the connection stamped as a plain one, or the error.
pub open spec fn accept_outcome<C, E>(local_addr: SocketAddr, incoming: Result<(C, SocketAddr), E>)
    -> Result<Accepted<C>, E> {
    match incoming {
        Ok((conn, remote_addr)) => Ok(Accepted::plain(conn, local_addr, remote_addr)),
        Err(e) => Err(e),
    }
}

/// One accept as a step: the acceptor afterwards, and the answer.
pub open spec fn accept_step<L, C, E>(acceptor: TcpAcceptor<L>, incoming: Result<(C, SocketAddr), E>)
    -> (TcpAcceptor<L>, Result<Accepted<C>, E>) {
    (acceptor, accept_outcome(acceptor.local_addr(), incoming))
}

impl<T> TcpListener<T> {
    /// Makes a listener for `local_addr`. Nothing is bound yet.
    pub fn new(local_addr: T) -> (listener: Self)
        ensures
            listener@ == local_addr,
    {
        TcpListener { local_addr }
    }

    /// The address to bind to.
    pub fn local_addr(&self) -> (addr: &T)
        ensures
            *addr == self@,
    {
        &self.local_addr
    }

    /// Gives up the address, for the transport to bind to.
    ///
    /// This uses the listener up: a listener is bound once.
    pub fn into_local_addr(self) -> (addr: T)
        ensures
            addr == self@,
    {
        self.local_addr
    }
}

/// Gives the caller the acceptor for what the transport bound, or the
/// transport's error as it is.
pub fn try_bind<L, E>(bound: Result<(L, Result<SocketAddr, E>), E>) -> (acceptor: Result<
    TcpAcceptor<L>,
    E,
>)
    ensures
        bind_outcome(bound, acceptor),
{
    match bound {
        Ok((inner, local_addr)) => TcpAcceptor::try_from(inner, local_addr),
        Err(e) => Err(e),
    }
}

/// Like [`try_bind`], for a bind that succeeded.
pub fn bind<L, E>(bound: Result<(L, Result<SocketAddr, E>), E>) -> (acceptor: TcpAcceptor<L>)
    requires
        bound matches Ok((_, Ok(_))),
    ensures
        bind_outcome(bound, Ok::<TcpAcceptor<L>, E>(acceptor)),
{
    match try_bind(bound) {
        Ok(acceptor) => acceptor,
        Err(_) => unreached(),
    }
}

impl<L> TcpAcceptor<L> {
    #[verifier::type_invariant]
    spec fn well_formed(self) -> bool {
        &&& self.holdings@.len() == 1
        &&& self.holdings@[0]@ == HoldingView::plain(self.holdings@[0].local_addr)
    }

    /// The address that was bound.
    pub open spec fn local_addr(self) -> SocketAddr {
        self@.holdings[0].local_addr
    }

    /// The acceptor for the listening resource `inner`, given the local
    /// address the transport resolved for it; the transport's error if it
    /// could not tell the address.
    pub fn try_from<E>(inner: L, local_addr: Result<SocketAddr, E>) -> (acceptor: Result<Self, E>)
        ensures
            bind_outcome(Ok::<(L, Result<SocketAddr, E>), E>((inner, local_addr)), acceptor),
    {
        match local_addr {
            Ok(local_addr) => {
                let holding = Holding {
                    local_addr,
                    http_versions: vec![Version::Http11],
                    http_scheme: Scheme::Http,
                };
                assert(holding@ == HoldingView::plain(local_addr)) by {
                    assert(holding.http_versions@ =~= seq![Version::Http11]);
                }
                let acceptor = TcpAcceptor { inner, holdings: vec![holding] };
                assert(acceptor@.holdings =~= seq![HoldingView::plain(local_addr)]);
                Ok(acceptor)
            },
            Err(e) => Err(e),
        }
    }

    /// What the acceptor listens on: one holding, for HTTP/1.1 in the clear
    /// at the address that was bound.
    pub fn holdings(&self) -> (holdings: &[Holding])
        ensures
            holdings@.len() == self@.holdings.len(),
            forall|i: int| 0 <= i < holdings@.len() ==> (#[trigger] holdings@[i])@ == self@.holdings[i],
            self@.holdings == seq![HoldingView::plain(self.local_addr())],
    {
        proof {
            use_type_invariant(self);
            assert(self@.holdings =~= seq![HoldingView::plain(self.local_addr())]);
        }
        self.holdings.as_slice()
    }

    /// The listening resource, for the transport to accept on.
    pub fn listener(&self) -> (inner: &L)
        ensures
            *inner == self@.inner,
    {
        &self.inner
    }

    /// Gives the caller what the transport's accept yielded: the connection
    /// from `incoming`, stamped with the local address, the peer's address,
    /// HTTP/1.1 and the plain scheme; or the transport's error as it is.
    ///
    /// The acceptor is the same afterwards, whatever `incoming` was.
    pub fn accept<C, E>(&mut self, incoming: Result<(C, SocketAddr), E>) -> (accepted: Result<
        Accepted<C>,
        E,
    >)
        ensures
            (*final(self), accepted) == accept_step(*old(self), incoming),
    {
        proof {
            use_type_invariant(&*self);
        }
        match incoming {
            Ok((conn, remote_addr)) => Ok(
                Accepted {
                    conn,
                    local_addr: self.holdings[0].local_addr,
                    remote_addr,
                    http_version: Version::Http11,
                    http_scheme: Scheme::Http,
                },
            ),
            Err(e) => Err(e),
        }
    }
}

/// Reports how serving a connection ended, given what the exchange with the
/// handler came to: a failure, told by its message, becomes an error of kind
/// [`ErrorKind::Other`] with that message.
pub fn serve(exchange: Result<(), String>) -> (served: Result<(), IoError>)
    ensures
        match exchange {
            Ok(()) => served is Ok,
            Err(message) => served matches Err(error) && error@ == (IoErrorView {
                kind: ErrorKind::Other,
                message: message@,
            }),
        },
{
    match exchange {
        Ok(()) => Ok(()),
        Err(message) => Err(IoError::new(ErrorKind::Other, message)),
    }
}

/// Every holding of an acceptor that a bind yielded names the address that
/// the transport resolved, whatever address the listener was made with; the
/// acceptor has exactly one holding, and it is well formed.
pub proof fn lemma_holdings_name_the_bound_address<L, E>(
    inner: L,
    addr: SocketAddr,
    acceptor: TcpAcceptor<L>,
)
    requires
        bind_outcome(Ok::<(L, Result<SocketAddr, E>), E>((inner, Ok(addr))), Ok::<TcpAcceptor<L>, E>(acceptor)),
    ensures
        acceptor@.holdings.len() == 1,
        forall|i: int|
            0 <= i < acceptor@.holdings.len() ==> {
                &&& (#[trigger] acceptor@.holdings[i]).local_addr == addr
                &&& acceptor@.holdings[i].well_formed()
            },
        acceptor.local_addr() == addr,
{
    lemma_plain_holding_is_well_formed(addr);
}

/// An accept that failed does not stand in the way of the next one: the
/// acceptor is as it was, and a connection that the transport yields
/// afterwards is handed out as if nothing had failed.
pub proof fn lemma_failed_accept_leaves_acceptor_usable<L, C, E>(
    acceptor: TcpAcceptor<L>,
    error: E,
    conn: C,
    remote_addr: SocketAddr,
)
    ensures
        ({
            let (after, first) = accept_step::<L, C, E>(acceptor, Err(error));
            let (last, second) = accept_step::<L, C, E>(after, Ok((conn, remote_addr)));
            &&& first == Err::<Accepted<C>, E>(error)
            &&& after == acceptor
            &&& last == acceptor
            &&& second == Ok::<Accepted<C>, E>(Accepted::plain(conn, acceptor.local_addr(), remote_addr))
        }),
{
}

} // verus!
