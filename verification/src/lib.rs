//! Connection acceptance for a server, as decisions over plain values.
//!
//! A listener is bound once and becomes an acceptor; an acceptor describes
//! what it listens on and stamps every connection it hands out; a connection
//! whose handshake is deferred runs that handshake on first use. The transport
//! itself (sockets, futures, wakers) stays with the caller: every function
//! here takes what the transport reported and says what to do next.

pub mod addr;
pub mod error;
pub mod holding;
pub mod protocol;
pub mod tcp;
pub mod tls_conn_stream;

pub use addr::SocketAddr;
pub use error::{ErrorKind, IoError};
pub use holding::{Accepted, Holding};
pub use protocol::{Scheme, Version};
pub use tcp::{TcpAcceptor, TcpListener};
pub use tls_conn_stream::{Action, Event, Operation, TlsConnStream};
