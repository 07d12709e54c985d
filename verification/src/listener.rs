//! Where the server listens: a TCP address or the path of a Unix-domain
//! socket.

use crate::text::starts_with_char;
use vstd::prelude::*;
use vstd::string::*;

verus! {

/// Marks a stream of bytes that can be read and written without blocking:
/// what a listener hands out for each connection, whatever its transport.
pub trait AsyncReadWrite {

}

/// Where a listener is bound.
#[derive(Debug, Clone, PartialEq, Eq)]
pub enum ListenAddr {
    /// A Unix-domain socket at this path.
    Unix(String),
    /// A TCP socket at this `host:port`.
    Tcp(String),
}

pub enum ListenAddrView {
    Unix(Seq<char>),
    Tcp(Seq<char>),
}

impl View for ListenAddr {
    type V = ListenAddrView;

    open spec fn view(&self) -> ListenAddrView {
        match self {
            ListenAddr::Unix(path) => ListenAddrView::Unix(path@),
            ListenAddr::Tcp(addr) => ListenAddrView::Tcp(addr@),
        }
    }
}

/// Whether an address names a path: it starts with `/` or `.`.
pub open spec fn is_path(addr: Seq<char>) -> bool {
    addr.len() > 0 && (addr[0] == '/' || addr[0] == '.')
}

/// The address that the loopback interface has in texts.
pub open spec fn loopback() -> Seq<char> {
    "127.0.0.1"@
}

/// Where to listen for an address as given: at the path, where it names
/// one; on the loopback interface, where it is a colon and a port; else at
/// the address as it stands.
pub open spec fn listen_addr(addr: Seq<char>) -> ListenAddrView {
    if is_path(addr) {
        ListenAddrView::Unix(addr)
    } else if addr.len() > 0 && addr[0] == ':' {
        ListenAddrView::Tcp(loopback() + addr)
    } else {
        ListenAddrView::Tcp(addr)
    }
}

impl ListenAddr {
    /// Where to listen for an address as given.
    pub fn parse(addr: &str) -> (target: ListenAddr)
        ensures
            target@ == listen_addr(addr@),
    {
        if starts_with_char(addr, '/') || starts_with_char(addr, '.') {
            ListenAddr::Unix(addr.to_owned())
        } else if starts_with_char(addr, ':') {
            ListenAddr::Tcp("127.0.0.1".to_owned().concat(addr))
        } else {
            ListenAddr::Tcp(addr.to_owned())
        }
    }

    /// Whether the listener is a Unix-domain socket, whose connections have
    /// no remote address.
    pub fn is_unix(&self) -> (unix: bool)
        ensures
            unix == (self@ is Unix),
    {
        match self {
            ListenAddr::Unix(_) => true,
            ListenAddr::Tcp(_) => false,
        }
    }
}

} // verus!
