//! The transport layer: the socket capability, the listener and the stream
//! built on it, and the parsing of literal IPv4 addresses. The capability is
//! polymorphic so a deterministic in-memory socket can stand in for an OS
//! socket in tests.

use vstd::prelude::*;

use crate::common::NetError;
use crate::text::{dec_ok, digits_val, parse_u16, parse_u8, split_once_at, split_sub};

verus! {

/// A socket address; only IPv4 addresses carry data, other families are
/// only ever skipped.
#[derive(Debug, Clone, Copy, PartialEq, Eq, Structural)]
pub enum SockAddr {
    V4 { a: u8, b: u8, c: u8, d: u8, port: u16 },
    V6,
}

/// The capability set of one end of a connection or listening endpoint.
/// All operations other than `new` act on an already-valid socket; `read`
/// and `write` are single unbuffered operations that may transfer fewer
/// bytes than offered.
pub trait SocketLike: Sized {
    fn new() -> Result<Self, NetError>;

    fn accept(&self) -> Result<Self, NetError>;

    fn get_peer_name(&self) -> Result<SockAddr, NetError>;

    fn get_sock_name(&self) -> Result<SockAddr, NetError>;

    fn bind(&mut self, addr: SockAddr) -> Result<(), NetError>;

    fn listen(&self, backlog: usize) -> Result<(), NetError>;

    fn close(&self) -> Result<(), NetError>;

    /// Reads into the front of `buf` without changing its length, returning
    /// how many bytes were placed.
    fn read(&mut self, buf: &mut Vec<u8>) -> (r: Result<usize, NetError>)
        ensures
            final(buf)@.len() == old(buf)@.len(),
            (r matches Ok(n) ==> n <= old(buf)@.len()),
    ;

    /// Writes a prefix of `data`, returning how many bytes were taken.
    fn write(&mut self, data: &Vec<u8>) -> (r: Result<usize, NetError>)
        ensures
            (r matches Ok(n) ==> n <= data@.len()),
    ;
}

/// A literal `a.b.c.d:port` address, or nothing if the text is not one.
pub open spec fn addr_parse_spec(s: Seq<char>) -> Option<SockAddr> {
    match split_sub(s, ":"@) {
        None => None,
        Some((ip, ps)) => match split_sub(ip, "."@) {
            None => None,
            Some((sa, r1)) => match split_sub(r1, "."@) {
                None => None,
                Some((sb, r2)) => match split_sub(r2, "."@) {
                    None => None,
                    Some((sc, sd)) => if dec_ok(sa, 255) && dec_ok(sb, 255) && dec_ok(sc, 255)
                        && dec_ok(sd, 255) && dec_ok(ps, 65535) {
                        Some(
                            SockAddr::V4 {
                                a: digits_val(sa) as u8,
                                b: digits_val(sb) as u8,
                                c: digits_val(sc) as u8,
                                d: digits_val(sd) as u8,
                                port: digits_val(ps) as u16,
                            },
                        )
                    } else {
                        None
                    },
                },
            },
        },
    }
}

/// Parses a literal IPv4 address with port, `a.b.c.d:port`.
pub fn parse_sock_addr(s: &str) -> (r: Option<SockAddr>)
    ensures
        r == addr_parse_spec(s@),
{
    let (ip, ps) = match split_once_at(s, ":") {
        Some(p) => p,
        None => {
            return None;
        },
    };
    let (sa, r1) = match split_once_at(ip, ".") {
        Some(p) => p,
        None => {
            return None;
        },
    };
    let (sb, r2) = match split_once_at(r1, ".") {
        Some(p) => p,
        None => {
            return None;
        },
    };
    let (sc, sd) = match split_once_at(r2, ".") {
        Some(p) => p,
        None => {
            return None;
        },
    };
    let a = match parse_u8(sa) {
        Some(v) => v,
        None => {
            return None;
        },
    };
    let b = match parse_u8(sb) {
        Some(v) => v,
        None => {
            return None;
        },
    };
    let c = match parse_u8(sc) {
        Some(v) => v,
        None => {
            return None;
        },
    };
    let d = match parse_u8(sd) {
        Some(v) => v,
        None => {
            return None;
        },
    };
    let port = match parse_u16(ps) {
        Some(v) => v,
        None => {
            return None;
        },
    };
    Some(SockAddr::V4 { a, b, c, d, port })
}

/// Copies the bytes of `src` from `from` on into a fresh vector.
pub fn copy_bytes_from(src: &Vec<u8>, from: usize) -> (r: Vec<u8>)
    requires
        from <= src@.len(),
    ensures
        r@ == src@.subrange(from as int, src@.len() as int),
{
    let n: usize = src.len();
    let mut out: Vec<u8> = Vec::new();
    let mut i: usize = from;
    while i < n
        invariant
            n == src@.len(),
            from <= i <= n,
            out@ == src@.subrange(from as int, i as int),
        decreases n - i,
    {
        out.push(src[i]);
        proof {
            assert(src@.subrange(from as int, i + 1) =~= src@.subrange(from as int, i as int).push(
                src@[i as int],
            ));
        }
        i += 1;
    }
    out
}

/// Copies a whole byte vector.
pub fn copy_bytes(src: &Vec<u8>) -> (r: Vec<u8>)
    ensures
        r@ == src@,
{
    let r = copy_bytes_from(src, 0);
    proof {
        assert(src@.subrange(0, src@.len() as int) =~= src@);
    }
    r
}

/// A connected byte stream over one socket; no internal buffering.
pub struct TcpStream<T: SocketLike> {
    pub inner: T,
}

impl<T: SocketLike> TcpStream<T> {
    /// One unbuffered read; may place fewer bytes than the buffer holds.
    pub fn read(&mut self, buf: &mut Vec<u8>) -> (r: Result<usize, NetError>)
        ensures
            final(buf)@.len() == old(buf)@.len(),
            (r matches Ok(n) ==> n <= old(buf)@.len()),
    {
        self.inner.read(buf)
    }

    /// One unbuffered write; may take fewer bytes than offered.
    pub fn write(&mut self, data: &Vec<u8>) -> (r: Result<usize, NetError>)
        ensures
            (r matches Ok(n) ==> n <= data@.len()),
    {
        self.inner.write(data)
    }

    /// Writes all of `data`, looping until the socket has taken every byte;
    /// a socket that takes nothing fails the write.
    pub fn write_all(&mut self, data: &Vec<u8>) -> Result<(), NetError> {
        let mut remaining = copy_bytes(data);
        loop
            decreases remaining@.len(),
        {
            if remaining.len() == 0 {
                return Ok(());
            }
            let n = match self.inner.write(&remaining) {
                Ok(n) => n,
                Err(e) => {
                    return Err(e);
                },
            };
            if n == 0 {
                return Err(NetError::Transport);
            }
            remaining = copy_bytes_from(&remaining, n);
        }
    }

    pub fn flush(&self) -> (r: Result<(), NetError>)
        ensures
            r is Ok,
    {
        Ok(())
    }

    pub fn close(&self) -> Result<(), NetError> {
        self.inner.close()
    }
}

/// A socket bound to an address and listening for peers.
pub struct TcpListener<T: SocketLike> {
    pub inner: T,
}

impl<T: SocketLike> TcpListener<T> {
    /// Binds to the first IPv4 candidate, with address reuse and a backlog
    /// of 128; with no IPv4 candidate the bind fails.
    pub fn bind_resolved(addrs: &Vec<SockAddr>) -> (r: Result<TcpListener<T>, NetError>)
        ensures
            (forall|j: int| 0 <= j < addrs@.len() ==> !(addrs@[j] is V4)) ==> r is Err,
    {
        let n: usize = addrs.len();
        let mut i: usize = 0;
        while i < n
            invariant
                n == addrs@.len(),
                i <= n,
                forall|j: int| 0 <= j < i ==> !(addrs@[j] is V4),
            decreases n - i,
        {
            let addr = addrs[i];
            if matches!(addr, SockAddr::V4 { .. }) {
                let mut sock = match T::new() {
                    Ok(s) => s,
                    Err(e) => {
                        return Err(e);
                    },
                };
                match sock.bind(addr) {
                    Ok(_) => (),
                    Err(e) => {
                        return Err(e);
                    },
                }
                match sock.listen(128) {
                    Ok(_) => (),
                    Err(e) => {
                        return Err(e);
                    },
                }
                return Ok(TcpListener { inner: sock });
            }
            i += 1;
        }
        Err(NetError::Transport)
    }

    /// Binds to a literal `a.b.c.d:port` address; text that is not one
    /// fails.
    pub fn bind(addr: &str) -> (r: Result<TcpListener<T>, NetError>)
        ensures
            addr_parse_spec(addr@) is None ==> r is Err,
    {
        let parsed = match parse_sock_addr(addr) {
            Some(a) => a,
            None => {
                return Err(NetError::Transport);
            },
        };
        let mut candidates: Vec<SockAddr> = Vec::new();
        candidates.push(parsed);
        Self::bind_resolved(&candidates)
    }

    /// Blocks until a peer connects; hands back the connection and its peer
    /// address.
    pub fn accept(&self) -> Result<(TcpStream<T>, SockAddr), NetError> {
        let new_socket = match self.inner.accept() {
            Ok(s) => s,
            Err(e) => {
                return Err(e);
            },
        };
        let socket_addr = match new_socket.get_peer_name() {
            Ok(a) => a,
            Err(e) => {
                return Err(e);
            },
        };
        Ok((TcpStream { inner: new_socket }, socket_addr))
    }

    /// The infinite connection sequence: each pull performs one blocking
    /// accept.
    pub fn incoming(&self) -> Incoming<'_, T> {
        Incoming { listener: self }
    }

    pub fn local_addr(&self) -> Result<SockAddr, NetError> {
        self.inner.get_sock_name()
    }
}

/// A lazy, non-terminating producer of accepted connections; an accept
/// error is yielded in-band and never ends the sequence.
pub struct Incoming<'a, T: SocketLike> {
    pub listener: &'a TcpListener<T>,
}

impl<'a, T: SocketLike> Incoming<'a, T> {
    /// Never signals completion.
    pub fn next(&mut self) -> (r: Option<Result<TcpStream<T>, NetError>>)
        ensures
            r is Some,
    {
        match self.listener.accept() {
            Ok((stream, _addr)) => Some(Ok(stream)),
            Err(e) => Some(Err(e)),
        }
    }
}

} // verus!
