//! A deterministic in-memory socket: the test double for the socket
//! capability. It serves a scripted byte sequence to readers and records
//! every byte written, so a whole connection can be exercised and observed
//! without an operating system.

use vstd::prelude::*;

use crate::common::NetError;
use crate::tcp::{copy_bytes, SockAddr, SocketLike};

verus! {

/// The address an in-memory socket is created at.
pub open spec fn mem_created_addr() -> SockAddr {
    SockAddr::V4 { a: 127, b: 0, c: 0, d: 1, port: 3000 }
}

/// The peer address every accepted in-memory connection reports.
pub open spec fn mem_accepted_addr() -> SockAddr {
    SockAddr::V4 { a: 127, b: 0, c: 0, d: 1, port: 4000 }
}

/// An in-memory socket: `input` is what the peer will send, `pos` how much
/// of it has been read, and `output` every byte written so far.
#[derive(Debug)]
pub struct MemSocket {
    pub input: Vec<u8>,
    pub pos: usize,
    pub output: Vec<u8>,
    pub addr: SockAddr,
}

impl MemSocket {
    /// A socket scripted to serve `input` to its reader.
    pub fn with_input(input: Vec<u8>) -> (r: MemSocket)
        ensures
            r.input@ == input@,
            r.pos == 0,
            r.output@ == Seq::<u8>::empty(),
            r.addr == mem_created_addr(),
    {
        let r = MemSocket { input, pos: 0, output: Vec::new(), addr: mem_created_addr_exec() };
        proof {
            assert(r.output@ =~= Seq::<u8>::empty());
        }
        r
    }

    /// Every byte written to this socket, in order.
    pub fn written(&self) -> (r: &Vec<u8>)
        ensures
            r == self.output,
    {
        &self.output
    }

    /// How much of the scripted input is still unread.
    pub open spec fn remaining(self) -> int {
        if self.pos <= self.input@.len() {
            self.input@.len() - self.pos
        } else {
            0
        }
    }

    /// Serves the next scripted bytes into the front of `buf`: as many as
    /// the buffer holds or as remain, whichever is fewer.
    pub fn read_scripted(&mut self, buf: &mut Vec<u8>) -> (r: usize)
        ensures
            r == if old(buf)@.len() <= old(self).remaining() {
                old(buf)@.len() as int
            } else {
                old(self).remaining()
            },
            final(self).pos == old(self).pos + r,
            final(self).input == old(self).input,
            final(self).output == old(self).output,
            final(self).addr == old(self).addr,
            final(buf)@.len() == old(buf)@.len(),
            forall|k: int| 0 <= k < r ==> final(buf)@[k] == old(self).input@[old(self).pos + k],
            forall|k: int| r <= k < old(buf)@.len() ==> final(buf)@[k] == old(buf)@[k],
    {
        let avail: usize = if self.pos <= self.input.len() {
            self.input.len() - self.pos
        } else {
            0
        };
        let n: usize = if buf.len() <= avail {
            buf.len()
        } else {
            avail
        };
        let mut i: usize = 0;
        while i < n
            invariant
                n <= buf@.len(),
                n > 0 ==> self.pos + n <= self.input@.len(),
                self.input@.len() <= usize::MAX,
                i <= n,
                buf@.len() == old(buf)@.len(),
                self == old(self),
                forall|k: int| 0 <= k < i ==> buf@[k] == self.input@[self.pos + k],
                forall|k: int| i <= k < buf@.len() ==> buf@[k] == old(buf)@[k],
            decreases n - i,
        {
            assert(self.pos + i < self.input@.len());
            let byte = self.input[self.pos + i];
            buf.set(i, byte);
            i += 1;
        }
        self.pos = self.pos + n;
        n
    }

    /// Records every byte of `data` at the end of the output.
    pub fn write_recorded(&mut self, data: &Vec<u8>) -> (r: usize)
        ensures
            r == data@.len(),
            final(self).output@ == old(self).output@ + data@,
            final(self).input == old(self).input,
            final(self).pos == old(self).pos,
            final(self).addr == old(self).addr,
    {
        let n: usize = data.len();
        let mut i: usize = 0;
        while i < n
            invariant
                n == data@.len(),
                i <= n,
                self.input == old(self).input,
                self.pos == old(self).pos,
                self.addr == old(self).addr,
                self.output@ == old(self).output@ + data@.take(i as int),
            decreases n - i,
        {
            self.output.push(data[i]);
            proof {
                assert(data@.take(i + 1) =~= data@.take(i as int).push(data@[i as int]));
                assert(self.output@ =~= old(self).output@ + data@.take(i + 1));
            }
            i += 1;
        }
        proof {
            assert(data@.take(n as int) =~= data@);
        }
        n
    }
}

fn mem_created_addr_exec() -> (r: SockAddr)
    ensures
        r == mem_created_addr(),
{
    SockAddr::V4 { a: 127, b: 0, c: 0, d: 1, port: 3000 }
}

impl SocketLike for MemSocket {
    fn new() -> Result<Self, NetError> {
        Ok(MemSocket::with_input(Vec::new()))
    }

    /// An accepted connection carries a fresh copy of the listener's
    /// scripted input and reports the fixed accepted-peer address.
    fn accept(&self) -> Result<Self, NetError> {
        Ok(
            MemSocket {
                input: copy_bytes(&self.input),
                pos: 0,
                output: Vec::new(),
                addr: SockAddr::V4 { a: 127, b: 0, c: 0, d: 1, port: 4000 },
            },
        )
    }

    fn get_peer_name(&self) -> Result<SockAddr, NetError> {
        Ok(self.addr)
    }

    fn get_sock_name(&self) -> Result<SockAddr, NetError> {
        Ok(self.addr)
    }

    fn bind(&mut self, addr: SockAddr) -> Result<(), NetError> {
        self.addr = addr;
        Ok(())
    }

    fn listen(&self, _backlog: usize) -> Result<(), NetError> {
        Ok(())
    }

    fn close(&self) -> Result<(), NetError> {
        Ok(())
    }

    fn read(&mut self, buf: &mut Vec<u8>) -> (r: Result<usize, NetError>) {
        Ok(self.read_scripted(buf))
    }

    fn write(&mut self, data: &Vec<u8>) -> (r: Result<usize, NetError>) {
        Ok(self.write_recorded(data))
    }
}

} // verus!
