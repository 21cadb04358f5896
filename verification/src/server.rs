//! The per-connection pipeline: one bounded read into a fixed buffer, a
//! lossy text conversion, the parse, the handler, and the write of the
//! serialized response. One request/response pair per connection; a failed
//! stage aborts the connection's work and nothing more.

use vstd::prelude::*;

use crate::common::NetError;
use crate::request::{request_parse_spec, Request};
use crate::response::{serialize_spec, Response};
use crate::router::Handler;
use crate::tcp::{SocketLike, TcpStream};

verus! {

/// The size of the one read a connection gets; whatever does not fit is
/// lost, and whatever trails the request in the buffer becomes body text.
pub const READ_BUFFER_SIZE: usize = 30000;

/// What `String::from_utf8_lossy` decodes a byte sequence to; a function of
/// the bytes alone.
pub uninterp spec fn lossy_decode(bytes: Seq<u8>) -> Seq<char>;

/// Relies on `String::from_utf8_lossy`: invalid sequences are replaced, not
/// rejected, and valid UTF-8 decodes to exactly its characters.
#[verifier::external_body]
fn utf8_lossy(bytes: &Vec<u8>) -> (r: String)
    ensures
        r@ == lossy_decode(bytes@),
        vstd::utf8::valid_utf8(bytes@) ==> r@ == vstd::utf8::decode_utf8(bytes@),
{
    String::from(String::from_utf8_lossy(bytes.as_slice()))
}

/// Reads once into the fixed buffer and parses the whole buffer as text.
/// A socket failure is a transport error; a grammar violation is a parse
/// error.
pub fn read_from_client<T: SocketLike>(stream: &mut TcpStream<T>) -> (r: Result<
    Request,
    NetError,
>)
    ensures
        (r matches Err(e) ==> (e == NetError::Transport || e == NetError::Parse)),
{
    let mut buffer: Vec<u8> = vec![0u8; READ_BUFFER_SIZE];
    match stream.read(&mut buffer) {
        Ok(_) => (),
        Err(_) => {
            return Err(NetError::Transport);
        },
    }
    let raw_request = utf8_lossy(&buffer);
    match Request::parse(raw_request.as_str()) {
        Ok(req) => Ok(req),
        Err(_) => Err(NetError::Parse),
    }
}

/// Writes the whole serialized response to the peer.
pub fn respond_to_client<T: SocketLike>(stream: &mut TcpStream<T>, response: Response) -> Result<
    (),
    NetError,
> {
    let bytes = response.as_bytes();
    stream.write_all(&bytes)
}

/// The pure part of a connection's work: parse the request text, let the
/// handler answer it, and serialize the answer. Fails with a parse error
/// exactly when the text violates the grammar; a handler failure is a
/// handler error; what comes back on success is the wire form of some
/// response.
pub fn serve_request<H: Handler>(raw: &str, handler: &H) -> (r: Result<Vec<u8>, NetError>)
    ensures
        (r == Err::<Vec<u8>, NetError>(NetError::Parse)) <==> request_parse_spec(raw@) is None,
        (r matches Ok(bytes) ==> (exists|resp: Response| bytes@ == serialize_spec(resp))),
        (r matches Err(e) ==> (e == NetError::Parse || e == NetError::Handler)),
{
    let request = match Request::parse(raw) {
        Ok(req) => req,
        Err(_) => {
            return Err(NetError::Parse);
        },
    };
    let response = match handler.handle(request) {
        Ok(resp) => resp,
        Err(_) => {
            return Err(NetError::Handler);
        },
    };
    let bytes = response.as_bytes();
    proof {
        assert(bytes@ == serialize_spec(response));
    }
    Ok(bytes)
}

/// One connection's whole job, strictly sequential: read, parse, handle,
/// serialize, write. Any stage's failure aborts the job; the failure kind
/// names the stage that failed.
pub fn serve_connection<T: SocketLike, H: Handler>(stream: &mut TcpStream<T>, handler: &H) -> (r:
    Result<(), NetError>)
    ensures
        (r matches Err(e) ==> (e == NetError::Transport || e == NetError::Parse || e
            == NetError::Handler)),
{
    let request = match read_from_client(stream) {
        Ok(req) => req,
        Err(e) => {
            return Err(e);
        },
    };
    let response = match handler.handle(request) {
        Ok(resp) => resp,
        Err(_) => {
            return Err(NetError::Handler);
        },
    };
    match respond_to_client(stream, response) {
        Ok(_) => Ok(()),
        Err(_) => Err(NetError::Transport),
    }
}

} // verus!
