use scratch::common::NetError;
use scratch::mem::MemSocket;
use scratch::tcp::{parse_sock_addr, SockAddr, SocketLike, TcpListener, TcpStream};

#[test]
fn test_binds_tcp_listener_successfully() {
    let listener = TcpListener::<MemSocket>::bind("127.0.0.1:1000");
    assert!(listener.is_ok());
}

#[test]
fn test_accepts_incoming_connections_successfully() {
    let listener = TcpListener::<MemSocket>::bind("127.0.0.1:1000").unwrap();
    let result = listener.accept();
    assert!(result.is_ok());
    let (_, new_socket_addr) = result.unwrap();
    assert_eq!(
        new_socket_addr,
        SockAddr::V4 { a: 127, b: 0, c: 0, d: 1, port: 4000 }
    );
}

#[test]
fn parse_sock_addr_literal() {
    assert_eq!(
        parse_sock_addr("127.0.0.1:8000"),
        Some(SockAddr::V4 { a: 127, b: 0, c: 0, d: 1, port: 8000 })
    );
    assert_eq!(
        parse_sock_addr("0.0.0.0:0"),
        Some(SockAddr::V4 { a: 0, b: 0, c: 0, d: 0, port: 0 })
    );
    assert_eq!(parse_sock_addr("localhost:80"), None);
    assert_eq!(parse_sock_addr("1.2.3:80"), None);
    assert_eq!(parse_sock_addr("1.2.3.4.5:80"), None);
    assert_eq!(parse_sock_addr("256.0.0.1:80"), None);
    assert_eq!(parse_sock_addr("1.2.3.4:65536"), None);
    assert_eq!(parse_sock_addr("1.2.3.4"), None);
}

#[test]
fn bind_rejects_bad_address() {
    assert!(TcpListener::<MemSocket>::bind("not an address").is_err());
}

#[test]
fn bind_skips_non_ipv4() {
    let mut only_v6: Vec<SockAddr> = Vec::new();
    only_v6.push(SockAddr::V6);
    let got = TcpListener::<MemSocket>::bind_resolved(&only_v6);
    assert!(matches!(got, Err(NetError::Transport)));

    let mut mixed: Vec<SockAddr> = Vec::new();
    mixed.push(SockAddr::V6);
    mixed.push(SockAddr::V4 { a: 127, b: 0, c: 0, d: 1, port: 80 });
    assert!(TcpListener::<MemSocket>::bind_resolved(&mixed).is_ok());
}

#[test]
fn incoming_never_ends() {
    let listener = TcpListener::<MemSocket>::bind("127.0.0.1:1000").unwrap();
    let mut incoming = listener.incoming();
    assert!(incoming.next().is_some());
    assert!(incoming.next().is_some());
    assert!(incoming.next().is_some());
}

#[test]
fn mem_socket_read_and_write() {
    let mut sock = MemSocket::with_input(b"abcdef".to_vec());
    let mut buf = vec![0u8; 4];
    assert_eq!(sock.read(&mut buf), Ok(4));
    assert_eq!(buf, b"abcd".to_vec());
    assert_eq!(sock.read(&mut buf), Ok(2));
    assert_eq!(&buf[..2], b"ef");
    assert_eq!(sock.read(&mut buf), Ok(0));
    assert_eq!(sock.write(&b"xy".to_vec()), Ok(2));
    assert_eq!(sock.write(&b"z".to_vec()), Ok(1));
    assert_eq!(sock.written(), &b"xyz".to_vec());
}

#[test]
fn stream_write_all() {
    let sock = MemSocket::with_input(Vec::new());
    let mut stream = TcpStream { inner: sock };
    assert!(stream.write_all(&b"hello".to_vec()).is_ok());
    assert!(stream.flush().is_ok());
    assert_eq!(stream.inner.written(), &b"hello".to_vec());
}
