use gopher::error::Error;
use gopher::gopher::network::{
    encode_completion, port_of_address, transfer_outcome, GopherSocket, Request, SocketTable,
};
use gopher::gopher::GopherServer;
use gopher::protocol::{AF_INET, IOURING_OP_READ, IOURING_OP_WRITE, SOCK_STREAM};
use smoltcp::iface::{Config, Interface};
use smoltcp::phy::{Loopback, Medium};
use smoltcp::socket::tcp;
use smoltcp::time::Instant;
use smoltcp::wire::{EthernetAddress, HardwareAddress, IpAddress, IpCidr};

struct Loop {
    device: Loopback,
    iface: Interface,
    now: i64,
}

fn loopback() -> Loop {
    let mut device = Loopback::new(Medium::Ethernet);
    let config = Config::new(HardwareAddress::Ethernet(EthernetAddress([2, 0, 0, 0, 0, 1])));
    let mut iface = Interface::new(config, &mut device, Instant::from_micros(0));
    iface.update_ip_addrs(|addrs| {
        addrs.push(IpCidr::new(IpAddress::v4(127, 0, 0, 1), 8)).unwrap();
    });
    Loop { device, iface, now: 0 }
}

fn poll(lo: &mut Loop, table: &mut SocketTable, rounds: usize) {
    for _ in 0..rounds {
        lo.now += 1;
        lo.iface.poll(Instant::from_millis(lo.now), &mut lo.device, table.sockets_mut());
    }
}

/// Two sockets of the table, connected over the loopback interface: the
/// first listens on `port`, the second has connected to it.
fn connected_pair(lo: &mut Loop, table: &mut SocketTable, port: u16) -> (usize, usize) {
    let a = table.socket(AF_INET, SOCK_STREAM, 0).unwrap();
    let b = table.socket(AF_INET, SOCK_STREAM, 0).unwrap();
    assert_eq!(table.bind(a, &port.to_le_bytes()), Ok(()));
    let handle = table.handle(b).unwrap();
    table
        .sockets_mut()
        .get_mut::<tcp::Socket>(handle)
        .connect(lo.iface.context(), (IpAddress::v4(127, 0, 0, 1), port), 49152)
        .unwrap();
    poll(lo, table, 16);
    (a, b)
}

#[test]
fn port_is_the_first_two_bytes_low_byte_first() {
    assert_eq!(port_of_address(&[0x58, 0x1B]), Some(7000));
    assert_eq!(port_of_address(&[0x50, 0x00, 0xff, 0xff]), Some(80));
    assert_eq!(port_of_address(&[0xff, 0xff]), Some(65535));
    assert_eq!(port_of_address(&[0, 0]), Some(0));
    assert_eq!(port_of_address(&[0x58]), None);
    assert_eq!(port_of_address(&[]), None);
}

#[test]
fn transfer_outcome_by_case() {
    assert_eq!(transfer_outcome(false, None), Err(Error::WouldBlock));
    assert_eq!(transfer_outcome(false, Some(3)), Err(Error::WouldBlock));
    assert_eq!(transfer_outcome(true, Some(3)), Ok(3));
    assert_eq!(transfer_outcome(true, Some(0)), Ok(0));
    assert_eq!(transfer_outcome(true, None), Err(Error::Io));
}

#[test]
fn completion_numbers() {
    assert_eq!(encode_completion(Ok(5)), 5);
    assert_eq!(encode_completion(Ok(0)), 0);
    assert_eq!(encode_completion(Ok(i32::MAX as usize)), i32::MAX);
    assert_eq!(encode_completion(Ok(i32::MAX as usize + 1)), i32::MAX);
    assert_eq!(encode_completion(Err(Error::NotFound)), -1);
    assert_eq!(encode_completion(Err(Error::WouldBlock)), -3);
    assert_eq!(encode_completion(Err(Error::NotSupported)), -5);
    assert_eq!(encode_completion(Err(Error::Io)), -7);
}

#[test]
fn new_table_is_empty() {
    let table = SocketTable::new();
    assert_eq!(table.len(), 0);
    assert!(!table.contains(0));
    assert!(!table.contains(1));
    assert_eq!(table.handle(1), None);
}

#[test]
fn first_badge_is_one_and_badges_count_up() {
    let mut table = SocketTable::new();
    assert_eq!(table.socket(AF_INET, SOCK_STREAM, 0), Ok(1));
    assert_eq!(table.socket(AF_INET, SOCK_STREAM, 6), Ok(2));
    assert_eq!(table.socket(AF_INET, SOCK_STREAM, 0), Ok(3));
    assert_eq!(table.len(), 3);
    assert!(table.contains(1) && table.contains(2) && table.contains(3));
    assert_eq!(table.sockets_mut().iter().count(), 3);
}

#[test]
fn each_badge_has_its_own_stack_socket() {
    let mut table = SocketTable::new();
    let a = table.socket(AF_INET, SOCK_STREAM, 0).unwrap();
    let b = table.socket(AF_INET, SOCK_STREAM, 0).unwrap();
    assert!(table.handle(a).is_some());
    assert!(table.handle(a) != table.handle(b));
}

#[test]
fn sockets_have_four_kibibyte_buffers() {
    let mut table = SocketTable::new();
    let a = table.socket(AF_INET, SOCK_STREAM, 0).unwrap();
    let handle = table.handle(a).unwrap();
    let socket = table.sockets_mut().get::<tcp::Socket>(handle);
    assert_eq!(socket.recv_capacity(), 4096);
    assert_eq!(socket.send_capacity(), 4096);
}

#[test]
fn other_address_families_are_invalid() {
    let mut table = SocketTable::new();
    assert_eq!(table.socket(10, SOCK_STREAM, 0), Err(Error::InvalidArgs));
    assert_eq!(table.socket(0, SOCK_STREAM, 0), Err(Error::InvalidArgs));
    assert_eq!(table.socket(10, 2, 0), Err(Error::InvalidArgs));
    assert_eq!(table.len(), 0);
    assert_eq!(table.sockets_mut().iter().count(), 0);
}

#[test]
fn other_socket_types_are_not_supported() {
    let mut table = SocketTable::new();
    assert_eq!(table.socket(AF_INET, 2, 0), Err(Error::NotSupported));
    assert_eq!(table.socket(AF_INET, 0, 0), Err(Error::NotSupported));
    assert_eq!(table.len(), 0);
    assert_eq!(table.socket(AF_INET, SOCK_STREAM, 0), Ok(1));
}

#[test]
fn unknown_badge_on_send_is_not_found() {
    let mut table = SocketTable::new();
    assert_eq!(table.send(42, b"x", 0), Err(Error::NotFound));
    table.socket(AF_INET, SOCK_STREAM, 0).unwrap();
    assert_eq!(table.send(42, b"x", 0), Err(Error::NotFound));
    assert_eq!(table.send(0, b"x", 0), Err(Error::NotFound));
}

#[test]
fn unknown_badge_on_the_other_calls() {
    let mut table = SocketTable::new();
    let mut buffer = vec![7u8; 4];
    assert_eq!(table.recv(42, &mut buffer, 0), Err(Error::NotFound));
    assert_eq!(buffer, [7, 7, 7, 7]);
    assert_eq!(table.bind(42, &[0x58, 0x1B]), Err(Error::NotFound));
    assert_eq!(table.bind(42, &[]), Err(Error::NotFound));
    assert_eq!(table.listen(42, 1), Err(Error::NotFound));
    assert_eq!(table.close(42), Ok(()));
}

#[test]
fn socket_that_is_not_connected_would_block() {
    let mut table = SocketTable::new();
    let a = table.socket(AF_INET, SOCK_STREAM, 0).unwrap();
    let mut buffer = vec![7u8; 4];
    assert_eq!(table.send(a, b"hello", 0), Err(Error::WouldBlock));
    assert_eq!(table.recv(a, &mut buffer, 0), Err(Error::WouldBlock));
    assert_eq!(buffer, [7, 7, 7, 7]);
}

#[test]
fn bind_listens_on_the_port_of_the_address() {
    let mut table = SocketTable::new();
    let a = table.socket(AF_INET, SOCK_STREAM, 0).unwrap();
    assert_eq!(table.bind(a, &[0x58, 0x1B]), Ok(()));
    let handle = table.handle(a).unwrap();
    let socket = table.sockets_mut().get::<tcp::Socket>(handle);
    assert!(socket.is_listening());
    assert_eq!(socket.listen_endpoint().port, 7000);
}

#[test]
fn bind_refuses_a_short_address() {
    let mut table = SocketTable::new();
    let a = table.socket(AF_INET, SOCK_STREAM, 0).unwrap();
    assert_eq!(table.bind(a, &[0x58]), Err(Error::InvalidArgs));
    assert_eq!(table.bind(a, &[]), Err(Error::InvalidArgs));
    let handle = table.handle(a).unwrap();
    assert!(!table.sockets_mut().get::<tcp::Socket>(handle).is_listening());
}

#[test]
fn bind_reports_the_stacks_refusal() {
    let mut table = SocketTable::new();
    let a = table.socket(AF_INET, SOCK_STREAM, 0).unwrap();
    assert_eq!(table.bind(a, &[0, 0]), Err(Error::InternalError));
    assert_eq!(table.bind(a, &[0x58, 0x1B]), Ok(()));
    assert_eq!(table.bind(a, &[0x58, 0x1B]), Ok(()));
    assert_eq!(table.bind(a, &[0x59, 0x1B]), Err(Error::InternalError));
}

#[test]
fn listen_is_accepted_whatever_the_backlog() {
    let mut table = SocketTable::new();
    let a = table.socket(AF_INET, SOCK_STREAM, 0).unwrap();
    assert_eq!(table.listen(a, 0), Ok(()));
    assert_eq!(table.listen(a, 128), Ok(()));
    assert_eq!(table.listen(a, -1), Ok(()));
}

#[test]
fn connect_and_accept_are_not_supported() {
    let mut table = SocketTable::new();
    let a = table.socket(AF_INET, SOCK_STREAM, 0).unwrap();
    assert_eq!(table.connect(a, &[0x58, 0x1B, 127, 0, 0, 1]), Err(Error::NotSupported));
    assert_eq!(table.accept(a), Err(Error::NotSupported));
    assert_eq!(table.connect(42, &[]), Err(Error::NotSupported));
    assert_eq!(table.accept(42), Err(Error::NotSupported));
}

#[test]
fn close_forgets_the_badge_and_frees_the_socket() {
    let mut table = SocketTable::new();
    let a = table.socket(AF_INET, SOCK_STREAM, 0).unwrap();
    let b = table.socket(AF_INET, SOCK_STREAM, 0).unwrap();
    assert_eq!(table.close(a), Ok(()));
    assert!(!table.contains(a));
    assert!(table.contains(b));
    assert_eq!(table.len(), 1);
    assert_eq!(table.sockets_mut().iter().count(), 1);
    assert_eq!(table.send(a, b"x", 0), Err(Error::NotFound));
    assert_eq!(table.close(a), Ok(()));
    assert_eq!(table.len(), 1);
}

#[test]
fn closed_badges_are_not_given_out_again() {
    let mut table = SocketTable::new();
    let a = table.socket(AF_INET, SOCK_STREAM, 0).unwrap();
    table.close(a).unwrap();
    let b = table.socket(AF_INET, SOCK_STREAM, 0).unwrap();
    assert_eq!(b, 2);
    assert!(!table.contains(a));
    let handle = table.handle(b).unwrap();
    assert_eq!(table.sockets_mut().get::<tcp::Socket>(handle).recv_capacity(), 4096);
}

#[test]
fn badge_stays_until_it_is_closed() {
    let mut table = SocketTable::new();
    let mut lo = loopback();
    let a = table.socket(AF_INET, SOCK_STREAM, 0).unwrap();
    let first = table.handle(a);
    let b = table.socket(AF_INET, SOCK_STREAM, 0).unwrap();
    let mut buffer = vec![0u8; 8];
    let _ = table.bind(a, &[0x58, 0x1B]);
    let _ = table.bind(b, &[0, 0]);
    let _ = table.listen(a, 4);
    let _ = table.send(a, b"x", 0);
    let _ = table.recv(a, &mut buffer, 0);
    let _ = table.connect(a, &[]);
    let _ = table.accept(a);
    let _ = table.socket(3, SOCK_STREAM, 0);
    let _ = table.serve_all(a, &vec![]);
    poll(&mut lo, &mut table, 4);
    let _ = table.close(b);
    let _ = table.close(99);
    assert!(table.contains(a));
    assert_eq!(table.handle(a), first);
    let _ = table.close(a);
    assert!(!table.contains(a));
}

#[test]
fn send_then_recv_over_loopback_returns_the_bytes() {
    let mut table = SocketTable::new();
    let mut lo = loopback();
    let (a, b) = connected_pair(&mut lo, &mut table, 7000);
    assert_eq!(table.send(b, b"hello, gopher", 0), Ok(13));
    poll(&mut lo, &mut table, 8);
    let mut buffer = vec![0u8; 64];
    assert_eq!(table.recv(a, &mut buffer, 0), Ok(13));
    assert_eq!(&buffer[..13], b"hello, gopher");
    assert!(buffer[13..].iter().all(|&x| x == 0));
}

#[test]
fn data_goes_both_ways_over_loopback() {
    let mut table = SocketTable::new();
    let mut lo = loopback();
    let (a, b) = connected_pair(&mut lo, &mut table, 7000);
    assert_eq!(table.send(a, b"pong", 0), Ok(4));
    poll(&mut lo, &mut table, 8);
    let mut buffer = vec![0xaau8; 4];
    assert_eq!(table.recv(b, &mut buffer, 0), Ok(4));
    assert_eq!(buffer, b"pong");
    assert_eq!(table.recv(b, &mut buffer, 0), Ok(0));
}

#[test]
fn round_trip_is_exact_for_a_full_buffer() {
    let mut table = SocketTable::new();
    let mut lo = loopback();
    let (a, b) = connected_pair(&mut lo, &mut table, 7000);
    let data: Vec<u8> = (0..4096u32).map(|i| (i * 7 + 3) as u8).collect();
    assert_eq!(table.send(b, &data, 0), Ok(4096));
    let mut got: Vec<u8> = Vec::new();
    for _ in 0..64 {
        poll(&mut lo, &mut table, 4);
        let mut buffer = vec![0u8; 4096];
        if let Ok(n) = table.recv(a, &mut buffer, 0) {
            got.extend_from_slice(&buffer[..n]);
        }
        if got.len() == data.len() {
            break;
        }
    }
    assert_eq!(got, data);
}

#[test]
fn send_takes_no_more_than_the_transmit_buffer_holds() {
    let mut table = SocketTable::new();
    let mut lo = loopback();
    let (_, b) = connected_pair(&mut lo, &mut table, 7000);
    let data = vec![1u8; 5000];
    assert_eq!(table.send(b, &data, 0), Ok(4096));
    assert_eq!(table.send(b, &data, 0), Ok(0));
}

#[test]
fn recv_fills_a_short_buffer_and_keeps_the_rest() {
    let mut table = SocketTable::new();
    let mut lo = loopback();
    let (a, b) = connected_pair(&mut lo, &mut table, 7000);
    assert_eq!(table.send(b, b"abcdef", 0), Ok(6));
    poll(&mut lo, &mut table, 8);
    let mut buffer = vec![0u8; 4];
    assert_eq!(table.recv(a, &mut buffer, 0), Ok(4));
    assert_eq!(buffer, b"abcd");
    assert_eq!(table.recv(a, &mut buffer, 0), Ok(2));
    assert_eq!(buffer, b"efcd");
}

#[test]
fn unknown_opcode_completes_as_not_supported() {
    let mut table = SocketTable::new();
    let a = table.socket(AF_INET, SOCK_STREAM, 0).unwrap();
    let request = Request { opcode: 9, user_data: 77, len: 4, payload: vec![1, 2, 3, 4] };
    let response = table.serve(a, &request);
    assert_eq!(response.user_data, 77);
    assert_eq!(response.res, -5);
    assert!(response.payload.is_empty());
    let response = table.serve(
        42,
        &Request { opcode: 0, user_data: 78, len: 0, payload: vec![] },
    );
    assert_eq!((response.user_data, response.res), (78, -5));
}

#[test]
fn ring_requests_on_a_socket_that_is_not_ready_complete_with_the_error() {
    let mut table = SocketTable::new();
    let a = table.socket(AF_INET, SOCK_STREAM, 0).unwrap();
    let write =
        Request { opcode: IOURING_OP_WRITE, user_data: 1, len: 5, payload: b"hello".to_vec() };
    let read = Request { opcode: IOURING_OP_READ, user_data: 2, len: 5, payload: vec![] };
    let w = table.serve(a, &write);
    assert_eq!((w.user_data, w.res), (1, -3));
    assert!(w.payload.is_empty());
    let r = table.serve(a, &read);
    assert_eq!((r.user_data, r.res), (2, -3));
    assert_eq!(r.payload, vec![0u8; 5]);
    let gone = table.serve(42, &write);
    assert_eq!((gone.user_data, gone.res), (1, -1));
    let gone = table.serve(42, &read);
    assert_eq!((gone.user_data, gone.res), (2, -1));
    assert_eq!(gone.payload, vec![0u8; 5]);
}

#[test]
fn read_window_is_capped_at_the_socket_buffer() {
    let mut table = SocketTable::new();
    let a = table.socket(AF_INET, SOCK_STREAM, 0).unwrap();
    let read = Request { opcode: IOURING_OP_READ, user_data: 2, len: 1_000_000, payload: vec![] };
    assert_eq!(table.serve(a, &read).payload.len(), 4096);
    let read = Request { opcode: IOURING_OP_READ, user_data: 2, len: 4096, payload: vec![] };
    assert_eq!(table.serve(a, &read).payload.len(), 4096);
    let read = Request { opcode: IOURING_OP_READ, user_data: 2, len: 0, payload: vec![] };
    assert_eq!(table.serve(a, &read).payload.len(), 0);
}

#[test]
fn every_request_gets_its_completion_in_order() {
    let mut table = SocketTable::new();
    let a = table.socket(AF_INET, SOCK_STREAM, 0).unwrap();
    let mut tags: Vec<u64> = Vec::new();
    for batch in 0..5u64 {
        let requests: Vec<Request> = (0..batch + 2)
            .map(|i| Request {
                opcode: if i % 2 == 0 { IOURING_OP_READ } else { IOURING_OP_WRITE },
                user_data: batch * 100 + i,
                len: 3,
                payload: vec![1, 2, 3],
            })
            .collect();
        let responses = table.serve_all(a, &requests);
        assert_eq!(responses.len(), requests.len());
        for (request, response) in requests.iter().zip(responses.iter()) {
            assert_eq!(request.user_data, response.user_data);
        }
        tags.extend(responses.iter().map(|r| r.user_data));
    }
    assert_eq!(tags.len(), 2 + 3 + 4 + 5 + 6);
    assert_eq!(table.serve_all(a, &vec![]).len(), 0);
}

#[test]
fn async_ring_write_then_read_over_loopback() {
    let mut server = GopherServer::new();
    let mut lo = loopback();
    let (a, b) = connected_pair(&mut lo, &mut server.table, 7000);
    server.setup_iouring(b, 4096).unwrap();
    server.setup_iouring(a, 4096).unwrap();
    let write = vec![Request {
        opcode: IOURING_OP_WRITE,
        user_data: 0xabc,
        len: 5,
        payload: b"hello".to_vec(),
    }];
    let written = server.process_iouring(b, &write).unwrap();
    poll(&mut lo, &mut server.table, 8);
    let read = vec![Request { opcode: IOURING_OP_READ, user_data: 0xdef, len: 5, payload: vec![] }];
    let got = server.process_iouring(a, &read).unwrap();
    assert_eq!(written.len() + got.len(), 2);
    assert_eq!((written[0].user_data, written[0].res), (0xabc, 5));
    assert_eq!((got[0].user_data, got[0].res), (0xdef, 5));
    assert_eq!(got[0].payload, b"hello");
}

#[test]
fn facade_makes_the_calls_of_its_badge() {
    let mut server = GopherServer::new();
    let badge = server.socket(AF_INET, SOCK_STREAM, 0).unwrap();
    assert!(badge >= 1);
    let mut socket = GopherSocket::new(badge);
    let mut stranger = GopherSocket { badge: 99 };
    let mut buffer = vec![0u8; 8];
    assert_eq!(socket.bind(&mut server, &[0x58, 0x1B]), Ok(()));
    assert_eq!(stranger.bind(&mut server, &[0x58, 0x1B]), Err(Error::NotFound));
    assert_eq!(socket.listen(&mut server, 1), Ok(()));
    assert_eq!(stranger.listen(&mut server, 1), Err(Error::NotFound));
    assert_eq!(socket.accept(&mut server), Err(Error::NotSupported));
    assert_eq!(socket.connect(&mut server, &[]), Err(Error::NotSupported));
    assert_eq!(socket.send(&mut server, b"x", 0), Err(Error::WouldBlock));
    assert_eq!(stranger.send(&mut server, b"x", 0), Err(Error::NotFound));
    assert_eq!(socket.recv(&mut server, &mut buffer, 0), Err(Error::WouldBlock));
    assert_eq!(stranger.recv(&mut server, &mut buffer, 0), Err(Error::NotFound));
    assert_eq!(socket.get_sockname(&mut buffer), Err(Error::NotSupported));
    assert_eq!(socket.get_peername(&mut buffer), Err(Error::NotSupported));
    assert_eq!(socket.setsockopt(1, 2, &[1]), Err(Error::NotSupported));
    assert_eq!(socket.getsockopt(1, 2, &mut buffer), Err(Error::NotSupported));
    assert_eq!(stranger.setup_iouring(&mut server, 0x1000, 4096), Err(Error::NotFound));
    assert_eq!(socket.process_iouring(&mut server, &vec![]).err(), Some(Error::NotFound));
    let ring = socket.setup_iouring(&mut server, 0x1000, 4096).unwrap();
    assert_eq!((ring.vaddr, ring.size), (0x3000_0000, 4096));
    assert_eq!(socket.process_iouring(&mut server, &vec![]).map(|r| r.len()), Ok(0));
    assert_eq!(socket.close(&mut server), Ok(()));
    assert!(!server.table.contains(badge));
    assert_eq!(socket.badge, badge);
}

#[test]
fn send_receive_over_loopback_on_port_7000() {
    let mut server = GopherServer::new();
    let mut lo = loopback();
    let a = server.socket(AF_INET, SOCK_STREAM, 0).unwrap();
    let b = server.socket(AF_INET, SOCK_STREAM, 0).unwrap();
    assert_eq!(GopherSocket::new(a).bind(&mut server, &[0x58, 0x1B]), Ok(()));
    let handle = server.table.handle(b).unwrap();
    server
        .table
        .sockets_mut()
        .get_mut::<tcp::Socket>(handle)
        .connect(lo.iface.context(), (IpAddress::v4(127, 0, 0, 1), 7000), 49152)
        .unwrap();
    poll(&mut lo, &mut server.table, 16);
    assert_eq!(GopherSocket::new(b).send(&mut server, b"ping", 0), Ok(4));
    poll(&mut lo, &mut server.table, 8);
    let peer = server.table.handle(a).unwrap();
    assert_eq!(server.table.sockets_mut().get::<tcp::Socket>(peer).recv_queue(), 4);
    let mut buffer = vec![0u8; 16];
    assert_eq!(GopherSocket::new(a).recv(&mut server, &mut buffer, 0), Ok(4));
    assert_eq!(&buffer[..4], b"ping");
}

#[test]
fn async_ring_write_and_read_in_one_batch() {
    let mut server = GopherServer::new();
    let mut lo = loopback();
    let (a, b) = connected_pair(&mut lo, &mut server.table, 7000);
    assert_eq!(server.table.send(a, b"12345", 0), Ok(5));
    poll(&mut lo, &mut server.table, 8);
    let ring = server.setup_iouring(b, 4096).unwrap();
    assert_eq!(ring.size, 4096);
    let batch = vec![
        Request { opcode: IOURING_OP_WRITE, user_data: 1, len: 5, payload: b"hello".to_vec() },
        Request { opcode: IOURING_OP_READ, user_data: 2, len: 5, payload: vec![] },
    ];
    let completions = server.process_iouring(b, &batch).unwrap();
    assert_eq!(completions.len(), 2);
    assert_eq!((completions[0].user_data, completions[0].res), (1, 5));
    assert_eq!((completions[1].user_data, completions[1].res), (2, 5));
    assert_eq!(completions[1].payload, b"12345");
    poll(&mut lo, &mut server.table, 8);
    let mut buffer = vec![0u8; 5];
    assert_eq!(server.table.recv(a, &mut buffer, 0), Ok(5));
    assert_eq!(buffer, b"hello");
}

#[test]
fn batch_reads_take_the_waiting_bytes_in_order() {
    let mut table = SocketTable::new();
    let mut lo = loopback();
    let (a, b) = connected_pair(&mut lo, &mut table, 7000);
    assert_eq!(table.send(b, b"abcdef", 0), Ok(6));
    poll(&mut lo, &mut table, 8);
    let read =
        |tag: u64| Request { opcode: IOURING_OP_READ, user_data: tag, len: 4, payload: vec![] };
    let batch = vec![
        read(1),
        Request { opcode: IOURING_OP_WRITE, user_data: 2, len: 2, payload: b"xy".to_vec() },
        read(3),
        read(4),
    ];
    let responses = table.serve_all(a, &batch);
    let seen: Vec<(u64, i32, Vec<u8>)> =
        responses.into_iter().map(|r| (r.user_data, r.res, r.payload)).collect();
    assert_eq!(
        seen,
        [
            (1, 4, b"abcd".to_vec()),
            (2, 2, vec![]),
            (3, 2, vec![b'e', b'f', 0, 0]),
            (4, 0, vec![0, 0, 0, 0]),
        ]
    );
    poll(&mut lo, &mut table, 8);
    let mut buffer = vec![0u8; 2];
    assert_eq!(table.recv(b, &mut buffer, 0), Ok(2));
    assert_eq!(buffer, b"xy");
}

#[test]
fn batch_writes_fill_the_room_that_is_left() {
    let mut table = SocketTable::new();
    let mut lo = loopback();
    let (_, b) = connected_pair(&mut lo, &mut table, 7000);
    let write = |tag: u64, n: usize| Request {
        opcode: IOURING_OP_WRITE,
        user_data: tag,
        len: n as u32,
        payload: vec![7u8; n],
    };
    let responses = table.serve_all(b, &vec![write(1, 3000), write(2, 3000), write(3, 10)]);
    let seen: Vec<(u64, i32)> = responses.iter().map(|r| (r.user_data, r.res)).collect();
    assert_eq!(seen, [(1, 3000), (2, 1096), (3, 0)]);
}

#[test]
fn dispatch_of_recv_replies_with_the_bytes_that_wait() {
    let mut server = GopherServer::new();
    let mut lo = loopback();
    let (a, b) = connected_pair(&mut lo, &mut server.table, 7000);
    let data: Vec<u8> = (0..3000u32).map(|i| (i % 251) as u8).collect();
    assert_eq!(server.table.send(b, &data, 0), Ok(3000));
    for _ in 0..16 {
        poll(&mut lo, &mut server.table, 4);
    }
    let recv = gopher::gopher::server::Message {
        proto: gopher::protocol::NETWORK_PROTO,
        label: gopher::protocol::RECV,
        badge: a,
        has_cap: false,
        mr0: 0,
        mr1: 0,
        mr2: 0,
        data: Vec::new(),
    };
    let first = server.dispatch(&recv).outcome.unwrap();
    assert!(first.ok);
    assert_eq!(first.mr0, 0);
    assert_eq!(first.data, &data[..2048]);
    let second = server.dispatch(&recv).outcome.unwrap();
    assert_eq!(second.data, &data[2048..]);
    let third = server.dispatch(&recv).outcome.unwrap();
    assert!(third.data.is_empty());
}
