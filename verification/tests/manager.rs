use gopher::device::MacAddress;
use gopher::error::Error;
use gopher::gopher::manager::GopherManager;
use gopher::gopher::network::bind_outcome;
use gopher::gopher::server::{reply_for, Message, Work};
use gopher::gopher::stack::{fallback_address, InterfaceState};
use gopher::protocol::{
    ACCEPT, AF_INET, BIND, CLOSE, KERNEL_PROTO, LISTEN, NETWORK_PROTO, NOTIFY, RECV, SEND,
    SOCKET, SOCK_STREAM,
};

fn mac() -> MacAddress {
    MacAddress::from_octets([2, 0, 0, 0, 0, 9])
}

fn message(label: usize, badge: usize) -> Message {
    Message {
        proto: NETWORK_PROTO,
        label,
        badge,
        has_cap: false,
        mr0: 0,
        mr1: 0,
        mr2: 0,
        data: Vec::new(),
    }
}

#[test]
fn bind_outcome_by_case() {
    assert_eq!(bind_outcome(false, Some(7000), true), Err(Error::NotFound));
    assert_eq!(bind_outcome(false, None, false), Err(Error::NotFound));
    assert_eq!(bind_outcome(true, None, true), Err(Error::InvalidArgs));
    assert_eq!(bind_outcome(true, None, false), Err(Error::InvalidArgs));
    assert_eq!(bind_outcome(true, Some(7000), false), Err(Error::InternalError));
    assert_eq!(bind_outcome(true, Some(0), false), Err(Error::InternalError));
    assert_eq!(bind_outcome(true, Some(7000), true), Ok(()));
}

#[test]
fn manager_starts_with_the_fallback_address_and_no_socket() {
    let manager = GopherManager::new("eth0", mac());
    assert_eq!(manager.device.name(), "eth0");
    assert_eq!(manager.device.mac, mac());
    assert!(!manager.device.rx_pending);
    assert_eq!(
        manager.iface,
        InterfaceState { mac: mac(), address: fallback_address(), gateway: None }
    );
    assert_eq!(manager.table.len(), 0);
    assert_eq!((manager.endpoint, manager.reply, manager.running), (0, 0, false));
}

#[test]
fn timer_readings_become_microseconds() {
    assert_eq!(GopherManager::get_instant(0), 0);
    assert_eq!(GopherManager::get_instant(999), 0);
    assert_eq!(GopherManager::get_instant(1000), 1);
    assert_eq!(GopherManager::get_instant(1_234_567), 1234);
    assert_eq!(GopherManager::get_instant(u64::MAX), 18_446_744_073_709_551);
}

#[test]
fn manager_runs_only_after_listen() {
    let mut manager = GopherManager::new("eth0", mac());
    assert_eq!(manager.init(), Ok(()));
    assert_eq!(manager.run(), Err(Error::NotInitialized));
    assert_eq!(manager.listen(30, 0), Ok(()));
    assert_eq!(manager.run(), Err(Error::NotInitialized));
    assert_eq!(manager.listen(30, 2), Ok(()));
    assert_eq!(manager.run(), Ok(()));
    assert!(manager.running);
    manager.stop();
    assert!(!manager.running);
}

#[test]
fn manager_socket_calls() {
    let mut manager = GopherManager::new("eth0", mac());
    assert_eq!(manager.socket(3, SOCK_STREAM, 0), Err(Error::InvalidArgs));
    assert_eq!(manager.socket(AF_INET, 5, 0), Err(Error::NotSupported));
    let badge = manager.socket(AF_INET, SOCK_STREAM, 0).unwrap();
    assert_eq!(badge, 1);
    let mut buffer = vec![1u8; 4];
    assert_eq!(manager.bind_socket(9, &[0x58, 0x1B]), Err(Error::NotFound));
    assert_eq!(manager.bind_socket(badge, &[0x58]), Err(Error::InvalidArgs));
    assert_eq!(manager.send_socket(badge, b"x", 0), Err(Error::WouldBlock));
    assert_eq!(manager.recv_socket(badge, &mut buffer, 0), Err(Error::WouldBlock));
    assert_eq!(manager.send_socket(9, b"x", 0), Err(Error::NotFound));
    assert_eq!(manager.recv_socket(9, &mut buffer, 0), Err(Error::NotFound));
    assert_eq!(buffer, [1, 1, 1, 1]);
    assert_eq!(manager.bind_socket(badge, &[0x58, 0x1B]), Ok(()));
    assert_eq!(manager.listen_socket(badge, 5), Ok(()));
    assert_eq!(manager.listen_socket(9, 5), Ok(()));
}

#[test]
fn manager_dispatch_knows_five_calls() {
    let mut manager = GopherManager::new("eth0", mac());
    let mut socket = message(SOCKET, 0);
    socket.mr0 = AF_INET as usize;
    socket.mr1 = SOCK_STREAM as usize;
    let turn = manager.dispatch(&socket);
    assert_eq!(turn.work, Work::Nothing);
    let badge = turn.outcome.as_ref().map(|r| r.mr0).unwrap();
    assert_eq!(badge, 1);
    let mut bind = message(BIND, badge);
    bind.data = vec![0x58, 0x1B];
    assert!(manager.dispatch(&bind).outcome.is_ok());
    assert!(manager.dispatch(&message(LISTEN, badge)).outcome.is_ok());
    assert!(manager.dispatch(&message(LISTEN, 9)).outcome.is_ok());
    let mut send = message(SEND, badge);
    send.data = b"x".to_vec();
    assert_eq!(manager.dispatch(&send).outcome.err(), Some(Error::WouldBlock));
    assert_eq!(manager.dispatch(&message(RECV, badge)).outcome.err(), Some(Error::WouldBlock));
    assert_eq!(manager.dispatch(&message(RECV, 9)).outcome.err(), Some(Error::NotFound));
    for label in [ACCEPT, CLOSE, 0, 99] {
        let turn = manager.dispatch(&message(label, badge));
        assert_eq!(turn.outcome.err(), Some(Error::NotSupported));
    }
    let mut notify = message(NOTIFY, 4);
    notify.proto = KERNEL_PROTO;
    let turn = manager.dispatch(&notify);
    assert_eq!(turn.outcome.as_ref().err(), Some(&Error::NotSupported));
    let reply = reply_for(turn.outcome).unwrap();
    assert!(!reply.ok);
    assert_eq!(reply.mr0, 5);
    assert!(manager.table.contains(badge));
}
