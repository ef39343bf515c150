use gopher::device::{
    Completion, DeviceCapabilities, GlendaNetDevice, MacAddress, Medium, RxSubmission, RxToken,
    ShmView, TxBuffer, TxToken, MTU, RX_TAG, RX_WINDOW, TX_OFFSET, TX_WINDOW,
};

fn mac() -> MacAddress {
    MacAddress::from_octets([0x52, 0x54, 0x00, 0x12, 0x34, 0x56])
}

fn pool(size: usize) -> ShmView {
    ShmView { frame: 20, vaddr: 0x4000_0000, paddr: 0x8000_0000, size }
}

fn attached() -> GlendaNetDevice {
    let mut device = GlendaNetDevice::new("eth0", 7, mac());
    device.setup_shm(pool(1024 * 1024));
    device
}

#[test]
fn constants_have_their_values() {
    assert_eq!(RX_TAG, 0x100);
    assert_eq!(RX_WINDOW, 2048);
    assert_eq!(TX_OFFSET, 4096);
    assert_eq!(TX_WINDOW, 2048);
    assert_eq!(MTU, 1500);
}

#[test]
fn mac_octets_round_trip() {
    let m = mac();
    assert_eq!(m.o0, 0x52);
    assert_eq!(m.o5, 0x56);
    assert_eq!(m.octets(), [0x52, 0x54, 0x00, 0x12, 0x34, 0x56]);
    assert_eq!(MacAddress::zero().octets(), [0, 0, 0, 0, 0, 0]);
}

#[test]
fn new_device_has_nothing_in_flight() {
    let device = GlendaNetDevice::new("eth0", 7, mac());
    assert_eq!(device.name(), "eth0");
    assert_eq!(device.hw_id, 7);
    assert_eq!(device.mac_address(), mac());
    assert!(!device.rx_pending);
    assert_eq!(device.rx_id, 0x100);
    assert_eq!(device.shm, None);
}

#[test]
fn capabilities_are_ethernet_with_mtu_1500() {
    let device = GlendaNetDevice::new("eth0", 7, mac());
    assert_eq!(
        device.capabilities(),
        DeviceCapabilities { max_transmission_unit: 1500, medium: Medium::Ethernet }
    );
}

#[test]
fn no_receive_buffer_is_offered_without_a_pool() {
    let mut device = GlendaNetDevice::new("eth0", 7, mac());
    assert_eq!(device.rx_request(), None);
    device.rx_submitted(true);
    assert!(!device.rx_pending);
}

#[test]
fn no_receive_buffer_is_offered_into_a_pool_that_is_too_small() {
    let mut device = GlendaNetDevice::new("eth0", 7, mac());
    device.setup_shm(pool(2047));
    assert_eq!(device.rx_request(), None);
    device.setup_shm(pool(2048));
    assert!(device.rx_request().is_some());
}

#[test]
fn receive_buffer_is_the_first_half_of_frame_zero() {
    let device = attached();
    assert_eq!(
        device.rx_request(),
        Some(RxSubmission { offset: 0, len: 2048, user_data: 0x100 })
    );
}

#[test]
fn one_submission_at_a_time() {
    let mut device = attached();
    device.rx_submitted(true);
    assert!(device.rx_pending);
    assert_eq!(device.rx_request(), None);
    device.rx_submitted(true);
    assert!(device.rx_pending);
}

#[test]
fn refused_submission_leaves_nothing_in_flight() {
    let mut device = attached();
    device.rx_submitted(false);
    assert!(!device.rx_pending);
    assert!(device.rx_request().is_some());
}

#[test]
fn completion_with_the_tag_hands_over_the_packet() {
    let mut device = attached();
    device.rx_submitted(true);
    let token = device.rx_completed(Some(Completion { user_data: 0x100, res: 60 }));
    assert_eq!(token, Some(RxToken { shm_idx: 0, len: 60 }));
    assert!(!device.rx_pending);
    assert!(device.rx_request().is_some());
}

#[test]
fn completion_with_another_tag_is_left_alone() {
    let mut device = attached();
    device.rx_submitted(true);
    let token = device.rx_completed(Some(Completion { user_data: 0x101, res: 60 }));
    assert_eq!(token, None);
    assert!(device.rx_pending);
}

#[test]
fn failed_completion_ends_the_submission_without_a_packet() {
    let mut device = attached();
    device.rx_submitted(true);
    assert_eq!(device.rx_completed(Some(Completion { user_data: 0x100, res: -5 })), None);
    assert!(!device.rx_pending);
    device.rx_submitted(true);
    assert_eq!(device.rx_completed(Some(Completion { user_data: 0x100, res: 0 })), None);
    assert!(!device.rx_pending);
}

#[test]
fn empty_completion_queue_changes_nothing() {
    let mut device = attached();
    device.rx_submitted(true);
    assert_eq!(device.rx_completed(None), None);
    assert!(device.rx_pending);
}

#[test]
fn completion_is_ignored_while_nothing_is_in_flight() {
    let mut device = attached();
    assert_eq!(device.rx_completed(Some(Completion { user_data: 0x100, res: 60 })), None);
    assert!(!device.rx_pending);
}

#[test]
fn receive_submits_then_peeks() {
    let mut device = attached();
    assert_eq!(device.receive(true, None), None);
    assert!(device.rx_pending);
    let got = device.receive(true, Some(Completion { user_data: 0x100, res: 1514 }));
    assert_eq!(
        got,
        Some((RxToken { shm_idx: 0, len: 1514 }, TxToken { shm: Some(pool(1024 * 1024)) }))
    );
    assert!(!device.rx_pending);
}

#[test]
fn receive_in_one_poll() {
    let mut device = attached();
    let got = device.receive(true, Some(Completion { user_data: 0x100, res: 42 }));
    assert_eq!(got.map(|(rx, _)| rx.len), Some(42));
    assert!(!device.rx_pending);
}

#[test]
fn driver_never_holds_two_receive_buffers() {
    let mut device = attached();
    let mut in_flight: i64 = 0;
    let heads = [
        None,
        Some(Completion { user_data: 0x200, res: 9 }),
        Some(Completion { user_data: 0x100, res: 9 }),
        None,
        Some(Completion { user_data: 0x100, res: -1 }),
        Some(Completion { user_data: 0x100, res: 0 }),
    ];
    for round in 0..48 {
        let accepted = round % 3 != 1;
        if device.rx_request().is_some() && accepted {
            in_flight += 1;
        }
        device.rx_submitted(accepted);
        assert!(in_flight <= 1);
        let head = heads[round % heads.len()];
        let tagged = device.rx_pending && head.map(|c| c.user_data) == Some(device.rx_id);
        device.rx_completed(head);
        if tagged {
            in_flight -= 1;
        }
        assert!(in_flight == 0 || in_flight == 1);
        assert_eq!(in_flight == 1, device.rx_pending);
    }
}

#[test]
fn transmit_is_always_granted() {
    let device = GlendaNetDevice::new("eth0", 7, mac());
    assert_eq!(device.transmit(), TxToken { shm: None });
    assert_eq!(attached().transmit(), TxToken { shm: Some(pool(1024 * 1024)) });
}

#[test]
fn packets_are_written_into_frame_one_of_the_pool() {
    let token = attached().transmit();
    assert_eq!(token.consume(1514), Some(TxBuffer::Shm { offset: 4096, len: 1514 }));
    assert_eq!(token.consume(0), Some(TxBuffer::Shm { offset: 4096, len: 0 }));
    assert_eq!(token.consume(2048), Some(TxBuffer::Shm { offset: 4096, len: 2048 }));
}

#[test]
fn long_packets_are_written_into_the_pool_where_they_fit() {
    let token = attached().transmit();
    assert_eq!(token.consume(2049), Some(TxBuffer::Shm { offset: 4096, len: 2049 }));
    assert_eq!(token.consume(9000), Some(TxBuffer::Shm { offset: 4096, len: 9000 }));
    let room = 1024 * 1024 - 4096;
    assert_eq!(token.consume(room), Some(TxBuffer::Shm { offset: 4096, len: room }));
    assert_eq!(token.consume(room + 1), None);
}

#[test]
fn packets_go_through_a_local_buffer_where_the_pool_has_no_room() {
    assert_eq!(TxToken { shm: None }.consume(100), Some(TxBuffer::Local { len: 100 }));
    assert_eq!(TxToken { shm: None }.consume(2048), Some(TxBuffer::Local { len: 2048 }));
    assert_eq!(
        TxToken { shm: Some(pool(4096)) }.consume(100),
        Some(TxBuffer::Local { len: 100 })
    );
    assert_eq!(
        TxToken { shm: Some(pool(4096)) }.consume(0),
        Some(TxBuffer::Shm { offset: 4096, len: 0 })
    );
    assert_eq!(
        TxToken { shm: Some(pool(4195)) }.consume(100),
        Some(TxBuffer::Local { len: 100 })
    );
    assert_eq!(
        TxToken { shm: Some(pool(4196)) }.consume(100),
        Some(TxBuffer::Shm { offset: 4096, len: 100 })
    );
    assert_eq!(
        TxToken { shm: Some(pool(100)) }.consume(100),
        Some(TxBuffer::Local { len: 100 })
    );
}

#[test]
fn packets_that_fit_neither_have_no_place() {
    assert_eq!(TxToken { shm: None }.consume(2049), None);
    assert_eq!(TxToken { shm: None }.consume(usize::MAX), None);
    assert_eq!(TxToken { shm: Some(pool(4096)) }.consume(2049), None);
    assert_eq!(TxToken { shm: Some(pool(8192)) }.consume(4097), None);
    assert_eq!(attached().transmit().consume(usize::MAX), None);
}

#[test]
fn received_region_is_bounded_by_the_pool() {
    assert_eq!(RxToken { shm_idx: 0, len: 60 }.region(4096), Some((0, 60)));
    assert_eq!(RxToken { shm_idx: 2, len: 100 }.region(3 * 4096), Some((8192, 8292)));
    assert_eq!(RxToken { shm_idx: 0, len: 4096 }.region(4096), Some((0, 4096)));
    assert_eq!(RxToken { shm_idx: 0, len: 4097 }.region(4096), None);
    assert_eq!(RxToken { shm_idx: 1, len: 1 }.region(4096), None);
    assert_eq!(RxToken { shm_idx: 1, len: 0 }.region(4096), Some((4096, 4096)));
    assert_eq!(RxToken { shm_idx: usize::MAX, len: 1 }.region(usize::MAX), None);
    assert_eq!(RxToken { shm_idx: 0, len: usize::MAX }.region(usize::MAX), Some((0, usize::MAX)));
}
