//! End-to-end behaviour of the device handle and its tokens against a test
//! host registry.

use tuntap::Host;
use tuntap::HostInterface;
use tuntap::Medium;
use tuntap::TunTapInterface;

fn test_host(name: &str, medium: Medium, mtu: usize, user_owned: bool, privileged: bool) -> Host {
    Host {
        interfaces: vec![HostInterface {
            name: name.to_string(),
            medium,
            mtu,
            user_owned,
            fd: 3,
        }],
        privileged,
        next_fd: 10,
    }
}

fn open_test_device(mtu: usize) -> TunTapInterface {
    let mut host = test_host("tap0", Medium::Ethernet, mtu, true, false);
    TunTapInterface::new("tap0", Medium::Ethernet, &mut host).unwrap()
}

#[test]
fn open_reports_cached_capabilities() {
    let dev = open_test_device(1500);
    let caps = dev.capabilities();
    assert_eq!(caps.max_transmission_unit, 1500);
    assert_eq!(caps.medium, Medium::Ethernet);
}

#[test]
fn poll_receive_without_traffic_returns_nothing() {
    let mut dev = open_test_device(1500);
    assert!(dev.receive().is_none());
}

#[test]
fn receive_returns_injected_frame_with_paired_transmit_token() {
    let mut dev = open_test_device(1500);
    assert!(dev.receive().is_none());
    let frame: Vec<u8> = (0..64).map(|i| i as u8).collect();
    dev.inject(frame.clone());
    let (rx, tx) = dev.receive().expect("a frame is pending");
    assert_eq!(tx.fd, dev.as_raw_fd());
    let seen = rx.consume(|bytes| bytes);
    assert_eq!(seen.len(), 64);
    assert_eq!(seen, frame);
}

#[test]
fn receive_buffer_never_exceeds_mtu() {
    let mut dev = open_test_device(4);
    dev.inject(vec![1, 2, 3, 4, 5, 6, 7, 8, 9, 10]);
    let (rx, _tx) = dev.receive().expect("a frame is pending");
    let seen = rx.consume(|bytes| bytes);
    assert_eq!(seen, vec![1, 2, 3, 4]);
}

#[test]
fn receive_empty_frame_is_a_success() {
    let mut dev = open_test_device(1500);
    dev.inject(Vec::new());
    let (rx, _tx) = dev.receive().expect("a frame is pending");
    let seen = rx.consume(|bytes| bytes);
    assert!(seen.is_empty());
}

#[test]
fn receive_frame_of_exactly_mtu_is_whole() {
    let mut dev = open_test_device(4);
    dev.inject(vec![9, 8, 7, 6]);
    let (rx, _tx) = dev.receive().expect("a frame is pending");
    let seen = rx.consume(|bytes| bytes);
    assert_eq!(seen, vec![9, 8, 7, 6]);
}

#[test]
fn receive_keeps_packet_order() {
    let mut dev = open_test_device(1500);
    dev.inject(vec![1]);
    dev.inject(vec![2]);
    let (rx, _tx) = dev.receive().unwrap();
    assert_eq!(rx.consume(|b| b), vec![1]);
    let (rx, _tx) = dev.receive().unwrap();
    assert_eq!(rx.consume(|b| b), vec![2]);
    assert!(dev.receive().is_none());
}

#[test]
fn rx_consumer_result_is_returned_verbatim() {
    let mut dev = open_test_device(1500);
    dev.inject(vec![5, 5, 5]);
    let (rx, _tx) = dev.receive().unwrap();
    let total: u32 = rx.consume(|bytes| bytes.iter().map(|b| *b as u32).sum());
    assert_eq!(total, 15);
}

#[test]
fn transmit_is_always_ready() {
    let mut dev = open_test_device(1500);
    assert!(dev.transmit().is_some());
    assert!(dev.transmit().is_some());
}

#[test]
fn tx_consume_commits_exactly_one_write_with_the_pattern() {
    let mut dev = open_test_device(1500);
    let tx = dev.transmit().expect("transmit is always ready");
    let result = tx.consume(&mut dev, 42, |mut buffer| {
        for i in 0..buffer.len() {
            buffer[i] = (i * 3) as u8;
        }
        (buffer, "done")
    });
    assert_eq!(result, "done");
    let written = dev.take_transmitted();
    assert_eq!(written.len(), 1);
    let expected: Vec<u8> = (0..42).map(|i| (i * 3) as u8).collect();
    assert_eq!(written[0], expected);
    assert!(dev.take_transmitted().is_empty());
}

#[test]
fn tx_buffer_is_zero_initialized_with_requested_length() {
    let mut dev = open_test_device(1500);
    let tx = dev.transmit().unwrap();
    let seen_before_fill = tx.consume(&mut dev, 8, |buffer| {
        let seen = buffer.clone();
        (buffer, seen)
    });
    assert_eq!(seen_before_fill, vec![0u8; 8]);
}

#[test]
fn capabilities_are_invariant_under_traffic() {
    let mut dev = open_test_device(1500);
    let before = dev.capabilities();
    dev.inject(vec![1, 2, 3]);
    let (rx, tx) = dev.receive().unwrap();
    let _ = rx.consume(|b| b);
    let _ = tx.consume(&mut dev, 16, |b| (b, ()));
    let extra = dev.transmit().unwrap();
    let _ = extra.consume(&mut dev, 900, |b| (b, ()));
    let _ = dev.take_transmitted();
    let after = dev.capabilities();
    assert_eq!(before, after);
    assert_eq!(after.max_transmission_unit, 1500);
}
