//! Opening and attaching: privilege, conflicts, query failures, creation.

use tuntap::Host;
use tuntap::HostInterface;
use tuntap::Medium;
use tuntap::SetupError;
use tuntap::TunTapInterface;

fn registry(entries: Vec<HostInterface>, privileged: bool) -> Host {
    Host { interfaces: entries, privileged, next_fd: 100 }
}

fn entry(name: &str, medium: Medium, mtu: usize, user_owned: bool, fd: i32) -> HostInterface {
    HostInterface { name: name.to_string(), medium, mtu, user_owned, fd }
}

#[test]
fn open_owned_interface_needs_no_privilege() {
    let mut host = registry(vec![entry("tap0", Medium::Ethernet, 1500, true, 4)], false);
    let dev = TunTapInterface::new("tap0", Medium::Ethernet, &mut host).unwrap();
    assert_eq!(dev.capabilities().max_transmission_unit, 1500);
    assert_eq!(dev.as_raw_fd(), 4);
}

#[test]
fn open_foreign_interface_without_privilege_fails_cleanly() {
    let mut host = registry(vec![entry("tap0", Medium::Ethernet, 1500, false, 4)], false);
    let r = TunTapInterface::new("tap0", Medium::Ethernet, &mut host);
    assert_eq!(r.err(), Some(SetupError::PermissionDenied));
    // No resource remains allocated: the registry is exactly as before.
    assert_eq!(host.interfaces.len(), 1);
    assert_eq!(host.next_fd, 100);
}

#[test]
fn open_foreign_interface_with_privilege_succeeds() {
    let mut host = registry(vec![entry("tap0", Medium::Ethernet, 1400, false, 4)], true);
    let dev = TunTapInterface::new("tap0", Medium::Ethernet, &mut host).unwrap();
    assert_eq!(dev.capabilities().max_transmission_unit, 1400);
}

#[test]
fn open_with_conflicting_medium_fails() {
    let mut host = registry(vec![entry("tun0", Medium::Ip, 1500, true, 4)], false);
    let r = TunTapInterface::new("tun0", Medium::Ethernet, &mut host);
    assert_eq!(r.err(), Some(SetupError::NameConflict));
    assert_eq!(host.interfaces.len(), 1);
}

#[test]
fn open_fails_when_mtu_cannot_be_reported() {
    let mut host = registry(vec![entry("tap0", Medium::Ethernet, 0, true, 4)], false);
    let r = TunTapInterface::new("tap0", Medium::Ethernet, &mut host);
    assert_eq!(r.err(), Some(SetupError::MtuQueryFailed));
}

#[test]
fn open_unknown_name_without_privilege_fails() {
    let mut host = registry(Vec::new(), false);
    let r = TunTapInterface::new("tap9", Medium::Ethernet, &mut host);
    assert_eq!(r.err(), Some(SetupError::PermissionDenied));
    assert!(host.interfaces.is_empty());
    assert_eq!(host.next_fd, 100);
}

#[test]
fn open_unknown_name_with_privilege_creates_the_interface() {
    let mut host = registry(Vec::new(), true);
    let dev = TunTapInterface::new("tun7", Medium::Ip, &mut host).unwrap();
    assert_eq!(dev.capabilities().max_transmission_unit, 1500);
    assert_eq!(dev.capabilities().medium, Medium::Ip);
    assert_eq!(dev.as_raw_fd(), 100);
    assert_eq!(host.interfaces.len(), 1);
    assert_eq!(host.interfaces[0].name, "tun7");
    assert_eq!(host.interfaces[0].fd, 100);
    assert!(host.interfaces[0].user_owned);
    assert_eq!(host.next_fd, 101);
}

#[test]
fn new_with_fd_attaches_to_an_existing_descriptor() {
    let host = registry(vec![entry("tun3", Medium::Ip, 1280, true, 9)], false);
    let dev = TunTapInterface::new_with_fd(9, Medium::Ip, &host).unwrap();
    assert_eq!(dev.as_raw_fd(), 9);
    assert_eq!(dev.capabilities().max_transmission_unit, 1280);
    assert_eq!(dev.capabilities().medium, Medium::Ip);
}

#[test]
fn new_with_fd_unknown_descriptor_fails() {
    let host = registry(vec![entry("tun3", Medium::Ip, 1280, true, 9)], false);
    let r = TunTapInterface::new_with_fd(42, Medium::Ip, &host);
    assert_eq!(r.err(), Some(SetupError::NoSuchDevice));
}

#[test]
fn new_with_fd_conflicting_medium_fails() {
    let host = registry(vec![entry("tun3", Medium::Ip, 1280, true, 9)], false);
    let r = TunTapInterface::new_with_fd(9, Medium::Ethernet, &host);
    assert_eq!(r.err(), Some(SetupError::NameConflict));
}

#[test]
fn new_with_fd_foreign_descriptor_without_privilege_fails() {
    let host = registry(vec![entry("tun3", Medium::Ip, 1280, false, 9)], false);
    let r = TunTapInterface::new_with_fd(9, Medium::Ip, &host);
    assert_eq!(r.err(), Some(SetupError::PermissionDenied));
}
