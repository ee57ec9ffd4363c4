use net_sentry::error::SessionError;
use net_sentry::session::{find_device, CaptureConfig, Sniffer, BUFFER_SIZE, DEFAULT_TIMEOUT_MS, SNAPLEN};

fn names(list: &[&str]) -> Vec<String> {
    list.iter().map(|s| s.to_string()).collect()
}

fn open(interface: &str, filter: Option<&str>) -> Sniffer<u32> {
    let listing = Ok(names(&["eth0", "lo0", "wlan0"]));
    Sniffer::new(interface, filter, CaptureConfig::with_timeout(DEFAULT_TIMEOUT_MS), listing, |d: &str| {
        assert_eq!(d, interface);
        (Ok(1), Ok(()))
    })
    .unwrap()
}

fn never_opened(_d: &str) -> (Result<u32, String>, Result<(), String>) {
    panic!("the engine was asked to open a device")
}

#[test]
fn standard_config() {
    let c = CaptureConfig::with_timeout(250);
    assert!(c.promisc);
    assert!(c.immediate);
    assert_eq!(c.timeout_ms, 250);
    assert_eq!(c.snaplen, 262_144);
    assert_eq!(c.buffer_size, 4 * 1024 * 1024);
    assert_eq!(SNAPLEN, 262_144);
    assert_eq!(BUFFER_SIZE, 4_194_304);
}

#[test]
fn list_devices_keeps_engine_order() {
    let listed = Sniffer::<u32>::list_devices(Ok(names(&["wlan0", "lo", "eth0"]))).unwrap();
    assert_eq!(listed, names(&["wlan0", "lo", "eth0"]));
}

#[test]
fn list_devices_failure_is_enumeration_error() {
    let r = Sniffer::<u32>::list_devices(Err(String::from("permission denied")));
    assert!(matches!(r, Err(SessionError::Enumeration(m)) if m == "permission denied"));
}

#[test]
fn find_device_is_exact() {
    let list = names(&["lo0", "lo", "eth0", "lo"]);
    assert_eq!(find_device(&list, "lo"), Some(1));
    assert_eq!(find_device(&list, "eth0"), Some(2));
    assert_eq!(find_device(&list, "eth"), None);
    assert_eq!(find_device(&list, "LO"), None);
    assert_eq!(find_device(&Vec::new(), "lo"), None);
}

#[test]
fn unknown_interface_is_device_not_found() {
    let r = Sniffer::<u32>::resolve_device(Ok(names(&["eth0", "lo"])), "lo0");
    assert!(matches!(r, Err(SessionError::DeviceNotFound(m)) if m == "lo0"));
}

#[test]
fn known_interface_resolves_to_itself() {
    let r = Sniffer::<u32>::resolve_device(Ok(names(&["eth0", "lo0"])), "lo0");
    assert_eq!(r.unwrap(), "lo0");
}

#[test]
fn failed_listing_blocks_resolution() {
    let r = Sniffer::<u32>::resolve_device(Err(String::from("no driver")), "lo0");
    assert!(matches!(r, Err(SessionError::Enumeration(m)) if m == "no driver"));
}

#[test]
fn open_unknown_interface_is_device_not_found() {
    let config = CaptureConfig::with_timeout(1000);
    let r = Sniffer::<u32>::new("lo0", None, config, Ok(names(&["eth0", "lo"])), never_opened);
    assert!(matches!(r, Err(SessionError::DeviceNotFound(m)) if m == "lo0"));
}

#[test]
fn open_with_failed_listing_is_enumeration_error() {
    let config = CaptureConfig::with_timeout(1000);
    let r = Sniffer::<u32>::new("lo0", None, config, Err(String::from("no permission")), never_opened);
    assert!(matches!(r, Err(SessionError::Enumeration(m)) if m == "no permission"));
}

#[test]
fn open_failure_is_open_error() {
    let config = CaptureConfig::with_timeout(1000);
    let r = Sniffer::<u32>::new("lo0", None, config, Ok(names(&["lo0"])), |_d: &str| {
        (Err(String::from("busy")), Ok(()))
    });
    assert!(matches!(r, Err(SessionError::Open(m)) if m == "busy"));
}

#[test]
fn rejected_initial_filter_is_filter_error() {
    let config = CaptureConfig::with_timeout(1000);
    let r = Sniffer::<u32>::new("lo0", Some("bad [[ expr"), config, Ok(names(&["lo0"])), |_d: &str| {
        (Ok(3), Err(String::from("syntax error")))
    });
    assert!(matches!(r, Err(SessionError::Filter(m)) if m == "syntax error"));
}

#[test]
fn new_session_records_its_setup() {
    let mut s = open("eth0", Some("tcp port 80"));
    assert!(s.is_live());
    assert_eq!(s.interface(), "eth0");
    assert_eq!(s.filter(), Some("tcp port 80"));
    assert_eq!(s.config(), CaptureConfig::with_timeout(1000));
    assert!(!s.is_nonblocking());
    assert_eq!(s.handle_mut().copied(), Some(1));
}

#[test]
fn handle_mut_lends_the_live_handle() {
    let mut s = open("eth0", None);
    *s.handle_mut().unwrap() = 42;
    assert_eq!(s.handle_mut().copied(), Some(42));
    s.close();
    assert!(s.handle_mut().is_none());
}

#[test]
fn bad_filter_keeps_previous_filter() {
    let mut s = open("lo0", Some("udp"));
    let r = s.set_filter("bad [[ expr", Err(String::from("syntax error")));
    assert!(matches!(r, Err(SessionError::Filter(m)) if m == "syntax error"));
    assert!(s.is_live());
    assert_eq!(s.filter(), Some("udp"));
    assert_eq!(s.stats(Ok((1, 0, 0))).unwrap(), (1, 0, 0));
}

#[test]
fn good_filter_replaces_previous_filter() {
    let mut s = open("lo0", None);
    s.set_filter("icmp", Ok(())).unwrap();
    assert_eq!(s.filter(), Some("icmp"));
}

#[test]
fn set_filter_on_closed_session() {
    let mut s = open("lo0", None);
    s.close();
    assert!(matches!(s.set_filter("icmp", Ok(())), Err(SessionError::SessionClosed)));
    assert_eq!(s.filter(), None);
}

#[test]
fn stats_on_closed_session() {
    let mut s = open("lo0", None);
    s.close();
    assert!(matches!(s.stats(Ok((1, 2, 3))), Err(SessionError::SessionClosed)));
    assert!(matches!(s.ensure_open(), Err(SessionError::SessionClosed)));
}

#[test]
fn stats_on_live_session() {
    let s = open("lo0", None);
    assert_eq!(s.stats(Ok((120, 3, 1))).unwrap(), (120, 3, 1));
    let r = s.stats(Err(String::from("unsupported")));
    assert!(matches!(r, Err(SessionError::Stats(m)) if m == "unsupported"));
}

#[test]
fn nonblock_success_swaps_in_switched_handle() {
    let mut s = open("lo0", None);
    s.set_nonblock(Ok(2)).unwrap();
    assert!(s.is_live());
    assert!(s.is_nonblocking());
    assert_eq!(s.handle_mut().copied(), Some(2));
}

#[test]
fn nonblock_failure_keeps_session_as_it_was() {
    let mut s = open("lo0", Some("udp"));
    let r = s.set_nonblock(Err(String::from("not supported")));
    assert!(matches!(r, Err(SessionError::Reconfigure(m)) if m == "not supported"));
    assert!(s.is_live());
    assert!(!s.is_nonblocking());
    assert_eq!(s.filter(), Some("udp"));
    assert_eq!(s.handle_mut().copied(), Some(1));
    assert_eq!(s.stats(Ok((0, 0, 0))).unwrap(), (0, 0, 0));
}

#[test]
fn nonblock_on_closed_session() {
    let mut s = open("lo0", None);
    s.close();
    assert!(matches!(s.set_nonblock(Ok(3)), Err(SessionError::SessionClosed)));
    assert!(!s.is_live());
}

#[test]
fn set_timeout_swaps_on_success() {
    let mut s = open("lo0", Some("arp"));
    s.set_nonblock(Ok(1)).unwrap();
    s.set_timeout(50, Ok(9), Ok(())).unwrap();
    assert_eq!(s.config().timeout_ms, 50);
    assert_eq!(s.config().snaplen, SNAPLEN);
    assert_eq!(s.filter(), Some("arp"));
    assert!(s.is_nonblocking());
    assert_eq!(s.handle_mut().copied(), Some(9));
}

#[test]
fn set_timeout_failure_leaves_session_as_it_was() {
    let mut s = open("lo0", Some("arp"));
    let r = s.set_timeout(50, Err(String::from("busy")), Ok(()));
    assert!(matches!(r, Err(SessionError::Reconfigure(m)) if m == "busy"));
    let r = s.set_timeout(50, Ok(4), Err(String::from("filter lost")));
    assert!(matches!(r, Err(SessionError::Reconfigure(m)) if m == "filter lost"));
    assert_eq!(s.config().timeout_ms, 1000);
    assert_eq!(s.handle_mut().copied(), Some(1));
}

#[test]
fn set_timeout_on_closed_session() {
    let mut s = open("lo0", None);
    s.close();
    assert!(matches!(s.set_timeout(50, Ok(2), Ok(())), Err(SessionError::SessionClosed)));
}

#[test]
fn reopen_swaps_in_new_handle() {
    let mut s = open("lo0", Some("arp"));
    s.reopen_with_timeout("eth0", None, 20, Ok(names(&["lo0", "eth0"])), |_d: &str| (Ok(5), Ok(())))
        .unwrap();
    assert_eq!(s.interface(), "eth0");
    assert_eq!(s.filter(), None);
    assert_eq!(s.config().timeout_ms, 20);
    assert_eq!(s.handle_mut().copied(), Some(5));
}

#[test]
fn reopen_failure_keeps_old_session() {
    let mut s = open("lo0", Some("arp"));
    let listing = || Ok(names(&["lo0", "eth0"]));
    let r = s.reopen_with_timeout("eth0", Some("bad [[ expr"), 20, listing(), |_d: &str| {
        (Ok(5), Err(String::from("syntax")))
    });
    assert!(matches!(r, Err(SessionError::Filter(m)) if m == "syntax"));
    let r = s.reopen_with_timeout("eth0", None, 20, listing(), |_d: &str| (Err(String::from("busy")), Ok(())));
    assert!(matches!(r, Err(SessionError::Open(m)) if m == "busy"));
    let r = s.reopen_with_timeout("eth1", None, 20, listing(), never_opened);
    assert!(matches!(r, Err(SessionError::DeviceNotFound(m)) if m == "eth1"));
    let r = s.reopen_with_timeout("eth0", None, 20, Err(String::from("no driver")), never_opened);
    assert!(matches!(r, Err(SessionError::Enumeration(m)) if m == "no driver"));
    assert!(s.is_live());
    assert_eq!(s.interface(), "lo0");
    assert_eq!(s.filter(), Some("arp"));
    assert_eq!(s.config().timeout_ms, 1000);
    assert_eq!(s.handle_mut().copied(), Some(1));
}

#[test]
fn reopen_revives_a_closed_session() {
    let mut s = open("lo0", None);
    s.close();
    s.reopen_with_timeout("lo0", None, 1000, Ok(names(&["lo0"])), |_d: &str| (Ok(8), Ok(())))
        .unwrap();
    assert!(s.is_live());
    assert_eq!(s.stats(Ok((0, 0, 0))).unwrap(), (0, 0, 0));
}
