use datachannel_facade::platform::native::ConfigurationExt;
use datachannel_facade::sys::native::{native_configuration, IpAddress};
use datachannel_facade::sys::web::web_configuration;
use datachannel_facade::{Configuration, TransportPolicy};

#[test]
fn a_new_configuration_is_empty() {
    let c = Configuration::new();
    assert!(c.ice_servers.is_empty());
    assert_eq!(c.ice_transport_policy, TransportPolicy::All);
    assert_eq!(c.sys.bind_address, None);
    assert_eq!(c.sys.port_range_begin, 0);
    assert_eq!(c.sys.port_range_end, 0);
    assert!(!c.sys.enable_ice_tcp);
    assert!(!c.sys.enable_ice_udp_mux);
    assert!(!c.sys.disable_auto_negotiation);
    assert!(!c.sys.disable_fingerprint_verification);
    let d = Configuration::default();
    assert!(d.ice_servers.is_empty());
}

#[test]
fn native_options_are_set_one_at_a_time() {
    let mut c = Configuration::new();
    c.ice_servers.push("stun:stun.example.com:3478".to_owned());
    c.set_bind(Some(IpAddress::V4([127, 0, 0, 1])), 40000, 40000);
    c.set_enable_ice_tcp(true);
    assert_eq!(c.sys.bind_address, Some(IpAddress::V4([127, 0, 0, 1])));
    assert_eq!(c.sys.port_range_begin, 40000);
    assert_eq!(c.sys.port_range_end, 40000);
    assert!(c.sys.enable_ice_tcp);
    assert!(!c.sys.enable_ice_udp_mux);
    c.set_enable_ice_udp_mux(true);
    c.set_disable_auto_negotiation(true);
    c.set_disable_fingerprint_verification(true);
    assert!(c.sys.enable_ice_udp_mux);
    assert!(c.sys.disable_auto_negotiation);
    assert!(c.sys.disable_fingerprint_verification);
    assert_eq!(c.ice_servers, vec!["stun:stun.example.com:3478"]);
}

#[test]
fn libdatachannel_gets_urls_inline_and_every_native_option() {
    let mut c = Configuration::new();
    c.ice_servers.push("turn:alice:s3cret@turn.example.com:3478".to_owned());
    c.ice_transport_policy = TransportPolicy::Relay;
    c.set_bind(None, 50000, 50100);
    c.set_disable_fingerprint_verification(true);
    let n = native_configuration(c);
    assert_eq!(n.ice_servers, vec!["turn:alice:s3cret@turn.example.com:3478"]);
    assert_eq!(n.ice_transport_policy, TransportPolicy::Relay);
    assert_eq!(n.bind_address, None);
    assert_eq!(n.port_range_begin, 50000);
    assert_eq!(n.port_range_end, 50100);
    assert!(n.disable_fingerprint_verification);
    assert!(!n.enable_ice_tcp);
}

#[test]
fn the_browser_gets_credentials_split_out() {
    let mut c = Configuration::new();
    c.ice_servers.push("stun:stun.example.com:3478".to_owned());
    c.ice_servers.push("turn:alice:p@ss@turn.example.com:3478".to_owned());
    let w = web_configuration(&c);
    assert_eq!(w.ice_servers.len(), 2);
    assert_eq!(w.ice_servers[0].urls, vec!["stun:stun.example.com:3478"]);
    assert_eq!(w.ice_servers[0].username, None);
    assert_eq!(w.ice_servers[1].urls, vec!["turn:turn.example.com:3478"]);
    assert_eq!(w.ice_servers[1].username.as_deref(), Some("alice"));
    assert_eq!(w.ice_servers[1].credential.as_deref(), Some("p@ss"));
    assert_eq!(w.ice_transport_policy, TransportPolicy::All);
}

#[test]
fn callbacks_bounded_by_the_markers_are_send_and_sync() {
    fn assert_send_sync<T: datachannel_facade::marker::WasmNotSend + datachannel_facade::marker::WasmNotSync>() {
        fn inner<T: Send + Sync>() {}
        inner::<T>();
    }
    assert_send_sync::<Configuration>();
    assert_send_sync::<fn(&str)>();
}
