//! The native backend's configuration, in libdatachannel's shape.
use vstd::prelude::*;

use crate::web::TransportPolicy;

verus! {

/// An IP address, as its octets.
#[derive(Clone, Copy, Debug, PartialEq, Eq)]
pub enum IpAddress {
    V4([u8; 4]),
    V6([u8; 16]),
}

/// Native-only configuration, carried on [`crate::Configuration`] and
/// set through [`crate::platform::native::ConfigurationExt`].
///
/// These are all things a browser has no way to express, which is
/// exactly why they aren't on the cross-platform type.
#[derive(Clone, Copy, Debug, Default)]
pub struct ConfigExtras {
    pub bind_address: Option<IpAddress>,
    pub port_range_begin: u16,
    pub port_range_end: u16,
    pub enable_ice_tcp: bool,
    pub enable_ice_udp_mux: bool,
    pub disable_auto_negotiation: bool,
    pub disable_fingerprint_verification: bool,
}

/// No native-only option set.
pub open spec fn no_extras() -> ConfigExtras {
    ConfigExtras {
        bind_address: None,
        port_range_begin: 0,
        port_range_end: 0,
        enable_ice_tcp: false,
        enable_ice_udp_mux: false,
        disable_auto_negotiation: false,
        disable_fingerprint_verification: false,
    }
}

/// libdatachannel's `Configuration`, as the members the facade sets; the
/// rest keep libdatachannel's defaults.
#[derive(Clone, Debug)]
pub struct NativeConfiguration {
    pub ice_servers: Vec<String>,
    pub ice_transport_policy: TransportPolicy,
    pub bind_address: Option<IpAddress>,
    pub port_range_begin: u16,
    pub port_range_end: u16,
    pub enable_ice_tcp: bool,
    pub enable_ice_udp_mux: bool,
    pub disable_auto_negotiation: bool,
    pub disable_fingerprint_verification: bool,
}

/// What libdatachannel is handed for a facade configuration: the ICE
/// servers as they are (libdatachannel takes credentials inline), and
/// every native-only option.
pub fn native_configuration(config: crate::Configuration) -> (r: NativeConfiguration)
    ensures
        r.ice_servers@ == config.ice_servers@,
        r.ice_transport_policy == config.ice_transport_policy,
        r.bind_address == config.sys.bind_address,
        r.port_range_begin == config.sys.port_range_begin,
        r.port_range_end == config.sys.port_range_end,
        r.enable_ice_tcp == config.sys.enable_ice_tcp,
        r.enable_ice_udp_mux == config.sys.enable_ice_udp_mux,
        r.disable_auto_negotiation == config.sys.disable_auto_negotiation,
        r.disable_fingerprint_verification == config.sys.disable_fingerprint_verification,
{
    let extras = config.sys;
    NativeConfiguration {
        ice_servers: config.ice_servers,
        ice_transport_policy: config.ice_transport_policy,
        bind_address: extras.bind_address,
        port_range_begin: extras.port_range_begin,
        port_range_end: extras.port_range_end,
        enable_ice_tcp: extras.enable_ice_tcp,
        enable_ice_udp_mux: extras.enable_ice_udp_mux,
        disable_auto_negotiation: extras.disable_auto_negotiation,
        disable_fingerprint_verification: extras.disable_fingerprint_verification,
    }
}

} // verus!
