//! One WebRTC data-channel API over libdatachannel natively and the
//! browser on wasm: the part of it that decides things.
//!
//! Most of the types are the backends' own, shaped alike on purpose, so
//! the facade re-exports them rather than mapping. Two things need real
//! work: the [`Configuration`], whose native-only options live behind
//! [`platform::native::ConfigurationExt`] and which each backend is
//! handed in its own shape ([`sys`]); and the browser backend ([`web`]),
//! which bends the browser into libdatachannel's synchronous shape.
pub mod ice;
pub mod marker;
pub mod platform;
pub mod sys;
mod text;
pub mod web;

pub use web::{
    DataChannelOptions, Description, Error, GatheringState, Reliability, SdpType, State,
    TransportPolicy,
};

use vstd::prelude::*;

use sys::native::{no_extras, ConfigExtras};

verus! {

/// Peer connection configuration — the part both backends honour.
///
/// Native-only options are reached through
/// [`platform::native::ConfigurationExt`], which keeps them out of code
/// that has to compile for both targets.
#[derive(Debug, Clone)]
pub struct Configuration {
    /// ICE servers as URL strings, in libdatachannel's format:
    /// `stun:host:port`, or `turn:username:password@host:port` with the
    /// credentials inline. The web backend splits them back apart, since
    /// the browser wants them as separate fields.
    pub ice_servers: Vec<String>,
    pub ice_transport_policy: TransportPolicy,
    /// Backend-specific extras, meant to be set through the platform
    /// extension traits rather than directly.
    pub sys: ConfigExtras,
}

impl Configuration {
    /// An empty configuration.
    ///
    /// Set the public fields on the result, and reach native-only options
    /// through [`platform::native::ConfigurationExt`].
    pub fn new() -> (r: Self)
        ensures
            r.ice_servers@.len() == 0,
            r.ice_transport_policy == TransportPolicy::All,
            r.sys == no_extras(),
    {
        Configuration {
            ice_servers: Vec::new(),
            ice_transport_policy: TransportPolicy::All,
            sys: ConfigExtras {
                bind_address: None,
                port_range_begin: 0,
                port_range_end: 0,
                enable_ice_tcp: false,
                enable_ice_udp_mux: false,
                disable_auto_negotiation: false,
                disable_fingerprint_verification: false,
            },
        }
    }
}

impl Default for Configuration {
    fn default() -> (r: Self)
        ensures
            r.ice_servers@.len() == 0,
            r.ice_transport_policy == TransportPolicy::All,
            r.sys == no_extras(),
    {
        Configuration::new()
    }
}

} // verus!
