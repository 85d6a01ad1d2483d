//! Native-only options.
//!
//! Everything here is native-only because no browser exposes it — not
//! because the web backend hasn't got round to it. Pinning local ICE
//! credentials, skipping DTLS fingerprint verification, and fixing a UDP
//! port range are all deliberately unavailable to web content, and a
//! transport that needs them is a native transport.
use vstd::prelude::*;

use crate::sys::native::{ConfigExtras, IpAddress};

verus! {

/// Native-only knobs on [`crate::Configuration`].
pub trait ConfigurationExt {
    /// Bind to a specific address, and/or pin the local UDP port range.
    ///
    /// A fixed range is how a peer can be reached without signaling:
    /// the other side already knows where to look. `(port, port)` pins a
    /// single port.
    fn set_bind(&mut self, addr: Option<IpAddress>, port_range_begin: u16, port_range_end: u16);

    /// Multiplex connections onto one UDP port.
    fn set_enable_ice_udp_mux(&mut self, value: bool);

    /// Gather TCP ICE candidates as well as UDP.
    fn set_enable_ice_tcp(&mut self, value: bool);

    /// Don't auto-generate an offer when a data channel is created.
    fn set_disable_auto_negotiation(&mut self, value: bool);

    /// Skip the DTLS fingerprint check. Only meaningful when the remote
    /// description was fabricated locally rather than received.
    fn set_disable_fingerprint_verification(&mut self, value: bool);
}

impl ConfigurationExt for crate::Configuration {
    fn set_bind(&mut self, addr: Option<IpAddress>, port_range_begin: u16, port_range_end: u16)
        ensures
            final(self).sys == (ConfigExtras {
                bind_address: addr,
                port_range_begin,
                port_range_end,
                ..old(self).sys
            }),
            final(self).ice_servers@ == old(self).ice_servers@,
            final(self).ice_transport_policy == old(self).ice_transport_policy,
    {
        self.sys.bind_address = addr;
        self.sys.port_range_begin = port_range_begin;
        self.sys.port_range_end = port_range_end;
    }

    fn set_enable_ice_udp_mux(&mut self, value: bool)
        ensures
            final(self).sys == (ConfigExtras { enable_ice_udp_mux: value, ..old(self).sys }),
            final(self).ice_servers@ == old(self).ice_servers@,
            final(self).ice_transport_policy == old(self).ice_transport_policy,
    {
        self.sys.enable_ice_udp_mux = value;
    }

    fn set_enable_ice_tcp(&mut self, value: bool)
        ensures
            final(self).sys == (ConfigExtras { enable_ice_tcp: value, ..old(self).sys }),
            final(self).ice_servers@ == old(self).ice_servers@,
            final(self).ice_transport_policy == old(self).ice_transport_policy,
    {
        self.sys.enable_ice_tcp = value;
    }

    fn set_disable_auto_negotiation(&mut self, value: bool)
        ensures
            final(self).sys == (ConfigExtras {
                disable_auto_negotiation: value,
                ..old(self).sys
            }),
            final(self).ice_servers@ == old(self).ice_servers@,
            final(self).ice_transport_policy == old(self).ice_transport_policy,
    {
        self.sys.disable_auto_negotiation = value;
    }

    fn set_disable_fingerprint_verification(&mut self, value: bool)
        ensures
            final(self).sys == (ConfigExtras {
                disable_fingerprint_verification: value,
                ..old(self).sys
            }),
            final(self).ice_servers@ == old(self).ice_servers@,
            final(self).ice_transport_policy == old(self).ice_transport_policy,
    {
        self.sys.disable_fingerprint_verification = value;
    }
}

} // verus!
