//! The web backend's configuration, in the browser's shape.
use vstd::prelude::*;

use crate::ice::{ice_server_spec, parse_ice_server};
use crate::web::{Configuration, IceServer};

verus! {

/// What the browser is handed for a facade configuration: each ICE
/// server URL split into the browser's `{ urls, username, credential }`,
/// since libdatachannel takes credentials inline and the browser wants
/// them as separate fields.
pub fn web_configuration(config: &crate::Configuration) -> (r: Configuration)
    ensures
        r.ice_servers@.len() == config.ice_servers@.len(),
        forall|i: int|
            0 <= i < config.ice_servers@.len() ==> #[trigger] r.ice_servers@[i]@ == ice_server_spec(
                config.ice_servers@[i]@,
            ),
        r.ice_transport_policy == config.ice_transport_policy,
{
    let n: usize = config.ice_servers.len();
    let mut ice_servers: Vec<IceServer> = Vec::new();
    for i in 0..n
        invariant
            n == config.ice_servers@.len(),
            ice_servers@.len() == i,
            forall|j: int|
                0 <= j < i ==> #[trigger] ice_servers@[j]@ == ice_server_spec(
                    config.ice_servers@[j]@,
                ),
    {
        let parts = parse_ice_server(config.ice_servers[i].as_str());
        ice_servers.push(
            IceServer { urls: parts.urls, username: parts.username, credential: parts.credential },
        );
    }
    Configuration { ice_servers, ice_transport_policy: config.ice_transport_policy }
}

} // verus!
