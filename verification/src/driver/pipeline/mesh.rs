//! How often, and how far apart, network PDUs and publications are
//! repeated.
use vstd::prelude::*;
use crate::model::foundation::configuration::network_transmit::NetworkTransmitConfig;
use crate::model::foundation::configuration::relay::RelayConfig;

verus! {

/// How often a network PDU is sent, and the milliseconds between sends.
#[derive(PartialEq, Eq, Structural, Clone, Copy, Debug)]
pub struct NetworkRetransmitDetails {
    pub count: u8,
    pub interval_ms: u64,
}

impl From<&RelayConfig> for NetworkRetransmitDetails {
    /// The relay retransmit count, and ten milliseconds for each interval
    /// step and one more.
    fn from(config: &RelayConfig) -> (d: Self) {
        NetworkRetransmitDetails {
            count: config.relay_retransmit_count,
            interval_ms: (config.relay_retransmit_interval_steps as u64 + 1) * 10,
        }
    }
}

impl vstd::std_specs::convert::FromSpecImpl<&RelayConfig> for NetworkRetransmitDetails {
    open spec fn obeys_from_spec() -> bool {
        true
    }

    open spec fn from_spec(config: &RelayConfig) -> NetworkRetransmitDetails {
        NetworkRetransmitDetails {
            count: config.relay_retransmit_count,
            interval_ms: ((config.relay_retransmit_interval_steps as u64 + 1) * 10) as u64,
        }
    }
}

impl From<&NetworkTransmitConfig> for NetworkRetransmitDetails {
    /// The network retransmit count, and ten milliseconds for each interval
    /// step and one more.
    fn from(config: &NetworkTransmitConfig) -> (d: Self) {
        NetworkRetransmitDetails {
            count: config.network_retransmit_count,
            interval_ms: (config.network_retransmit_interval_steps as u64 + 1) * 10,
        }
    }
}

impl vstd::std_specs::convert::FromSpecImpl<&NetworkTransmitConfig> for NetworkRetransmitDetails {
    open spec fn obeys_from_spec() -> bool {
        true
    }

    open spec fn from_spec(config: &NetworkTransmitConfig) -> NetworkRetransmitDetails {
        NetworkRetransmitDetails {
            count: config.network_retransmit_count,
            interval_ms: ((config.network_retransmit_interval_steps as u64 + 1) * 10) as u64,
        }
    }
}

/// How often a publication is repeated, and the milliseconds between
/// repeats.
#[derive(PartialEq, Eq, Structural, Clone, Copy, Debug)]
pub struct PublishRetransmitDetails {
    pub count: u8,
    pub interval_ms: u64,
}

impl PublishRetransmitDetails {
    /// The publish retransmit count, and fifty milliseconds for each
    /// interval step and one more.
    pub fn from_settings(publish_retransmit_count: u8, publish_retransmit_interval_steps: u8) -> (d: Self)
        ensures
            d.count == publish_retransmit_count,
            d.interval_ms == (publish_retransmit_interval_steps + 1) * 50,
    {
        PublishRetransmitDetails {
            count: publish_retransmit_count,
            interval_ms: (publish_retransmit_interval_steps as u64 + 1) * 50,
        }
    }
}

} // verus!
