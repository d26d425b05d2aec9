use crate::model::config::{Modifier, ModifierView};
use crate::model::{modifications_view, Modification, ModificationView};
use crate::text::option_text;
use vstd::prelude::*;

verus! {

/// What can be asked about the configuration of the bridge.
#[derive(Clone, Debug, PartialEq, Eq)]
pub enum Arg {
    /// Modifies attributes of the bridge configuration.
    Modify(SetConfig),
    /// Prints the bridge configuration.
    Get,
}

/// The changes to make to the configuration of the bridge. Addresses are
/// held as they are written.
#[derive(Clone, Debug, PartialEq, Eq)]
pub struct SetConfig {
    /// Sets the name of the bridge.
    pub name: Option<String>,
    /// Sets the ip address of the bridge.
    pub ip_address: Option<String>,
    /// Sets the network mask of the bridge.
    pub netmask: Option<String>,
    /// Sets the gateway ip address of the bridge.
    pub gateway: Option<String>,
    /// Activates DHCP for the bridge.
    pub dhcp: bool,
    /// Deactivates DHCP for the bridge.
    pub no_dhcp: bool,
    /// Sets the proxy port of the bridge.
    pub proxy_port: Option<u16>,
    /// Sets the proxy address of the bridge.
    pub proxy_address: Option<String>,
    /// Deactives the proxy on the bridge.
    pub no_proxy: bool,
    /// Adds the closest lamp to the ZigBee network.
    pub touchlink: bool,
    /// Sets the ZigBee channel.
    pub zigbee_channel: Option<u8>,
    /// Sets the current time of the bridge.
    pub current_time: Option<String>,
    /// Sets the timezone of the bridge.
    pub timezone: Option<String>,
}

impl SetConfig {
    /// The changes that the arguments ask for. Of `dhcp` and `no_dhcp`, the
    /// first counts where both are given. Where `no_proxy` is given, the
    /// proxy is switched off whatever port and address are given: the
    /// address is cleared and the port is 0.
    pub open spec fn requested_changes(&self) -> ModifierView {
        ModifierView {
            name: option_text(self.name),
            ip_address: option_text(self.ip_address),
            netmask: option_text(self.netmask),
            gateway: option_text(self.gateway),
            dhcp: if self.dhcp {
                Some(true)
            } else if self.no_dhcp {
                Some(false)
            } else {
                None
            },
            proxy_port: if self.no_proxy {
                Some(0u16)
            } else {
                self.proxy_port
            },
            proxy_address: if self.no_proxy {
                Some(None)
            } else {
                match self.proxy_address {
                    Some(v) => Some(Some(v@)),
                    None => None,
                }
            },
            touchlink: if self.touchlink {
                Some(true)
            } else {
                None
            },
            zigbee_channel: self.zigbee_channel,
            current_time: option_text(self.current_time),
            timezone: option_text(self.timezone),
        }
    }

    /// Whether the arguments ask for no change.
    pub open spec fn asks_nothing(&self) -> bool {
        &&& self.name is None
        &&& self.ip_address is None
        &&& self.netmask is None
        &&& self.gateway is None
        &&& !self.dhcp && !self.no_dhcp
        &&& self.proxy_port is None
        &&& self.proxy_address is None
        &&& !self.no_proxy
        &&& !self.touchlink
        &&& self.zigbee_channel is None
        &&& self.current_time is None
        &&& self.timezone is None
    }

    /// The submissions that the arguments ask for: the changes, if there are
    /// any.
    pub open spec fn requested_modifications(&self) -> Seq<ModificationView> {
        if self.asks_nothing() {
            seq![]
        } else {
            seq![ModificationView::Config(self.requested_changes())]
        }
    }

    /// The changes to the configuration.
    pub fn to_modifier(&self) -> (r: Modifier)
        ensures
            r@ == self.requested_changes(),
            r.is_unset() == self.asks_nothing(),
    {
        let ghost want = self.requested_changes();
        let mut modifier = Modifier::new();
        if let Some(v) = &self.name {
            modifier = modifier.name(v.as_str());
        }
        if let Some(v) = &self.ip_address {
            modifier = modifier.ip_address(v.as_str());
        }
        if let Some(v) = &self.netmask {
            modifier = modifier.netmask(v.as_str());
        }
        if let Some(v) = &self.gateway {
            modifier = modifier.gateway(v.as_str());
        }
        if self.dhcp {
            modifier = modifier.dhcp(true);
        } else if self.no_dhcp {
            modifier = modifier.dhcp(false);
        }
        if let Some(v) = self.proxy_port {
            modifier = modifier.proxy_port(v);
        }
        if let Some(v) = &self.proxy_address {
            modifier = modifier.proxy_address(Some(v.clone()));
        }
        if self.no_proxy {
            modifier = modifier.proxy_address(None);
            modifier = modifier.proxy_port(0);
        }
        if self.touchlink {
            modifier = modifier.touchlink();
        }
        if let Some(v) = self.zigbee_channel {
            modifier = modifier.zigbee_channel(v);
        }
        if let Some(v) = &self.current_time {
            modifier = modifier.current_time(v.as_str());
        }
        if let Some(v) = &self.timezone {
            modifier = modifier.timezone(v.as_str());
        }
        modifier
    }
}

/// The submissions to make for the configuration: none if nothing changes.
pub fn set(arg: &SetConfig) -> (r: Vec<Modification>)
    ensures
        modifications_view(r@) == arg.requested_modifications(),
{
    let mut modifications: Vec<Modification> = Vec::new();
    let modifier = arg.to_modifier();
    if !modifier.is_empty() {
        modifications.push(Modification::Config(modifier));
    }
    assert(modifications_view(modifications@) =~= arg.requested_modifications());
    modifications
}

/// Nothing is submitted exactly when the arguments ask for no change.
pub proof fn lemma_submits_nothing_when_nothing_is_asked(arg: SetConfig)
    ensures
        arg.requested_modifications().len() == 0 <==> arg.asks_nothing(),
{
}

} // verus!
