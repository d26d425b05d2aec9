use crate::text::{option_option_text, option_text};
use vstd::prelude::*;

verus! {

/// The changes to make to the configuration of the bridge.
#[derive(Clone, Debug, PartialEq, Eq)]
pub struct Modifier {
    pub name: Option<String>,
    pub ip_address: Option<String>,
    pub netmask: Option<String>,
    pub gateway: Option<String>,
    pub dhcp: Option<bool>,
    pub proxy_port: Option<u16>,
    pub proxy_address: Option<Option<String>>,
    pub touchlink: Option<bool>,
    pub zigbee_channel: Option<u8>,
    pub current_time: Option<String>,
    pub timezone: Option<String>,
}

/// What a change of the configuration of the bridge holds, as plain values.
pub struct ModifierView {
    pub name: Option<Seq<char>>,
    pub ip_address: Option<Seq<char>>,
    pub netmask: Option<Seq<char>>,
    pub gateway: Option<Seq<char>>,
    pub dhcp: Option<bool>,
    pub proxy_port: Option<u16>,
    pub proxy_address: Option<Option<Seq<char>>>,
    pub touchlink: Option<bool>,
    pub zigbee_channel: Option<u8>,
    pub current_time: Option<Seq<char>>,
    pub timezone: Option<Seq<char>>,
}

impl View for Modifier {
    type V = ModifierView;

    open spec fn view(&self) -> ModifierView {
        ModifierView {
            name: option_text(self.name),
            ip_address: option_text(self.ip_address),
            netmask: option_text(self.netmask),
            gateway: option_text(self.gateway),
            dhcp: self.dhcp,
            proxy_port: self.proxy_port,
            proxy_address: option_option_text(self.proxy_address),
            touchlink: self.touchlink,
            zigbee_channel: self.zigbee_channel,
            current_time: option_text(self.current_time),
            timezone: option_text(self.timezone),
        }
    }
}

impl Modifier {
    /// Whether no field is set: applying the record changes nothing.
    pub open spec fn is_unset(&self) -> bool {
        &&& self.name is None
        &&& self.ip_address is None
        &&& self.netmask is None
        &&& self.gateway is None
        &&& self.dhcp is None
        &&& self.proxy_port is None
        &&& self.proxy_address is None
        &&& self.touchlink is None
        &&& self.zigbee_channel is None
        &&& self.current_time is None
        &&& self.timezone is None
    }

    /// A record with no field set.
    pub fn new() -> (r: Self)
        ensures
            r.is_unset(),
    {
        Self {
            name: None,
            ip_address: None,
            netmask: None,
            gateway: None,
            dhcp: None,
            proxy_port: None,
            proxy_address: None,
            touchlink: None,
            zigbee_channel: None,
            current_time: None,
            timezone: None,
        }
    }

    /// Whether no field is set.
    pub fn is_empty(&self) -> (r: bool)
        ensures
            r == self.is_unset(),
    {
        self.name.is_none()
            && self.ip_address.is_none()
            && self.netmask.is_none()
            && self.gateway.is_none()
            && self.dhcp.is_none()
            && self.proxy_port.is_none()
            && self.proxy_address.is_none()
            && self.touchlink.is_none()
            && self.zigbee_channel.is_none()
            && self.current_time.is_none()
            && self.timezone.is_none()
    }

    /// Renames the bridge.
    pub fn name(self, value: &str) -> (r: Self)
        ensures
            r@ == (ModifierView { name: Some(value@), ..self@ }),
            !r.is_unset(),
    {
        Self { name: Some(value.to_owned()), ..self }
    }

    /// Sets the IP address.
    pub fn ip_address(self, value: &str) -> (r: Self)
        ensures
            r@ == (ModifierView { ip_address: Some(value@), ..self@ }),
            !r.is_unset(),
    {
        Self { ip_address: Some(value.to_owned()), ..self }
    }

    /// Sets the network mask.
    pub fn netmask(self, value: &str) -> (r: Self)
        ensures
            r@ == (ModifierView { netmask: Some(value@), ..self@ }),
            !r.is_unset(),
    {
        Self { netmask: Some(value.to_owned()), ..self }
    }

    /// Sets the address of the gateway.
    pub fn gateway(self, value: &str) -> (r: Self)
        ensures
            r@ == (ModifierView { gateway: Some(value@), ..self@ }),
            !r.is_unset(),
    {
        Self { gateway: Some(value.to_owned()), ..self }
    }

    /// Sets whether the address comes from DHCP.
    pub fn dhcp(self, value: bool) -> (r: Self)
        ensures
            r@ == (ModifierView { dhcp: Some(value), ..self@ }),
            !r.is_unset(),
    {
        Self { dhcp: Some(value), ..self }
    }

    /// Sets the port of the proxy; 0 stands for no proxy.
    pub fn proxy_port(self, value: u16) -> (r: Self)
        ensures
            r@ == (ModifierView { proxy_port: Some(value), ..self@ }),
            !r.is_unset(),
    {
        Self { proxy_port: Some(value), ..self }
    }

    /// Sets the address of the proxy; `None` stands for no proxy.
    pub fn proxy_address(self, value: Option<String>) -> (r: Self)
        ensures
            r@ == (ModifierView { proxy_address: Some(option_text(value)), ..self@ }),
            !r.is_unset(),
    {
        Self { proxy_address: Some(value), ..self }
    }

    /// Asks the bridge to take in the nearest lamp.
    pub fn touchlink(self) -> (r: Self)
        ensures
            r@ == (ModifierView { touchlink: Some(true), ..self@ }),
            !r.is_unset(),
    {
        Self { touchlink: Some(true), ..self }
    }

    /// Sets the ZigBee channel.
    pub fn zigbee_channel(self, value: u8) -> (r: Self)
        ensures
            r@ == (ModifierView { zigbee_channel: Some(value), ..self@ }),
            !r.is_unset(),
    {
        Self { zigbee_channel: Some(value), ..self }
    }

    /// Sets the time of the bridge.
    pub fn current_time(self, value: &str) -> (r: Self)
        ensures
            r@ == (ModifierView { current_time: Some(value@), ..self@ }),
            !r.is_unset(),
    {
        Self { current_time: Some(value.to_owned()), ..self }
    }

    /// Sets the time zone.
    pub fn timezone(self, value: &str) -> (r: Self)
        ensures
            r@ == (ModifierView { timezone: Some(value@), ..self@ }),
            !r.is_unset(),
    {
        Self { timezone: Some(value.to_owned()), ..self }
    }
}

} // verus!
