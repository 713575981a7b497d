use super::types::{FnAddr, HostCall};
use crate::types::{GMLDouble, GMLString};
use vstd::prelude::*;

verus! {

/// The place of one native function of the host: empty until the function
/// is registered, then the address it was registered with.
#[derive(Debug, Copy, Clone, Eq, PartialEq, Structural)]
pub struct Binding {
    address: Option<FnAddr>,
}

impl View for Binding {
    type V = Option<FnAddr>;

    /// The registered address; `None` before registration.
    closed spec fn view(&self) -> Option<FnAddr> {
        self.address
    }
}

impl Binding {
    /// A binding that nothing is registered with.
    pub fn new() -> (binding: Binding)
        ensures
            binding@ is None,
    {
        Binding { address: None }
    }

    /// Registers `address`, in place of what was registered before.
    pub fn register(&mut self, address: FnAddr)
        ensures
            final(self)@ == Some(address),
    {
        self.address = Some(address);
    }

    /// Whether an address is registered.
    pub fn is_registered(&self) -> (registered: bool)
        ensures
            registered == (self@ is Some),
    {
        self.address.is_some()
    }

    /// The registered address.
    pub fn address(&self) -> (address: FnAddr)
        requires
            self@ is Some,
        ensures
            Some(address) == self@,
    {
        self.address.unwrap()
    }
}

/// The four native functions of the host that the maps are made, filled and
/// sent with.
#[derive(Debug, Copy, Clone, Eq, PartialEq, Structural)]
pub struct Registry {
    /// Raises an asynchronous event.
    pub event_perform_async: Binding,
    /// Creates a map.
    pub ds_map_create: Binding,
    /// Adds a number to a map.
    pub ds_map_add_double: Binding,
    /// Adds a string to a map.
    pub ds_map_add_string: Binding,
}

impl Registry {
    /// Whether all four functions are registered.
    pub open spec fn registered(&self) -> bool {
        &&& self.event_perform_async@ is Some
        &&& self.ds_map_create@ is Some
        &&& self.ds_map_add_double@ is Some
        &&& self.ds_map_add_string@ is Some
    }

    /// A registry that nothing is registered with.
    pub fn new() -> (registry: Registry)
        ensures
            registry.event_perform_async@ is None,
            registry.ds_map_create@ is None,
            registry.ds_map_add_double@ is None,
            registry.ds_map_add_string@ is None,
    {
        Registry {
            event_perform_async: Binding::new(),
            ds_map_create: Binding::new(),
            ds_map_add_double: Binding::new(),
            ds_map_add_string: Binding::new(),
        }
    }

    /// Whether all four functions are registered.
    pub fn is_registered(&self) -> (registered: bool)
        ensures
            registered == self.registered(),
    {
        self.event_perform_async.is_registered() && self.ds_map_create.is_registered()
            && self.ds_map_add_double.is_registered() && self.ds_map_add_string.is_registered()
    }

    /// The call that raises `event` with the map `map_id`.
    pub(crate) fn event_perform_async(&self, map_id: i32, event: i32) -> (call: HostCall)
        requires
            self.event_perform_async@ is Some,
        ensures
            call == (HostCall::EventPerformAsync {
                address: self.event_perform_async@.unwrap(),
                map_id,
                event,
            }),
    {
        HostCall::EventPerformAsync { address: self.event_perform_async.address(), map_id, event }
    }

    /// The call that creates a map.
    pub(crate) fn ds_map_create(&self, sentinel: i32) -> (call: HostCall)
        requires
            self.ds_map_create@ is Some,
        ensures
            call == (HostCall::DsMapCreate { address: self.ds_map_create@.unwrap(), sentinel }),
    {
        HostCall::DsMapCreate { address: self.ds_map_create.address(), sentinel }
    }

    /// The call that adds the number `value` to the map `map_id` under `key`.
    pub(crate) fn ds_map_add_double(&self, map_id: i32, key: GMLString, value: GMLDouble) -> (call: HostCall)
        requires
            self.ds_map_add_double@ is Some,
        ensures
            call == (HostCall::DsMapAddDouble {
                address: self.ds_map_add_double@.unwrap(),
                map_id,
                key,
                value,
            }),
    {
        HostCall::DsMapAddDouble { address: self.ds_map_add_double.address(), map_id, key, value }
    }

    /// The call that adds the string `value` to the map `map_id` under `key`.
    pub(crate) fn ds_map_add_string(&self, map_id: i32, key: GMLString, value: GMLString) -> (call: HostCall)
        requires
            self.ds_map_add_string@ is Some,
        ensures
            call == (HostCall::DsMapAddString {
                address: self.ds_map_add_string@.unwrap(),
                map_id,
                key,
                value,
            }),
    {
        HostCall::DsMapAddString { address: self.ds_map_add_string.address(), map_id, key, value }
    }
}

} // verus!
