//! The map that travels with an asynchronous event.

mod internals;
mod types;

pub use internals::{Binding, Registry};
pub use types::{
    lemma_code_round_trip, lemma_kind_round_trip, lemma_number_to_kind, lemma_unknown_code_is_social, EventType,
    FnAddr, HostCall, HostCallView,
};

use crate::types::{has_nul, is_first_nul, GMLDouble, GMLString, GMLStringWrite, NulError};
use vstd::prelude::*;
use vstd::string::StringSliceAdditionalSpecFns;

verus! {

/// A map of the host, known by its identifier.
///
/// The map lives in the host. Every operation here yields the [`HostCall`]
/// that carries it out there, and nothing of the map's contents is kept on
/// this side. Sending the map with [`DSMap::dispatch`] uses the handle up:
/// from then on the map is the host's.
#[derive(Debug, Eq, PartialEq, Structural)]
pub struct DSMap {
    map_id: i32,
}

impl View for DSMap {
    type V = i32;

    /// The identifier that the host knows the map by.
    closed spec fn view(&self) -> i32 {
        self.map_id
    }
}

impl DSMap {
    /// Registers the host's four native functions, each in place of what was
    /// registered for it before.
    pub fn register_calls(
        registry: &mut Registry,
        event_perform_async: FnAddr,
        ds_map_create: FnAddr,
        ds_map_add_double: FnAddr,
        ds_map_add_string: FnAddr,
    )
        ensures
            final(registry).event_perform_async@ == Some(event_perform_async),
            final(registry).ds_map_create@ == Some(ds_map_create),
            final(registry).ds_map_add_double@ == Some(ds_map_add_double),
            final(registry).ds_map_add_string@ == Some(ds_map_add_string),
            final(registry).registered(),
    {
        registry.event_perform_async.register(event_perform_async);
        registry.ds_map_create.register(ds_map_create);
        registry.ds_map_add_double.register(ds_map_add_double);
        registry.ds_map_add_string.register(ds_map_add_string);
    }

    /// The call that makes the host create a map. The identifier that the
    /// call returns becomes a handle through [`DSMap::new_existing`].
    pub fn new(registry: &Registry) -> (call: HostCall)
        requires
            registry.ds_map_create@ is Some,
        ensures
            call@ == (HostCallView::DsMapCreate {
                address: registry.ds_map_create@.unwrap(),
                sentinel: 0,
            }),
    {
        registry.ds_map_create(0)
    }

    /// A handle to the map that the host knows as `map_id`. Nothing checks
    /// that there is such a map.
    pub fn new_existing(map_id: i32) -> (map: DSMap)
        ensures
            map@ == map_id,
    {
        DSMap { map_id }
    }

    /// The identifier that the host knows the map by.
    pub fn map_id(&self) -> (map_id: i32)
        ensures
            map_id == self@,
    {
        self.map_id
    }

    /// The call that adds the number `value` to the map under `key`.
    ///
    /// Fails, with no call to make, where `key` holds a zero byte. The call
    /// returns whether the host added the entry; either way the map stays
    /// usable.
    pub fn add_double(&mut self, registry: &Registry, key: &str, value: GMLDouble) -> (call: Result<
        HostCall,
        NulError,
    >)
        requires
            registry.ds_map_add_double@ is Some,
        ensures
            final(self)@ == old(self)@,
            call is Err <==> key@.contains('\0'),
            match call {
                Ok(c) => {
                    &&& !has_nul(key.spec_bytes())
                    &&& c@ == (HostCallView::DsMapAddDouble {
                        address: registry.ds_map_add_double@.unwrap(),
                        map_id: old(self)@,
                        key: Some(key.spec_bytes().push(0u8)),
                        value,
                    })
                },
                Err(e) => is_first_nul(key.spec_bytes(), e.nul_position() as int),
            },
    {
        match key.into_gml() {
            Ok(key) => Ok(registry.ds_map_add_double(self.map_id, key, value)),
            Err(e) => Err(e),
        }
    }

    /// The call that adds the text `value` to the map under `key`.
    ///
    /// Fails, with no call to make, where `key` or `value` holds a zero byte:
    /// the error tells where the first one stands in `key`, or in `value`
    /// where `key` has none. The call returns whether the host added the
    /// entry; either way the map stays usable.
    pub fn add_string(&mut self, registry: &Registry, key: &str, value: &str) -> (call: Result<
        HostCall,
        NulError,
    >)
        requires
            registry.ds_map_add_string@ is Some,
        ensures
            final(self)@ == old(self)@,
            call is Err <==> key@.contains('\0') || value@.contains('\0'),
            match call {
                Ok(c) => {
                    &&& !has_nul(key.spec_bytes())
                    &&& !has_nul(value.spec_bytes())
                    &&& c@ == (HostCallView::DsMapAddString {
                        address: registry.ds_map_add_string@.unwrap(),
                        map_id: old(self)@,
                        key: Some(key.spec_bytes().push(0u8)),
                        value: Some(value.spec_bytes().push(0u8)),
                    })
                },
                Err(e) => if has_nul(key.spec_bytes()) {
                    is_first_nul(key.spec_bytes(), e.nul_position() as int)
                } else {
                    is_first_nul(value.spec_bytes(), e.nul_position() as int)
                },
            },
    {
        let key = match key.into_gml() {
            Ok(key) => key,
            Err(e) => {
                return Err(e);
            },
        };
        match value.into_gml() {
            Ok(value) => Ok(registry.ds_map_add_string(self.map_id, key, value)),
            Err(e) => Err(e),
        }
    }

    /// The call that adds the string `value` to the map under `key`, the
    /// string passed on as it is: null if it is null, with no byte of it
    /// looked at.
    ///
    /// Fails, with no call to make, where `key` holds a zero byte. The call
    /// returns whether the host added the entry; either way the map stays
    /// usable.
    pub fn add_raw(&mut self, registry: &Registry, key: &str, value: GMLString) -> (call: Result<
        HostCall,
        NulError,
    >)
        requires
            registry.ds_map_add_string@ is Some,
        ensures
            final(self)@ == old(self)@,
            call is Err <==> key@.contains('\0'),
            match call {
                Ok(c) => {
                    &&& !has_nul(key.spec_bytes())
                    &&& c@ == (HostCallView::DsMapAddString {
                        address: registry.ds_map_add_string@.unwrap(),
                        map_id: old(self)@,
                        key: Some(key.spec_bytes().push(0u8)),
                        value: value@,
                    })
                },
                Err(e) => is_first_nul(key.spec_bytes(), e.nul_position() as int),
            },
    {
        match key.into_gml() {
            Ok(key) => Ok(registry.ds_map_add_string(self.map_id, key, value)),
            Err(e) => Err(e),
        }
    }

    /// The call that raises `event` in the host with this map as its
    /// payload. The handle is used up: the host destroys the map when the
    /// event has run.
    pub fn dispatch(self, registry: &Registry, event: EventType) -> (call: HostCall)
        requires
            registry.event_perform_async@ is Some,
        ensures
            call@ == (HostCallView::EventPerformAsync {
                address: registry.event_perform_async@.unwrap(),
                map_id: self@,
                event: event.spec_code() as i32,
            }),
    {
        registry.event_perform_async(self.map_id, event.code())
    }
}

} // verus!
