//! Bindings that let a native extension raise asynchronous events in the host
//! runtime and hand it a key/value map with the event.
//!
//! The host owns four native entry points: one creates a map, two add an entry
//! to it, one fires an event with the map as its payload. This crate decides
//! *what* is to be called and *with which arguments*; it never jumps to an
//! address itself. Every operation yields a [`ds_map::HostCall`], a plain value
//! naming the entry point and its arguments, which the embedding code performs.

pub mod ds_map;
pub mod types;

use crate::ds_map::{DSMap, FnAddr, Registry};
use crate::types::{GMLDouble, GMLNone};
use vstd::prelude::*;

verus! {

/// What the extension does when the host has loaded it and hands over the
/// addresses of its four native functions: it registers them, each in place
/// of what was registered for it before, and answers with the number that
/// stands for nothing.
#[allow(non_snake_case)]
pub fn RegisterCallbacks(
    registry: &mut Registry,
    event_perform_async: FnAddr,
    ds_map_create: FnAddr,
    ds_map_add_double: FnAddr,
    ds_map_add_string: FnAddr,
) -> (nothing: GMLDouble)
    ensures
        final(registry).event_perform_async@ == Some(event_perform_async),
        final(registry).ds_map_create@ == Some(ds_map_create),
        final(registry).ds_map_add_double@ == Some(ds_map_add_double),
        final(registry).ds_map_add_string@ == Some(ds_map_add_string),
        final(registry).registered(),
        nothing.is_none(),
{
    DSMap::register_calls(
        registry,
        event_perform_async,
        ds_map_create,
        ds_map_add_double,
        ds_map_add_string,
    );
    GMLDouble::none()
}

} // verus!
