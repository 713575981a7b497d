use async_load::ds_map::{Binding, DSMap, EventType, FnAddr, HostCall, Registry};
use async_load::types::{GMLDouble, GMLNone, GMLString, GMLStringRead, GMLStringWrite};

const EVENT_PERFORM_ASYNC: FnAddr = 0x1000;
const DS_MAP_CREATE: FnAddr = 0x2000;
const DS_MAP_ADD_DOUBLE: FnAddr = 0x3000;
const DS_MAP_ADD_STRING: FnAddr = 0x4000;

fn double(value: f64) -> GMLDouble {
    GMLDouble::from_bits(value.to_bits())
}

fn registry() -> Registry {
    let mut registry = Registry::new();
    DSMap::register_calls(&mut registry, EVENT_PERFORM_ASYNC, DS_MAP_CREATE, DS_MAP_ADD_DOUBLE, DS_MAP_ADD_STRING);
    registry
}

/// What a stand-in for one of the host's functions was entered with.
#[derive(Debug, PartialEq)]
enum Recorded {
    Create(i32),
    AddDouble(i32, String, f64),
    AddString(i32, String, String),
    FireEvent(i32, i32),
}

/// What the host hands back from a call.
#[derive(Debug, PartialEq)]
enum Reply {
    Nothing,
    MapId(i32),
    Added(bool),
}

/// Stand-ins for the host's four functions, which record how they were entered.
struct Host {
    calls: Vec<Recorded>,
    next_map_id: i32,
    add_double_succeeds: bool,
    add_string_succeeds: bool,
}

impl Host {
    fn new() -> Host {
        Host { calls: Vec::new(), next_map_id: 17, add_double_succeeds: true, add_string_succeeds: true }
    }

    fn text(string: &GMLString) -> String {
        string.as_str().unwrap().to_owned()
    }

    fn perform(&mut self, call: HostCall) -> Reply {
        match call {
            HostCall::DsMapCreate { address, sentinel } => {
                assert_eq!(address, DS_MAP_CREATE);
                self.calls.push(Recorded::Create(sentinel));
                Reply::MapId(self.next_map_id)
            }
            HostCall::DsMapAddDouble { address, map_id, key, value } => {
                assert_eq!(address, DS_MAP_ADD_DOUBLE);
                self.calls.push(Recorded::AddDouble(map_id, Host::text(&key), f64::from_bits(value.to_bits())));
                Reply::Added(self.add_double_succeeds)
            }
            HostCall::DsMapAddString { address, map_id, key, value } => {
                assert_eq!(address, DS_MAP_ADD_STRING);
                self.calls.push(Recorded::AddString(map_id, Host::text(&key), Host::text(&value)));
                Reply::Added(self.add_string_succeeds)
            }
            HostCall::EventPerformAsync { address, map_id, event } => {
                assert_eq!(address, EVENT_PERFORM_ASYNC);
                self.calls.push(Recorded::FireEvent(map_id, event));
                Reply::Nothing
            }
        }
    }

    fn create(&mut self, registry: &Registry) -> DSMap {
        match self.perform(DSMap::new(registry)) {
            Reply::MapId(map_id) => DSMap::new_existing(map_id),
            reply => panic!("create returned {reply:?}"),
        }
    }
}

#[test]
fn create_add_and_dispatch_reach_the_host_in_order() {
    let registry = registry();
    let mut host = Host::new();

    let mut map = host.create(&registry);
    let id = map.map_id();
    assert_eq!(id, 17);

    let call = map.add_double(&registry, "key1", double(21.37)).unwrap();
    assert_eq!(host.perform(call), Reply::Added(true));
    let call = map.add_string(&registry, "key2", "Hello from Rust!").unwrap();
    assert_eq!(host.perform(call), Reply::Added(true));
    let call = map.dispatch(&registry, EventType::from_code(70));
    assert_eq!(host.perform(call), Reply::Nothing);

    assert_eq!(
        host.calls,
        vec![
            Recorded::Create(0),
            Recorded::AddDouble(id, String::from("key1"), 21.37),
            Recorded::AddString(id, String::from("key2"), String::from("Hello from Rust!")),
            Recorded::FireEvent(id, 70),
        ]
    );
}

#[test]
fn failed_add_leaves_the_map_usable() {
    let registry = registry();
    let mut host = Host::new();
    host.add_double_succeeds = false;

    let mut map = host.create(&registry);
    let id = map.map_id();

    let call = map.add_double(&registry, "key1", double(21.37)).unwrap();
    assert_eq!(host.perform(call), Reply::Added(false));
    assert_eq!(map.map_id(), id);

    let call = map.add_string(&registry, "key2", "Hello from Rust!").unwrap();
    assert_eq!(host.perform(call), Reply::Added(true));
    let call = map.dispatch(&registry, EventType::Social);
    assert_eq!(host.perform(call), Reply::Nothing);

    assert_eq!(
        host.calls,
        vec![
            Recorded::Create(0),
            Recorded::AddDouble(id, String::from("key1"), 21.37),
            Recorded::AddString(id, String::from("key2"), String::from("Hello from Rust!")),
            Recorded::FireEvent(id, 70),
        ]
    );
}

#[test]
fn new_asks_the_create_function_with_zero() {
    assert_eq!(DSMap::new(&registry()), HostCall::DsMapCreate { address: DS_MAP_CREATE, sentinel: 0 });
}

#[test]
fn new_existing_wraps_the_identifier() {
    assert_eq!(DSMap::new_existing(5).map_id(), 5);
    assert_eq!(DSMap::new_existing(-1).map_id(), -1);
    assert_eq!(DSMap::new_existing(5), DSMap::new_existing(5));
    assert_ne!(DSMap::new_existing(5), DSMap::new_existing(6));
}

#[test]
fn add_double_builds_the_call() {
    let mut map = DSMap::new_existing(3);
    let call = map.add_double(&registry(), "key1", double(21.37)).unwrap();
    assert_eq!(
        call,
        HostCall::DsMapAddDouble {
            address: DS_MAP_ADD_DOUBLE,
            map_id: 3,
            key: "key1".into_gml().unwrap(),
            value: GMLDouble::from_bits(0x4035_5eb8_51eb_851f),
        }
    );
    match call {
        HostCall::DsMapAddDouble { key, .. } => assert_eq!(key.as_raw(), Some(&b"key1\0"[..])),
        other => panic!("not an add: {other:?}"),
    }
}

#[test]
fn add_string_builds_the_call() {
    let mut map = DSMap::new_existing(3);
    let call = map.add_string(&registry(), "key2", "Hello from Rust!").unwrap();
    match call {
        HostCall::DsMapAddString { address, map_id, key, value } => {
            assert_eq!(address, DS_MAP_ADD_STRING);
            assert_eq!(map_id, 3);
            assert_eq!(key.as_raw(), Some(&b"key2\0"[..]));
            assert_eq!(value.as_raw(), Some(&b"Hello from Rust!\0"[..]));
        }
        other => panic!("not an add: {other:?}"),
    }
}

#[test]
fn add_raw_passes_the_string_on_untouched() {
    let mut map = DSMap::new_existing(3);
    let memory = b"raw\0and more".to_vec();
    let call = map.add_raw(&registry(), "key3", GMLString::from_raw(memory.clone()).unwrap()).unwrap();
    match call {
        HostCall::DsMapAddString { address, map_id, key, value } => {
            assert_eq!(address, DS_MAP_ADD_STRING);
            assert_eq!(map_id, 3);
            assert_eq!(key.as_raw(), Some(&b"key3\0"[..]));
            assert_eq!(value.as_raw(), Some(&memory[..]));
        }
        other => panic!("not an add: {other:?}"),
    }

    let call = map.add_raw(&registry(), "key4", GMLString::none()).unwrap();
    match call {
        HostCall::DsMapAddString { key, value, .. } => {
            assert_eq!(key.as_raw(), Some(&b"key4\0"[..]));
            assert!(value.is_null());
        }
        other => panic!("not an add: {other:?}"),
    }
}

#[test]
fn zero_byte_in_a_key_stops_the_call() {
    let registry = registry();
    let mut host = Host::new();
    let mut map = host.create(&registry);

    assert_eq!(map.add_double(&registry, "async\0load", double(1.0)).unwrap_err().nul_position(), 5);
    assert_eq!(map.add_string(&registry, "k\0", "value").unwrap_err().nul_position(), 1);
    assert_eq!(map.add_raw(&registry, "\0", GMLString::none()).unwrap_err().nul_position(), 0);
    assert_eq!(host.calls, vec![Recorded::Create(0)]);

    // The map is as usable as before.
    let call = map.add_double(&registry, "key1", double(1.0)).unwrap();
    assert_eq!(host.perform(call), Reply::Added(true));
    let call = map.dispatch(&registry, EventType::Social);
    host.perform(call);
    assert_eq!(
        host.calls,
        vec![Recorded::Create(0), Recorded::AddDouble(17, String::from("key1"), 1.0), Recorded::FireEvent(17, 70)]
    );
}

#[test]
fn zero_byte_in_a_value_stops_the_call() {
    let mut map = DSMap::new_existing(3);
    assert_eq!(map.add_string(&registry(), "key", "async\0load").unwrap_err().nul_position(), 5);
    // The key is looked at first.
    assert_eq!(map.add_string(&registry(), "a\0", "bcd\0").unwrap_err().nul_position(), 1);
    assert_eq!(map.add_string(&registry(), "a", "bcd\0").unwrap_err().nul_position(), 3);
}

#[test]
fn dispatch_sends_the_code_of_the_event() {
    let registry = registry();
    for (event, code) in [(EventType::WebImageLoad, 60), (EventType::Social, 70), (EventType::MessageEvent, 76)] {
        assert_eq!(
            DSMap::new_existing(9).dispatch(&registry, event),
            HostCall::EventPerformAsync { address: EVENT_PERFORM_ASYNC, map_id: 9, event: code }
        );
    }
}

#[test]
fn empty_map_can_be_dispatched() {
    let registry = registry();
    let mut host = Host::new();
    let map = host.create(&registry);
    let call = map.dispatch(&registry, EventType::AsyncSaveLoad);
    host.perform(call);
    assert_eq!(host.calls, vec![Recorded::Create(0), Recorded::FireEvent(17, 72)]);
}

#[test]
fn registry_starts_empty() {
    let registry = Registry::new();
    assert!(!registry.is_registered());
    assert!(!registry.event_perform_async.is_registered());
    assert!(!registry.ds_map_create.is_registered());
    assert!(!registry.ds_map_add_double.is_registered());
    assert!(!registry.ds_map_add_string.is_registered());
    assert!(!Binding::new().is_registered());
}

#[test]
fn register_calls_fills_all_four_bindings() {
    let registry = registry();
    assert!(registry.is_registered());
    assert_eq!(registry.event_perform_async.address(), EVENT_PERFORM_ASYNC);
    assert_eq!(registry.ds_map_create.address(), DS_MAP_CREATE);
    assert_eq!(registry.ds_map_add_double.address(), DS_MAP_ADD_DOUBLE);
    assert_eq!(registry.ds_map_add_string.address(), DS_MAP_ADD_STRING);
}

#[test]
fn registering_again_overwrites() {
    let mut registry = registry();
    DSMap::register_calls(&mut registry, 1, 2, 3, 4);
    assert_eq!(registry.event_perform_async.address(), 1);
    assert_eq!(registry.ds_map_create.address(), 2);
    assert_eq!(registry.ds_map_add_double.address(), 3);
    assert_eq!(registry.ds_map_add_string.address(), 4);
    assert_eq!(DSMap::new(&registry), HostCall::DsMapCreate { address: 2, sentinel: 0 });
}

#[test]
fn one_binding_is_registered_at_a_time() {
    let mut registry = Registry::new();
    registry.ds_map_create.register(DS_MAP_CREATE);
    assert!(registry.ds_map_create.is_registered());
    assert!(!registry.is_registered());
    assert_eq!(DSMap::new(&registry), HostCall::DsMapCreate { address: DS_MAP_CREATE, sentinel: 0 });
    registry.ds_map_create.register(0);
    assert_eq!(registry.ds_map_create.address(), 0);
}

#[test]
fn register_callbacks_registers_and_answers_with_nothing() {
    let mut registry = Registry::new();
    let answer = async_load::RegisterCallbacks(&mut registry, 10, 20, 30, 40);
    assert_eq!(answer, GMLDouble::none());
    assert_eq!(f64::from_bits(answer.to_bits()), 0.0);
    assert!(registry.is_registered());
    assert_eq!(registry.event_perform_async.address(), 10);
    assert_eq!(registry.ds_map_create.address(), 20);
    assert_eq!(registry.ds_map_add_double.address(), 30);
    assert_eq!(registry.ds_map_add_string.address(), 40);
}
