use crate::types::{lemma_nothing_is_zero, GMLDouble, GMLNone, GMLString};
use vstd::std_specs::convert::FromSpec;
use vstd::prelude::*;

verus! {

/// The address of a native function of the host.
pub type FnAddr = usize;

/// One call into the host: which native function to enter, by its address,
/// and the arguments to pass. The variant fixes the signature that the
/// address is entered with.
#[derive(Debug, Eq, PartialEq)]
#[allow(inconsistent_fields)]
pub enum HostCall {
    /// `(map_id, event)`, nothing returned: raises the event and hands the
    /// map over to the host.
    EventPerformAsync { address: FnAddr, map_id: i32, event: i32 },
    /// `(sentinel, ...)`, returns the new map's identifier.
    DsMapCreate { address: FnAddr, sentinel: i32 },
    /// `(map_id, key, value)`, returns whether the entry was added.
    DsMapAddDouble { address: FnAddr, map_id: i32, key: GMLString, value: GMLDouble },
    /// `(map_id, key, value)`, returns whether the entry was added.
    DsMapAddString { address: FnAddr, map_id: i32, key: GMLString, value: GMLString },
}

/// What a [`HostCall`] says, with each string seen as the bytes it leads to.
#[allow(inconsistent_fields)]
pub enum HostCallView {
    EventPerformAsync { address: FnAddr, map_id: i32, event: i32 },
    DsMapCreate { address: FnAddr, sentinel: i32 },
    DsMapAddDouble { address: FnAddr, map_id: i32, key: Option<Seq<u8>>, value: GMLDouble },
    DsMapAddString { address: FnAddr, map_id: i32, key: Option<Seq<u8>>, value: Option<Seq<u8>> },
}

impl View for HostCall {
    type V = HostCallView;

    open spec fn view(&self) -> HostCallView {
        match *self {
            HostCall::EventPerformAsync { address, map_id, event } => HostCallView::EventPerformAsync {
                address,
                map_id,
                event,
            },
            HostCall::DsMapCreate { address, sentinel } => HostCallView::DsMapCreate { address, sentinel },
            HostCall::DsMapAddDouble { address, map_id, key, value } => HostCallView::DsMapAddDouble {
                address,
                map_id,
                key: key@,
                value,
            },
            HostCall::DsMapAddString { address, map_id, key, value } => HostCallView::DsMapAddString {
                address,
                map_id,
                key: key@,
                value: value@,
            },
        }
    }
}

/// The asynchronous events that the host can raise.
///
/// Each kind has a fixed integer code, given by [`EventType::code`]. The codes
/// fill the two ranges 60..=63 and 66..=76.
#[derive(Debug, Copy, Clone, Eq, PartialEq, Structural)]
pub enum EventType {
    WebImageLoad,
    WebSoundLoad,
    WebAsync,
    DialogAsync,
    WebIAP,
    WebCloud,
    WebNetworking,
    WebSteam,
    Social,
    PushNotification,
    AsyncSaveLoad,
    AudioRecording,
    AudioPlayback,
    SystemEvent,
    MessageEvent,
}

impl EventType {
    /// Whether `code` is the code of some event kind.
    pub open spec fn is_code(code: int) -> bool {
        60 <= code <= 63 || 66 <= code <= 76
    }

    /// The code of this event kind.
    pub open spec fn spec_code(self) -> int {
        match self {
            EventType::WebImageLoad => 60,
            EventType::WebSoundLoad => 61,
            EventType::WebAsync => 62,
            EventType::DialogAsync => 63,
            EventType::WebIAP => 66,
            EventType::WebCloud => 67,
            EventType::WebNetworking => 68,
            EventType::WebSteam => 69,
            EventType::Social => 70,
            EventType::PushNotification => 71,
            EventType::AsyncSaveLoad => 72,
            EventType::AudioRecording => 73,
            EventType::AudioPlayback => 74,
            EventType::SystemEvent => 75,
            EventType::MessageEvent => 76,
        }
    }

    /// The event kind that a code stands for: the kind with that code, or
    /// `Social` where no kind has it.
    pub open spec fn spec_from_code(code: int) -> EventType {
        if code == 60 {
            EventType::WebImageLoad
        } else if code == 61 {
            EventType::WebSoundLoad
        } else if code == 62 {
            EventType::WebAsync
        } else if code == 63 {
            EventType::DialogAsync
        } else if code == 66 {
            EventType::WebIAP
        } else if code == 67 {
            EventType::WebCloud
        } else if code == 68 {
            EventType::WebNetworking
        } else if code == 69 {
            EventType::WebSteam
        } else if code == 71 {
            EventType::PushNotification
        } else if code == 72 {
            EventType::AsyncSaveLoad
        } else if code == 73 {
            EventType::AudioRecording
        } else if code == 74 {
            EventType::AudioPlayback
        } else if code == 75 {
            EventType::SystemEvent
        } else if code == 76 {
            EventType::MessageEvent
        } else {
            EventType::Social
        }
    }

    /// The integer that the host knows this event kind by.
    pub fn code(self) -> (code: i32)
        ensures
            code == self.spec_code(),
            EventType::is_code(code as int),
    {
        match self {
            EventType::WebImageLoad => 60,
            EventType::WebSoundLoad => 61,
            EventType::WebAsync => 62,
            EventType::DialogAsync => 63,
            EventType::WebIAP => 66,
            EventType::WebCloud => 67,
            EventType::WebNetworking => 68,
            EventType::WebSteam => 69,
            EventType::Social => 70,
            EventType::PushNotification => 71,
            EventType::AsyncSaveLoad => 72,
            EventType::AudioRecording => 73,
            EventType::AudioPlayback => 74,
            EventType::SystemEvent => 75,
            EventType::MessageEvent => 76,
        }
    }

    /// The event kind with the given code. A number that is no kind's code
    /// gives `Social`; it is not an error.
    pub fn from_code(code: i32) -> (event: EventType)
        ensures
            event == EventType::spec_from_code(code as int),
            EventType::is_code(code as int) ==> event.spec_code() == code,
            !EventType::is_code(code as int) ==> event == EventType::Social,
    {
        match code {
            60 => EventType::WebImageLoad,
            61 => EventType::WebSoundLoad,
            62 => EventType::WebAsync,
            63 => EventType::DialogAsync,
            66 => EventType::WebIAP,
            67 => EventType::WebCloud,
            68 => EventType::WebNetworking,
            69 => EventType::WebSteam,
            70 => EventType::Social,
            71 => EventType::PushNotification,
            72 => EventType::AsyncSaveLoad,
            73 => EventType::AudioRecording,
            74 => EventType::AudioPlayback,
            75 => EventType::SystemEvent,
            76 => EventType::MessageEvent,
            _ => EventType::Social,
        }
    }
}

impl Default for EventType {
    /// `Social`, the kind that stands for every number that is no kind's code.
    fn default() -> (event: EventType)
        ensures
            event == EventType::Social,
    {
        EventType::Social
    }
}

impl From<GMLDouble> for EventType {
    /// The event kind that a number of the host's scripts stands for: the
    /// number is rounded toward zero, and the result taken as a code.
    fn from(value: GMLDouble) -> (event: EventType) {
        EventType::from_code(value.to_i32())
    }
}

impl vstd::std_specs::convert::FromSpecImpl<GMLDouble> for EventType {
    open spec fn obeys_from_spec() -> bool {
        true
    }

    open spec fn from_spec(value: GMLDouble) -> EventType {
        EventType::spec_from_code(value.spec_to_i32())
    }
}

/// A code that some event kind has leads back to a kind with that very code.
pub proof fn lemma_code_round_trip(code: int)
    requires
        EventType::is_code(code),
    ensures
        EventType::spec_from_code(code).spec_code() == code,
{
}

/// A number that no event kind has for its code leads to `Social`.
pub proof fn lemma_unknown_code_is_social(code: int)
    requires
        !EventType::is_code(code),
    ensures
        EventType::spec_from_code(code) == EventType::Social,
{
}

/// A number whose integer part is some kind's code stands for the kind with
/// that code. Any other number stands for `Social`, and so does the number
/// that stands for nothing.
pub proof fn lemma_number_to_kind(value: GMLDouble)
    ensures
        EventType::is_code(value.spec_to_i32()) ==> EventType::from_spec(value).spec_code()
            == value.spec_to_i32(),
        !EventType::is_code(value.spec_to_i32()) ==> EventType::from_spec(value) == EventType::Social,
        value.is_none() ==> EventType::from_spec(value) == EventType::Social,
{
    if value.is_none() {
        lemma_nothing_is_zero(value);
    }
}

/// Every event kind is found again by its code, and every code is one of
/// the fifteen between 60 and 63 or 66 and 76.
pub proof fn lemma_kind_round_trip(event: EventType)
    ensures
        EventType::is_code(event.spec_code()),
        EventType::spec_from_code(event.spec_code()) == event,
{
}

} // verus!
