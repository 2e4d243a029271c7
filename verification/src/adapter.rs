use vstd::prelude::*;
use crate::bus_item::{item_entry, item_list, item_text, item_variant, BusItem};
use crate::dbus_bluez::DbusBluez;
use crate::error::BlueZError;

verus! {

/// How far the adapter has been brought towards discovering.
#[derive(Debug, Clone, Copy, PartialEq, Eq, Structural)]
pub enum InitState {
    /// Nothing was done yet.
    Start,
    /// `Powered` is being read for the first time.
    ReadingPowered,
    /// `Powered` is being set to true.
    SwitchingOn,
    /// `Powered` is being read again, after it was set.
    ReadingPoweredAgain,
    /// The discovery filter is being set.
    SettingFilter,
    /// `StartDiscovery` is being called.
    StartingDiscovery,
    /// The adapter is given time to settle.
    Settling,
    /// `Discovering` is being read.
    ReadingDiscovering,
    /// The adapter discovers.
    Done,
    /// The adapter could not be brought to discover.
    Failed,
}

/// What came back from the adapter.
#[derive(Debug, Clone, Copy, PartialEq, Eq, Structural)]
pub enum InitEvent {
    /// Nothing yet: the first step is asked for.
    Begin,
    /// The property that was read.
    Flag(bool),
    /// The call, the write or the wait has ended.
    Completed,
}

/// Why the adapter could not be brought to discover.
#[derive(Debug, Clone, Copy, PartialEq, Eq, Structural)]
pub enum InitFault {
    /// `Powered` stayed false after it was set.
    NotPowered,
    /// `Discovering` was false after discovery was started.
    NotDiscovering,
    /// Something came back that was not asked for.
    Unexpected,
}

/// What to do next with the adapter.
#[derive(Debug, Clone, Copy, PartialEq, Eq, Structural)]
pub enum InitAction {
    /// Read the property `Powered`.
    GetPowered,
    /// Set the property `Powered` to true.
    SetPowered,
    /// Call `SetDiscoveryFilter` with the filter of `set_discovery_filter`.
    SetDiscoveryFilter,
    /// Call `StartDiscovery`.
    StartDiscovery,
    /// Wait for this many milliseconds.
    Sleep(u64),
    /// Read the property `Discovering`.
    GetDiscovering,
    /// Nothing: the adapter discovers.
    Finish,
    /// Give up.
    Fail(InitFault),
}

/// The milliseconds that the adapter is given between the start of
/// discovery and the check that it discovers.
pub const SETTLE_MILLIS: u64 = 500;

/// The next state and what to do, for a state and what came back in it.
///
/// The adapter is switched on only where it is off, and must then be on.
/// The filter is set, discovery is started, and after the settling time the
/// adapter must be discovering. Whatever was not asked for ends in failure.
pub open spec fn init_step(state: InitState, event: InitEvent) -> (InitState, InitAction) {
    match (state, event) {
        (InitState::Start, InitEvent::Begin) => (InitState::ReadingPowered, InitAction::GetPowered),
        (InitState::ReadingPowered, InitEvent::Flag(true)) => (
            InitState::SettingFilter,
            InitAction::SetDiscoveryFilter,
        ),
        (InitState::ReadingPowered, InitEvent::Flag(false)) => (
            InitState::SwitchingOn,
            InitAction::SetPowered,
        ),
        (InitState::SwitchingOn, InitEvent::Completed) => (
            InitState::ReadingPoweredAgain,
            InitAction::GetPowered,
        ),
        (InitState::ReadingPoweredAgain, InitEvent::Flag(true)) => (
            InitState::SettingFilter,
            InitAction::SetDiscoveryFilter,
        ),
        (InitState::ReadingPoweredAgain, InitEvent::Flag(false)) => (
            InitState::Failed,
            InitAction::Fail(InitFault::NotPowered),
        ),
        (InitState::SettingFilter, InitEvent::Completed) => (
            InitState::StartingDiscovery,
            InitAction::StartDiscovery,
        ),
        (InitState::StartingDiscovery, InitEvent::Completed) => (
            InitState::Settling,
            InitAction::Sleep(SETTLE_MILLIS),
        ),
        (InitState::Settling, InitEvent::Completed) => (
            InitState::ReadingDiscovering,
            InitAction::GetDiscovering,
        ),
        (InitState::ReadingDiscovering, InitEvent::Flag(true)) => (
            InitState::Done,
            InitAction::Finish,
        ),
        (InitState::ReadingDiscovering, InitEvent::Flag(false)) => (
            InitState::Failed,
            InitAction::Fail(InitFault::NotDiscovering),
        ),
        (InitState::Done, _) => (InitState::Done, InitAction::Finish),
        _ => (InitState::Failed, InitAction::Fail(InitFault::Unexpected)),
    }
}

/// The state after a list of events, from `state` on.
pub open spec fn init_run(state: InitState, events: Seq<InitEvent>) -> InitState
    decreases events.len(),
{
    if events.len() == 0 {
        state
    } else {
        init_step(init_run(state, events.drop_last()), events.last()).0
    }
}

/// Whether `Powered` was read as true in one of the two states that read
/// it, on the way that `events` lead from `state`.
pub open spec fn saw_power(state: InitState, events: Seq<InitEvent>) -> bool {
    exists|i: int|
        0 <= i < events.len() && events[i] == InitEvent::Flag(true) && (init_run(
            state,
            #[trigger] events.take(i),
        ) == InitState::ReadingPowered || init_run(state, events.take(i))
            == InitState::ReadingPoweredAgain)
}

/// Whatever comes back, the adapter counts as discovering only after
/// `Powered` was read as true and, as the last thing, `Discovering` was.
pub proof fn lemma_done_only_when_powered_and_discovering(events: Seq<InitEvent>)
    requires
        init_run(InitState::Start, events) == InitState::Done,
    ensures
        saw_power(InitState::Start, events),
        exists|i: int|
            0 <= i < events.len() && events[i] == InitEvent::Flag(true) && init_run(
                InitState::Start,
                #[trigger] events.take(i),
            ) == InitState::ReadingDiscovering,
{
    lemma_reached(events);
}

/// Where the states past the power check are reached, `Powered` was read as
/// true; where `Done` is reached, `Discovering` was.
proof fn lemma_reached(events: Seq<InitEvent>)
    ensures
        ({
            let s = init_run(InitState::Start, events);
            &&& (s == InitState::SettingFilter || s == InitState::StartingDiscovery || s
                == InitState::Settling || s == InitState::ReadingDiscovering || s
                == InitState::Done) ==> saw_power(InitState::Start, events)
            &&& s == InitState::Done ==> exists|i: int|
                0 <= i < events.len() && events[i] == InitEvent::Flag(true) && init_run(
                    InitState::Start,
                    #[trigger] events.take(i),
                ) == InitState::ReadingDiscovering
        }),
    decreases events.len(),
{
    if events.len() > 0 {
        let front = events.drop_last();
        let n = front.len() as int;
        lemma_reached(front);
        assert(events.take(n) =~= front);
        let before = init_run(InitState::Start, front);
        let s = init_run(InitState::Start, events);
        assert forall|i: int| 0 <= i <= n implies #[trigger] front.take(i) == events.take(i) by {
            assert(front.take(i) =~= events.take(i));
        }
        if s == InitState::SettingFilter || s == InitState::StartingDiscovery || s
            == InitState::Settling || s == InitState::ReadingDiscovering || s == InitState::Done {
            if before == InitState::ReadingPowered || before == InitState::ReadingPoweredAgain {
                assert(events[n] == InitEvent::Flag(true));
                assert(init_run(InitState::Start, events.take(n)) == before);
            } else {
                assert(saw_power(InitState::Start, front));
                let i = choose|i: int|
                    0 <= i < front.len() && front[i] == InitEvent::Flag(true) && (init_run(
                        InitState::Start,
                        #[trigger] front.take(i),
                    ) == InitState::ReadingPowered || init_run(InitState::Start, front.take(i))
                        == InitState::ReadingPoweredAgain);
                assert(front.take(i) == events.take(i));
                assert(events[i] == InitEvent::Flag(true));
            }
        }
        if s == InitState::Done {
            if before == InitState::ReadingDiscovering {
                assert(events[n] == InitEvent::Flag(true));
                assert(init_run(InitState::Start, events.take(n)) == before);
            } else {
                assert(before == InitState::Done);
                let i = choose|i: int|
                    0 <= i < front.len() && front[i] == InitEvent::Flag(true) && init_run(
                        InitState::Start,
                        #[trigger] front.take(i),
                    ) == InitState::ReadingDiscovering;
                assert(front.take(i) == events.take(i));
                assert(events[i] == InitEvent::Flag(true));
            }
        }
    }
}

/// The message of the error for each way in which bringing the adapter to
/// discover can fail.
pub open spec fn fault_message(fault: InitFault) -> Seq<char> {
    match fault {
        InitFault::NotPowered => "The bluetooth interface is not powered on!"@,
        InitFault::NotDiscovering => "Can't set bluetooth to discover mode"@,
        InitFault::Unexpected => "Unexpected answer from the bluetooth interface"@,
    }
}

impl InitFault {
    /// The error that reports the fault.
    pub fn error(&self) -> (r: BlueZError)
        ensures
            r@ == fault_message(*self),
    {
        match self {
            InitFault::NotPowered => BlueZError::new(
                "The bluetooth interface is not powered on!".to_owned(),
            ),
            InitFault::NotDiscovering => BlueZError::new(
                "Can't set bluetooth to discover mode".to_owned(),
            ),
            InitFault::Unexpected => BlueZError::new(
                "Unexpected answer from the bluetooth interface".to_owned(),
            ),
        }
    }
}

/// Whether a bus value is the discovery filter: a dictionary of two
/// entries, `UUIDs` with a variant around an empty list and `Transport`
/// with a variant around the text `le`.
pub open spec fn is_discovery_filter(item: BusItem) -> bool {
    &&& item_list(item) is Some
    &&& item_list(item).unwrap().len() == 2
    &&& is_filter_entry(item_list(item).unwrap()[0], "UUIDs"@)
    &&& is_filter_entry(item_list(item).unwrap()[1], "Transport"@)
    &&& item_list(filter_value(item_list(item).unwrap()[0])) == Some(Seq::<BusItem>::empty())
    &&& item_text(filter_value(item_list(item).unwrap()[1])) == Some("le"@)
}

/// Whether a bus value is a dictionary entry from the text `key` to a
/// variant.
pub open spec fn is_filter_entry(item: BusItem, key: Seq<char>) -> bool {
    &&& item_entry(item) is Some
    &&& item_text(item_entry(item).unwrap().0) == Some(key)
    &&& item_variant(item_entry(item).unwrap().1) is Some
}

/// The value inside the variant of a filter entry.
pub open spec fn filter_value(item: BusItem) -> BusItem {
    item_variant(item_entry(item).unwrap().1).unwrap()
}

impl DbusBluez {
    /// One step of bringing the adapter to discover: what to do next, for
    /// what came back from the last thing done. The caller does it and
    /// comes back with the outcome, until the action is `Finish` or `Fail`.
    pub fn initialize(&self, state: InitState, event: InitEvent) -> (r: (InitState, InitAction))
        ensures
            r == init_step(state, event),
    {
        match (state, event) {
            (InitState::Start, InitEvent::Begin) => (
                InitState::ReadingPowered,
                InitAction::GetPowered,
            ),
            (InitState::ReadingPowered, InitEvent::Flag(b)) => self.poweron_interface(b, false),
            (InitState::SwitchingOn, InitEvent::Completed) => (
                InitState::ReadingPoweredAgain,
                InitAction::GetPowered,
            ),
            (InitState::ReadingPoweredAgain, InitEvent::Flag(b)) => self.poweron_interface(b, true),
            (InitState::SettingFilter, InitEvent::Completed) => (
                InitState::StartingDiscovery,
                InitAction::StartDiscovery,
            ),
            (InitState::StartingDiscovery, InitEvent::Completed) => (
                InitState::Settling,
                InitAction::Sleep(SETTLE_MILLIS),
            ),
            (InitState::Settling, InitEvent::Completed) => (
                InitState::ReadingDiscovering,
                InitAction::GetDiscovering,
            ),
            (InitState::ReadingDiscovering, InitEvent::Flag(b)) => self.start_discovering(b),
            (InitState::Done, _) => (InitState::Done, InitAction::Finish),
            _ => (InitState::Failed, InitAction::Fail(InitFault::Unexpected)),
        }
    }

    /// What follows a reading of `Powered`: on to the filter where the
    /// adapter is on; else one attempt to switch it on, and failure where
    /// that attempt was made already.
    pub fn poweron_interface(&self, is_powered: bool, switched_on: bool) -> (r: (
        InitState,
        InitAction,
    ))
        ensures
            r == (if is_powered {
                (InitState::SettingFilter, InitAction::SetDiscoveryFilter)
            } else if switched_on {
                (InitState::Failed, InitAction::Fail(InitFault::NotPowered))
            } else {
                (InitState::SwitchingOn, InitAction::SetPowered)
            }),
    {
        if is_powered {
            (InitState::SettingFilter, InitAction::SetDiscoveryFilter)
        } else if switched_on {
            (InitState::Failed, InitAction::Fail(InitFault::NotPowered))
        } else {
            (InitState::SwitchingOn, InitAction::SetPowered)
        }
    }

    /// What follows a reading of `Discovering` after discovery was started.
    pub fn start_discovering(&self, is_discovering: bool) -> (r: (InitState, InitAction))
        ensures
            r == (if is_discovering {
                (InitState::Done, InitAction::Finish)
            } else {
                (InitState::Failed, InitAction::Fail(InitFault::NotDiscovering))
            }),
    {
        if is_discovering {
            (InitState::Done, InitAction::Finish)
        } else {
            (InitState::Failed, InitAction::Fail(InitFault::NotDiscovering))
        }
    }

    /// The discovery filter to send with `SetDiscoveryFilter`: no UUIDs,
    /// and low energy as the only transport.
    pub fn set_discovery_filter(&self) -> (r: BusItem)
        ensures
            is_discovery_filter(r),
    {
        let uuid_entry = BusItem::DictEntry(
            Box::new(BusItem::Str("UUIDs".to_owned())),
            Box::new(BusItem::Variant(Box::new(BusItem::Array(Vec::new())))),
        );
        let transport_entry = BusItem::DictEntry(
            Box::new(BusItem::Str("Transport".to_owned())),
            Box::new(BusItem::Variant(Box::new(BusItem::Str("le".to_owned())))),
        );
        let mut entries: Vec<BusItem> = Vec::new();
        entries.push(uuid_entry);
        entries.push(transport_entry);
        BusItem::Array(entries)
    }
}

} // verus!
