//! Watching the selections for changes through the compositor's data-control protocol.
use crate::text::{join2, join3, same_text};
use vstd::prelude::*;

verus! {

/// What the monitor reports.
#[derive(Clone, Copy, Debug, PartialEq, Eq, Structural)]
pub enum MonitorEvent {
    /// A selection changed.
    ClipboardChanged,
    /// The monitor stopped and will report no more.
    Failed,
}

/// A data-control protocol that a compositor may offer.
#[derive(Clone, Copy, Debug, PartialEq, Eq, Structural)]
pub enum ManagerKind {
    Ext,
    Wlr,
}

/// An object that the compositor offers.
#[derive(Debug, PartialEq, Eq)]
pub struct Global {
    pub name: u32,
    pub interface: String,
    pub version: u32,
}

/// The lowest seat version that the monitor can use; also the version it binds.
pub const SEAT_VERSION: u32 = 2;

/// Whether an offered object is a seat that the monitor can use.
pub open spec fn usable(global: Global, seat_interface: Seq<char>) -> bool {
    global.interface@ == seat_interface && global.version >= SEAT_VERSION
}

/// The names of the usable seats among some offered objects, in the order they are offered.
pub open spec fn seat_names(globals: Seq<Global>, seat_interface: Seq<char>) -> Seq<u32> {
    globals.filter(|global: Global| usable(global, seat_interface)).map_values(
        |global: Global| global.name,
    )
}

/// Selects the seats to watch. There must be one at least.
pub fn usable_seats(globals: &Vec<Global>, seat_interface: &str) -> (result: Result<
    Vec<u32>,
    String,
>)
    ensures
        match result {
            Ok(names) => names@ == seat_names(globals@, seat_interface@) && names@.len() > 0,
            Err(message) => seat_names(globals@, seat_interface@).len() == 0 && message@
                == "Wayland compositor has no seats"@,
        },
{
    let mut names: Vec<u32> = Vec::new();
    let mut index: usize = 0;
    proof {
        reveal(Seq::filter);
    }
    while index < globals.len()
        invariant
            index <= globals.len(),
            names@ == seat_names(globals@.take(index as int), seat_interface@),
        decreases globals.len() - index,
    {
        let global = &globals[index];
        proof {
            let longer = globals@.take(index + 1);
            assert(longer.drop_last() =~= globals@.take(index as int));
            assert(longer.last() == *global);
            reveal(Seq::filter);
        }
        if same_text(global.interface.as_str(), seat_interface) && global.version >= SEAT_VERSION {
            names.push(global.name);
        }
        index += 1;
        assert(names@ =~= seat_names(globals@.take(index as int), seat_interface@));
    }
    assert(globals@.take(globals@.len() as int) =~= globals@);
    if names.len() == 0 {
        return Err("Wayland compositor has no seats".to_owned());
    }
    Ok(names)
}

/// An event of a data-control device.
#[derive(Clone, Copy, Debug, PartialEq, Eq, Structural)]
pub enum DeviceEvent {
    Selection,
    PrimarySelection,
    Finished,
    Other,
}

/// What the monitor remembers between events.
#[derive(Debug, PartialEq, Eq)]
pub struct MonitorState {
    /// Whether the compositor has stopped a device.
    pub failed: bool,
}

impl MonitorState {
    /// A monitor that has seen no event.
    pub fn new() -> (state: Self)
        ensures
            !state.failed,
    {
        MonitorState { failed: false }
    }

    /// Takes an event of a device and says what to report.
    pub fn event(&mut self, event: DeviceEvent) -> (report: Option<MonitorEvent>)
        ensures
            report == (match event {
                DeviceEvent::Selection | DeviceEvent::PrimarySelection => Some(
                    MonitorEvent::ClipboardChanged,
                ),
                _ => None,
            }),
            final(self).failed == (old(self).failed || event is Finished),
    {
        match event {
            DeviceEvent::Selection | DeviceEvent::PrimarySelection => {
                Some(MonitorEvent::ClipboardChanged)
            },
            DeviceEvent::Finished => {
                self.failed = true;
                None
            },
            DeviceEvent::Other => None,
        }
    }

    /// Whether the monitor goes on after a round of events.
    pub fn after_dispatch(&self) -> (result: Result<(), String>)
        ensures
            result is Ok <==> !self.failed,
            result matches Err(message) ==> message@
                == "data-control device was stopped by the compositor"@,
    {
        if self.failed {
            Err("data-control device was stopped by the compositor".to_owned())
        } else {
            Ok(())
        }
    }
}

/// One thing that the monitor asks the connection to the compositor for.
#[derive(Debug, PartialEq, Eq)]
pub enum RunRequest {
    Connect,
    ReadGlobals,
    /// Bind a data-control protocol, in a version between the lowest and the highest.
    Bind { kind: ManagerKind, lowest: u32, highest: u32 },
    ListGlobals,
    /// Bind these seats, create a device for each, and wait until the compositor knows them.
    Watch { seats: Vec<u32> },
    /// Wait for events and hand them to the monitor.
    Dispatch,
}

/// The reply to a request of the monitor.
#[derive(Debug, PartialEq, Eq)]
pub enum RunReply {
    Done,
    Failed(String),
    Globals(Vec<Global>),
}

/// Where the monitor stands.
#[derive(Clone, Copy, Debug, PartialEq, Eq, Structural)]
pub enum MonitorRun {
    Connecting,
    ReadingGlobals,
    Binding(ManagerKind),
    ListingGlobals,
    Initializing,
    Watching,
}

/// How far the monitor has come. It never ends of its own accord: it asks for more, or it stops
/// for the reason given.
#[derive(Debug, PartialEq, Eq)]
pub enum RunProgress {
    Ask(MonitorRun, RunRequest),
    Stopped(String),
}

/// The request to bind a protocol: version 1 of the newer one, version 2 of the older one.
pub open spec fn bind_request(kind: ManagerKind) -> RunRequest {
    match kind {
        ManagerKind::Ext => RunRequest::Bind { kind, lowest: 1, highest: 1 },
        ManagerKind::Wlr => RunRequest::Bind { kind, lowest: 2, highest: 2 },
    }
}

fn ask_to_bind(kind: ManagerKind) -> (progress: RunProgress)
    ensures
        progress == RunProgress::Ask(MonitorRun::Binding(kind), bind_request(kind)),
{
    match kind {
        ManagerKind::Ext => RunProgress::Ask(
            MonitorRun::Binding(kind),
            RunRequest::Bind { kind, lowest: 1, highest: 1 },
        ),
        ManagerKind::Wlr => RunProgress::Ask(
            MonitorRun::Binding(kind),
            RunRequest::Bind { kind, lowest: 2, highest: 2 },
        ),
    }
}

/// Whether progress is that the monitor stops, and for this reason.
pub open spec fn stopped(progress: RunProgress, reason: Seq<char>) -> bool {
    progress matches RunProgress::Stopped(message) && message@ == reason
}

/// Starts the monitor.
pub fn run() -> (progress: RunProgress)
    ensures
        progress == RunProgress::Ask(MonitorRun::Connecting, RunRequest::Connect),
{
    RunProgress::Ask(MonitorRun::Connecting, RunRequest::Connect)
}

impl MonitorRun {
    /// Whether a reply is of the kind that the monitor waits for.
    pub open spec fn awaits(self, reply: RunReply) -> bool {
        (self is ListingGlobals) == (reply is Globals)
    }

    /// Whether `reply` is of the kind that the monitor waits for.
    pub fn accepts(&self, reply: &RunReply) -> (accepted: bool)
        ensures
            accepted == self.awaits(*reply),
    {
        match self {
            Self::ListingGlobals => matches!(reply, RunReply::Globals(_)),
            _ => !matches!(reply, RunReply::Globals(_)),
        }
    }

    /// Takes the reply to the request that the monitor waits for. `state` is what the monitor
    /// remembers of the events that were handed to it, and `seat_interface` the name of the
    /// interface that seats have.
    pub fn resume(self, reply: RunReply, state: &MonitorState, seat_interface: &str) -> (progress:
        RunProgress)
        requires
            self.awaits(reply),
        ensures
            match (self, reply) {
                (MonitorRun::Connecting, RunReply::Failed(error)) => stopped(
                    progress,
                    "could not connect to Wayland: "@ + error@,
                ),
                (MonitorRun::Connecting, _) => progress == RunProgress::Ask(
                    MonitorRun::ReadingGlobals,
                    RunRequest::ReadGlobals,
                ),
                (MonitorRun::ReadingGlobals, RunReply::Failed(error)) => stopped(
                    progress,
                    "could not read Wayland globals: "@ + error@,
                ),
                (MonitorRun::ReadingGlobals, _) => progress == RunProgress::Ask(
                    MonitorRun::Binding(ManagerKind::Ext),
                    bind_request(ManagerKind::Ext),
                ),
                (MonitorRun::Binding(ManagerKind::Ext), RunReply::Failed(_)) => progress
                    == RunProgress::Ask(
                    MonitorRun::Binding(ManagerKind::Wlr),
                    bind_request(ManagerKind::Wlr),
                ),
                (MonitorRun::Binding(ManagerKind::Wlr), RunReply::Failed(_)) => stopped(
                    progress,
                    "compositor does not support ext-data-control or wlr-data-control version 2"@,
                ),
                (MonitorRun::Binding(_), _) => progress == RunProgress::Ask(
                    MonitorRun::ListingGlobals,
                    RunRequest::ListGlobals,
                ),
                (MonitorRun::ListingGlobals, RunReply::Globals(globals)) => {
                    let names = seat_names(globals@, seat_interface@);
                    if names.len() == 0 {
                        stopped(progress, "Wayland compositor has no seats"@)
                    } else {
                        progress matches RunProgress::Ask(
                            MonitorRun::Initializing,
                            RunRequest::Watch { seats },
                        ) && seats@ == names
                    }
                },
                (MonitorRun::Initializing, RunReply::Failed(error)) => stopped(
                    progress,
                    "could not initialize clipboard event monitor: "@ + error@,
                ),
                (MonitorRun::Initializing, _) => progress == RunProgress::Ask(
                    MonitorRun::Watching,
                    RunRequest::Dispatch,
                ),
                (MonitorRun::Watching, RunReply::Failed(error)) => stopped(
                    progress,
                    "Wayland communication failed: "@ + error@,
                ),
                (MonitorRun::Watching, _) => if state.failed {
                    stopped(progress, "data-control device was stopped by the compositor"@)
                } else {
                    progress == RunProgress::Ask(MonitorRun::Watching, RunRequest::Dispatch)
                },
                _ => true,
            },
    {
        match reply {
            RunReply::Failed(error) => match self {
                Self::Connecting => RunProgress::Stopped(
                    join2("could not connect to Wayland: ", error.as_str()),
                ),
                Self::ReadingGlobals => RunProgress::Stopped(
                    join2("could not read Wayland globals: ", error.as_str()),
                ),
                Self::Binding(ManagerKind::Ext) => ask_to_bind(ManagerKind::Wlr),
                Self::Binding(ManagerKind::Wlr) => RunProgress::Stopped(
                    "compositor does not support ext-data-control or wlr-data-control version 2".to_owned(),
                ),
                Self::Initializing => RunProgress::Stopped(
                    join2("could not initialize clipboard event monitor: ", error.as_str()),
                ),
                _ => RunProgress::Stopped(join2("Wayland communication failed: ", error.as_str())),
            },
            RunReply::Globals(globals) => match usable_seats(&globals, seat_interface) {
                Ok(seats) => RunProgress::Ask(Self::Initializing, RunRequest::Watch { seats }),
                Err(message) => RunProgress::Stopped(message),
            },
            RunReply::Done => match self {
                Self::Connecting => RunProgress::Ask(Self::ReadingGlobals, RunRequest::ReadGlobals),
                Self::ReadingGlobals => ask_to_bind(ManagerKind::Ext),
                Self::Binding(_) => RunProgress::Ask(Self::ListingGlobals, RunRequest::ListGlobals),
                Self::Initializing => RunProgress::Ask(Self::Watching, RunRequest::Dispatch),
                _ => match state.after_dispatch() {
                    Ok(()) => RunProgress::Ask(Self::Watching, RunRequest::Dispatch),
                    Err(message) => RunProgress::Stopped(message),
                },
            },
        }
    }
}

/// What is logged when the monitor stops.
pub fn stopped_message(error: &str) -> (message: String)
    ensures
        message@ == "clipboard event monitor stopped: "@ + error@ + "; falling back to polling"@,
{
    join3("clipboard event monitor stopped: ", error, "; falling back to polling")
}

} // verus!
