//! Progress observers for synchronized directories.
//!
//! A directory is observed by telling the progress sink of the run which
//! path to watch. Without a sink nothing is observed, and nothing fails.

use vstd::prelude::*;
use vstd::string::StringExecFns;
use crate::assembly::Mode;
use crate::config::{SyncedDir, UiEvent};
use crate::roles::Role;

verus! {

/// `flume::Sender`, the sending half of a channel, carried through as an
/// opaque value.
#[verifier::external_type_specification]
#[verifier::external_body]
#[verifier::reject_recursive_types(T)]
pub struct ExSender<T>(flume::Sender<T>);

/// Calls `flume::Sender::send` and tells whether the event was taken. The
/// send fails once every receiver of the channel is gone, which no argument
/// shows, so nothing is claimed of the result. On a bounded channel that is
/// full the call waits for room.
#[verifier::external_body]
pub(crate) fn announce(sink: &flume::Sender<UiEvent>, event: UiEvent) -> (delivered: bool) {
    sink.send(event).is_ok()
}

/// Why a directory is not observed.
#[derive(Clone, Copy, Debug, PartialEq, Eq, Structural)]
pub enum MonitorError {
    /// The progress sink takes no more events.
    SinkClosed,
}

impl MonitorError {
    pub open spec fn message_spec(self) -> Seq<char> {
        "progress sink is closed"@
    }

    pub fn message(&self) -> (r: String)
        ensures
            r@ == self.message_spec(),
    {
        String::from_str("progress sink is closed")
    }
}

/// The directory once the sink has been told of it: observed where the
/// event was delivered, an error where it was not.
pub open spec fn observed_spec(dir: SyncedDir, delivered: bool) -> Result<SyncedDir, MonitorError> {
    if delivered {
        Ok(SyncedDir { monitored: true, ..dir })
    } else {
        Err(MonitorError::SinkClosed)
    }
}

pub fn observed(dir: SyncedDir, delivered: bool) -> (r: Result<SyncedDir, MonitorError>)
    ensures
        r == observed_spec(dir, delivered),
{
    if delivered {
        let mut dir = dir;
        dir.monitored = true;
        Ok(dir)
    } else {
        Err(MonitorError::SinkClosed)
    }
}

/// What the sink is told of a directory: the role that it plays, and the
/// path to watch.
pub fn monitor_event(dir: &SyncedDir, role: Role) -> (event: UiEvent)
    ensures
        event matches UiEvent::MonitorDir { role: told, path } && told == role && path@
            == dir.watched_spec(),
{
    UiEvent::MonitorDir { role, path: dir.watched() }
}

/// Registers an observer for `dir` in the role `role`. Without a sink the
/// directory comes back as it is. With one, the sink is told to watch the
/// directory, and the result says whether it took the event.
pub fn monitor_count(dir: SyncedDir, role: Role, sink: &Option<flume::Sender<UiEvent>>) -> (r:
    Result<SyncedDir, MonitorError>)
    ensures
        sink is None ==> r == Ok::<SyncedDir, MonitorError>(dir),
        sink is Some ==> r == observed_spec(dir, true) || r == observed_spec(dir, false),
{
    match sink {
        None => Ok(dir),
        Some(sender) => {
            let event = monitor_event(&dir, role);
            let delivered = announce(sender, event);
            observed(dir, delivered)
        },
    }
}

/// Whether the directory of a role gets an observer: every one does, but
/// for the tools of a command-line run.
pub open spec fn monitored_spec(mode: Mode, role: Role) -> bool {
    !(mode == Mode::Cli && role == Role::Tools)
}

#[verifier::when_used_as_spec(monitored_spec)]
pub fn monitored(mode: Mode, role: Role) -> (b: bool)
    ensures
        b == monitored_spec(mode, role),
{
    !(mode == Mode::Cli && role == Role::Tools)
}

} // verus!
