//! The single-slot file-watch session.
//!
//! At most one watch is live per manager.  Starting a new watch first tears
//! the old session down unconditionally; setting the new one up is
//! best-effort and leaves the manager idle when it fails.  The backend
//! delivers raw filesystem events to a handler that relays only
//! modification events, each as one notification carrying the path the
//! caller asked to watch, into the channel the caller supplied.

use vstd::prelude::*;
use vstd::string::StringExecFns;
use std::sync::mpsc::Sender;

verus! {

#[verifier::external_type_specification]
#[verifier::external_body]
pub struct ExRecommendedWatcher(notify::RecommendedWatcher);

#[verifier::external_type_specification]
#[verifier::external_body]
pub struct ExEvent(notify::Event);

#[verifier::external_type_specification]
#[verifier::external_body]
pub struct ExNotifyError(notify::Error);

#[verifier::external_type_specification]
#[verifier::external_body]
#[verifier::reject_recursive_types(T)]
pub struct ExSender<T>(Sender<T>);

/// Relies on `notify::EventKind::is_modify`: true exactly for
/// `EventKind::Modify` events; creation, removal, access and the rest are
/// not modifications.
#[verifier::external_body]
fn event_is_modify(event: &notify::Event) -> bool {
    event.kind.is_modify()
}

/// Relies on `std::sync::mpsc::Sender::send`: delivers `message` to the
/// receiving end of the channel; when the receiver is gone the message is
/// dropped and nothing else happens.
#[verifier::external_body]
fn send_notification(sink: &Sender<String>, message: String) {
    let _ = sink.send(message);
}

/// One raw event from the watch backend.  Only modification events are
/// relayed, each as one notification carrying `path`, the path the caller
/// asked to watch; other events and backend errors are dropped and end
/// nothing.
fn relay_raw_event(result: Result<notify::Event, notify::Error>, sink: &Sender<String>, path: &String) {
    match result {
        Ok(event) => {
            if event_is_modify(&event) {
                send_notification(sink, path.clone());
            }
        },
        Err(_) => {},
    }
}

/// Relies on `notify::recommended_watcher`: on success the returned watcher
/// is live and hands every raw event for its watched paths to the given
/// handler, here `relay_raw_event` over `sink` and `path`; dropping the
/// watcher releases the watch.
#[verifier::external_body]
fn new_watcher_for(path: String, sink: Sender<String>) -> (r: Result<
    notify::RecommendedWatcher,
    notify::Error,
>) {
    notify::recommended_watcher(
        move |result: Result<notify::Event, notify::Error>|
            relay_raw_event(result, &sink, &path),
    )
}

/// Relies on `notify::Watcher::watch`: on success the watcher begins
/// delivering the filesystem events for `path`, without recursion.
#[verifier::external_body]
fn watch_target(watcher: &mut notify::RecommendedWatcher, path: &str) -> (r: Result<
    (),
    notify::Error,
>) {
    notify::Watcher::watch(
        watcher,
        std::path::Path::new(path),
        notify::RecursiveMode::NonRecursive,
    )
}

/// Relies on the `Display` impl of `notify::Error` to describe the failure.
#[verifier::external_body]
fn notify_error_message(e: &notify::Error) -> (r: String) {
    format!("{}", e)
}

/// Failure of `start_watching`: the watch backend could not be created, or
/// the path could not be watched; each carries the backend's description.
#[derive(Debug)]
pub enum WatchError {
    CreateFailed(String),
    WatchFailed(String),
}

impl WatchError {
    /// The human-readable description handed back to the caller.
    pub fn message(&self) -> (m: String)
        ensures
            self is CreateFailed ==> m@ == "Failed to create watcher: "@ + self->CreateFailed_0@,
            self is WatchFailed ==> m@ == "Failed to watch file: "@ + self->WatchFailed_0@,
    {
        match self {
            WatchError::CreateFailed(cause) => String::from_str("Failed to create watcher: ")
                .concat(cause.as_str()),
            WatchError::WatchFailed(cause) => String::from_str("Failed to watch file: ")
                .concat(cause.as_str()),
        }
    }
}

/// One live watch: the path the caller asked to watch, and the backend
/// resource whose drop releases the watch.
struct WatchSession {
    path: String,
    watcher: notify::RecommendedWatcher,
}

/// The manager of the single watch slot.  Holding the sessions in an
/// `Option` keeps more than one from ever being live; the surrounding
/// application serializes calls with a lock when callers are concurrent.
pub struct WatchManager {
    session: Option<WatchSession>,
}

impl WatchManager {
    /// The path of the live session, `None` when the manager is idle.
    pub closed spec fn watched(&self) -> Option<Seq<char>> {
        match self.session {
            Some(s) => Some(s.path@),
            None => None,
        }
    }

    /// A manager with no live session.
    pub fn new() -> (m: WatchManager)
        ensures
            m.watched() is None,
    {
        WatchManager { session: None }
    }

    /// Whether a session is live.
    pub fn is_watching(&self) -> (b: bool)
        ensures
            b == (self.watched() is Some),
    {
        self.session.is_some()
    }

    /// The watched path, `None` when the manager is idle.
    pub fn current_path(&self) -> (r: Option<&String>)
        ensures
            match r {
                Some(p) => self.watched() == Some(p@),
                None => self.watched() is None,
            },
    {
        match &self.session {
            Some(s) => Some(&s.path),
            None => None,
        }
    }

    /// Tears down any live session, then tries to watch `path`, relaying
    /// its modification events into `sink`.  Teardown is unconditional;
    /// setup is best-effort, and on failure the manager is left idle.
    pub fn start_watching(&mut self, path: String, sink: Sender<String>) -> (r: Result<
        (),
        WatchError,
    >)
        ensures
            r is Ok ==> final(self).watched() == Some(path@),
            r is Err ==> final(self).watched() is None,
    {
        self.session = None;
        match new_watcher_for(path.clone(), sink) {
            Err(e) => Err(WatchError::CreateFailed(notify_error_message(&e))),
            Ok(mut watcher) => match watch_target(&mut watcher, path.as_str()) {
                Ok(()) => {
                    self.session = Some(WatchSession { path, watcher });
                    Ok(())
                },
                Err(e) => Err(WatchError::WatchFailed(notify_error_message(&e))),
            },
        }
    }

    /// Releases the live session, if any.  Idempotent; never fails.
    pub fn stop_watching(&mut self)
        ensures
            final(self).watched() is None,
    {
        self.session = None;
    }
}

} // verus!
