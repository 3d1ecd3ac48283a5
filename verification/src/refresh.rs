//! The refresh that runs detached from the load that started it: under the
//! key's directory lock it fetches a new payload, writes the entry to a
//! temporary file and moves that file over the entry file.
//!
//! Like the coordinator, the refresher is a state machine that decides and
//! leaves the doing to its caller: each [`RefreshAction`] names one operation,
//! and the next [`RefreshEvent`] reports how it went. [`update`] is the
//! transition function.

use crate::entry::Entry;
use crate::logger::Level;
use crate::time::Timestamp;
use vstd::prelude::*;
use vstd::string::StringExecFns;

verus! {

/// What a non-blocking attempt to take the key's directory lock gave.
#[derive(Clone, Copy, Debug, PartialEq, Eq)]
pub enum LockOutcome {
    /// The lock is now held by this process, until it ends.
    Acquired,
    /// Another process holds the lock.
    Held,
    /// The attempt itself failed.
    Failed,
}

/// Why a refresh stopped before the entry was replaced.
#[derive(Clone, Copy, Debug, PartialEq, Eq)]
pub enum RefreshError {
    /// The attempt to take the lock failed.
    LockFailed,
    /// The fetch callback failed.
    FetchFailed,
    /// The temporary file could not be created.
    TempUnavailable,
    /// The entry could not be written to the temporary file.
    WriteFailed,
    /// The temporary file could not be moved over the entry file.
    PublishFailed,
    /// The event reported does not answer the action last asked for.
    UnexpectedEvent,
}

/// How a refresh ended.
#[derive(Clone, Copy, Debug, PartialEq, Eq)]
pub enum Refreshed {
    /// The payload was fetched and the entry replaced.
    Updated,
    /// Another process is refreshing this key; nothing was done.
    LockUnavailable,
    /// The refresh failed; the entry file was not touched.
    Failed(RefreshError),
}

/// One operation the refresher asks its caller to perform, or the end of the
/// refresh.
#[derive(Debug, PartialEq, Eq)]
pub enum RefreshAction<P> {
    /// Set up logging, as far as it can be; answer with
    /// [`RefreshEvent::LoggerReady`].
    InitLogger,
    /// Try to take the key's directory lock without blocking, and keep it
    /// until the refresh is over; answer with [`RefreshEvent::Locked`].
    TryLock,
    /// Call the fetch callback; answer with [`RefreshEvent::Fetched`].
    Fetch,
    /// Create the temporary file, empty, and read the wall clock; answer with
    /// [`RefreshEvent::TempOpened`].
    OpenTemp,
    /// Encode this entry into the temporary file; answer with
    /// [`RefreshEvent::Written`].
    WriteTemp(Entry<P>),
    /// Move the temporary file over the entry file in one step; answer with
    /// [`RefreshEvent::Published`].
    Publish,
    /// The refresh is over.
    Finish(Refreshed),
}

/// What the caller reports back to the refresher.
#[derive(Debug, PartialEq, Eq)]
pub enum RefreshEvent<P> {
    /// The refresh begins.
    Start,
    /// Logging was set up (`ok`), or could not be: a logger was installed
    /// before, or the log file cannot be written. The refresh goes on either
    /// way.
    LoggerReady { ok: bool },
    /// The attempt to take the lock ended.
    Locked(LockOutcome),
    /// The fetch callback returned this payload, or failed (`None`).
    Fetched(Option<P>),
    /// The temporary file was created (`ok`), or could not be; the wall clock
    /// read `now` afterwards.
    TempOpened { ok: bool, now: Timestamp },
    /// The entry was written to the temporary file in full (`ok`), or was not.
    Written { ok: bool },
    /// The temporary file was moved over the entry file (`ok`), or was not.
    Published { ok: bool },
}

/// Where a refresh stands.
#[derive(Debug, PartialEq, Eq)]
pub enum Stage<P> {
    /// Nothing has been asked for yet.
    Idle,
    /// Logging is being set up.
    Initialising,
    /// The lock is being tried.
    Locking,
    /// The lock is held; the fetch callback is running.
    Fetching,
    /// The lock is held; `payload` was fetched and the temporary file is
    /// being created.
    Opening { payload: P },
    /// The lock is held; the entry is being written to the temporary file.
    Writing,
    /// The lock is held; the temporary file is being moved over the entry
    /// file.
    Publishing,
    /// The refresh is over.
    Finished,
}

/// The refresher of one key: the fingerprint that the fetch is made for, and
/// the stage reached.
#[derive(Debug, PartialEq, Eq)]
pub struct Refresher<P> {
    pub fingerprint: [u8; 20],
    pub stage: Stage<P>,
}

impl<P> RefreshAction<P> {
    /// Whether the action ends the refresh.
    pub open spec fn is_final(self) -> bool {
        self is Finish
    }

    /// Whether the action writes to the key's directory.
    pub open spec fn writes(self) -> bool {
        self is OpenTemp || self is WriteTemp || self is Publish
    }

    /// Whether the action ends the refresh.
    pub fn ends_refresh(&self) -> (done: bool)
        ensures
            done == self.is_final(),
    {
        match self {
            RefreshAction::Finish(_) => true,
            _ => false,
        }
    }
}

impl<P> Refresher<P> {
    /// The refresher in stage `stage`, all else unchanged.
    pub open spec fn at(self, stage: Stage<P>) -> Refresher<P> {
        Refresher { fingerprint: self.fingerprint, stage }
    }

    /// The refresh ends with `outcome`.
    pub open spec fn finish(self, outcome: Refreshed) -> (Refresher<P>, RefreshAction<P>) {
        (self.at(Stage::Finished), RefreshAction::Finish(outcome))
    }

    /// The refresh fails with `error`.
    pub open spec fn fail(self, error: RefreshError) -> (Refresher<P>, RefreshAction<P>) {
        self.finish(Refreshed::Failed(error))
    }

    /// A refresher that has asked for nothing yet.
    pub fn new(fingerprint: [u8; 20]) -> (refresher: Refresher<P>)
        ensures
            refresher == (Refresher::<P> { fingerprint, stage: Stage::Idle }),
    {
        Refresher { fingerprint, stage: Stage::Idle }
    }

    /// The transition function of the refresher.
    ///
    /// * Logging is set up first, then the lock is tried, whether or not
    ///   logging could be set up: a refresh depends on the lock, the fetch
    ///   and the writes alone.
    /// * If another process holds the lock, the refresh ends at once: that
    ///   process is refreshing the key.
    /// * With the lock, the payload is fetched, the temporary file is created
    ///   and the clock read, and the entry written there is the fetched
    ///   payload with the refresher's fingerprint and that clock reading.
    /// * Only after the entry has been written in full is the temporary file
    ///   moved over the entry file.
    /// * Any other operation that fails ends the refresh with its error.
    pub open spec fn step(self, event: RefreshEvent<P>) -> (Refresher<P>, RefreshAction<P>) {
        match (self.stage, event) {
            (Stage::Idle, RefreshEvent::Start) => (
                self.at(Stage::Initialising),
                RefreshAction::InitLogger,
            ),
            (Stage::Initialising, RefreshEvent::LoggerReady { .. }) => (
                self.at(Stage::Locking),
                RefreshAction::TryLock,
            ),
            (Stage::Locking, RefreshEvent::Locked(LockOutcome::Acquired)) => (
                self.at(Stage::Fetching),
                RefreshAction::Fetch,
            ),
            (Stage::Locking, RefreshEvent::Locked(LockOutcome::Held)) => self.finish(
                Refreshed::LockUnavailable,
            ),
            (Stage::Locking, RefreshEvent::Locked(LockOutcome::Failed)) => self.fail(
                RefreshError::LockFailed,
            ),
            (Stage::Fetching, RefreshEvent::Fetched(Some(payload))) => (
                self.at(Stage::Opening { payload }),
                RefreshAction::OpenTemp,
            ),
            (Stage::Fetching, RefreshEvent::Fetched(None)) => self.fail(RefreshError::FetchFailed),
            (Stage::Opening { payload }, RefreshEvent::TempOpened { ok, now }) => {
                if ok {
                    (
                        self.at(Stage::Writing),
                        RefreshAction::WriteTemp(
                            Entry { fingerprint: self.fingerprint, refreshed_at: now, payload },
                        ),
                    )
                } else {
                    self.fail(RefreshError::TempUnavailable)
                }
            },
            (Stage::Writing, RefreshEvent::Written { ok }) => {
                if ok {
                    (self.at(Stage::Publishing), RefreshAction::Publish)
                } else {
                    self.fail(RefreshError::WriteFailed)
                }
            },
            (Stage::Publishing, RefreshEvent::Published { ok }) => {
                if ok {
                    self.finish(Refreshed::Updated)
                } else {
                    self.fail(RefreshError::PublishFailed)
                }
            },
            _ => self.fail(RefreshError::UnexpectedEvent),
        }
    }
}

/// Advances a refresh by one event: returns the refresher in its next stage
/// and the action to perform next, as [`Refresher::step`] defines them.
///
/// The caller starts with [`RefreshEvent::Start`], performs each action
/// returned and reports its result, until the action is
/// [`RefreshAction::Finish`]; it then lets go of the lock, if it holds it.
pub fn update<P>(refresher: Refresher<P>, event: RefreshEvent<P>) -> (next: (
    Refresher<P>,
    RefreshAction<P>,
))
    ensures
        next == refresher.step(event),
{
    let Refresher { fingerprint, stage } = refresher;
    let (stage, action) = match (stage, event) {
        (Stage::Idle, RefreshEvent::Start) => (Stage::Initialising, RefreshAction::InitLogger),
        (Stage::Initialising, RefreshEvent::LoggerReady { .. }) => (
            Stage::Locking,
            RefreshAction::TryLock,
        ),
        (Stage::Locking, RefreshEvent::Locked(outcome)) => match outcome {
            LockOutcome::Acquired => (Stage::Fetching, RefreshAction::Fetch),
            LockOutcome::Held => (
                Stage::Finished,
                RefreshAction::Finish(Refreshed::LockUnavailable),
            ),
            LockOutcome::Failed => (Stage::Finished, failed(RefreshError::LockFailed)),
        },
        (Stage::Fetching, RefreshEvent::Fetched(fetched)) => match fetched {
            Some(payload) => (Stage::Opening { payload }, RefreshAction::OpenTemp),
            None => (Stage::Finished, failed(RefreshError::FetchFailed)),
        },
        (Stage::Opening { payload }, RefreshEvent::TempOpened { ok, now }) => {
            if ok {
                (
                    Stage::Writing,
                    RefreshAction::WriteTemp(Entry { fingerprint, refreshed_at: now, payload }),
                )
            } else {
                (Stage::Finished, failed(RefreshError::TempUnavailable))
            }
        },
        (Stage::Writing, RefreshEvent::Written { ok }) => {
            if ok {
                (Stage::Publishing, RefreshAction::Publish)
            } else {
                (Stage::Finished, failed(RefreshError::WriteFailed))
            }
        },
        (Stage::Publishing, RefreshEvent::Published { ok }) => {
            if ok {
                (Stage::Finished, RefreshAction::Finish(Refreshed::Updated))
            } else {
                (Stage::Finished, failed(RefreshError::PublishFailed))
            }
        },
        _ => (Stage::Finished, failed(RefreshError::UnexpectedEvent)),
    };
    (Refresher { fingerprint, stage }, action)
}

/// The action that ends a refresh with `error`.
fn failed<P>(error: RefreshError) -> (action: RefreshAction<P>)
    ensures
        action == RefreshAction::<P>::Finish(Refreshed::Failed(error)),
{
    RefreshAction::Finish(Refreshed::Failed(error))
}

/// The text logged when a refresh for the entry file at `path` has ended;
/// `detail` describes the failure, where there was one.
pub open spec fn report_text(outcome: Refreshed, path: Seq<char>, detail: Seq<char>) -> Seq<char> {
    match outcome {
        Refreshed::Updated => "fetched "@ + path + " and updated cache"@,
        Refreshed::LockUnavailable => "another process updated cache for "@ + path,
        Refreshed::Failed(_) => detail,
    }
}

impl Refreshed {
    /// The level at which the end of a refresh is logged: a failure is an
    /// error, anything else is information.
    pub open spec fn report_level(self) -> Level {
        match self {
            Refreshed::Failed(_) => Level::Error,
            _ => Level::Info,
        }
    }

    /// The level and the text of the record logged when a refresh for the
    /// entry file at `path` has ended; `detail` describes the failure, where
    /// there was one.
    pub fn report(&self, path: &str, detail: &str) -> (record: (Level, String))
        ensures
            record.0 == self.report_level(),
            record.1@ == report_text(*self, path@, detail@),
    {
        match self {
            Refreshed::Updated => {
                let mut text = String::from_str("fetched ");
                text.append(path);
                text.append(" and updated cache");
                (Level::Info, text)
            },
            Refreshed::LockUnavailable => {
                let mut text = String::from_str("another process updated cache for ");
                text.append(path);
                (Level::Info, text)
            },
            Refreshed::Failed(_) => (Level::Error, String::from_str(detail)),
        }
    }
}

} // verus!
