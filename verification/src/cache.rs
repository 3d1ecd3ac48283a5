//! The cache coordinator: serves the best payload available for a key at
//! once, and decides whether a refresh has to be started in the background.
//!
//! The coordinator is a state machine. It never touches the file system, the
//! clock or another process itself: each [`LoadAction`] names one such
//! operation for the embedding program to carry out, and the next
//! [`LoadEvent`] reports how it went. [`load`] is the transition function.

use crate::entry::Entry;
use crate::time::Timestamp;
use vstd::prelude::*;

verus! {

/// Milliseconds after which a served entry is refreshed, by default.
pub const UPDATE_INTERVAL_MS: u64 = 60_000;

/// Milliseconds slept between two looks at the entry file on a cold start.
pub const POLL_INTERVAL_MS: u64 = 200;

/// Milliseconds a cold start waits for the entry to appear.
pub const POLL_BOUND_MS: u64 = 5_000;

/// The timing rules of one cache instance.
#[derive(Clone, Copy, Debug, PartialEq, Eq)]
pub struct Policy {
    /// An entry older than this many milliseconds is stale.
    pub interval_ms: u64,
    /// Sleep between two polls of a cold start, in milliseconds.
    pub poll_interval_ms: u64,
    /// Once this many milliseconds have passed on a cold start, it times out.
    pub poll_bound_ms: u64,
}

impl Policy {
    /// A policy with the given staleness interval and the usual cold-start
    /// polling: a look every 200 ms, for 5 s.
    pub fn with_interval(interval_ms: u64) -> (policy: Policy)
        ensures
            policy == (Policy {
                interval_ms,
                poll_interval_ms: POLL_INTERVAL_MS,
                poll_bound_ms: POLL_BOUND_MS,
            }),
    {
        Policy { interval_ms, poll_interval_ms: POLL_INTERVAL_MS, poll_bound_ms: POLL_BOUND_MS }
    }
}

impl Default for Policy {
    /// The policy of a single query result: stale after one minute.
    fn default() -> (policy: Policy)
        ensures
            policy == (Policy {
                interval_ms: UPDATE_INTERVAL_MS,
                poll_interval_ms: POLL_INTERVAL_MS,
                poll_bound_ms: POLL_BOUND_MS,
            }),
    {
        Policy::with_interval(UPDATE_INTERVAL_MS)
    }
}

/// What an attempt to read and decode the entry file gave.
#[derive(Debug, PartialEq, Eq)]
pub enum ReadOutcome<P> {
    /// The file exists and holds this entry.
    Found(Entry<P>),
    /// There is no entry file.
    Missing,
    /// The file exists but does not decode to an entry.
    Corrupt,
    /// The file could not be read, for another reason than its absence.
    Unreadable,
}

/// Why a load gave no payload.
#[derive(Clone, Copy, Debug, PartialEq, Eq)]
pub enum LoadError {
    /// The entry file exists but does not decode.
    EntryCorrupt,
    /// The entry file could not be read, though it may exist.
    EntryUnreadable,
    /// The key's directory could not be created.
    DirectoryUnavailable,
    /// The background refresh could not be started.
    SpawnFailed,
    /// No entry appeared within the polling bound of a cold start.
    ColdStartTimeout,
    /// The event reported does not answer the action last asked for.
    UnexpectedEvent,
}

/// One operation the coordinator asks its caller to perform, or the end of
/// the load.
#[derive(Debug, PartialEq, Eq)]
pub enum LoadAction<P> {
    /// Read and decode the entry file; answer with [`LoadEvent::Read`].
    ReadEntry,
    /// Create the key's directory and its parents; answer with
    /// [`LoadEvent::DirCreated`].
    CreateDir,
    /// Start a detached refresh; answer with [`LoadEvent::Spawned`].
    SpawnRefresh,
    /// Sleep for `sleep_ms` milliseconds, then read and decode the entry
    /// file; answer with [`LoadEvent::Polled`].
    Poll { sleep_ms: u64 },
    /// The load is over: this payload is its result.
    Return(P),
    /// The load is over: it failed.
    Fail(LoadError),
}

/// What the caller reports back to the coordinator.
#[derive(Debug, PartialEq, Eq)]
pub enum LoadEvent<P> {
    /// The load begins.
    Start,
    /// The entry file was read, at wall-clock time `now`.
    Read { outcome: ReadOutcome<P>, now: Timestamp },
    /// The key's directory was created (`ok`), or could not be.
    DirCreated { ok: bool },
    /// The detached refresh was started (`ok`), or could not be.
    Spawned { ok: bool },
    /// A poll ended: `elapsed_ms` milliseconds have passed since polling
    /// began.
    Polled { outcome: ReadOutcome<P>, elapsed_ms: u64 },
}

/// Where a load stands.
#[derive(Debug, PartialEq, Eq)]
pub enum Phase<P> {
    /// Nothing has been asked for yet.
    Idle,
    /// The first read of the entry file is under way.
    Reading,
    /// A stale entry was found; its refresh is being started, and `payload`
    /// will be served.
    Revalidating { payload: P },
    /// No entry was found; the key's directory is being created.
    Preparing,
    /// No entry was found; the refresh is being started.
    Triggering,
    /// No entry was found; the coordinator waits for one to appear.
    Polling,
    /// The load is over.
    Finished,
}

/// The coordinator of one load: the fingerprint asked for, the timing rules,
/// and the phase reached.
#[derive(Debug, PartialEq, Eq)]
pub struct Loader<P> {
    pub fingerprint: [u8; 20],
    pub policy: Policy,
    pub phase: Phase<P>,
}

impl<P> LoadAction<P> {
    /// Whether the action ends the load.
    pub open spec fn is_final(self) -> bool {
        self is Return || self is Fail
    }

    /// Whether the action ends the load.
    pub fn ends_load(&self) -> (done: bool)
        ensures
            done == self.is_final(),
    {
        match self {
            LoadAction::Return(_) => true,
            LoadAction::Fail(_) => true,
            _ => false,
        }
    }
}

impl<P> Loader<P> {
    /// The loader in phase `phase`, all else unchanged.
    pub open spec fn at(self, phase: Phase<P>) -> Loader<P> {
        Loader { fingerprint: self.fingerprint, policy: self.policy, phase }
    }

    /// A loader that has asked for nothing yet.
    pub fn new(fingerprint: [u8; 20], policy: Policy) -> (loader: Loader<P>)
        ensures
            loader == Loader::<P>::idle(fingerprint, policy),
    {
        Loader { fingerprint, policy, phase: Phase::Idle }
    }

    /// On a cold start with `elapsed_ms` milliseconds gone: poll once more
    /// while the bound has not been reached, time out otherwise.
    pub open spec fn wait_or_give_up(self, elapsed_ms: u64) -> (Loader<P>, LoadAction<P>) {
        if elapsed_ms < self.policy.poll_bound_ms {
            (self.at(Phase::Polling), LoadAction::Poll { sleep_ms: self.policy.poll_interval_ms })
        } else {
            (self.at(Phase::Finished), LoadAction::Fail(LoadError::ColdStartTimeout))
        }
    }

    /// The load ends with `action`.
    pub open spec fn finish(self, action: LoadAction<P>) -> (Loader<P>, LoadAction<P>) {
        (self.at(Phase::Finished), action)
    }

    /// The transition function of the coordinator.
    ///
    /// * The load begins by reading the entry file.
    /// * A fresh entry is returned at once. A stale one is returned too, once
    ///   a refresh has been started for it.
    /// * With no entry, the key's directory is created, a refresh is started,
    ///   and the coordinator polls for the entry until it appears or the
    ///   bound is reached. Whatever entry appears is returned as it is.
    /// * An entry file that does not decode fails the load wherever it is
    ///   met; one that cannot be read fails the first read only.
    /// * So does a directory that cannot be created, and a refresh that
    ///   cannot be started.
    pub open spec fn step(self, event: LoadEvent<P>) -> (Loader<P>, LoadAction<P>) {
        match (self.phase, event) {
            (Phase::Idle, LoadEvent::Start) => (self.at(Phase::Reading), LoadAction::ReadEntry),
            (Phase::Reading, LoadEvent::Read { outcome: ReadOutcome::Found(entry), now }) => {
                if entry.fresh_for(self.fingerprint@, now, self.policy.interval_ms) {
                    self.finish(LoadAction::Return(entry.payload))
                } else {
                    (
                        self.at(Phase::Revalidating { payload: entry.payload }),
                        LoadAction::SpawnRefresh,
                    )
                }
            },
            (Phase::Reading, LoadEvent::Read { outcome: ReadOutcome::Missing, .. }) => (
                self.at(Phase::Preparing),
                LoadAction::CreateDir,
            ),
            (Phase::Reading, LoadEvent::Read { outcome: ReadOutcome::Corrupt, .. }) => self.finish(
                LoadAction::Fail(LoadError::EntryCorrupt),
            ),
            (
                Phase::Reading,
                LoadEvent::Read { outcome: ReadOutcome::Unreadable, .. },
            ) => self.finish(LoadAction::Fail(LoadError::EntryUnreadable)),
            (Phase::Revalidating { payload }, LoadEvent::Spawned { ok }) => {
                if ok {
                    self.finish(LoadAction::Return(payload))
                } else {
                    self.finish(LoadAction::Fail(LoadError::SpawnFailed))
                }
            },
            (Phase::Preparing, LoadEvent::DirCreated { ok }) => {
                if ok {
                    (self.at(Phase::Triggering), LoadAction::SpawnRefresh)
                } else {
                    self.finish(LoadAction::Fail(LoadError::DirectoryUnavailable))
                }
            },
            (Phase::Triggering, LoadEvent::Spawned { ok }) => {
                if ok {
                    self.wait_or_give_up(0)
                } else {
                    self.finish(LoadAction::Fail(LoadError::SpawnFailed))
                }
            },
            (Phase::Polling, LoadEvent::Polled { outcome: ReadOutcome::Found(entry), .. }) => {
                self.finish(LoadAction::Return(entry.payload))
            },
            (Phase::Polling, LoadEvent::Polled { outcome: ReadOutcome::Corrupt, .. }) => {
                self.finish(LoadAction::Fail(LoadError::EntryCorrupt))
            },
            (Phase::Polling, LoadEvent::Polled { elapsed_ms, .. }) => self.wait_or_give_up(
                elapsed_ms,
            ),
            _ => self.finish(LoadAction::Fail(LoadError::UnexpectedEvent)),
        }
    }
}

/// Advances a load by one event: returns the loader in its next phase and
/// the action to perform next, as [`Loader::step`] defines them.
///
/// The caller starts with [`LoadEvent::Start`], performs each action
/// returned and reports its result, until the action is
/// [`LoadAction::Return`] or [`LoadAction::Fail`].
pub fn load<P>(loader: Loader<P>, event: LoadEvent<P>) -> (next: (Loader<P>, LoadAction<P>))
    ensures
        next == loader.step(event),
{
    let Loader { fingerprint, policy, phase } = loader;
    match (phase, event) {
        (Phase::Idle, LoadEvent::Start) => (
            Loader { fingerprint, policy, phase: Phase::Reading },
            LoadAction::ReadEntry,
        ),
        (Phase::Reading, LoadEvent::Read { outcome, now }) => match outcome {
            ReadOutcome::Found(entry) => {
                if entry.is_fresh(&fingerprint, &now, policy.interval_ms) {
                    (
                        Loader { fingerprint, policy, phase: Phase::Finished },
                        LoadAction::Return(entry.payload),
                    )
                } else {
                    (
                        Loader {
                            fingerprint,
                            policy,
                            phase: Phase::Revalidating { payload: entry.payload },
                        },
                        LoadAction::SpawnRefresh,
                    )
                }
            },
            ReadOutcome::Missing => (
                Loader { fingerprint, policy, phase: Phase::Preparing },
                LoadAction::CreateDir,
            ),
            ReadOutcome::Corrupt => (
                Loader { fingerprint, policy, phase: Phase::Finished },
                LoadAction::Fail(LoadError::EntryCorrupt),
            ),
            ReadOutcome::Unreadable => (
                Loader { fingerprint, policy, phase: Phase::Finished },
                LoadAction::Fail(LoadError::EntryUnreadable),
            ),
        },
        (Phase::Revalidating { payload }, LoadEvent::Spawned { ok }) => {
            let action = if ok {
                LoadAction::Return(payload)
            } else {
                LoadAction::Fail(LoadError::SpawnFailed)
            };
            (Loader { fingerprint, policy, phase: Phase::Finished }, action)
        },
        (Phase::Preparing, LoadEvent::DirCreated { ok }) => {
            if ok {
                (Loader { fingerprint, policy, phase: Phase::Triggering }, LoadAction::SpawnRefresh)
            } else {
                (
                    Loader { fingerprint, policy, phase: Phase::Finished },
                    LoadAction::Fail(LoadError::DirectoryUnavailable),
                )
            }
        },
        (Phase::Triggering, LoadEvent::Spawned { ok }) => {
            if ok {
                wait_or_give_up(fingerprint, policy, 0)
            } else {
                (
                    Loader { fingerprint, policy, phase: Phase::Finished },
                    LoadAction::Fail(LoadError::SpawnFailed),
                )
            }
        },
        (Phase::Polling, LoadEvent::Polled { outcome, elapsed_ms }) => match outcome {
            ReadOutcome::Found(entry) => (
                Loader { fingerprint, policy, phase: Phase::Finished },
                LoadAction::Return(entry.payload),
            ),
            ReadOutcome::Corrupt => (
                Loader { fingerprint, policy, phase: Phase::Finished },
                LoadAction::Fail(LoadError::EntryCorrupt),
            ),
            _ => wait_or_give_up(fingerprint, policy, elapsed_ms),
        },
        _ => (
            Loader { fingerprint, policy, phase: Phase::Finished },
            LoadAction::Fail(LoadError::UnexpectedEvent),
        ),
    }
}

/// The cold-start decision once `elapsed_ms` milliseconds have passed.
fn wait_or_give_up<P>(fingerprint: [u8; 20], policy: Policy, elapsed_ms: u64) -> (next: (
    Loader<P>,
    LoadAction<P>,
))
    ensures
        next == (Loader::<P> { fingerprint, policy, phase: Phase::Idle }).wait_or_give_up(
            elapsed_ms,
        ),
{
    if elapsed_ms < policy.poll_bound_ms {
        (
            Loader { fingerprint, policy, phase: Phase::Polling },
            LoadAction::Poll { sleep_ms: policy.poll_interval_ms },
        )
    } else {
        (
            Loader { fingerprint, policy, phase: Phase::Finished },
            LoadAction::Fail(LoadError::ColdStartTimeout),
        )
    }
}

/// How many of `actions` start a refresh.
pub open spec fn refreshes_started<P>(actions: Seq<LoadAction<P>>) -> nat
    decreases actions.len(),
{
    if actions.len() == 0 {
        0
    } else if actions.first() is SpawnRefresh {
        refreshes_started(actions.drop_first()) + 1
    } else {
        refreshes_started(actions.drop_first())
    }
}

/// Whether `event` reports a poll that found nothing to serve and nothing
/// broken: the entry file is absent, or could not be read this time.
pub open spec fn is_quiet_poll<P>(event: LoadEvent<P>) -> bool {
    event matches LoadEvent::Polled { outcome, .. } && (outcome is Missing || outcome is Unreadable)
}

/// The time that a poll reports, in milliseconds since polling began.
pub open spec fn elapsed_of<P>(event: LoadEvent<P>) -> u64 {
    match event {
        LoadEvent::Polled { elapsed_ms, .. } => elapsed_ms,
        _ => 0,
    }
}

impl<P> Loader<P> {
    /// A loader that has asked for nothing yet.
    pub open spec fn idle(fingerprint: [u8; 20], policy: Policy) -> Loader<P> {
        Loader { fingerprint, policy, phase: Phase::Idle }
    }

    /// The actions of a load whose events are `events`, in order: one action
    /// for each event, up to the action that ends the load. Events after that
    /// one are not looked at.
    pub open spec fn run(self, events: Seq<LoadEvent<P>>) -> Seq<LoadAction<P>>
        decreases events.len(),
    {
        if events.len() == 0 {
            Seq::empty()
        } else {
            let (next, action) = self.step(events.first());
            if action.is_final() {
                seq![action]
            } else {
                seq![action] + next.run(events.drop_first())
            }
        }
    }

    /// How many refreshes a load in this phase may still start.
    pub open spec fn refreshes_left(self) -> nat {
        match self.phase {
            Phase::Idle | Phase::Reading | Phase::Preparing => 1,
            _ => 0,
        }
    }
}

/// Counting the refreshes of a sequence of actions from its front.
proof fn lemma_refreshes_started_front<P>(action: LoadAction<P>, rest: Seq<LoadAction<P>>)
    ensures
        refreshes_started(seq![action] + rest) == refreshes_started(rest) + (if action
            is SpawnRefresh {
            1nat
        } else {
            0nat
        }),
{
    let all = seq![action] + rest;
    assert(all.first() == action);
    assert(all.drop_first() =~= rest);
}

/// From any phase on, a load starts no more refreshes than its phase leaves
/// room for.
proof fn lemma_refreshes_bounded<P>(loader: Loader<P>, events: Seq<LoadEvent<P>>)
    ensures
        refreshes_started(loader.run(events)) <= loader.refreshes_left(),
    decreases events.len(),
{
    if events.len() > 0 {
        let (next, action) = loader.step(events.first());
        if action.is_final() {
            lemma_refreshes_started_front(action, Seq::empty());
            assert(seq![action] + Seq::<LoadAction<P>>::empty() =~= seq![action]);
            assert(refreshes_started(Seq::<LoadAction<P>>::empty()) == 0);
        } else {
            lemma_refreshes_bounded(next, events.drop_first());
            lemma_refreshes_started_front(action, next.run(events.drop_first()));
        }
    }
}

/// Whatever is reported to it, one load starts at most one refresh.
pub proof fn load_starts_at_most_one_refresh<P>(
    fingerprint: [u8; 20],
    policy: Policy,
    events: Seq<LoadEvent<P>>,
)
    ensures
        refreshes_started(Loader::<P>::idle(fingerprint, policy).run(events)) <= 1,
{
    lemma_refreshes_bounded(Loader::<P>::idle(fingerprint, policy), events);
}

/// An entry that is fresh for the fingerprint asked for is returned as it is
/// stored, and the load does nothing else: it reads the entry and ends, and
/// no refresh is started.
pub proof fn fresh_entry_is_served_without_refresh<P>(
    fingerprint: [u8; 20],
    policy: Policy,
    entry: Entry<P>,
    now: Timestamp,
    later: Seq<LoadEvent<P>>,
)
    requires
        entry.fingerprint@ == fingerprint@,
        now.as_nanos() - entry.refreshed_at.as_nanos() <= policy.interval_ms * 1_000_000,
    ensures
        ({
            let events = seq![
                LoadEvent::Start,
                LoadEvent::Read { outcome: ReadOutcome::Found(entry), now },
            ] + later;
            let actions = Loader::<P>::idle(fingerprint, policy).run(events);
            &&& actions == seq![LoadAction::ReadEntry, LoadAction::Return(entry.payload)]
            &&& refreshes_started(actions) == 0
        }),
{
    let events = seq![LoadEvent::Start, LoadEvent::Read { outcome: ReadOutcome::Found(entry), now }]
        + later;
    let actions = Loader::<P>::idle(fingerprint, policy).run(events);
    assert(actions =~= seq![LoadAction::ReadEntry, LoadAction::Return(entry.payload)]) by {
        reveal_with_fuel(Loader::run, 3);
    }
    assert(refreshes_started(actions) == 0) by {
        reveal_with_fuel(refreshes_started, 3);
    }
}

/// An entry that is stale for the fingerprint asked for, because it was made
/// for another fingerprint or because the interval has run out, is still
/// returned as it is stored, after exactly one refresh has been started.
pub proof fn stale_entry_is_served_with_one_refresh<P>(
    fingerprint: [u8; 20],
    policy: Policy,
    entry: Entry<P>,
    now: Timestamp,
    later: Seq<LoadEvent<P>>,
)
    requires
        entry.fingerprint@ != fingerprint@ || now.as_nanos() - entry.refreshed_at.as_nanos()
            > policy.interval_ms * 1_000_000,
    ensures
        ({
            let events = seq![
                LoadEvent::Start,
                LoadEvent::Read { outcome: ReadOutcome::Found(entry), now },
                LoadEvent::Spawned { ok: true },
            ] + later;
            let actions = Loader::<P>::idle(fingerprint, policy).run(events);
            &&& actions == seq![
                LoadAction::ReadEntry,
                LoadAction::SpawnRefresh,
                LoadAction::Return(entry.payload),
            ]
            &&& refreshes_started(actions) == 1
        }),
{
    let events = seq![
        LoadEvent::Start,
        LoadEvent::Read { outcome: ReadOutcome::Found(entry), now },
        LoadEvent::Spawned { ok: true },
    ] + later;
    let actions = Loader::<P>::idle(fingerprint, policy).run(events);
    assert(actions =~= seq![
        LoadAction::ReadEntry,
        LoadAction::SpawnRefresh,
        LoadAction::Return(entry.payload),
    ]) by {
        reveal_with_fuel(Loader::run, 4);
    }
    assert(refreshes_started(actions) == 1) by {
        reveal_with_fuel(refreshes_started, 4);
    }
}

/// A load that asks for another fingerprint than the one the stored entry
/// was made for starts a refresh, however recent the entry is.
pub proof fn fingerprint_change_forces_refresh<P>(
    loader: Loader<P>,
    entry: Entry<P>,
    now: Timestamp,
)
    requires
        loader.phase is Reading,
        entry.fingerprint@ != loader.fingerprint@,
    ensures
        loader.step(LoadEvent::Read { outcome: ReadOutcome::Found(entry), now }) == (
            loader.at(Phase::Revalidating { payload: entry.payload }),
            LoadAction::<P>::SpawnRefresh,
        ),
{
}

/// While the entry stays away, a polling load goes on exactly as long as
/// the time reported is under the bound: if the report at index `late` is
/// the first that has reached the bound, the load polls `late` more times,
/// each time sleeping for the poll interval, and then fails with
/// [`LoadError::ColdStartTimeout`].
pub proof fn polling_stops_at_first_late_report<P>(
    loader: Loader<P>,
    polls: Seq<LoadEvent<P>>,
    late: int,
)
    requires
        loader.phase is Polling,
        0 <= late < polls.len(),
        forall|i: int| 0 <= i <= late ==> is_quiet_poll(#[trigger] polls[i]),
        forall|i: int| 0 <= i < late ==> elapsed_of(#[trigger] polls[i]) < loader.policy.poll_bound_ms,
        elapsed_of(polls[late]) >= loader.policy.poll_bound_ms,
    ensures
        loader.run(polls).len() == late + 1,
        forall|i: int|
            0 <= i < late ==> #[trigger] loader.run(polls)[i] == (LoadAction::<P>::Poll {
                sleep_ms: loader.policy.poll_interval_ms,
            }),
        loader.run(polls)[late] == LoadAction::<P>::Fail(LoadError::ColdStartTimeout),
    decreases late,
{
    let first = polls.first();
    assert(is_quiet_poll(polls[0]));
    if late > 0 {
        assert(elapsed_of(polls[0]) < loader.policy.poll_bound_ms);
        let rest = polls.drop_first();
        assert forall|i: int| 0 <= i <= late - 1 implies is_quiet_poll(#[trigger] rest[i]) by {
            assert(rest[i] == polls[i + 1]);
        }
        assert forall|i: int| 0 <= i < late - 1 implies elapsed_of(#[trigger] rest[i])
            < loader.policy.poll_bound_ms by {
            assert(rest[i] == polls[i + 1]);
        }
        assert(rest[late - 1] == polls[late]);
        let (next, action) = loader.step(first);
        assert(next == loader);
        polling_stops_at_first_late_report(loader, rest, late - 1);
        assert(loader.run(polls) == seq![action] + loader.run(rest));
        assert forall|i: int| 0 <= i < late implies #[trigger] loader.run(polls)[i] == (
        LoadAction::<P>::Poll { sleep_ms: loader.policy.poll_interval_ms }) by {
            if i > 0 {
                assert(loader.run(polls)[i] == loader.run(rest)[i - 1]);
            }
        }
        assert(loader.run(polls)[late] == loader.run(rest)[late - 1]);
    }
}

/// The index of the first of `count` reports, the one at index `i` made
/// after `(i + 1) * interval` milliseconds, that has reached `bound`.
proof fn lemma_first_late_report(interval: int, bound: int, count: int) -> (late: int)
    requires
        interval > 0,
        bound > 0,
        count * interval >= bound,
    ensures
        0 <= late < count,
        (late + 1) * interval >= bound,
        late * interval < bound,
    decreases count,
{
    assert(count >= 1) by (nonlinear_arith)
        requires
            count * interval >= bound,
            bound > 0,
            interval > 0,
    ;
    if (count - 1) * interval >= bound {
        lemma_first_late_report(interval, bound, count - 1)
    } else {
        count - 1
    }
}

/// A cold start on which the entry never appears fails with
/// [`LoadError::ColdStartTimeout`] no later than one poll interval after the
/// bound.
///
/// The clock is taken to advance by the poll interval with every poll. Then
/// the load polls `n` times, each time sleeping for the interval, and times
/// out; the `n` intervals slept make up the bound or more, but less than the
/// bound and one interval.
pub proof fn cold_start_times_out_within_bound<P>(loader: Loader<P>, polls: Seq<LoadEvent<P>>)
    requires
        loader.phase is Triggering,
        loader.policy.poll_interval_ms > 0,
        forall|i: int|
            0 <= i < polls.len() ==> is_quiet_poll(#[trigger] polls[i]) && elapsed_of(polls[i]) == (
            i + 1) * loader.policy.poll_interval_ms,
        polls.len() * loader.policy.poll_interval_ms >= loader.policy.poll_bound_ms,
    ensures
        ({
            let actions = loader.run(seq![LoadEvent::Spawned { ok: true }] + polls);
            let n = actions.len() - 1;
            let interval = loader.policy.poll_interval_ms as int;
            let bound = loader.policy.poll_bound_ms as int;
            &&& n >= 0
            &&& forall|i: int|
                0 <= i < n ==> #[trigger] actions[i] == (LoadAction::<P>::Poll {
                    sleep_ms: loader.policy.poll_interval_ms,
                })
            &&& actions[n] == LoadAction::<P>::Fail(LoadError::ColdStartTimeout)
            &&& bound <= n * interval < bound + interval
        }),
{
    let events = seq![LoadEvent::<P>::Spawned { ok: true }] + polls;
    let interval = loader.policy.poll_interval_ms as int;
    let bound = loader.policy.poll_bound_ms as int;
    assert(events.first() == LoadEvent::<P>::Spawned { ok: true });
    assert(events.drop_first() =~= polls);
    if bound == 0 {
        assert(loader.run(events) == seq![LoadAction::<P>::Fail(LoadError::ColdStartTimeout)]);
    } else {
        let polling = loader.at(Phase::Polling);
        let late = lemma_first_late_report(interval, bound, polls.len() as int);
        assert forall|i: int| 0 <= i < late implies elapsed_of(#[trigger] polls[i]) < bound by {
            assert((i + 1) * interval <= late * interval) by (nonlinear_arith)
                requires
                    i + 1 <= late,
                    interval > 0,
            ;
        }
        polling_stops_at_first_late_report(polling, polls, late);
        let actions = loader.run(events);
        assert(actions == seq![LoadAction::<P>::Poll { sleep_ms: loader.policy.poll_interval_ms }]
            + polling.run(polls));
        assert(actions.len() - 1 == late + 1);
        assert forall|i: int| 0 <= i < late + 1 implies #[trigger] actions[i] == (
        LoadAction::<P>::Poll { sleep_ms: loader.policy.poll_interval_ms }) by {
            if i > 0 {
                assert(actions[i] == polling.run(polls)[i - 1]);
            }
        }
        assert(actions[late + 1] == polling.run(polls)[late]);
        assert((late + 1) * interval == late * interval + interval) by (nonlinear_arith);
    }
}

} // verus!
