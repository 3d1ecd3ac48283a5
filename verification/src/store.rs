//! A model of one key's directory, and what loads and refreshes do to it.
//!
//! Nothing here is executed. The model states what the operations named by
//! the actions of [`crate::refresh`] do to the two files of a key, the entry
//! file and the temporary file, and the theorems say what every run of the
//! refresher leaves in the entry file, and what a load then serves.

use crate::cache::{LoadAction, LoadEvent, Loader, Policy, ReadOutcome};
use crate::entry::Entry;
use crate::refresh::{LockOutcome, RefreshAction, RefreshEvent, Refreshed, Refresher, Stage};
use crate::time::Timestamp;
use vstd::prelude::*;

verus! {

/// What one file holds.
pub enum Slot<P> {
    /// There is no such file.
    Absent,
    /// The file exists, but what it holds is not a whole encoded entry: it is
    /// empty, cut short, or otherwise damaged.
    Torn,
    /// The file holds this entry, whole.
    Whole(Entry<P>),
}

/// The files of one key's directory.
pub struct Store<P> {
    /// The entry file, which loads read.
    pub entry: Slot<P>,
    /// The temporary file, which only a refresh touches.
    pub temp: Slot<P>,
}

impl<P> Slot<P> {
    /// What reading and decoding the file gives.
    pub open spec fn read(self) -> ReadOutcome<P> {
        match self {
            Slot::Absent => ReadOutcome::Missing,
            Slot::Torn => ReadOutcome::Corrupt,
            Slot::Whole(entry) => ReadOutcome::Found(entry),
        }
    }
}

impl<P> Store<P> {
    /// The store once `action` has been performed on it with the result that
    /// `event` reports.
    ///
    /// * Creating the temporary file leaves it empty.
    /// * Writing an entry to it leaves the entry there, whole, if the write
    ///   succeeded, and a torn file if it did not.
    /// * Moving it over the entry file makes its content the content of the
    ///   entry file, in one step, and leaves no temporary file.
    /// * No other operation changes a file, and none but the move changes the
    ///   entry file.
    pub open spec fn after(self, action: RefreshAction<P>, event: RefreshEvent<P>) -> Store<P> {
        match (action, event) {
            (RefreshAction::OpenTemp, RefreshEvent::TempOpened { ok: true, .. }) => Store {
                entry: self.entry,
                temp: Slot::Torn,
            },
            (RefreshAction::WriteTemp(entry), RefreshEvent::Written { ok: true }) => Store {
                entry: self.entry,
                temp: Slot::Whole(entry),
            },
            (RefreshAction::WriteTemp(_), RefreshEvent::Written { ok: false }) => Store {
                entry: self.entry,
                temp: Slot::Torn,
            },
            (RefreshAction::Publish, RefreshEvent::Published { ok: true }) => Store {
                entry: self.temp,
                temp: Slot::Absent,
            },
            _ => self,
        }
    }

    /// Whether `crashed` is a state in which the store can be left when the
    /// process that performs `action` dies in the middle of it: the temporary
    /// file may then hold anything, and the move either happened or did not.
    pub open spec fn may_crash_into(self, action: RefreshAction<P>, crashed: Store<P>) -> bool {
        match action {
            RefreshAction::OpenTemp | RefreshAction::WriteTemp(_) => crashed.entry == self.entry,
            RefreshAction::Publish => crashed == self || crashed == (Store {
                entry: self.temp,
                temp: Slot::Absent,
            }),
            _ => crashed == self,
        }
    }
}

impl<P> Refresher<P> {
    /// A refresher that has asked for nothing yet.
    pub open spec fn idle(fingerprint: [u8; 20]) -> Refresher<P> {
        Refresher { fingerprint, stage: Stage::Idle }
    }

    /// The actions of a refresh whose events are `events`, in order: one
    /// action for each event, up to the action that ends the refresh. Events
    /// after that one are not looked at.
    pub open spec fn run(self, events: Seq<RefreshEvent<P>>) -> Seq<RefreshAction<P>>
        decreases events.len(),
    {
        if events.len() == 0 {
            Seq::empty()
        } else {
            let (next, action) = self.step(events.first());
            if action.is_final() {
                seq![action]
            } else {
                seq![action] + next.run(events.drop_first())
            }
        }
    }

    /// The store that a refresh leaves behind when its events are `events`.
    ///
    /// `pending` is the action that the first event answers, if there is one,
    /// and `store` the store on which it is performed. Each event reports the
    /// result of the pending action, which changes the store as
    /// [`Store::after`] says, and leads to the next action.
    pub open spec fn leaves(
        self,
        pending: Option<RefreshAction<P>>,
        store: Store<P>,
        events: Seq<RefreshEvent<P>>,
    ) -> Store<P>
        decreases events.len(),
    {
        if events.len() == 0 {
            store
        } else {
            let event = events.first();
            let changed = match pending {
                Some(action) => store.after(action, event),
                None => store,
            };
            let (next, action) = self.step(event);
            if action.is_final() {
                changed
            } else {
                next.leaves(Some(action), changed, events.drop_first())
            }
        }
    }

    /// The action that is being performed once `events` have been reported:
    /// the last one asked for, if it does not end the refresh. `pending` is
    /// the action that the first event answers.
    pub open spec fn in_flight(
        self,
        pending: Option<RefreshAction<P>>,
        events: Seq<RefreshEvent<P>>,
    ) -> Option<RefreshAction<P>>
        decreases events.len(),
    {
        if events.len() == 0 {
            pending
        } else {
            let (next, action) = self.step(events.first());
            if action.is_final() {
                None
            } else {
                next.in_flight(Some(action), events.drop_first())
            }
        }
    }
}

/// The clock reading that `event` reports with a temporary file created.
pub open spec fn opened_at<P>(event: RefreshEvent<P>) -> Option<Timestamp> {
    match event {
        RefreshEvent::TempOpened { ok: true, now } => Some(now),
        _ => None,
    }
}

/// The payload that `event` reports as fetched.
pub open spec fn fetched<P>(event: RefreshEvent<P>) -> Option<P> {
    match event {
        RefreshEvent::Fetched(Some(payload)) => Some(payload),
        _ => None,
    }
}

/// The payload and the clock reading of the entry that a refresh with these
/// events puts in place of the entry file; `None` if it does not get that
/// far. It does when the lock is acquired, the fetch returns a payload, the
/// temporary file is created, the entry is written in full, and the file is
/// moved; whether logging could be set up makes no difference.
pub open spec fn published<P>(events: Seq<RefreshEvent<P>>) -> Option<(P, Timestamp)> {
    if events.len() >= 7 && events[0] is Start && events[1] is LoggerReady && events[2]
        == RefreshEvent::<P>::Locked(LockOutcome::Acquired) && fetched(events[3]) is Some
        && opened_at(events[4]) is Some && events[5] == (RefreshEvent::<P>::Written { ok: true })
        && events[6] == (RefreshEvent::<P>::Published { ok: true }) {
        Some((fetched(events[3])->0, opened_at(events[4])->0))
    } else {
        None
    }
}

/// The entry file after a refresh is either what it was before, or one whole
/// entry whose three fields all come from that refresh: the fingerprint the
/// refresh was made for, the payload its fetch returned, and the clock
/// reading it took. Which of the two is decided by [`published`] alone.
///
/// This holds of every sequence of events, so of every point at which a
/// refresh may stop between two operations.
pub proof fn refresh_replaces_entry_whole_or_not_at_all<P>(
    fingerprint: [u8; 20],
    store: Store<P>,
    events: Seq<RefreshEvent<P>>,
)
    ensures
        Refresher::<P>::idle(fingerprint).leaves(None, store, events).entry == (match published(
            events,
        ) {
            Some((payload, now)) => Slot::Whole(
                Entry { fingerprint, refreshed_at: now, payload },
            ),
            None => store.entry,
        }),
{
    reveal_with_fuel(Refresher::leaves, 8);
}

/// As long as a refresh is under way, the entry file is as it was; once the
/// refresh is moving the temporary file, that file holds the new entry,
/// whole.
proof fn lemma_in_flight_from_idle<P>(
    fingerprint: [u8; 20],
    store: Store<P>,
    events: Seq<RefreshEvent<P>>,
)
    requires
        Refresher::<P>::idle(fingerprint).in_flight(None, events) is Some,
    ensures
        ({
            let action = Refresher::<P>::idle(fingerprint).in_flight(None, events)->0;
            let left = Refresher::<P>::idle(fingerprint).leaves(None, store, events);
            &&& left.entry == store.entry
            &&& (action is Fetch || action.writes()) ==> events.len() >= 3 && events[2]
                == RefreshEvent::<P>::Locked(LockOutcome::Acquired)
            &&& action is Publish ==> events.len() >= 5 && fetched(events[3]) is Some && opened_at(
                events[4],
            ) is Some && left.temp == Slot::Whole(
                Entry {
                    fingerprint,
                    refreshed_at: opened_at(events[4])->0,
                    payload: fetched(events[3])->0,
                },
            )
        }),
{
    reveal_with_fuel(Refresher::in_flight, 8);
    reveal_with_fuel(Refresher::leaves, 8);
}

/// A refresh that dies in the middle of an operation leaves the entry file
/// whole: either as it was before the refresh, or holding the new entry
/// with all three of its fields. The second can only be if the refresh died
/// while moving the temporary file; one that dies earlier, as while it is
/// writing the temporary file, leaves the entry file as it was.
pub proof fn interrupted_refresh_leaves_entry_intact<P>(
    fingerprint: [u8; 20],
    store: Store<P>,
    events: Seq<RefreshEvent<P>>,
    crashed: Store<P>,
)
    requires
        Refresher::<P>::idle(fingerprint).in_flight(None, events) is Some,
        Refresher::<P>::idle(fingerprint).leaves(None, store, events).may_crash_into(
            Refresher::<P>::idle(fingerprint).in_flight(None, events)->0,
            crashed,
        ),
    ensures
        ({
            let action = Refresher::<P>::idle(fingerprint).in_flight(None, events)->0;
            if action is Publish {
                ||| crashed.entry == store.entry
                ||| events.len() >= 5 && fetched(events[3]) is Some && opened_at(events[4]) is Some
                    && crashed.entry == Slot::Whole(
                    Entry {
                        fingerprint,
                        refreshed_at: opened_at(events[4])->0,
                        payload: fetched(events[3])->0,
                    },
                )
            } else {
                crashed.entry == store.entry
            }
        }),
{
    lemma_in_flight_from_idle(fingerprint, store, events);
}

/// Only the holder of the lock fetches or writes: whenever a refresh is
/// fetching, or creating, writing or moving the temporary file, its attempt
/// to take the lock was answered with [`LockOutcome::Acquired`].
pub proof fn only_the_lock_holder_fetches_or_writes<P>(
    fingerprint: [u8; 20],
    events: Seq<RefreshEvent<P>>,
)
    requires
        Refresher::<P>::idle(fingerprint).in_flight(None, events) is Some,
    ensures
        ({
            let action = Refresher::<P>::idle(fingerprint).in_flight(None, events)->0;
            (action is Fetch || action.writes()) ==> events.len() >= 3 && events[2]
                == RefreshEvent::<P>::Locked(LockOutcome::Acquired)
        }),
{
    lemma_in_flight_from_idle(
        fingerprint,
        Store { entry: Slot::Absent, temp: Slot::Absent },
        events,
    );
}

/// A refresh does not depend on whether logging could be set up: told that
/// it could not, it asks for the same operations and leaves the same files
/// behind as when told that it could.
pub proof fn refresh_does_not_depend_on_logging<P>(
    fingerprint: [u8; 20],
    store: Store<P>,
    logging: bool,
    later: Seq<RefreshEvent<P>>,
)
    ensures
        ({
            let told = seq![RefreshEvent::<P>::Start, RefreshEvent::LoggerReady { ok: logging }]
                + later;
            let set_up = seq![RefreshEvent::<P>::Start, RefreshEvent::LoggerReady { ok: true }]
                + later;
            let refresher = Refresher::<P>::idle(fingerprint);
            &&& refresher.run(told) == refresher.run(set_up)
            &&& refresher.leaves(None, store, told) == refresher.leaves(None, store, set_up)
        }),
{
    reveal_with_fuel(Refresher::run, 3);
    reveal_with_fuel(Refresher::leaves, 3);
    let told = seq![RefreshEvent::<P>::Start, RefreshEvent::LoggerReady { ok: logging }] + later;
    let set_up = seq![RefreshEvent::<P>::Start, RefreshEvent::LoggerReady { ok: true }] + later;
    assert(told.drop_first().drop_first() =~= later);
    assert(set_up.drop_first().drop_first() =~= later);
}

/// A refresh that finds the lock held by another process ends at once with
/// [`Refreshed::LockUnavailable`]: it fetches nothing, and leaves both files
/// of the key as they were.
pub proof fn held_lock_ends_refresh_without_fetch_or_write<P>(
    fingerprint: [u8; 20],
    store: Store<P>,
    logging: bool,
    later: Seq<RefreshEvent<P>>,
)
    ensures
        ({
            let events = seq![
                RefreshEvent::<P>::Start,
                RefreshEvent::LoggerReady { ok: logging },
                RefreshEvent::Locked(LockOutcome::Held),
            ] + later;
            let refresher = Refresher::<P>::idle(fingerprint);
            &&& refresher.run(events) == seq![
                RefreshAction::<P>::InitLogger,
                RefreshAction::TryLock,
                RefreshAction::Finish(Refreshed::LockUnavailable),
            ]
            &&& refresher.leaves(None, store, events) == store
        }),
{
    reveal_with_fuel(Refresher::run, 4);
    reveal_with_fuel(Refresher::leaves, 4);
    let events = seq![
        RefreshEvent::<P>::Start,
        RefreshEvent::LoggerReady { ok: logging },
        RefreshEvent::Locked(LockOutcome::Held),
    ] + later;
    assert(Refresher::<P>::idle(fingerprint).run(events) =~= seq![
        RefreshAction::<P>::InitLogger,
        RefreshAction::TryLock,
        RefreshAction::Finish(Refreshed::LockUnavailable),
    ]);
}

/// Once a refresh made for a fingerprint has put its entry in place, a load
/// that asks for that fingerprint and reads the entry file returns the
/// payload which that refresh fetched, whatever the entry file held before:
/// at once and without another refresh while the entry is fresh, after
/// starting one refresh when the interval has run out.
pub proof fn load_after_refresh_serves_the_new_payload<P>(
    fingerprint: [u8; 20],
    policy: Policy,
    store: Store<P>,
    refresh: Seq<RefreshEvent<P>>,
    now: Timestamp,
    later: Seq<LoadEvent<P>>,
)
    requires
        published(refresh) is Some,
    ensures
        ({
            let (payload, refreshed_at) = published(refresh)->0;
            let left = Refresher::<P>::idle(fingerprint).leaves(None, store, refresh);
            let fresh = now.as_nanos() - refreshed_at.as_nanos() <= policy.interval_ms * 1_000_000;
            let events = seq![
                LoadEvent::Start,
                LoadEvent::Read { outcome: left.entry.read(), now },
                LoadEvent::Spawned { ok: true },
            ] + later;
            Loader::<P>::idle(fingerprint, policy).run(events) == if fresh {
                seq![LoadAction::ReadEntry, LoadAction::Return(payload)]
            } else {
                seq![LoadAction::ReadEntry, LoadAction::SpawnRefresh, LoadAction::Return(payload)]
            }
        }),
{
    refresh_replaces_entry_whole_or_not_at_all(fingerprint, store, refresh);
    let (payload, refreshed_at) = published(refresh)->0;
    let entry = Entry { fingerprint, refreshed_at, payload };
    let fresh = now.as_nanos() - refreshed_at.as_nanos() <= policy.interval_ms * 1_000_000;
    let events = seq![
        LoadEvent::Start,
        LoadEvent::Read { outcome: ReadOutcome::Found(entry), now },
        LoadEvent::Spawned { ok: true },
    ] + later;
    if fresh {
        crate::cache::fresh_entry_is_served_without_refresh(
            fingerprint,
            policy,
            entry,
            now,
            seq![LoadEvent::Spawned { ok: true }] + later,
        );
        assert(seq![LoadEvent::Start, LoadEvent::Read { outcome: ReadOutcome::Found(entry), now }]
            + (seq![LoadEvent::Spawned { ok: true }] + later) =~= events);
    } else {
        crate::cache::stale_entry_is_served_with_one_refresh(
            fingerprint,
            policy,
            entry,
            now,
            later,
        );
    }
}

} // verus!
