//! A model of any number of refreshes of one key that run at the same time,
//! each in a process of its own, and share the key's directory lock.
//!
//! Nothing here is executed. The model states how the lock answers and when
//! it is let go; the theorems say that the refreshers, as [`crate::refresh`]
//! defines them, then never fetch or write at the same time.

use crate::refresh::{LockOutcome, RefreshAction, RefreshEvent, Refreshed, Refresher, Stage};
use vstd::prelude::*;

verus! {

/// What happens next in a race. A refresh is named by its number.
pub enum Move<P> {
    /// The operation that a refresh is waiting for ends, and is reported to
    /// it with this event.
    Report(int, RefreshEvent<P>),
    /// The process of a refresh dies.
    Crash(int),
}

/// The refreshes of one key and the lock between them.
pub struct Race<P> {
    /// The number of the refresh that holds the lock, if one does.
    pub holder: Option<int>,
    pub refreshers: Seq<Refresher<P>>,
}

impl<P> Stage<P> {
    /// Whether a refresh in this stage fetches or writes: it has been given
    /// the lock and has not ended.
    pub open spec fn is_active(self) -> bool {
        self is Fetching || self is Opening || self is Writing || self is Publishing
    }
}

impl<P> Race<P> {
    /// One refresh for each fingerprint, none of which has asked for anything
    /// yet, and a free lock.
    pub open spec fn start(fingerprints: Seq<[u8; 20]>) -> Race<P> {
        Race {
            holder: None,
            refreshers: Seq::new(
                fingerprints.len(),
                |i: int| Refresher { fingerprint: fingerprints[i], stage: Stage::Idle },
            ),
        }
    }

    /// Whether the race has a refresh of this number.
    pub open spec fn has(self, who: int) -> bool {
        0 <= who < self.refreshers.len()
    }

    /// Whether the refresh `who` fetches or writes.
    pub open spec fn is_active(self, who: int) -> bool {
        self.has(who) && self.refreshers[who].stage.is_active()
    }

    /// The race with `refresher` in the place of `who`, and the lock held by
    /// `holder`.
    pub open spec fn with(self, who: int, refresher: Refresher<P>, holder: Option<int>) -> Race<P> {
        Race { holder, refreshers: self.refreshers.update(who, refresher) }
    }

    /// Whether `next` can happen in this race. Only the lock restricts what
    /// can: an attempt to take it is answered with
    /// [`LockOutcome::Acquired`] only while nobody holds it, and with
    /// [`LockOutcome::Held`] only while somebody does.
    pub open spec fn admits(self, next: Move<P>) -> bool {
        match next {
            Move::Report(who, RefreshEvent::Locked(outcome)) => self.has(who) && (
            self.refreshers[who].stage is Locking ==> (match outcome {
                LockOutcome::Acquired => self.holder is None,
                LockOutcome::Held => self.holder is Some,
                LockOutcome::Failed => true,
            })),
            Move::Report(who, _) => self.has(who),
            Move::Crash(who) => self.has(who),
        }
    }

    /// The race after `next`. A refresh that is given the lock holds it from
    /// then on; the lock is free again when the refresh that holds it ends,
    /// or when its process dies.
    pub open spec fn after(self, next: Move<P>) -> Race<P> {
        match next {
            Move::Report(who, event) => {
                let (refresher, action) = self.refreshers[who].step(event);
                let holder = if self.refreshers[who].stage is Locking && event == RefreshEvent::<
                    P,
                >::Locked(LockOutcome::Acquired) {
                    Some(who)
                } else if action.is_final() && self.holder == Some(who) {
                    None
                } else {
                    self.holder
                };
                self.with(who, refresher, holder)
            },
            Move::Crash(who) => self.with(
                who,
                self.refreshers[who].at(Stage::Finished),
                if self.holder == Some(who) {
                    None
                } else {
                    self.holder
                },
            ),
        }
    }

    /// Whether the moves can happen one after the other, from this race on.
    pub open spec fn admits_all(self, moves: Seq<Move<P>>) -> bool
        decreases moves.len(),
    {
        moves.len() == 0 || (self.admits(moves.first()) && self.after(moves.first()).admits_all(
            moves.drop_first(),
        ))
    }

    /// The race after the moves.
    pub open spec fn after_all(self, moves: Seq<Move<P>>) -> Race<P>
        decreases moves.len(),
    {
        if moves.len() == 0 {
            self
        } else {
            self.after(moves.first()).after_all(moves.drop_first())
        }
    }

    /// Whether each refresh that fetches or writes holds the lock.
    pub open spec fn is_exclusive(self) -> bool {
        forall|who: int| #[trigger] self.is_active(who) ==> self.holder == Some(who)
    }
}

/// A move that can happen keeps every fetching or writing refresh in
/// possession of the lock, and the number of refreshes as it is.
proof fn lemma_move_keeps_exclusive<P>(race: Race<P>, next: Move<P>)
    requires
        race.is_exclusive(),
        race.admits(next),
    ensures
        race.after(next).is_exclusive(),
        race.after(next).refreshers.len() == race.refreshers.len(),
{
    let then = race.after(next);
    assert forall|who: int| #[trigger] then.is_active(who) implies then.holder == Some(who) by {
        let moved = match next {
            Move::Report(mover, _) => mover,
            Move::Crash(mover) => mover,
        };
        if who != moved {
            assert(then.refreshers[who] == race.refreshers[who]);
            assert(race.is_active(who));
        } else if race.refreshers[who].stage.is_active() {
            assert(race.is_active(who));
        }
    }
}

/// Whatever the processes do and in whatever order, a refresh fetches or
/// writes only while it holds the lock.
proof fn lemma_moves_keep_exclusive<P>(race: Race<P>, moves: Seq<Move<P>>)
    requires
        race.is_exclusive(),
        race.admits_all(moves),
    ensures
        race.after_all(moves).is_exclusive(),
        race.after_all(moves).refreshers.len() == race.refreshers.len(),
    decreases moves.len(),
{
    if moves.len() > 0 {
        lemma_move_keeps_exclusive(race, moves.first());
        lemma_moves_keep_exclusive(race.after(moves.first()), moves.drop_first());
    }
}

/// Of any number of refreshes of one key that run at the same time, at most
/// one is fetching or writing at any moment, however their steps interleave
/// and whichever of them die on the way: no two of them are.
pub proof fn at_most_one_refresh_is_active<P>(
    fingerprints: Seq<[u8; 20]>,
    moves: Seq<Move<P>>,
    one: int,
    other: int,
)
    requires
        Race::<P>::start(fingerprints).admits_all(moves),
        one != other,
    ensures
        ({
            let race = Race::<P>::start(fingerprints).after_all(moves);
            &&& race.refreshers.len() == fingerprints.len()
            &&& !(race.is_active(one) && race.is_active(other))
        }),
{
    let race = Race::<P>::start(fingerprints);
    assert(race.is_exclusive());
    lemma_moves_keep_exclusive(race, moves);
}

/// A refresh that tries the lock while another refresh is fetching or
/// writing ends with that attempt: it is told that the lock is held and
/// ends with [`Refreshed::LockUnavailable`], or the attempt fails; in no
/// case does it fetch or write. The refresh that holds the lock goes on
/// holding it, and no other refresh is touched.
pub proof fn later_refresh_finds_lock_unavailable<P>(
    fingerprints: Seq<[u8; 20]>,
    moves: Seq<Move<P>>,
    who: int,
    holder: int,
    outcome: LockOutcome,
)
    requires
        Race::<P>::start(fingerprints).admits_all(moves),
        Race::<P>::start(fingerprints).after_all(moves).is_active(holder),
        Race::<P>::start(fingerprints).after_all(moves).has(who),
        Race::<P>::start(fingerprints).after_all(moves).refreshers[who].stage is Locking,
        Race::<P>::start(fingerprints).after_all(moves).admits(
            Move::Report(who, RefreshEvent::Locked(outcome)),
        ),
    ensures
        ({
            let race = Race::<P>::start(fingerprints).after_all(moves);
            let (refresher, action) = race.refreshers[who].step(RefreshEvent::Locked(outcome));
            let then = race.after(Move::Report(who, RefreshEvent::Locked(outcome)));
            &&& outcome != LockOutcome::Acquired
            &&& refresher.stage is Finished
            &&& outcome == LockOutcome::Held ==> action == RefreshAction::<P>::Finish(
                Refreshed::LockUnavailable,
            )
            &&& then.holder == Some(holder)
            &&& forall|i: int| race.has(i) && i != who ==> then.refreshers[i] == race.refreshers[i]
        }),
{
    let race = Race::<P>::start(fingerprints);
    assert(race.is_exclusive());
    lemma_moves_keep_exclusive(race, moves);
    let now = race.after_all(moves);
    assert(now.is_active(holder));
}

} // verus!
