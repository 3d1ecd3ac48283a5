use github_workflow::cache::{
    load, LoadAction, LoadError, LoadEvent, Loader, Phase, Policy, ReadOutcome, POLL_BOUND_MS,
    POLL_INTERVAL_MS, UPDATE_INTERVAL_MS,
};
use github_workflow::entry::Entry;
use github_workflow::time::Timestamp;

const F: [u8; 20] = [7u8; 20];
const G: [u8; 20] = [9u8; 20];

fn entry(fingerprint: [u8; 20], secs: u64, payload: &str) -> Entry<String> {
    Entry { fingerprint, refreshed_at: Timestamp::new(secs, 0), payload: payload.to_string() }
}

fn hour_policy() -> Policy {
    Policy::with_interval(3_600_000)
}

/// Feeds the events to a fresh loader and collects the actions, stopping at
/// the action that ends the load.
fn drive(policy: Policy, fingerprint: [u8; 20], events: Vec<LoadEvent<String>>) -> Vec<LoadAction<String>> {
    let mut loader: Loader<String> = Loader::new(fingerprint, policy);
    let mut actions = Vec::new();
    for event in events {
        let (next, action) = load(loader, event);
        loader = next;
        let done = action.ends_load();
        actions.push(action);
        if done {
            break;
        }
    }
    actions
}

#[test]
fn default_policy_is_a_minute_with_the_usual_polling() {
    let policy = Policy::default();
    assert_eq!(policy.interval_ms, 60_000);
    assert_eq!(policy.poll_interval_ms, 200);
    assert_eq!(policy.poll_bound_ms, 5_000);
    assert_eq!(UPDATE_INTERVAL_MS, 60_000);
    assert_eq!(POLL_INTERVAL_MS, 200);
    assert_eq!(POLL_BOUND_MS, 5_000);
}

#[test]
fn load_begins_by_reading_the_entry() {
    let loader: Loader<String> = Loader::new(F, Policy::default());
    let (loader, action) = load(loader, LoadEvent::Start);
    assert_eq!(action, LoadAction::ReadEntry);
    assert_eq!(loader.phase, Phase::Reading);
    assert_eq!(loader.fingerprint, F);
}

#[test]
fn fresh_entry_is_returned_without_refresh() {
    let actions = drive(
        hour_policy(),
        F,
        vec![
            LoadEvent::Start,
            LoadEvent::Read { outcome: ReadOutcome::Found(entry(F, 1_000, "P")), now: Timestamp::new(2_000, 0) },
        ],
    );
    assert_eq!(actions, vec![LoadAction::ReadEntry, LoadAction::Return("P".to_string())]);
    assert!(!actions.contains(&LoadAction::SpawnRefresh));
}

#[test]
fn entry_exactly_one_interval_old_is_still_fresh() {
    let actions = drive(
        hour_policy(),
        F,
        vec![
            LoadEvent::Start,
            LoadEvent::Read { outcome: ReadOutcome::Found(entry(F, 1_000, "P")), now: Timestamp::new(4_600, 0) },
        ],
    );
    assert_eq!(actions, vec![LoadAction::ReadEntry, LoadAction::Return("P".to_string())]);
}

#[test]
fn entry_one_nanosecond_past_the_interval_is_stale() {
    let actions = drive(
        hour_policy(),
        F,
        vec![
            LoadEvent::Start,
            LoadEvent::Read { outcome: ReadOutcome::Found(entry(F, 1_000, "P")), now: Timestamp::new(4_600, 1) },
            LoadEvent::Spawned { ok: true },
        ],
    );
    assert_eq!(
        actions,
        vec![LoadAction::ReadEntry, LoadAction::SpawnRefresh, LoadAction::Return("P".to_string())]
    );
}

#[test]
fn entry_stamped_in_the_future_is_fresh() {
    let actions = drive(
        hour_policy(),
        F,
        vec![
            LoadEvent::Start,
            LoadEvent::Read { outcome: ReadOutcome::Found(entry(F, 9_000, "P")), now: Timestamp::new(2_000, 0) },
        ],
    );
    assert_eq!(actions, vec![LoadAction::ReadEntry, LoadAction::Return("P".to_string())]);
}

#[test]
fn two_hour_old_entry_is_returned_and_one_refresh_started() {
    let now = 10_000_000;
    let actions = drive(
        hour_policy(),
        F,
        vec![
            LoadEvent::Start,
            LoadEvent::Read {
                outcome: ReadOutcome::Found(entry(F, now - 7_200, "old")),
                now: Timestamp::new(now, 0),
            },
            LoadEvent::Spawned { ok: true },
        ],
    );
    assert_eq!(
        actions,
        vec![LoadAction::ReadEntry, LoadAction::SpawnRefresh, LoadAction::Return("old".to_string())]
    );
    assert_eq!(actions.iter().filter(|a| **a == LoadAction::SpawnRefresh).count(), 1);
}

#[test]
fn other_fingerprint_forces_refresh_of_a_recent_entry() {
    let actions = drive(
        hour_policy(),
        G,
        vec![
            LoadEvent::Start,
            LoadEvent::Read { outcome: ReadOutcome::Found(entry(F, 1_000, "P")), now: Timestamp::new(1_001, 0) },
            LoadEvent::Spawned { ok: true },
        ],
    );
    assert_eq!(
        actions,
        vec![LoadAction::ReadEntry, LoadAction::SpawnRefresh, LoadAction::Return("P".to_string())]
    );
}

#[test]
fn stale_entry_fails_when_refresh_cannot_be_started() {
    let actions = drive(
        hour_policy(),
        G,
        vec![
            LoadEvent::Start,
            LoadEvent::Read { outcome: ReadOutcome::Found(entry(F, 1_000, "P")), now: Timestamp::new(1_001, 0) },
            LoadEvent::Spawned { ok: false },
        ],
    );
    assert_eq!(actions.last(), Some(&LoadAction::Fail(LoadError::SpawnFailed)));
}

#[test]
fn corrupt_entry_fails_the_load() {
    let actions = drive(
        hour_policy(),
        F,
        vec![LoadEvent::Start, LoadEvent::Read { outcome: ReadOutcome::Corrupt, now: Timestamp::new(1, 0) }],
    );
    assert_eq!(actions, vec![LoadAction::ReadEntry, LoadAction::Fail(LoadError::EntryCorrupt)]);
}

#[test]
fn unreadable_entry_fails_the_load() {
    let actions = drive(
        hour_policy(),
        F,
        vec![LoadEvent::Start, LoadEvent::Read { outcome: ReadOutcome::Unreadable, now: Timestamp::new(1, 0) }],
    );
    assert_eq!(actions, vec![LoadAction::ReadEntry, LoadAction::Fail(LoadError::EntryUnreadable)]);
}

#[test]
fn absent_entry_appears_after_one_second() {
    let mut events = vec![
        LoadEvent::Start,
        LoadEvent::Read { outcome: ReadOutcome::Missing, now: Timestamp::new(50, 0) },
        LoadEvent::DirCreated { ok: true },
        LoadEvent::Spawned { ok: true },
    ];
    for i in 1..5u64 {
        events.push(LoadEvent::Polled { outcome: ReadOutcome::Missing, elapsed_ms: i * 200 });
    }
    events.push(LoadEvent::Polled { outcome: ReadOutcome::Found(entry(F, 51, "P")), elapsed_ms: 1_000 });
    let actions = drive(Policy::default(), F, events);
    let mut expected = vec![LoadAction::ReadEntry, LoadAction::CreateDir, LoadAction::SpawnRefresh];
    for _ in 0..5 {
        expected.push(LoadAction::Poll { sleep_ms: 200 });
    }
    expected.push(LoadAction::Return("P".to_string()));
    assert_eq!(actions, expected);
}

#[test]
fn cold_start_times_out_after_twenty_five_polls() {
    let mut events = vec![
        LoadEvent::Start,
        LoadEvent::Read { outcome: ReadOutcome::Missing, now: Timestamp::new(50, 0) },
        LoadEvent::DirCreated { ok: true },
        LoadEvent::Spawned { ok: true },
    ];
    for i in 1..=40u64 {
        events.push(LoadEvent::Polled { outcome: ReadOutcome::Missing, elapsed_ms: i * 200 });
    }
    let actions = drive(Policy::default(), F, events);
    assert_eq!(actions.len(), 3 + 25 + 1);
    assert_eq!(actions.iter().filter(|a| **a == LoadAction::Poll { sleep_ms: 200 }).count(), 25);
    assert_eq!(actions.last(), Some(&LoadAction::Fail(LoadError::ColdStartTimeout)));
    assert_eq!(actions.iter().filter(|a| **a == LoadAction::SpawnRefresh).count(), 1);
}

#[test]
fn unreadable_file_while_polling_is_polled_again() {
    let actions = drive(
        Policy::default(),
        F,
        vec![
            LoadEvent::Start,
            LoadEvent::Read { outcome: ReadOutcome::Missing, now: Timestamp::new(50, 0) },
            LoadEvent::DirCreated { ok: true },
            LoadEvent::Spawned { ok: true },
            LoadEvent::Polled { outcome: ReadOutcome::Unreadable, elapsed_ms: 200 },
            LoadEvent::Polled { outcome: ReadOutcome::Corrupt, elapsed_ms: 400 },
        ],
    );
    assert_eq!(
        actions,
        vec![
            LoadAction::ReadEntry,
            LoadAction::CreateDir,
            LoadAction::SpawnRefresh,
            LoadAction::Poll { sleep_ms: 200 },
            LoadAction::Poll { sleep_ms: 200 },
            LoadAction::Fail(LoadError::EntryCorrupt),
        ]
    );
}

#[test]
fn polled_entry_is_returned_whatever_its_fingerprint() {
    let actions = drive(
        Policy::default(),
        G,
        vec![
            LoadEvent::Start,
            LoadEvent::Read { outcome: ReadOutcome::Missing, now: Timestamp::new(50, 0) },
            LoadEvent::DirCreated { ok: true },
            LoadEvent::Spawned { ok: true },
            LoadEvent::Polled { outcome: ReadOutcome::Found(entry(F, 1, "P")), elapsed_ms: 200 },
        ],
    );
    assert_eq!(actions.last(), Some(&LoadAction::Return("P".to_string())));
}

#[test]
fn zero_bound_times_out_without_polling() {
    let policy = Policy { interval_ms: 1, poll_interval_ms: 200, poll_bound_ms: 0 };
    let actions = drive(
        policy,
        F,
        vec![
            LoadEvent::Start,
            LoadEvent::Read { outcome: ReadOutcome::Missing, now: Timestamp::new(50, 0) },
            LoadEvent::DirCreated { ok: true },
            LoadEvent::Spawned { ok: true },
        ],
    );
    assert_eq!(actions.last(), Some(&LoadAction::Fail(LoadError::ColdStartTimeout)));
    assert_eq!(actions.len(), 4);
}

#[test]
fn directory_failure_fails_the_load_before_any_refresh() {
    let actions = drive(
        Policy::default(),
        F,
        vec![
            LoadEvent::Start,
            LoadEvent::Read { outcome: ReadOutcome::Missing, now: Timestamp::new(50, 0) },
            LoadEvent::DirCreated { ok: false },
        ],
    );
    assert_eq!(
        actions,
        vec![LoadAction::ReadEntry, LoadAction::CreateDir, LoadAction::Fail(LoadError::DirectoryUnavailable)]
    );
}

#[test]
fn cold_start_fails_when_refresh_cannot_be_started() {
    let actions = drive(
        Policy::default(),
        F,
        vec![
            LoadEvent::Start,
            LoadEvent::Read { outcome: ReadOutcome::Missing, now: Timestamp::new(50, 0) },
            LoadEvent::DirCreated { ok: true },
            LoadEvent::Spawned { ok: false },
        ],
    );
    assert_eq!(actions.last(), Some(&LoadAction::Fail(LoadError::SpawnFailed)));
}

#[test]
fn event_out_of_turn_fails_the_load() {
    let actions = drive(Policy::default(), F, vec![LoadEvent::Spawned { ok: true }]);
    assert_eq!(actions, vec![LoadAction::Fail(LoadError::UnexpectedEvent)]);
    let loader: Loader<String> = Loader { fingerprint: F, policy: Policy::default(), phase: Phase::Finished };
    let (loader, action) = load(loader, LoadEvent::Start);
    assert_eq!(action, LoadAction::Fail(LoadError::UnexpectedEvent));
    assert_eq!(loader.phase, Phase::Finished);
}

#[test]
fn entry_freshness_and_staleness_are_opposites() {
    let e = entry(F, 100, "P");
    assert!(e.is_fresh(&F, &Timestamp::new(160, 0), 60_000));
    assert!(!e.needs_refresh(&F, &Timestamp::new(160, 0), 60_000));
    assert!(!e.is_fresh(&F, &Timestamp::new(160, 1), 60_000));
    assert!(e.needs_refresh(&F, &Timestamp::new(160, 1), 60_000));
    assert!(!e.is_fresh(&G, &Timestamp::new(100, 0), 60_000));
    assert!(e.needs_refresh(&G, &Timestamp::new(100, 0), 60_000));
}

#[test]
fn timestamps_count_nanoseconds() {
    assert_eq!(Timestamp::new(2, 5).total_nanos(), 2_000_000_005);
    assert_eq!(Timestamp::new(u64::MAX, u32::MAX).total_nanos(), 18_446_744_073_709_551_615_000_000_000u128 + 4_294_967_295u128);
    assert!(Timestamp::new(10, 0).within(&Timestamp::new(9, 0), 1_000));
    assert!(!Timestamp::new(10, 1).within(&Timestamp::new(9, 0), 1_000));
    assert!(Timestamp::new(10, 0).within(&Timestamp::new(0, 0), u64::MAX));
}
