use github_workflow::entry::Entry;
use github_workflow::logger::Level;
use github_workflow::refresh::{
    update, LockOutcome, RefreshAction, RefreshError, RefreshEvent, Refreshed, Refresher, Stage,
};
use github_workflow::time::Timestamp;

const F: [u8; 20] = [3u8; 20];

fn drive(events: Vec<RefreshEvent<String>>) -> Vec<RefreshAction<String>> {
    let mut refresher: Refresher<String> = Refresher::new(F);
    let mut actions = Vec::new();
    for event in events {
        let (next, action) = update(refresher, event);
        refresher = next;
        let done = action.ends_refresh();
        actions.push(action);
        if done {
            break;
        }
    }
    actions
}

fn up_to_fetch() -> Vec<RefreshEvent<String>> {
    vec![
        RefreshEvent::Start,
        RefreshEvent::LoggerReady { ok: true },
        RefreshEvent::Locked(LockOutcome::Acquired),
    ]
}

#[test]
fn refresh_writes_the_temporary_file_and_then_moves_it() {
    let mut events = up_to_fetch();
    events.push(RefreshEvent::Fetched(Some("new".to_string())));
    events.push(RefreshEvent::TempOpened { ok: true, now: Timestamp::new(77, 5) });
    events.push(RefreshEvent::Written { ok: true });
    events.push(RefreshEvent::Published { ok: true });
    assert_eq!(
        drive(events),
        vec![
            RefreshAction::InitLogger,
            RefreshAction::TryLock,
            RefreshAction::Fetch,
            RefreshAction::OpenTemp,
            RefreshAction::WriteTemp(Entry {
                fingerprint: F,
                refreshed_at: Timestamp::new(77, 5),
                payload: "new".to_string(),
            }),
            RefreshAction::Publish,
            RefreshAction::Finish(Refreshed::Updated),
        ]
    );
}

#[test]
fn refresh_runs_all_the_same_when_logging_could_not_be_set_up() {
    let actions = drive(vec![
        RefreshEvent::Start,
        RefreshEvent::LoggerReady { ok: false },
        RefreshEvent::Locked(LockOutcome::Acquired),
        RefreshEvent::Fetched(Some("d".to_string())),
        RefreshEvent::TempOpened { ok: true, now: Timestamp::new(9, 0) },
        RefreshEvent::Written { ok: true },
        RefreshEvent::Published { ok: true },
    ]);
    assert_eq!(
        actions,
        vec![
            RefreshAction::InitLogger,
            RefreshAction::TryLock,
            RefreshAction::Fetch,
            RefreshAction::OpenTemp,
            RefreshAction::WriteTemp(Entry {
                fingerprint: F,
                refreshed_at: Timestamp::new(9, 0),
                payload: "d".to_string(),
            }),
            RefreshAction::Publish,
            RefreshAction::Finish(Refreshed::Updated),
        ]
    );
    let held = drive(vec![
        RefreshEvent::Start,
        RefreshEvent::LoggerReady { ok: false },
        RefreshEvent::Locked(LockOutcome::Held),
    ]);
    assert_eq!(held.last(), Some(&RefreshAction::Finish(Refreshed::LockUnavailable)));
}

#[test]
fn held_lock_ends_the_refresh_without_fetch_or_write() {
    let actions = drive(vec![
        RefreshEvent::Start,
        RefreshEvent::LoggerReady { ok: true },
        RefreshEvent::Locked(LockOutcome::Held),
        RefreshEvent::Fetched(Some("never".to_string())),
    ]);
    assert_eq!(
        actions,
        vec![
            RefreshAction::InitLogger,
            RefreshAction::TryLock,
            RefreshAction::Finish(Refreshed::LockUnavailable),
        ]
    );
}

#[test]
fn each_failing_operation_ends_the_refresh_with_its_error() {
    let last = |events: Vec<RefreshEvent<String>>| drive(events).pop().unwrap();
    assert_eq!(
        last(vec![
            RefreshEvent::Start,
            RefreshEvent::LoggerReady { ok: true },
            RefreshEvent::Locked(LockOutcome::Failed)
        ]),
        RefreshAction::Finish(Refreshed::Failed(RefreshError::LockFailed))
    );
    let mut events = up_to_fetch();
    events.push(RefreshEvent::Fetched(None));
    assert_eq!(last(events), RefreshAction::Finish(Refreshed::Failed(RefreshError::FetchFailed)));
    let mut events = up_to_fetch();
    events.push(RefreshEvent::Fetched(Some("p".to_string())));
    events.push(RefreshEvent::TempOpened { ok: false, now: Timestamp::new(1, 0) });
    assert_eq!(last(events), RefreshAction::Finish(Refreshed::Failed(RefreshError::TempUnavailable)));
    let mut events = up_to_fetch();
    events.push(RefreshEvent::Fetched(Some("p".to_string())));
    events.push(RefreshEvent::TempOpened { ok: true, now: Timestamp::new(1, 0) });
    events.push(RefreshEvent::Written { ok: false });
    let actions = drive(events);
    assert_eq!(actions.last(), Some(&RefreshAction::Finish(Refreshed::Failed(RefreshError::WriteFailed))));
    assert!(!actions.contains(&RefreshAction::Publish));
    let mut events = up_to_fetch();
    events.push(RefreshEvent::Fetched(Some("p".to_string())));
    events.push(RefreshEvent::TempOpened { ok: true, now: Timestamp::new(1, 0) });
    events.push(RefreshEvent::Written { ok: true });
    events.push(RefreshEvent::Published { ok: false });
    assert_eq!(last(events), RefreshAction::Finish(Refreshed::Failed(RefreshError::PublishFailed)));
}

#[test]
fn event_out_of_turn_fails_the_refresh() {
    let actions = drive(vec![RefreshEvent::Start, RefreshEvent::Written { ok: true }]);
    assert_eq!(
        actions,
        vec![
            RefreshAction::InitLogger,
            RefreshAction::Finish(Refreshed::Failed(RefreshError::UnexpectedEvent))
        ]
    );
    let refresher: Refresher<String> = Refresher::new(F);
    assert_eq!(refresher.stage, Stage::Idle);
}

#[test]
fn end_of_a_refresh_is_reported() {
    assert_eq!(
        Refreshed::Updated.report("/c/k/data.json", ""),
        (Level::Info, "fetched /c/k/data.json and updated cache".to_string())
    );
    assert_eq!(
        Refreshed::LockUnavailable.report("/c/k/data.json", ""),
        (Level::Info, "another process updated cache for /c/k/data.json".to_string())
    );
    assert_eq!(
        Refreshed::Failed(RefreshError::FetchFailed).report("/c/k/data.json", "connection refused"),
        (Level::Error, "connection refused".to_string())
    );
}
