use github_workflow::logger::{init, InitError, Level, Logger};
use github_workflow::repository::{filter_text, Item, Moment, Repository};

fn repo(name: &str) -> Repository {
    Repository {
        owner: "octo".to_string(),
        name: name.to_string(),
        description: None,
        url: format!("https://github.com/octo/{}", name),
        is_fork: false,
        is_archived: false,
        is_private: false,
        updated_at: Moment { secs: 1_000, nanos: 0 },
    }
}

#[test]
fn default_logger_writes_up_to_info() {
    let logger = Logger::new();
    assert_eq!(logger.max_level, Level::Info);
    assert!(logger.enabled(Level::Error));
    assert!(logger.enabled(Level::Warn));
    assert!(logger.enabled(Level::Info));
    assert!(!logger.enabled(Level::Debug));
    assert!(!logger.enabled(Level::Trace));
}

#[test]
fn verbose_logger_writes_everything() {
    let logger = Logger::with_max_level(Level::Trace);
    assert!(logger.enabled(Level::Trace));
    assert!(logger.enabled(Level::Error));
    assert!(!Logger::with_max_level(Level::Error).enabled(Level::Warn));
}

#[test]
fn levels_are_ranked_and_named() {
    let ranks: Vec<u8> = [Level::Error, Level::Warn, Level::Info, Level::Debug, Level::Trace]
        .iter()
        .map(|l| l.severity())
        .collect();
    assert_eq!(ranks, vec![1, 2, 3, 4, 5]);
    assert_eq!(Level::Error.as_str(), "ERROR");
    assert_eq!(Level::Warn.as_str(), "WARN");
    assert_eq!(Level::Info.as_str(), "INFO");
    assert_eq!(Level::Debug.as_str(), "DEBUG");
    assert_eq!(Level::Trace.as_str(), "TRACE");
}

#[test]
fn log_line_has_time_level_and_message() {
    let logger = Logger::new();
    assert_eq!(
        logger.line("2024-05-06T07:08:09", Level::Info, "fetched x and updated cache"),
        Some("[2024-05-06T07:08:09] [INFO] fetched x and updated cache\n".to_string())
    );
    assert_eq!(
        logger.line("2024-05-06T07:08:09", Level::Error, ""),
        Some("[2024-05-06T07:08:09] [ERROR] \n".to_string())
    );
    assert_eq!(logger.line("2024-05-06T07:08:09", Level::Debug, "hidden"), None);
}

#[test]
fn log_file_is_named_after_package_and_version() {
    assert_eq!(Logger::file_name("github", "0.3.1"), "github-0.3.1.log");
}

#[test]
fn init_passes_the_outcome_of_the_installation_on() {
    assert_eq!(init(Ok(())), Ok(()));
    assert_eq!(log::max_level(), log::LevelFilter::Info);
}

#[test]
fn init_reports_a_logger_installed_before() {
    let first = log::set_logger(log::logger());
    assert!(first.is_ok());
    let second = log::set_logger(log::logger());
    assert!(second.is_err());
    assert_eq!(init(second), Err(InitError::AlreadyInstalled));
    assert_eq!(init(first), Ok(()));
}

#[test]
fn title_is_owner_slash_name() {
    assert_eq!(repo("hello").title(), "octo/hello");
}

#[test]
fn private_and_archived_repositories_are_marked() {
    let mut r = repo("hello");
    r.is_private = true;
    assert_eq!(r.title(), "octo/hello \u{1F512}");
    r.is_archived = true;
    assert_eq!(r.title(), "octo/hello \u{1F512} \u{1F4C1}");
    r.is_private = false;
    assert_eq!(r.title(), "octo/hello \u{1F4C1}");
}

#[test]
fn item_carries_title_address_and_description() {
    let mut r = repo("hello");
    assert_eq!(
        r.clone().into_item(),
        Item {
            title: "octo/hello".to_string(),
            subtitle: None,
            arg: "https://github.com/octo/hello".to_string()
        }
    );
    r.description = Some("greets".to_string());
    assert_eq!(r.into_item().subtitle, Some("greets".to_string()));
}

#[test]
fn filter_text_is_trimmed_and_lowered() {
    assert_eq!(filter_text(Some("  HeLLo \t")), "hello");
    assert_eq!(filter_text(Some("")), "");
    assert_eq!(filter_text(None), "");
}

#[test]
fn repositories_match_by_part_of_their_name() {
    let r = repo("hello-world");
    assert!(r.matches("lo-wo"));
    assert!(r.matches(""));
    assert!(r.matches("hello-world"));
    assert!(!r.matches("hello-world!"));
    assert!(!r.matches("octo"));
    assert!(!r.matches("HELLO"));
}

#[test]
fn archived_then_forks_then_older_come_after() {
    let plain = repo("a");
    let mut fork = repo("b");
    fork.is_fork = true;
    let mut archived = repo("c");
    archived.is_archived = true;
    let mut older = repo("d");
    older.updated_at = Moment { secs: 999, nanos: 999_999_999 };
    let mut newer = repo("e");
    newer.updated_at = Moment { secs: 1_000, nanos: 1 };
    assert!(fork.comes_after(&plain));
    assert!(!plain.comes_after(&fork));
    assert!(archived.comes_after(&fork));
    assert!(!fork.comes_after(&archived));
    assert!(older.comes_after(&plain));
    assert!(plain.comes_after(&newer));
    assert!(!newer.comes_after(&plain));
    assert!(!plain.comes_after(&plain));
    assert!(!plain.comes_after(&repo("z")));
}

#[test]
fn only_fitting_repositories_are_kept_in_their_order() {
    let repos = vec![repo("alpha"), repo("beta"), repo("alphabet"), repo("gamma")];
    let kept = github_workflow::listing::keep_fitting(repos.clone(), "alpha");
    assert_eq!(kept, vec![repo("alpha"), repo("alphabet")]);
    assert_eq!(github_workflow::listing::keep_fitting(repos.clone(), ""), repos);
    assert!(github_workflow::listing::keep_fitting(repos, "delta").is_empty());
}

#[test]
fn repositories_are_shown_by_rank_and_ties_keep_their_order() {
    let mut archived = repo("archived");
    archived.is_archived = true;
    let mut archived_new = repo("archived-new");
    archived_new.is_archived = true;
    archived_new.updated_at = Moment { secs: 5_000, nanos: 0 };
    let mut fork = repo("fork");
    fork.is_fork = true;
    fork.updated_at = Moment { secs: 9_000, nanos: 0 };
    let mut old = repo("old");
    old.updated_at = Moment { secs: 10, nanos: 0 };
    let mut new = repo("new");
    new.updated_at = Moment { secs: 2_000, nanos: 0 };
    let first_tie = repo("tie-one");
    let second_tie = repo("tie-two");
    let listed = github_workflow::listing::sort(vec![
        archived.clone(),
        first_tie.clone(),
        fork.clone(),
        old.clone(),
        archived_new.clone(),
        second_tie.clone(),
        new.clone(),
    ]);
    assert_eq!(listed, vec![new, first_tie, second_tie, old, fork, archived_new, archived]);
    assert!(github_workflow::listing::sort(Vec::new()).is_empty());
}

#[test]
fn blank_argument_filters_nothing() {
    assert_eq!(filter_text(Some("  ")), "");
    assert_eq!(filter_text(Some("\t\n\u{0B}\u{0C}\r \u{85}\u{A0}\u{1680}\u{2000}\u{200A}\u{2028}\u{2029}\u{202F}\u{205F}\u{3000}")), "");
    let repos = vec![repo("alpha"), repo("beta")];
    assert_eq!(github_workflow::listing::keep_fitting(repos.clone(), &filter_text(Some(" \t "))), repos);
}

#[test]
fn only_white_space_is_cut_off_and_only_at_the_ends() {
    assert_eq!(filter_text(Some("\u{3000}a b\u{2009}")), "a b");
    assert_eq!(filter_text(Some("\u{200B}a\u{200B}")), "\u{200B}a\u{200B}");
    assert_eq!(filter_text(Some("\u{1C}a\u{1F}")), "\u{1C}a\u{1F}");
    assert_eq!(filter_text(Some("x  y")), "x  y");
}
