//! The client's side of a rename, with a remote that is played.
use lore_rename::rename::{
    contains_scheme, rename, Action, Config, Event, Phase, RenameArgs, RepositoryError, Target,
};
use lore_rename::types::RepositoryId;

/// A remote and a working copy.
struct Side {
    target: Option<(&'static str, &'static str)>,
    config: Option<Option<&'static str>>,
    valid: bool,
    connects: bool,
    opens: bool,
    parsed: Option<RepositoryId>,
    found: Option<RepositoryId>,
    renames: bool,
    asked: Vec<Action>,
}

fn id_of(seed: u8) -> RepositoryId {
    RepositoryId { bytes: [seed; 16] }
}

impl Side {
    fn new() -> Side {
        Side {
            target: Some(("lore://host:1", "alpha/one")),
            config: Some(Some("lore://origin")),
            valid: true,
            connects: true,
            opens: true,
            parsed: None,
            found: Some(id_of(4)),
            renames: true,
            asked: Vec::new(),
        }
    }

    fn perform(&mut self, action: &Action) -> Event {
        match action {
            Action::Receive => panic!("the call has come in"),
            Action::ParseUrl { .. } => Event::UrlParsed(self.target.map(|(remote_url, name)| Target {
                remote_url: remote_url.to_string(),
                name: name.to_string(),
            })),
            Action::ReadConfig => Event::ConfigRead(match self.config {
                None => Config::Unreadable,
                Some(remote_url) => Config::Read {
                    remote_url: remote_url.map(|url| url.to_string()),
                },
            }),
            Action::CheckName { .. } => Event::NameChecked(self.valid),
            Action::Connect { .. } => Event::Connected(self.connects),
            Action::OpenService => Event::ServiceOpened(self.opens),
            Action::ParseId { .. } => Event::IdParsed(self.parsed),
            Action::Query { .. } => Event::Queried(self.found),
            Action::Rename { .. } => Event::Renamed(self.renames),
            Action::Return { .. } => panic!("the rename is over"),
        }
    }

    fn rename(&mut self, repository_url: &str, dry_run: bool) -> Result<(), RepositoryError> {
        let (mut phase, mut action) = rename(
            Phase::Start,
            Event::Called(RenameArgs {
                repository_url: repository_url.to_string(),
                new_name: "beta/one".to_string(),
                identity: "alice".to_string(),
                dry_run,
            }),
        );
        for _ in 0..8 {
            if let Action::Return { outcome } = action {
                return outcome;
            }
            let event = self.perform(&action);
            self.asked.push(action);
            let (next_phase, next_action) = rename(phase, event);
            phase = next_phase;
            action = next_action;
        }
        panic!("a rename takes at most seven actions");
    }
}

fn unreachable_remote(remote_url: &str) -> Result<(), RepositoryError> {
    Err(RepositoryError::Forwarded {
        context: format!("Failed to connect to remote repository {remote_url}"),
    })
}

#[test]
fn a_url_is_parsed_and_its_repository_renamed_by_id() {
    let mut side = Side::new();
    assert_eq!(side.rename("lore://host:1/alpha/one", false), Ok(()));
    assert_eq!(
        side.asked,
        vec![
            Action::ParseUrl {
                url: "lore://host:1/alpha/one".to_string()
            },
            Action::CheckName {
                name: "beta/one".to_string()
            },
            Action::Connect {
                remote_url: "lore://host:1".to_string(),
                identity: "alice".to_string(),
                id: RepositoryId::default(),
            },
            Action::OpenService,
            Action::ParseId {
                text: "alpha/one".to_string()
            },
            Action::Query {
                name: "alpha/one".to_string()
            },
            Action::Rename {
                id: id_of(4),
                new_name: "beta/one".to_string(),
            },
        ]
    );
}

#[test]
fn a_bare_name_is_taken_whole_on_the_working_copys_remote() {
    let mut side = Side::new();
    assert_eq!(side.rename("org/project", false), Ok(()));
    assert_eq!(side.asked[0], Action::ReadConfig);
    assert_eq!(
        side.asked[2],
        Action::Connect {
            remote_url: "lore://origin".to_string(),
            identity: "alice".to_string(),
            id: RepositoryId::default(),
        }
    );
    assert_eq!(
        side.asked[4],
        Action::ParseId {
            text: "org/project".to_string()
        }
    );
    assert_eq!(
        side.asked[5],
        Action::Query {
            name: "org/project".to_string()
        }
    );
}

#[test]
fn an_id_is_not_looked_up() {
    let mut side = Side::new();
    side.parsed = Some(id_of(8));
    side.found = None;
    assert_eq!(side.rename("08080808080808080808080808080808", false), Ok(()));
    assert_eq!(
        side.asked.last(),
        Some(&Action::Rename {
            id: id_of(8),
            new_name: "beta/one".to_string(),
        })
    );
    assert!(!side.asked.iter().any(|a| matches!(a, Action::Query { .. })));
}

#[test]
fn the_zero_id_is_looked_up_by_name() {
    let mut side = Side::new();
    side.parsed = Some(RepositoryId::default());
    assert_eq!(side.rename("00000000000000000000000000000000", false), Ok(()));
    assert!(side.asked.iter().any(|a| matches!(a, Action::Query { .. })));
    assert_eq!(
        side.asked.last(),
        Some(&Action::Rename {
            id: id_of(4),
            new_name: "beta/one".to_string(),
        })
    );
}

#[test]
fn a_dry_run_stops_short_of_the_rename() {
    let mut side = Side::new();
    side.renames = false;
    assert_eq!(side.rename("alpha/one", true), Ok(()));
    assert_eq!(
        side.asked.last(),
        Some(&Action::Query {
            name: "alpha/one".to_string()
        })
    );
}

#[test]
fn a_dry_run_succeeds_only_where_nothing_stands_in_the_way() {
    let mut side = Side::new();
    side.valid = false;
    assert!(side.rename("alpha/one", true).is_err());
    let mut side = Side::new();
    side.connects = false;
    assert!(side.rename("alpha/one", true).is_err());
    let mut side = Side::new();
    side.opens = false;
    assert!(side.rename("alpha/one", true).is_err());
    let mut side = Side::new();
    side.found = None;
    assert!(side.rename("alpha/one", true).is_err());
}

#[test]
fn a_bad_url_is_refused() {
    let mut side = Side::new();
    side.target = None;
    assert_eq!(side.rename("lore://", false), Err(RepositoryError::Url));
    assert_eq!(side.asked.len(), 1);
}

#[test]
fn without_a_remote_there_is_nobody_to_ask() {
    for config in [Some(None), Some(Some(""))] {
        let mut side = Side::new();
        side.config = config;
        assert_eq!(
            side.rename("alpha/one", false),
            Err(RepositoryError::NoRemote)
        );
        assert_eq!(side.asked, vec![Action::ReadConfig]);
    }
}

#[test]
fn an_unreadable_configuration_does_not_pass_for_a_missing_remote() {
    let mut side = Side::new();
    side.config = None;
    assert_eq!(
        side.rename("alpha/one", false),
        Err(RepositoryError::Config)
    );
    assert_eq!(side.asked, vec![Action::ReadConfig]);

    // A URL needs no configuration.
    let mut side = Side::new();
    side.config = None;
    assert_eq!(side.rename("lore://host:1/alpha/one", false), Ok(()));
}

#[test]
fn an_invalid_new_name_reaches_no_remote() {
    let mut side = Side::new();
    side.valid = false;
    assert_eq!(
        side.rename("alpha/one", false),
        Err(RepositoryError::Internal {
            message: "Invalid repository name, can only contain alphanumerical characters and separators /-_"
                .to_string()
        })
    );
    assert_eq!(side.asked.len(), 2);
}

#[test]
fn a_remote_that_cannot_be_reached_is_named() {
    let mut side = Side::new();
    side.connects = false;
    assert_eq!(
        side.rename("alpha/one", false),
        unreachable_remote("lore://origin")
    );
    let mut side = Side::new();
    side.opens = false;
    assert_eq!(
        side.rename("lore://host:1/alpha/one", false),
        unreachable_remote("lore://host:1")
    );
}

#[test]
fn a_name_that_the_remote_does_not_know_is_reported() {
    let mut side = Side::new();
    side.found = None;
    assert_eq!(
        side.rename("alpha/one", false),
        Err(RepositoryError::Forwarded {
            context: "Repository not found".to_string()
        })
    );
}

#[test]
fn a_rename_that_the_remote_refuses_is_reported() {
    let mut side = Side::new();
    side.renames = false;
    assert_eq!(
        side.rename("alpha/one", false),
        Err(RepositoryError::Forwarded {
            context: "Failed to rename repository".to_string()
        })
    );
}

#[test]
fn only_a_scheme_makes_a_url() {
    assert!(contains_scheme("lore://host/alpha"));
    assert!(contains_scheme("://"));
    assert!(contains_scheme("a::://b"));
    assert!(contains_scheme("ä://ö"));
    assert!(!contains_scheme(""));
    assert!(!contains_scheme("org/project"));
    assert!(!contains_scheme("host:/alpha"));
    assert!(!contains_scheme("host:a//b"));
    assert!(!contains_scheme("//host:"));
}

#[test]
fn an_event_that_is_not_waited_for_is_passed_over() {
    let (phase, action) = rename(Phase::Start, Event::Renamed(true));
    assert_eq!(phase, Phase::Start);
    assert_eq!(action, Action::Receive);
}
