//! The client's side of a rename.
//!
//! A repository is addressed by a full URL, or by a bare name or id on the
//! remote that the working copy already points at. Only a scheme tells the two
//! apart: names may be scoped, like `org/project`, so a slash does not mean
//! that the first segment is a host.
//!
//! A configuration of the working copy that is there but cannot be read is an
//! error, and does not pass for one that names no remote.
//!
//! The rename itself goes out by id, so re-issuing it after a partial rename
//! still lands although the old name has stopped resolving.
//!
//! The remote and the working copy are asked from outside: [`rename`] takes
//! the phase that a rename is in and what came back of the last action, and
//! gives the next phase and the next action.
use vstd::prelude::*;

use crate::types::{RepositoryId, Text};

verus! {

/// What a rename is called with.
#[derive(Debug, PartialEq, Eq)]
pub struct RenameArgs<S = String> {
    /// A full URL, or a bare name or id.
    pub repository_url: S,
    pub new_name: S,
    /// The identity to connect under.
    pub identity: S,
    /// Whether to stop short of the rename itself.
    pub dry_run: bool,
}

impl View for RenameArgs {
    type V = RenameArgs<Text>;

    open spec fn view(&self) -> RenameArgs<Text> {
        RenameArgs {
            repository_url: self.repository_url@,
            new_name: self.new_name@,
            identity: self.identity@,
            dry_run: self.dry_run,
        }
    }
}

/// Why a rename failed.
#[derive(Debug, PartialEq, Eq)]
pub enum RepositoryError<S = String> {
    /// The URL could not be parsed; the parser's own error stands.
    Url,
    /// The working copy's configuration could not be read; the reader's own
    /// error stands.
    Config,
    /// The working copy points at no remote.
    NoRemote,
    /// An error of this library's own.
    Internal { message: S },
    /// The error of the last action, passed on with a context.
    Forwarded { context: S },
}

impl View for RepositoryError {
    type V = RepositoryError<Text>;

    open spec fn view(&self) -> RepositoryError<Text> {
        match self {
            RepositoryError::Url => RepositoryError::Url,
            RepositoryError::Config => RepositoryError::Config,
            RepositoryError::NoRemote => RepositoryError::NoRemote,
            RepositoryError::Internal { message } => RepositoryError::Internal {
                message: message@,
            },
            RepositoryError::Forwarded { context } => RepositoryError::Forwarded {
                context: context@,
            },
        }
    }
}

impl Clone for RepositoryError {
    fn clone(&self) -> (copy: RepositoryError)
        ensures
            copy@ == self@,
    {
        match self {
            RepositoryError::Url => RepositoryError::Url,
            RepositoryError::Config => RepositoryError::Config,
            RepositoryError::NoRemote => RepositoryError::NoRemote,
            RepositoryError::Internal { message } => RepositoryError::Internal {
                message: message.clone(),
            },
            RepositoryError::Forwarded { context } => RepositoryError::Forwarded {
                context: context.clone(),
            },
        }
    }
}

/// The view of the outcome of a rename.
pub open spec fn view_outcome(outcome: Result<(), RepositoryError>) -> Result<
    (),
    RepositoryError<Text>,
> {
    match outcome {
        Ok(_) => Ok(()),
        Err(error) => Err(error@),
    }
}

/// A repository on a remote, as it was addressed.
#[derive(Debug, PartialEq, Eq)]
pub struct Target<S = String> {
    pub remote_url: S,
    /// The repository's name, or its id as text.
    pub name: S,
}

impl View for Target {
    type V = Target<Text>;

    open spec fn view(&self) -> Target<Text> {
        Target { remote_url: self.remote_url@, name: self.name@ }
    }
}

/// What the working copy's configuration says.
#[derive(Debug, PartialEq, Eq)]
pub enum Config<S = String> {
    /// It is there but could not be read.
    Unreadable,
    /// It was read, or there is none; the remote that it names, if it names
    /// one.
    Read { remote_url: Option<S> },
}

impl View for Config {
    type V = Config<Text>;

    open spec fn view(&self) -> Config<Text> {
        match self {
            Config::Unreadable => Config::Unreadable,
            Config::Read { remote_url } => Config::Read {
                remote_url: match remote_url {
                    Some(url) => Some(url@),
                    None => None,
                },
            },
        }
    }
}

impl Config<Text> {
    /// The remote that the configuration names, empty where it names none.
    pub open spec fn remote(self) -> Text {
        match self {
            Config::Read { remote_url: Some(url) } => url,
            _ => Seq::empty(),
        }
    }
}

/// What came back of an action.
#[derive(Debug, PartialEq, Eq)]
pub enum Event<S = String> {
    /// The rename was called.
    Called(RenameArgs<S>),
    /// What the URL leads to; `None` where it could not be parsed.
    UrlParsed(Option<Target<S>>),
    /// The working copy's configuration.
    ConfigRead(Config<S>),
    /// Whether the new name is one that a repository can have.
    NameChecked(bool),
    /// Whether the remote was connected to.
    Connected(bool),
    /// Whether the remote's repository service was opened.
    ServiceOpened(bool),
    /// The id that the text stands for; `None` where it stands for none.
    IdParsed(Option<RepositoryId>),
    /// The id of the repository of that name; `None` where the query failed.
    Queried(Option<RepositoryId>),
    /// Whether the remote renamed the repository.
    Renamed(bool),
}

/// The view of a target that may be missing.
pub open spec fn view_target(target: Option<Target>) -> Option<Target<Text>> {
    match target {
        Some(target) => Some(target@),
        None => None,
    }
}

impl View for Event {
    type V = Event<Text>;

    open spec fn view(&self) -> Event<Text> {
        match self {
            Event::Called(args) => Event::Called(args@),
            Event::UrlParsed(target) => Event::UrlParsed(view_target(*target)),
            Event::ConfigRead(config) => Event::ConfigRead(config@),
            Event::NameChecked(valid) => Event::NameChecked(*valid),
            Event::Connected(done) => Event::Connected(*done),
            Event::ServiceOpened(done) => Event::ServiceOpened(*done),
            Event::IdParsed(id) => Event::IdParsed(*id),
            Event::Queried(id) => Event::Queried(*id),
            Event::Renamed(done) => Event::Renamed(*done),
        }
    }
}

/// The phase that a rename is in: what has been found out, and which action is
/// under way.
#[derive(Debug, PartialEq, Eq)]
pub enum Phase<S = String> {
    /// The rename has not been called yet.
    Start,
    /// The URL is being parsed.
    ParsingUrl { args: RenameArgs<S> },
    /// The working copy's configuration is being read.
    ReadingConfig { args: RenameArgs<S> },
    /// The new name is being checked.
    CheckingName { args: RenameArgs<S>, target: Target<S> },
    /// The remote is being connected to.
    Connecting { args: RenameArgs<S>, target: Target<S> },
    /// The remote's repository service is being opened.
    Opening { args: RenameArgs<S>, target: Target<S> },
    /// The repository's name is being read as an id.
    ParsingId { args: RenameArgs<S>, target: Target<S> },
    /// The remote is being asked for the repository of that name.
    Querying { args: RenameArgs<S>, target: Target<S> },
    /// The remote is being asked for the rename.
    Renaming { id: RepositoryId, new_name: S },
    /// The rename is over.
    Finished { outcome: Result<(), RepositoryError<S>> },
}

impl View for Phase {
    type V = Phase<Text>;

    open spec fn view(&self) -> Phase<Text> {
        match self {
            Phase::Start => Phase::Start,
            Phase::ParsingUrl { args } => Phase::ParsingUrl { args: args@ },
            Phase::ReadingConfig { args } => Phase::ReadingConfig { args: args@ },
            Phase::CheckingName { args, target } => Phase::CheckingName {
                args: args@,
                target: target@,
            },
            Phase::Connecting { args, target } => Phase::Connecting {
                args: args@,
                target: target@,
            },
            Phase::Opening { args, target } => Phase::Opening { args: args@, target: target@ },
            Phase::ParsingId { args, target } => Phase::ParsingId { args: args@, target: target@ },
            Phase::Querying { args, target } => Phase::Querying { args: args@, target: target@ },
            Phase::Renaming { id, new_name } => Phase::Renaming { id: *id, new_name: new_name@ },
            Phase::Finished { outcome } => Phase::Finished { outcome: view_outcome(*outcome) },
        }
    }
}

/// What is to be done next.
#[derive(Debug, PartialEq, Eq)]
pub enum Action<S = String> {
    /// Wait for the call.
    Receive,
    /// Split a URL into its remote and the repository's name.
    ParseUrl { url: S },
    /// Read the working copy's configuration.
    ReadConfig,
    /// Check that `name` is one that a repository can have.
    CheckName { name: S },
    /// Connect to a remote, for the repository `id`.
    Connect { remote_url: S, identity: S, id: RepositoryId },
    /// Open the repository service of the connection.
    OpenService,
    /// Read text as a repository's id.
    ParseId { text: S },
    /// Ask the remote for the repository of that name, whatever its id.
    Query { name: S },
    /// Ask the remote to rename the repository.
    Rename { id: RepositoryId, new_name: S },
    /// Return to the caller.
    Return { outcome: Result<(), RepositoryError<S>> },
}

impl View for Action {
    type V = Action<Text>;

    open spec fn view(&self) -> Action<Text> {
        match self {
            Action::Receive => Action::Receive,
            Action::ParseUrl { url } => Action::ParseUrl { url: url@ },
            Action::ReadConfig => Action::ReadConfig,
            Action::CheckName { name } => Action::CheckName { name: name@ },
            Action::Connect { remote_url, identity, id } => Action::Connect {
                remote_url: remote_url@,
                identity: identity@,
                id: *id,
            },
            Action::OpenService => Action::OpenService,
            Action::ParseId { text } => Action::ParseId { text: text@ },
            Action::Query { name } => Action::Query { name: name@ },
            Action::Rename { id, new_name } => Action::Rename { id: *id, new_name: new_name@ },
            Action::Return { outcome } => Action::Return { outcome: view_outcome(*outcome) },
        }
    }
}

// ---------------------------------------------------------------------------
// What follows what
// ---------------------------------------------------------------------------

/// Whether `://` stands in the text at position `i`.
pub open spec fn scheme_at(text: Text, i: int) -> bool {
    &&& 0 <= i <= text.len() - 3
    &&& text[i] == ':'
    &&& text[i + 1] == '/'
    &&& text[i + 2] == '/'
}

/// Whether `://` stands anywhere in the text.
pub open spec fn has_scheme(text: Text) -> bool {
    exists|i: int| scheme_at(text, i)
}

/// The rename ends with an error.
pub open spec fn failed(error: RepositoryError<Text>) -> Phase<Text> {
    Phase::Finished { outcome: Err(error) }
}

/// The rename ends with the error of the last action, under a context.
pub open spec fn forwarded(context: Text) -> Phase<Text> {
    failed(RepositoryError::Forwarded { context: context })
}

/// The context of an error in reaching a remote.
pub open spec fn unreachable_remote(remote_url: Text) -> Text {
    "Failed to connect to remote repository "@ + remote_url
}

/// What follows the call: a URL is parsed, anything else is taken for a
/// repository on the remote of the working copy.
pub open spec fn after_call(args: RenameArgs<Text>) -> Phase<Text> {
    if has_scheme(args.repository_url) {
        Phase::ParsingUrl { args: args }
    } else {
        Phase::ReadingConfig { args: args }
    }
}

/// What follows the parsing of the URL.
pub open spec fn after_url(args: RenameArgs<Text>, target: Option<Target<Text>>) -> Phase<Text> {
    match target {
        Some(target) => Phase::CheckingName { args: args, target: target },
        None => failed(RepositoryError::Url),
    }
}

/// What follows the reading of the configuration. One that cannot be read is
/// an error, and not taken for one without a remote; without a remote there is
/// nobody to ask.
pub open spec fn after_config(args: RenameArgs<Text>, config: Config<Text>) -> Phase<Text> {
    if config is Unreadable {
        failed(RepositoryError::Config)
    } else if config.remote().len() == 0 {
        failed(RepositoryError::NoRemote)
    } else {
        Phase::CheckingName {
            args: args,
            target: Target { remote_url: config.remote(), name: args.repository_url },
        }
    }
}

/// What follows the check of the new name.
pub open spec fn after_name_check(
    args: RenameArgs<Text>,
    target: Target<Text>,
    valid: bool,
) -> Phase<Text> {
    if valid {
        Phase::Connecting { args: args, target: target }
    } else {
        failed(
            RepositoryError::Internal {
                message:
                    "Invalid repository name, can only contain alphanumerical characters and separators /-_"@,
            },
        )
    }
}

/// What follows once the repository's id is known: on a dry run there is
/// nothing left to do.
pub open spec fn after_identified(args: RenameArgs<Text>, id: RepositoryId) -> Phase<Text> {
    if args.dry_run {
        Phase::Finished { outcome: Ok(()) }
    } else {
        Phase::Renaming { id: id, new_name: args.new_name }
    }
}

/// The id that was read from a text, the id of no repository where none was.
pub open spec fn parsed_id(id: Option<RepositoryId>) -> RepositoryId {
    match id {
        Some(id) => id,
        None => RepositoryId::none(),
    }
}

/// What follows the reading of the name as an id: the remote is asked only
/// where the name is not an id itself.
pub open spec fn after_id(
    args: RenameArgs<Text>,
    target: Target<Text>,
    id: Option<RepositoryId>,
) -> Phase<Text> {
    if parsed_id(id) == RepositoryId::none() {
        Phase::Querying { args: args, target: target }
    } else {
        after_identified(args, parsed_id(id))
    }
}

/// What follows the remote's word on the name.
pub open spec fn after_query(args: RenameArgs<Text>, id: Option<RepositoryId>) -> Phase<Text> {
    match id {
        Some(id) => after_identified(args, id),
        None => forwarded("Repository not found"@),
    }
}

/// The phase that follows an event. An event that the phase does not wait for
/// leaves it as it is.
pub open spec fn next_phase(phase: Phase<Text>, event: Event<Text>) -> Phase<Text> {
    match (phase, event) {
        (Phase::Start, Event::Called(args)) => after_call(args),
        (Phase::ParsingUrl { args }, Event::UrlParsed(target)) => after_url(args, target),
        (Phase::ReadingConfig { args }, Event::ConfigRead(config)) => after_config(args, config),
        (Phase::CheckingName { args, target }, Event::NameChecked(valid)) => after_name_check(
            args,
            target,
            valid,
        ),
        (Phase::Connecting { args, target }, Event::Connected(done)) => if done {
            Phase::Opening { args: args, target: target }
        } else {
            forwarded(unreachable_remote(target.remote_url))
        },
        (Phase::Opening { args, target }, Event::ServiceOpened(done)) => if done {
            Phase::ParsingId { args: args, target: target }
        } else {
            forwarded(unreachable_remote(target.remote_url))
        },
        (Phase::ParsingId { args, target }, Event::IdParsed(id)) => after_id(args, target, id),
        (Phase::Querying { args, target }, Event::Queried(id)) => after_query(args, id),
        (Phase::Renaming { id, new_name }, Event::Renamed(done)) => if done {
            Phase::Finished { outcome: Ok(()) }
        } else {
            forwarded("Failed to rename repository"@)
        },
        _ => phase,
    }
}

impl Phase<Text> {
    /// The action that is under way in the phase.
    pub open spec fn pending(self) -> Action<Text> {
        match self {
            Phase::Start => Action::Receive,
            Phase::ParsingUrl { args } => Action::ParseUrl { url: args.repository_url },
            Phase::ReadingConfig { args } => Action::ReadConfig,
            Phase::CheckingName { args, target } => Action::CheckName { name: args.new_name },
            Phase::Connecting { args, target } => Action::Connect {
                remote_url: target.remote_url,
                identity: args.identity,
                id: RepositoryId::none(),
            },
            Phase::Opening { args, target } => Action::OpenService,
            Phase::ParsingId { args, target } => Action::ParseId { text: target.name },
            Phase::Querying { args, target } => Action::Query { name: target.name },
            Phase::Renaming { id, new_name } => Action::Rename { id: id, new_name: new_name },
            Phase::Finished { outcome } => Action::Return { outcome: outcome },
        }
    }
}

// ---------------------------------------------------------------------------
// The steps
// ---------------------------------------------------------------------------

/// Whether `://` stands anywhere in the text.
pub fn contains_scheme(text: &str) -> (found: bool)
    ensures
        found == has_scheme(text@),
{
    // How much of `://` the characters read so far end in.
    let mut seen: u8 = 0;
    for c in chars: text.chars()
        invariant
            chars.seq() == text@,
            seen <= 2,
            seen == 1 <==> chars.index() >= 1 && text@[chars.index() - 1] == ':',
            seen == 2 <==> chars.index() >= 2 && text@[chars.index() - 2] == ':'
                && text@[chars.index() - 1] == '/',
            forall|k: int| scheme_at(text@, k) ==> k + 3 > chars.index(),
    {
        if c == ':' {
            seen = 1;
        } else if c == '/' && seen == 1 {
            seen = 2;
        } else if c == '/' && seen == 2 {
            assert(scheme_at(text@, chars.index() - 2));
            return true;
        } else {
            seen = 0;
        }
    }
    false
}

impl Phase {
    /// The action that is under way in the phase.
    pub fn action(&self) -> (action: Action)
        ensures
            action@ == self@.pending(),
    {
        match self {
            Phase::Start => Action::Receive,
            Phase::ParsingUrl { args } => Action::ParseUrl { url: args.repository_url.clone() },
            Phase::ReadingConfig { args: _ } => Action::ReadConfig,
            Phase::CheckingName { args, target: _ } => Action::CheckName {
                name: args.new_name.clone(),
            },
            Phase::Connecting { args, target } => Action::Connect {
                remote_url: target.remote_url.clone(),
                identity: args.identity.clone(),
                id: RepositoryId::default(),
            },
            Phase::Opening { args: _, target: _ } => Action::OpenService,
            Phase::ParsingId { args: _, target } => Action::ParseId { text: target.name.clone() },
            Phase::Querying { args: _, target } => Action::Query { name: target.name.clone() },
            Phase::Renaming { id, new_name } => Action::Rename {
                id: *id,
                new_name: new_name.clone(),
            },
            Phase::Finished { outcome } => match outcome {
                Ok(_) => Action::Return { outcome: Ok(()) },
                Err(error) => Action::Return { outcome: Err(error.clone()) },
            },
        }
    }
}

/// The rename ends with an error.
fn fail(error: RepositoryError) -> (phase: Phase)
    ensures
        phase@ == failed(error@),
{
    Phase::Finished { outcome: Err(error) }
}

/// The rename ends because the remote cannot be reached.
fn fail_unreachable(remote_url: &str) -> (phase: Phase)
    ensures
        phase@ == forwarded(unreachable_remote(remote_url@)),
{
    let context = "Failed to connect to remote repository ".to_owned().concat(remote_url);
    fail(RepositoryError::Forwarded { context: context })
}

/// Goes on with the repository whose id was found.
fn identify(args: RenameArgs, id: RepositoryId) -> (phase: Phase)
    ensures
        phase@ == after_identified(args@, id),
{
    if args.dry_run {
        Phase::Finished { outcome: Ok(()) }
    } else {
        Phase::Renaming { id: id, new_name: args.new_name }
    }
}

/// One step of a rename: the phase that follows `event`, and the action that
/// is to be done next.
///
/// A rename begins in [`Phase::Start`] with [`Event::Called`] and ends with
/// [`Action::Return`].
pub fn rename(phase: Phase, event: Event) -> (step: (Phase, Action))
    ensures
        step.0@ == next_phase(phase@, event@),
        step.1@ == next_phase(phase@, event@).pending(),
{
    let next = match (phase, event) {
        (Phase::Start, Event::Called(args)) => if contains_scheme(args.repository_url.as_str()) {
            Phase::ParsingUrl { args: args }
        } else {
            Phase::ReadingConfig { args: args }
        },
        (Phase::ParsingUrl { args }, Event::UrlParsed(target)) => match target {
            Some(target) => Phase::CheckingName { args: args, target: target },
            None => fail(RepositoryError::Url),
        },
        (Phase::ReadingConfig { args }, Event::ConfigRead(config)) => match config {
            Config::Unreadable => fail(RepositoryError::Config),
            Config::Read { remote_url } => {
                let remote_url = match remote_url {
                    Some(url) => url,
                    None => String::new(),
                };
                if remote_url.as_str().is_empty() {
                    fail(RepositoryError::NoRemote)
                } else {
                    let name = args.repository_url.clone();
                    Phase::CheckingName {
                        args: args,
                        target: Target { remote_url: remote_url, name: name },
                    }
                }
            },
        },
        (Phase::CheckingName { args, target }, Event::NameChecked(valid)) => if valid {
            Phase::Connecting { args: args, target: target }
        } else {
            fail(
                RepositoryError::Internal {
                    message:
                        "Invalid repository name, can only contain alphanumerical characters and separators /-_".to_owned(),
                },
            )
        },
        (Phase::Connecting { args, target }, Event::Connected(done)) => if done {
            Phase::Opening { args: args, target: target }
        } else {
            fail_unreachable(target.remote_url.as_str())
        },
        (Phase::Opening { args, target }, Event::ServiceOpened(done)) => if done {
            Phase::ParsingId { args: args, target: target }
        } else {
            fail_unreachable(target.remote_url.as_str())
        },
        (Phase::ParsingId { args, target }, Event::IdParsed(id)) => {
            let id = match id {
                Some(id) => id,
                None => RepositoryId::default(),
            };
            if id.is_zero() {
                Phase::Querying { args: args, target: target }
            } else {
                identify(args, id)
            }
        },
        (Phase::Querying { args, target: _ }, Event::Queried(id)) => match id {
            Some(id) => identify(args, id),
            None => fail(
                RepositoryError::Forwarded { context: "Repository not found".to_owned() },
            ),
        },
        (Phase::Renaming { id: _, new_name: _ }, Event::Renamed(done)) => if done {
            Phase::Finished { outcome: Ok(()) }
        } else {
            fail(
                RepositoryError::Forwarded { context: "Failed to rename repository".to_owned() },
            )
        },
        (phase, _) => phase,
    };
    let action = next.action();
    (next, action)
}

} // verus!
