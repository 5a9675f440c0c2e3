//! What each step of a rename comes to on the client's side: what is asked,
//! and what every answer to it leads to.
use vstd::prelude::*;

use crate::client_laws::answers;
use crate::rename::{
    has_scheme, next_phase, scheme_at, Action, Config, Event, Phase, RenameArgs, RepositoryError,
    Target,
};
use crate::step_laws::{all_zero, law_no_repository_is_all_zero};
use crate::types::{RepositoryId, Text};

verus! {

/// Whether a text is `before`, then `://`, then `after`.
pub open spec fn splits_at_scheme(text: Text, before: Text, after: Text) -> bool {
    text == before + seq![':', '/', '/'] + after
}

/// Whether a text is a URL: `://` stands somewhere in it, at its beginning or
/// end as well as between.
pub open spec fn is_url(text: Text) -> bool {
    exists|before: Text, after: Text| splits_at_scheme(text, before, after)
}

/// A text has a scheme exactly where `://` splits it in two.
pub proof fn law_scheme_splits_the_text(text: Text)
    ensures
        has_scheme(text) <==> is_url(text),
{
    if has_scheme(text) {
        let i = choose|i: int| scheme_at(text, i);
        let before = text.subrange(0, i);
        let after = text.subrange(i + 3, text.len() as int);
        assert(text =~= before + seq![':', '/', '/'] + after);
        assert(splits_at_scheme(text, before, after));
    }
    if is_url(text) {
        let (before, after) = choose|before: Text, after: Text|
            splits_at_scheme(text, before, after);
        assert(scheme_at(text, before.len() as int));
    }
}

/// Whether a phase returns to the caller with success.
pub open spec fn returns_success(phase: Phase<Text>) -> bool {
    phase matches Phase::Finished { outcome: Ok(_) } && phase.pending() matches Action::Return {
        outcome: Ok(_),
    }
}

/// Whether a phase returns to the caller with this error.
pub open spec fn returns_error(phase: Phase<Text>, error: RepositoryError<Text>) -> bool {
    let outcome: Result<(), RepositoryError<Text>> = Err(error);
    phase == (Phase::Finished { outcome: outcome }) && phase.pending() == (Action::Return {
        outcome: outcome,
    })
}

/// What the caller is returned is what the rename came to: it returns exactly
/// where the rename is over, with success only after success, and with the
/// very error after an error.
pub proof fn law_outcome_returned_is_the_outcome_reached(
    phase: Phase<Text>,
    outcome: Result<(), RepositoryError<Text>>,
)
    ensures
        phase.pending() == (Action::Return { outcome: outcome }) <==> phase == (Phase::Finished {
            outcome: outcome,
        }),
        phase.pending() is Return <==> phase is Finished,
{
}

/// A call is taken up with its own arguments: a URL is parsed as it is given,
/// anything else leads to the configuration.
pub proof fn law_call_is_taken_up(args: RenameArgs<Text>)
    ensures
        ({
            let next = next_phase(Phase::Start, Event::Called(args));
            &&& Phase::<Text>::Start.pending() is Receive
            &&& is_url(args.repository_url) ==> {
                &&& next == (Phase::ParsingUrl { args })
                &&& next.pending() == (Action::ParseUrl { url: args.repository_url })
            }
            &&& !is_url(args.repository_url) ==> {
                &&& next == (Phase::ReadingConfig { args })
                &&& next.pending() is ReadConfig
            }
        }),
{
    law_scheme_splits_the_text(args.repository_url);
}

/// Whether a phase checks the new name of a call, for this repository.
pub open spec fn checks_name(
    phase: Phase<Text>,
    args: RenameArgs<Text>,
    remote_url: Text,
    name: Text,
) -> bool {
    &&& phase == (Phase::CheckingName { args, target: Target { remote_url, name } })
    &&& phase.pending() == (Action::CheckName { name: args.new_name })
}

/// A URL says which remote and which repository is meant; one that cannot be
/// parsed ends the rename with the parser's error.
pub proof fn law_url_says_where(args: RenameArgs<Text>, target: Option<Target<Text>>)
    ensures
        ({
            let asking = Phase::ParsingUrl { args };
            let next = next_phase(asking, Event::UrlParsed(target));
            &&& asking.pending() == (Action::ParseUrl { url: args.repository_url })
            &&& match target {
                Some(target) => checks_name(next, args, target.remote_url, target.name),
                None => returns_error(next, RepositoryError::Url),
            }
        }),
{
}

/// Without a URL the configuration says which remote is meant, and the whole
/// address is the repository. One that cannot be read, and one that names no
/// remote or an empty one, end the rename, each with an error of its own.
pub proof fn law_config_says_where(args: RenameArgs<Text>, config: Config<Text>)
    ensures
        ({
            let asking = Phase::ReadingConfig { args };
            let next = next_phase(asking, Event::ConfigRead(config));
            &&& asking.pending() is ReadConfig
            &&& match config {
                Config::Unreadable => returns_error(next, RepositoryError::Config),
                Config::Read { remote_url: None } => returns_error(next, RepositoryError::NoRemote),
                Config::Read { remote_url: Some(url) } => if url.len() == 0 {
                    returns_error(next, RepositoryError::NoRemote)
                } else {
                    checks_name(next, args, url, args.repository_url)
                },
            }
        }),
{
}

/// Only a valid name lets the remote be connected to, the one that was
/// addressed and under the identity of the call.
pub proof fn law_name_check_decides(args: RenameArgs<Text>, target: Target<Text>, valid: bool)
    ensures
        ({
            let asking = Phase::CheckingName { args, target };
            let next = next_phase(asking, Event::NameChecked(valid));
            &&& asking.pending() == (Action::CheckName { name: args.new_name })
            &&& valid ==> {
                &&& next == (Phase::Connecting { args, target })
                &&& connects(next.pending(), args, target)
            }
            &&& !valid ==> returns_error(
                next,
                RepositoryError::Internal {
                    message:
                        "Invalid repository name, can only contain alphanumerical characters and separators /-_"@,
                },
            )
        }),
{
    law_no_repository_is_all_zero(RepositoryId::none());
}

/// Whether an action connects to the remote of a target under the identity of
/// a call, for no repository in particular.
pub open spec fn connects(
    action: Action<Text>,
    args: RenameArgs<Text>,
    target: Target<Text>,
) -> bool {
    action matches Action::Connect { remote_url, identity, id } && {
        &&& remote_url == target.remote_url
        &&& identity == args.identity
        &&& all_zero(id)
    }
}

/// The error for a remote that cannot be reached, which it names.
pub open spec fn is_unreachable(phase: Phase<Text>, remote_url: Text) -> bool {
    returns_error(
        phase,
        RepositoryError::Forwarded {
            context: "Failed to connect to remote repository "@ + remote_url,
        },
    )
}

/// A remote that cannot be connected to, or whose service cannot be opened,
/// ends the rename; otherwise the repository's name is next read as an id.
pub proof fn law_remote_must_be_reached(args: RenameArgs<Text>, target: Target<Text>, done: bool)
    ensures
        ({
            let connecting = Phase::Connecting { args, target };
            let opening = Phase::Opening { args, target };
            let connected = next_phase(connecting, Event::Connected(done));
            let opened = next_phase(opening, Event::ServiceOpened(done));
            &&& connects(connecting.pending(), args, target)
            &&& opening.pending() is OpenService
            &&& done ==> {
                &&& connected == opening
                &&& opened == (Phase::ParsingId { args, target })
                &&& opened.pending() == (Action::ParseId { text: target.name })
            }
            &&& !done ==> {
                &&& is_unreachable(connected, target.remote_url)
                &&& is_unreachable(opened, target.remote_url)
            }
        }),
{
    law_no_repository_is_all_zero(RepositoryId::none());
}

/// Whether a phase is what follows once the repository's id is known: a rename
/// of that id to the new name of the call, or success on a dry run.
pub open spec fn goes_on_with(phase: Phase<Text>, args: RenameArgs<Text>, id: RepositoryId) -> bool {
    &&& args.dry_run ==> returns_success(phase)
    &&& !args.dry_run ==> {
        &&& phase == (Phase::Renaming { id, new_name: args.new_name })
        &&& phase.pending() == (Action::Rename { id, new_name: args.new_name })
    }
}

/// A name that is an id needs no lookup; any other, and the id of no
/// repository, is looked up on the remote under its own name, on a dry run as
/// on any other.
pub proof fn law_only_an_id_needs_no_lookup(
    args: RenameArgs<Text>,
    target: Target<Text>,
    id: Option<RepositoryId>,
)
    ensures
        ({
            let asking = Phase::ParsingId { args, target };
            let next = next_phase(asking, Event::IdParsed(id));
            let is_id = id matches Some(id) && !all_zero(id);
            &&& asking.pending() == (Action::ParseId { text: target.name })
            &&& is_id ==> goes_on_with(next, args, id->0)
            &&& !is_id ==> {
                &&& next == (Phase::Querying { args, target })
                &&& next.pending() == (Action::Query { name: target.name })
            }
        }),
{
    law_no_repository_is_all_zero(RepositoryId::none());
    if let Some(id) = id {
        law_no_repository_is_all_zero(id);
    }
}

/// The remote's word on the name decides which repository is renamed; a name
/// that it does not know ends the rename.
pub proof fn law_remote_decides_the_repository(
    args: RenameArgs<Text>,
    target: Target<Text>,
    id: Option<RepositoryId>,
)
    ensures
        ({
            let asking = Phase::Querying { args, target };
            let next = next_phase(asking, Event::Queried(id));
            &&& asking.pending() == (Action::Query { name: target.name })
            &&& match id {
                Some(id) => goes_on_with(next, args, id),
                None => returns_error(
                    next,
                    RepositoryError::Forwarded { context: "Repository not found"@ },
                ),
            }
        }),
{
}

/// The remote's word on the rename is the outcome.
pub proof fn law_remote_decides_the_outcome(id: RepositoryId, new_name: Text, done: bool)
    ensures
        ({
            let asking = Phase::Renaming { id, new_name };
            let next = next_phase(asking, Event::Renamed(done));
            &&& asking.pending() == (Action::Rename { id, new_name })
            &&& done ==> returns_success(next)
            &&& !done ==> returns_error(
                next,
                RepositoryError::Forwarded { context: "Failed to rename repository"@ },
            )
        }),
{
}

/// Only an answer to what was asked moves a rename on: any other event leaves
/// it where it is. A rename that is over stays over.
pub proof fn law_other_events_change_nothing(phase: Phase<Text>, event: Event<Text>)
    requires
        !answers(phase.pending(), event),
    ensures
        next_phase(phase, event) == phase,
{
}

} // verus!
