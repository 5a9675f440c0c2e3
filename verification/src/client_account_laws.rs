//! What a rename asks and returns on the client's side, told by the arguments
//! of the call and by what came back of the actions before.
use vstd::prelude::*;

use crate::client_laws::Call;
use crate::client_step_laws::{is_url, law_scheme_splits_the_text};
use crate::rename::{Action, Config, Event, Phase, RenameArgs, RepositoryError, Target};
use crate::step_laws::{all_zero, law_no_repository_is_all_zero};
use crate::types::{RepositoryId, Text};

verus! {

/// Whether the call's address leads to this repository on this remote: the URL
/// says so, or the configuration names the remote and the address is the
/// repository.
pub open spec fn leads_to(
    call: Call,
    args: RenameArgs<Text>,
    remote_url: Text,
    name: Text,
) -> bool {
    if is_url(args.repository_url) {
        call.events[0] == Event::UrlParsed(Some(Target { remote_url, name }))
    } else {
        &&& call.events[0] == Event::ConfigRead(Config::Read { remote_url: Some(remote_url) })
        &&& remote_url.len() > 0
        &&& name == args.repository_url
    }
}

/// Whether the address led to this remote.
pub open spec fn leads_to_remote(call: Call, args: RenameArgs<Text>, remote_url: Text) -> bool {
    if is_url(args.repository_url) {
        call.events[0] matches Event::UrlParsed(Some(target)) && target.remote_url == remote_url
    } else {
        leads_to(call, args, remote_url, args.repository_url)
    }
}

/// Whether the address led to a repository of this name.
pub open spec fn leads_to_name(call: Call, args: RenameArgs<Text>, name: Text) -> bool {
    if is_url(args.repository_url) {
        call.events[0] matches Event::UrlParsed(Some(target)) && target.name == name
    } else {
        &&& call.events[0] matches Event::ConfigRead(Config::Read { remote_url: Some(url) })
        &&& url.len() > 0
        &&& name == args.repository_url
    }
}

/// Whether the repository's id was found within the first `i` steps to be
/// `id`: the name was read as this id, which is not that of no repository, or
/// else the remote gave it for the name.
pub open spec fn found_id(call: Call, id: RepositoryId, i: int) -> bool {
    ||| i == 5 && call.events[4] == Event::<Text>::IdParsed(Some(id)) && !all_zero(id)
    ||| i == 6 && is_no_id(call.events[4]) && call.events[5] == Event::<Text>::Queried(Some(id))
}

/// Whether a text turned out to stand for no repository's id.
pub open spec fn is_no_id(event: Event<Text>) -> bool {
    event matches Event::IdParsed(id) && (id matches Some(id) ==> all_zero(id))
}

/// Whether an error after `i` steps is called for by what came back last.
pub open spec fn error_is_due(
    call: Call,
    args: RenameArgs<Text>,
    error: RepositoryError<Text>,
    i: int,
) -> bool {
    match error {
        RepositoryError::Url => i == 1 && call.events[0] == Event::<Text>::UrlParsed(None),
        RepositoryError::Config => i == 1 && call.events[0] == Event::<Text>::ConfigRead(
            Config::Unreadable,
        ),
        RepositoryError::NoRemote => {
            &&& i == 1
            &&& call.events[0] matches Event::ConfigRead(Config::Read { remote_url })
            &&& remote_url matches Some(url) ==> url.len() == 0
        },
        RepositoryError::Internal { message } => {
            &&& i == 2
            &&& call.events[1] == Event::<Text>::NameChecked(false)
            &&& message
                == "Invalid repository name, can only contain alphanumerical characters and separators /-_"@
        },
        RepositoryError::Forwarded { context } => {
            ||| {
                &&& i == 3 && call.events[2] == Event::<Text>::Connected(false) || i == 4
                    && call.events[3] == Event::<Text>::ServiceOpened(false)
                &&& exists|remote_url: Text| #[trigger]
                    leads_to_remote(call, args, remote_url) && context
                        == "Failed to connect to remote repository "@ + remote_url
            }
            ||| {
                &&& i == 6
                &&& call.events[5] == Event::<Text>::Queried(None)
                &&& context == "Repository not found"@
            }
            ||| {
                &&& i == 6 || i == 7
                &&& call.events[i - 1] == Event::<Text>::Renamed(false)
                &&& context == "Failed to rename repository"@
            }
        },
    }
}

/// Whether an action, asked for after `i` steps, is the one whose turn it is,
/// and is about what the arguments and the answers so far say.
pub open spec fn is_called_for(
    call: Call,
    args: RenameArgs<Text>,
    action: Action<Text>,
    i: int,
) -> bool {
    match action {
        Action::Receive => false,
        Action::ParseUrl { url } => {
            &&& i == 0
            &&& is_url(args.repository_url)
            &&& url == args.repository_url
        },
        Action::ReadConfig => i == 0 && !is_url(args.repository_url),
        Action::CheckName { name } => {
            &&& i == 1
            &&& name == args.new_name
            &&& exists|remote_url: Text| #[trigger] leads_to_remote(call, args, remote_url)
        },
        Action::Connect { remote_url, identity, id } => {
            &&& i == 2
            &&& call.events[1] == Event::<Text>::NameChecked(true)
            &&& leads_to_remote(call, args, remote_url)
            &&& identity == args.identity
            &&& all_zero(id)
        },
        Action::OpenService => i == 3 && call.events[2] == Event::<Text>::Connected(true),
        Action::ParseId { text } => {
            &&& i == 4
            &&& call.events[3] == Event::<Text>::ServiceOpened(true)
            &&& leads_to_name(call, args, text)
        },
        Action::Query { name } => {
            &&& i == 5
            &&& is_no_id(call.events[4])
            &&& leads_to_name(call, args, name)
        },
        Action::Rename { id, new_name } => {
            &&& !args.dry_run
            &&& new_name == args.new_name
            &&& found_id(call, id, i)
        },
        Action::Return { outcome: Ok(_) } => {
            if args.dry_run {
                exists|id: RepositoryId| #[trigger] found_id(call, id, i)
            } else {
                &&& call.events[i - 1] == Event::<Text>::Renamed(true)
                &&& exists|id: RepositoryId| #[trigger] found_id(call, id, i - 1)
            }
        },
        Action::Return { outcome: Err(error) } => error_is_due(call, args, error, i),
    }
}

/// What is known of the answers in each phase of a call.
spec fn known(call: Call, args: RenameArgs<Text>, i: int) -> bool {
    match call.phases[i] {
        Phase::Start => false,
        Phase::ParsingUrl { args: kept } => {
            i == 0 && kept == args && is_url(args.repository_url)
        },
        Phase::ReadingConfig { args: kept } => {
            i == 0 && kept == args && !is_url(args.repository_url)
        },
        Phase::CheckingName { args: kept, target } => {
            i == 1 && kept == args && leads_to(call, args, target.remote_url, target.name)
        },
        Phase::Connecting { args: kept, target } => {
            &&& i == 2 && kept == args && leads_to(call, args, target.remote_url, target.name)
            &&& call.events[1] == Event::<Text>::NameChecked(true)
        },
        Phase::Opening { args: kept, target } => {
            &&& i == 3 && kept == args && leads_to(call, args, target.remote_url, target.name)
            &&& call.events[2] == Event::<Text>::Connected(true)
        },
        Phase::ParsingId { args: kept, target } => {
            &&& i == 4 && kept == args && leads_to(call, args, target.remote_url, target.name)
            &&& call.events[3] == Event::<Text>::ServiceOpened(true)
        },
        Phase::Querying { args: kept, target } => {
            &&& i == 5 && kept == args && leads_to(call, args, target.remote_url, target.name)
            &&& is_no_id(call.events[4])
        },
        Phase::Renaming { id, new_name } => {
            &&& !args.dry_run
            &&& new_name == args.new_name
            &&& found_id(call, id, i)
        },
        Phase::Finished { outcome } => is_called_for(call, args, Action::Return { outcome }, i),
    }
}

/// What is known of the answers at each point of a call.
proof fn lemma_known(call: Call, args: RenameArgs<Text>, i: int)
    requires
        call.made_with(args),
        0 <= i < call.phases.len(),
    ensures
        known(call, args, i),
    decreases i,
{
    law_scheme_splits_the_text(args.repository_url);
    assert forall|id: RepositoryId| #[trigger] all_zero(id) <==> id == RepositoryId::none() by {
        law_no_repository_is_all_zero(id);
    }
    if i > 0 {
        lemma_known(call, args, i - 1);
        assert(call.step(i - 1));
        match call.phases[i - 1] {
            Phase::Connecting { args: _, target } => {
                assert(leads_to_remote(call, args, target.remote_url));
            },
            Phase::Opening { args: _, target } => {
                assert(leads_to_remote(call, args, target.remote_url));
            },
            Phase::ParsingId { args: _, target } => {
                if let Event::IdParsed(Some(id)) = call.events[i - 1] {
                    assert(found_id(call, id, i) <==> !all_zero(id));
                }
            },
            Phase::Querying { args: _, target } => {
                if let Event::Queried(Some(id)) = call.events[i - 1] {
                    assert(found_id(call, id, i));
                }
            },
            _ => {},
        }
    }
}

/// Every action of a rename is called for by the arguments and by what came
/// back before it, and every outcome is earned: success is returned only once
/// a repository's id was found and, unless the run is dry, the remote has
/// renamed it, and each error has its cause in the answer that came last.
pub proof fn law_every_action_is_called_for(call: Call, args: RenameArgs<Text>, i: int)
    requires
        call.made_with(args),
        0 <= i < call.phases.len(),
    ensures
        is_called_for(call, args, call.phases[i].pending(), i),
{
    lemma_known(call, args, i);
    law_no_repository_is_all_zero(RepositoryId::none());
    if let Phase::CheckingName { args: _, target } = call.phases[i] {
        assert(leads_to_remote(call, args, target.remote_url));
    }
}

/// Success is returned only where a repository was found, on a dry run as on
/// any other: the name was read as an id, or the remote was asked for the name
/// and gave one.
pub proof fn law_success_means_a_repository_was_found(call: Call, args: RenameArgs<Text>)
    requires
        call.made_with(args),
        call.reached().pending() matches Action::Return { outcome: Ok(_) },
    ensures
        exists|id: RepositoryId, i: int|
            5 <= i <= call.events.len() && #[trigger] found_id(call, id, i),
        !args.dry_run ==> call.events.last() == Event::<Text>::Renamed(true),
        call.unhindered(),
{
    let last = call.phases.len() - 1;
    law_every_action_is_called_for(call, args, last);
    if args.dry_run {
        let id = choose|id: RepositoryId| #[trigger] found_id(call, id, last);
        assert(found_id(call, id, last));
    } else {
        let id = choose|id: RepositoryId| #[trigger] found_id(call, id, last - 1);
        assert(found_id(call, id, last - 1));
    }
    crate::client_laws::law_success_means_unhindered(call, args);
}

/// An error is returned exactly where something stands in the way: after an
/// answer that was hoped for there is no error, after any other there is
/// nothing else.
pub proof fn law_fails_exactly_where_hindered(call: Call, args: RenameArgs<Text>, i: int)
    requires
        call.made_with(args),
        0 <= i < call.events.len(),
    ensures
        crate::client_laws::hoped_for(call.events[i]) <==> !(
        call.phases[i + 1].pending() matches Action::Return { outcome: Err(_) }),
{
    lemma_known(call, args, i);
    assert(call.step(i));
}

} // verus!
