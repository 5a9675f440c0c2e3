//! What contracts say of a value they say of all of it: the view of a value has
//! the same parts, each text by its characters.
use vstd::prelude::*;

use crate::refusal::{view_status, Refusal, Status};
use crate::rename::{view_outcome, Config, RenameArgs, RepositoryError, Target};
use crate::repository_rename::{
    view_answer, view_text, Job, LoadReply, Query, RenameRequest, RenameResponse, Reply,
};
use crate::types::{RepositoryMetadata, Text};
use crate::{rename as client, repository_rename as server};

verus! {

/// Metadata that look the same in contracts are the same in every part.
pub proof fn law_view_of_metadata_is_whole(one: RepositoryMetadata, other: RepositoryMetadata)
    ensures
        one@ == other@ <==> {
            &&& one.name@ == other.name@
            &&& one.description@ == other.description@
            &&& one.default_branch == other.default_branch
            &&& one.default_branch_name@ == other.default_branch_name@
            &&& one.creator@ == other.creator@
            &&& one.created == other.created
        },
        one@.name == one.name@,
        one@.description == one.description@,
        one@.default_branch == one.default_branch,
        one@.default_branch_name == one.default_branch_name@,
        one@.creator == one.creator@,
        one@.created == one.created,
{
}

/// The view of a text that may be missing is that text.
pub proof fn law_view_of_text_is_whole(text: Option<String>)
    ensures
        match text {
            Some(text) => view_text(Some(text)) == Some(text@),
            None => view_text(None) is None,
        },
{
}

/// A request, as contracts speak of it, has the request's own authorization,
/// query and new name.
pub proof fn law_view_of_request_is_whole(request: RenameRequest)
    ensures
        request@.new_name == request.new_name@,
        request.authorization matches Some(text) ==> request@.authorization == Some(text@),
        request.authorization is None ==> request@.authorization is None,
        match request.query {
            None => request@.query is None,
            Some(Query::Id(id)) => request@.query == Some(Query::<Text>::Id(id)),
            Some(Query::Name(name)) => request@.query == Some(Query::Name(name@)),
        },
{
}

/// A response, as contracts speak of it, has the response's own parts, and an
/// answer is a success or a refusal as it is.
pub proof fn law_view_of_answer_is_whole(answer: Result<RenameResponse, Refusal>)
    ensures
        match answer {
            Ok(response) => {
                &&& view_answer(answer) == Ok::<RenameResponse<Text>, Refusal<Text>>(response@)
                &&& response@.id == response.id
                &&& response@.metadata == response.metadata@
                &&& response@.metadata_hash == response.metadata_hash
            },
            Err(refusal) => view_answer(answer) == Err::<RenameResponse<Text>, Refusal<Text>>(
                refusal@,
            ),
        },
{
}

/// A job, as contracts speak of it, has the job's own parts.
pub proof fn law_view_of_job_is_whole(job: Job)
    ensures
        job@.id == job.id,
        job@.metadata == job.metadata@,
        job@.metadata_hash == job.metadata_hash,
        job@.new_name == job.new_name@,
{
}

/// What a store says is seen as it is said.
pub proof fn law_view_of_reply_is_whole<T>(reply: Reply<T>, load: LoadReply)
    ensures
        match reply {
            Reply::Done(value) => reply@ == Reply::<T, Text>::Done(value),
            Reply::SlowDown => reply@ is SlowDown,
            Reply::Failed(error) => reply@ == Reply::<T, Text>::Failed(error@),
        },
        match load {
            LoadReply::Loaded { metadata, metadata_hash } => load@ == (LoadReply::Loaded {
                metadata: metadata@,
                metadata_hash,
            }),
            LoadReply::SlowDown => load@ is SlowDown,
            LoadReply::Failed { id_text } => load@ == (LoadReply::Failed { id_text: id_text@ }),
        },
{
}

/// What comes back of a server's action is seen as it is.
pub proof fn law_view_of_event_is_whole(event: server::Event)
    ensures
        match event {
            server::Event::Requested(request) => event@
                == server::Event::Requested(request@),
            server::Event::NameChecked(valid) => event@
                == server::Event::<Text>::NameChecked(valid),
            server::Event::Resolved(reply) => event@
                == server::Event::Resolved(reply@),
            server::Event::AccessChecked(granted) => event@
                == server::Event::<Text>::AccessChecked(granted),
            server::Event::MetadataLoaded(reply) => event@
                == server::Event::MetadataLoaded(reply@),
            server::Event::MetadataStored(reply) => event@
                == server::Event::MetadataStored(reply@),
            server::Event::PointerSwapped(reply) => event@
                == server::Event::PointerSwapped(reply@),
            server::Event::MappingStored(reply) => event@
                == server::Event::MappingStored(reply@),
            server::Event::MappingDeleted(reply) => event@
                == server::Event::MappingDeleted(reply@),
        },
{
}

/// The server's phase is seen as it is.
pub proof fn law_view_of_phase_is_whole(phase: server::Phase)
    ensures
        match phase {
            server::Phase::Start => phase@ is Start,
            server::Phase::CheckingName { authorization, query, new_name } => {
                phase@ == (server::Phase::CheckingName {
                    authorization: view_text(authorization),
                    query: query@,
                    new_name: new_name@,
                })
            },
            server::Phase::Resolving { authorization, name, new_name } => {
                phase@ == (server::Phase::Resolving {
                    authorization: view_text(authorization),
                    name: name@,
                    new_name: new_name@,
                })
            },
            server::Phase::Authorizing { authorization, id, new_name } => {
                phase@ == (server::Phase::Authorizing {
                    authorization: view_text(authorization),
                    id,
                    new_name: new_name@,
                })
            },
            server::Phase::Loading { id, new_name } => phase@ == (
            server::Phase::Loading { id, new_name: new_name@ }),
            server::Phase::CheckingCollision { job } => phase@ == (
            server::Phase::CheckingCollision { job: job@ }),
            server::Phase::Installing { job, install } => phase@ == (
            server::Phase::Installing { job: job@, install }),
            server::Phase::Mapping { job, metadata_hash } => phase@ == (
            server::Phase::Mapping { job: job@, metadata_hash }),
            server::Phase::Unmapping { job, metadata_hash } => phase@ == (
            server::Phase::Unmapping { job: job@, metadata_hash }),
            server::Phase::Answered { answer } => phase@ == (
            server::Phase::Answered { answer: view_answer(answer) }),
        },
{
}

/// The server's action is seen as it is.
pub proof fn law_view_of_action_is_whole(action: server::Action)
    ensures
        match action {
            server::Action::Receive => action@ is Receive,
            server::Action::CheckName { name } => action@ == (
            server::Action::CheckName { name: name@ }),
            server::Action::ResolveName { context, name } => action@ == (
            server::Action::ResolveName { context, name: name@ }),
            server::Action::CheckAccess { authorization, id } => action@ == (
            server::Action::CheckAccess {
                authorization: view_text(authorization),
                id,
            }),
            server::Action::LoadMetadata { context, id } => action@ == (
            server::Action::<Text>::LoadMetadata { context, id }),
            server::Action::StoreMetadata { context, metadata } => action@ == (
            server::Action::StoreMetadata { context, metadata: metadata@ }),
            server::Action::SwapPointer {
                context,
                key_argument,
                expected,
                updated,
            } => action@ == (server::Action::SwapPointer {
                context,
                key_argument: key_argument@,
                expected,
                updated,
            }),
            server::Action::StoreMapping { context, name, id } => action@ == (
            server::Action::StoreMapping { context, name: name@, id }),
            server::Action::DeleteMapping { context, name } => action@ == (
            server::Action::DeleteMapping { context, name: name@ }),
            server::Action::Answer { answer } => action@ == (
            server::Action::Answer { answer: view_answer(answer) }),
        },
{
}

/// A refusal is seen as it is, and so is the status that answers it.
pub proof fn law_view_of_refusal_is_whole(refusal: Refusal, status: Option<Status>)
    ensures
        match refusal {
            Refusal::MissingQuery => refusal@ is MissingQuery,
            Refusal::InvalidName { name } => refusal@ == (Refusal::InvalidName { name: name@ }),
            Refusal::NameNotFound { name } => refusal@ == (Refusal::NameNotFound { name: name@ }),
            Refusal::MissingId => refusal@ is MissingId,
            Refusal::NoAccess => refusal@ is NoAccess,
            Refusal::IdNotFound { id_text } => refusal@ == (Refusal::IdNotFound {
                id_text: id_text@,
            }),
            Refusal::AlreadyExists { name } => refusal@ == (Refusal::AlreadyExists { name: name@ }),
            Refusal::BlobFailed { error } => refusal@ == (Refusal::BlobFailed { error: error@ }),
            Refusal::PointerFailed { error } => refusal@ == (Refusal::PointerFailed {
                error: error@,
            }),
            Refusal::Conflict => refusal@ is Conflict,
            Refusal::MappingFailed { error } => refusal@ == (Refusal::MappingFailed {
                error: error@,
            }),
            Refusal::UnmappingFailed { error } => refusal@ == (Refusal::UnmappingFailed {
                error: error@,
            }),
            Refusal::SlowDown => refusal@ is SlowDown,
        },
        match status {
            Some(status) => {
                &&& view_status(Some(status)) == Some(status@)
                &&& status@.code == status.code
                &&& status@.message == status.message@
            },
            None => view_status(None) is None,
        },
{
}

/// The arguments of a call, a target and a configuration are seen as they are.
pub proof fn law_view_of_call_is_whole(args: RenameArgs, target: Target, config: Config)
    ensures
        args@.repository_url == args.repository_url@,
        args@.new_name == args.new_name@,
        args@.identity == args.identity@,
        args@.dry_run == args.dry_run,
        target@.remote_url == target.remote_url@,
        target@.name == target.name@,
        match config {
            Config::Unreadable => config@ is Unreadable,
            Config::Read { remote_url: None } => config@ == (Config::<Text>::Read {
                remote_url: None,
            }),
            Config::Read { remote_url: Some(url) } => config@ == (Config::Read {
                remote_url: Some(url@),
            }),
        },
{
}

/// What comes back of a client's action is seen as it is.
pub proof fn law_view_of_client_event_is_whole(event: client::Event)
    ensures
        match event {
            client::Event::Called(args) => event@ == client::Event::Called(args@),
            client::Event::UrlParsed(Some(target)) => event@
                == client::Event::UrlParsed(Some(target@)),
            client::Event::UrlParsed(None) => event@ == client::Event::<
                Text,
            >::UrlParsed(None),
            client::Event::ConfigRead(config) => event@ == client::Event::ConfigRead(
                config@,
            ),
            client::Event::NameChecked(valid) => event@ == client::Event::<
                Text,
            >::NameChecked(valid),
            client::Event::Connected(done) => event@ == client::Event::<
                Text,
            >::Connected(done),
            client::Event::ServiceOpened(done) => event@ == client::Event::<
                Text,
            >::ServiceOpened(done),
            client::Event::IdParsed(id) => event@ == client::Event::<Text>::IdParsed(
                id,
            ),
            client::Event::Queried(id) => event@ == client::Event::<Text>::Queried(
                id,
            ),
            client::Event::Renamed(done) => event@ == client::Event::<Text>::Renamed(
                done,
            ),
        },
{
}

/// The outcome of a client's rename is seen as it is: success as success, and
/// every error as that error.
pub proof fn law_view_of_outcome_is_whole(outcome: Result<(), RepositoryError>)
    ensures
        match outcome {
            Ok(_) => view_outcome(outcome) is Ok,
            Err(error) => {
                &&& view_outcome(outcome) == Err::<(), RepositoryError<Text>>(error@)
                &&& match error {
                    RepositoryError::Url => error@ is Url,
                    RepositoryError::Config => error@ is Config,
                    RepositoryError::NoRemote => error@ is NoRemote,
                    RepositoryError::Internal { message } => error@ == (RepositoryError::Internal {
                        message: message@,
                    }),
                    RepositoryError::Forwarded { context } => error@ == (
                    RepositoryError::Forwarded { context: context@ }),
                }
            },
        },
{
}

/// The client's phase is seen as it is.
pub proof fn law_view_of_client_phase_is_whole(phase: client::Phase)
    ensures
        match phase {
            client::Phase::Start => phase@ is Start,
            client::Phase::ParsingUrl { args } => phase@ == (
            client::Phase::ParsingUrl { args: args@ }),
            client::Phase::ReadingConfig { args } => phase@ == (
            client::Phase::ReadingConfig { args: args@ }),
            client::Phase::CheckingName { args, target } => phase@ == (
            client::Phase::CheckingName { args: args@, target: target@ }),
            client::Phase::Connecting { args, target } => phase@ == (
            client::Phase::Connecting { args: args@, target: target@ }),
            client::Phase::Opening { args, target } => phase@ == (
            client::Phase::Opening { args: args@, target: target@ }),
            client::Phase::ParsingId { args, target } => phase@ == (
            client::Phase::ParsingId { args: args@, target: target@ }),
            client::Phase::Querying { args, target } => phase@ == (
            client::Phase::Querying { args: args@, target: target@ }),
            client::Phase::Renaming { id, new_name } => phase@ == (
            client::Phase::Renaming { id, new_name: new_name@ }),
            client::Phase::Finished { outcome } => phase@ == (
            client::Phase::Finished { outcome: view_outcome(outcome) }),
        },
{
}

/// The client's action is seen as it is.
pub proof fn law_view_of_client_action_is_whole(action: client::Action)
    ensures
        match action {
            client::Action::Receive => action@ is Receive,
            client::Action::ParseUrl { url } => action@ == (
            client::Action::ParseUrl { url: url@ }),
            client::Action::ReadConfig => action@ is ReadConfig,
            client::Action::CheckName { name } => action@ == (
            client::Action::CheckName { name: name@ }),
            client::Action::Connect { remote_url, identity, id } => action@ == (
            client::Action::Connect {
                remote_url: remote_url@,
                identity: identity@,
                id,
            }),
            client::Action::OpenService => action@ is OpenService,
            client::Action::ParseId { text } => action@ == (
            client::Action::ParseId { text: text@ }),
            client::Action::Query { name } => action@ == (
            client::Action::Query { name: name@ }),
            client::Action::Rename { id, new_name } => action@ == (
            client::Action::Rename { id, new_name: new_name@ }),
            client::Action::Return { outcome } => action@ == (
            client::Action::Return { outcome: view_outcome(outcome) }),
        },
{
}

} // verus!
