//! What a rename asks and answers on the server's side, told by the request and
//! by what came back of the actions before.
use vstd::prelude::*;

use crate::refusal::Refusal;
use crate::repository_rename::{
    Action, Event, Install, Job, LoadReply, Phase, Query, RenameRequest, RenameResponse, Reply,
};
use crate::step_laws::{all_zero, differs_in_name_only, law_no_repository_is_all_zero};
use crate::types::{ContentHash, RepositoryId, RepositoryMetadata, Text};
use crate::world::Run;

verus! {

/// How many lookups it takes to find the repository: one for a name, none for
/// an id.
pub open spec fn lookups(request: RenameRequest<Text>) -> int {
    if request.query matches Some(Query::Name(_)) {
        1
    } else {
        0
    }
}

/// Whether `id` is the repository that the request is about: the request gives
/// it, or the lookup of the name in the request gave it.
pub open spec fn is_about(run: Run, request: RenameRequest<Text>, id: RepositoryId) -> bool {
    match request.query {
        None => false,
        Some(Query::Id(given)) => given == id,
        Some(Query::Name(_)) => run.events[1] == Event::<Text>::Resolved(Reply::Done(id)),
    }
}

/// What came back of the load, in a run that got so far.
pub open spec fn load_reply(run: Run, request: RenameRequest<Text>) -> Event<Text> {
    run.events[lookups(request) + 2]
}

/// Whether the load gave this metadata under this pointer.
pub open spec fn gave(
    run: Run,
    request: RenameRequest<Text>,
    metadata: RepositoryMetadata<Text>,
    metadata_hash: ContentHash,
) -> bool {
    load_reply(run, request) == Event::MetadataLoaded(
        LoadReply::Loaded { metadata, metadata_hash },
    )
}

/// Whether the new name was looked up and is free for the repository to take:
/// nothing came of the lookup, or the name leads to the repository itself, or
/// to none.
pub open spec fn is_free(run: Run, request: RenameRequest<Text>) -> bool {
    run.events[lookups(request) + 3] matches Event::Resolved(reply) && (
    reply matches Reply::Done(taken) ==> all_zero(taken) || is_about(run, request, taken))
}

/// Whether a store asked to slow down.
pub open spec fn is_slow_down(event: Event<Text>) -> bool {
    match event {
        Event::Resolved(reply) => reply is SlowDown,
        Event::MetadataLoaded(reply) => reply is SlowDown,
        Event::MetadataStored(reply) => reply is SlowDown,
        Event::PointerSwapped(reply) => reply is SlowDown,
        Event::MappingStored(reply) => reply is SlowDown,
        Event::MappingDeleted(reply) => reply is SlowDown,
        _ => false,
    }
}

/// Whether the mapping for the new name was stored.
pub open spec fn was_mapped(event: Event<Text>) -> bool {
    event matches Event::MappingStored(reply) && reply is Done
}

/// Whether the mapping for the old name was deleted.
pub open spec fn was_unmapped(event: Event<Text>) -> bool {
    event matches Event::MappingDeleted(reply) && reply is Done
}

/// Whether a success after `i` steps is what the run came to: the repository
/// that the request is about, with the metadata that was loaded but for the
/// name, under the pointer that it now has.
pub open spec fn success_is_earned(
    run: Run,
    request: RenameRequest<Text>,
    response: RenameResponse<Text>,
    i: int,
) -> bool {
    let k = lookups(request);
    &&& is_about(run, request, response.id)
    &&& !all_zero(response.id)
    &&& load_reply(run, request) matches Event::MetadataLoaded(
        LoadReply::Loaded { metadata, metadata_hash },
    )
    &&& differs_in_name_only(metadata, response.metadata, request.new_name)
    &&& if metadata.name == request.new_name {
        &&& i == k + 4
        &&& was_mapped(run.events[k + 3])
        &&& response.metadata_hash == metadata_hash
    } else {
        &&& i == k + 8
        &&& is_free(run, request)
        &&& run.events[k + 4] == Event::<Text>::MetadataStored(Reply::Done(response.metadata_hash))
        &&& run.events[k + 5] == Event::<Text>::PointerSwapped(Reply::Done(metadata_hash))
        &&& was_mapped(run.events[k + 6])
        &&& was_unmapped(run.events[k + 7])
    }
}

/// Whether a refusal after `i` steps is called for by what came back last.
pub open spec fn refusal_is_due(
    run: Run,
    request: RenameRequest<Text>,
    refusal: Refusal<Text>,
    i: int,
) -> bool {
    let k = lookups(request);
    match refusal {
        Refusal::MissingQuery => i == 0 && request.query is None,
        Refusal::InvalidName { name } => {
            &&& i == 1
            &&& name == request.new_name
            &&& run.events[0] == Event::<Text>::NameChecked(false)
        },
        Refusal::NameNotFound { name } => {
            &&& i == 2
            &&& request.query == Some(Query::Name(name))
            &&& run.events[1] matches Event::Resolved(reply)
            &&& reply is Failed
        },
        Refusal::MissingId => {
            &&& i == k + 1
            &&& forall|id: RepositoryId| all_zero(id) ==> #[trigger] is_about(run, request, id)
        },
        Refusal::NoAccess => i == k + 2 && run.events[k + 1] == Event::<Text>::AccessChecked(false),
        Refusal::IdNotFound { id_text } => i == k + 3 && load_reply(run, request)
            == Event::<Text>::MetadataLoaded(LoadReply::Failed { id_text }),
        Refusal::AlreadyExists { name } => {
            &&& i == k + 4
            &&& name == request.new_name
            &&& load_reply(run, request) matches Event::MetadataLoaded(
                LoadReply::Loaded { metadata, metadata_hash },
            )
            &&& metadata.name != request.new_name
            &&& run.events[k + 3] matches Event::Resolved(Reply::Done(taken))
            &&& !all_zero(taken)
            &&& !is_about(run, request, taken)
        },
        Refusal::BlobFailed { error } => i == k + 5 && run.events[k + 4]
            == Event::<Text>::MetadataStored(Reply::Failed(error)),
        Refusal::PointerFailed { error } => i == k + 6 && run.events[k + 5]
            == Event::<Text>::PointerSwapped(Reply::Failed(error)),
        Refusal::Conflict => {
            &&& i == k + 6
            &&& load_reply(run, request) matches Event::MetadataLoaded(
                LoadReply::Loaded { metadata, metadata_hash },
            )
            &&& run.events[k + 5] matches Event::PointerSwapped(Reply::Done(found))
            &&& found != metadata_hash
        },
        Refusal::MappingFailed { error } => i > 0 && run.events[i - 1]
            == Event::<Text>::MappingStored(Reply::Failed(error)),
        Refusal::UnmappingFailed { error } => i == k + 8 && run.events[i - 1]
            == Event::<Text>::MappingDeleted(Reply::Failed(error)),
        Refusal::SlowDown => {
            &&& i > 0
            &&& is_slow_down(run.events[i - 1])
            &&& run.events[i - 1] is Resolved ==> i == 2 && request.query is Some
                && request.query->0 is Name
        },
    }
}

/// Whether an action, asked for after `i` steps, is the one whose turn it is,
/// and is about what the request and the replies so far say.
pub open spec fn is_called_for(
    run: Run,
    request: RenameRequest<Text>,
    action: Action<Text>,
    i: int,
) -> bool {
    let k = lookups(request);
    match action {
        Action::Receive => false,
        Action::CheckName { name } => {
            &&& i == 0
            &&& request.query is Some
            &&& name == request.new_name
        },
        Action::ResolveName { context, name } => {
            &&& all_zero(context)
            &&& {
                ||| {
                    &&& i == 1
                    &&& run.events[0] == Event::<Text>::NameChecked(true)
                    &&& request.query == Some(Query::Name(name))
                }
                ||| {
                    &&& i == k + 3
                    &&& name == request.new_name
                    &&& load_reply(run, request) matches Event::MetadataLoaded(
                        LoadReply::Loaded { metadata, metadata_hash },
                    )
                    &&& metadata.name != request.new_name
                }
            }
        },
        Action::CheckAccess { authorization, id } => {
            &&& i == k + 1
            &&& run.events[0] == Event::<Text>::NameChecked(true)
            &&& authorization == request.authorization
            &&& is_about(run, request, id)
            &&& !all_zero(id)
        },
        Action::LoadMetadata { context, id } => {
            &&& i == k + 2
            &&& run.events[k + 1] == Event::<Text>::AccessChecked(true)
            &&& context == id
            &&& is_about(run, request, id)
            &&& !all_zero(id)
        },
        Action::StoreMetadata { context, metadata: renamed } => {
            &&& i == k + 4
            &&& is_about(run, request, context)
            &&& load_reply(run, request) matches Event::MetadataLoaded(
                LoadReply::Loaded { metadata, metadata_hash },
            )
            &&& metadata.name != request.new_name
            &&& is_free(run, request)
            &&& differs_in_name_only(metadata, renamed, request.new_name)
        },
        Action::SwapPointer { context, key_argument, expected, updated } => {
            &&& i == k + 5
            &&& is_about(run, request, context)
            &&& key_argument == crate::key::hex_text(context.bytes@)
            &&& load_reply(run, request) matches Event::MetadataLoaded(
                LoadReply::Loaded { metadata, metadata_hash },
            )
            &&& expected == metadata_hash
            &&& run.events[k + 4] == Event::<Text>::MetadataStored(Reply::Done(updated))
        },
        Action::StoreMapping { context, name, id } => {
            &&& all_zero(context)
            &&& name == request.new_name
            &&& is_about(run, request, id)
            &&& load_reply(run, request) matches Event::MetadataLoaded(
                LoadReply::Loaded { metadata, metadata_hash },
            )
            &&& if metadata.name == request.new_name {
                i == k + 3
            } else {
                &&& i == k + 6
                &&& run.events[k + 5] == Event::<Text>::PointerSwapped(Reply::Done(metadata_hash))
            }
        },
        Action::DeleteMapping { context, name } => {
            &&& all_zero(context)
            &&& i == k + 7
            &&& load_reply(run, request) matches Event::MetadataLoaded(
                LoadReply::Loaded { metadata, metadata_hash },
            )
            &&& name == metadata.name
            &&& name != request.new_name
            &&& was_mapped(run.events[k + 6])
        },
        Action::Answer { answer } => match answer {
            Ok(response) => success_is_earned(run, request, response, i),
            Err(refusal) => refusal_is_due(run, request, refusal, i),
        },
    }
}

/// Whether a job is about the repository of the request and made of what the
/// load gave.
spec fn fits(run: Run, request: RenameRequest<Text>, job: Job<Text>) -> bool {
    &&& is_about(run, request, job.id)
    &&& !all_zero(job.id)
    &&& gave(run, request, job.metadata, job.metadata_hash)
    &&& job.new_name == request.new_name
}

/// What is known of the replies in each phase of a run.
spec fn known(run: Run, request: RenameRequest<Text>, i: int) -> bool {
    let k = lookups(request);
    match run.phases[i] {
        Phase::Start => false,
        Phase::CheckingName { authorization, query, new_name } => {
            &&& i == 0
            &&& request == (RenameRequest { authorization, query: Some(query), new_name })
        },
        Phase::Resolving { authorization, name, new_name } => {
            &&& i == 1
            &&& run.events[0] == Event::<Text>::NameChecked(true)
            &&& request == (RenameRequest {
                authorization,
                query: Some(Query::Name(name)),
                new_name,
            })
        },
        Phase::Authorizing { authorization, id, new_name } => {
            &&& i == k + 1
            &&& run.events[0] == Event::<Text>::NameChecked(true)
            &&& authorization == request.authorization
            &&& new_name == request.new_name
            &&& is_about(run, request, id)
            &&& !all_zero(id)
        },
        Phase::Loading { id, new_name } => {
            &&& i == k + 2
            &&& run.events[k + 1] == Event::<Text>::AccessChecked(true)
            &&& new_name == request.new_name
            &&& is_about(run, request, id)
            &&& !all_zero(id)
        },
        Phase::CheckingCollision { job } => {
            &&& i == k + 3
            &&& fits(run, request, job)
            &&& job.metadata.name != job.new_name
        },
        Phase::Installing { job, install } => {
            &&& fits(run, request, job)
            &&& job.metadata.name != job.new_name
            &&& is_free(run, request)
            &&& match install {
                Install::Blob => i == k + 4,
                Install::Pointer { updated } => i == k + 5 && run.events[k + 4] == Event::<
                    Text,
                >::MetadataStored(Reply::Done(updated)),
            }
        },
        Phase::Mapping { job, metadata_hash } => {
            &&& fits(run, request, job)
            &&& if job.metadata.name == job.new_name {
                i == k + 3 && metadata_hash == job.metadata_hash
            } else {
                i == k + 6 && installed(run, request, job, metadata_hash)
            }
        },
        Phase::Unmapping { job, metadata_hash } => {
            &&& i == k + 7
            &&& fits(run, request, job)
            &&& job.metadata.name != job.new_name
            &&& installed(run, request, job, metadata_hash)
            &&& was_mapped(run.events[k + 6])
        },
        Phase::Answered { answer } => match answer {
            Ok(response) => success_is_earned(run, request, response, i),
            Err(refusal) => refusal_is_due(run, request, refusal, i),
        },
    }
}

/// Whether the metadata of a job was stored under `updated` and swapped in.
spec fn installed(
    run: Run,
    request: RenameRequest<Text>,
    job: Job<Text>,
    updated: ContentHash,
) -> bool {
    let k = lookups(request);
    &&& is_free(run, request)
    &&& run.events[k + 4] == Event::<Text>::MetadataStored(Reply::Done(updated))
    &&& run.events[k + 5] == Event::<Text>::PointerSwapped(Reply::Done(job.metadata_hash))
}

/// What is known of the replies at each point of a run.
proof fn lemma_known(run: Run, request: RenameRequest<Text>, i: int)
    requires
        run.contended(request),
        0 <= i < run.phases.len(),
    ensures
        known(run, request, i),
    decreases i,
{
    assert forall|id: RepositoryId| #[trigger] all_zero(id) <==> id == RepositoryId::none() by {
        law_no_repository_is_all_zero(id);
    }
    if i > 0 {
        lemma_known(run, request, i - 1);
        assert(run.step(i - 1));
    }
}

/// Every action of a rename is called for by the request and by what came back
/// before it, and every answer is earned: each success is about the repository
/// that was asked for and gives back what was loaded under the new name, and
/// each refusal has its cause in the reply that came last. This holds whoever
/// else uses the stores, and whether or not they fail.
pub proof fn law_every_action_is_called_for(run: Run, request: RenameRequest<Text>, i: int)
    requires
        run.contended(request),
        0 <= i < run.phases.len(),
    ensures
        is_called_for(run, request, run.phases[i].pending(), i),
{
    lemma_known(run, request, i);
    law_no_repository_is_all_zero(RepositoryId::none());
}

/// Whoever asks gets back what was loaded: where a run is answered with
/// success, the answer that is given out has the description, the default
/// branch, the creator and the time of creation that the load gave, and the
/// name that was asked for.
pub proof fn law_success_gives_back_what_was_loaded(
    run: Run,
    request: RenameRequest<Text>,
    response: RenameResponse<Text>,
)
    requires
        run.contended(request),
        run.reached().pending() == (Action::Answer { answer: Ok::<_, Refusal<Text>>(response) }),
    ensures
        is_about(run, request, response.id),
        load_reply(run, request) matches Event::MetadataLoaded(LoadReply::Loaded {
            metadata,
            metadata_hash,
        }) && {
            &&& response.metadata.name == request.new_name
            &&& response.metadata.description == metadata.description
            &&& response.metadata.default_branch == metadata.default_branch
            &&& response.metadata.default_branch_name == metadata.default_branch_name
            &&& response.metadata.creator == metadata.creator
            &&& response.metadata.created == metadata.created
        },
{
    law_every_action_is_called_for(run, request, run.phases.len() - 1);
}

/// Whether what came back in step `i` lets a rename go on: no check failed and
/// no store did, and the id is one of a repository. The lookup of the new name
/// lets it go on whatever became of it, unless the name is another
/// repository's.
pub open spec fn lets_go_on(run: Run, request: RenameRequest<Text>, i: int) -> bool {
    match run.events[i] {
        Event::Requested(_) => false,
        Event::NameChecked(valid) => valid && !(request.query matches Some(Query::Id(id))
            && all_zero(id)),
        Event::Resolved(reply) => if i == 1 && lookups(request) == 1 {
            reply matches Reply::Done(id) && !all_zero(id)
        } else {
            reply matches Reply::Done(taken) ==> all_zero(taken) || is_about(run, request, taken)
        },
        Event::AccessChecked(granted) => granted,
        Event::MetadataLoaded(reply) => reply is Loaded,
        Event::MetadataStored(reply) => reply is Done,
        Event::PointerSwapped(reply) => {
            &&& reply matches Reply::Done(found)
            &&& load_reply(run, request) matches Event::MetadataLoaded(
                LoadReply::Loaded { metadata, metadata_hash },
            )
            &&& found == metadata_hash
        },
        Event::MappingStored(reply) => reply is Done,
        Event::MappingDeleted(reply) => reply is Done,
    }
}

/// A rename is refused exactly where something stands in its way: after a
/// reply that lets it go on there is no refusal, after any other there is
/// nothing else.
pub proof fn law_refused_exactly_where_hindered(run: Run, request: RenameRequest<Text>, i: int)
    requires
        run.contended(request),
        0 <= i < run.events.len(),
    ensures
        lets_go_on(run, request, i) <==> !(run.phases[i + 1].pending() matches Action::Answer {
            answer: Err(_),
        }),
{
    lemma_known(run, request, i);
    lemma_known(run, request, i + 1);
    assert(run.step(i));
    assert forall|id: RepositoryId| #[trigger] all_zero(id) <==> id == RepositoryId::none() by {
        law_no_repository_is_all_zero(id);
    }
}

} // verus!
