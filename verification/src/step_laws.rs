//! What each step of a rename comes to on the server's side: what is asked,
//! and what every answer to it leads to.
use vstd::prelude::*;

use crate::refusal::{Code, Refusal, Status};
use crate::repository_rename::{
    after_install, next_phase, Action, Event, Install, Job, LoadReply, Phase, Query, RenameRequest,
    RenameResponse, Reply,
};
use crate::types::{ContentHash, RepositoryId, RepositoryMetadata, Text};

verus! {

/// Whether `new_metadata` says the same of a repository as `old_metadata` in everything but the
/// name, which is `name`.
pub open spec fn differs_in_name_only(
    old_metadata: RepositoryMetadata<Text>,
    new_metadata: RepositoryMetadata<Text>,
    name: Text,
) -> bool {
    &&& new_metadata.name == name
    &&& new_metadata.description == old_metadata.description
    &&& new_metadata.default_branch == old_metadata.default_branch
    &&& new_metadata.default_branch_name == old_metadata.default_branch_name
    &&& new_metadata.creator == old_metadata.creator
    &&& new_metadata.created == old_metadata.created
}

/// Whether a phase answers its request with success, with this repository.
pub open spec fn succeeds_with(
    phase: Phase<Text>,
    id: RepositoryId,
    old_metadata: RepositoryMetadata<Text>,
    new_name: Text,
    metadata_hash: ContentHash,
) -> bool {
    phase matches Phase::Answered { answer: Ok(response) } && {
        &&& phase.pending() == (Action::Answer { answer: Ok::<_, Refusal<Text>>(response) })
        &&& response.id == id
        &&& differs_in_name_only(old_metadata, response.metadata, new_name)
        &&& response.metadata_hash == metadata_hash
    }
}

/// Whether a phase answers its request with this refusal.
pub open spec fn refuses_with(phase: Phase<Text>, refusal: Refusal<Text>) -> bool {
    let answer: Result<RenameResponse<Text>, Refusal<Text>> = Err(refusal);
    phase == (Phase::Answered { answer: answer }) && phase.pending() == (Action::Answer {
        answer: answer,
    })
}

/// Whether every byte of an id is zero.
pub open spec fn all_zero(id: RepositoryId) -> bool {
    forall|k: int| 0 <= k < 16 ==> id.bytes@[k] == 0
}

/// The id of no repository is the one whose bytes are all zero, and no other.
pub proof fn law_no_repository_is_all_zero(id: RepositoryId)
    ensures
        all_zero(id) <==> id == RepositoryId::none(),
{
    if all_zero(id) {
        assert(id.bytes@ =~= RepositoryId::none().bytes@);
        assert(id.bytes =~= RepositoryId::none().bytes);
    }
}

/// Renaming metadata keeps everything but the name.
pub proof fn law_renamed_metadata_differs_in_name_only(
    metadata: RepositoryMetadata<Text>,
    job: Job<Text>,
    metadata_hash: ContentHash,
    name: Text,
)
    ensures
        differs_in_name_only(metadata, metadata.renamed(name), name),
        differs_in_name_only(job.metadata, job.renamed(), job.new_name),
        differs_in_name_only(job.metadata, job.response(metadata_hash).metadata, job.new_name),
        job.response(metadata_hash).id == job.id,
        job.response(metadata_hash).metadata_hash == metadata_hash,
        job.renamed_before() <==> job.metadata.name == job.new_name,
{
}

/// What is given out is what was reached: a request is answered exactly where
/// its rename has come to an answer, with that answer and no other.
pub proof fn law_answer_given_is_the_answer_reached(
    phase: Phase<Text>,
    answer: Result<RenameResponse<Text>, Refusal<Text>>,
)
    ensures
        phase.pending() == (Action::Answer { answer: answer }) <==> phase == (Phase::Answered {
            answer: answer,
        }),
        phase.pending() is Answer <==> phase is Answered,
{
}

/// A request is taken up with its own name, query and authorization, and the
/// new name is checked first; one that names no repository is refused.
pub proof fn law_request_is_taken_up(request: RenameRequest<Text>)
    ensures
        ({
            let next = next_phase(Phase::Start, Event::Requested(request));
            match request.query {
                None => refuses_with(next, Refusal::MissingQuery),
                Some(query) => {
                    &&& next == (Phase::CheckingName {
                        authorization: request.authorization,
                        query: query,
                        new_name: request.new_name,
                    })
                    &&& next.pending() == (Action::CheckName { name: request.new_name })
                },
            }
        }),
{
}

/// A valid name lets the rename go on with the repository that was asked for,
/// an invalid one is refused by name, whatever else the request says.
pub proof fn law_name_check_decides(
    authorization: Option<Text>,
    query: Query<Text>,
    new_name: Text,
    valid: bool,
)
    ensures
        ({
            let asking = Phase::CheckingName { authorization, query, new_name };
            let next = next_phase(asking, Event::NameChecked(valid));
            &&& asking.pending() == (Action::CheckName { name: new_name })
            &&& !valid ==> refuses_with(next, Refusal::InvalidName { name: new_name })
            &&& valid ==> match query {
                Query::Id(id) => identified(next, authorization, id, new_name),
                Query::Name(name) => {
                    &&& next == (Phase::Resolving { authorization, name, new_name })
                    &&& next.pending() == (Action::ResolveName {
                        context: RepositoryId::none(),
                        name: name,
                    })
                },
            }
        }),
{
    if let Query::Id(id) = query {
        law_no_repository_is_all_zero(id);
    }
}

/// Whether a phase is what follows once a repository's id is known: access to
/// that id is checked with the request's authorization, unless the id is that
/// of no repository.
pub open spec fn identified(
    phase: Phase<Text>,
    authorization: Option<Text>,
    id: RepositoryId,
    new_name: Text,
) -> bool {
    &&& all_zero(id) ==> refuses_with(phase, Refusal::MissingId)
    &&& !all_zero(id) ==> {
        &&& phase == (Phase::Authorizing { authorization, id, new_name })
        &&& phase.pending() == (Action::CheckAccess { authorization, id })
    }
}

/// The repository that a name leads to is the one that the lookup gives; a
/// name that leads nowhere is refused by name.
pub proof fn law_lookup_decides_the_repository(
    authorization: Option<Text>,
    name: Text,
    new_name: Text,
    reply: Reply<RepositoryId, Text>,
)
    ensures
        ({
            let asking = Phase::Resolving { authorization, name, new_name };
            let next = next_phase(asking, Event::Resolved(reply));
            &&& asking.pending() == (Action::ResolveName {
                context: RepositoryId::none(),
                name: name,
            })
            &&& match reply {
                Reply::Done(id) => identified(next, authorization, id, new_name),
                Reply::SlowDown => refuses_with(next, Refusal::SlowDown),
                Reply::Failed(_) => refuses_with(next, Refusal::NameNotFound { name }),
            }
        }),
{
    if let Reply::Done(id) = reply {
        law_no_repository_is_all_zero(id);
    }
}

/// Access decides: granted, the metadata of that repository is loaded, in its
/// own context; denied, the rename ends there.
pub proof fn law_access_check_decides(
    authorization: Option<Text>,
    id: RepositoryId,
    new_name: Text,
    access: bool,
)
    ensures
        ({
            let asking = Phase::Authorizing { authorization, id, new_name };
            let next = next_phase(asking, Event::AccessChecked(access));
            &&& asking.pending() == (Action::CheckAccess { authorization, id })
            &&& !access ==> refuses_with(next, Refusal::NoAccess)
            &&& access ==> {
                &&& next == (Phase::<Text>::Loading { id, new_name })
                &&& next.pending() == (Action::<Text>::LoadMetadata { context: id, id })
            }
        }),
{
}

/// Metadata that carries the new name already leaves only the mapping to be
/// set, under the pointer it was found under; any other leads to the lookup of
/// the new name.
pub proof fn law_loaded_name_decides(id: RepositoryId, new_name: Text, reply: LoadReply<Text>)
    ensures
        ({
            let asking = Phase::<Text>::Loading { id, new_name };
            let next = next_phase(asking, Event::MetadataLoaded(reply));
            &&& asking.pending() == (Action::<Text>::LoadMetadata { context: id, id })
            &&& match reply {
                LoadReply::Loaded { metadata, metadata_hash } => {
                    let job = Job { id, metadata, metadata_hash, new_name };
                    &&& metadata.name == new_name ==> {
                        &&& next == (Phase::Mapping { job, metadata_hash })
                        &&& next.pending() == (Action::StoreMapping {
                            context: RepositoryId::none(),
                            name: new_name,
                            id: id,
                        })
                    }
                    &&& metadata.name != new_name ==> {
                        &&& next == (Phase::CheckingCollision { job })
                        &&& next.pending() == (Action::ResolveName {
                            context: RepositoryId::none(),
                            name: new_name,
                        })
                    }
                },
                LoadReply::SlowDown => refuses_with(next, Refusal::SlowDown),
                LoadReply::Failed { id_text } => refuses_with(
                    next,
                    Refusal::IdNotFound { id_text },
                ),
            }
        }),
{
}

/// A new name that is mapped to any other repository is refused, whichever two
/// repositories these are; with every other outcome of the lookup the renamed
/// metadata is stored, in the repository's own context.
pub proof fn law_name_of_another_is_refused(job: Job<Text>, reply: Reply<RepositoryId, Text>)
    ensures
        ({
            let asking = Phase::CheckingCollision { job };
            let next = next_phase(asking, Event::Resolved(reply));
            let belongs_to_another = reply matches Reply::Done(taken) && taken != job.id
                && !all_zero(taken);
            &&& asking.pending() == (Action::ResolveName {
                context: RepositoryId::none(),
                name: job.new_name,
            })
            &&& belongs_to_another ==> refuses_with(
                next,
                Refusal::AlreadyExists { name: job.new_name },
            )
            &&& !belongs_to_another ==> {
                &&& next == (Phase::Installing { job, install: Install::Blob })
                &&& stores_renamed_metadata(next.pending(), job)
            }
        }),
{
    if let Reply::Done(taken) = reply {
        law_no_repository_is_all_zero(taken);
    }
}

/// Whether an action stores, in the repository's context, the metadata of a
/// job under its new name and otherwise as it was loaded.
pub open spec fn stores_renamed_metadata(action: Action<Text>, job: Job<Text>) -> bool {
    action matches Action::StoreMetadata { context, metadata } && context == job.id
        && differs_in_name_only(job.metadata, metadata, job.new_name)
}

/// Whether an action swaps the metadata pointer of a job's repository from
/// where the metadata was loaded to `updated`.
pub open spec fn swaps_pointer(
    action: Action<Text>,
    job: Job<Text>,
    updated_hash: ContentHash,
) -> bool {
    action matches Action::SwapPointer { context, key_argument, expected, updated } && {
        &&& context == job.id
        &&& key_argument == crate::key::hex_text(job.id.bytes@)
        &&& expected == job.metadata_hash
        &&& updated == updated_hash
    }
}

/// What is stored is the loaded metadata under the new name, and the pointer
/// is then swapped onto the very address that the store gave.
pub proof fn law_stored_blob_is_swapped_in(job: Job<Text>, reply: Reply<ContentHash, Text>)
    ensures
        ({
            let asking = Phase::Installing { job, install: Install::Blob };
            let next = next_phase(asking, Event::MetadataStored(reply));
            &&& stores_renamed_metadata(asking.pending(), job)
            &&& next == after_install(job, Install::Blob, Event::MetadataStored(reply))
            &&& match reply {
                Reply::Done(updated) => {
                    &&& next == (Phase::Installing { job, install: Install::Pointer { updated } })
                    &&& swaps_pointer(next.pending(), job, updated)
                },
                Reply::SlowDown => refuses_with(next, Refusal::SlowDown),
                Reply::Failed(error) => refuses_with(next, Refusal::BlobFailed { error }),
            }
        }),
{
}

/// The swap goes through exactly where the pointer was found as it was loaded;
/// any other pointer is a conflict, and no mapping is touched then.
pub proof fn law_swap_decides(
    job: Job<Text>,
    updated: ContentHash,
    reply: Reply<ContentHash, Text>,
)
    ensures
        ({
            let install = Install::Pointer { updated };
            let asking = Phase::Installing { job, install };
            let next = next_phase(asking, Event::PointerSwapped(reply));
            &&& swaps_pointer(asking.pending(), job, updated)
            &&& next == after_install(job, install, Event::PointerSwapped(reply))
            &&& match reply {
                Reply::Done(previous) => {
                    &&& previous != job.metadata_hash ==> refuses_with(next, Refusal::Conflict)
                    &&& previous == job.metadata_hash ==> {
                        &&& next == (Phase::Mapping { job, metadata_hash: updated })
                        &&& next.pending() == (Action::StoreMapping {
                            context: RepositoryId::none(),
                            name: job.new_name,
                            id: job.id,
                        })
                    }
                },
                Reply::SlowDown => refuses_with(next, Refusal::SlowDown),
                Reply::Failed(error) => refuses_with(next, Refusal::PointerFailed { error }),
            }
        }),
{
}

/// Once the new name is mapped, the old mapping goes; where the name was the
/// new one all along there is none to go, and the rename succeeds.
pub proof fn law_old_mapping_goes_after_the_new_one(
    job: Job<Text>,
    metadata_hash: ContentHash,
    reply: Reply<(), Text>,
)
    ensures
        ({
            let asking = Phase::Mapping { job, metadata_hash };
            let next = next_phase(asking, Event::MappingStored(reply));
            &&& asking.pending() == (Action::StoreMapping {
                context: RepositoryId::none(),
                name: job.new_name,
                id: job.id,
            })
            &&& match reply {
                Reply::Done(_) => {
                    &&& job.metadata.name == job.new_name ==> succeeds_with(
                        next,
                        job.id,
                        job.metadata,
                        job.new_name,
                        metadata_hash,
                    )
                    &&& job.metadata.name != job.new_name ==> {
                        &&& next == (Phase::Unmapping { job, metadata_hash })
                        &&& next.pending() == (Action::DeleteMapping {
                            context: RepositoryId::none(),
                            name: job.metadata.name,
                        })
                    }
                },
                Reply::SlowDown => refuses_with(next, Refusal::SlowDown),
                Reply::Failed(error) => refuses_with(next, Refusal::MappingFailed { error }),
            }
        }),
{
}

/// With the old mapping gone the rename succeeds, with the repository as it
/// was but for its name.
pub proof fn law_rename_ends_with_the_old_mapping(
    job: Job<Text>,
    metadata_hash: ContentHash,
    reply: Reply<(), Text>,
)
    ensures
        ({
            let asking = Phase::Unmapping { job, metadata_hash };
            let next = next_phase(asking, Event::MappingDeleted(reply));
            &&& asking.pending() == (Action::DeleteMapping {
                context: RepositoryId::none(),
                name: job.metadata.name,
            })
            &&& match reply {
                Reply::Done(_) => succeeds_with(
                    next,
                    job.id,
                    job.metadata,
                    job.new_name,
                    metadata_hash,
                ),
                Reply::SlowDown => refuses_with(next, Refusal::SlowDown),
                Reply::Failed(error) => refuses_with(next, Refusal::UnmappingFailed { error }),
            }
        }),
{
}

/// Whether an event is what an action can come to.
pub open spec fn answers(action: Action<Text>, event: Event<Text>) -> bool {
    match action {
        Action::Receive => event is Requested,
        Action::CheckName { name } => event is NameChecked,
        Action::ResolveName { context, name } => event is Resolved,
        Action::CheckAccess { authorization, id } => event is AccessChecked,
        Action::LoadMetadata { context, id } => event is MetadataLoaded,
        Action::StoreMetadata { context, metadata } => event is MetadataStored,
        Action::SwapPointer { context, key_argument, expected, updated } => event
            is PointerSwapped,
        Action::StoreMapping { context, name, id } => event is MappingStored,
        Action::DeleteMapping { context, name } => event is MappingDeleted,
        Action::Answer { answer } => false,
    }
}

/// Only an answer to what was asked moves a rename on: any other event leaves
/// it where it is. An answered request stays answered.
pub proof fn law_other_events_change_nothing(phase: Phase<Text>, event: Event<Text>)
    requires
        !answers(phase.pending(), event),
    ensures
        next_phase(phase, event) == phase,
        phase matches Phase::Installing { job, install } ==> after_install(job, install, event)
            == phase,
{
}

/// A rename that has not begun waits for a request.
pub proof fn law_rename_begins_with_a_request()
    ensures
        Phase::<Text>::Start.pending() == Action::<Text>::Receive,
        forall|phase: Phase<Text>| phase.pending() is Receive ==> phase is Start,
{
}

/// Whether a refusal is answered with this code and this message.
pub open spec fn is_told(refusal: Refusal<Text>, code: Code, message: Text) -> bool {
    refusal.status() == Some(Status { code, message })
}

/// What the caller is told of a refusal: the code says whose fault it is, and
/// the message names the repository, the name or the failure in question.
pub proof fn law_refusals_are_told_apart(text: Text)
    ensures
        is_told(
            Refusal::MissingQuery,
            Code::InvalidArgument,
            "RepositoryRenameRequest.query must be set (id or name)"@,
        ),
        is_told(
            Refusal::InvalidName { name: text },
            Code::InvalidArgument,
            "Invalid repository name "@ + text,
        ),
        is_told(
            Refusal::NameNotFound { name: text },
            Code::NotFound,
            "Repository "@ + text + " not found"@,
        ),
        is_told(Refusal::MissingId, Code::InvalidArgument, "Missing repository id"@),
        is_told(
            Refusal::IdNotFound { id_text: text },
            Code::NotFound,
            "Repository "@ + text + " not found"@,
        ),
        is_told(
            Refusal::AlreadyExists { name: text },
            Code::AlreadyExists,
            "Repository "@ + text + " already exists"@,
        ),
        is_told(
            Refusal::BlobFailed { error: text },
            Code::Internal,
            "failed to store renamed metadata: "@ + text,
        ),
        is_told(
            Refusal::PointerFailed { error: text },
            Code::Internal,
            "failed to update metadata: "@ + text,
        ),
        is_told(
            Refusal::Conflict,
            Code::Aborted,
            "repository metadata was modified concurrently"@,
        ),
        is_told(
            Refusal::MappingFailed { error: text },
            Code::Internal,
            "Failed to store repository name mapping: "@ + text,
        ),
        is_told(
            Refusal::UnmappingFailed { error: text },
            Code::Internal,
            "Failed to delete previous repository name mapping: "@ + text,
        ),
        forall|refusal: Refusal<Text>| #[trigger]
            refusal.status() is None <==> refusal is NoAccess || refusal is SlowDown,
{
}

/// A refusal that is told of a text keeps the text: two of one kind are told
/// alike only where they are about the same.
pub proof fn law_messages_keep_their_text(one: Text, other: Text)
    requires
        one != other,
    ensures
        (Refusal::InvalidName { name: one }).status() != (Refusal::InvalidName {
            name: other,
        }).status(),
        (Refusal::NameNotFound { name: one }).status() != (Refusal::NameNotFound {
            name: other,
        }).status(),
        (Refusal::AlreadyExists { name: one }).status() != (Refusal::AlreadyExists {
            name: other,
        }).status(),
        (Refusal::IdNotFound { id_text: one }).status() != (Refusal::IdNotFound {
            id_text: other,
        }).status(),
{
    lemma_joined_text_is_kept("Invalid repository name "@, one, other, Seq::empty());
    lemma_joined_text_is_kept("Repository "@, one, other, " not found"@);
    lemma_joined_text_is_kept("Repository "@, one, other, " already exists"@);
    assert("Invalid repository name "@ + one + Seq::empty() =~= "Invalid repository name "@ + one);
    assert("Invalid repository name "@ + other + Seq::empty() =~= "Invalid repository name "@
        + other);
}

/// Different texts stay different between the same beginning and end.
proof fn lemma_joined_text_is_kept(before: Text, one: Text, other: Text, after: Text)
    requires
        one != other,
    ensures
        before + one + after != before + other + after,
{
    let left = before + one + after;
    let right = before + other + after;
    if left == right {
        assert(left.len() == right.len());
        assert(one =~= left.subrange(before.len() as int, (before.len() + one.len()) as int));
        assert(other =~= right.subrange(before.len() as int, (before.len() + one.len()) as int));
    }
}

} // verus!
