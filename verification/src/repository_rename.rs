//! The server's side of a rename.
//!
//! A repository's name lives in two places: the canonical `name` in its
//! metadata blob, and the name to id mapping that names are resolved by. They
//! have to move together, since a mapping that disagrees with the blob is
//! dropped when it is next resolved.
//!
//! The order is metadata, then new mapping, then old mapping, so a run that
//! dies part way leaves the repository within reach of its id and a re-run
//! finishes the job. Re-issuing a rename that has already happened changes
//! nothing but still repairs the mapping.
//!
//! The stores, the authorizer and the rule for names are asked from outside:
//! [`handler`] takes the phase that a rename is in and what came back of the
//! last action, and gives the next phase and the next action.
use vstd::prelude::*;

use crate::key::metadata_key_argument;
use crate::refusal::Refusal;
use crate::types::{ContentHash, RepositoryId, RepositoryMetadata, Text};

verus! {

/// How a request names the repository to rename.
#[derive(Debug, PartialEq, Eq)]
pub enum Query<S = String> {
    Id(RepositoryId),
    Name(S),
}

impl View for Query {
    type V = Query<Text>;

    open spec fn view(&self) -> Query<Text> {
        match self {
            Query::Id(id) => Query::Id(*id),
            Query::Name(name) => Query::Name(name@),
        }
    }
}

/// The view of a text that may be missing.
pub open spec fn view_text(text: Option<String>) -> Option<Text> {
    match text {
        Some(text) => Some(text@),
        None => None,
    }
}

/// A request to rename a repository.
#[derive(Debug, PartialEq, Eq)]
pub struct RenameRequest<S = String> {
    /// What the caller presents to show that the rename is theirs to ask for.
    pub authorization: Option<S>,
    pub query: Option<Query<S>>,
    pub new_name: S,
}

impl View for RenameRequest {
    type V = RenameRequest<Text>;

    open spec fn view(&self) -> RenameRequest<Text> {
        RenameRequest {
            authorization: view_text(self.authorization),
            query: match self.query {
                Some(query) => Some(query@),
                None => None,
            },
            new_name: self.new_name@,
        }
    }
}

/// The renamed repository: what a successful rename is answered with.
#[derive(Debug, PartialEq, Eq)]
pub struct RenameResponse<S = String> {
    pub id: RepositoryId,
    pub metadata: RepositoryMetadata<S>,
    pub metadata_hash: ContentHash,
}

impl View for RenameResponse {
    type V = RenameResponse<Text>;

    open spec fn view(&self) -> RenameResponse<Text> {
        RenameResponse {
            id: self.id,
            metadata: self.metadata@,
            metadata_hash: self.metadata_hash,
        }
    }
}

/// The view of the answer to a request.
pub open spec fn view_answer(answer: Result<RenameResponse, Refusal>) -> Result<
    RenameResponse<Text>,
    Refusal<Text>,
> {
    match answer {
        Ok(response) => Ok(response@),
        Err(refusal) => Err(refusal@),
    }
}

/// What a store says to an action.
#[derive(Debug, PartialEq, Eq)]
pub enum Reply<T, S = String> {
    /// The action was carried out.
    Done(T),
    /// The store asked to slow down.
    SlowDown,
    /// The action failed otherwise; the text of the failure.
    Failed(S),
}

impl<T> View for Reply<T> {
    type V = Reply<T, Text>;

    open spec fn view(&self) -> Reply<T, Text> {
        match self {
            Reply::Done(value) => Reply::Done(*value),
            Reply::SlowDown => Reply::SlowDown,
            Reply::Failed(error) => Reply::Failed(error@),
        }
    }
}

/// What a store says to the loading of a repository's metadata.
#[derive(Debug, PartialEq, Eq)]
pub enum LoadReply<S = String> {
    /// The metadata, and the pointer it was found under.
    Loaded { metadata: RepositoryMetadata<S>, metadata_hash: ContentHash },
    /// The store asked to slow down.
    SlowDown,
    /// No metadata could be loaded; the id as the store's id type displays it.
    Failed { id_text: S },
}

impl View for LoadReply {
    type V = LoadReply<Text>;

    open spec fn view(&self) -> LoadReply<Text> {
        match self {
            LoadReply::Loaded { metadata, metadata_hash } => LoadReply::Loaded {
                metadata: metadata@,
                metadata_hash: *metadata_hash,
            },
            LoadReply::SlowDown => LoadReply::SlowDown,
            LoadReply::Failed { id_text } => LoadReply::Failed { id_text: id_text@ },
        }
    }
}

/// What came back of an action.
#[derive(Debug, PartialEq, Eq)]
pub enum Event<S = String> {
    /// A request came in.
    Requested(RenameRequest<S>),
    /// Whether the new name is one that a repository can have.
    NameChecked(bool),
    /// The id that a name is mapped to.
    Resolved(Reply<RepositoryId, S>),
    /// Whether the caller may write to the repository.
    AccessChecked(bool),
    /// The repository's metadata.
    MetadataLoaded(LoadReply<S>),
    /// The address of the stored metadata blob.
    MetadataStored(Reply<ContentHash, S>),
    /// The metadata pointer as it was found when it came to the swap.
    PointerSwapped(Reply<ContentHash, S>),
    /// The mapping for a name was stored.
    MappingStored(Reply<(), S>),
    /// The mapping for a name was deleted.
    MappingDeleted(Reply<(), S>),
}

impl View for Event {
    type V = Event<Text>;

    open spec fn view(&self) -> Event<Text> {
        match self {
            Event::Requested(request) => Event::Requested(request@),
            Event::NameChecked(valid) => Event::NameChecked(*valid),
            Event::Resolved(reply) => Event::Resolved(reply@),
            Event::AccessChecked(granted) => Event::AccessChecked(*granted),
            Event::MetadataLoaded(reply) => Event::MetadataLoaded(reply@),
            Event::MetadataStored(reply) => Event::MetadataStored(reply@),
            Event::PointerSwapped(reply) => Event::PointerSwapped(reply@),
            Event::MappingStored(reply) => Event::MappingStored(reply@),
            Event::MappingDeleted(reply) => Event::MappingDeleted(reply@),
        }
    }
}

/// What a rename works on once the repository's metadata is loaded.
#[derive(Debug, PartialEq, Eq)]
pub struct Job<S = String> {
    pub id: RepositoryId,
    /// The metadata as it was loaded, under the old name.
    pub metadata: RepositoryMetadata<S>,
    /// The pointer that the metadata was found under.
    pub metadata_hash: ContentHash,
    pub new_name: S,
}

impl View for Job {
    type V = Job<Text>;

    open spec fn view(&self) -> Job<Text> {
        Job {
            id: self.id,
            metadata: self.metadata@,
            metadata_hash: self.metadata_hash,
            new_name: self.new_name@,
        }
    }
}

impl Job<Text> {
    /// Whether the metadata carries the new name already.
    pub open spec fn renamed_before(self) -> bool {
        self.metadata.name == self.new_name
    }

    /// The metadata under the new name.
    pub open spec fn renamed(self) -> RepositoryMetadata<Text> {
        self.metadata.renamed(self.new_name)
    }

    /// The answer once the metadata pointer is `metadata_hash`.
    pub open spec fn response(self, metadata_hash: ContentHash) -> RenameResponse<Text> {
        RenameResponse { id: self.id, metadata: self.renamed(), metadata_hash: metadata_hash }
    }
}

/// How far the new name is installed in the metadata.
#[derive(Clone, Copy, Debug, PartialEq, Eq)]
pub enum Install {
    /// The blob with the new name is being stored.
    Blob,
    /// The blob is stored under `updated`, the pointer is being swapped onto it.
    Pointer { updated: ContentHash },
}

/// The phase that a rename is in: what has been found out, and which action is
/// under way.
#[derive(Debug, PartialEq, Eq)]
pub enum Phase<S = String> {
    /// No request has come in yet.
    Start,
    /// The new name is being checked.
    CheckingName { authorization: Option<S>, query: Query<S>, new_name: S },
    /// The name in the request is being resolved.
    Resolving { authorization: Option<S>, name: S, new_name: S },
    /// The caller's access is being checked.
    Authorizing { authorization: Option<S>, id: RepositoryId, new_name: S },
    /// The metadata is being loaded.
    Loading { id: RepositoryId, new_name: S },
    /// The new name is being looked up, to see who has it.
    CheckingCollision { job: Job<S> },
    /// The new name is being installed in the metadata.
    Installing { job: Job<S>, install: Install },
    /// The mapping for the new name is being stored; the metadata pointer is
    /// `metadata_hash`.
    Mapping { job: Job<S>, metadata_hash: ContentHash },
    /// The mapping for the old name is being deleted.
    Unmapping { job: Job<S>, metadata_hash: ContentHash },
    /// The request is answered.
    Answered { answer: Result<RenameResponse<S>, Refusal<S>> },
}

impl View for Phase {
    type V = Phase<Text>;

    open spec fn view(&self) -> Phase<Text> {
        match self {
            Phase::Start => Phase::Start,
            Phase::CheckingName { authorization, query, new_name } => Phase::CheckingName {
                authorization: view_text(*authorization),
                query: query@,
                new_name: new_name@,
            },
            Phase::Resolving { authorization, name, new_name } => Phase::Resolving {
                authorization: view_text(*authorization),
                name: name@,
                new_name: new_name@,
            },
            Phase::Authorizing { authorization, id, new_name } => Phase::Authorizing {
                authorization: view_text(*authorization),
                id: *id,
                new_name: new_name@,
            },
            Phase::Loading { id, new_name } => Phase::Loading { id: *id, new_name: new_name@ },
            Phase::CheckingCollision { job } => Phase::CheckingCollision { job: job@ },
            Phase::Installing { job, install } => Phase::Installing {
                job: job@,
                install: *install,
            },
            Phase::Mapping { job, metadata_hash } => Phase::Mapping {
                job: job@,
                metadata_hash: *metadata_hash,
            },
            Phase::Unmapping { job, metadata_hash } => Phase::Unmapping {
                job: job@,
                metadata_hash: *metadata_hash,
            },
            Phase::Answered { answer } => Phase::Answered { answer: view_answer(*answer) },
        }
    }
}

/// What is to be done next. A `context` is the repository in whose context a
/// store is asked; names are kept in the context of no repository.
#[derive(Debug, PartialEq, Eq)]
pub enum Action<S = String> {
    /// Wait for a request.
    Receive,
    /// Check that `name` is one that a repository can have.
    CheckName { name: S },
    /// Find the id that `name` is mapped to.
    ResolveName { context: RepositoryId, name: S },
    /// Check that `authorization` lets the caller write to the repository.
    CheckAccess { authorization: Option<S>, id: RepositoryId },
    /// Load the repository's metadata and its pointer.
    LoadMetadata { context: RepositoryId, id: RepositoryId },
    /// Store a metadata blob.
    StoreMetadata { context: RepositoryId, metadata: RepositoryMetadata<S> },
    /// Put `updated` in the place of `expected` as the pointer that is keyed
    /// by `key_argument`, unless something else is found there.
    SwapPointer {
        context: RepositoryId,
        key_argument: S,
        expected: ContentHash,
        updated: ContentHash,
    },
    /// Map `name` to `id`.
    StoreMapping { context: RepositoryId, name: S, id: RepositoryId },
    /// Delete the mapping for `name`.
    DeleteMapping { context: RepositoryId, name: S },
    /// Answer the request.
    Answer { answer: Result<RenameResponse<S>, Refusal<S>> },
}

impl View for Action {
    type V = Action<Text>;

    open spec fn view(&self) -> Action<Text> {
        match self {
            Action::Receive => Action::Receive,
            Action::CheckName { name } => Action::CheckName { name: name@ },
            Action::ResolveName { context, name } => Action::ResolveName {
                context: *context,
                name: name@,
            },
            Action::CheckAccess { authorization, id } => Action::CheckAccess {
                authorization: view_text(*authorization),
                id: *id,
            },
            Action::LoadMetadata { context, id } => Action::LoadMetadata {
                context: *context,
                id: *id,
            },
            Action::StoreMetadata { context, metadata } => Action::StoreMetadata {
                context: *context,
                metadata: metadata@,
            },
            Action::SwapPointer { context, key_argument, expected, updated } => {
                Action::SwapPointer {
                    context: *context,
                    key_argument: key_argument@,
                    expected: *expected,
                    updated: *updated,
                }
            },
            Action::StoreMapping { context, name, id } => Action::StoreMapping {
                context: *context,
                name: name@,
                id: *id,
            },
            Action::DeleteMapping { context, name } => Action::DeleteMapping {
                context: *context,
                name: name@,
            },
            Action::Answer { answer } => Action::Answer { answer: view_answer(*answer) },
        }
    }
}

// ---------------------------------------------------------------------------
// What follows what
// ---------------------------------------------------------------------------

/// The request is answered with a refusal.
pub open spec fn refused(refusal: Refusal<Text>) -> Phase<Text> {
    Phase::Answered { answer: Err(refusal) }
}

/// What follows a request: one that names no repository is refused.
pub open spec fn after_request(request: RenameRequest<Text>) -> Phase<Text> {
    match request.query {
        None => refused(Refusal::MissingQuery),
        Some(query) => Phase::CheckingName {
            authorization: request.authorization,
            query: query,
            new_name: request.new_name,
        },
    }
}

/// What follows the check of the new name.
pub open spec fn after_name_check(
    authorization: Option<Text>,
    query: Query<Text>,
    new_name: Text,
    valid: bool,
) -> Phase<Text> {
    if !valid {
        refused(Refusal::InvalidName { name: new_name })
    } else {
        match query {
            Query::Id(id) => after_identified(authorization, id, new_name),
            Query::Name(name) => Phase::Resolving {
                authorization: authorization,
                name: name,
                new_name: new_name,
            },
        }
    }
}

/// What follows once the repository's id is known: the id of no repository is
/// refused.
pub open spec fn after_identified(
    authorization: Option<Text>,
    id: RepositoryId,
    new_name: Text,
) -> Phase<Text> {
    if id == RepositoryId::none() {
        refused(Refusal::MissingId)
    } else {
        Phase::Authorizing { authorization: authorization, id: id, new_name: new_name }
    }
}

/// What follows the resolving of the name in the request.
pub open spec fn after_resolve(
    authorization: Option<Text>,
    name: Text,
    new_name: Text,
    reply: Reply<RepositoryId, Text>,
) -> Phase<Text> {
    match reply {
        Reply::Done(id) => after_identified(authorization, id, new_name),
        Reply::SlowDown => refused(Refusal::SlowDown),
        Reply::Failed(_) => refused(Refusal::NameNotFound { name: name }),
    }
}

/// What follows the check of the caller's access.
pub open spec fn after_access(id: RepositoryId, new_name: Text, granted: bool) -> Phase<Text> {
    if granted {
        Phase::Loading { id: id, new_name: new_name }
    } else {
        refused(Refusal::NoAccess)
    }
}

/// What follows the loading of the metadata: where it carries the new name
/// already, only the mapping is left to be repaired.
pub open spec fn after_load(id: RepositoryId, new_name: Text, reply: LoadReply<Text>) -> Phase<
    Text,
> {
    match reply {
        LoadReply::Loaded { metadata, metadata_hash } => {
            let job = Job {
                id: id,
                metadata: metadata,
                metadata_hash: metadata_hash,
                new_name: new_name,
            };
            if job.renamed_before() {
                Phase::Mapping { job: job, metadata_hash: metadata_hash }
            } else {
                Phase::CheckingCollision { job: job }
            }
        },
        LoadReply::SlowDown => refused(Refusal::SlowDown),
        LoadReply::Failed { id_text } => refused(Refusal::IdNotFound { id_text: id_text }),
    }
}

/// Whether a name that is mapped to `taken` belongs to a repository other than
/// `id`.
pub open spec fn collides(taken: RepositoryId, id: RepositoryId) -> bool {
    taken != id && taken != RepositoryId::none()
}

/// What follows the lookup of the new name. A name that points elsewhere is a
/// collision; one that points at this repository is the half-finished rename
/// that is about to be finished; one that could not be looked up counts as
/// free.
pub open spec fn after_lookup(job: Job<Text>, reply: Reply<RepositoryId, Text>) -> Phase<Text> {
    match reply {
        Reply::Done(taken) if collides(taken, job.id) => refused(
            Refusal::AlreadyExists { name: job.new_name },
        ),
        _ => Phase::Installing { job: job, install: Install::Blob },
    }
}

/// What follows the storing of the blob with the new name.
pub open spec fn after_store(job: Job<Text>, reply: Reply<ContentHash, Text>) -> Phase<Text> {
    match reply {
        Reply::Done(updated) => Phase::Installing {
            job: job,
            install: Install::Pointer { updated: updated },
        },
        Reply::SlowDown => refused(Refusal::SlowDown),
        Reply::Failed(error) => refused(Refusal::BlobFailed { error: error }),
    }
}

/// What follows the swap of the metadata pointer: where it was found to be
/// another than the metadata was loaded under, the rename is given up.
pub open spec fn after_swap(
    job: Job<Text>,
    updated: ContentHash,
    reply: Reply<ContentHash, Text>,
) -> Phase<Text> {
    match reply {
        Reply::Done(previous) => if previous != job.metadata_hash {
            refused(Refusal::Conflict)
        } else {
            Phase::Mapping { job: job, metadata_hash: updated }
        },
        Reply::SlowDown => refused(Refusal::SlowDown),
        Reply::Failed(error) => refused(Refusal::PointerFailed { error: error }),
    }
}

/// What follows an event while the new name is being installed.
pub open spec fn after_install(job: Job<Text>, install: Install, event: Event<Text>) -> Phase<
    Text,
> {
    match (install, event) {
        (Install::Blob, Event::MetadataStored(reply)) => after_store(job, reply),
        (Install::Pointer { updated }, Event::PointerSwapped(reply)) => after_swap(
            job,
            updated,
            reply,
        ),
        _ => Phase::Installing { job: job, install: install },
    }
}

/// What follows the storing of the new mapping: the old one goes, where the
/// name was another.
pub open spec fn after_mapping(
    job: Job<Text>,
    metadata_hash: ContentHash,
    reply: Reply<(), Text>,
) -> Phase<Text> {
    match reply {
        Reply::Done(_) => if job.renamed_before() {
            Phase::Answered { answer: Ok(job.response(metadata_hash)) }
        } else {
            Phase::Unmapping { job: job, metadata_hash: metadata_hash }
        },
        Reply::SlowDown => refused(Refusal::SlowDown),
        Reply::Failed(error) => refused(Refusal::MappingFailed { error: error }),
    }
}

/// What follows the deletion of the old mapping.
pub open spec fn after_unmapping(
    job: Job<Text>,
    metadata_hash: ContentHash,
    reply: Reply<(), Text>,
) -> Phase<Text> {
    match reply {
        Reply::Done(_) => Phase::Answered { answer: Ok(job.response(metadata_hash)) },
        Reply::SlowDown => refused(Refusal::SlowDown),
        Reply::Failed(error) => refused(Refusal::UnmappingFailed { error: error }),
    }
}

/// The phase that follows an event. An event that the phase does not wait for
/// leaves it as it is.
pub open spec fn next_phase(phase: Phase<Text>, event: Event<Text>) -> Phase<Text> {
    match (phase, event) {
        (Phase::Start, Event::Requested(request)) => after_request(request),
        (
            Phase::CheckingName { authorization, query, new_name },
            Event::NameChecked(valid),
        ) => after_name_check(authorization, query, new_name, valid),
        (Phase::Resolving { authorization, name, new_name }, Event::Resolved(reply)) => {
            after_resolve(authorization, name, new_name, reply)
        },
        (
            Phase::Authorizing { authorization, id, new_name },
            Event::AccessChecked(granted),
        ) => after_access(id, new_name, granted),
        (Phase::Loading { id, new_name }, Event::MetadataLoaded(reply)) => after_load(
            id,
            new_name,
            reply,
        ),
        (Phase::CheckingCollision { job }, Event::Resolved(reply)) => after_lookup(job, reply),
        (Phase::Installing { job, install }, _) => after_install(job, install, event),
        (Phase::Mapping { job, metadata_hash }, Event::MappingStored(reply)) => after_mapping(
            job,
            metadata_hash,
            reply,
        ),
        (Phase::Unmapping { job, metadata_hash }, Event::MappingDeleted(reply)) => {
            after_unmapping(job, metadata_hash, reply)
        },
        _ => phase,
    }
}

impl Phase<Text> {
    /// The action that is under way in the phase.
    pub open spec fn pending(self) -> Action<Text> {
        match self {
            Phase::Start => Action::Receive,
            Phase::CheckingName { authorization, query, new_name } => Action::CheckName {
                name: new_name,
            },
            Phase::Resolving { authorization, name, new_name } => Action::ResolveName {
                context: RepositoryId::none(),
                name: name,
            },
            Phase::Authorizing { authorization, id, new_name } => Action::CheckAccess {
                authorization: authorization,
                id: id,
            },
            Phase::Loading { id, new_name } => Action::LoadMetadata { context: id, id: id },
            Phase::CheckingCollision { job } => Action::ResolveName {
                context: RepositoryId::none(),
                name: job.new_name,
            },
            Phase::Installing { job, install } => match install {
                Install::Blob => Action::StoreMetadata {
                    context: job.id,
                    metadata: job.renamed(),
                },
                Install::Pointer { updated } => Action::SwapPointer {
                    context: job.id,
                    key_argument: crate::key::hex_text(job.id.bytes@),
                    expected: job.metadata_hash,
                    updated: updated,
                },
            },
            Phase::Mapping { job, metadata_hash } => Action::StoreMapping {
                context: RepositoryId::none(),
                name: job.new_name,
                id: job.id,
            },
            Phase::Unmapping { job, metadata_hash } => Action::DeleteMapping {
                context: RepositoryId::none(),
                name: job.metadata.name,
            },
            Phase::Answered { answer } => Action::Answer { answer: answer },
        }
    }
}

// ---------------------------------------------------------------------------
// The steps
// ---------------------------------------------------------------------------

impl Clone for RenameResponse {
    fn clone(&self) -> (copy: RenameResponse)
        ensures
            copy@ == self@,
    {
        RenameResponse {
            id: self.id,
            metadata: self.metadata.clone(),
            metadata_hash: self.metadata_hash,
        }
    }
}

/// A copy of a text that may be missing.
fn copy_text(text: &Option<String>) -> (copy: Option<String>)
    ensures
        view_text(copy) == view_text(*text),
{
    match text {
        Some(text) => Some(text.clone()),
        None => None,
    }
}

impl Job {
    /// Whether the metadata carries the new name already.
    fn is_renamed_before(&self) -> (renamed: bool)
        ensures
            renamed == self@.renamed_before(),
    {
        self.metadata.name == self.new_name
    }

    /// The answer once the metadata pointer is `metadata_hash`.
    fn into_response(self, metadata_hash: ContentHash) -> (response: RenameResponse)
        ensures
            response@ == self@.response(metadata_hash),
    {
        RenameResponse {
            id: self.id,
            metadata: RepositoryMetadata { name: self.new_name, ..self.metadata },
            metadata_hash: metadata_hash,
        }
    }
}

impl Phase {
    /// The action that is under way in the phase.
    pub fn action(&self) -> (action: Action)
        ensures
            action@ == self@.pending(),
    {
        match self {
            Phase::Start => Action::Receive,
            Phase::CheckingName { authorization: _, query: _, new_name } => Action::CheckName {
                name: new_name.clone(),
            },
            Phase::Resolving { authorization: _, name, new_name: _ } => Action::ResolveName {
                context: RepositoryId::default(),
                name: name.clone(),
            },
            Phase::Authorizing { authorization, id, new_name: _ } => Action::CheckAccess {
                authorization: copy_text(authorization),
                id: *id,
            },
            Phase::Loading { id, new_name: _ } => Action::LoadMetadata { context: *id, id: *id },
            Phase::CheckingCollision { job } => Action::ResolveName {
                context: RepositoryId::default(),
                name: job.new_name.clone(),
            },
            Phase::Installing { job, install } => match install {
                Install::Blob => Action::StoreMetadata {
                    context: job.id,
                    metadata: job.metadata.with_name(job.new_name.as_str()),
                },
                Install::Pointer { updated } => Action::SwapPointer {
                    context: job.id,
                    key_argument: metadata_key_argument(job.id),
                    expected: job.metadata_hash,
                    updated: *updated,
                },
            },
            Phase::Mapping { job, metadata_hash: _ } => Action::StoreMapping {
                context: RepositoryId::default(),
                name: job.new_name.clone(),
                id: job.id,
            },
            Phase::Unmapping { job, metadata_hash: _ } => Action::DeleteMapping {
                context: RepositoryId::default(),
                name: job.metadata.name.clone(),
            },
            Phase::Answered { answer } => match answer {
                Ok(response) => Action::Answer { answer: Ok(response.clone()) },
                Err(refusal) => Action::Answer { answer: Err(refusal.clone()) },
            },
        }
    }
}

/// The request is answered with a refusal.
fn refuse(refusal: Refusal) -> (phase: Phase)
    ensures
        phase@ == refused(refusal@),
{
    Phase::Answered { answer: Err(refusal) }
}

/// Goes on with the repository whose id was found.
fn identify(authorization: Option<String>, id: RepositoryId, new_name: String) -> (phase: Phase)
    ensures
        phase@ == after_identified(view_text(authorization), id, new_name@),
{
    if id.is_zero() {
        refuse(Refusal::MissingId)
    } else {
        Phase::Authorizing { authorization: authorization, id: id, new_name: new_name }
    }
}

/// Writes a metadata blob that carries the new name and swaps the repository's
/// metadata pointer onto it, one step at a time.
///
/// The swap is a compare-and-swap: a metadata write that lands between the
/// load and the swap is not overwritten, and the rename is refused with
/// [`Refusal::Conflict`] for the caller to retry.
pub fn install_name(job: Job, install: Install, event: Event) -> (phase: Phase)
    ensures
        phase@ == after_install(job@, install, event@),
{
    match (install, event) {
        (Install::Blob, Event::MetadataStored(reply)) => match reply {
            Reply::Done(updated) => Phase::Installing {
                job: job,
                install: Install::Pointer { updated: updated },
            },
            Reply::SlowDown => refuse(Refusal::SlowDown),
            Reply::Failed(error) => refuse(Refusal::BlobFailed { error: error }),
        },
        (Install::Pointer { updated }, Event::PointerSwapped(reply)) => match reply {
            Reply::Done(previous) => if previous == job.metadata_hash {
                Phase::Mapping { job: job, metadata_hash: updated }
            } else {
                refuse(Refusal::Conflict)
            },
            Reply::SlowDown => refuse(Refusal::SlowDown),
            Reply::Failed(error) => refuse(Refusal::PointerFailed { error: error }),
        },
        (install, _) => Phase::Installing { job: job, install: install },
    }
}

/// One step of a rename: the phase that follows `event`, and the action that
/// is to be done next.
///
/// A rename begins in [`Phase::Start`] with [`Event::Requested`] and ends with
/// [`Action::Answer`]. Only repositories can be renamed: their id is
/// independent of their name, and nothing structural hangs off the name.
pub fn handler(phase: Phase, event: Event) -> (step: (Phase, Action))
    ensures
        step.0@ == next_phase(phase@, event@),
        step.1@ == next_phase(phase@, event@).pending(),
{
    let next = match (phase, event) {
        (Phase::Start, Event::Requested(request)) => match request.query {
            Some(query) => Phase::CheckingName {
                authorization: request.authorization,
                query: query,
                new_name: request.new_name,
            },
            None => refuse(Refusal::MissingQuery),
        },
        (
            Phase::CheckingName { authorization, query, new_name },
            Event::NameChecked(valid),
        ) => if !valid {
            refuse(Refusal::InvalidName { name: new_name })
        } else {
            match query {
                Query::Id(id) => identify(authorization, id, new_name),
                Query::Name(name) => Phase::Resolving {
                    authorization: authorization,
                    name: name,
                    new_name: new_name,
                },
            }
        },
        (Phase::Resolving { authorization, name, new_name }, Event::Resolved(reply)) => {
            match reply {
                Reply::Done(id) => identify(authorization, id, new_name),
                Reply::SlowDown => refuse(Refusal::SlowDown),
                Reply::Failed(_) => refuse(Refusal::NameNotFound { name: name }),
            }
        },
        // Renaming is a write, so it takes the authorization of a write.
        (
            Phase::Authorizing { authorization: _, id, new_name },
            Event::AccessChecked(granted),
        ) => if granted {
            Phase::Loading { id: id, new_name: new_name }
        } else {
            refuse(Refusal::NoAccess)
        },
        (Phase::Loading { id, new_name }, Event::MetadataLoaded(reply)) => match reply {
            LoadReply::Loaded { metadata, metadata_hash } => {
                let job = Job {
                    id: id,
                    metadata: metadata,
                    metadata_hash: metadata_hash,
                    new_name: new_name,
                };
                if job.is_renamed_before() {
                    Phase::Mapping { job: job, metadata_hash: metadata_hash }
                } else {
                    Phase::CheckingCollision { job: job }
                }
            },
            LoadReply::SlowDown => refuse(Refusal::SlowDown),
            LoadReply::Failed { id_text } => refuse(Refusal::IdNotFound { id_text: id_text }),
        },
        (Phase::CheckingCollision { job }, Event::Resolved(reply)) => {
            let taken = match reply {
                Reply::Done(taken) => !(taken == job.id) && !taken.is_zero(),
                _ => false,
            };
            if taken {
                refuse(Refusal::AlreadyExists { name: job.new_name })
            } else {
                Phase::Installing { job: job, install: Install::Blob }
            }
        },
        (Phase::Installing { job, install }, event) => install_name(job, install, event),
        // Storing the new mapping is idempotent, so it is done even where the
        // metadata carried the new name already: that is the state that a
        // rename leaves behind which was cut off between these two steps.
        (Phase::Mapping { job, metadata_hash }, Event::MappingStored(reply)) => match reply {
            Reply::Done(_) => if job.is_renamed_before() {
                Phase::Answered { answer: Ok(job.into_response(metadata_hash)) }
            } else {
                Phase::Unmapping { job: job, metadata_hash: metadata_hash }
            },
            Reply::SlowDown => refuse(Refusal::SlowDown),
            Reply::Failed(error) => refuse(Refusal::MappingFailed { error: error }),
        },
        (Phase::Unmapping { job, metadata_hash }, Event::MappingDeleted(reply)) => match reply {
            Reply::Done(_) => Phase::Answered { answer: Ok(job.into_response(metadata_hash)) },
            Reply::SlowDown => refuse(Refusal::SlowDown),
            Reply::Failed(error) => refuse(Refusal::UnmappingFailed { error: error }),
        },
        (phase, _) => phase,
    };
    let action = next.action();
    (next, action)
}

} // verus!
