//! The stores that a rename works on, and what becomes of them: a model for
//! contracts to speak of.
use vstd::prelude::*;

use crate::refusal::Refusal;
use crate::repository_rename::{Action, Event, LoadReply, Phase, Query, RenameRequest, Reply};
use crate::types::{BranchId, ContentHash, RepositoryId, RepositoryMetadata, Text};

verus! {

/// What the stores hold.
#[verifier::ext_equal]
pub struct World {
    /// The metadata blobs, by the repository they belong to and their address.
    pub blobs: Map<(RepositoryId, ContentHash), RepositoryMetadata<Text>>,
    /// The metadata pointers, by their repository and the argument of their key.
    pub pointers: Map<(RepositoryId, Text), ContentHash>,
    /// The name to id mapping.
    pub names: Map<Text, RepositoryId>,
    /// The heads of the branches of each repository.
    pub heads: Map<(RepositoryId, BranchId), ContentHash>,
}

/// Where a repository's metadata pointer stands.
pub open spec fn pointer_key(id: RepositoryId) -> (RepositoryId, Text) {
    (id, crate::key::hex_text(id.bytes@))
}

impl World {
    /// What is found under the key of a pointer: the hash of no content where
    /// there is no pointer.
    pub open spec fn found(self, key: (RepositoryId, Text)) -> ContentHash {
        if self.pointers.contains_key(key) {
            self.pointers[key]
        } else {
            ContentHash::none()
        }
    }

    /// The metadata pointer of a repository.
    pub open spec fn pointer_of(self, id: RepositoryId) -> ContentHash {
        self.found(pointer_key(id))
    }

    /// Whether a repository's metadata can be loaded by its id.
    pub open spec fn loads(self, id: RepositoryId) -> bool {
        &&& self.pointers.contains_key(pointer_key(id))
        &&& self.blobs.contains_key((id, self.pointer_of(id)))
    }

    /// The metadata of a repository.
    pub open spec fn metadata_of(self, id: RepositoryId) -> RepositoryMetadata<Text> {
        self.blobs[(id, self.pointer_of(id))]
    }

    /// The canonical name of a repository.
    pub open spec fn name_of(self, id: RepositoryId) -> Text {
        self.metadata_of(id).name
    }

    /// Whether a name is mapped to `id`.
    pub open spec fn maps(self, name: Text, id: RepositoryId) -> bool {
        self.names.contains_key(name) && self.names[name] == id
    }

    /// Whether a name resolves to a repository: the mapping leads to it, and
    /// its metadata agrees. A mapping that its blob disagrees with is dropped
    /// when it is next resolved, and leads nowhere.
    pub open spec fn resolves(self, name: Text, id: RepositoryId) -> bool {
        self.maps(name, id) && self.loads(id) && self.name_of(id) == name
    }

    /// Whether a name is mapped to something that it does not resolve to: the
    /// metadata disagrees, or does not load.
    pub open spec fn stale(self, name: Text) -> bool {
        self.names.contains_key(name) && !self.resolves(name, self.names[name])
    }

    /// Whether a name is mapped to a repository other than `id`.
    pub open spec fn taken_from(self, name: Text, id: RepositoryId) -> bool {
        &&& self.names.contains_key(name)
        &&& self.names[name] != id
        &&& self.names[name] != RepositoryId::none()
    }

    /// Whether the mapping for a name is the same in two worlds.
    pub open spec fn same_mapping(self, other: World, name: Text) -> bool {
        &&& self.names.contains_key(name) == other.names.contains_key(name)
        &&& self.names.contains_key(name) ==> self.names[name] == other.names[name]
    }

    /// Whether a blob can be stored under an address: no other content has it.
    pub open spec fn can_hold(
        self,
        id: RepositoryId,
        hash: ContentHash,
        metadata: RepositoryMetadata<Text>,
    ) -> bool {
        self.blobs.contains_key((id, hash)) ==> self.blobs[(id, hash)] == metadata
    }

    /// With one more blob.
    pub open spec fn with_blob(
        self,
        id: RepositoryId,
        hash: ContentHash,
        metadata: RepositoryMetadata<Text>,
    ) -> World {
        World { blobs: self.blobs.insert((id, hash), metadata), ..self }
    }

    /// With a pointer set.
    pub open spec fn with_pointer(self, key: (RepositoryId, Text), hash: ContentHash) -> World {
        World { pointers: self.pointers.insert(key, hash), ..self }
    }

    /// With a name mapped.
    pub open spec fn with_name(self, name: Text, id: RepositoryId) -> World {
        World { names: self.names.insert(name, id), ..self }
    }

    /// With a name not mapped.
    pub open spec fn without_name(self, name: Text) -> World {
        World { names: self.names.remove(name), ..self }
    }

    /// With a repository's mapping repaired, as reading it by its id does: the
    /// name that its metadata carries is mapped to it.
    pub open spec fn mended(self, id: RepositoryId) -> World {
        self.with_name(self.name_of(id), id)
    }

    /// After a compare-and-swap of a pointer.
    pub open spec fn swapped(
        self,
        key: (RepositoryId, Text),
        expected: ContentHash,
        updated: ContentHash,
    ) -> World {
        if self.found(key) == expected {
            self.with_pointer(key, updated)
        } else {
            self
        }
    }
}

/// Whether the stores carry out an action and say so truly. Looking a name up
/// may give what the bare mapping says, or may find that the mapping is stale,
/// drop it and give nothing. Loading metadata may repair the repository's
/// mapping on the way.
pub open spec fn serves(
    before: World,
    action: Action<Text>,
    event: Event<Text>,
    after: World,
) -> bool {
    match (action, event) {
        (Action::CheckName { name }, Event::NameChecked(valid)) => after == before,
        (Action::ResolveName { context, name }, Event::Resolved(reply)) => {
            match reply {
                Reply::Done(id) => before.maps(name, id) && after == before,
                Reply::SlowDown => false,
                Reply::Failed(error) => {
                    ||| !before.names.contains_key(name) && after == before
                    ||| before.stale(name) && after == before.without_name(name)
                },
            }
        },
        (Action::CheckAccess { authorization, id }, Event::AccessChecked(granted)) => after == before,
        (Action::LoadMetadata { context, id }, Event::MetadataLoaded(reply)) => match reply {
            LoadReply::Loaded { metadata, metadata_hash } => {
                &&& before.loads(id)
                &&& metadata == before.metadata_of(id)
                &&& metadata_hash == before.pointer_of(id)
                &&& after == before || after == before.mended(id)
            },
            LoadReply::SlowDown => false,
            LoadReply::Failed { id_text } => !before.loads(id) && after == before,
        },
        (
            Action::StoreMetadata { context, metadata },
            Event::MetadataStored(Reply::Done(hash)),
        ) => {
            &&& before.can_hold(context, hash, metadata)
            &&& after == before.with_blob(context, hash, metadata)
        },
        (
            Action::SwapPointer { context, key_argument, expected, updated },
            Event::PointerSwapped(Reply::Done(previous)),
        ) => {
            &&& previous == before.found((context, key_argument))
            &&& after == before.swapped((context, key_argument), expected, updated)
        },
        (Action::StoreMapping { context, name, id }, Event::MappingStored(Reply::Done(_))) => {
            after == before.with_name(name, id)
        },
        (Action::DeleteMapping { context, name }, Event::MappingDeleted(Reply::Done(_))) => {
            after == before.without_name(name)
        },
        _ => false,
    }
}

/// Whether the stores fail at an action and say so. What was asked for may
/// have happened all the same, or not.
pub open spec fn fails(
    before: World,
    action: Action<Text>,
    event: Event<Text>,
    after: World,
) -> bool {
    match (action, event) {
        (Action::ResolveName { context, name }, Event::Resolved(reply)) => {
            &&& !(reply is Done)
            &&& after == before || before.stale(name) && after == before.without_name(name)
        },
        (Action::LoadMetadata { context, id }, Event::MetadataLoaded(reply)) => {
            &&& !(reply is Loaded)
            &&& after == before || before.loads(id) && after == before.mended(id)
        },
        (Action::StoreMetadata { context, metadata }, Event::MetadataStored(reply)) => {
            &&& !(reply is Done)
            &&& after == before || exists|hash: ContentHash|
                #![trigger before.with_blob(context, hash, metadata)]
                before.can_hold(context, hash, metadata) && after == before.with_blob(
                    context,
                    hash,
                    metadata,
                )
        },
        (
            Action::SwapPointer { context, key_argument, expected, updated },
            Event::PointerSwapped(reply),
        ) => {
            &&& !(reply is Done)
            &&& after == before || after == before.swapped(
                (context, key_argument),
                expected,
                updated,
            )
        },
        (Action::StoreMapping { context, name, id }, Event::MappingStored(reply)) => {
            !(reply is Done) && (after == before || after == before.with_name(name, id))
        },
        (Action::DeleteMapping { context, name }, Event::MappingDeleted(reply)) => {
            !(reply is Done) && (after == before || after == before.without_name(name))
        },
        _ => false,
    }
}

/// A rename as it runs, from the request on: the phases it goes through, what
/// came back in each of them, and the stores before and after each action.
pub struct Run {
    pub phases: Seq<Phase<Text>>,
    pub events: Seq<Event<Text>>,
    pub before: Seq<World>,
    pub after: Seq<World>,
}

impl Run {
    /// The stores when the request came in.
    pub open spec fn start(self) -> World {
        self.before[0]
    }

    /// The stores as the run left them.
    pub open spec fn end(self) -> World {
        self.before.last()
    }

    /// The phase that the run got to.
    pub open spec fn reached(self) -> Phase<Text> {
        self.phases.last()
    }

    /// Whether the run got to an answer.
    pub open spec fn answered(self) -> bool {
        self.reached() is Answered
    }

    /// Whether the run is one that a request takes, with stores that carry out
    /// each action or fail at it. Others may write to the stores in between.
    pub open spec fn contended(self, request: RenameRequest<Text>) -> bool {
        &&& self.phases.len() == self.events.len() + 1
        &&& self.before.len() == self.events.len() + 1
        &&& self.after.len() == self.events.len()
        &&& self.phases[0] == crate::repository_rename::next_phase(
            Phase::Start,
            Event::Requested(request),
        )
        &&& forall|i: int|
            0 <= i < self.events.len() ==> self.step(i)
    }

    /// Whether the run's step `i` is one that can be taken.
    pub open spec fn step(self, i: int) -> bool {
        &&& self.phases[i + 1] == crate::repository_rename::next_phase(
            self.phases[i],
            self.events[i],
        )
        &&& {
            ||| self.served_at(i)
            ||| fails(self.before[i], self.phases[i].pending(), self.events[i], self.after[i])
        }
    }

    /// Whether the stores carry out the action of step `i`.
    pub open spec fn served_at(self, i: int) -> bool {
        serves(self.before[i], self.phases[i].pending(), self.events[i], self.after[i])
    }

    /// Whether nobody else writes to the stores during the run.
    pub open spec fn undisturbed(self) -> bool {
        forall|i: int| 0 <= i < self.events.len() ==> self.before[i + 1] == #[trigger] self.after[i]
    }

    /// A run that nobody disturbs, with stores that may fail.
    pub open spec fn attempted(self, request: RenameRequest<Text>) -> bool {
        self.contended(request) && self.undisturbed()
    }

    /// A run that nobody disturbs, with stores that never fail.
    pub open spec fn served(self, request: RenameRequest<Text>) -> bool {
        &&& self.attempted(request)
        &&& forall|i: int| 0 <= i < self.events.len() ==> #[trigger] self.served_at(i)
    }

    /// Whether every lookup of a name gives what the bare mapping says, so that
    /// none of them drops a stale mapping.
    pub open spec fn lookups_are_bare(self) -> bool {
        forall|i: int|
            0 <= i < self.events.len() && self.phases[i].pending() is ResolveName
                ==> #[trigger] self.after[i] == self.before[i]
    }

    /// Whether the new name is found to be one that a repository can have, and
    /// the caller is found to have access, as far as the run asks.
    pub open spec fn permitted(self) -> bool {
        forall|i: int|
            0 <= i < self.events.len() ==> #[trigger] self.events[i] != Event::<Text>::NameChecked(
                false,
            ) && self.events[i] != Event::<Text>::AccessChecked(false)
    }
}

/// The repository that a request leads to.
pub open spec fn target(request: RenameRequest<Text>, world: World) -> Option<RepositoryId> {
    match request.query {
        Some(Query::Id(id)) => Some(id),
        Some(Query::Name(name)) => if world.names.contains_key(name) {
            Some(world.names[name])
        } else {
            None
        },
        None => None,
    }
}

/// Whether a request names its repository by id, or by a name that is not
/// stale.
pub open spec fn asks_soundly(request: RenameRequest<Text>, world: World) -> bool {
    request.query matches Some(Query::Name(name)) ==> !world.stale(name)
}

/// Whether the stores are the same but for their upkeep of the name to id
/// mapping: the mapping of the repository that the request leads to may be
/// repaired, and stale mappings may be dropped.
pub open spec fn only_upkeep(request: RenameRequest<Text>, start: World, world: World) -> bool {
    &&& world.blobs == start.blobs
    &&& world.pointers == start.pointers
    &&& world.heads == start.heads
    &&& forall|name: Text|
        {
            ||| #[trigger] world.same_mapping(start, name)
            ||| start.stale(name) && !world.names.contains_key(name)
            ||| {
                &&& target(request, start) matches Some(id)
                &&& start.loads(id)
                &&& start.name_of(id) == name
                &&& world.maps(name, id)
            }
        }
}

/// Whether an action writes to a store.
pub open spec fn writes(action: Action<Text>) -> bool {
    action is StoreMetadata || action is SwapPointer || action is StoreMapping
        || action is DeleteMapping
}

/// Whether a refusal is for what the request asks, and so comes before anything
/// is written.
pub open spec fn refused_early(refusal: Refusal<Text>) -> bool {
    match refusal {
        Refusal::MissingQuery => true,
        Refusal::InvalidName { name } => true,
        Refusal::NameNotFound { name } => true,
        Refusal::MissingId => true,
        Refusal::NoAccess => true,
        Refusal::IdNotFound { id_text } => true,
        Refusal::AlreadyExists { name } => true,
        _ => false,
    }
}

} // verus!
