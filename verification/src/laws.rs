//! What holds of renames as a whole, on the server's side.
use vstd::prelude::*;

use crate::refusal::Refusal;
use crate::repository_rename::{
    Action, Event, Install, Job, LoadReply, Phase, Query, RenameRequest, RenameResponse, Reply,
};
use crate::step_laws::differs_in_name_only;
use crate::types::{ContentHash, RepositoryId, Text};
use crate::world::{Run, World};

verus! {

/// The job that a request comes to, for a repository whose metadata loads.
spec fn job_of(request: RenameRequest<Text>, world: World, id: RepositoryId) -> Job<Text> {
    Job {
        id: id,
        metadata: world.metadata_of(id),
        metadata_hash: world.pointer_of(id),
        new_name: request.new_name,
    }
}

/// Whether a request comes to `job`.
spec fn is_job(request: RenameRequest<Text>, start: World, job: Job<Text>) -> bool {
    &&& crate::world::target(request, start) == Some(job.id)
    &&& job.id != RepositoryId::none()
    &&& start.loads(job.id)
    &&& job == job_of(request, start, job.id)
}

/// The stores once the first `done` writes of a job are made, `hash` being the
/// address of the new blob: the blob, the pointer, the new mapping, the old
/// mapping. `mended` says whether the load repaired the old mapping, `dropped`
/// whether the lookup of the new name dropped a stale mapping.
spec fn written(
    start: World,
    job: Job<Text>,
    mended: bool,
    dropped: bool,
    hash: ContentHash,
    done: int,
) -> World {
    let loaded = if mended {
        start.mended(job.id)
    } else {
        start
    };
    let base = if dropped {
        loaded.without_name(job.new_name)
    } else {
        loaded
    };
    let blob = base.with_blob(job.id, hash, job.renamed());
    let pointer = blob.with_pointer(crate::world::pointer_key(job.id), hash);
    let mapped = pointer.with_name(job.new_name, job.id);
    if done <= 0 {
        base
    } else if done == 1 {
        blob
    } else if done == 2 {
        pointer
    } else if done == 3 {
        mapped
    } else {
        mapped.without_name(job.metadata.name)
    }
}

/// Whether the first `done` writes of a job are made and no more.
spec fn at_write(start: World, job: Job<Text>, hash: ContentHash, done: int, world: World) -> bool {
    &&& start.can_hold(job.id, hash, job.renamed())
    &&& {
        ||| world == written(start, job, false, false, hash, done)
        ||| world == written(start, job, true, false, hash, done)
        ||| start.stale(job.new_name) && world == written(start, job, false, true, hash, done)
        ||| start.stale(job.new_name) && world == written(start, job, true, true, hash, done)
    }
}

/// Whether nothing is written, but for a mapping that the load may have
/// repaired.
spec fn loaded_only(start: World, job: Job<Text>, world: World) -> bool {
    world == start || world == start.mended(job.id)
}

/// Whether nothing is written, but for a mapping that the load may have
/// repaired and one that the lookup of the new name may have dropped.
spec fn unwritten(start: World, job: Job<Text>, world: World) -> bool {
    ||| loaded_only(start, job, world)
    ||| !job.renamed_before() && start.stale(job.new_name) && {
        ||| world == start.without_name(job.new_name)
        ||| world == start.mended(job.id).without_name(job.new_name)
    }
}

/// Whether nothing has happened but that the name in the request was found
/// stale and dropped.
spec fn query_dropped(request: RenameRequest<Text>, start: World, world: World) -> bool {
    request.query matches Some(Query::Name(name)) && start.stale(name) && world
        == start.without_name(name)
}

/// Whether a run that began with `start` can have left the stores like this.
spec fn part_way(request: RenameRequest<Text>, start: World, world: World) -> bool {
    ||| world == start
    ||| query_dropped(request, start, world)
    ||| exists|job: Job<Text>| #[trigger]
        is_job(request, start, job) && (unwritten(start, job, world) || if job.renamed_before() {
            world == start.with_name(job.new_name, job.id)
        } else {
            exists|hash: ContentHash, done: int|
                0 <= done <= 4 && #[trigger] at_write(start, job, hash, done, world)
        })
}

/// What is known of the stores in each phase of a run.
spec fn stage(
    request: RenameRequest<Text>,
    start: World,
    phase: Phase<Text>,
    world: World,
) -> bool {
    match phase {
        Phase::Start => false,
        Phase::CheckingName { authorization, query, new_name } => {
            &&& world == start
            &&& request.query == Some(query)
            &&& request.new_name == new_name
        },
        Phase::Resolving { authorization, name, new_name } => {
            &&& world == start
            &&& request.query == Some(Query::Name(name))
            &&& request.new_name == new_name
        },
        Phase::Authorizing { authorization, id, new_name } => {
            &&& world == start
            &&& crate::world::target(request, start) == Some(id)
            &&& id != RepositoryId::none()
            &&& request.new_name == new_name
        },
        Phase::Loading { id, new_name } => {
            &&& world == start
            &&& crate::world::target(request, start) == Some(id)
            &&& id != RepositoryId::none()
            &&& request.new_name == new_name
        },
        Phase::CheckingCollision { job } => {
            &&& is_job(request, start, job)
            &&& !job.renamed_before()
            &&& loaded_only(start, job, world)
        },
        Phase::Installing { job, install } => {
            &&& is_job(request, start, job)
            &&& !job.renamed_before()
            &&& match install {
                Install::Blob => unwritten(start, job, world),
                Install::Pointer { updated } => at_write(start, job, updated, 1, world),
            }
        },
        Phase::Mapping { job, metadata_hash } => {
            &&& is_job(request, start, job)
            &&& if job.renamed_before() {
                metadata_hash == job.metadata_hash && loaded_only(start, job, world)
            } else {
                at_write(start, job, metadata_hash, 2, world)
            }
        },
        Phase::Unmapping { job, metadata_hash } => {
            &&& is_job(request, start, job)
            &&& !job.renamed_before()
            &&& at_write(start, job, metadata_hash, 3, world)
        },
        Phase::Answered { answer } => match answer {
            Ok(response) => {
                let job = job_of(request, start, response.id);
                &&& is_job(request, start, job)
                &&& response == job.response(response.metadata_hash)
                &&& if job.renamed_before() {
                    &&& response.metadata_hash == job.metadata_hash
                    &&& world == start.with_name(job.new_name, job.id)
                } else {
                    at_write(start, job, response.metadata_hash, 4, world)
                }
            },
            Err(refusal) => {
                &&& refusal != Refusal::<Text>::Conflict
                &&& part_way(request, start, world)
                &&& crate::world::refused_early(refusal) ==> {
                    ||| world == start
                    ||| refusal is NameNotFound && query_dropped(request, start, world)
                    ||| exists|job: Job<Text>| #[trigger]
                        is_job(request, start, job) && loaded_only(start, job, world)
                }
            },
        },
    }
}

/// A step keeps what is known of the stores.
proof fn lemma_step_keeps_stage(
    request: RenameRequest<Text>,
    start: World,
    phase: Phase<Text>,
    event: Event<Text>,
    before: World,
    after: World,
)
    requires
        stage(request, start, phase, before),
        crate::world::serves(before, phase.pending(), event, after) || crate::world::fails(
            before,
            phase.pending(),
            event,
            after,
        ),
    ensures
        stage(request, start, crate::repository_rename::next_phase(phase, event), after),
{
    match phase {
        Phase::Loading { id, new_name } => {
            if start.loads(id) {
                assert(is_job(request, start, job_of(request, start, id)));
            }
        },
        Phase::CheckingCollision { job } => {
            assert(is_job(request, start, job));
        },
        Phase::Installing { job, install } => {
            assert(is_job(request, start, job));
            match install {
                Install::Blob => {
                    if event->MetadataStored_0 is Done {
                        assert(at_write(start, job, event->MetadataStored_0->Done_0, 1, after));
                    } else if after != before {
                        let metadata = job.renamed();
                        let hash = choose|hash: ContentHash|
                            #![trigger before.with_blob(job.id, hash, metadata)]
                            before.can_hold(job.id, hash, metadata) && after == before.with_blob(
                                job.id,
                                hash,
                                metadata,
                            );
                        assert(at_write(start, job, hash, 1, after));
                    }
                },
                Install::Pointer { updated } => {
                    assert(before.pointer_of(job.id) == job.metadata_hash);
                    if after == before {
                        assert(at_write(start, job, updated, 1, after));
                    } else {
                        assert(at_write(start, job, updated, 2, after));
                    }
                },
            }
        },
        Phase::Mapping { job, metadata_hash } => {
            assert(is_job(request, start, job));
            if job.renamed_before() {
                assert(start.mended(job.id).with_name(job.new_name, job.id) =~= start.with_name(
                    job.new_name,
                    job.id,
                ));
            } else if after == before {
                assert(at_write(start, job, metadata_hash, 2, after));
            } else {
                assert(at_write(start, job, metadata_hash, 3, after));
            }
        },
        Phase::Unmapping { job, metadata_hash } => {
            assert(is_job(request, start, job));
            if after == before {
                assert(at_write(start, job, metadata_hash, 3, after));
            } else {
                assert(at_write(start, job, metadata_hash, 4, after));
            }
        },
        _ => {},
    }
}

/// What is known of the stores at each point of a run.
proof fn lemma_stage(run: Run, request: RenameRequest<Text>, i: int)
    requires
        run.attempted(request),
        0 <= i < run.phases.len(),
    ensures
        stage(request, run.start(), run.phases[i], run.before[i]),
    decreases i,
{
    if i > 0 {
        lemma_stage(run, request, i - 1);
        assert(run.step(i - 1));
        assert(run.before[i - 1 + 1] == run.after[i - 1]);
        lemma_step_keeps_stage(
            request,
            run.start(),
            run.phases[i - 1],
            run.events[i - 1],
            run.before[i - 1],
            run.after[i - 1],
        );
    }
}

/// In every phase the stores are such as a run can leave them.
proof fn lemma_stage_is_part_way(
    request: RenameRequest<Text>,
    start: World,
    phase: Phase<Text>,
    world: World,
)
    requires
        stage(request, start, phase, world),
    ensures
        part_way(request, start, world),
{
    match phase {
        Phase::CheckingCollision { job } => {
            assert(is_job(request, start, job));
        },
        Phase::Installing { job, install } => {
            assert(is_job(request, start, job));
        },
        Phase::Mapping { job, metadata_hash } => {
            assert(is_job(request, start, job));
            if !job.renamed_before() {
                assert(at_write(start, job, metadata_hash, 2, world));
            }
        },
        Phase::Unmapping { job, metadata_hash } => {
            assert(at_write(start, job, metadata_hash, 3, world));
        },
        Phase::Answered { answer } => {
            if let Ok(response) = answer {
                let job = job_of(request, start, response.id);
                assert(is_job(request, start, job));
            }
        },
        _ => {},
    }
}

/// A rename moves both halves of a repository's name together, and the old
/// name stops resolving.
///
/// Once a run is answered with success, the repository that the request led to
/// has the metadata it had, under the new name, and the new name is mapped to
/// it. Where it had another name before, a new blob holds the metadata, the
/// metadata pointer is swapped onto it and the mapping for the old name is
/// gone; where it had the new name already, only the mapping is set. Nothing
/// else is changed.
pub proof fn law_rename_moves_the_name(
    run: Run,
    request: RenameRequest<Text>,
    response: RenameResponse<Text>,
)
    requires
        run.attempted(request),
        run.reached() == (Phase::Answered { answer: Ok(response) }),
    ensures
        crate::world::target(request, run.start()) == Some(response.id),
        response.id != RepositoryId::none(),
        run.start().loads(response.id),
        response.metadata == run.start().metadata_of(response.id).renamed(request.new_name),
        differs_in_name_only(
            run.start().metadata_of(response.id),
            response.metadata,
            request.new_name,
        ),
        run.end().resolves(request.new_name, response.id),
        run.end().metadata_of(response.id) == response.metadata,
        run.end().pointer_of(response.id) == response.metadata_hash,
        run.start().name_of(response.id) == request.new_name ==> run.end()
            == run.start().with_name(request.new_name, response.id),
        run.start().name_of(response.id) != request.new_name ==> {
            &&& run.start().can_hold(response.id, response.metadata_hash, response.metadata)
            &&& run.end() == run.start().with_blob(
                response.id,
                response.metadata_hash,
                response.metadata,
            ).with_pointer(
                crate::world::pointer_key(response.id),
                response.metadata_hash,
            ).with_name(request.new_name, response.id).without_name(
                run.start().name_of(response.id),
            )
            &&& forall|other: RepositoryId|
                !run.end().resolves(run.start().name_of(response.id), other)
        },
{
    let last = run.phases.len() - 1;
    lemma_stage(run, request, last);
    let start = run.start();
    let job = job_of(request, start, response.id);
    let hash = response.metadata_hash;
    if job.renamed_before() {
        assert(job.renamed() == job.metadata);
    } else {
        let world = written(start, job, false, false, hash, 4);
        assert(written(start, job, true, false, hash, 4) =~= world);
        assert(written(start, job, false, true, hash, 4) =~= world);
        assert(written(start, job, true, true, hash, 4) =~= world);
    }
}

/// A rename that is refused for what the request asks changes nothing: no
/// repository is named, the new name is invalid or taken, the repository is not
/// there, or the caller has no access.
///
/// What may differ is the stores' own upkeep: a stale name in the request may
/// be dropped as it is looked up, and the repository's own name may be mapped
/// to it again as its metadata is loaded. Where there is nothing to keep up,
/// the stores are what they were.
pub proof fn law_early_refusal_changes_nothing(
    run: Run,
    request: RenameRequest<Text>,
    refusal: Refusal<Text>,
)
    requires
        run.attempted(request),
        run.reached() == (Phase::Answered { answer: Err(refusal) }),
        crate::world::refused_early(refusal),
    ensures
        ({
            let start = run.start();
            let target = crate::world::target(request, start);
            ||| run.end() == start
            ||| {
                &&& refusal is NameNotFound
                &&& !crate::world::asks_soundly(request, start)
                &&& run.end() == start.without_name(request.query->0->Name_0)
            }
            ||| {
                &&& target is Some
                &&& start.loads(target->0)
                &&& !start.maps(start.name_of(target->0), target->0)
                &&& run.end() == start.mended(target->0)
            }
        }),
        crate::world::only_upkeep(request, run.start(), run.end()),
{
    let last = run.phases.len() - 1;
    lemma_stage(run, request, last);
    let start = run.start();
    if run.end() != start && !query_dropped(request, start, run.end()) {
        let job = choose|job: Job<Text>| #[trigger]
            is_job(request, start, job) && loaded_only(start, job, run.end());
        if start.maps(start.name_of(job.id), job.id) {
            assert(start.mended(job.id) =~= start);
        }
    }
}

/// Up to its first write a rename changes nothing, whatever becomes of it: not
/// where it is refused, nor where a store fails or asks to slow down.
///
/// What may differ is the stores' own upkeep of the mapping: the repository's
/// own name may be mapped to it again, and stale mappings may be dropped. Where
/// the repository's name is mapped to it, and the names that are looked up are
/// not stale or the lookups are bare, the stores are what they were.
pub proof fn law_nothing_changes_before_the_first_write(
    run: Run,
    request: RenameRequest<Text>,
    i: int,
)
    requires
        run.attempted(request),
        0 <= i < run.phases.len(),
        forall|j: int|
            0 <= j < i ==> !crate::world::writes((#[trigger] run.phases[j]).pending()),
    ensures
        crate::world::only_upkeep(request, run.start(), run.before[i]),
        ({
            let start = run.start();
            let target = crate::world::target(request, start);
            &&& target is Some && start.loads(target->0) ==> start.maps(
                start.name_of(target->0),
                target->0,
            )
            &&& run.lookups_are_bare() || (crate::world::asks_soundly(request, start)
                && !start.stale(request.new_name))
        }) ==> run.before[i] == run.start(),
    decreases i,
{
    if i > 0 {
        law_nothing_changes_before_the_first_write(run, request, i - 1);
        lemma_stage(run, request, i - 1);
        lemma_stage(run, request, i);
        assert(run.step(i - 1));
        assert(run.before[i - 1 + 1] == run.after[i - 1]);
        assert(!crate::world::writes(run.phases[i - 1].pending()));
        let start = run.start();
        match run.phases[i - 1] {
            Phase::Loading { id, new_name } => {
                if start.loads(id) && start.maps(start.name_of(id), id) {
                    assert(start.mended(id) =~= start);
                }
            },
            Phase::CheckingCollision { job } => {
                assert(is_job(request, start, job));
            },
            _ => {},
        }
    }
}

/// Without somebody else's write there is no conflict.
pub proof fn law_undisturbed_rename_meets_no_conflict(run: Run, request: RenameRequest<Text>)
    requires
        run.attempted(request),
    ensures
        run.reached() != (Phase::Answered {
            answer: Err::<RenameResponse<Text>, Refusal<Text>>(Refusal::Conflict),
        }),
{
    lemma_stage(run, request, run.phases.len() - 1);
}

/// Wherever a rename is cut off, the repository stays within reach and the
/// writes made so far are in order: metadata, then new mapping, then old
/// mapping.
///
/// At every point of a run, failed or not, the repository's metadata loads by
/// its id and carries the old name or the new one, and is otherwise what it
/// was; repairing its mapping, as reading it by its id does, makes that name
/// resolve. The new name is mapped to it only once its metadata carries the
/// new name, and the old mapping goes only once the new one is there. The
/// branch heads, the other repositories and the other names stay as they were,
/// but for stale mappings that the stores may drop as they look names up.
pub proof fn law_part_way_stays_in_reach(
    run: Run,
    request: RenameRequest<Text>,
    id: RepositoryId,
    i: int,
)
    requires
        run.attempted(request),
        crate::world::target(request, run.start()) == Some(id),
        run.start().loads(id),
        0 <= i < run.phases.len(),
    ensures
        ({
            let start = run.start();
            let world = run.before[i];
            let old_name = start.name_of(id);
            let new_name = request.new_name;
            &&& world.loads(id)
            &&& {
                ||| world.metadata_of(id) == start.metadata_of(id)
                ||| world.metadata_of(id) == start.metadata_of(id).renamed(new_name)
            }
            &&& differs_in_name_only(
                start.metadata_of(id),
                world.metadata_of(id),
                world.name_of(id),
            )
            &&& world.name_of(id) == old_name || world.name_of(id) == new_name
            &&& world.mended(id).resolves(world.name_of(id), id)
            &&& !world.same_mapping(start, new_name) ==> {
                ||| world.maps(new_name, id) && world.name_of(id) == new_name
                ||| start.stale(new_name) && !world.names.contains_key(new_name)
            }
            &&& old_name != new_name && !world.same_mapping(start, old_name) ==> {
                ||| world.maps(old_name, id)
                ||| !world.names.contains_key(old_name) && world.maps(new_name, id)
            }
            &&& world.heads == start.heads
            &&& forall|name: Text|
                name != old_name && name != new_name ==> {
                    ||| #[trigger] world.same_mapping(start, name)
                    ||| start.stale(name) && !world.names.contains_key(name)
                }
            &&& forall|other: RepositoryId|
                other != id && #[trigger] start.loads(other) ==> {
                    &&& world.loads(other)
                    &&& world.metadata_of(other) == start.metadata_of(other)
                    &&& world.pointer_of(other) == start.pointer_of(other)
                }
        }),
{
    lemma_stage(run, request, i);
    let start = run.start();
    let world = run.before[i];
    lemma_stage_is_part_way(request, start, run.phases[i], world);
    if world != start && !query_dropped(request, start, world) {
        let job = choose|job: Job<Text>| #[trigger]
            is_job(request, start, job) && (unwritten(start, job, world)
                || if job.renamed_before() {
                world == start.with_name(job.new_name, job.id)
            } else {
                exists|hash: ContentHash, done: int|
                    0 <= done <= 4 && #[trigger] at_write(start, job, hash, done, world)
            });
        if !unwritten(start, job, world) && !job.renamed_before() {
            let (hash, done) = choose|hash: ContentHash, done: int|
                0 <= done <= 4 && #[trigger] at_write(start, job, hash, done, world);
            assert(at_write(start, job, hash, done, world));
        }
    }
}

/// Whether a request is one that has to succeed, as far as the stores go: it
/// leads to a repository whose metadata loads, and nobody else has the new
/// name.
pub open spec fn feasible(request: RenameRequest<Text>, start: World) -> bool {
    let target = crate::world::target(request, start);
    &&& target is Some
    &&& target->0 != RepositoryId::none()
    &&& start.loads(target->0)
    &&& start.name_of(target->0) == request.new_name || !start.taken_from(
        request.new_name,
        target->0,
    )
}

/// A feasible request is on no account refused.
proof fn lemma_feasible_is_not_refused(run: Run, request: RenameRequest<Text>, i: int)
    requires
        run.served(request),
        run.permitted(),
        feasible(request, run.start()),
        run.lookups_are_bare() || crate::world::asks_soundly(request, run.start()),
        0 <= i < run.phases.len(),
    ensures
        run.phases[i] is Answered ==> run.phases[i]->answer is Ok,
    decreases i,
{
    if i > 0 {
        lemma_feasible_is_not_refused(run, request, i - 1);
        lemma_stage(run, request, i - 1);
        assert(run.step(i - 1));
        assert(run.served_at(i - 1));
        assert(run.events[i - 1] != Event::<Text>::NameChecked(false));
        let start = run.start();
        let before = run.before[i - 1];
        match run.phases[i - 1] {
            Phase::CheckingCollision { job } => {
                assert(is_job(request, start, job));
                assert(before.same_mapping(start, request.new_name));
            },
            Phase::Installing { job, install } => {
                assert(is_job(request, start, job));
                if let Install::Pointer { updated } = install {
                    assert(before.pointer_of(job.id) == job.metadata_hash);
                }
            },
            _ => {},
        }
    }
}

/// Success is owed: a permitted request that leads to a repository whose
/// metadata loads, for a name that nobody else has, is answered with success
/// by stores that do not fail. Where it names the repository by a stale name,
/// that takes a lookup that does not drop it.
pub proof fn law_feasible_rename_succeeds(run: Run, request: RenameRequest<Text>)
    requires
        run.served(request),
        run.permitted(),
        run.answered(),
        feasible(request, run.start()),
        run.lookups_are_bare() || crate::world::asks_soundly(request, run.start()),
    ensures
        run.reached()->answer is Ok,
{
    lemma_feasible_is_not_refused(run, request, run.phases.len() - 1);
}

/// A name that belongs to another repository is not taken from it, whichever
/// two repositories these are: the request is refused with
/// [`Refusal::AlreadyExists`], and that name leads where it led. Where a name that is looked up is stale, that takes a lookup that does
/// not drop it.
pub proof fn law_taken_name_is_refused(run: Run, request: RenameRequest<Text>, id: RepositoryId)
    requires
        run.served(request),
        run.permitted(),
        run.answered(),
        crate::world::target(request, run.start()) == Some(id),
        id != RepositoryId::none(),
        run.start().loads(id),
        run.start().name_of(id) != request.new_name,
        run.start().names.contains_key(request.new_name),
        run.start().names[request.new_name] != id,
        run.start().names[request.new_name] != RepositoryId::none(),
        run.lookups_are_bare() || (crate::world::asks_soundly(request, run.start())
            && !run.start().stale(request.new_name)),
    ensures
        run.reached() == (Phase::Answered {
            answer: Err::<RenameResponse<Text>, _>(
                Refusal::AlreadyExists { name: request.new_name },
            ),
        }),
        run.end() == run.start() || run.end() == run.start().mended(id),
        run.end().same_mapping(run.start(), request.new_name),
{
    let last = run.phases.len() - 1;
    lemma_taken_name_goes_no_further(run, request, id, last);
    lemma_stage(run, request, last);
    law_early_refusal_changes_nothing(
        run,
        request,
        Refusal::AlreadyExists { name: request.new_name },
    );
}

/// A rename to a taken name does not get past the lookup of that name.
proof fn lemma_taken_name_goes_no_further(
    run: Run,
    request: RenameRequest<Text>,
    id: RepositoryId,
    i: int,
)
    requires
        run.served(request),
        run.permitted(),
        crate::world::target(request, run.start()) == Some(id),
        id != RepositoryId::none(),
        run.start().loads(id),
        run.start().name_of(id) != request.new_name,
        run.start().taken_from(request.new_name, id),
        run.lookups_are_bare() || (crate::world::asks_soundly(request, run.start())
            && !run.start().stale(request.new_name)),
        0 <= i < run.phases.len(),
    ensures
        match run.phases[i] {
            Phase::CheckingName { authorization, query, new_name } => true,
            Phase::Resolving { authorization, name, new_name } => true,
            Phase::Authorizing { authorization, id, new_name } => true,
            Phase::Loading { id, new_name } => true,
            Phase::CheckingCollision { job } => true,
            Phase::Answered { answer } => answer == Err::<RenameResponse<Text>, _>(
                Refusal::AlreadyExists { name: request.new_name },
            ),
            _ => false,
        },
    decreases i,
{
    if i > 0 {
        lemma_taken_name_goes_no_further(run, request, id, i - 1);
        lemma_stage(run, request, i - 1);
        assert(run.step(i - 1));
        assert(run.served_at(i - 1));
        assert(run.events[i - 1] != Event::<Text>::NameChecked(false));
        if let Phase::CheckingCollision { job } = run.phases[i - 1] {
            assert(is_job(request, run.start(), job));
            assert(run.before[i - 1].same_mapping(run.start(), request.new_name));
        }
    }
}

/// A repeated rename is a no-op: asked for again, by id or by a name that
/// still leads to the repository as it is looked up, a rename that has succeeded succeeds with
/// the same answer and leaves the stores as they are.
pub proof fn law_repeat_changes_nothing(
    first: Run,
    request: RenameRequest<Text>,
    response: RenameResponse<Text>,
    second: Run,
    again: RenameRequest<Text>,
)
    requires
        first.attempted(request),
        first.reached() == (Phase::Answered { answer: Ok(response) }),
        second.served(again),
        second.permitted(),
        second.answered(),
        second.start() == first.end(),
        crate::world::target(again, second.start()) == Some(response.id),
        second.lookups_are_bare() || crate::world::asks_soundly(again, second.start()),
        again.new_name == request.new_name,
    ensures
        second.reached() == (Phase::Answered { answer: Ok(response) }),
        second.end() == first.end(),
{
    law_rename_moves_the_name(first, request, response);
    law_feasible_rename_succeeds(second, again);
    let repeated = second.reached()->answer->Ok_0;
    law_rename_moves_the_name(second, again, repeated);
    assert(first.end().with_name(request.new_name, response.id) =~= first.end());
    assert(repeated.metadata == response.metadata);
}

/// A rename that was cut off is finished by asking for it again, by id or by a
/// name that still leads to the repository as it is looked up.
///
/// When the first run began, the repository's metadata loaded and nobody else
/// had the new name. From wherever that run was left, a second one with stores
/// that do not fail succeeds, and the new name then resolves to the
/// repository. The old name, unless it was mapped to another repository, then
/// resolves to none.
pub proof fn law_retry_finishes(
    first: Run,
    request: RenameRequest<Text>,
    id: RepositoryId,
    i: int,
    second: Run,
    again: RenameRequest<Text>,
)
    requires
        first.attempted(request),
        feasible(request, first.start()),
        crate::world::target(request, first.start()) == Some(id),
        0 <= i < first.phases.len(),
        second.served(again),
        second.permitted(),
        second.answered(),
        second.start() == first.before[i],
        crate::world::target(again, second.start()) == Some(id),
        second.lookups_are_bare() || crate::world::asks_soundly(again, second.start()),
        again.new_name == request.new_name,
    ensures
        second.reached()->answer is Ok,
        second.end().resolves(request.new_name, id),
        first.start().name_of(id) != request.new_name && (first.start().names.contains_key(
            first.start().name_of(id),
        ) ==> first.start().maps(first.start().name_of(id), id)) ==> forall|other: RepositoryId|
            !second.end().resolves(first.start().name_of(id), other),
{
    let old_name = first.start().name_of(id);
    law_part_way_stays_in_reach(first, request, id, i);
    law_feasible_rename_succeeds(second, again);
    let response = second.reached()->answer->Ok_0;
    law_rename_moves_the_name(second, again, response);
    if old_name != request.new_name && (first.start().names.contains_key(old_name)
        ==> first.start().maps(old_name, id)) {
        assert forall|other: RepositoryId| !second.end().resolves(old_name, other) by {
            if second.start().name_of(id) == request.new_name {
                assert(second.end().names.contains_key(old_name) ==> second.end().maps(
                    old_name,
                    id,
                ));
            }
        }
    }
}

/// A metadata write that lands between the load and the swap is not
/// overwritten: the pointer stays where that write put it, and unless the
/// swap fails by itself, the rename is refused with [`Refusal::Conflict`].
pub proof fn law_concurrent_write_survives(
    run: Run,
    request: RenameRequest<Text>,
    job: Job<Text>,
    updated: ContentHash,
    i: int,
)
    requires
        run.contended(request),
        0 <= i < run.events.len(),
        run.phases[i] == (Phase::Installing { job: job, install: Install::Pointer { updated } }),
        run.before[i].pointer_of(job.id) != job.metadata_hash,
    ensures
        run.after[i] == run.before[i],
        run.served_at(i) ==> run.phases[i + 1] == (Phase::Answered {
            answer: Err::<RenameResponse<Text>, Refusal<Text>>(Refusal::Conflict),
        }),
        exists|j: int|
            0 <= j < i && #[trigger] loaded(run, job, j),
{
    assert(run.step(i));
    lemma_job_was_loaded(run, request, i);
}

/// The job that a phase works on, once there is one.
pub open spec fn job_in(phase: Phase<Text>) -> Option<Job<Text>> {
    match phase {
        Phase::CheckingCollision { job } => Some(job),
        Phase::Installing { job, install } => Some(job),
        Phase::Mapping { job, metadata_hash } => Some(job),
        Phase::Unmapping { job, metadata_hash } => Some(job),
        _ => None,
    }
}

/// Whether step `j` is the load that gave a job its metadata and its pointer.
pub open spec fn loaded(run: Run, job: Job<Text>, j: int) -> bool {
    &&& run.phases[j].pending() == (Action::<Text>::LoadMetadata { context: job.id, id: job.id })
    &&& run.events[j] == Event::MetadataLoaded(
        LoadReply::Loaded { metadata: job.metadata, metadata_hash: job.metadata_hash },
    )
}

/// A run's job is made of what the load gave.
proof fn lemma_job_was_loaded(run: Run, request: RenameRequest<Text>, i: int)
    requires
        run.contended(request),
        0 <= i < run.phases.len(),
        job_in(run.phases[i]) is Some,
    ensures
        exists|j: int|
            0 <= j < i && #[trigger] loaded(run, job_in(run.phases[i])->0, j),
    decreases i,
{
    if i > 0 {
        assert(run.step(i - 1));
        if job_in(run.phases[i - 1]) is Some {
            lemma_job_was_loaded(run, request, i - 1);
        } else {
            assert(loaded(run, job_in(run.phases[i])->0, i - 1));
        }
    }
}

/// Whether a phase comes after the check of the new name.
spec fn past_name_check(phase: Phase<Text>) -> bool {
    !(phase is Start || phase is CheckingName || phase is Answered)
}

/// The repository that a phase works on, once access to it is granted.
pub open spec fn repository_in(phase: Phase<Text>) -> Option<RepositoryId> {
    match phase {
        Phase::Loading { id, new_name } => Some(id),
        _ => match job_in(phase) {
            Some(job) => Some(job.id),
            None => None,
        },
    }
}

/// Whether step `j` is the check of `name`, and found it valid.
pub open spec fn found_valid(run: Run, name: Text, j: int) -> bool {
    &&& run.phases[j].pending() == (Action::CheckName { name: name })
    &&& run.events[j] == Event::<Text>::NameChecked(true)
}

/// Whether step `j` is the check that `authorization` gives access to `id`, and
/// granted it.
pub open spec fn granted(
    run: Run,
    authorization: Option<Text>,
    id: RepositoryId,
    j: int,
) -> bool {
    &&& run.phases[j].pending() == (Action::CheckAccess { authorization: authorization, id: id })
    &&& run.events[j] == Event::<Text>::AccessChecked(true)
}

/// Whether access to `id` was granted to `authorization` before step `i`.
pub open spec fn granted_before(
    run: Run,
    authorization: Option<Text>,
    id: RepositoryId,
    i: int,
) -> bool {
    exists|j: int| 0 <= j < i && #[trigger] granted(run, authorization, id, j)
}

/// The checks that a run has been through.
proof fn lemma_checks_were_passed(run: Run, request: RenameRequest<Text>, i: int)
    requires
        run.contended(request),
        0 <= i < run.phases.len(),
    ensures
        past_name_check(run.phases[i]) ==> exists|j: int|
            0 <= j < i && #[trigger] found_valid(run, request.new_name, j),
        repository_in(run.phases[i]) matches Some(id) ==> granted_before(
            run,
            request.authorization,
            id,
            i,
        ),
    decreases i,
{
    if i > 0 {
        lemma_checks_were_passed(run, request, i - 1);
        lemma_request_is_kept(run, request, i - 1);
        assert(run.step(i - 1));
        match run.phases[i - 1] {
            Phase::CheckingName { authorization, query, new_name } => {
                if past_name_check(run.phases[i]) {
                    assert(found_valid(run, request.new_name, i - 1));
                }
            },
            Phase::Authorizing { authorization, id, new_name } => {
                if repository_in(run.phases[i]) is Some {
                    assert(granted(run, request.authorization, id, i - 1));
                }
            },
            _ => {},
        }
    }
}

/// Nothing is read of a repository's metadata, and nothing is written, before
/// access to that very repository is granted to the request's own
/// authorization and the new name is found valid; whoever else uses the stores, and whether or not they fail.
pub proof fn law_access_comes_first(run: Run, request: RenameRequest<Text>, i: int)
    requires
        run.contended(request),
        0 <= i < run.phases.len(),
        crate::world::writes(run.phases[i].pending()) || run.phases[i].pending() is LoadMetadata,
    ensures
        exists|j: int| 0 <= j < i && #[trigger] found_valid(run, request.new_name, j),
        repository_in(run.phases[i]) is Some,
        granted_before(run, request.authorization, repository_in(run.phases[i])->0, i),
        match run.phases[i].pending() {
            Action::LoadMetadata { context, id } => repository_in(run.phases[i]) == Some(id)
                && context == id,
            Action::StoreMetadata { context, metadata } => repository_in(run.phases[i]) == Some(
                context,
            ),
            Action::SwapPointer { context, key_argument, expected, updated } => repository_in(
                run.phases[i],
            ) == Some(context),
            Action::StoreMapping { context, name, id } => repository_in(run.phases[i]) == Some(id),
            _ => true,
        },
{
    lemma_checks_were_passed(run, request, i);
}

/// Whether a phase comes after the lookup of the new name, on the way that
/// leads through it.
spec fn past_lookup(phase: Phase<Text>) -> bool {
    phase is Installing || phase is Unmapping || (phase matches Phase::Mapping {
        job,
        metadata_hash,
    } && !job.renamed_before())
}

/// Whether step `j` is the lookup of `name`, and did not give it to a
/// repository other than `id`.
pub open spec fn found_free(run: Run, name: Text, id: RepositoryId, j: int) -> bool {
    &&& run.phases[j].pending() == (Action::ResolveName {
        context: RepositoryId::none(),
        name: name,
    })
    &&& run.events[j] is Resolved
    &&& run.events[j]->Resolved_0 matches Reply::Done(taken) ==> taken == id || taken
        == RepositoryId::none()
}

/// The metadata is not touched, and no mapping is deleted, before the new name
/// has been looked up and was not found with another repository; whoever else
/// uses the stores, and whether or not they fail.
pub proof fn law_lookup_comes_first(
    run: Run,
    request: RenameRequest<Text>,
    job: Job<Text>,
    i: int,
)
    requires
        run.contended(request),
        0 <= i < run.phases.len(),
        run.phases[i].pending() is StoreMetadata || run.phases[i].pending() is SwapPointer
            || run.phases[i].pending() is DeleteMapping,
        job_in(run.phases[i]) == Some(job),
    ensures
        exists|j: int| 0 <= j < i && #[trigger] found_free(run, request.new_name, job.id, j),
{
    lemma_lookup_was_passed(run, request, i);
}

/// The lookup that a run has been through.
proof fn lemma_lookup_was_passed(run: Run, request: RenameRequest<Text>, i: int)
    requires
        run.contended(request),
        0 <= i < run.phases.len(),
        past_lookup(run.phases[i]),
    ensures
        exists|j: int|
            0 <= j < i && #[trigger] found_free(
                run,
                request.new_name,
                job_in(run.phases[i])->0.id,
                j,
            ),
    decreases i,
{
    if i > 0 {
        assert(run.step(i - 1));
        if past_lookup(run.phases[i - 1]) {
            lemma_lookup_was_passed(run, request, i - 1);
        } else {
            lemma_request_is_kept(run, request, i - 1);
            assert(found_free(run, request.new_name, job_in(run.phases[i])->0.id, i - 1));
        }
    }
}

/// How many answers a phase is away from the end at most.
spec fn remaining(phase: Phase<Text>) -> nat {
    match phase {
        Phase::Start => 10,
        Phase::CheckingName { authorization, query, new_name } => 9,
        Phase::Resolving { authorization, name, new_name } => 8,
        Phase::Authorizing { authorization, id, new_name } => 7,
        Phase::Loading { id, new_name } => 6,
        Phase::CheckingCollision { job } => 5,
        Phase::Installing { job, install } => match install {
            Install::Blob => 4,
            Install::Pointer { updated } => 3,
        },
        Phase::Mapping { job, metadata_hash } => 2,
        Phase::Unmapping { job, metadata_hash } => 1,
        Phase::Answered { answer } => 0,
    }
}

/// Each step brings the end nearer.
proof fn lemma_steps_are_counted(run: Run, request: RenameRequest<Text>, i: int)
    requires
        run.contended(request),
        0 <= i < run.phases.len(),
    ensures
        i + remaining(run.phases[i]) <= 9,
    decreases i,
{
    if i > 0 {
        lemma_steps_are_counted(run, request, i - 1);
        assert(run.step(i - 1));
    }
}

/// Every rename comes to an end: a run takes at most nine steps, whoever else
/// uses the stores, and whether or not they fail.
pub proof fn law_every_run_ends(run: Run, request: RenameRequest<Text>)
    requires
        run.contended(request),
    ensures
        run.events.len() <= 9,
{
    lemma_steps_are_counted(run, request, run.phases.len() - 1);
}

/// A retry needs no old name: a request by id asks for no name but the new
/// one.
pub proof fn law_request_by_id_resolves_no_other_name(
    run: Run,
    request: RenameRequest<Text>,
    id: RepositoryId,
    i: int,
)
    requires
        run.contended(request),
        request.query == Some(Query::<Text>::Id(id)),
        0 <= i < run.phases.len(),
    ensures
        !(run.phases[i] is Resolving),
        run.phases[i].pending() is ResolveName ==> run.phases[i].pending()->ResolveName_name
            == request.new_name,
{
    lemma_request_is_kept(run, request, i);
}

/// A run keeps to its request.
proof fn lemma_request_is_kept(run: Run, request: RenameRequest<Text>, i: int)
    requires
        run.contended(request),
        0 <= i < run.phases.len(),
    ensures
        match run.phases[i] {
            Phase::CheckingName { authorization, query, new_name } => {
                &&& request.authorization == authorization
                &&& request.query == Some(query)
                &&& request.new_name == new_name
            },
            Phase::Resolving { authorization, name, new_name } => {
                &&& request.authorization == authorization
                &&& request.query == Some(Query::Name(name))
                &&& request.new_name == new_name
            },
            Phase::Authorizing { authorization, id, new_name } => {
                &&& request.authorization == authorization
                &&& request.new_name == new_name
            },
            Phase::Loading { id, new_name } => request.new_name == new_name,
            _ => job_in(run.phases[i]) matches Some(job) ==> job.new_name == request.new_name,
        },
    decreases i,
{
    if i > 0 {
        lemma_request_is_kept(run, request, i - 1);
        assert(run.step(i - 1));
    }
}

/// What stores that do not fail say to an action, `hash` being the address of
/// the blob where one is stored.
spec fn obliging_event(world: World, action: Action<Text>, hash: ContentHash) -> Event<Text> {
    match action {
        Action::ResolveName { context, name } => Event::Resolved(
            if world.names.contains_key(name) {
                Reply::Done(world.names[name])
            } else {
                Reply::Failed(Seq::empty())
            },
        ),
        Action::CheckAccess { authorization, id } => Event::AccessChecked(true),
        Action::LoadMetadata { context, id } => Event::MetadataLoaded(
            if world.loads(id) {
                LoadReply::Loaded {
                    metadata: world.metadata_of(id),
                    metadata_hash: world.pointer_of(id),
                }
            } else {
                LoadReply::Failed { id_text: Seq::empty() }
            },
        ),
        Action::StoreMetadata { context, metadata } => Event::MetadataStored(Reply::Done(hash)),
        Action::SwapPointer { context, key_argument, expected, updated } => Event::PointerSwapped(
            Reply::Done(world.found((context, key_argument))),
        ),
        Action::StoreMapping { context, name, id } => Event::MappingStored(Reply::Done(())),
        Action::DeleteMapping { context, name } => Event::MappingDeleted(Reply::Done(())),
        _ => Event::NameChecked(true),
    }
}

/// What stores that do not fail hold after an action.
spec fn obliging_world(world: World, action: Action<Text>, hash: ContentHash) -> World {
    match action {
        Action::StoreMetadata { context, metadata } => world.with_blob(context, hash, metadata),
        Action::SwapPointer { context, key_argument, expected, updated } => world.swapped(
            (context, key_argument),
            expected,
            updated,
        ),
        Action::StoreMapping { context, name, id } => world.with_name(name, id),
        Action::DeleteMapping { context, name } => world.without_name(name),
        _ => world,
    }
}

/// No run is stuck: short of the answer, stores that do not fail have
/// something to say to the action that is under way, and the run goes on. A
/// blob that is to be stored needs an address that no other content has.
pub proof fn law_no_run_is_stuck(run: Run, request: RenameRequest<Text>, hash: ContentHash)
    requires
        run.served(request),
        run.permitted(),
        !run.answered(),
        run.reached().pending() matches Action::StoreMetadata { context, metadata }
            ==> run.end().can_hold(context, hash, metadata),
    ensures
        exists|longer: Run| #[trigger]
            longer.served(request) && longer.permitted() && longer.events.len() == run.events.len()
                + 1 && longer.start() == run.start(),
{
    let last = run.events.len() as int;
    let action = run.reached().pending();
    let event = obliging_event(run.end(), action, hash);
    let after = obliging_world(run.end(), action, hash);
    let longer = Run {
        phases: run.phases.push(crate::repository_rename::next_phase(run.reached(), event)),
        events: run.events.push(event),
        before: run.before.push(after),
        after: run.after.push(after),
    };
    lemma_stage(run, request, last);
    assert forall|i: int| 0 <= i < longer.events.len() implies #[trigger] longer.served_at(i) by {
        if i < last {
            assert(run.served_at(i));
        }
    }
    assert forall|i: int| 0 <= i < longer.events.len() implies #[trigger] longer.step(i) by {
        assert(longer.served_at(i));
        if i < last {
            assert(run.step(i));
        }
    }
    assert forall|i: int| 0 <= i < longer.events.len() implies longer.before[i + 1]
        == #[trigger] longer.after[i] by {
        if i < last {
            assert(run.before[i + 1] == run.after[i]);
        }
    }
    assert forall|i: int| 0 <= i < longer.events.len() implies #[trigger] longer.events[i]
        != Event::<Text>::NameChecked(false) && longer.events[i]
        != Event::<Text>::AccessChecked(false) by {
        if i < last {
            assert(run.events[i] == longer.events[i]);
        }
    }
    assert(longer.contended(request));
    assert(longer.served(request));
}

} // verus!
