//! Renames driven against stores in memory.
use std::collections::HashMap;

use lore_rename::refusal::{Code, Refusal, Status};
use lore_rename::repository_rename::{
    handler, install_name, Action, Event, Install, Job, LoadReply, Phase, Query, RenameRequest,
    RenameResponse, Reply,
};
use lore_rename::types::{BranchId, ContentHash, RepositoryId, RepositoryMetadata};

type Id = [u8; 16];
type Address = [u8; 32];

/// What goes wrong at an action.
#[derive(Clone, Copy, PartialEq)]
enum Fault {
    SlowDown,
    Failed,
}

/// Stores in memory, with an authorizer and a rule for names.
#[derive(Clone)]
struct Stores {
    blobs: HashMap<(Id, Address), RepositoryMetadata>,
    pointers: HashMap<(Id, String), Address>,
    names: HashMap<String, Id>,
    heads: HashMap<(Id, Id), Address>,
    allow: bool,
    /// The authorization that access was last asked for with.
    presented: Option<String>,
    /// Whether looking a name up drops a mapping that its blob disagrees with.
    drops_stale: bool,
    /// The kind of action that fails, and how.
    fault: Option<(&'static str, Fault)>,
    /// The kinds of action that were asked for.
    asked: Vec<&'static str>,
    /// A pointer that somebody else sets right before the swap.
    intruder: Option<Address>,
}

fn kind(action: &Action) -> &'static str {
    match action {
        Action::Receive => "receive",
        Action::CheckName { .. } => "check name",
        Action::ResolveName { .. } => "resolve name",
        Action::CheckAccess { .. } => "check access",
        Action::LoadMetadata { .. } => "load metadata",
        Action::StoreMetadata { .. } => "store metadata",
        Action::SwapPointer { .. } => "swap pointer",
        Action::StoreMapping { .. } => "store mapping",
        Action::DeleteMapping { .. } => "delete mapping",
        Action::Answer { .. } => "answer",
    }
}

fn is_valid_name(name: &str) -> bool {
    !name.is_empty()
        && name
            .chars()
            .all(|c| c.is_ascii_alphanumeric() || c == '/' || c == '-' || c == '_')
}

impl Stores {
    fn new() -> Stores {
        Stores {
            blobs: HashMap::new(),
            pointers: HashMap::new(),
            names: HashMap::new(),
            heads: HashMap::new(),
            allow: true,
            presented: None,
            drops_stale: false,
            fault: None,
            asked: Vec::new(),
            intruder: None,
        }
    }

    fn address(&self, metadata: &RepositoryMetadata) -> Address {
        for ((_, address), blob) in self.blobs.iter() {
            if blob == metadata {
                return *address;
            }
        }
        let mut address = [0u8; 32];
        address[0] = 1 + self.blobs.len() as u8;
        address
    }

    /// A repository as its creation leaves it: metadata blob, metadata pointer
    /// and mapping, and a branch head beside them.
    fn seed(&mut self, id: RepositoryId, name: &str, branch: BranchId, tip: Address) {
        let metadata = RepositoryMetadata {
            name: name.to_string(),
            description: "seeded".to_string(),
            default_branch: branch,
            default_branch_name: "main".to_string(),
            creator: "alice".to_string(),
            created: 100,
        };
        let address = self.address(&metadata);
        self.blobs.insert((id.bytes, address), metadata);
        self.pointers.insert((id.bytes, hex::encode(id.bytes)), address);
        self.names.insert(name.to_string(), id.bytes);
        self.heads.insert((id.bytes, branch.bytes), tip);
    }

    fn load(&self, id: Id) -> Option<(RepositoryMetadata, Address)> {
        let address = *self.pointers.get(&(id, hex::encode(id)))?;
        let metadata = self.blobs.get(&(id, address))?;
        Some((metadata.clone(), address))
    }

    /// Loads by id, and repairs the mapping for the name that was found.
    fn load_id(&mut self, id: RepositoryId) -> Option<(RepositoryMetadata, Address)> {
        let (metadata, address) = self.load(id.bytes)?;
        self.names.insert(metadata.name.clone(), id.bytes);
        Some((metadata, address))
    }

    /// Loads by name, and drops a mapping that its blob disagrees with.
    fn load_name(&mut self, name: &str) -> Option<(RepositoryId, RepositoryMetadata)> {
        let id = *self.names.get(name)?;
        match self.load(id) {
            Some((metadata, _)) if metadata.name == name => {
                Some((RepositoryId { bytes: id }, metadata))
            }
            _ => {
                self.names.remove(name);
                None
            }
        }
    }

    fn reply<T>(&self, kind: &'static str, value: T) -> Reply<T> {
        match self.fault {
            Some((failing, Fault::SlowDown)) if failing == kind => Reply::SlowDown,
            Some((failing, Fault::Failed)) if failing == kind => Reply::Failed("disk full".to_string()),
            _ => Reply::Done(value),
        }
    }

    fn faulty(&self, kind: &'static str) -> bool {
        matches!(self.fault, Some((failing, _)) if failing == kind)
    }

    fn perform(&mut self, action: Action) -> Event {
        let kind = kind(&action);
        self.asked.push(kind);
        match action {
            Action::Receive => panic!("the request has come in"),
            Action::CheckName { name } => Event::NameChecked(is_valid_name(&name)),
            Action::ResolveName { context, name } => {
                assert_eq!(context, RepositoryId::default());
                if self.drops_stale {
                    self.load_name(&name);
                }
                match self.names.get(&name) {
                    Some(id) => Event::Resolved(self.reply(kind, RepositoryId { bytes: *id })),
                    None => match self.fault {
                        Some((failing, Fault::SlowDown)) if failing == kind => {
                            Event::Resolved(Reply::SlowDown)
                        }
                        _ => Event::Resolved(Reply::Failed("no such name".to_string())),
                    },
                }
            }
            Action::CheckAccess { authorization, id } => {
                assert!(!id.is_zero());
                self.presented = authorization;
                Event::AccessChecked(self.allow)
            }
            Action::LoadMetadata { context, id } => {
                assert_eq!(context, id);
                if let Some((failing, Fault::SlowDown)) = self.fault {
                    if failing == kind {
                        return Event::MetadataLoaded(LoadReply::SlowDown);
                    }
                }
                match self.load_id(id) {
                    Some((metadata, address)) => Event::MetadataLoaded(LoadReply::Loaded {
                        metadata,
                        metadata_hash: ContentHash { bytes: address },
                    }),
                    None => Event::MetadataLoaded(LoadReply::Failed {
                        id_text: hex::encode(id.bytes),
                    }),
                }
            }
            Action::StoreMetadata { context, metadata } => {
                let address = self.address(&metadata);
                if !self.faulty(kind) {
                    self.blobs.insert((context.bytes, address), metadata);
                }
                Event::MetadataStored(self.reply(kind, ContentHash { bytes: address }))
            }
            Action::SwapPointer {
                context,
                key_argument,
                expected,
                updated,
            } => {
                let key = (context.bytes, key_argument);
                if let Some(address) = self.intruder {
                    self.pointers.insert(key.clone(), address);
                }
                let previous = *self.pointers.get(&key).unwrap_or(&[0u8; 32]);
                if !self.faulty(kind) && previous == expected.bytes {
                    self.pointers.insert(key, updated.bytes);
                }
                Event::PointerSwapped(self.reply(kind, ContentHash { bytes: previous }))
            }
            Action::StoreMapping { context, name, id } => {
                assert_eq!(context, RepositoryId::default());
                if !self.faulty(kind) {
                    self.names.insert(name, id.bytes);
                }
                Event::MappingStored(self.reply(kind, ()))
            }
            Action::DeleteMapping { context, name } => {
                assert_eq!(context, RepositoryId::default());
                if !self.faulty(kind) {
                    self.names.remove(&name);
                }
                Event::MappingDeleted(self.reply(kind, ()))
            }
            Action::Answer { .. } => panic!("the request is answered"),
        }
    }

    /// Runs a request, for so many actions at most.
    fn run(
        &mut self,
        request: RenameRequest,
        actions: usize,
    ) -> Option<Result<RenameResponse, Refusal>> {
        let (mut phase, mut action) = handler(Phase::Start, Event::Requested(request));
        for _ in 0..actions {
            if let Action::Answer { answer } = action {
                return Some(answer);
            }
            let event = self.perform(action);
            let (next_phase, next_action) = handler(phase, event);
            phase = next_phase;
            action = next_action;
        }
        match action {
            Action::Answer { answer } => Some(answer),
            _ => None,
        }
    }

    fn rename(&mut self, query: Query, new_name: &str) -> Result<RenameResponse, Refusal> {
        self.run(rename_request(query, new_name), 9)
            .expect("a rename takes at most nine actions")
    }
}

fn rename_request(query: Query, new_name: &str) -> RenameRequest {
    RenameRequest {
        authorization: Some("Bearer alice".to_string()),
        query: Some(query),
        new_name: new_name.to_string(),
    }
}

fn id_of(seed: u8) -> RepositoryId {
    let mut bytes = [0u8; 16];
    for (i, byte) in bytes.iter_mut().enumerate() {
        *byte = seed.wrapping_mul(17).wrapping_add(i as u8);
    }
    RepositoryId { bytes }
}

fn branch_of(seed: u8) -> BranchId {
    BranchId {
        bytes: [seed; 16],
    }
}

fn seeded() -> (Stores, RepositoryId, BranchId) {
    let id = id_of(5);
    let branch = branch_of(9);
    let mut stores = Stores::new();
    stores.seed(id, "alpha/one", branch, [0x44u8; 32]);
    (stores, id, branch)
}

fn status(code: Code, message: &str) -> Option<Status> {
    Some(Status {
        code,
        message: message.to_string(),
    })
}

/// A rename has to move both halves of the identity together: the canonical
/// `name` in the metadata blob, and the name → id mapping the resolver reads.
/// Everything else — the id, the branch head, the revision graph — is keyed
/// off the id and must come through untouched.
#[test]
fn a_rename_moves_the_name_and_leaves_history_alone() {
    let id = id_of(3);
    let branch = branch_of(7);
    let tip = [0x33u8; 32];
    let mut stores = Stores::new();
    stores.seed(id, "alpha/one", branch, tip);

    let response = stores
        .rename(Query::Name("alpha/one".to_string()), "beta/one")
        .expect("rename should succeed");

    assert_eq!(response.metadata.name, "beta/one");
    assert_eq!(response.id, id);

    let (resolved_id, metadata) = stores
        .load_name("beta/one")
        .expect("the new name must resolve");
    assert_eq!(resolved_id, id);
    assert_eq!(metadata.name, "beta/one");

    assert!(
        stores.load_name("alpha/one").is_none(),
        "a rename is hard: the old name stops resolving"
    );

    let (metadata, address) = stores.load_id(id).expect("the id must still resolve");
    assert_eq!(metadata.name, "beta/one");
    assert_eq!(response.metadata_hash.bytes, address);
    assert_eq!(metadata.description, "seeded");
    assert_eq!(metadata.default_branch, branch);
    assert_eq!(metadata.default_branch_name, "main");
    assert_eq!(metadata.creator, "alice");
    assert_eq!(metadata.created, 100);

    let head = stores
        .heads
        .get(&(id.bytes, branch.bytes))
        .expect("the branch head must survive a rename");
    assert_eq!(*head, tip, "a rename must not move the revision graph");
}

/// A rename that fails part way is retried by re-issuing it, so a second
/// run has to be a no-op rather than an error. Addressing by id is what
/// makes the retry possible at all: after the first run the old name is
/// gone, and the id is the only handle left.
#[test]
fn a_repeated_rename_is_a_no_op() {
    let (mut stores, id, _) = seeded();

    for attempt in 0..2 {
        if let Err(err) = stores.rename(Query::Id(id), "beta/one") {
            panic!("rename attempt {attempt} should succeed: {err:?}");
        }
    }

    let (resolved_id, metadata) = stores
        .load_name("beta/one")
        .expect("the new name must still resolve after a repeat");
    assert_eq!(resolved_id, id);
    assert_eq!(metadata.name, "beta/one");

    assert!(
        stores.load_name("alpha/one").is_none(),
        "the old name must stay gone"
    );
}

#[test]
fn a_repeat_gives_the_same_answer_and_touches_only_the_mapping() {
    let (mut stores, id, _) = seeded();
    let first = stores.rename(Query::Id(id), "beta/one").unwrap();
    let settled = stores.clone();
    stores.asked.clear();
    let second = stores.rename(Query::Id(id), "beta/one").unwrap();
    assert_eq!(first, second);
    assert_eq!(stores.names, settled.names);
    assert_eq!(stores.pointers, settled.pointers);
    assert_eq!(stores.blobs, settled.blobs);
    assert_eq!(
        stores.asked,
        vec!["check name", "check access", "load metadata", "store mapping"]
    );
}

#[test]
fn a_repeat_repairs_a_lost_mapping() {
    let (mut stores, id, _) = seeded();
    stores.rename(Query::Id(id), "beta/one").unwrap();
    stores.names.clear();
    let (mut phase, mut action) = handler(
        Phase::Start,
        Event::Requested(rename_request(Query::Id(id), "beta/one")),
    );
    // A load that repairs nothing leaves the repair to the rename.
    while !matches!(action, Action::Answer { .. }) {
        let before = stores.names.clone();
        let loading = matches!(action, Action::LoadMetadata { .. });
        let event = stores.perform(action);
        if loading {
            stores.names = before;
        }
        let (next_phase, next_action) = handler(phase, event);
        phase = next_phase;
        action = next_action;
    }
    assert_eq!(stores.names.get("beta/one"), Some(&id.bytes));
}

#[test]
fn the_writes_come_in_order() {
    let (mut stores, _, _) = seeded();
    stores
        .rename(Query::Name("alpha/one".to_string()), "beta/one")
        .unwrap();
    assert_eq!(
        stores.asked,
        vec![
            "check name",
            "resolve name",
            "check access",
            "load metadata",
            "resolve name",
            "store metadata",
            "swap pointer",
            "store mapping",
            "delete mapping"
        ]
    );
}

#[test]
fn a_rename_that_was_cut_off_anywhere_is_finished_by_a_retry() {
    for actions in 0..10 {
        let (mut stores, id, branch) = seeded();
        stores.run(
            rename_request(Query::Name("alpha/one".to_string()), "beta/one"),
            actions,
        );

        let mut reader = stores.clone();
        let (metadata, _) = reader.load_id(id).expect("the id must load part way");
        assert!(metadata.name == "alpha/one" || metadata.name == "beta/one");
        assert_eq!(reader.load_name(&metadata.name).unwrap().0, id);

        let response = stores.rename(Query::Id(id), "beta/one").unwrap();
        assert_eq!(response.metadata.name, "beta/one");
        assert_eq!(stores.load_name("beta/one").unwrap().0, id);
        assert!(stores.load_name("alpha/one").is_none());
        assert_eq!(stores.heads.get(&(id.bytes, branch.bytes)), Some(&[0x44u8; 32]));
    }
}

#[test]
fn a_request_without_a_query_is_refused() {
    let (_, action) = handler(
        Phase::Start,
        Event::Requested(RenameRequest {
            authorization: None,
            query: None,
            new_name: "beta/one".to_string(),
        }),
    );
    assert_eq!(
        action,
        Action::Answer {
            answer: Err(Refusal::MissingQuery)
        }
    );
    assert_eq!(
        Refusal::<String>::MissingQuery.to_status(),
        status(
            Code::InvalidArgument,
            "RepositoryRenameRequest.query must be set (id or name)"
        )
    );
}

#[test]
fn an_invalid_name_is_refused() {
    let (mut stores, id, _) = seeded();
    let refusal = stores.rename(Query::Id(id), "no good").unwrap_err();
    assert_eq!(
        refusal,
        Refusal::InvalidName {
            name: "no good".to_string()
        }
    );
    assert_eq!(
        refusal.to_status(),
        status(Code::InvalidArgument, "Invalid repository name no good")
    );
    assert_eq!(stores.asked, vec!["check name"]);
}

#[test]
fn an_unknown_name_is_refused() {
    let (mut stores, _, _) = seeded();
    let refusal = stores
        .rename(Query::Name("gamma".to_string()), "beta/one")
        .unwrap_err();
    assert_eq!(
        refusal.to_status(),
        status(Code::NotFound, "Repository gamma not found")
    );
}

#[test]
fn the_id_of_no_repository_is_refused() {
    let (mut stores, _, _) = seeded();
    let refusal = stores
        .rename(Query::Id(RepositoryId::default()), "beta/one")
        .unwrap_err();
    assert_eq!(refusal, Refusal::MissingId);
    assert_eq!(
        refusal.to_status(),
        status(Code::InvalidArgument, "Missing repository id")
    );

    stores.names.insert("gone".to_string(), [0u8; 16]);
    let refusal = stores
        .rename(Query::Name("gone".to_string()), "beta/one")
        .unwrap_err();
    assert_eq!(refusal, Refusal::MissingId);
}

#[test]
fn a_caller_without_access_is_refused_before_anything_is_read() {
    let (mut stores, id, _) = seeded();
    stores.allow = false;
    let refusal = stores.rename(Query::Id(id), "beta/one").unwrap_err();
    assert_eq!(refusal, Refusal::NoAccess);
    assert_eq!(refusal.to_status(), None);
    assert_eq!(stores.asked, vec!["check name", "check access"]);
}

#[test]
fn access_is_asked_for_with_the_requests_own_authorization() {
    let (mut stores, id, _) = seeded();
    stores.rename(Query::Id(id), "beta/one").unwrap();
    assert_eq!(stores.presented, Some("Bearer alice".to_string()));

    let (mut stores, _, _) = seeded();
    stores.presented = Some("somebody else's".to_string());
    let answer = stores.run(
        RenameRequest {
            authorization: None,
            query: Some(Query::Name("alpha/one".to_string())),
            new_name: "beta/one".to_string(),
        },
        9,
    );
    assert!(matches!(answer, Some(Ok(_))));
    assert_eq!(stores.presented, None);
}

#[test]
fn a_lookup_may_drop_a_stale_mapping() {
    // The old name goes stale once the metadata carries the new one; a retry
    // by id does not need it.
    for actions in 0..10 {
        let (mut stores, id, _) = seeded();
        stores.drops_stale = true;
        stores.run(
            rename_request(Query::Name("alpha/one".to_string()), "beta/one"),
            actions,
        );
        stores.rename(Query::Id(id), "beta/one").unwrap();
        assert_eq!(stores.load_name("beta/one").unwrap().0, id);
        assert!(stores.load_name("alpha/one").is_none());
    }

    // A stale mapping for the new name is free where it is dropped, and a
    // collision where it is not.
    let stale = id_of(6);
    let (mut stores, id, _) = seeded();
    stores.names.insert("beta/one".to_string(), stale.bytes);
    assert_eq!(
        stores.rename(Query::Id(id), "beta/one"),
        Err(Refusal::AlreadyExists {
            name: "beta/one".to_string()
        })
    );
    stores.drops_stale = true;
    assert!(stores.rename(Query::Id(id), "beta/one").is_ok());
    assert_eq!(stores.load_name("beta/one").unwrap().0, id);

    // A stale name in the request leads nowhere where it is dropped.
    let (mut stores, _, _) = seeded();
    stores.drops_stale = true;
    stores.names.insert("gone".to_string(), stale.bytes);
    assert_eq!(
        stores.rename(Query::Name("gone".to_string()), "beta/one"),
        Err(Refusal::NameNotFound {
            name: "gone".to_string()
        })
    );
    assert_eq!(stores.names.get("gone"), None);
}

#[test]
fn an_unknown_id_is_refused() {
    let (mut stores, _, _) = seeded();
    let unknown = RepositoryId {
        bytes: [0xabu8; 16],
    };
    let refusal = stores.rename(Query::Id(unknown), "beta/one").unwrap_err();
    assert_eq!(
        refusal.to_status(),
        status(
            Code::NotFound,
            "Repository abababababababababababababababab not found"
        )
    );
}

#[test]
fn a_name_of_another_repository_is_refused() {
    let (mut stores, id, _) = seeded();
    stores.seed(id_of(6), "beta/one", branch_of(1), [1u8; 32]);
    let before = stores.clone();
    let refusal = stores.rename(Query::Id(id), "beta/one").unwrap_err();
    assert_eq!(
        refusal.to_status(),
        status(Code::AlreadyExists, "Repository beta/one already exists")
    );
    assert_eq!(stores.names, before.names);
    assert_eq!(stores.pointers, before.pointers);
    assert_eq!(stores.blobs, before.blobs);
}

#[test]
fn a_name_that_points_here_or_nowhere_is_free() {
    let (mut stores, id, _) = seeded();
    stores.names.insert("beta/one".to_string(), id.bytes);
    assert!(stores.rename(Query::Id(id), "beta/one").is_ok());

    let (mut stores, id, _) = seeded();
    stores.names.insert("beta/one".to_string(), [0u8; 16]);
    assert!(stores.rename(Query::Id(id), "beta/one").is_ok());
}

#[test]
fn a_lookup_that_fails_counts_as_free() {
    let (mut stores, id, _) = seeded();
    stores.seed(id_of(6), "beta/one", branch_of(1), [1u8; 32]);
    stores.fault = Some(("resolve name", Fault::SlowDown));
    assert!(stores.rename(Query::Id(id), "beta/one").is_ok());
    assert_eq!(stores.names.get("beta/one"), Some(&id.bytes));
}

#[test]
fn a_concurrent_metadata_write_is_not_overwritten() {
    let (mut stores, id, _) = seeded();
    stores.intruder = Some([0x77u8; 32]);
    let refusal = stores.rename(Query::Id(id), "beta/one").unwrap_err();
    assert_eq!(refusal, Refusal::Conflict);
    assert_eq!(
        refusal.to_status(),
        status(
            Code::Aborted,
            "repository metadata was modified concurrently"
        )
    );
    assert_eq!(
        stores.pointers.get(&(id.bytes, hex::encode(id.bytes))),
        Some(&[0x77u8; 32])
    );
    assert_eq!(stores.names.get("beta/one"), None);
}

#[test]
fn failures_of_the_stores_are_internal_errors() {
    let expected = [
        (
            "store metadata",
            "failed to store renamed metadata: disk full",
        ),
        ("swap pointer", "failed to update metadata: disk full"),
        (
            "store mapping",
            "Failed to store repository name mapping: disk full",
        ),
        (
            "delete mapping",
            "Failed to delete previous repository name mapping: disk full",
        ),
    ];
    for (kind, message) in expected {
        let (mut stores, id, _) = seeded();
        stores.fault = Some((kind, Fault::Failed));
        let refusal = stores.rename(Query::Id(id), "beta/one").unwrap_err();
        assert_eq!(refusal.to_status(), status(Code::Internal, message));
    }
}

#[test]
fn a_store_that_asks_to_slow_down_ends_the_rename() {
    let kinds = [
        "resolve name",
        "load metadata",
        "store metadata",
        "swap pointer",
        "store mapping",
        "delete mapping",
    ];
    for kind in kinds {
        let (mut stores, _, _) = seeded();
        stores.fault = Some((kind, Fault::SlowDown));
        let refusal = stores
            .rename(Query::Name("alpha/one".to_string()), "beta/one")
            .unwrap_err();
        assert_eq!(refusal, Refusal::SlowDown);
        assert_eq!(refusal.to_status(), None);
    }
}

#[test]
fn a_rename_that_stops_before_its_first_write_changes_nothing() {
    for kind in ["resolve name", "load metadata"] {
        let (mut stores, _, _) = seeded();
        let before = stores.clone();
        stores.fault = Some((kind, Fault::SlowDown));
        let refusal = stores
            .rename(Query::Name("alpha/one".to_string()), "beta/one")
            .unwrap_err();
        assert_eq!(refusal, Refusal::SlowDown);
        assert_eq!(stores.names, before.names);
        assert_eq!(stores.pointers, before.pointers);
        assert_eq!(stores.blobs, before.blobs);
        assert_eq!(stores.heads, before.heads);
    }
}

#[test]
fn a_retry_of_an_unmapped_repository_leaves_the_old_name_unresolved() {
    let (mut stores, id, _) = seeded();
    stores.names.clear();
    stores.run(rename_request(Query::Id(id), "beta/one"), 6);
    stores.rename(Query::Id(id), "beta/one").unwrap();
    assert_eq!(stores.load_name("beta/one").unwrap().0, id);
    assert!(stores.load_name("alpha/one").is_none());
}

#[test]
fn the_pointer_is_keyed_by_the_id_in_hexadecimal() {
    let id = RepositoryId {
        bytes: [
            0x01, 0x90, 0xab, 0xcd, 0xef, 0x0f, 0xf0, 0x00, 0x7f, 0x80, 0xff, 0x10, 0x2a, 0xb3,
            0xc4, 0xd5,
        ],
    };
    let job = Job {
        id,
        metadata: RepositoryMetadata {
            name: "alpha/one".to_string(),
            description: String::new(),
            default_branch: branch_of(1),
            default_branch_name: "main".to_string(),
            creator: "alice".to_string(),
            created: 1,
        },
        metadata_hash: ContentHash { bytes: [1u8; 32] },
        new_name: "beta/one".to_string(),
    };
    let updated = ContentHash { bytes: [2u8; 32] };
    let phase = install_name(
        job,
        Install::Blob,
        Event::MetadataStored(Reply::Done(updated)),
    );
    assert_eq!(
        phase.action(),
        Action::SwapPointer {
            context: id,
            key_argument: "0190abcdef0ff0007f80ff102ab3c4d5".to_string(),
            expected: ContentHash { bytes: [1u8; 32] },
            updated,
        }
    );
    assert_eq!(
        lore_rename::key::metadata_key_argument(id),
        "0190abcdef0ff0007f80ff102ab3c4d5"
    );
    assert_ne!(
        lore_rename::key::metadata_key_argument(id_of(1)),
        lore_rename::key::metadata_key_argument(id_of(2))
    );
}

#[test]
fn an_event_that_is_not_waited_for_changes_nothing() {
    let (phase, action) = handler(Phase::Start, Event::NameChecked(true));
    assert_eq!(phase, Phase::Start);
    assert_eq!(action, Action::Receive);
    let authorizing = Phase::Authorizing {
        authorization: None,
        id: id_of(1),
        new_name: "beta/one".to_string(),
    };
    let (phase, action) = handler(authorizing, Event::MappingStored(Reply::Done(())));
    assert_eq!(
        phase,
        Phase::Authorizing {
            authorization: None,
            id: id_of(1),
            new_name: "beta/one".to_string(),
        }
    );
    assert_eq!(
        action,
        Action::CheckAccess {
            authorization: None,
            id: id_of(1)
        }
    );
}

#[test]
fn only_the_zero_id_is_zero() {
    assert!(RepositoryId::default().is_zero());
    let mut bytes = [0u8; 16];
    bytes[15] = 1;
    let id = RepositoryId { bytes };
    assert!(!id.is_zero());
    assert!(id != RepositoryId::default());
    assert!(id == RepositoryId { bytes });
}
