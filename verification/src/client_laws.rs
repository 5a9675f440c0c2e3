//! What holds of renames as a whole, on the client's side.
use vstd::prelude::*;

use crate::rename::{Action, Config, Event, Phase, RenameArgs, RepositoryError};
use crate::types::{RepositoryId, Text};

verus! {

/// Whether an event is what an action can come to.
pub open spec fn answers(action: Action<Text>, event: Event<Text>) -> bool {
    match action {
        Action::Receive => event is Called,
        Action::ParseUrl { url } => event is UrlParsed,
        Action::ReadConfig => event is ConfigRead,
        Action::CheckName { name } => event is NameChecked,
        Action::Connect { remote_url, identity, id } => event is Connected,
        Action::OpenService => event is ServiceOpened,
        Action::ParseId { text } => event is IdParsed,
        Action::Query { name } => event is Queried,
        Action::Rename { id, new_name } => event is Renamed,
        Action::Return { outcome } => false,
    }
}

/// A rename as it runs, from the call on: the phases it goes through and what
/// came back in each of them.
pub struct Call {
    pub phases: Seq<Phase<Text>>,
    pub events: Seq<Event<Text>>,
}

impl Call {
    /// Whether the run is one that a call with these arguments takes.
    pub open spec fn made_with(self, args: RenameArgs<Text>) -> bool {
        &&& self.phases.len() == self.events.len() + 1
        &&& self.phases[0] == crate::rename::next_phase(Phase::Start, Event::Called(args))
        &&& forall|i: int| 0 <= i < self.events.len() ==> self.step(i)
    }

    /// Whether the run's step `i` is one that can be taken.
    pub open spec fn step(self, i: int) -> bool {
        &&& answers(self.phases[i].pending(), self.events[i])
        &&& self.phases[i + 1] == crate::rename::next_phase(self.phases[i], self.events[i])
    }

    /// The phase that the run got to.
    pub open spec fn reached(self) -> Phase<Text> {
        self.phases.last()
    }

    /// Whether every action of the run came to what was hoped for.
    pub open spec fn unhindered(self) -> bool {
        forall|i: int| 0 <= i < self.events.len() ==> hoped_for(#[trigger] self.events[i])
    }
}

/// Whether an event is what was hoped for.
pub open spec fn hoped_for(event: Event<Text>) -> bool {
    match event {
        Event::Called(args) => true,
        Event::UrlParsed(target) => target is Some,
        Event::ConfigRead(config) => config matches Config::Read { remote_url: Some(url) }
            && url.len() > 0,
        Event::NameChecked(valid) => valid,
        Event::Connected(done) => done,
        Event::ServiceOpened(done) => done,
        Event::IdParsed(id) => true,
        Event::Queried(id) => id is Some,
        Event::Renamed(done) => done,
    }
}

/// Whether a remote is needed for an action.
pub open spec fn needs_remote(action: Action<Text>) -> bool {
    action is Connect || action is OpenService || action is Query || action is Rename
}

/// Whether the remote is reached: every phase between the check of the new
/// name and the end.
spec fn past_name_check(phase: Phase<Text>) -> bool {
    phase is Connecting || phase is Opening || phase is ParsingId || phase is Querying
        || phase is Renaming
}

/// What is known in each phase of a call.
spec fn known(call: Call, args: RenameArgs<Text>, i: int) -> bool {
    match call.phases[i] {
        Phase::Start => false,
        Phase::ParsingUrl { args: kept } => kept == args && crate::rename::has_scheme(
            args.repository_url,
        ),
        Phase::ReadingConfig { args: kept } => kept == args && !crate::rename::has_scheme(
            args.repository_url,
        ),
        Phase::CheckingName { args: kept, target } => kept == args && addressed(
            call,
            args,
            target.remote_url,
            target.name,
            i,
        ),
        Phase::Connecting { args: kept, target } => kept == args && addressed(
            call,
            args,
            target.remote_url,
            target.name,
            i,
        ),
        Phase::Opening { args: kept, target } => kept == args && addressed(
            call,
            args,
            target.remote_url,
            target.name,
            i,
        ),
        Phase::ParsingId { args: kept, target } => kept == args && addressed(
            call,
            args,
            target.remote_url,
            target.name,
            i,
        ),
        Phase::Querying { args: kept, target } => {
            &&& kept == args
            &&& addressed(call, args, target.remote_url, target.name, i)
            &&& i > 0
            &&& call.events[i - 1] is IdParsed
            &&& crate::rename::parsed_id(call.events[i - 1]->IdParsed_0) == RepositoryId::none()
        },
        Phase::Renaming { id, new_name } => {
            &&& new_name == args.new_name
            &&& !args.dry_run
            &&& i > 0
            &&& {
                ||| call.events[i - 1] == Event::<Text>::IdParsed(Some(id)) && id
                    != RepositoryId::none()
                ||| call.events[i - 1] == Event::<Text>::Queried(Some(id))
            }
        },
        Phase::Finished { outcome } => outcome is Ok && !args.dry_run ==> {
            &&& i > 0
            &&& call.events[i - 1] == Event::<Text>::Renamed(true)
            &&& call.phases[i - 1] is Renaming
            &&& call.phases[i - 1]->Renaming_new_name == args.new_name
        },
    }
}

/// Whether a remote and a name are what the URL was parsed into, or what the
/// configuration and the bare name give.
spec fn addressed(
    call: Call,
    args: RenameArgs<Text>,
    remote_url: Text,
    name: Text,
    i: int,
) -> bool {
    &&& i > 0
    &&& if crate::rename::has_scheme(args.repository_url) {
        &&& call.events[0] is UrlParsed
        &&& call.events[0]->UrlParsed_0 is Some
        &&& call.events[0]->UrlParsed_0->0.remote_url == remote_url
        &&& call.events[0]->UrlParsed_0->0.name == name
    } else {
        &&& call.events[0] is ConfigRead
        &&& call.events[0]->ConfigRead_0 == (Config::Read { remote_url: Some(remote_url) })
        &&& remote_url.len() > 0
        &&& name == args.repository_url
    }
}

/// A step keeps what is known, and a call never goes back to its address.
proof fn lemma_known(call: Call, args: RenameArgs<Text>, i: int)
    requires
        call.made_with(args),
        0 <= i < call.phases.len(),
    ensures
        known(call, args, i),
        i > 0 ==> !(call.phases[i] is ParsingUrl || call.phases[i] is ReadingConfig),
    decreases i,
{
    if i > 0 {
        lemma_known(call, args, i - 1);
        assert(call.step(i - 1));
    }
}

/// A dry run asks for no rename.
pub proof fn law_dry_run_renames_nothing(call: Call, args: RenameArgs<Text>, i: int)
    requires
        call.made_with(args),
        args.dry_run,
        0 <= i < call.phases.len(),
    ensures
        !(call.phases[i].pending() is Rename),
{
    lemma_known(call, args, i);
}

/// The rename goes out by id: the one that the name stands for itself, or else
/// the one that the remote gave for the name; and under the new name that was
/// asked for.
pub proof fn law_rename_goes_out_by_id(
    call: Call,
    args: RenameArgs<Text>,
    id: RepositoryId,
    new_name: Text,
    i: int,
)
    requires
        call.made_with(args),
        0 <= i < call.phases.len(),
        call.phases[i].pending() == (Action::Rename { id: id, new_name: new_name }),
    ensures
        new_name == args.new_name,
        i > 0,
        (call.events[i - 1] == Event::<Text>::IdParsed(Some(id)) && id != RepositoryId::none())
            || call.events[i - 1] == Event::<Text>::Queried(Some(id)),
{
    lemma_known(call, args, i);
}

/// A repository that is addressed by its id is not looked up by name, so a
/// rename can be asked for again after the old name has stopped resolving.
pub proof fn law_id_needs_no_lookup(
    call: Call,
    args: RenameArgs<Text>,
    id: RepositoryId,
    i: int,
    j: int,
)
    requires
        call.made_with(args),
        0 <= i < call.events.len(),
        call.events[i] == Event::<Text>::IdParsed(Some(id)),
        id != RepositoryId::none(),
        0 <= j < call.phases.len(),
    ensures
        !(call.phases[j].pending() is Query),
{
    lemma_order(call, args, i);
    lemma_order(call, args, j);
    lemma_known(call, args, j);
    assert(call.step(i));
    if call.phases[j] is Querying {
        lemma_order(call, args, j - 1);
        assert(call.step(j - 1));
    }
}

/// The place of a phase in the order of phases.
spec fn place(phase: Phase<Text>) -> int {
    match phase {
        Phase::Start => -1,
        Phase::ParsingUrl { args } => 0,
        Phase::ReadingConfig { args } => 0,
        Phase::CheckingName { args, target } => 1,
        Phase::Connecting { args, target } => 2,
        Phase::Opening { args, target } => 3,
        Phase::ParsingId { args, target } => 4,
        Phase::Querying { args, target } => 5,
        Phase::Renaming { id, new_name } => 6,
        Phase::Finished { outcome } => 7,
    }
}

/// Up to the lookup, a call goes through its phases one by one.
proof fn lemma_order(call: Call, args: RenameArgs<Text>, i: int)
    requires
        call.made_with(args),
        0 <= i < call.phases.len(),
    ensures
        place(call.phases[i]) >= i,
        place(call.phases[i]) <= 5 ==> place(call.phases[i]) == i,
    decreases i,
{
    if i > 0 {
        lemma_order(call, args, i - 1);
        assert(call.step(i - 1));
    }
}

/// Whether step `j` is the check of `name`, and found it valid.
pub open spec fn found_valid(call: Call, name: Text, j: int) -> bool {
    &&& call.phases[j].pending() == (Action::CheckName { name: name })
    &&& call.events[j] == Event::<Text>::NameChecked(true)
}

/// No remote is asked for anything before the new name is found valid.
pub proof fn law_invalid_name_reaches_no_remote(call: Call, args: RenameArgs<Text>, i: int)
    requires
        call.made_with(args),
        0 <= i < call.phases.len(),
        needs_remote(call.phases[i].pending()),
    ensures
        exists|j: int| 0 <= j < i && #[trigger] found_valid(call, args.new_name, j),
{
    lemma_name_was_checked(call, args, i);
}

/// The check that a call has been through before it reaches the remote.
proof fn lemma_name_was_checked(call: Call, args: RenameArgs<Text>, i: int)
    requires
        call.made_with(args),
        0 <= i < call.phases.len(),
        past_name_check(call.phases[i]),
    ensures
        exists|j: int| 0 <= j < i && #[trigger] found_valid(call, args.new_name, j),
    decreases i,
{
    if i > 0 {
        assert(call.step(i - 1));
        if past_name_check(call.phases[i - 1]) {
            lemma_name_was_checked(call, args, i - 1);
        } else {
            lemma_known(call, args, i - 1);
            assert(found_valid(call, args.new_name, i - 1));
        }
    }
}

/// Only a scheme makes an address a URL. Without one, the whole text is the
/// repository's name, slashes and all, on the remote of the working copy; with
/// one, the URL says both, and the working copy's configuration is not looked
/// at.
pub proof fn law_only_a_scheme_makes_a_url(call: Call, args: RenameArgs<Text>, i: int)
    requires
        call.made_with(args),
        0 <= i < call.phases.len(),
    ensures
        crate::rename::has_scheme(args.repository_url) ==> match call.phases[i].pending() {
            Action::ReadConfig => false,
            Action::ParseUrl { url } => url == args.repository_url,
            Action::Connect { remote_url, identity, id } => {
                &&& call.events[0] matches Event::UrlParsed(Some(target))
                &&& target.remote_url == remote_url
            },
            Action::ParseId { text } => {
                &&& call.events[0] matches Event::UrlParsed(Some(target))
                &&& target.name == text
            },
            Action::Query { name } => {
                &&& call.events[0] matches Event::UrlParsed(Some(target))
                &&& target.name == name
            },
            _ => true,
        },
        !crate::rename::has_scheme(args.repository_url) ==> match call.phases[i].pending() {
            Action::ParseUrl { url } => false,
            Action::Connect { remote_url, identity, id } => call.events[0] == Event::ConfigRead(
                Config::Read { remote_url: Some(remote_url) },
            ),
            Action::ParseId { text } => text == args.repository_url,
            Action::Query { name } => name == args.repository_url,
            _ => true,
        },
{
    lemma_known(call, args, i);
}

/// A configuration that cannot be read does not pass for one without a remote:
/// a call that has to read it ends right there with the reader's error, and
/// asks no remote for anything. That there is no remote is said only where the
/// configuration was read and names none, or an empty one.
pub proof fn law_unreadable_config_is_an_error(call: Call, args: RenameArgs<Text>, i: int)
    requires
        call.made_with(args),
        !crate::rename::has_scheme(args.repository_url),
        0 < i < call.phases.len(),
    ensures
        call.events[0] == Event::<Text>::ConfigRead(Config::Unreadable) <==> call.phases[i] == (
        Phase::<Text>::Finished { outcome: Err(RepositoryError::Config) }),
        call.phases[i] == (Phase::<Text>::Finished { outcome: Err(RepositoryError::NoRemote) })
            <==> (call.events[0] matches Event::ConfigRead(Config::Read { remote_url }) && (
        remote_url matches Some(url) ==> url.len() == 0)),
        call.events[0] == Event::<Text>::ConfigRead(Config::Unreadable) ==> !needs_remote(
            call.phases[i].pending(),
        ),
    decreases i,
{
    assert(call.step(0));
    assert(call.phases[1] == crate::rename::next_phase(call.phases[0], call.events[0]));
    if i > 1 {
        law_unreadable_config_is_an_error(call, args, i - 1);
        lemma_known(call, args, i - 1);
        assert(call.step(i - 1));
    }
}

/// Success means that the remote has renamed the repository, unless the run
/// was a dry one.
pub proof fn law_success_means_renamed(call: Call, args: RenameArgs<Text>)
    requires
        call.made_with(args),
        call.reached() matches Phase::Finished { outcome: Ok(_) },
        !args.dry_run,
    ensures
        call.events.len() > 0,
        call.events.last() == Event::<Text>::Renamed(true),
        call.phases[call.events.len() - 1].pending() is Rename,
        call.phases[call.events.len() - 1].pending()->Rename_new_name == args.new_name,
{
    lemma_known(call, args, call.phases.len() - 1);
}

/// Success means that nothing stood in the way, on a dry run as on any other:
/// the address led to a remote, the new name was valid, the remote was reached
/// and, where it was asked, knew the repository and renamed it.
pub proof fn law_success_means_unhindered(call: Call, args: RenameArgs<Text>)
    requires
        call.made_with(args),
        call.reached() matches Phase::Finished { outcome: Ok(_) },
    ensures
        call.unhindered(),
{
    assert forall|i: int| 0 <= i < call.events.len() implies hoped_for(
        #[trigger] call.events[i],
    ) by {
        assert(call.step(i));
        if call.phases[i + 1] is Finished {
            lemma_end_is_final(call, args, i + 1);
        }
    }
}

/// A call that has ended goes no further.
proof fn lemma_end_is_final(call: Call, args: RenameArgs<Text>, i: int)
    requires
        call.made_with(args),
        0 <= i < call.phases.len(),
        call.phases[i] is Finished,
    ensures
        i == call.phases.len() - 1,
{
    if i < call.phases.len() - 1 {
        assert(call.step(i));
    }
}

/// Success is owed: where every action comes to what is hoped for, the rename
/// succeeds.
pub proof fn law_unhindered_rename_succeeds(call: Call, args: RenameArgs<Text>)
    requires
        call.made_with(args),
        call.unhindered(),
        call.reached() is Finished,
    ensures
        call.reached() == (Phase::<Text>::Finished { outcome: Ok(()) }),
{
    let last = call.phases.len() - 1;
    lemma_order(call, args, last);
    if last > 0 {
        lemma_known(call, args, last - 1);
        assert(call.step(last - 1));
        assert(hoped_for(call.events[last - 1]));
    }
}

/// Every rename comes to an end: a call takes at most seven steps.
pub proof fn law_every_call_ends(call: Call, args: RenameArgs<Text>)
    requires
        call.made_with(args),
    ensures
        call.events.len() <= 7,
{
    lemma_order(call, args, call.phases.len() - 1);
}

} // verus!
