//! Renaming a session after its first prompt.
//!
//! A session of the restricted profile that still has a generated title gets the
//! title of its first prompt. The stored session decides: it is renamed first,
//! and only then the one in memory. The decisions are a state machine whose host
//! reads and writes the sessions, as in [`crate::generation`].

use crate::restricted::{is_restricted_session, Instance};
use crate::text::text_eq;
use crate::title::first_turn_title;
use vstd::prelude::*;

verus! {

/// Whether number `i` of `instances` is the first one with this id.
pub open spec fn is_first_with_id(instances: Seq<Instance>, id: Seq<char>, i: int) -> bool {
    &&& 0 <= i < instances.len()
    &&& instances[i].id@ == id
    &&& forall|j: int| 0 <= j < i ==> #[trigger] instances[j].id@ != id
}

/// Whether number `i` of `instances` is the session `id` and is to be renamed:
/// it belongs to the restricted profile and still has a generated title.
pub open spec fn is_rename_target(instances: Seq<Instance>, id: Seq<char>, i: int) -> bool {
    &&& is_first_with_id(instances, id, i)
    &&& crate::restricted::is_restricted(instances[i])
    &&& instances[i].has_default_title
}

/// Whether the session `id` is among `instances` and is to be renamed.
pub open spec fn has_rename_target(instances: Seq<Instance>, id: Seq<char>) -> bool {
    exists|i: int| is_rename_target(instances, id, i)
}

/// Which one of `instances` is the session `session_id`, if that is to be
/// renamed.
pub fn rename_target(instances: &Vec<Instance>, session_id: &str) -> (r: Option<usize>)
    ensures
        match r {
            Some(i) => is_rename_target(instances@, session_id@, i as int),
            None => !has_rename_target(instances@, session_id@),
        },
{
    let mut i: usize = 0;
    while i < instances.len()
        invariant
            i <= instances@.len(),
            forall|j: int| 0 <= j < i ==> #[trigger] instances@[j].id@ != session_id@,
        decreases instances@.len() - i,
    {
        if text_eq(instances[i].id.as_str(), session_id) {
            assert(is_first_with_id(instances@, session_id@, i as int));
            if is_restricted_session(&instances[i]) && instances[i].has_default_title {
                return Some(i);
            }
            assert forall|k: int| !is_rename_target(instances@, session_id@, k) by {
                if is_first_with_id(instances@, session_id@, k) {
                    assert(instances@[i as int].id@ == session_id@);
                    assert(k == i);
                }
            }
            return None;
        }
        i = i + 1;
    }
    None
}

/// An instance with a new title.
pub open spec fn titled(instance: Instance, title: String, title_is_default: bool) -> Instance {
    Instance { title, has_default_title: title_is_default, ..instance }
}

/// Gives the session `session_id` the title `title` if it is to be renamed, and
/// says whether it was. `title_is_default` says whether the new title is itself
/// one that sessions are generated with.
pub fn rename_in(
    instances: &mut Vec<Instance>,
    session_id: &str,
    title: String,
    title_is_default: bool,
) -> (r: bool)
    ensures
        r == has_rename_target(old(instances)@, session_id@),
        !r ==> final(instances)@ == old(instances)@,
        forall|i: int|
            #[trigger] is_rename_target(old(instances)@, session_id@, i) ==> final(instances)@
                == old(instances)@.update(
                i,
                titled(old(instances)@[i], title, title_is_default),
            ),
{
    match rename_target(instances, session_id) {
        Some(i) => {
            let ghost before = instances@;
            instances[i].title = title;
            instances[i].has_default_title = title_is_default;
            assert(is_rename_target(before, session_id@, i as int));
            assert(instances@ =~= before.update(
                i as int,
                titled(before[i as int], title, title_is_default),
            ));
            assert forall|k: int| #[trigger] is_rename_target(before, session_id@, k) implies k
                == i by {
                assert(before[i as int].id@ == session_id@);
                assert(before[k].id@ == session_id@);
            }
            true
        },
        None => false,
    }
}

/// How a renaming ended.
#[derive(Clone, Copy, Debug, PartialEq, Eq, Structural)]
pub enum NamingOutcome {
    /// The stored session was renamed.
    Renamed,
    /// Nothing was to be renamed.
    Unchanged,
    /// The store could not be updated, or a reply came that answers nothing.
    Failed,
}

/// How far a renaming has come.
#[derive(Clone, Copy, Debug, PartialEq, Eq, Structural)]
pub enum NamingStage {
    /// Waits for the sessions in memory.
    Consulting,
    /// Waits for the store of the restricted profile to rename its session as
    /// [`rename_in`] does.
    Persisting,
    /// Waits for the session in memory to be renamed as [`rename_in`] does.
    Publishing,
    Finished(NamingOutcome),
}

/// What the host answers.
#[derive(Debug)]
pub enum NamingReply {
    /// The sessions in memory.
    Sessions(Vec<Instance>),
    /// Whether the store has renamed its session.
    Stored(bool),
    StoreFailed,
    /// The session in memory was renamed, or is not to be renamed any more.
    Published,
}

/// A renaming on its way.
#[derive(Debug)]
pub struct FirstTurnNaming {
    pub session_id: String,
    pub title: String,
    pub stage: NamingStage,
}

/// The stage that a reply leads to.
pub open spec fn next_naming(
    session_id: Seq<char>,
    stage: NamingStage,
    reply: NamingReply,
) -> NamingStage {
    match (stage, reply) {
        (NamingStage::Finished(outcome), _) => NamingStage::Finished(outcome),
        (NamingStage::Consulting, NamingReply::Sessions(instances)) => if has_rename_target(
            instances@,
            session_id,
        ) {
            NamingStage::Persisting
        } else {
            NamingStage::Finished(NamingOutcome::Unchanged)
        },
        (NamingStage::Persisting, NamingReply::Stored(changed)) => if changed {
            NamingStage::Publishing
        } else {
            NamingStage::Finished(NamingOutcome::Unchanged)
        },
        (NamingStage::Publishing, NamingReply::Published) => NamingStage::Finished(
            NamingOutcome::Renamed,
        ),
        _ => NamingStage::Finished(NamingOutcome::Failed),
    }
}

/// Begins to rename the session `session_id` after `prompt`.
pub fn apply_first_turn_name(session_id: &str, prompt: &str) -> (r: FirstTurnNaming)
    ensures
        r.session_id@ == session_id@,
        r.title@ == crate::title::title_of(prompt@),
        r.stage == NamingStage::Consulting,
{
    FirstTurnNaming {
        session_id: session_id.to_owned(),
        title: first_turn_title(prompt),
        stage: NamingStage::Consulting,
    }
}

impl FirstTurnNaming {
    /// The renaming after the host's reply.
    pub fn advance(self, reply: NamingReply) -> (r: FirstTurnNaming)
        ensures
            r.session_id == self.session_id,
            r.title == self.title,
            r.stage == next_naming(self.session_id@, self.stage, reply),
    {
        let stage = match (self.stage, reply) {
            (NamingStage::Finished(outcome), _) => NamingStage::Finished(outcome),
            (NamingStage::Consulting, NamingReply::Sessions(instances)) => {
                match rename_target(&instances, self.session_id.as_str()) {
                    Some(_) => NamingStage::Persisting,
                    None => NamingStage::Finished(NamingOutcome::Unchanged),
                }
            },
            (NamingStage::Persisting, NamingReply::Stored(changed)) => if changed {
                NamingStage::Publishing
            } else {
                NamingStage::Finished(NamingOutcome::Unchanged)
            },
            (NamingStage::Publishing, NamingReply::Published) => NamingStage::Finished(
                NamingOutcome::Renamed,
            ),
            _ => NamingStage::Finished(NamingOutcome::Failed),
        };
        FirstTurnNaming { session_id: self.session_id, title: self.title, stage }
    }
}

/// The stage after these replies, one after the other.
pub open spec fn naming_after(
    session_id: Seq<char>,
    stage: NamingStage,
    replies: Seq<NamingReply>,
) -> NamingStage
    decreases replies.len(),
{
    if replies.len() == 0 {
        stage
    } else {
        next_naming(session_id, naming_after(session_id, stage, replies.drop_last()), replies.last())
    }
}

proof fn naming_after_prefix(
    session_id: Seq<char>,
    stage: NamingStage,
    replies: Seq<NamingReply>,
    n: int,
)
    requires
        0 <= n <= replies.len(),
    ensures
        naming_after(session_id, stage, replies) == naming_after(
            session_id,
            naming_after(session_id, stage, replies.take(n)),
            replies.skip(n),
        ),
    decreases replies.len(),
{
    if n == replies.len() {
        assert(replies.take(n) =~= replies);
        assert(replies.skip(n) =~= Seq::empty());
    } else {
        naming_after_prefix(session_id, stage, replies.drop_last(), n);
        assert(replies.drop_last().take(n) =~= replies.take(n));
        assert(replies.skip(n).drop_last() =~= replies.drop_last().skip(n));
    }
}

proof fn finished_naming_stays(
    session_id: Seq<char>,
    outcome: NamingOutcome,
    replies: Seq<NamingReply>,
)
    ensures
        naming_after(session_id, NamingStage::Finished(outcome), replies) == NamingStage::Finished(
            outcome,
        ),
    decreases replies.len(),
{
    if replies.len() > 0 {
        finished_naming_stays(session_id, outcome, replies.drop_last());
    }
}

/// A session is reported as renamed only if the sessions in memory had it as one
/// to be renamed, and then the store renamed it, and then the one in memory was
/// seen to: the stored session decides.
pub proof fn renamed_only_through_the_store(session_id: Seq<char>, replies: Seq<NamingReply>)
    requires
        naming_after(session_id, NamingStage::Consulting, replies) == NamingStage::Finished(
            NamingOutcome::Renamed,
        ),
    ensures
        replies.len() >= 3,
        replies[0] matches NamingReply::Sessions(instances) && has_rename_target(
            instances@,
            session_id,
        ),
        replies[1] == NamingReply::Stored(true),
        replies[2] is Published,
{
    let first = NamingStage::Consulting;
    reveal_with_fuel(naming_after, 4);
    if replies.len() >= 3 {
        let three = replies.take(3);
        naming_after_prefix(session_id, first, replies, 3);
        assert(three.drop_last() =~= replies.take(2));
        assert(replies.take(2).drop_last() =~= replies.take(1));
        assert(replies.take(1).drop_last() =~= Seq::empty());
        let stage = naming_after(session_id, first, three);
        if let NamingStage::Finished(outcome) = stage {
            finished_naming_stays(session_id, outcome, replies.skip(3));
        }
    } else if replies.len() == 2 {
        assert(replies.drop_last().drop_last() =~= Seq::empty());
    } else if replies.len() == 1 {
        assert(replies.drop_last() =~= Seq::empty());
    }
}

/// A session whose new title is no generated one is not renamed again, and
/// renaming changes neither which sessions there are nor which of them belong to
/// the restricted profile.
pub proof fn a_name_is_given_once(
    instances: Seq<Instance>,
    session_id: Seq<char>,
    i: int,
    title: String,
)
    requires
        is_rename_target(instances, session_id, i),
    ensures
        ({
            let later = instances.update(i, titled(instances[i], title, false));
            &&& !has_rename_target(later, session_id)
            &&& forall|j: int|
                0 <= j < instances.len() ==> (#[trigger] later[j]).id == instances[j].id
                    && crate::restricted::is_restricted(later[j]) == crate::restricted::is_restricted(
                    instances[j],
                )
        }),
{
    let later = instances.update(i, titled(instances[i], title, false));
    assert forall|k: int| !is_rename_target(later, session_id, k) by {
        if is_first_with_id(later, session_id, k) {
            assert(later[i].id@ == session_id);
            if k < i {
                assert(instances[k].id@ != session_id);
            }
            assert(k == i);
        }
    }
}

/// A session is to be renamed exactly where the first session with its id belongs
/// to the restricted profile and still has a generated title: what comes after it
/// does not count, and what comes before it has another id.
pub proof fn the_first_session_with_the_id_decides(
    before: Seq<Instance>,
    session: Instance,
    later: Seq<Instance>,
)
    requires
        forall|i: int| 0 <= i < before.len() ==> (#[trigger] before[i]).id@ != session.id@,
    ensures
        has_rename_target(before.push(session) + later, session.id@)
            <==> crate::restricted::is_restricted(session) && session.has_default_title,
        !has_rename_target(before, session.id@),
        forall|i: int|
            #[trigger] is_rename_target(before.push(session) + later, session.id@, i) ==> i
                == before.len(),
{
    let all = before.push(session) + later;
    let n = before.len() as int;
    assert(all[n] == session);
    assert forall|i: int| 0 <= i < n implies (#[trigger] all[i]).id@ != session.id@ by {
        assert(all[i] == before[i]);
    }
    assert forall|i: int| #[trigger] is_rename_target(all, session.id@, i) implies i == n by {
        if i > n {
            assert(all[n].id@ != session.id@);
        }
    }
    if crate::restricted::is_restricted(session) && session.has_default_title {
        assert(is_rename_target(all, session.id@, n));
    }
}

/// Renaming changes the title and what is known of it, and no other field.
pub proof fn renaming_changes_the_title_alone(
    instance: Instance,
    title: String,
    title_is_default: bool,
)
    ensures
        ({
            let renamed = titled(instance, title, title_is_default);
            &&& renamed.title == title
            &&& renamed.has_default_title == title_is_default
            &&& Instance {
                title: instance.title,
                has_default_title: instance.has_default_title,
                ..renamed
            } == instance
        }),
{
}

/// What becomes of a renaming, by what its host answers: nothing without a session
/// to rename, nothing if the store did not rename it, success once the store did
/// and the session in memory was seen to, and failure in every other case.
pub proof fn renamings_end_by_their_answers(
    session_id: Seq<char>,
    instances: Vec<Instance>,
    changed: bool,
    stage: NamingStage,
    reply: NamingReply,
    outcome: NamingOutcome,
)
    ensures
        ({
            let asked = naming_after(
                session_id,
                NamingStage::Consulting,
                seq![NamingReply::Sessions(instances)],
            );
            let stored = naming_after(
                session_id,
                NamingStage::Consulting,
                seq![NamingReply::Sessions(instances), NamingReply::Stored(changed)],
            );
            let failed = naming_after(
                session_id,
                NamingStage::Consulting,
                seq![NamingReply::Sessions(instances), NamingReply::StoreFailed],
            );
            let published = naming_after(
                session_id,
                NamingStage::Consulting,
                seq![
                    NamingReply::Sessions(instances),
                    NamingReply::Stored(changed),
                    NamingReply::Published,
                ],
            );
            if has_rename_target(instances@, session_id) {
                &&& asked == NamingStage::Persisting
                &&& failed == NamingStage::Finished(NamingOutcome::Failed)
                &&& changed ==> stored == NamingStage::Publishing && published
                    == NamingStage::Finished(NamingOutcome::Renamed)
                &&& !changed ==> stored == NamingStage::Finished(NamingOutcome::Unchanged)
                    && published == NamingStage::Finished(NamingOutcome::Unchanged)
            } else {
                asked == NamingStage::Finished(NamingOutcome::Unchanged) && stored == asked
                    && published == asked
            }
        }),
        next_naming(session_id, NamingStage::Finished(outcome), reply) == NamingStage::Finished(
            outcome,
        ),
        !(stage is Finished) && !(stage is Consulting && reply is Sessions) && !(stage is Persisting
            && reply is Stored) && !(stage is Publishing && reply is Published) ==> next_naming(
            session_id,
            stage,
            reply,
        ) == NamingStage::Finished(NamingOutcome::Failed),
{
    let first = NamingReply::Sessions(instances);
    let second = NamingReply::Stored(changed);
    reveal_with_fuel(naming_after, 4);
    assert(seq![first].drop_last() =~= Seq::empty());
    assert(seq![first, second].drop_last() =~= seq![first]);
    assert(seq![first, NamingReply::StoreFailed].drop_last() =~= seq![first]);
    assert(seq![first, second, NamingReply::Published].drop_last() =~= seq![first, second]);
}

}
