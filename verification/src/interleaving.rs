//! What holds when several operations work on one session at the same time.
//!
//! A [`World`] holds what the session's record file holds, which operation has
//! the session's generation lock, and how far every operation has come. In each
//! step a new operation is begun, or one operation gets a reply that the world
//! can give it. Whatever the schedule, an operation that removes or rewrites the
//! record finds there the generation that it has read and been asked for.
//! Sessions do not meet: no two of them share a record file or a lock file.

use crate::generation::{Change, Operation, Outcome, RecordRead, Reply, Request, Stage};
use crate::record::WorkerRecord;
use vstd::prelude::*;

verus! {

/// One session's record file, its lock and the operations on it.
pub struct World {
    /// What reading the record file gives.
    pub slot: RecordRead,
    /// The operation that holds the generation lock.
    pub holder: Option<int>,
    pub ops: Map<int, Operation>,
}

/// What happens next.
pub enum Step {
    /// The operation `id` is begun.
    Begin { id: int, request: Request },
    /// The operation `id` gets `reply`.
    Answer { id: int, reply: Reply },
}

/// A session before any operation on it.
pub open spec fn initial(slot: RecordRead) -> World {
    World { slot, holder: None, ops: Map::empty() }
}

/// The replies that operation `id` can get: the lock only while nobody holds
/// it, the record as the file holds it, and any answer of the clock and of the
/// processes. Locking, reading and writing may fail.
pub open spec fn can_answer(world: World, id: int, reply: Reply) -> bool {
    match world.ops[id].stage {
        Stage::Locking => (reply == Reply::Locked && world.holder is None) || reply
            == Reply::LockFailed,
        Stage::Reading => reply == Reply::Read(world.slot) || reply == Reply::Read(
            RecordRead::Unreadable,
        ),
        Stage::Clock(_) => reply is Now,
        Stage::Liveness(_) => reply is Alive,
        Stage::Peer(_) => reply is Peer,
        Stage::Backfill(_) => reply is Identity,
        Stage::Identity(_) => reply is Identity,
        Stage::Publishing => reply == Reply::Written || reply == Reply::WriteFailed,
        Stage::Rewriting(_) => reply == Reply::Written || reply == Reply::WriteFailed,
        Stage::Removing => reply == Reply::Removed,
        Stage::Finished(_) => false,
    }
}

/// Whether a step can happen.
pub open spec fn enabled(world: World, step: Step) -> bool {
    match step {
        Step::Begin { id, .. } => !world.ops.contains_key(id),
        Step::Answer { id, reply } => world.ops.contains_key(id) && can_answer(world, id, reply),
    }
}

/// What the record file holds after operation `op` got `reply`.
pub open spec fn slot_after(slot: RecordRead, op: Operation, reply: Reply) -> RecordRead {
    match (crate::generation::to_write(op), op.stage, reply) {
        (Some(record), _, Reply::Written) => RecordRead::Record(record),
        (_, Stage::Removing, Reply::Removed) => RecordRead::Absent,
        _ => slot,
    }
}

/// The world after a step. An operation that finishes drops the lock.
pub open spec fn after(world: World, step: Step) -> World {
    match step {
        Step::Begin { id, request } => World {
            ops: world.ops.insert(id, Operation { request, stage: Stage::Locking }),
            ..world
        },
        Step::Answer { id, reply } => {
            let op = world.ops[id];
            let next = Operation {
                request: op.request,
                stage: crate::generation::next_stage(op.request, op.stage, reply),
            };
            World {
                slot: slot_after(world.slot, op, reply),
                holder: if next.stage is Finished && (world.holder == Some(id) || reply
                    == Reply::Locked) {
                    None
                } else if reply == Reply::Locked {
                    Some(id)
                } else {
                    world.holder
                },
                ops: world.ops.insert(id, next),
            }
        },
    }
}

/// Whether all steps of a schedule can happen, one after the other.
pub open spec fn possible(world: World, schedule: Seq<Step>) -> bool
    decreases schedule.len(),
{
    schedule.len() > 0 ==> possible(world, schedule.drop_last()) && enabled(
        run(world, schedule.drop_last()),
        schedule.last(),
    )
}

/// The world after a schedule.
pub open spec fn run(world: World, schedule: Seq<Step>) -> World
    decreases schedule.len(),
{
    if schedule.len() == 0 {
        world
    } else {
        after(run(world, schedule.drop_last()), schedule.last())
    }
}

/// Whether an operation is between having got the lock and having finished.
pub open spec fn is_fenced(stage: Stage) -> bool {
    !(stage is Locking) && !(stage is Finished)
}

/// Whether `record` is what the request names, or the same with the process
/// start that an authentication has filled in.
pub open spec fn authorized(request: Request, record: WorkerRecord) -> bool {
    ||| crate::generation::names(request, record)
    ||| request is Authenticate && exists|legacy: WorkerRecord|
        #[trigger] crate::generation::names(request, legacy) && legacy.process_start_identity is None
            && record == (WorkerRecord {
            process_start_identity: record.process_start_identity,
            ..legacy
        })
}

/// Whether writing `record` over `current` is what the request asks for.
pub open spec fn rewrites(request: Request, current: WorkerRecord, record: WorkerRecord) -> bool {
    match request {
        Request::Authenticate { .. } => {
            &&& current.process_start_identity is None
            &&& record.process_start_identity is Some
            &&& record == (WorkerRecord {
                process_start_identity: record.process_start_identity,
                ..current
            })
        },
        Request::Update { change: Change::Attached, .. } => {
            &&& record.last_attached_at is Some
            &&& record == (WorkerRecord {
                last_attached_at: record.last_attached_at,
                detached_at: None,
                ..current
            })
        },
        Request::Update { change: Change::Detached, .. } => {
            &&& record.detached_at is Some
            &&& record == (WorkerRecord { detached_at: record.detached_at, ..current })
        },
        Request::Update { change: Change::AcpSession(id), .. } => record == (WorkerRecord {
            stored_acp_session_id: id,
            ..current
        }),
        _ => false,
    }
}

/// Whether what an operation holds and is about to do fits what the record file
/// holds.
pub open spec fn fits(slot: RecordRead, op: Operation) -> bool {
    match op.stage {
        Stage::Clock(current) => op.request is Update && slot == RecordRead::Record(current)
            && crate::generation::names(op.request, current),
        Stage::Liveness(current) => op.request is DeleteDead && slot == RecordRead::Record(current)
            && crate::generation::names(op.request, current),
        Stage::Peer(current) => op.request is Authenticate && slot == RecordRead::Record(current)
            && crate::generation::names(op.request, current),
        Stage::Backfill(current) => op.request is Authenticate && slot == RecordRead::Record(
            current,
        ) && crate::generation::names(op.request, current) && current.process_start_identity is None,
        Stage::Identity(current) => slot == RecordRead::Record(current) && authorized(
            op.request,
            current,
        ),
        Stage::Publishing => op.request is Save,
        Stage::Rewriting(record) => slot matches RecordRead::Record(current)
            && crate::generation::names(op.request, current) && rewrites(
            op.request,
            current,
            record,
        ),
        Stage::Removing => op.request is Delete || ((op.request is DeleteMatching
            || op.request is DeleteDead) && (slot matches RecordRead::Record(current)
            && crate::generation::names(op.request, current))),
        _ => true,
    }
}

/// The invariant of every world: the lock is held by the one operation that is
/// past it, and what that operation is about to do fits the record file.
pub open spec fn invariant_holds(world: World) -> bool {
    &&& forall|id: int| #[trigger]
        world.ops.contains_key(id) && is_fenced(world.ops[id].stage) ==> world.holder == Some(id)
    &&& world.holder matches Some(id) ==> world.ops.contains_key(id) && is_fenced(
        world.ops[id].stage,
    )
    &&& forall|id: int| #[trigger] world.ops.contains_key(id) ==> fits(world.slot, world.ops[id])
}

/// A session before any operation on it meets the invariant.
pub proof fn invariant_holds_at_first(slot: RecordRead)
    ensures
        invariant_holds(initial(slot)),
{
}

/// Every step that can happen keeps the invariant.
pub proof fn every_step_keeps_the_invariant(world: World, step: Step)
    requires
        invariant_holds(world),
        enabled(world, step),
    ensures
        invariant_holds(after(world, step)),
{
    match step {
        Step::Begin { id, request } => {},
        Step::Answer { id, reply } => {
            let op = world.ops[id];
            let next = after(world, step).ops[id];
            assert(fits(world.slot, op));
            if is_fenced(op.stage) {
                assert(world.holder == Some(id));
            }
            assert forall|other: int| #[trigger]
                world.ops.contains_key(other) && other != id implies fits(
                after(world, step).slot,
                world.ops[other],
            ) by {
                if is_fenced(op.stage) {
                    assert(!is_fenced(world.ops[other].stage));
                }
            }
            if let Stage::Rewriting(record) = op.stage {
                let current = world.slot->Record_0;
                assert(crate::generation::names(op.request, current));
                assert(rewrites(op.request, current, record));
            }
            assert(fits(after(world, step).slot, next));
        },
    }
}

/// Every world that a schedule leads to meets the invariant.
pub proof fn invariant_holds_always(slot: RecordRead, schedule: Seq<Step>)
    requires
        possible(initial(slot), schedule),
    ensures
        invariant_holds(run(initial(slot), schedule)),
    decreases schedule.len(),
{
    if schedule.len() > 0 {
        invariant_holds_always(slot, schedule.drop_last());
        every_step_keeps_the_invariant(
            run(initial(slot), schedule.drop_last()),
            schedule.last(),
        );
    }
}

/// No two operations are past the lock at the same time, and a lock that is held
/// is held by an operation that has not finished.
pub proof fn the_lock_excludes(slot: RecordRead, schedule: Seq<Step>)
    requires
        possible(initial(slot), schedule),
    ensures
        ({
            let world = run(initial(slot), schedule);
            &&& forall|a: int, b: int|
                #![trigger world.ops[a], world.ops[b]]
                world.ops.contains_key(a) && world.ops.contains_key(b) && is_fenced(
                    world.ops[a].stage,
                ) && is_fenced(world.ops[b].stage) ==> a == b
            &&& world.holder matches Some(id) ==> world.ops.contains_key(id) && is_fenced(
                world.ops[id].stage,
            )
        }),
{
    invariant_holds_always(slot, schedule);
}

/// Stale cleanup never removes a replacement: a conditional deletion that is
/// about to remove the session's files finds in the record file the generation
/// that it was asked to delete, whatever other operations did meanwhile.
pub proof fn cleanup_removes_only_the_named_generation(
    slot: RecordRead,
    schedule: Seq<Step>,
    id: int,
)
    requires
        possible(initial(slot), schedule),
        run(initial(slot), schedule).ops.contains_key(id),
        run(initial(slot), schedule).ops[id].stage is Removing,
        !(run(initial(slot), schedule).ops[id].request is Delete),
    ensures
        run(initial(slot), schedule).slot matches RecordRead::Record(current)
            && crate::generation::names(run(initial(slot), schedule).ops[id].request, current),
{
    invariant_holds_always(slot, schedule);
}

/// Whether a step that takes the record file from `before` to `later` is one
/// that its operation's request asks for.
pub open spec fn asked_for(request: Request, before: RecordRead, later: RecordRead) -> bool {
    match request {
        Request::Save { record } => later == RecordRead::Record(record),
        Request::Delete { .. } => later == RecordRead::Absent,
        Request::DeleteMatching { .. } | Request::DeleteDead { .. } => {
            &&& before matches RecordRead::Record(current)
            &&& crate::generation::names(request, current)
            &&& later == RecordRead::Absent
        },
        Request::Authenticate { .. } | Request::Update { .. } => {
            &&& before matches RecordRead::Record(current)
            &&& crate::generation::names(request, current)
            &&& later matches RecordRead::Record(record)
            &&& rewrites(request, current, record)
        },
        Request::AuthenticateSpawned { .. } => false,
    }
}

/// The record file changes only as the operation that changes it was asked to:
/// nothing but a save or a plain deletion touches a generation that it does not
/// name, and the changes of an update or an authentication are the requested
/// ones.
pub proof fn the_record_changes_only_as_asked(slot: RecordRead, schedule: Seq<Step>, step: Step)
    requires
        possible(initial(slot), schedule),
        enabled(run(initial(slot), schedule), step),
        after(run(initial(slot), schedule), step).slot != run(initial(slot), schedule).slot,
    ensures
        step matches Step::Answer { id, reply } && asked_for(
            run(initial(slot), schedule).ops[id].request,
            run(initial(slot), schedule).slot,
            after(run(initial(slot), schedule), step).slot,
        ),
{
    invariant_holds_always(slot, schedule);
    let world = run(initial(slot), schedule);
    match step {
        Step::Begin { .. } => {
            assert(after(world, step).slot == world.slot);
        },
        Step::Answer { id, reply } => {
            assert(fits(world.slot, world.ops[id]));
        },
    }
}

/// A record that an authentication gives back is what the record file holds at
/// that moment.
pub proof fn an_authenticated_record_is_current(
    slot: RecordRead,
    schedule: Seq<Step>,
    step: Step,
    record: WorkerRecord,
)
    requires
        possible(initial(slot), schedule),
        enabled(run(initial(slot), schedule), step),
        step matches Step::Answer { id, reply } && after(
            run(initial(slot), schedule),
            step,
        ).ops[id].stage == Stage::Finished(Outcome::Authenticated(Some(record))),
    ensures
        run(initial(slot), schedule).slot == RecordRead::Record(record),
        after(run(initial(slot), schedule), step).slot == RecordRead::Record(record),
{
    invariant_holds_always(slot, schedule);
    let world = run(initial(slot), schedule);
    let id = step->Answer_id;
    assert(fits(world.slot, world.ops[id]));
}

/// An update leaves the record's generation as it is, so that the same request
/// still names the record after it.
pub proof fn an_update_keeps_the_generation(
    request: Request,
    current: WorkerRecord,
    record: WorkerRecord,
)
    requires
        request is Update,
        crate::generation::names(request, current),
        rewrites(request, current, record),
    ensures
        crate::record::is_same_generation(record, current),
        crate::generation::names(request, record),
{
}

/// What was saved is what is read: once a save or an update has been written, the
/// record file holds the written record, and it holds it until the next step that
/// changes it.
pub proof fn a_written_record_is_what_is_read(world: World, id: int, record: WorkerRecord, next: Step)
    requires
        invariant_holds(world),
        world.ops.contains_key(id),
        crate::generation::to_write(world.ops[id]) == Some(record),
        enabled(world, Step::Answer { id, reply: Reply::Written }),
        enabled(after(world, Step::Answer { id, reply: Reply::Written }), next),
    ensures
        ({
            let written = after(world, Step::Answer { id, reply: Reply::Written });
            &&& written.slot == RecordRead::Record(record)
            &&& after(written, next).slot == RecordRead::Record(record) || (
            next matches Step::Answer { id: other, reply } && asked_for(
                written.ops[other].request,
                RecordRead::Record(record),
                after(written, next).slot,
            ))
        }),
{
    let step = Step::Answer { id, reply: Reply::Written };
    every_step_keeps_the_invariant(world, step);
    let written = after(world, step);
    if let Step::Answer { id: other, reply } = next {
        assert(fits(written.slot, written.ops[other]));
    }
}

}
