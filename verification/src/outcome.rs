//! What the operations on a generation record come to: how each ends in given
//! surroundings, and that each ends.

use crate::error::RegistryError;
use crate::generation::{
    Change, GenerationDeleteOutcome, Operation, Outcome, Pending, RecordRead, Reply, Request, Stage,
};
use crate::paths::WorkerPath;
use crate::record::WorkerRecord;
use vstd::prelude::*;

verus! {

/// What the host finds when it is asked.
pub struct Surroundings {
    /// Whether the lock can be had.
    pub lock: bool,
    /// What reading the record gives.
    pub read: RecordRead,
    pub now: u64,
    /// Whether the recorded process is alive.
    pub alive: bool,
    /// The process on the requested socket.
    pub peer: Option<u32>,
    /// The start of the recorded process, when a record without one is filled in.
    pub backfill: Option<u64>,
    /// The start of the recorded process, when it is compared.
    pub identity: Option<u64>,
    /// Whether a record can be written.
    pub write: bool,
}

/// What the host answers to an operation in these surroundings.
pub open spec fn answer(around: Surroundings, stage: Stage) -> Reply {
    match stage {
        Stage::Locking => if around.lock {
            Reply::Locked
        } else {
            Reply::LockFailed
        },
        Stage::Reading => Reply::Read(around.read),
        Stage::Clock(_) => Reply::Now(around.now),
        Stage::Liveness(_) => Reply::Alive(around.alive),
        Stage::Peer(_) => Reply::Peer(around.peer),
        Stage::Backfill(_) => Reply::Identity(around.backfill),
        Stage::Identity(_) => Reply::Identity(around.identity),
        Stage::Publishing | Stage::Rewriting(_) => if around.write {
            Reply::Written
        } else {
            Reply::WriteFailed
        },
        Stage::Removing => Reply::Removed,
        Stage::Finished(_) => Reply::Removed,
    }
}

/// The stage after at most `replies` answers.
pub open spec fn stage_after(
    request: Request,
    stage: Stage,
    around: Surroundings,
    replies: nat,
) -> Stage
    decreases replies,
{
    if replies == 0 {
        stage
    } else {
        stage_after(
            request,
            crate::generation::next_stage(request, stage, answer(around, stage)),
            around,
            (replies - 1) as nat,
        )
    }
}

/// How many replies an operation may still need.
pub open spec fn replies_left(stage: Stage) -> nat {
    match stage {
        Stage::Locking => 7,
        Stage::Reading => 6,
        Stage::Peer(_) => 5,
        Stage::Backfill(_) | Stage::Clock(_) => 4,
        Stage::Liveness(_) | Stage::Rewriting(_) => 3,
        Stage::Identity(_) => 2,
        Stage::Publishing | Stage::Removing => 1,
        Stage::Finished(_) => 0,
    }
}

/// How a conditional request ends that finds the record `current`.
pub open spec fn outcome_with_record(
    request: Request,
    current: WorkerRecord,
    around: Surroundings,
) -> Outcome {
    let named = crate::generation::names(request, current);
    match request {
        Request::DeleteMatching {
            process_start_identity,
            proves_processes,
            ..
        } => Outcome::Deleted(
            if named && (proves_processes && around.identity is Some ==> around.identity
                == process_start_identity) {
                GenerationDeleteOutcome::Deleted
            } else {
                GenerationDeleteOutcome::Changed
            },
        ),
        Request::DeleteDead { .. } => Outcome::Deleted(
            if named && !around.alive && around.identity is None {
                GenerationDeleteOutcome::Deleted
            } else {
                GenerationDeleteOutcome::Changed
            },
        ),
        Request::Authenticate { connected_peer_pid, proves_processes, .. } => {
            let peer = if connected_peer_pid is Some {
                connected_peer_pid
            } else {
                around.peer
            };
            if !named {
                Outcome::Authenticated(None)
            } else if !proves_processes {
                Outcome::Authenticated(Some(current))
            } else if peer != Some(current.pid) {
                Outcome::Authenticated(None)
            } else if current.process_start_identity is Some {
                Outcome::Authenticated(
                    if current.process_start_identity == around.identity {
                        Some(current)
                    } else {
                        None
                    },
                )
            } else if around.backfill is None {
                Outcome::Authenticated(None)
            } else if !around.write {
                Outcome::Failed(RegistryError::Write)
            } else if around.backfill == around.identity {
                Outcome::Authenticated(
                    Some(WorkerRecord { process_start_identity: around.identity, ..current }),
                )
            } else {
                Outcome::Authenticated(None)
            }
        },
        Request::AuthenticateSpawned { proves_processes, .. } => Outcome::Authenticated(
            if named && (proves_processes ==> current.process_start_identity is Some
                && current.process_start_identity == around.identity) {
                Some(current)
            } else {
                None
            },
        ),
        Request::Update { .. } => if !named {
            Outcome::Updated(false)
        } else if around.write {
            Outcome::Updated(true)
        } else {
            Outcome::Failed(RegistryError::Write)
        },
        _ => Outcome::Failed(RegistryError::UnexpectedReply),
    }
}

/// How a request ends in given surroundings.
pub open spec fn outcome_of(request: Request, around: Surroundings) -> Outcome {
    if !around.lock {
        Outcome::Failed(RegistryError::Lock)
    } else {
        match request {
            Request::Save { .. } => if around.write {
                Outcome::Saved
            } else {
                Outcome::Failed(RegistryError::Write)
            },
            Request::Delete { .. } => Outcome::Deleted(GenerationDeleteOutcome::Deleted),
            _ => match around.read {
                RecordRead::Unreadable => Outcome::Failed(RegistryError::Read),
                RecordRead::Malformed => Outcome::Failed(RegistryError::Parse),
                RecordRead::Absent => match request {
                    Request::DeleteMatching { .. } | Request::DeleteDead { .. } => Outcome::Deleted(
                        GenerationDeleteOutcome::Missing,
                    ),
                    Request::Update { .. } => Outcome::Updated(false),
                    _ => Outcome::Authenticated(None),
                },
                RecordRead::Record(current) => outcome_with_record(request, current, around),
            },
        }
    }
}

/// Every reply, expected or not, brings an operation nearer its end: after seven
/// replies it has finished.
pub proof fn every_reply_counts(request: Request, stage: Stage, reply: Reply)
    requires
        !(stage is Finished),
    ensures
        replies_left(crate::generation::next_stage(request, stage, reply)) < replies_left(stage),
{
}

/// An operation that has finished stays as it is.
pub proof fn the_end_is_final(request: Request, outcome: Outcome, reply: Reply)
    ensures
        crate::generation::next_stage(request, Stage::Finished(outcome), reply) == Stage::Finished(
            outcome,
        ),
{
}

/// An operation whose host answers from given surroundings ends as
/// [`outcome_of`] says.
pub proof fn operations_end_as_stated(request: Request, around: Surroundings)
    ensures
        stage_after(request, Stage::Locking, around, 7) == Stage::Finished(
            outcome_of(request, around),
        ),
{
    reveal_with_fuel(stage_after, 8);
}

/// A record that is there but cannot be read or understood is never taken for a
/// missing one: every conditional request fails on it, whatever else the host
/// finds.
pub proof fn an_illegible_record_fails_closed(request: Request, around: Surroundings)
    requires
        around.lock,
        around.read is Unreadable || around.read is Malformed,
        !(request is Save),
        !(request is Delete),
    ensures
        outcome_of(request, around) == Outcome::Failed(
            if around.read is Unreadable {
                RegistryError::Read
            } else {
                RegistryError::Parse
            },
        ),
{
}

/// Whether a request proves the processes behind a record.
pub open spec fn proves(request: Request) -> bool {
    match request {
        Request::DeleteMatching { proves_processes, .. } => proves_processes,
        Request::Authenticate { proves_processes, .. } => proves_processes,
        Request::AuthenticateSpawned { proves_processes, .. } => proves_processes,
        _ => false,
    }
}

/// A record is given back as authenticated only with the requested session id,
/// process and socket. Where processes are proved, it has a process start, which
/// the recorded process has at that time, and the peer is the recorded process.
pub proof fn authenticated_records_are_proved(
    request: Request,
    around: Surroundings,
    record: WorkerRecord,
)
    requires
        outcome_of(request, around) == Outcome::Authenticated(Some(record)),
    ensures
        record.session_id@ == crate::generation::session_of(request),
        proves(request) ==> record.process_start_identity is Some && record.process_start_identity
            == around.identity,
        match request {
            Request::Authenticate { record: expected, socket_path, connected_peer_pid, .. } => {
                &&& record.pid == expected.pid
                &&& record.started_at == expected.started_at
                &&& crate::paths::paths_equal(record.socket_path, socket_path)
                &&& proves(request) && connected_peer_pid is Some ==> connected_peer_pid == Some(
                    record.pid,
                )
                &&& proves(request) && connected_peer_pid is None ==> around.peer == Some(
                    record.pid,
                )
            },
            Request::AuthenticateSpawned { pid, socket_path, peer_pid, .. } => {
                &&& record.pid == pid
                &&& crate::paths::paths_equal(record.socket_path, socket_path)
                &&& peer_pid == Some(record.pid)
            },
            _ => false,
        },
{
}

/// A process start is filled in only where a record has none, and only after the
/// peer was proved to be the recorded process: by the caller, or on the socket.
/// Where processes are not proved, none is filled in.
pub proof fn only_a_proved_record_is_filled_in(request: Request, stage: Stage, reply: Reply)
    requires
        request is Authenticate,
    ensures
        crate::generation::next_stage(request, stage, reply) is Peer ==> proves(request),
        crate::generation::next_stage(request, stage, reply) matches Stage::Backfill(current) ==> {
            &&& current.process_start_identity is None
            &&& stage is Reading ==> proves(request)
            &&& (stage is Reading && request->connected_peer_pid == Some(current.pid)) || (stage
                == Stage::Peer(current) && reply == Reply::Peer(Some(current.pid)))
        },
        crate::generation::next_stage(request, stage, reply) matches Stage::Rewriting(record)
            ==> stage matches Stage::Backfill(current) && record.process_start_identity is Some
            && record == (WorkerRecord {
            process_start_identity: record.process_start_identity,
            ..current
        }),
{
}

/// A worker that was just marked as attached is not shown as detached, and one
/// that was just marked as detached is, unless it was attached at a later time.
pub proof fn marks_show(expected: WorkerRecord, current: WorkerRecord, change: Change, now: u64)
    requires
        !(change is AcpSession),
    ensures
        crate::generation::after_clock(Request::Update { expected, change }, current, now)
            matches Stage::Rewriting(record) && crate::record::is_detached(record) == (
        change is Detached && (current.last_attached_at matches Some(attached) ==> attached
            <= now)),
{
}

/// An authentication goes by five fields of the record and by the process behind
/// it, and by nothing else: the session id, the process id, the socket, the start
/// and the process start have to be the named ones, whatever the record says of
/// attachments and other bookkeeping. Then the peer and the live process start
/// decide, where processes are proved.
pub proof fn authentication_goes_by_five_fields(
    record: WorkerRecord,
    session_id: String,
    socket_path: WorkerPath,
    connected_peer_pid: Option<u32>,
    proves_processes: bool,
    around: Surroundings,
    current: WorkerRecord,
)
    requires
        around.lock,
        around.read == RecordRead::Record(current),
    ensures
        ({
            let request = Request::Authenticate {
                record,
                session_id,
                socket_path,
                connected_peer_pid,
                proves_processes,
            };
            let agrees = current.session_id@ == session_id@ && current.pid == record.pid
                && crate::text::texts(current.socket_path.components@) == crate::text::texts(
                socket_path.components@,
            ) && current.started_at == record.started_at && current.process_start_identity
                == record.process_start_identity;
            let peer = if connected_peer_pid is Some {
                connected_peer_pid
            } else {
                around.peer
            };
            let end = stage_after(request, Stage::Locking, around, 7);
            &&& crate::generation::names(request, current) <==> agrees
            &&& !agrees ==> end == Stage::Finished(Outcome::Authenticated(None))
            &&& agrees && !proves_processes ==> end == Stage::Finished(
                Outcome::Authenticated(Some(current)),
            )
            &&& agrees && proves_processes && peer != Some(current.pid) ==> end == Stage::Finished(
                Outcome::Authenticated(None),
            )
            &&& agrees && proves_processes && peer == Some(current.pid)
                && current.process_start_identity is Some ==> end == Stage::Finished(
                Outcome::Authenticated(
                    if around.identity == current.process_start_identity {
                        Some(current)
                    } else {
                        None
                    },
                ),
            )
            &&& agrees && proves_processes && peer == Some(current.pid)
                && current.process_start_identity is None && around.backfill is None ==> end
                == Stage::Finished(Outcome::Authenticated(None))
            &&& agrees && proves_processes && peer == Some(current.pid)
                && current.process_start_identity is None && around.backfill is Some ==> end
                == Stage::Finished(
                if !around.write {
                    Outcome::Failed(RegistryError::Write)
                } else if around.identity == around.backfill {
                    Outcome::Authenticated(
                        Some(WorkerRecord { process_start_identity: around.backfill, ..current }),
                    )
                } else {
                    Outcome::Authenticated(None)
                },
            )
        }),
{
    reveal_with_fuel(stage_after, 8);
}

/// Two records that agree in session id, process id, socket, start and process
/// start fare alike under every request: each is acted on exactly where the other
/// is, in whatever else they differ.
pub proof fn bookkeeping_has_no_part_in_any_request(
    request: Request,
    a: WorkerRecord,
    b: WorkerRecord,
)
    requires
        a.session_id@ == b.session_id@,
        a.pid == b.pid,
        crate::text::texts(a.socket_path.components@) == crate::text::texts(
            b.socket_path.components@,
        ),
        a.started_at == b.started_at,
        a.process_start_identity == b.process_start_identity,
    ensures
        crate::generation::names(request, a) == crate::generation::names(request, b),
        crate::generation::pending_of(
            crate::generation::next_stage(
                request,
                Stage::Reading,
                Reply::Read(RecordRead::Record(a)),
            ),
        ) == crate::generation::pending_of(
            crate::generation::next_stage(
                request,
                Stage::Reading,
                Reply::Read(RecordRead::Record(b)),
            ),
        ),
{
}

/// A just spawned runner is bound to the record that carries its session id, its
/// process id, its socket, its peer and, where it is known, its process start.
/// Where processes are proved, the record has to name the live process start.
pub proof fn spawned_runners_are_bound_by_what_they_published(
    session_id: String,
    pid: u32,
    socket_path: WorkerPath,
    process_start_identity: Option<u64>,
    peer_pid: Option<u32>,
    proves_processes: bool,
    around: Surroundings,
    current: WorkerRecord,
)
    requires
        around.lock,
        around.read == RecordRead::Record(current),
    ensures
        ({
            let request = Request::AuthenticateSpawned {
                session_id,
                pid,
                socket_path,
                process_start_identity,
                peer_pid,
                proves_processes,
            };
            let agrees = current.session_id@ == session_id@ && current.pid == pid
                && crate::text::texts(current.socket_path.components@) == crate::text::texts(
                socket_path.components@,
            ) && peer_pid == Some(pid) && (process_start_identity is None
                || current.process_start_identity == process_start_identity);
            let proved = current.process_start_identity is Some && current.process_start_identity
                == around.identity;
            &&& crate::generation::names(request, current) <==> agrees
            &&& stage_after(request, Stage::Locking, around, 7) == Stage::Finished(
                Outcome::Authenticated(
                    if agrees && (proved || !proves_processes) {
                        Some(current)
                    } else {
                        None
                    },
                ),
            )
        }),
{
    reveal_with_fuel(stage_after, 8);
}

/// A conditional deletion deletes exactly the record with the given session id,
/// process id, process start, socket and, where it is given, start, unless another
/// process is proved to run under the process id.
pub proof fn matching_deletion_goes_by_the_given_fields(
    session_id: String,
    pid: u32,
    socket_path: WorkerPath,
    started_at: Option<u64>,
    process_start_identity: Option<u64>,
    proves_processes: bool,
    around: Surroundings,
    current: WorkerRecord,
)
    requires
        around.lock,
        around.read == RecordRead::Record(current),
    ensures
        ({
            let request = Request::DeleteMatching {
                session_id,
                pid,
                socket_path,
                started_at,
                process_start_identity,
                proves_processes,
            };
            let agrees = current.session_id@ == session_id@ && current.pid == pid
                && current.process_start_identity == process_start_identity && crate::text::texts(
                current.socket_path.components@,
            ) == crate::text::texts(socket_path.components@) && (started_at is None || started_at
                == Some(current.started_at));
            let reused = proves_processes && around.identity is Some && around.identity
                != process_start_identity;
            &&& crate::generation::names(request, current) <==> agrees
            &&& stage_after(request, Stage::Locking, around, 7) == Stage::Finished(
                Outcome::Deleted(
                    if agrees && !reused {
                        GenerationDeleteOutcome::Deleted
                    } else {
                        GenerationDeleteOutcome::Changed
                    },
                ),
            )
        }),
{
    reveal_with_fuel(stage_after, 8);
}

/// A dead worker's record is deleted exactly where it agrees with the given one in
/// session id, process id, process start, socket and start, and its process is
/// neither alive nor has a start.
pub proof fn dead_deletion_goes_by_five_fields(
    record: WorkerRecord,
    around: Surroundings,
    current: WorkerRecord,
)
    requires
        around.lock,
        around.read == RecordRead::Record(current),
    ensures
        ({
            let request = Request::DeleteDead { record };
            let agrees = current.session_id@ == record.session_id@ && current.pid == record.pid
                && current.process_start_identity == record.process_start_identity
                && crate::text::texts(current.socket_path.components@) == crate::text::texts(
                record.socket_path.components@,
            ) && current.started_at == record.started_at;
            &&& crate::generation::names(request, current) <==> agrees
            &&& stage_after(request, Stage::Locking, around, 7) == Stage::Finished(
                Outcome::Deleted(
                    if agrees && !around.alive && around.identity is None {
                        GenerationDeleteOutcome::Deleted
                    } else {
                        GenerationDeleteOutcome::Changed
                    },
                ),
            )
        }),
{
    reveal_with_fuel(stage_after, 8);
}

/// An update changes exactly the record that agrees with the expected one in
/// session id, process id, process start, socket and start, and says so.
pub proof fn updates_go_by_five_fields(
    expected: WorkerRecord,
    change: Change,
    around: Surroundings,
    current: WorkerRecord,
)
    requires
        around.lock,
        around.read == RecordRead::Record(current),
    ensures
        ({
            let request = Request::Update { expected, change };
            let agrees = current.session_id@ == expected.session_id@ && current.pid == expected.pid
                && current.process_start_identity == expected.process_start_identity
                && crate::text::texts(current.socket_path.components@) == crate::text::texts(
                expected.socket_path.components@,
            ) && current.started_at == expected.started_at;
            &&& crate::generation::names(request, current) <==> agrees
            &&& stage_after(request, Stage::Locking, around, 7) == Stage::Finished(
                if !agrees {
                    Outcome::Updated(false)
                } else if around.write {
                    Outcome::Updated(true)
                } else {
                    Outcome::Failed(RegistryError::Write)
                },
            )
        }),
{
    reveal_with_fuel(stage_after, 8);
}

/// The record that an update writes is the record it read, with the one change
/// that was asked for: an attachment now and no detachment, a detachment now, or
/// the given agent-side session id.
pub proof fn updates_write_the_requested_change(
    expected: WorkerRecord,
    change: Change,
    current: WorkerRecord,
    now: u64,
)
    requires
        current.session_id@ == expected.session_id@,
        current.pid == expected.pid,
        current.process_start_identity == expected.process_start_identity,
        crate::text::texts(current.socket_path.components@) == crate::text::texts(
            expected.socket_path.components@,
        ),
        current.started_at == expected.started_at,
    ensures
        ({
            let request = Request::Update { expected, change };
            let read = crate::generation::next_stage(
                request,
                Stage::Reading,
                Reply::Read(RecordRead::Record(current)),
            );
            let written = if change is AcpSession {
                read
            } else {
                crate::generation::next_stage(request, read, Reply::Now(now))
            };
            crate::generation::to_write(Operation { request, stage: written }) == Some(
                match change {
                    Change::Attached => WorkerRecord {
                        last_attached_at: Some(now),
                        detached_at: None,
                        ..current
                    },
                    Change::Detached => WorkerRecord { detached_at: Some(now), ..current },
                    Change::AcpSession(id) => WorkerRecord { stored_acp_session_id: id, ..current },
                },
            )
        }),
{
}

/// The record that an authentication writes is the record it read with the live
/// process start filled in.
pub proof fn backfill_writes_the_live_start(
    request: Request,
    current: WorkerRecord,
    live: u64,
)
    ensures
        crate::generation::to_write(
            Operation {
                request,
                stage: crate::generation::next_stage(
                    request,
                    Stage::Backfill(current),
                    Reply::Identity(Some(live)),
                ),
            },
        ) == Some(WorkerRecord { process_start_identity: Some(live), ..current }),
{
}

/// A save writes the given record under the lock without reading anything, and a
/// plain deletion removes the session's files under the lock without reading
/// anything.
pub proof fn plain_requests_ask_nothing(record: WorkerRecord, session_id: String, around: Surroundings)
    ensures
        ({
            let saving = crate::generation::next_stage(
                Request::Save { record },
                Stage::Locking,
                Reply::Locked,
            );
            &&& crate::generation::to_write(
                Operation { request: Request::Save { record }, stage: saving },
            ) == Some(record)
            &&& crate::generation::pending_of(saving) == Pending::WriteRecord
            &&& crate::generation::pending_of(
                crate::generation::next_stage(
                    Request::Delete { session_id },
                    Stage::Locking,
                    Reply::Locked,
                ),
            ) == Pending::RemoveFiles
        }),
        stage_after(Request::Save { record }, Stage::Locking, around, 7) == Stage::Finished(
            if !around.lock {
                Outcome::Failed(RegistryError::Lock)
            } else if !around.write {
                Outcome::Failed(RegistryError::Write)
            } else {
                Outcome::Saved
            },
        ),
        stage_after(Request::Delete { session_id }, Stage::Locking, around, 7) == Stage::Finished(
            if around.lock {
                Outcome::Deleted(GenerationDeleteOutcome::Deleted)
            } else {
                Outcome::Failed(RegistryError::Lock)
            },
        ),
{
    reveal_with_fuel(stage_after, 8);
}

/// Without the lock nothing is done; without a legible record every request that
/// needs one ends without touching anything, and a missing record is told from an
/// illegible one.
pub proof fn without_lock_or_record_nothing_is_done(request: Request, around: Surroundings)
    requires
        !(request is Save),
        !(request is Delete),
    ensures
        ({
            let end = stage_after(request, Stage::Locking, around, 7);
            &&& !around.lock ==> end == Stage::Finished(Outcome::Failed(RegistryError::Lock))
            &&& around.lock && around.read is Unreadable ==> end == Stage::Finished(
                Outcome::Failed(RegistryError::Read),
            )
            &&& around.lock && around.read is Malformed ==> end == Stage::Finished(
                Outcome::Failed(RegistryError::Parse),
            )
            &&& around.lock && around.read is Absent && (request is DeleteMatching
                || request is DeleteDead) ==> end == Stage::Finished(
                Outcome::Deleted(GenerationDeleteOutcome::Missing),
            )
            &&& around.lock && around.read is Absent && (request is Authenticate
                || request is AuthenticateSpawned) ==> end == Stage::Finished(
                Outcome::Authenticated(None),
            )
            &&& around.lock && around.read is Absent && request is Update ==> end
                == Stage::Finished(Outcome::Updated(false))
        }),
{
    reveal_with_fuel(stage_after, 8);
}

/// What is asked of the host is what the stage waits for, about the process that
/// the record in hand names; and a reply of any other sort fails the operation.
pub proof fn what_is_asked_is_what_is_awaited(request: Request, stage: Stage, reply: Reply)
    ensures
        match stage {
            Stage::Locking => crate::generation::pending_of(stage) == Pending::AcquireLock,
            Stage::Reading => crate::generation::pending_of(stage) == Pending::ReadRecord,
            Stage::Clock(_) => crate::generation::pending_of(stage) == Pending::ReadClock,
            Stage::Liveness(current) => crate::generation::pending_of(stage) == Pending::ProbeAlive(
                current.pid,
            ),
            Stage::Peer(_) => crate::generation::pending_of(stage) == Pending::ProbePeer,
            Stage::Backfill(current) => crate::generation::pending_of(stage)
                == Pending::ProbeIdentity(current.pid),
            Stage::Identity(current) => crate::generation::pending_of(stage)
                == Pending::ProbeIdentity(current.pid),
            Stage::Publishing => crate::generation::pending_of(stage) == Pending::WriteRecord,
            Stage::Rewriting(_) => crate::generation::pending_of(stage) == Pending::WriteRecord,
            Stage::Removing => crate::generation::pending_of(stage) == Pending::RemoveFiles,
            Stage::Finished(_) => crate::generation::pending_of(stage) == Pending::Nothing,
        },
        ({
            let awaited = match stage {
                Stage::Locking => reply is Locked || reply is LockFailed,
                Stage::Reading => reply is Read,
                Stage::Clock(_) => reply is Now,
                Stage::Liveness(_) => reply is Alive,
                Stage::Peer(_) => reply is Peer,
                Stage::Backfill(_) => reply is Identity,
                Stage::Identity(_) => reply is Identity,
                Stage::Publishing => reply is Written || reply is WriteFailed,
                Stage::Rewriting(_) => reply is Written || reply is WriteFailed,
                Stage::Removing => reply is Removed,
                Stage::Finished(_) => true,
            };
            !awaited ==> crate::generation::next_stage(request, stage, reply) == Stage::Finished(
                Outcome::Failed(RegistryError::UnexpectedReply),
            )
        }),
{
}

/// A record is written only in the stages that wait for it to be written, and the
/// socket that is asked for its peer is the requested one.
pub proof fn nothing_else_is_written_or_asked(op: Operation)
    ensures
        crate::generation::to_write(op) is Some <==> op.stage is Rewriting || (op.stage is Publishing
            && op.request is Save),
        op.stage matches Stage::Rewriting(record) ==> crate::generation::to_write(op) == Some(
            record,
        ),
        op.stage is Publishing && op.request is Save ==> crate::generation::to_write(op) == Some(
            op.request->Save_record,
        ),
        crate::generation::socket_to_probe(op) is Some <==> op.stage is Peer
            && op.request is Authenticate,
        op.stage is Peer && op.request is Authenticate ==> crate::generation::socket_to_probe(op)
            == Some(op.request->Authenticate_socket_path.text@),
{
}

/// The session whose lock and files an operation works on is the one that its
/// request names.
pub proof fn operations_work_on_the_named_session(request: Request)
    ensures
        match request {
            Request::Save { record } => crate::generation::session_of(request)
                == record.session_id@,
            Request::Delete { session_id } => crate::generation::session_of(request)
                == session_id@,
            Request::DeleteMatching { session_id, .. } => crate::generation::session_of(request)
                == session_id@,
            Request::DeleteDead { record } => crate::generation::session_of(request)
                == record.session_id@,
            Request::Authenticate { session_id, .. } => crate::generation::session_of(request)
                == session_id@,
            Request::AuthenticateSpawned { session_id, .. } => crate::generation::session_of(
                request,
            ) == session_id@,
            Request::Update { expected, .. } => crate::generation::session_of(request)
                == expected.session_id@,
        },
{
}

/// An operation begins by waiting for the lock, for exactly what was requested,
/// and it begins exactly for valid session ids.
pub proof fn operations_begin_at_the_lock(r: Result<Operation, RegistryError>, request: Request)
    requires
        crate::generation::begins(r, request),
    ensures
        r is Ok <==> crate::paths::valid_session_id(crate::generation::session_of(request)),
        r matches Ok(op) ==> op.request == request && op.stage == Stage::Locking,
        r matches Err(e) ==> e == RegistryError::InvalidSessionId,
{
}

}
