//! Operations on the generation record of one session.
//!
//! An operation works under the session's generation lock, re-reads the record
//! and decides what may happen to it. It is a state machine: its stage says what
//! it waits for, [`Operation::pending`] says what its host has to do next, and
//! [`Operation::advance`] takes the host's reply. The host performs the work and
//! nothing else; it drops the lock when the operation has finished.
//!
//! Some systems tell when a process was started and which process listens on a
//! socket, as Linux and macOS do. On such a system a request `proves_processes`; on
//! another one what the record says has to do.

use crate::error::RegistryError;
use crate::paths::{copy_path, same_path, validate_session_id, WorkerPath};
use crate::record::{same_generation, WorkerRecord};
use crate::text::text_eq;
use vstd::prelude::*;

verus! {

/// What became of a conditional deletion.
#[derive(Clone, Copy, Debug, PartialEq, Eq, Structural)]
pub enum GenerationDeleteOutcome {
    /// The named generation was current and its files were removed.
    Deleted,
    /// There was no record.
    Missing,
    /// The record, or the process behind it, is not the named generation.
    Changed,
}

/// What reading a record file gave.
#[derive(Debug)]
pub enum RecordRead {
    /// There is no such file.
    Absent,
    /// The file could not be read.
    Unreadable,
    /// The file holds no worker record.
    Malformed,
    Record(WorkerRecord),
}

/// How an update changes a record.
#[derive(Debug)]
pub enum Change {
    /// Attached at the time of the update, and no longer detached.
    Attached,
    /// Detached at the time of the update.
    Detached,
    /// The agent-side session id is this one.
    AcpSession(Option<String>),
}

/// What is asked for.
#[derive(Debug)]
pub enum Request {
    /// Replace the session's record by this one.
    Save { record: WorkerRecord },
    /// Remove the session's files.
    Delete { session_id: String },
    /// Remove the session's files if its record is the named generation and its
    /// process is not proved to be another one.
    DeleteMatching {
        session_id: String,
        pid: u32,
        socket_path: WorkerPath,
        started_at: Option<u64>,
        process_start_identity: Option<u64>,
        proves_processes: bool,
    },
    /// Remove the session's files if its record is the generation of `record`
    /// and its process is gone.
    DeleteDead { record: WorkerRecord },
    /// Give back the session's record if it is still the generation of `record`
    /// and, where processes are proved, the process behind it is the recorded one.
    Authenticate {
        record: WorkerRecord,
        session_id: String,
        socket_path: WorkerPath,
        connected_peer_pid: Option<u32>,
        proves_processes: bool,
    },
    /// Give back the record that a runner published after it was spawned, if it
    /// is proved to be that runner's.
    AuthenticateSpawned {
        session_id: String,
        pid: u32,
        socket_path: WorkerPath,
        process_start_identity: Option<u64>,
        peer_pid: Option<u32>,
        proves_processes: bool,
    },
    /// Change the session's record if it is the generation of `expected`.
    Update { expected: WorkerRecord, change: Change },
}

/// How an operation ended.
#[derive(Debug)]
pub enum Outcome {
    Saved,
    Deleted(GenerationDeleteOutcome),
    /// The authenticated record, or none if authentication failed.
    Authenticated(Option<WorkerRecord>),
    /// Whether the record was changed.
    Updated(bool),
    Failed(RegistryError),
}

/// How far an operation has come.
#[derive(Debug)]
pub enum Stage {
    /// Waits for the session's generation lock.
    Locking,
    /// Waits for the session's record to be read.
    Reading,
    /// Holds the record read and waits for the current time.
    Clock(WorkerRecord),
    /// Holds the record read and waits to hear whether its process is alive.
    Liveness(WorkerRecord),
    /// Holds the record read and waits for the process id of the peer on the
    /// requested socket.
    Peer(WorkerRecord),
    /// Holds the record read, which names no process start, and waits for it.
    Backfill(WorkerRecord),
    /// Holds the record and waits for its process's start as of now.
    Identity(WorkerRecord),
    /// Waits for the requested record to be written.
    Publishing,
    /// Waits for this changed record to be written.
    Rewriting(WorkerRecord),
    /// Waits for the session's files to be removed.
    Removing,
    Finished(Outcome),
}

/// What the host is asked to do next.
#[derive(Clone, Copy, Debug, PartialEq, Eq, Structural)]
pub enum Pending {
    AcquireLock,
    ReadRecord,
    ReadClock,
    /// Say whether the process is alive.
    ProbeAlive(u32),
    /// Say which process listens on [`Operation::peer_socket`].
    ProbePeer,
    /// Say when the process was started.
    ProbeIdentity(u32),
    /// Write [`Operation::record_to_write`].
    WriteRecord,
    RemoveFiles,
    /// Nothing: the operation has finished.
    Nothing,
}

/// What the host answers.
#[derive(Debug)]
pub enum Reply {
    Locked,
    LockFailed,
    Read(RecordRead),
    Now(u64),
    Alive(bool),
    Peer(Option<u32>),
    Identity(Option<u64>),
    Written,
    WriteFailed,
    Removed,
}

/// An operation on its way.
#[derive(Debug)]
pub struct Operation {
    pub request: Request,
    pub stage: Stage,
}

/// The session that a request is about.
pub open spec fn session_of(request: Request) -> Seq<char> {
    match request {
        Request::Save { record } => record.session_id@,
        Request::Delete { session_id } => session_id@,
        Request::DeleteMatching { session_id, .. } => session_id@,
        Request::DeleteDead { record } => record.session_id@,
        Request::Authenticate { session_id, .. } => session_id@,
        Request::AuthenticateSpawned { session_id, .. } => session_id@,
        Request::Update { expected, .. } => expected.session_id@,
    }
}

/// Whether `current` is the generation that a request names.
pub open spec fn names(request: Request, current: WorkerRecord) -> bool {
    match request {
        Request::Save { .. } => false,
        Request::Delete { .. } => false,
        Request::DeleteMatching {
            session_id,
            pid,
            socket_path,
            started_at,
            process_start_identity,
            ..
        } => {
            &&& current.session_id@ == session_id@
            &&& current.pid == pid
            &&& current.process_start_identity == process_start_identity
            &&& crate::paths::paths_equal(current.socket_path, socket_path)
            &&& started_at matches Some(started) ==> current.started_at == started
        },
        Request::DeleteDead { record } => crate::record::is_same_generation(current, record),
        Request::Authenticate { record, session_id, socket_path, .. } => {
            &&& current.session_id@ == session_id@
            &&& current.pid == record.pid
            &&& crate::paths::paths_equal(current.socket_path, socket_path)
            &&& current.started_at == record.started_at
            &&& current.process_start_identity == record.process_start_identity
        },
        Request::AuthenticateSpawned {
            session_id,
            pid,
            socket_path,
            process_start_identity,
            peer_pid,
            ..
        } => {
            &&& current.session_id@ == session_id@
            &&& current.pid == pid
            &&& crate::paths::paths_equal(current.socket_path, socket_path)
            &&& peer_pid == Some(current.pid)
            &&& process_start_identity is Some ==> current.process_start_identity
                == process_start_identity
        },
        Request::Update { expected, .. } => crate::record::is_same_generation(current, expected),
    }
}

/// How a request ends that found no record, or one that it may not touch.
pub open spec fn refusal(request: Request, delete: GenerationDeleteOutcome) -> Outcome {
    match request {
        Request::Save { .. } => Outcome::Failed(RegistryError::UnexpectedReply),
        Request::Delete { .. } => Outcome::Failed(RegistryError::UnexpectedReply),
        Request::DeleteMatching { .. } => Outcome::Deleted(delete),
        Request::DeleteDead { .. } => Outcome::Deleted(delete),
        Request::Authenticate { .. } => Outcome::Authenticated(None),
        Request::AuthenticateSpawned { .. } => Outcome::Authenticated(None),
        Request::Update { .. } => Outcome::Updated(false),
    }
}

/// The stage in which a reply came that answers nothing.
pub open spec fn unexpected() -> Stage {
    Stage::Finished(Outcome::Failed(RegistryError::UnexpectedReply))
}

/// Under the lock: an unconditional request acts, any other one reads first.
pub open spec fn after_lock(request: Request) -> Stage {
    match request {
        Request::Save { .. } => Stage::Publishing,
        Request::Delete { .. } => Stage::Removing,
        _ => Stage::Reading,
    }
}

/// With the peer's process id: it has to be the recorded one, and a record that
/// names no process start gets one first.
pub open spec fn after_peer(current: WorkerRecord, peer: Option<u32>) -> Stage {
    if peer != Some(current.pid) {
        Stage::Finished(Outcome::Authenticated(None))
    } else if current.process_start_identity is None {
        Stage::Backfill(current)
    } else {
        Stage::Identity(current)
    }
}

/// With what reading the record gave: a record that cannot be authenticated
/// fails the operation, and one that is not the named generation is left alone.
pub open spec fn after_read(request: Request, read: RecordRead) -> Stage {
    match read {
        RecordRead::Unreadable => Stage::Finished(Outcome::Failed(RegistryError::Read)),
        RecordRead::Malformed => Stage::Finished(Outcome::Failed(RegistryError::Parse)),
        RecordRead::Absent => Stage::Finished(refusal(request, GenerationDeleteOutcome::Missing)),
        RecordRead::Record(current) => if !names(request, current) {
            Stage::Finished(refusal(request, GenerationDeleteOutcome::Changed))
        } else {
            match request {
                Request::DeleteMatching { proves_processes, .. } => if proves_processes {
                    Stage::Identity(current)
                } else {
                    Stage::Removing
                },
                Request::DeleteDead { .. } => Stage::Liveness(current),
                Request::Authenticate {
                    connected_peer_pid,
                    proves_processes,
                    ..
                } => if !proves_processes {
                    Stage::Finished(Outcome::Authenticated(Some(current)))
                } else if connected_peer_pid is Some {
                    after_peer(current, connected_peer_pid)
                } else {
                    Stage::Peer(current)
                },
                Request::AuthenticateSpawned { proves_processes, .. } => if !proves_processes {
                    Stage::Finished(Outcome::Authenticated(Some(current)))
                } else if current.process_start_identity is Some {
                    Stage::Identity(current)
                } else {
                    Stage::Finished(Outcome::Authenticated(None))
                },
                Request::Update { change: Change::AcpSession(id), .. } => Stage::Rewriting(
                    WorkerRecord { stored_acp_session_id: id, ..current },
                ),
                Request::Update { .. } => Stage::Clock(current),
                _ => unexpected(),
            }
        },
    }
}

/// With the current time: the record as the update leaves it.
pub open spec fn after_clock(request: Request, current: WorkerRecord, now: u64) -> Stage {
    match request {
        Request::Update { change: Change::Attached, .. } => Stage::Rewriting(
            WorkerRecord { last_attached_at: Some(now), detached_at: None, ..current },
        ),
        Request::Update { change: Change::Detached, .. } => Stage::Rewriting(
            WorkerRecord { detached_at: Some(now), ..current },
        ),
        _ => unexpected(),
    }
}

/// With the start of the process that runs under the recorded process id now, if
/// there is one: a deletion must not hit another process, and an authentication
/// needs exactly the recorded one.
pub open spec fn after_identity(
    request: Request,
    current: WorkerRecord,
    live: Option<u64>,
) -> Stage {
    match request {
        Request::DeleteMatching { process_start_identity, .. } => if live is Some && live
            != process_start_identity {
            Stage::Finished(Outcome::Deleted(GenerationDeleteOutcome::Changed))
        } else {
            Stage::Removing
        },
        Request::DeleteDead { .. } => if live is Some {
            Stage::Finished(Outcome::Deleted(GenerationDeleteOutcome::Changed))
        } else {
            Stage::Removing
        },
        Request::Authenticate { .. } | Request::AuthenticateSpawned { .. } => Stage::Finished(
            Outcome::Authenticated(
                if current.process_start_identity == live {
                    Some(current)
                } else {
                    None
                },
            ),
        ),
        _ => unexpected(),
    }
}

/// With the changed record written.
pub open spec fn after_rewrite(request: Request, record: WorkerRecord) -> Stage {
    match request {
        Request::Authenticate { .. } => Stage::Identity(record),
        Request::Update { .. } => Stage::Finished(Outcome::Updated(true)),
        _ => unexpected(),
    }
}

/// The stage that a reply leads to. A reply that does not answer what was asked
/// for fails the operation, and a finished operation stays as it is.
pub open spec fn next_stage(request: Request, stage: Stage, reply: Reply) -> Stage {
    match (stage, reply) {
        (Stage::Finished(outcome), _) => Stage::Finished(outcome),
        (Stage::Locking, Reply::Locked) => after_lock(request),
        (Stage::Locking, Reply::LockFailed) => Stage::Finished(
            Outcome::Failed(RegistryError::Lock),
        ),
        (Stage::Reading, Reply::Read(read)) => after_read(request, read),
        (Stage::Clock(current), Reply::Now(now)) => after_clock(request, current, now),
        (Stage::Liveness(current), Reply::Alive(alive)) => if alive {
            Stage::Finished(Outcome::Deleted(GenerationDeleteOutcome::Changed))
        } else {
            Stage::Identity(current)
        },
        (Stage::Peer(current), Reply::Peer(peer)) => after_peer(current, peer),
        (Stage::Backfill(current), Reply::Identity(live)) => match live {
            Some(_) => Stage::Rewriting(WorkerRecord { process_start_identity: live, ..current }),
            None => Stage::Finished(Outcome::Authenticated(None)),
        },
        (Stage::Identity(current), Reply::Identity(live)) => after_identity(request, current, live),
        (Stage::Publishing, Reply::Written) => Stage::Finished(Outcome::Saved),
        (Stage::Rewriting(record), Reply::Written) => after_rewrite(request, record),
        (Stage::Publishing, Reply::WriteFailed) | (Stage::Rewriting(_), Reply::WriteFailed) =>
            Stage::Finished(Outcome::Failed(RegistryError::Write)),
        (Stage::Removing, Reply::Removed) => Stage::Finished(
            Outcome::Deleted(GenerationDeleteOutcome::Deleted),
        ),
        _ => unexpected(),
    }
}

/// What an operation asks its host to do.
pub open spec fn pending_of(stage: Stage) -> Pending {
    match stage {
        Stage::Locking => Pending::AcquireLock,
        Stage::Reading => Pending::ReadRecord,
        Stage::Clock(_) => Pending::ReadClock,
        Stage::Liveness(current) => Pending::ProbeAlive(current.pid),
        Stage::Peer(_) => Pending::ProbePeer,
        Stage::Backfill(current) => Pending::ProbeIdentity(current.pid),
        Stage::Identity(current) => Pending::ProbeIdentity(current.pid),
        Stage::Publishing => Pending::WriteRecord,
        Stage::Rewriting(_) => Pending::WriteRecord,
        Stage::Removing => Pending::RemoveFiles,
        Stage::Finished(_) => Pending::Nothing,
    }
}

/// The record that an operation wants written.
pub open spec fn to_write(op: Operation) -> Option<WorkerRecord> {
    match (op.request, op.stage) {
        (Request::Save { record }, Stage::Publishing) => Some(record),
        (_, Stage::Rewriting(record)) => Some(record),
        _ => None,
    }
}

/// The socket whose peer an operation wants to be told.
pub open spec fn socket_to_probe(op: Operation) -> Option<Seq<char>> {
    match (op.request, op.stage) {
        (Request::Authenticate { socket_path, .. }, Stage::Peer(_)) => Some(socket_path.text@),
        _ => None,
    }
}

/// Whether `current` is the generation that a request names.
fn names_generation(request: &Request, current: &WorkerRecord) -> (r: bool)
    ensures
        r == names(*request, *current),
{
    match request {
        Request::Save { .. } => false,
        Request::Delete { .. } => false,
        Request::DeleteMatching {
            session_id,
            pid,
            socket_path,
            started_at,
            process_start_identity,
            ..
        } => {
            text_eq(current.session_id.as_str(), session_id.as_str()) && current.pid == *pid
                && current.process_start_identity == *process_start_identity && same_path(
                &current.socket_path,
                socket_path,
            ) && (match started_at {
                Some(started) => current.started_at == *started,
                None => true,
            })
        },
        Request::DeleteDead { record } => same_generation(current, record),
        Request::Authenticate { record, session_id, socket_path, .. } => {
            text_eq(current.session_id.as_str(), session_id.as_str()) && current.pid == record.pid
                && same_path(&current.socket_path, socket_path)
                && current.started_at == record.started_at && current.process_start_identity
                == record.process_start_identity
        },
        Request::AuthenticateSpawned {
            session_id,
            pid,
            socket_path,
            process_start_identity,
            peer_pid,
            ..
        } => {
            text_eq(current.session_id.as_str(), session_id.as_str()) && current.pid == *pid
                && same_path(&current.socket_path, socket_path) && *peer_pid
                == Some(current.pid) && (process_start_identity.is_none()
                || current.process_start_identity == *process_start_identity)
        },
        Request::Update { expected, .. } => same_generation(current, expected),
    }
}

fn refuse(request: &Request, delete: GenerationDeleteOutcome) -> (r: Stage)
    ensures
        r == Stage::Finished(refusal(*request, delete)),
{
    Stage::Finished(
        match request {
            Request::Save { .. } => Outcome::Failed(RegistryError::UnexpectedReply),
            Request::Delete { .. } => Outcome::Failed(RegistryError::UnexpectedReply),
            Request::DeleteMatching { .. } => Outcome::Deleted(delete),
            Request::DeleteDead { .. } => Outcome::Deleted(delete),
            Request::Authenticate { .. } => Outcome::Authenticated(None),
            Request::AuthenticateSpawned { .. } => Outcome::Authenticated(None),
            Request::Update { .. } => Outcome::Updated(false),
        },
    )
}

fn check_peer(current: WorkerRecord, peer: Option<u32>) -> (r: Stage)
    ensures
        r == after_peer(current, peer),
{
    if peer != Some(current.pid) {
        Stage::Finished(Outcome::Authenticated(None))
    } else if current.process_start_identity.is_none() {
        Stage::Backfill(current)
    } else {
        Stage::Identity(current)
    }
}

fn check_read(request: &Request, read: RecordRead) -> (r: Stage)
    ensures
        r == after_read(*request, read),
{
    match read {
        RecordRead::Unreadable => Stage::Finished(Outcome::Failed(RegistryError::Read)),
        RecordRead::Malformed => Stage::Finished(Outcome::Failed(RegistryError::Parse)),
        RecordRead::Absent => refuse(request, GenerationDeleteOutcome::Missing),
        RecordRead::Record(current) => {
            if !names_generation(request, &current) {
                return refuse(request, GenerationDeleteOutcome::Changed);
            }
            match request {
                Request::DeleteMatching { proves_processes, .. } => {
                    if *proves_processes {
                        Stage::Identity(current)
                    } else {
                        Stage::Removing
                    }
                },
                Request::DeleteDead { .. } => Stage::Liveness(current),
                Request::Authenticate { connected_peer_pid, proves_processes, .. } => {
                    if !*proves_processes {
                        Stage::Finished(Outcome::Authenticated(Some(current)))
                    } else if connected_peer_pid.is_some() {
                        check_peer(current, *connected_peer_pid)
                    } else {
                        Stage::Peer(current)
                    }
                },
                Request::AuthenticateSpawned { proves_processes, .. } => {
                    if !*proves_processes {
                        Stage::Finished(Outcome::Authenticated(Some(current)))
                    } else if current.process_start_identity.is_some() {
                        Stage::Identity(current)
                    } else {
                        Stage::Finished(Outcome::Authenticated(None))
                    }
                },
                Request::Update { change, .. } => match change {
                    Change::AcpSession(id) => Stage::Rewriting(
                        WorkerRecord { stored_acp_session_id: id.clone(), ..current },
                    ),
                    _ => Stage::Clock(current),
                },
                _ => Stage::Finished(Outcome::Failed(RegistryError::UnexpectedReply)),
            }
        },
    }
}

fn check_clock(request: &Request, current: WorkerRecord, now: u64) -> (r: Stage)
    ensures
        r == after_clock(*request, current, now),
{
    match request {
        Request::Update { change: Change::Attached, .. } => Stage::Rewriting(
            WorkerRecord { last_attached_at: Some(now), detached_at: None, ..current },
        ),
        Request::Update { change: Change::Detached, .. } => Stage::Rewriting(
            WorkerRecord { detached_at: Some(now), ..current },
        ),
        _ => Stage::Finished(Outcome::Failed(RegistryError::UnexpectedReply)),
    }
}

fn check_identity(request: &Request, current: WorkerRecord, live: Option<u64>) -> (r: Stage)
    ensures
        r == after_identity(*request, current, live),
{
    match request {
        Request::DeleteMatching { process_start_identity, .. } => {
            if live.is_some() && live != *process_start_identity {
                Stage::Finished(Outcome::Deleted(GenerationDeleteOutcome::Changed))
            } else {
                Stage::Removing
            }
        },
        Request::DeleteDead { .. } => {
            if live.is_some() {
                Stage::Finished(Outcome::Deleted(GenerationDeleteOutcome::Changed))
            } else {
                Stage::Removing
            }
        },
        Request::Authenticate { .. } | Request::AuthenticateSpawned { .. } => {
            if current.process_start_identity == live {
                Stage::Finished(Outcome::Authenticated(Some(current)))
            } else {
                Stage::Finished(Outcome::Authenticated(None))
            }
        },
        _ => Stage::Finished(Outcome::Failed(RegistryError::UnexpectedReply)),
    }
}

impl Operation {
    /// The operation after the host's reply.
    pub fn advance(self, reply: Reply) -> (r: Operation)
        ensures
            r.request == self.request,
            r.stage == next_stage(self.request, self.stage, reply),
    {
        let Operation { request, stage } = self;
        let stage = match (stage, reply) {
            (Stage::Finished(outcome), _) => Stage::Finished(outcome),
            (Stage::Locking, Reply::Locked) => match request {
                Request::Save { .. } => Stage::Publishing,
                Request::Delete { .. } => Stage::Removing,
                _ => Stage::Reading,
            },
            (Stage::Locking, Reply::LockFailed) => Stage::Finished(
                Outcome::Failed(RegistryError::Lock),
            ),
            (Stage::Reading, Reply::Read(read)) => check_read(&request, read),
            (Stage::Clock(current), Reply::Now(now)) => check_clock(&request, current, now),
            (Stage::Liveness(current), Reply::Alive(alive)) => if alive {
                Stage::Finished(Outcome::Deleted(GenerationDeleteOutcome::Changed))
            } else {
                Stage::Identity(current)
            },
            (Stage::Peer(current), Reply::Peer(peer)) => check_peer(current, peer),
            (Stage::Backfill(current), Reply::Identity(live)) => match live {
                Some(_) => Stage::Rewriting(
                    WorkerRecord { process_start_identity: live, ..current },
                ),
                None => Stage::Finished(Outcome::Authenticated(None)),
            },
            (Stage::Identity(current), Reply::Identity(live)) => check_identity(
                &request,
                current,
                live,
            ),
            (Stage::Publishing, Reply::Written) => Stage::Finished(Outcome::Saved),
            (Stage::Rewriting(record), Reply::Written) => match request {
                Request::Authenticate { .. } => Stage::Identity(record),
                Request::Update { .. } => Stage::Finished(Outcome::Updated(true)),
                _ => Stage::Finished(Outcome::Failed(RegistryError::UnexpectedReply)),
            },
            (Stage::Publishing, Reply::WriteFailed) => Stage::Finished(
                Outcome::Failed(RegistryError::Write),
            ),
            (Stage::Rewriting(_), Reply::WriteFailed) => Stage::Finished(
                Outcome::Failed(RegistryError::Write),
            ),
            (Stage::Removing, Reply::Removed) => Stage::Finished(
                Outcome::Deleted(GenerationDeleteOutcome::Deleted),
            ),
            _ => Stage::Finished(Outcome::Failed(RegistryError::UnexpectedReply)),
        };
        Operation { request, stage }
    }

    /// What the host has to do next.
    pub fn pending(&self) -> (r: Pending)
        ensures
            r == pending_of(self.stage),
    {
        match &self.stage {
            Stage::Locking => Pending::AcquireLock,
            Stage::Reading => Pending::ReadRecord,
            Stage::Clock(_) => Pending::ReadClock,
            Stage::Liveness(current) => Pending::ProbeAlive(current.pid),
            Stage::Peer(_) => Pending::ProbePeer,
            Stage::Backfill(current) => Pending::ProbeIdentity(current.pid),
            Stage::Identity(current) => Pending::ProbeIdentity(current.pid),
            Stage::Publishing => Pending::WriteRecord,
            Stage::Rewriting(_) => Pending::WriteRecord,
            Stage::Removing => Pending::RemoveFiles,
            Stage::Finished(_) => Pending::Nothing,
        }
    }

    /// The session whose record the operation is about.
    pub fn session_id(&self) -> (r: &str)
        ensures
            r@ == session_of(self.request),
    {
        match &self.request {
            Request::Save { record } => record.session_id.as_str(),
            Request::Delete { session_id } => session_id.as_str(),
            Request::DeleteMatching { session_id, .. } => session_id.as_str(),
            Request::DeleteDead { record } => record.session_id.as_str(),
            Request::Authenticate { session_id, .. } => session_id.as_str(),
            Request::AuthenticateSpawned { session_id, .. } => session_id.as_str(),
            Request::Update { expected, .. } => expected.session_id.as_str(),
        }
    }

    /// The socket whose peer is to be told, while one is: the requested one.
    pub fn peer_socket(&self) -> (r: Option<&str>)
        ensures
            crate::text::option_slice_text(r) == socket_to_probe(*self),
    {
        match (&self.request, &self.stage) {
            (Request::Authenticate { socket_path, .. }, Stage::Peer(_)) => Some(
                socket_path.text.as_str(),
            ),
            _ => None,
        }
    }

    /// The record to write, while one is to be written.
    pub fn record_to_write(&self) -> (r: Option<&WorkerRecord>)
        ensures
            match r {
                Some(record) => to_write(*self) == Some(*record),
                None => to_write(*self) is None,
            },
    {
        match (&self.request, &self.stage) {
            (Request::Save { record }, Stage::Publishing) => Some(record),
            (_, Stage::Rewriting(record)) => Some(record),
            _ => None,
        }
    }
}

/// Whether `r` is the beginning of an operation that does what is requested: it
/// waits for its session's lock, unless the session id is not valid.
pub open spec fn begins(r: Result<Operation, RegistryError>, request: Request) -> bool {
    match r {
        Ok(op) => crate::paths::valid_session_id(session_of(request)) && op.request == request && op.stage
            == Stage::Locking,
        Err(e) => !crate::paths::valid_session_id(session_of(request)) && e == RegistryError::InvalidSessionId,
    }
}

fn begin(request: Request) -> (r: Result<Operation, RegistryError>)
    ensures
        begins(r, request),
{
    let op = Operation { request, stage: Stage::Locking };
    match validate_session_id(op.session_id()) {
        Ok(()) => Ok(op),
        Err(e) => Err(e),
    }
}

/// Replaces the session's record by `record`.
pub fn save(record: WorkerRecord) -> (r: Result<Operation, RegistryError>)
    ensures
        begins(r, Request::Save { record }),
{
    begin(Request::Save { record })
}

/// Removes the session's record, sockets and empty log.
pub fn delete(session_id: &str) -> (r: Result<Operation, RegistryError>)
    ensures
        exists|id: String| id@ == session_id@ && #[trigger] begins(r, Request::Delete { session_id: id }),
{
    let request = Request::Delete { session_id: session_id.to_owned() };
    begin(request)
}

/// Removes the session's files if its record carries exactly this process,
/// socket and start (the start only if it is given), and if the process id is not
/// proved to belong to another process by now.
pub fn delete_generation_if_matches(
    session_id: &str,
    pid: u32,
    socket_path: WorkerPath,
    started_at: Option<u64>,
    process_start_identity: Option<u64>,
    proves_processes: bool,
) -> (r: Result<Operation, RegistryError>)
    ensures
        exists|id: String|
            id@ == session_id@ && #[trigger] begins(
                r,
                Request::DeleteMatching {
                    session_id: id,
                    pid,
                    socket_path,
                    started_at,
                    process_start_identity,
                    proves_processes,
                },
            ),
{
    begin(
        Request::DeleteMatching {
            session_id: session_id.to_owned(),
            pid,
            socket_path,
            started_at,
            process_start_identity,
            proves_processes,
        },
    )
}

/// Removes the session's files if its record is still the generation of
/// `record`, started as `process_start_identity` says.
pub fn delete_record_if_current(
    record: &WorkerRecord,
    process_start_identity: Option<u64>,
    proves_processes: bool,
) -> (r: Result<Operation, RegistryError>)
    ensures
        exists|id: String, socket: WorkerPath|
            id@ == record.session_id@ && socket.text@ == record.socket_path.text@
                && crate::paths::paths_equal(socket, record.socket_path) && #[trigger] begins(
                r,
                Request::DeleteMatching {
                    session_id: id,
                    pid: record.pid,
                    socket_path: socket,
                    started_at: Some(record.started_at),
                    process_start_identity,
                    proves_processes,
                },
            ),
{
    delete_generation_if_matches(
        record.session_id.as_str(),
        record.pid,
        copy_path(&record.socket_path),
        Some(record.started_at),
        process_start_identity,
        proves_processes,
    )
}

/// Removes the session's files if its record is still the generation of
/// `record` and no process runs under its process id.
pub fn delete_dead_record_if_current(record: WorkerRecord) -> (r: Result<Operation, RegistryError>)
    ensures
        begins(r, Request::DeleteDead { record }),
{
    begin(Request::DeleteDead { record })
}

/// Gives back the session's record if it is still the generation of `record`
/// under this session id and socket, and, where processes are proved, the peer on
/// the socket is the recorded process. There a record without a process start gets
/// one.
pub fn authenticate_generation_record(
    record: WorkerRecord,
    session_id: &str,
    socket_path: WorkerPath,
    connected_peer_pid: Option<u32>,
    proves_processes: bool,
) -> (r: Result<Operation, RegistryError>)
    ensures
        exists|id: String|
            id@ == session_id@ && #[trigger] begins(
                r,
                Request::Authenticate {
                    record,
                    session_id: id,
                    socket_path,
                    connected_peer_pid,
                    proves_processes,
                },
            ),
{
    begin(
        Request::Authenticate {
            record,
            session_id: session_id.to_owned(),
            socket_path,
            connected_peer_pid,
            proves_processes,
        },
    )
}

/// Gives back the record that the just spawned runner `pid` published: only
/// here need the start of the record not be known beforehand.
pub fn authenticate_spawned_generation(
    session_id: &str,
    pid: u32,
    socket_path: WorkerPath,
    process_start_identity: Option<u64>,
    peer_pid: Option<u32>,
    proves_processes: bool,
) -> (r: Result<Operation, RegistryError>)
    ensures
        exists|id: String|
            id@ == session_id@ && #[trigger] begins(
                r,
                Request::AuthenticateSpawned {
                    session_id: id,
                    pid,
                    socket_path,
                    process_start_identity,
                    peer_pid,
                    proves_processes,
                },
            ),
{
    begin(
        Request::AuthenticateSpawned {
            session_id: session_id.to_owned(),
            pid,
            socket_path,
            process_start_identity,
            peer_pid,
            proves_processes,
        },
    )
}

/// Changes the session's record if it is still the generation of `expected`.
pub fn update_generation_if_current(expected: WorkerRecord, change: Change) -> (r: Result<
    Operation,
    RegistryError,
>)
    ensures
        begins(r, Request::Update { expected, change }),
{
    begin(Request::Update { expected, change })
}

/// Records that the worker was attached, and that it is not detached.
pub fn mark_attached(record: WorkerRecord) -> (r: Result<Operation, RegistryError>)
    ensures
        begins(r, Request::Update { expected: record, change: Change::Attached }),
{
    update_generation_if_current(record, Change::Attached)
}

/// Records that the worker was detached.
pub fn mark_detached(record: WorkerRecord) -> (r: Result<Operation, RegistryError>)
    ensures
        begins(r, Request::Update { expected: record, change: Change::Detached }),
{
    update_generation_if_current(record, Change::Detached)
}

/// The agent-side session id to record: an empty one counts as none.
pub open spec fn acp_session_to_store(acp_id: Option<Seq<char>>) -> Option<Seq<char>> {
    match acp_id {
        Some(id) => if id.len() == 0 {
            None
        } else {
            Some(id)
        },
        None => None,
    }
}

/// Records the agent-side session id. An empty id counts as none.
pub fn update_stored_acp_session_id(record: WorkerRecord, acp_id: Option<&str>) -> (r: Result<
    Operation,
    RegistryError,
>)
    ensures
        exists|id: Option<String>|
            crate::text::option_text(id) == (match acp_id {
                Some(text) if text@.len() > 0 => Some(text@),
                _ => None,
            }) && crate::text::option_text(id) == acp_session_to_store(
                crate::text::option_slice_text(acp_id),
            ) && #[trigger] begins(
                r,
                Request::Update { expected: record, change: Change::AcpSession(id) },
            ),
{
    let id = match acp_id {
        Some(text) => if text.is_empty() {
            None
        } else {
            Some(text.to_owned())
        },
        None => None,
    };
    update_generation_if_current(record, Change::AcpSession(id))
}

/// Every agent-side session id is recorded as it is but the empty one, which, like
/// none, clears what was recorded.
pub proof fn session_ids_are_recorded_unless_empty(id: Seq<char>)
    ensures
        acp_session_to_store(None) is None,
        id.len() > 0 ==> acp_session_to_store(Some(id)) == Some(id),
        id.len() == 0 ==> acp_session_to_store(Some(id)) is None,
{
}

}
