//! The record of one detached worker, and what can be read off it.

use crate::paths::{same_path, WorkerPath};
use crate::text::text_eq;
use vstd::prelude::*;

verus! {

/// The schema version of the records on disk. Bumped when the schema changes
/// incompatibly.
pub const RUNNER_VERSION: u32 = 1;

/// Who owns a detached worker process and how it is dialed.
#[derive(Clone, Debug)]
pub struct WorkerRecord {
    pub runner_version: u32,
    /// Build identity of the binary that wrote the record. Empty on records that
    /// are older than the field.
    pub build_version: String,
    pub session_id: String,
    /// Process id of the runner.
    pub pid: u32,
    /// Start time of the runner's process, which tells a reused process id from
    /// the process itself. Absent on records that are older than the field.
    pub process_start_identity: Option<u64>,
    pub socket_path: WorkerPath,
    /// Name of the command that the runner was invoked with.
    pub agent_name: String,
    /// Registry key of the agent. Empty on records that are older than the field.
    pub agent_key: String,
    pub cwd: String,
    pub model: Option<String>,
    pub additional_dirs: Vec<String>,
    /// Keys, not values, of the provider environment passed through at spawn.
    pub provider_env_keys: Vec<String>,
    /// The id that the agent assigned to the session, used to resume it.
    pub stored_acp_session_id: Option<String>,
    /// The profile that the session was created under.
    pub source_profile: Option<String>,
    pub started_at: u64,
    pub last_attached_at: Option<u64>,
    pub detached_at: Option<u64>,
}

impl WorkerRecord {
    /// A record of the current schema for a worker that has just started: built
    /// by `build_version`, running since `now` as the process that
    /// `process_start_identity` identifies, never attached and never detached.
    #[allow(clippy::too_many_arguments)]
    pub fn new(
        session_id: String,
        pid: u32,
        socket_path: WorkerPath,
        agent_name: String,
        agent_key: String,
        cwd: String,
        model: Option<String>,
        additional_dirs: Vec<String>,
        provider_env_keys: Vec<String>,
        stored_acp_session_id: Option<String>,
        source_profile: Option<String>,
        build_version: String,
        process_start_identity: Option<u64>,
        now: u64,
    ) -> (r: Self)
        ensures
            r == (WorkerRecord {
                runner_version: RUNNER_VERSION,
                build_version,
                session_id,
                pid,
                process_start_identity,
                socket_path,
                agent_name,
                agent_key,
                cwd,
                model,
                additional_dirs,
                provider_env_keys,
                stored_acp_session_id,
                source_profile,
                started_at: now,
                last_attached_at: None,
                detached_at: None,
            }),
    {
        WorkerRecord {
            runner_version: RUNNER_VERSION,
            build_version,
            session_id,
            pid,
            process_start_identity,
            socket_path,
            agent_name,
            agent_key,
            cwd,
            model,
            additional_dirs,
            provider_env_keys,
            stored_acp_session_id,
            source_profile,
            started_at: now,
            last_attached_at: None,
            detached_at: None,
        }
    }
}

/// Whether two records describe the same generation of the same worker: the
/// same process of the same session, started at the same time and listening on
/// the same socket.
pub open spec fn is_same_generation(current: WorkerRecord, expected: WorkerRecord) -> bool {
    &&& current.session_id@ == expected.session_id@
    &&& current.pid == expected.pid
    &&& current.process_start_identity == expected.process_start_identity
    &&& crate::paths::paths_equal(current.socket_path, expected.socket_path)
    &&& current.started_at == expected.started_at
}

/// Whether two records describe the same generation of the same worker.
pub fn same_generation(current: &WorkerRecord, expected: &WorkerRecord) -> (r: bool)
    ensures
        r == is_same_generation(*current, *expected),
        r == (current.session_id@ == expected.session_id@ && current.pid == expected.pid
            && current.process_start_identity == expected.process_start_identity
            && crate::text::texts(current.socket_path.components@) == crate::text::texts(
            expected.socket_path.components@,
        ) && current.started_at == expected.started_at),
{
    text_eq(current.session_id.as_str(), expected.session_id.as_str()) && current.pid
        == expected.pid && current.process_start_identity == expected.process_start_identity
        && same_path(&current.socket_path, &expected.socket_path)
        && current.started_at == expected.started_at
}

/// Whether the record was written by the build `build_version`.
pub open spec fn is_built_by(rec: WorkerRecord, build_version: Seq<char>) -> bool {
    rec.build_version@ == build_version
}

/// Whether the record was written by the build `build_version`. A worker of
/// another build is stale, not dead.
pub fn is_build_current(rec: &WorkerRecord, build_version: &str) -> (r: bool)
    ensures
        r == is_built_by(*rec, build_version@),
        r == (rec.build_version@ == build_version@),
{
    text_eq(rec.build_version.as_str(), build_version)
}

/// What asking for a file's metadata gave.
#[derive(Clone, Copy, Debug, PartialEq, Eq, Structural)]
pub enum MetadataProbe {
    Found,
    NotFound,
    Failed,
}

/// Whether a socket file counts as present: always, but when it was found
/// missing.
pub fn socket_exists(probe: MetadataProbe) -> (r: bool)
    ensures
        r == (probe != MetadataProbe::NotFound),
{
    match probe {
        MetadataProbe::NotFound => false,
        _ => true,
    }
}

/// Whether a worker can be dialed: its record has the current schema, its
/// process is alive and its socket file is not missing.
pub open spec fn is_live(rec: WorkerRecord, pid_alive: bool, socket: MetadataProbe) -> bool {
    rec.runner_version == RUNNER_VERSION && pid_alive && socket != MetadataProbe::NotFound
}

/// Whether a worker can be dialed.
pub fn is_record_live(rec: &WorkerRecord, pid_alive: bool, socket: MetadataProbe) -> (r: bool)
    ensures
        r == is_live(*rec, pid_alive, socket),
        r == (rec.runner_version == 1 && pid_alive && !(socket is NotFound)),
{
    rec.runner_version == RUNNER_VERSION && pid_alive && socket_exists(socket)
}

/// Whether the worker was detached and has not been attached since. One that was
/// never attached counts as attached at time zero.
pub open spec fn is_detached(rec: WorkerRecord) -> bool {
    rec.detached_at matches Some(detached) && (match rec.last_attached_at {
        Some(attached) => attached <= detached,
        None => true,
    })
}

/// The state that the worker listings show.
pub fn worker_state_label(rec: &WorkerRecord, live: bool) -> (r: &'static str)
    ensures
        r@ == (if !live {
            "dead"@
        } else if is_detached(*rec) {
            "detached"@
        } else {
            "attached"@
        }),
        !live ==> r@ == "dead"@,
        live && rec.detached_at is None ==> r@ == "attached"@,
        live && rec.detached_at is Some ==> r@ == (if (match rec.last_attached_at {
            Some(attached) => attached,
            None => 0,
        }) <= rec.detached_at->0 {
            "detached"@
        } else {
            "attached"@
        }),
{
    if !live {
        return "dead";
    }
    match rec.detached_at {
        Some(detached) => {
            if rec.last_attached_at.unwrap_or(0) <= detached {
                "detached"
            } else {
                "attached"
            }
        },
        None => "attached",
    }
}

/// Being of the same generation is an equivalence: a record is of its own
/// generation, and two records that are of the generation of a third are of each
/// other's.
pub proof fn generations_partition_the_records(a: WorkerRecord, b: WorkerRecord, c: WorkerRecord)
    ensures
        is_same_generation(a, a),
        is_same_generation(a, b) ==> is_same_generation(b, a),
        is_same_generation(a, b) && is_same_generation(b, c) ==> is_same_generation(a, c),
{
}

/// What an attachment, a detachment or the agent-side session id says has no part
/// in a record's generation, and neither has its build.
pub proof fn bookkeeping_keeps_the_generation(
    rec: WorkerRecord,
    build_version: String,
    stored_acp_session_id: Option<String>,
    last_attached_at: Option<u64>,
    detached_at: Option<u64>,
)
    ensures
        is_same_generation(
            WorkerRecord {
                build_version,
                stored_acp_session_id,
                last_attached_at,
                detached_at,
                ..rec
            },
            rec,
        ),
{
}

/// A record that is older than the build field is stale for every build.
pub proof fn records_without_a_build_are_stale(rec: WorkerRecord, build_version: Seq<char>)
    requires
        rec.build_version@.len() == 0,
        build_version.len() > 0,
    ensures
        !is_built_by(rec, build_version),
{
}

/// Whether a worker is live does not depend on its build: a stale worker with
/// work in hand does not look dead.
pub proof fn stale_workers_stay_live(
    rec: WorkerRecord,
    build_version: String,
    pid_alive: bool,
    socket: MetadataProbe,
)
    ensures
        is_live(WorkerRecord { build_version, ..rec }, pid_alive, socket) == is_live(
            rec,
            pid_alive,
            socket,
        ),
{
}

/// Whether a worker is live depends on nothing of its record but the schema
/// version: two records with the same one are equally live for the same process
/// and the same socket, detached or not.
pub proof fn liveness_depends_on_the_schema_alone(
    a: WorkerRecord,
    b: WorkerRecord,
    pid_alive: bool,
    socket: MetadataProbe,
)
    requires
        a.runner_version == b.runner_version,
    ensures
        is_live(a, pid_alive, socket) == is_live(b, pid_alive, socket),
{
}

/// A record of the current schema, which is version 1, is live exactly while its
/// process is alive and its socket is not found missing; one of another schema
/// never is.
pub proof fn liveness_is_schema_process_and_socket(
    rec: WorkerRecord,
    pid_alive: bool,
    socket: MetadataProbe,
)
    ensures
        rec.runner_version != 1 ==> !is_live(rec, pid_alive, socket),
        rec.runner_version == 1 ==> is_live(rec, true, MetadataProbe::Found),
        rec.runner_version == 1 ==> is_live(rec, true, MetadataProbe::Failed),
        !is_live(rec, false, socket),
        !is_live(rec, pid_alive, MetadataProbe::NotFound),
{
}

/// Two records are of one generation exactly where they agree in session id,
/// process id, process start, socket and start.
pub proof fn a_generation_is_five_fields(a: WorkerRecord, b: WorkerRecord)
    ensures
        is_same_generation(a, b) <==> {
            &&& a.session_id@ == b.session_id@
            &&& a.pid == b.pid
            &&& a.process_start_identity == b.process_start_identity
            &&& crate::text::texts(a.socket_path.components@) == crate::text::texts(
                b.socket_path.components@,
            )
            &&& a.started_at == b.started_at
        },
{
}

/// A worker is detached exactly where it has been detached, and not attached at a
/// later time: nothing else of its record counts, and a later attachment than the
/// detachment always ends it.
pub proof fn detachment_is_a_matter_of_two_times(rec: WorkerRecord, detached: u64, attached: u64)
    ensures
        !is_detached(WorkerRecord { detached_at: None, ..rec }),
        is_detached(
            WorkerRecord { detached_at: Some(detached), last_attached_at: None, ..rec },
        ),
        is_detached(
            WorkerRecord {
                detached_at: Some(detached),
                last_attached_at: Some(attached),
                ..rec
            },
        ) <==> attached <= detached,
{
}

/// A record is current for one build: the one whose identity it carries.
pub proof fn records_have_one_build(rec: WorkerRecord, a: Seq<char>, b: Seq<char>)
    ensures
        is_built_by(rec, rec.build_version@),
        is_built_by(rec, a) && is_built_by(rec, b) ==> a == b,
{
}

}
