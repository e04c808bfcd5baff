//! The worker registry, driven by a host whose file system, clock and processes
//! are in memory.

use std::collections::{BTreeMap, BTreeSet};

use aoe::error::RegistryError;
use aoe::generation::{
    authenticate_generation_record, authenticate_spawned_generation, delete,
    delete_dead_record_if_current, delete_generation_if_matches, delete_record_if_current,
    mark_attached, mark_detached, save, update_stored_acp_session_id, GenerationDeleteOutcome,
    Operation, Outcome, Pending, RecordRead, Reply, Stage,
};
use aoe::paths::{
    generation_lock_path, is_record_file_name, log_path_for, record_path, restart_marker_path,
    same_path, socket_path_for, staged_record_path, unix_directory, unix_path,
    validate_session_id, workers_dir, Directory, WorkerPath,
};
use aoe::record::{
    is_build_current, is_record_live, same_generation, socket_exists, worker_state_label,
    MetadataProbe, WorkerRecord, RUNNER_VERSION,
};
use aoe::registry::{
    delete_unlocked, list, list_existing_strict, load, load_existing_strict, pid_source_for,
    DirItem, DirRead, PidSource,
};

const BUILD_VERSION: &str = "1.9.5+g7f31a9c42e01";
const APP_DIR: &str = "/home/user/.config/agent-of-empires";
const OWN_PID: u32 = 777;
const OWN_IDENTITY: u64 = 5150;

enum Content {
    Record(WorkerRecord),
    Bytes(Vec<u8>),
    Directory,
}

struct Host {
    dir: Directory,
    files: BTreeMap<String, Content>,
    now: u64,
    alive: BTreeSet<u32>,
    identities: BTreeMap<u32, u64>,
    peers: BTreeMap<String, u32>,
    lockable: bool,
    writable: bool,
    asked: Vec<Pending>,
}

impl Host {
    fn new() -> Host {
        Host {
            dir: unix_directory(&workers_dir(&unix_directory(APP_DIR))),
            files: BTreeMap::new(),
            now: 1_700_000_000,
            alive: BTreeSet::from([OWN_PID]),
            identities: BTreeMap::from([(OWN_PID, OWN_IDENTITY)]),
            peers: BTreeMap::new(),
            lockable: true,
            writable: true,
            asked: Vec::new(),
        }
    }

    fn read(&self, session_id: &str) -> RecordRead {
        let path = record_path(&self.dir, session_id).unwrap();
        match self.files.get(&path) {
            None => RecordRead::Absent,
            Some(Content::Directory) => RecordRead::Unreadable,
            Some(Content::Bytes(_)) => RecordRead::Malformed,
            Some(Content::Record(record)) => RecordRead::Record(record.clone()),
        }
    }

    fn answer(&mut self, op: &Operation) -> Reply {
        let id = op.session_id().to_string();
        match op.pending() {
            Pending::AcquireLock => {
                if self.lockable {
                    Reply::Locked
                } else {
                    Reply::LockFailed
                }
            }
            Pending::ReadRecord => Reply::Read(self.read(&id)),
            Pending::ReadClock => Reply::Now(self.now),
            Pending::ProbeAlive(pid) => Reply::Alive(self.alive.contains(&pid)),
            Pending::ProbePeer => {
                Reply::Peer(self.peers.get(op.peer_socket().unwrap()).copied())
            }
            Pending::ProbeIdentity(pid) => Reply::Identity(self.identities.get(&pid).copied()),
            Pending::WriteRecord => {
                if !self.writable {
                    return Reply::WriteFailed;
                }
                let record = op.record_to_write().unwrap().clone();
                let path = record_path(&self.dir, &id).unwrap();
                self.files.insert(path, Content::Record(record));
                Reply::Written
            }
            Pending::RemoveFiles => {
                let log = log_path_for(&self.dir, &id).unwrap();
                let log_len = match self.files.get(&log) {
                    Some(Content::Bytes(bytes)) => Some(bytes.len() as u64),
                    _ => None,
                };
                let control = format!("{}{id}.ctl.sock", self.dir.prefix);
                for path in delete_unlocked(&self.dir, &id, &control, log_len) {
                    self.files.remove(&path);
                }
                Reply::Removed
            }
            Pending::Nothing => panic!("a finished operation asks for nothing"),
        }
    }

    fn run(&mut self, op: Result<Operation, RegistryError>) -> Outcome {
        let mut op = op.expect("a valid session id");
        loop {
            let pending = op.pending();
            self.asked.push(pending);
            if pending == Pending::Nothing {
                match op.stage {
                    Stage::Finished(outcome) => return outcome,
                    other => panic!("nothing is asked for in {other:?}"),
                }
            }
            let reply = self.answer(&op);
            op = op.advance(reply);
        }
    }

    fn deleted(&mut self, op: Result<Operation, RegistryError>) -> GenerationDeleteOutcome {
        match self.run(op) {
            Outcome::Deleted(outcome) => outcome,
            other => panic!("not a deletion: {other:?}"),
        }
    }

    fn authenticated(&mut self, op: Result<Operation, RegistryError>) -> Option<WorkerRecord> {
        match self.run(op) {
            Outcome::Authenticated(record) => record,
            other => panic!("not an authentication: {other:?}"),
        }
    }

    fn updated(&mut self, op: Result<Operation, RegistryError>) -> bool {
        match self.run(op) {
            Outcome::Updated(changed) => changed,
            other => panic!("not an update: {other:?}"),
        }
    }

    fn save(&mut self, record: &WorkerRecord) {
        assert!(matches!(self.run(save(record.clone())), Outcome::Saved));
    }

    fn load(&self, session_id: &str) -> Result<Option<WorkerRecord>, RegistryError> {
        load(session_id, self.read(session_id))
    }

    fn socket(&self, session_id: &str) -> String {
        socket_path_for(&self.dir, session_id).unwrap()
    }

    fn record(&self, session_id: &str, pid: u32, socket: &str) -> WorkerRecord {
        WorkerRecord::new(
            session_id.into(),
            pid,
            unix_path(socket),
            "aoe-agent".into(),
            "aoe-agent".into(),
            "/repo".into(),
            None,
            vec![],
            vec![],
            None,
            None,
            BUILD_VERSION.into(),
            self.identities.get(&pid).copied(),
            self.now,
        )
    }

    fn items(&self) -> Vec<DirItem> {
        self.files
            .iter()
            .map(|(path, content)| DirItem::File {
                name: path.rsplit('/').next().unwrap().to_string(),
                content: match content {
                    Content::Record(record) => RecordRead::Record(record.clone()),
                    Content::Bytes(_) => RecordRead::Malformed,
                    Content::Directory => RecordRead::Unreadable,
                },
            })
            .collect()
    }

    fn put(&mut self, name: &str, bytes: &[u8]) {
        let path = format!("{}{name}", self.dir.prefix);
        self.files.insert(path, Content::Bytes(bytes.to_vec()));
    }
}

fn text(record: &Result<Option<WorkerRecord>, RegistryError>) -> String {
    format!("{record:?}")
}

#[test]
fn roundtrip_save_load() {
    let mut host = Host::new();
    let rec = WorkerRecord::new(
        "sess-abc".into(),
        42,
        unix_path("/tmp/sock"),
        "codex-acp".into(),
        "codex".into(),
        "/repo".into(),
        Some("gpt-5.5".into()),
        vec![],
        vec!["OPENAI_API_KEY".into()],
        None,
        Some("personal".into()),
        BUILD_VERSION.into(),
        None,
        host.now,
    );
    host.save(&rec);
    let loaded = host.load("sess-abc").unwrap().unwrap();
    assert_eq!(loaded.session_id, "sess-abc");
    assert_eq!(loaded.pid, 42);
    assert_eq!(loaded.runner_version, RUNNER_VERSION);
    assert_eq!(loaded.agent_name, "codex-acp");
    assert_eq!(loaded.agent_key, "codex");
}

#[test]
fn a_new_record_is_unattached_and_started_now() {
    let host = Host::new();
    let rec = host.record("fresh", OWN_PID, "/tmp/fresh.sock");
    assert_eq!(rec.runner_version, 1);
    assert_eq!(rec.started_at, 1_700_000_000);
    assert_eq!(rec.process_start_identity, Some(OWN_IDENTITY));
    assert_eq!(rec.last_attached_at, None);
    assert_eq!(rec.detached_at, None);
    assert_eq!(rec.cwd, "/repo");
    assert_eq!(rec.socket_path.text, "/tmp/fresh.sock");
}

#[test]
fn build_version_stamped_and_current() {
    let host = Host::new();
    let rec = host.record("sess-bv", 1, "/tmp/sess-bv.sock");
    assert_eq!(rec.build_version, BUILD_VERSION);
    assert!(is_build_current(&rec, BUILD_VERSION));

    let mut stale = rec.clone();
    stale.build_version = String::new();
    assert!(
        !is_build_current(&stale, BUILD_VERSION),
        "empty (legacy) build_version must read as stale"
    );

    stale.build_version = "0.0.0+gdeadbeef".into();
    assert!(!is_build_current(&stale, BUILD_VERSION));
}

#[test]
fn source_profile_roundtrips() {
    let mut host = Host::new();
    let mut rec = host.record("sess-sp", 1, "/tmp/sess-sp.sock");
    rec.source_profile = Some("personal".into());
    host.save(&rec);
    let loaded = host.load("sess-sp").unwrap().unwrap();
    assert_eq!(loaded.source_profile.as_deref(), Some("personal"));
}

#[test]
fn empty_stored_acp_session_id_normalizes_to_none() {
    let mut host = Host::new();
    let mut rec = host.record("sess-empty-acp", 1, "/tmp/sess-empty-acp.sock");
    rec.stored_acp_session_id = Some("initial-acp".into());
    host.save(&rec);
    assert!(host.updated(update_stored_acp_session_id(rec, Some(""))));
    let loaded = host.load("sess-empty-acp").unwrap().unwrap();
    assert_eq!(loaded.stored_acp_session_id, None);
}

#[test]
fn an_absent_acp_session_id_clears_the_stored_one() {
    let mut host = Host::new();
    let mut rec = host.record("sess-no-acp", 1, "/tmp/sess-no-acp.sock");
    rec.stored_acp_session_id = Some("initial-acp".into());
    host.save(&rec);
    assert!(host.updated(update_stored_acp_session_id(rec, None)));
    let loaded = host.load("sess-no-acp").unwrap().unwrap();
    assert_eq!(loaded.stored_acp_session_id, None);
}

#[test]
fn list_filters_non_json_and_unparseable() {
    let mut host = Host::new();
    host.put("not-json.json", b"this isn't json");
    host.put("ignored.txt", b"{}");
    let rec = host.record("live", 1, "/tmp/sock-live");
    host.save(&rec);
    let all = list(DirRead::Items(host.items())).unwrap();
    assert_eq!(all.len(), 1);
    assert_eq!(all[0].session_id, "live");
}

#[test]
fn a_missing_directory_lists_nothing_and_an_unreadable_one_fails() {
    assert_eq!(list(DirRead::Missing).unwrap().len(), 0);
    assert_eq!(list_existing_strict(DirRead::Missing).unwrap().len(), 0);
    assert_eq!(list(DirRead::Failed).unwrap_err(), RegistryError::ReadDir);
    assert_eq!(
        list_existing_strict(DirRead::Failed).unwrap_err(),
        RegistryError::ReadDir
    );
}

#[test]
fn a_strict_listing_fails_on_what_a_lenient_one_passes_over() {
    let mut host = Host::new();
    let rec = host.record("live", 1, "/tmp/sock-live");
    host.save(&rec);
    host.put("ignored.txt", b"{}");
    host.put("live.json.tmp", b"{");
    assert_eq!(
        list_existing_strict(DirRead::Items(host.items())).unwrap().len(),
        1
    );

    host.put("broken.json", b"{");
    assert_eq!(list(DirRead::Items(host.items())).unwrap().len(), 1);
    assert_eq!(
        list_existing_strict(DirRead::Items(host.items())).unwrap_err(),
        RegistryError::Parse
    );

    let mut items = host.items();
    items.insert(0, DirItem::Failed);
    assert_eq!(
        list_existing_strict(DirRead::Items(items)).unwrap_err(),
        RegistryError::DirEntry
    );
    let mut items = host.items();
    items.insert(0, DirItem::Failed);
    assert_eq!(list(DirRead::Items(items)).unwrap().len(), 1);

    let unreadable = vec![DirItem::File {
        name: "x.json".into(),
        content: RecordRead::Unreadable,
    }];
    assert_eq!(
        list_existing_strict(DirRead::Items(unreadable)).unwrap_err(),
        RegistryError::Read
    );
}

#[test]
fn delete_removes_json_and_socket() {
    let mut host = Host::new();
    let sock = format!("{}sess.sock", host.dir.prefix);
    host.put("sess.sock", b"");
    let rec = host.record("sess", 1, &sock);
    host.save(&rec);
    let path = record_path(&host.dir, "sess").unwrap();
    assert!(host.files.contains_key(&path));
    assert!(host.files.contains_key(&sock));
    assert_eq!(host.deleted(delete("sess")), GenerationDeleteOutcome::Deleted);
    assert!(!host.files.contains_key(&path));
    assert!(!host.files.contains_key(&sock));
}

#[test]
fn delete_takes_the_control_socket_and_spares_other_sessions() {
    let mut host = Host::new();
    host.put("sess.ctl.sock", b"");
    let rec = host.record("sess", 1, "/tmp/sess.sock");
    host.save(&rec);
    let other = host.record("sess-2", 2, "/tmp/sess-2.sock");
    host.save(&other);
    host.deleted(delete("sess"));
    assert!(host.load("sess").unwrap().is_none());
    assert!(!host.files.contains_key(&format!("{}sess.ctl.sock", host.dir.prefix)));
    assert_eq!(host.load("sess-2").unwrap().unwrap().pid, 2);
}

#[test]
fn compare_delete_preserves_a_published_replacement_generation() {
    let mut host = Host::new();
    let socket = host.socket("replace-race");
    let old = host.record("replace-race", 41, &socket);
    host.save(&old);
    let replacement = WorkerRecord {
        pid: 42,
        started_at: old.started_at.saturating_add(1),
        ..old.clone()
    };
    host.save(&replacement);

    assert_eq!(
        host.deleted(delete_record_if_current(&old, None, true)),
        GenerationDeleteOutcome::Changed
    );
    assert_eq!(host.load("replace-race").unwrap().unwrap().pid, 42);

    host.identities.insert(4711, 99);
    let live_record = WorkerRecord {
        pid: 4711,
        ..replacement
    };
    host.save(&live_record);
    let wrong_identity = host.identities.get(&4711).map(|value| value + 1);
    assert_eq!(
        host.deleted(delete_record_if_current(&live_record, wrong_identity, true)),
        GenerationDeleteOutcome::Changed
    );
    assert_eq!(host.load("replace-race").unwrap().unwrap().pid, 4711);
}

#[test]
fn compare_delete_spares_a_process_id_that_was_reused() {
    let mut host = Host::new();
    let mut rec = host.record("reused", 4711, "/tmp/reused.sock");
    rec.process_start_identity = Some(98);
    host.save(&rec);
    host.identities.insert(4711, 99);
    assert_eq!(
        host.deleted(delete_record_if_current(&rec, Some(98), true)),
        GenerationDeleteOutcome::Changed
    );
    host.identities.insert(4711, 98);
    assert_eq!(
        host.deleted(delete_record_if_current(&rec, Some(98), true)),
        GenerationDeleteOutcome::Deleted
    );
    assert_eq!(
        host.deleted(delete_record_if_current(&rec, Some(98), true)),
        GenerationDeleteOutcome::Missing
    );
}

#[test]
fn compare_delete_without_a_start_matches_any_start() {
    let mut host = Host::new();
    let rec = host.record("any-start", 41, "/tmp//any-start.sock");
    host.save(&rec);
    assert_eq!(
        host.deleted(delete_generation_if_matches(
            "any-start",
            41,
            unix_path("/tmp/other.sock"),
            None,
            None,
            true
        )),
        GenerationDeleteOutcome::Changed
    );
    assert_eq!(
        host.deleted(delete_generation_if_matches(
            "any-start",
            41,
            unix_path("/tmp/any-start.sock"),
            Some(rec.started_at + 1),
            None,
            true
        )),
        GenerationDeleteOutcome::Changed
    );
    assert_eq!(
        host.deleted(delete_generation_if_matches(
            "any-start",
            41,
            unix_path("/tmp/any-start.sock"),
            None,
            None,
            true
        )),
        GenerationDeleteOutcome::Deleted
    );
}

#[test]
fn dead_record_with_persisted_process_identity_is_deleted() {
    let mut host = Host::new();
    let mut record = host.record(
        "dead-generation",
        2_000_000_000,
        "/tmp/dead-generation.sock",
    );
    record.process_start_identity = Some(1234);
    host.save(&record);

    assert_eq!(
        host.deleted(delete_dead_record_if_current(record)),
        GenerationDeleteOutcome::Deleted
    );
    assert!(host.load("dead-generation").unwrap().is_none());
}

#[test]
fn a_record_whose_process_lives_is_not_deleted_as_dead() {
    let mut host = Host::new();
    let record = host.record("alive", OWN_PID, "/tmp/alive.sock");
    host.save(&record);
    assert_eq!(
        host.deleted(delete_dead_record_if_current(record.clone())),
        GenerationDeleteOutcome::Changed
    );
    host.alive.clear();
    assert_eq!(
        host.deleted(delete_dead_record_if_current(record.clone())),
        GenerationDeleteOutcome::Changed
    );
    host.identities.clear();
    assert_eq!(
        host.deleted(delete_dead_record_if_current(record.clone())),
        GenerationDeleteOutcome::Deleted
    );
    assert_eq!(
        host.deleted(delete_dead_record_if_current(record)),
        GenerationDeleteOutcome::Missing
    );
}

#[test]
fn delete_sweeps_empty_log_but_keeps_nonempty() {
    let mut host = Host::new();
    let empty_log = log_path_for(&host.dir, "empty").unwrap();
    host.put("empty.log", b"");
    host.deleted(delete("empty"));
    assert!(
        !host.files.contains_key(&empty_log),
        "0-byte worker log should be swept on delete"
    );

    let kept_log = log_path_for(&host.dir, "kept").unwrap();
    host.put("kept.log", b"agent stderr line\n");
    host.deleted(delete("kept"));
    assert!(
        host.files.contains_key(&kept_log),
        "non-empty worker log should survive delete for post-mortem"
    );
}

#[test]
fn no_file_is_removed_for_an_invalid_session_id() {
    assert!(delete_unlocked(&unix_directory("/w"), "../x", "/w/ctl", Some(0)).is_empty());
    assert_eq!(
        delete_unlocked(&unix_directory("/w"), "x", "/w/ctl", Some(0)),
        ["/w/x.json", "/w/x.sock", "/w/ctl", "/w/x.log"]
    );
    assert_eq!(
        delete_unlocked(&unix_directory("/w"), "x", "/w/ctl", Some(1)),
        ["/w/x.json", "/w/x.sock", "/w/ctl"]
    );
    assert_eq!(
        delete_unlocked(&unix_directory("/w"), "x", "/w/ctl", None),
        ["/w/x.json", "/w/x.sock", "/w/ctl"]
    );
}

#[test]
fn mark_attached_clears_detached() {
    let mut host = Host::new();
    let mut rec = host.record("x", 1, "/tmp/x.sock");
    rec.detached_at = Some(100);
    host.save(&rec);
    assert!(host.updated(mark_attached(rec)));
    let after = host.load("x").unwrap().unwrap();
    assert!(after.last_attached_at.is_some());
    assert!(after.detached_at.is_none());
    assert_eq!(after.last_attached_at, Some(host.now));
}

#[test]
fn mark_detached_keeps_the_rest_and_shows_in_the_label() {
    let mut host = Host::new();
    let mut rec = host.record("y", 1, "/tmp/y.sock");
    rec.last_attached_at = Some(100);
    host.save(&rec);
    assert!(host.updated(mark_detached(rec.clone())));
    let after = host.load("y").unwrap().unwrap();
    assert_eq!(after.detached_at, Some(1_700_000_000));
    assert_eq!(after.last_attached_at, Some(100));
    assert_eq!(worker_state_label(&after, true), "detached");
    assert!(same_generation(&after, &rec));
}

#[test]
fn stale_generation_metadata_update_preserves_replacement_bytes() {
    let mut host = Host::new();
    let old = host.record("metadata-race", 41, "/tmp/metadata-race.sock");
    host.save(&old);
    let replacement = WorkerRecord {
        pid: 42,
        process_start_identity: Some(4242),
        started_at: old.started_at.saturating_add(1),
        ..old.clone()
    };
    host.save(&replacement);
    let before = text(&host.load("metadata-race"));

    assert!(!host.updated(mark_attached(old.clone())));
    assert!(!host.updated(mark_detached(old.clone())));
    assert!(!host.updated(update_stored_acp_session_id(old, Some("stale-acp-id"))));

    assert_eq!(text(&host.load("metadata-race")), before);
}

#[test]
fn legacy_identity_backfill_returns_metadata_authority() {
    let mut host = Host::new();
    let socket = host.socket("legacy-backfill");
    host.peers.insert(socket.clone(), OWN_PID);
    let mut legacy = host.record("legacy-backfill", OWN_PID, &socket);
    legacy.process_start_identity = None;
    host.save(&legacy);

    let authenticated = host
        .authenticated(authenticate_generation_record(
            legacy,
            "legacy-backfill",
            unix_path(&socket),
            None,
            true,
        ))
        .expect("legacy runner authenticated by canonical socket peer");
    assert!(authenticated.process_start_identity.is_some());
    assert_eq!(
        host.load("legacy-backfill").unwrap().unwrap().process_start_identity,
        Some(OWN_IDENTITY)
    );

    assert!(host.updated(update_stored_acp_session_id(
        authenticated,
        Some("session-from-legacy")
    )));
    assert_eq!(
        host.load("legacy-backfill")
            .unwrap()
            .unwrap()
            .stored_acp_session_id
            .as_deref(),
        Some("session-from-legacy")
    );

    let explicit_socket = host.socket("legacy-explicit-peer");
    let mut explicit = host.record("legacy-explicit-peer", OWN_PID, &explicit_socket);
    explicit.process_start_identity = None;
    host.save(&explicit);
    assert!(host
        .authenticated(authenticate_generation_record(
            explicit,
            "legacy-explicit-peer",
            unix_path(&explicit_socket),
            Some(OWN_PID),
            true,
        ))
        .is_some());
}

#[test]
fn legacy_identity_without_reachable_or_matching_peer_fails_closed() {
    let mut host = Host::new();
    let missing_socket = host.socket("legacy-missing-peer");
    let mut missing = host.record("legacy-missing-peer", OWN_PID, &missing_socket);
    missing.process_start_identity = None;
    host.save(&missing);
    assert!(host
        .authenticated(authenticate_generation_record(
            missing,
            "legacy-missing-peer",
            unix_path(&missing_socket),
            None,
            true,
        ))
        .is_none());

    let mismatched_socket = host.socket("legacy-mismatched-peer");
    host.peers.insert(mismatched_socket.clone(), OWN_PID);
    let mut mismatched = host.record(
        "legacy-mismatched-peer",
        2_000_000_000,
        &mismatched_socket,
    );
    mismatched.process_start_identity = None;
    host.save(&mismatched);
    assert!(host
        .authenticated(authenticate_generation_record(
            mismatched,
            "legacy-mismatched-peer",
            unix_path(&mismatched_socket),
            None,
            true,
        ))
        .is_none());
}

#[test]
fn modern_identity_rejects_mismatched_peer_pid() {
    let mut host = Host::new();
    let socket = host.socket("modern-mismatched-peer");
    let current_pid = OWN_PID;
    let modern = host.record("modern-mismatched-peer", current_pid, &socket);
    assert!(modern.process_start_identity.is_some());
    host.save(&modern);
    let mismatched_pid = if current_pid == u32::MAX {
        current_pid - 1
    } else {
        current_pid + 1
    };

    assert!(host
        .authenticated(authenticate_generation_record(
            modern.clone(),
            "modern-mismatched-peer",
            unix_path(&socket),
            Some(mismatched_pid),
            true,
        ))
        .is_none());
    assert!(host
        .authenticated(authenticate_generation_record(
            modern,
            "modern-mismatched-peer",
            unix_path(&socket),
            Some(current_pid),
            true,
        ))
        .is_some());
}

#[test]
fn stale_legacy_identity_cannot_bind_or_update_current_generation() {
    let mut host = Host::new();
    let socket = host.socket("legacy-stale");
    let current = host.record("legacy-stale", OWN_PID, &socket);
    assert!(current.process_start_identity.is_some());
    host.save(&current);
    let mut stale_legacy = current.clone();
    stale_legacy.process_start_identity = None;
    let before = text(&host.load("legacy-stale"));

    assert!(host
        .authenticated(authenticate_generation_record(
            stale_legacy.clone(),
            "legacy-stale",
            unix_path(&socket),
            None,
            true,
        ))
        .is_none());
    assert!(!host.updated(update_stored_acp_session_id(
        stale_legacy,
        Some("stale-session")
    )));
    assert_eq!(text(&host.load("legacy-stale")), before);
}

#[test]
fn a_backfilled_record_is_not_trusted_when_its_process_is_gone_again() {
    let mut host = Host::new();
    let socket = host.socket("vanished");
    let mut legacy = host.record("vanished", OWN_PID, &socket);
    legacy.process_start_identity = None;
    host.save(&legacy);
    let mut op = authenticate_generation_record(
        legacy,
        "vanished",
        unix_path(&socket),
        Some(OWN_PID),
        true,
    ).unwrap();
    while op.record_to_write().is_none() {
        let reply = host.answer(&op);
        op = op.advance(reply);
    }
    let reply = host.answer(&op);
    op = op.advance(reply);
    host.identities.insert(OWN_PID, OWN_IDENTITY + 1);
    assert_eq!(op.pending(), Pending::ProbeIdentity(OWN_PID));
    let reply = host.answer(&op);
    op = op.advance(reply);
    assert!(matches!(
        op.stage,
        Stage::Finished(Outcome::Authenticated(None))
    ));
}

#[test]
fn a_spawned_runner_is_bound_to_the_record_it_published() {
    let mut host = Host::new();
    let socket = host.socket("spawned");
    let spawned = |identity, peer| {
        authenticate_spawned_generation(
            "spawned",
            OWN_PID,
            unix_path(&socket),
            identity,
            peer,
            true,
        )
    };
    assert!(host.authenticated(spawned(None, Some(OWN_PID))).is_none());

    let record = host.record("spawned", OWN_PID, &socket);
    host.save(&record);
    let bound = host.authenticated(spawned(Some(OWN_IDENTITY), Some(OWN_PID))).unwrap();
    assert_eq!(bound.started_at, record.started_at);
    assert!(host.authenticated(spawned(None, Some(OWN_PID))).is_some());
    assert!(host.authenticated(spawned(None, None)).is_none());
    assert!(host.authenticated(spawned(None, Some(OWN_PID + 1))).is_none());
    assert!(host
        .authenticated(spawned(Some(OWN_IDENTITY + 1), Some(OWN_PID)))
        .is_none());

    host.identities.insert(OWN_PID, OWN_IDENTITY + 1);
    assert!(host.authenticated(spawned(None, Some(OWN_PID))).is_none());

    let mut legacy = record;
    legacy.process_start_identity = None;
    host.save(&legacy);
    assert!(host.authenticated(spawned(None, Some(OWN_PID))).is_none());
}

#[test]
fn an_illegible_record_fails_every_conditional_operation() {
    let mut host = Host::new();
    let rec = host.record("broken", OWN_PID, "/tmp/broken.sock");
    let socket = || unix_path("/tmp/broken.sock");
    host.put("broken.json", b"{");
    for op in [
        delete_record_if_current(&rec, None, true),
        delete_dead_record_if_current(rec.clone()),
        authenticate_generation_record(rec.clone(), "broken", socket(), None, true),
        authenticate_spawned_generation("broken", OWN_PID, socket(), None, None, true),
        mark_attached(rec.clone()),
        mark_detached(rec.clone()),
        update_stored_acp_session_id(rec.clone(), Some("id")),
    ] {
        assert!(matches!(
            host.run(op),
            Outcome::Failed(RegistryError::Parse)
        ));
    }
    let path = record_path(&host.dir, "broken").unwrap();
    host.files.insert(path, Content::Directory);
    assert!(matches!(
        host.run(delete_record_if_current(&rec, None, true)),
        Outcome::Failed(RegistryError::Read)
    ));
}

#[test]
fn a_lock_or_a_write_that_fails_fails_the_operation() {
    let mut host = Host::new();
    let rec = host.record("stuck", 1, "/tmp/stuck.sock");
    host.lockable = false;
    assert!(matches!(
        host.run(save(rec.clone())),
        Outcome::Failed(RegistryError::Lock)
    ));
    host.lockable = true;
    host.writable = false;
    assert!(matches!(
        host.run(save(rec.clone())),
        Outcome::Failed(RegistryError::Write)
    ));
    host.writable = true;
    host.save(&rec);
    host.writable = false;
    assert!(matches!(
        host.run(mark_attached(rec)),
        Outcome::Failed(RegistryError::Write)
    ));
}

#[test]
fn an_operation_asks_for_its_work_in_order() {
    let mut host = Host::new();
    let socket = host.socket("order");
    host.peers.insert(socket.clone(), OWN_PID);
    let mut rec = host.record("order", OWN_PID, &socket);
    rec.process_start_identity = None;
    host.save(&rec);
    host.asked.clear();
    host.authenticated(authenticate_generation_record(
        rec,
        "order",
        unix_path(&socket),
        None,
        true,
    ));
    assert_eq!(
        host.asked,
        [
            Pending::AcquireLock,
            Pending::ReadRecord,
            Pending::ProbePeer,
            Pending::ProbeIdentity(OWN_PID),
            Pending::WriteRecord,
            Pending::ProbeIdentity(OWN_PID),
            Pending::Nothing,
        ]
    );
}

#[test]
fn a_reply_to_nothing_fails_the_operation_for_good() {
    let op = delete("x").unwrap().advance(Reply::Removed);
    assert!(matches!(
        op.stage,
        Stage::Finished(Outcome::Failed(RegistryError::UnexpectedReply))
    ));
    let op = op.advance(Reply::Locked);
    assert!(matches!(
        op.stage,
        Stage::Finished(Outcome::Failed(RegistryError::UnexpectedReply))
    ));
}

#[test]
fn operations_refuse_invalid_session_ids() {
    let host = Host::new();
    let rec = host.record("../escape", 1, "/tmp/s.sock");
    assert_eq!(save(rec.clone()).unwrap_err(), RegistryError::InvalidSessionId);
    assert_eq!(delete("a/b").unwrap_err(), RegistryError::InvalidSessionId);
    assert_eq!(
        mark_attached(rec).unwrap_err(),
        RegistryError::InvalidSessionId
    );
}

#[test]
fn worker_state_ladder() {
    let mut rec = WorkerRecord::new(
        "s".into(),
        1,
        unix_path("/tmp/s.sock"),
        "codex-acp".into(),
        "codex".into(),
        "/repo".into(),
        None,
        vec![],
        vec![],
        None,
        None,
        BUILD_VERSION.into(),
        None,
        0,
    );
    assert_eq!(worker_state_label(&rec, false), "dead");
    assert_eq!(worker_state_label(&rec, true), "attached");
    rec.detached_at = Some(100);
    rec.last_attached_at = Some(50);
    assert_eq!(worker_state_label(&rec, true), "detached");
    rec.last_attached_at = Some(150);
    assert_eq!(worker_state_label(&rec, true), "attached");
    // detached with no prior attach: last_attached_at None is treated as 0,
    // so 0 <= detached_at keeps it detached.
    rec.last_attached_at = None;
    assert_eq!(worker_state_label(&rec, true), "detached");
}

#[test]
fn a_record_is_live_with_its_schema_process_and_socket() {
    let host = Host::new();
    let mut rec = host.record("live", 1, "/tmp/live.sock");
    assert!(is_record_live(&rec, true, MetadataProbe::Found));
    assert!(is_record_live(&rec, true, MetadataProbe::Failed));
    assert!(!is_record_live(&rec, true, MetadataProbe::NotFound));
    assert!(!is_record_live(&rec, false, MetadataProbe::Found));
    rec.build_version = String::new();
    assert!(is_record_live(&rec, true, MetadataProbe::Found));
    rec.runner_version = 0;
    assert!(!is_record_live(&rec, true, MetadataProbe::Found));
    assert!(socket_exists(MetadataProbe::Failed));
    assert!(!socket_exists(MetadataProbe::NotFound));
}

#[test]
fn validate_session_id_accepts_uuids_and_test_ids() {
    // Production format: UUID v4 with hyphens.
    assert!(
        validate_session_id("550e8400-e29b-41d4-a716-446655440000").is_ok(),
        "must accept UUID v4 (the production session_id shape)"
    );
    // Test-prefixed ids with underscores and digits.
    assert!(validate_session_id("test_session_42").is_ok());
    assert!(validate_session_id("a").is_ok());
    assert!(validate_session_id("Z-0").is_ok());
}

#[test]
fn validate_session_id_rejects_path_traversal_and_separators() {
    for bad in [
        "",
        "..",
        "../../etc/passwd",
        "foo/bar",
        "foo\\bar",
        ".hidden",
        "with space",
        "with\0null",
        "trailing.",
        "good-then/../bad",
    ] {
        assert!(
            validate_session_id(bad).is_err(),
            "expected rejection for {bad:?}"
        );
    }
}

#[test]
fn validate_session_id_rejects_overlong() {
    let long = "a".repeat(129);
    assert!(validate_session_id(&long).is_err());
    let ok = "a".repeat(128);
    assert!(validate_session_id(&ok).is_ok());
}

#[test]
fn path_builders_propagate_validation_error() {
    let dir = unix_directory(&workers_dir(&unix_directory(APP_DIR)));
    assert!(record_path(&dir, "../escape").is_err());
    assert!(socket_path_for(&dir, "foo/bar").is_err());
    assert!(log_path_for(&dir, "").is_err());
    assert!(restart_marker_path(&dir, ".hidden").is_err());
}

#[test]
fn path_builders_name_the_files_of_a_session() {
    let text = workers_dir(&unix_directory("/home/user/.aoe"));
    assert_eq!(text, "/home/user/.aoe/acp-workers");
    let dir = unix_directory(&text);
    assert_eq!(dir.prefix, "/home/user/.aoe/acp-workers/");
    assert_eq!(record_path(&dir, "s-1").unwrap(), "/home/user/.aoe/acp-workers/s-1.json");
    assert_eq!(unix_directory("/").prefix, "/");
    assert_eq!(unix_directory("").prefix, "");
    let w = unix_directory("/w");
    assert_eq!(staged_record_path(&w, "s-1").unwrap(), "/w/s-1.json.tmp");
    assert_eq!(socket_path_for(&unix_directory("/w/"), "s-1").unwrap(), "/w/s-1.sock");
    assert_eq!(log_path_for(&unix_directory(""), "s-1").unwrap(), "s-1.log");
    assert_eq!(restart_marker_path(&w, "s-1").unwrap(), "/w/s-1.restart");
    assert_eq!(
        generation_lock_path(&w, "s-1").unwrap(),
        "/w/.s-1.generation.lock"
    );
}

#[test]
fn path_builders_keep_the_separator_of_the_system() {
    let app = Directory { prefix: "C:\\Users\\u\\".into() };
    assert_eq!(workers_dir(&app), "C:\\Users\\u\\acp-workers");
    let dir = Directory { prefix: "C:\\Users\\u\\acp-workers\\".into() };
    assert_eq!(
        record_path(&dir, "s-1").unwrap(),
        "C:\\Users\\u\\acp-workers\\s-1.json"
    );
}

#[test]
fn only_record_files_have_the_json_extension() {
    assert!(is_record_file_name("s-1.json"));
    for name in ["s-1.json.tmp", ".json", "json", "s-1.sock", "s-1.JSON", ".s-1.generation.lock"] {
        assert!(!is_record_file_name(name), "taken for a record: {name}");
    }
}

#[test]
fn paths_are_compared_by_components() {
    let same = |a: &str, b: &str| same_path(&unix_path(a), &unix_path(b));
    assert!(same("/a/b", "/a//b/"));
    assert!(same("/a/./b", "/a/b"));
    assert!(same("a/b/.", "a/b"));
    assert!(!same("./a", "a"));
    assert!(!same("/a", "a"));
    assert!(!same("/a/../b", "/b"));
    assert!(!same("/a/b", "/a/c"));
    assert!(!same("/a", "/a/b"));
    assert!(!same("/", ""));
    assert!(same("", ""));
}

#[test]
fn unix_paths_have_the_components_that_std_gives_them() {
    for text in ["", "/", "//", ".", "./.", "/.", "a", "./a/./b/", "/a//b/../c", "..", "../.", "a\\b"] {
        let path = unix_path(text);
        let expected: Vec<String> = std::path::Path::new(text)
            .components()
            .map(|component| component.as_os_str().to_str().unwrap().to_string())
            .collect();
        assert_eq!(path.components, expected, "components of {text:?}");
        assert_eq!(path.text, text);
    }
}

#[test]
fn paths_of_another_system_are_compared_by_their_own_components() {
    let path = |text: &str, drive: &str, name: &str| WorkerPath {
        text: text.into(),
        components: vec![drive.into(), "\\".into(), name.into()],
    };
    let rec = WorkerRecord {
        socket_path: path("C:\\w.sock", "Disk(67)", "w.sock"),
        ..Host::new().record("w", 1, "/tmp/w.sock")
    };
    let respelled = WorkerRecord { socket_path: path("c:/w.sock", "Disk(67)", "w.sock"), ..rec.clone() };
    let moved = WorkerRecord { socket_path: path("D:\\w.sock", "Disk(68)", "w.sock"), ..rec.clone() };
    assert!(same_generation(&rec, &respelled));
    assert!(!same_generation(&rec, &moved));
}

#[test]
fn without_process_proofs_the_record_alone_decides() {
    let mut host = Host::new();
    let socket = host.socket("unproved");
    let mut rec = host.record("unproved", OWN_PID, &socket);
    rec.process_start_identity = None;
    host.save(&rec);
    host.asked.clear();
    let bound = host.authenticated(authenticate_generation_record(
        rec.clone(),
        "unproved",
        unix_path(&socket),
        Some(OWN_PID + 1),
        false,
    ));
    assert_eq!(bound.unwrap().process_start_identity, None);
    assert_eq!(
        host.asked,
        [Pending::AcquireLock, Pending::ReadRecord, Pending::Nothing]
    );
    let spawned =
        |peer| authenticate_spawned_generation("unproved", OWN_PID, unix_path(&socket), None, peer, false);
    assert!(host.authenticated(spawned(Some(OWN_PID))).is_some());
    assert!(host.authenticated(spawned(None)).is_none());
    assert!(host
        .authenticated(authenticate_generation_record(
            rec.clone(),
            "unproved",
            unix_path("/tmp/elsewhere.sock"),
            None,
            false,
        ))
        .is_none());
    assert_eq!(
        host.deleted(delete_record_if_current(&rec, None, true)),
        GenerationDeleteOutcome::Changed
    );
    assert_eq!(
        host.deleted(delete_record_if_current(&rec, None, false)),
        GenerationDeleteOutcome::Deleted
    );
}

#[test]
fn the_requested_socket_is_asked_for_its_peer() {
    let host = Host::new();
    let rec = host.record("asked", OWN_PID, "/tmp//asked.sock");
    let op = authenticate_generation_record(
        rec.clone(),
        "asked",
        unix_path("/tmp/asked.sock"),
        None,
        true,
    )
    .unwrap();
    assert_eq!(op.peer_socket(), None);
    let op = op.advance(Reply::Locked).advance(Reply::Read(RecordRead::Record(rec)));
    assert_eq!(op.pending(), Pending::ProbePeer);
    assert_eq!(op.peer_socket(), Some("/tmp/asked.sock"));
    let op = op.advance(Reply::Peer(None));
    assert_eq!(op.peer_socket(), None);
}

#[test]
fn delete_spares_the_restart_marker_and_the_lock_file() {
    let mut host = Host::new();
    let rec = host.record("marked", 1, "/tmp/marked.sock");
    host.save(&rec);
    for name in ["marked.restart", ".marked.generation.lock", "marked.json.tmp"] {
        host.put(name, b"");
    }
    host.deleted(delete("marked"));
    assert!(host.load("marked").unwrap().is_none());
    for path in [
        restart_marker_path(&host.dir, "marked").unwrap(),
        generation_lock_path(&host.dir, "marked").unwrap(),
        staged_record_path(&host.dir, "marked").unwrap(),
    ] {
        assert!(host.files.contains_key(&path), "removed: {path}");
    }
}

#[test]
fn generations_differ_in_any_part_of_their_identity() {
    let host = Host::new();
    let rec = host.record("gen", OWN_PID, "/tmp/gen.sock");
    assert!(same_generation(&rec, &rec));
    let mut bookkeeping = rec.clone();
    bookkeeping.last_attached_at = Some(1);
    bookkeeping.build_version = String::new();
    bookkeeping.socket_path = unix_path("/tmp//gen.sock");
    assert!(same_generation(&bookkeeping, &rec));
    for other in [
        WorkerRecord { session_id: "gen2".into(), ..rec.clone() },
        WorkerRecord { pid: 1, ..rec.clone() },
        WorkerRecord { process_start_identity: None, ..rec.clone() },
        WorkerRecord { socket_path: unix_path("/tmp/other.sock"), ..rec.clone() },
        WorkerRecord { started_at: 0, ..rec.clone() },
    ] {
        assert!(!same_generation(&other, &rec));
    }
}

#[test]
fn a_load_takes_a_malformed_record_for_a_missing_one_unless_strict() {
    assert!(load("s", RecordRead::Malformed).unwrap().is_none());
    assert!(load("s", RecordRead::Absent).unwrap().is_none());
    assert_eq!(load("s", RecordRead::Unreadable).unwrap_err(), RegistryError::Read);
    assert_eq!(load("..", RecordRead::Absent).unwrap_err(), RegistryError::InvalidSessionId);
    assert!(load_existing_strict("s", RecordRead::Absent).unwrap().is_none());
    assert_eq!(
        load_existing_strict("s", RecordRead::Malformed).unwrap_err(),
        RegistryError::Parse
    );
    assert_eq!(
        load_existing_strict("s", RecordRead::Unreadable).unwrap_err(),
        RegistryError::Read
    );
    let rec = Host::new().record("s", 9, "/tmp/s.sock");
    assert_eq!(
        load_existing_strict("s", RecordRead::Record(rec)).unwrap().unwrap().pid,
        9
    );
}

#[test]
fn pid_source_for_prefers_record_pid_when_load_ok_some() {
    let mut host = Host::new();
    let rec = host.record("sess-ok-some", 4242, "/tmp/unused");
    host.save(&rec);
    let loaded = host.load("sess-ok-some");
    assert_eq!(
        pid_source_for(&host.dir, "sess-ok-some", &loaded).runner_pid(Some(OWN_PID)),
        Some(4242)
    );
    let zero = Ok(Some(WorkerRecord { pid: 0, ..rec }));
    assert_eq!(pid_source_for(&host.dir, "sess-ok-some", &zero).runner_pid(Some(OWN_PID)), None);
}

#[test]
fn pid_source_for_returns_none_when_load_ok_none() {
    let host = Host::new();
    let loaded = host.load("sess-missing");
    assert_eq!(
        pid_source_for(&host.dir, "sess-missing", &loaded).runner_pid(Some(OWN_PID)),
        None
    );
}

#[test]
fn pid_source_for_falls_back_to_peer_pid_on_load_err() {
    let mut host = Host::new();
    let session_id = "sess-load-err";
    let socket = host.socket(session_id);
    let rec = host.record(session_id, 4242, &socket);
    host.save(&rec);
    let rec_path = record_path(&host.dir, session_id).unwrap();
    host.files.insert(rec_path, Content::Directory);
    let loaded = host.load(session_id);
    assert!(loaded.is_err(), "fixture must force load() to return Err");
    host.peers.insert(socket.clone(), OWN_PID);
    let source = pid_source_for(&host.dir, session_id, &loaded);
    match &source {
        PidSource::Socket(path) => assert_eq!(*path, socket),
        other => panic!("the socket is not asked: {other:?}"),
    }
    assert_eq!(source.runner_pid(host.peers.get(&socket).copied()), Some(OWN_PID));
}

#[test]
fn pid_source_for_an_invalid_session_id_is_nowhere() {
    let loaded = load("../x", RecordRead::Absent);
    assert_eq!(pid_source_for(&unix_directory("/w"), "../x", &loaded).runner_pid(Some(1)), None);
}

#[test]
fn interleaved_operations_are_serialized_by_the_lock() {
    let mut host = Host::new();
    let old = host.record("fenced", 41, "/tmp/fenced.sock");
    host.save(&old);
    let replacement = WorkerRecord { pid: 42, started_at: old.started_at + 1, ..old.clone() };

    // The cleanup waits for the lock while the replacement is published.
    let cleanup = delete_record_if_current(&old, None, true).unwrap();
    assert_eq!(cleanup.pending(), Pending::AcquireLock);
    host.save(&replacement);
    assert_eq!(host.deleted(Ok(cleanup)), GenerationDeleteOutcome::Changed);
    assert_eq!(host.load("fenced").unwrap().unwrap().pid, 42);
}
