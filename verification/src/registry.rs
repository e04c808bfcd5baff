//! What the workers directory says: which records it lists, what a session's
//! record file gives, which files go with a session, and which process runs it.

use crate::error::RegistryError;
use crate::generation::RecordRead;
use crate::paths::{
    is_record_file_name, log_path_for, record_path, socket_path_for, validate_session_id, Directory,
};
use crate::record::WorkerRecord;
use vstd::prelude::*;

verus! {

/// What loading a session's record gives: strictly, a file that holds no record is
/// an error; otherwise it counts as missing.
pub open spec fn load_result(session_id: Seq<char>, file: RecordRead, strict: bool) -> Result<
    Option<WorkerRecord>,
    RegistryError,
> {
    if !crate::paths::valid_session_id(session_id) {
        Err(RegistryError::InvalidSessionId)
    } else if file is Unreadable {
        Err(RegistryError::Read)
    } else if file is Malformed && strict {
        Err(RegistryError::Parse)
    } else if file is Record {
        Ok(Some(file->Record_0))
    } else {
        Ok(None)
    }
}

/// The record of a session, if there is a legible one: a file that holds no
/// record counts as missing.
pub fn load(session_id: &str, file: RecordRead) -> (r: Result<Option<WorkerRecord>, RegistryError>)
    ensures
        r == (if !crate::paths::valid_session_id(session_id@) {
            Err(RegistryError::InvalidSessionId)
        } else {
            match file {
                RecordRead::Absent => Ok(None),
                RecordRead::Unreadable => Err(RegistryError::Read),
                RecordRead::Malformed => Ok(None),
                RecordRead::Record(record) => Ok::<_, RegistryError>(Some(record)),
            }
        }),
        r == load_result(session_id@, file, false),
{
    match validate_session_id(session_id) {
        Ok(()) => match file {
            RecordRead::Absent => Ok(None),
            RecordRead::Unreadable => Err(RegistryError::Read),
            RecordRead::Malformed => Ok(None),
            RecordRead::Record(record) => Ok(Some(record)),
        },
        Err(e) => Err(e),
    }
}

/// The record of a session, where a file that holds no record is an error.
pub fn load_existing_strict(session_id: &str, file: RecordRead) -> (r: Result<
    Option<WorkerRecord>,
    RegistryError,
>)
    ensures
        r == (if !crate::paths::valid_session_id(session_id@) {
            Err(RegistryError::InvalidSessionId)
        } else {
            match file {
                RecordRead::Absent => Ok(None),
                RecordRead::Unreadable => Err(RegistryError::Read),
                RecordRead::Malformed => Err(RegistryError::Parse),
                RecordRead::Record(record) => Ok::<_, RegistryError>(Some(record)),
            }
        }),
        r == load_result(session_id@, file, true),
{
    match validate_session_id(session_id) {
        Ok(()) => match file {
            RecordRead::Absent => Ok(None),
            RecordRead::Unreadable => Err(RegistryError::Read),
            RecordRead::Malformed => Err(RegistryError::Parse),
            RecordRead::Record(record) => Ok(Some(record)),
        },
        Err(e) => Err(e),
    }
}

/// One entry of the workers directory.
#[derive(Debug)]
pub enum DirItem {
    /// The entry could not be read.
    Failed,
    /// A file. What it holds counts only if it is a record file.
    File { name: String, content: RecordRead },
}

/// What reading the workers directory gave.
#[derive(Debug)]
pub enum DirRead {
    /// There is no such directory.
    Missing,
    Failed,
    Items(Vec<DirItem>),
}

/// The records that the record files among `items` hold, in order.
pub open spec fn records_in(items: Seq<DirItem>) -> Seq<WorkerRecord>
    decreases items.len(),
{
    if items.len() == 0 {
        Seq::empty()
    } else {
        let before = records_in(items.drop_last());
        match items.last() {
            DirItem::File { name, content: RecordRead::Record(record) } => if crate::paths::has_json_extension(
                name@,
            ) {
                before.push(record)
            } else {
                before
            },
            _ => before,
        }
    }
}

/// Whether an entry is a record file that holds `record`.
pub open spec fn holds_record(item: DirItem, record: WorkerRecord) -> bool {
    item matches DirItem::File { name, content } && crate::paths::has_json_extension(name@)
        && content == RecordRead::Record(record)
}

/// What is wrong with an entry: it could not be read, or it is a record file
/// that could not be read or that holds no record.
pub open spec fn item_error(item: DirItem) -> Option<RegistryError> {
    match item {
        DirItem::Failed => Some(RegistryError::DirEntry),
        DirItem::File { name, content } => if !crate::paths::has_json_extension(name@) {
            None
        } else {
            match content {
                RecordRead::Absent => Some(RegistryError::Read),
                RecordRead::Unreadable => Some(RegistryError::Read),
                RecordRead::Malformed => Some(RegistryError::Parse),
                RecordRead::Record(_) => None,
            }
        },
    }
}

/// What is wrong with the first entry with which something is wrong.
pub open spec fn first_item_error(items: Seq<DirItem>) -> Option<RegistryError>
    decreases items.len(),
{
    if items.len() == 0 {
        None
    } else {
        match first_item_error(items.drop_last()) {
            Some(e) => Some(e),
            None => item_error(items.last()),
        }
    }
}

/// Every legible record of the workers directory. Entries that are no record
/// files, and record files that hold no record, are passed over.
pub fn list(dir: DirRead) -> (r: Result<Vec<WorkerRecord>, RegistryError>)
    ensures
        match (dir, r) {
            (DirRead::Missing, Ok(records)) => records@.len() == 0,
            (DirRead::Failed, Err(e)) => e == RegistryError::ReadDir,
            (DirRead::Items(items), Ok(records)) => records@ == records_in(items@),
            _ => false,
        },
{
    let mut out: Vec<WorkerRecord> = Vec::new();
    let items = match dir {
        DirRead::Missing => return Ok(out),
        DirRead::Failed => return Err(RegistryError::ReadDir),
        DirRead::Items(items) => items,
    };
    let ghost all = items@;
    for item in it: items
        invariant
            it.seq() == all,
            out@ == records_in(all.take(it.index() as int)),
    {
        let ghost n = it.index() as int;
        assert(all.take(n + 1).drop_last() =~= all.take(n));
        if let DirItem::File { name, content } = item {
            if is_record_file_name(name.as_str()) {
                if let RecordRead::Record(record) = content {
                    out.push(record);
                }
            }
        }
    }
    assert(all.take(all.len() as int) =~= all);
    Ok(out)
}

/// Every record of the workers directory, or what is wrong with the first entry
/// that may hide one.
pub fn list_existing_strict(dir: DirRead) -> (r: Result<Vec<WorkerRecord>, RegistryError>)
    ensures
        match (dir, r) {
            (DirRead::Missing, Ok(records)) => records@.len() == 0,
            (DirRead::Failed, Err(e)) => e == RegistryError::ReadDir,
            (DirRead::Items(items), Ok(records)) => first_item_error(items@) is None && records@
                == records_in(items@),
            (DirRead::Items(items), Err(e)) => first_item_error(items@) == Some(e),
            _ => false,
        },
{
    let mut out: Vec<WorkerRecord> = Vec::new();
    let items = match dir {
        DirRead::Missing => return Ok(out),
        DirRead::Failed => return Err(RegistryError::ReadDir),
        DirRead::Items(items) => items,
    };
    let ghost all = items@;
    for item in it: items
        invariant
            it.seq() == all,
            dir == DirRead::Items(items),
            items@ == all,
            out@ == records_in(all.take(it.index() as int)),
            first_item_error(all.take(it.index() as int)) is None,
    {
        let ghost n = it.index() as int;
        proof {
            assert(all.take(n + 1).drop_last() =~= all.take(n));
            assert(item_error(item) is Some ==> first_item_error(all) == item_error(item)) by {
                first_error_is_final(all, n + 1);
            }
        }
        match item {
            DirItem::Failed => {
                return Err(RegistryError::DirEntry);
            },
            DirItem::File { name, content } => {
                if is_record_file_name(name.as_str()) {
                    match content {
                        RecordRead::Absent => {
                            return Err(RegistryError::Read);
                        },
                        RecordRead::Unreadable => {
                            return Err(RegistryError::Read);
                        },
                        RecordRead::Malformed => {
                            return Err(RegistryError::Parse);
                        },
                        RecordRead::Record(record) => {
                            out.push(record);
                        },
                    }
                }
            },
        }
    }
    assert(all.take(all.len() as int) =~= all);
    Ok(out)
}

proof fn first_error_is_final(items: Seq<DirItem>, n: int)
    requires
        0 <= n <= items.len(),
    ensures
        first_item_error(items.take(n)) is Some ==> first_item_error(items)
            == first_item_error(items.take(n)),
    decreases items.len(),
{
    if n < items.len() {
        first_error_is_final(items.drop_last(), n);
        assert(items.drop_last().take(n) =~= items.take(n));
    } else {
        assert(items.take(n) =~= items);
    }
}

/// The files to remove with a session: its record, its socket with the control
/// socket beside it, and its log if that is empty. A log that holds something is
/// kept for its readers.
pub open spec fn files_to_remove(
    prefix: Seq<char>,
    session_id: Seq<char>,
    control_socket: Seq<char>,
    log_len: Option<u64>,
) -> Seq<Seq<char>> {
    let kept = seq![
        prefix + (session_id + ".json"@),
        prefix + (session_id + ".sock"@),
        control_socket,
    ];
    if log_len == Some(0u64) {
        kept.push(prefix + (session_id + ".log"@))
    } else {
        kept
    }
}

/// The files to remove with a session, none if the session id is not valid.
/// `control_socket` is the path beside the session's socket, and `log_len` the
/// length of the log file if there is one.
pub fn delete_unlocked(
    workers_dir: &Directory,
    session_id: &str,
    control_socket: &str,
    log_len: Option<u64>,
) -> (r: Vec<String>)
    ensures
        crate::text::texts(r@) == (if crate::paths::valid_session_id(session_id@) {
            files_to_remove(workers_dir.prefix@, session_id@, control_socket@, log_len)
        } else {
            Seq::<Seq<char>>::empty()
        }),
{
    let mut out: Vec<String> = Vec::new();
    if let Ok(path) = record_path(workers_dir, session_id) {
        out.push(path);
    }
    if let Ok(path) = socket_path_for(workers_dir, session_id) {
        out.push(path);
        out.push(control_socket.to_owned());
    }
    if let Ok(path) = log_path_for(workers_dir, session_id) {
        if log_len == Some(0u64) {
            out.push(path);
        }
    }
    assert(crate::text::texts(out@) =~= (if crate::paths::valid_session_id(session_id@) {
        files_to_remove(workers_dir.prefix@, session_id@, control_socket@, log_len)
    } else {
        Seq::<Seq<char>>::empty()
    }));
    out
}

/// Where a runner's process id is to be had from.
#[derive(Debug)]
pub enum PidSource {
    /// This is it, or there is none.
    Resolved(Option<u32>),
    /// From the peer on this socket.
    Socket(String),
}

/// The process id of a session's runner, given what [`load`] gave and the process
/// of the peer on the session's socket.
pub open spec fn runner_pid_of(
    session_id: Seq<char>,
    loaded: Result<Option<WorkerRecord>, RegistryError>,
    peer_pid: Option<u32>,
) -> Option<u32> {
    match loaded {
        Ok(Some(record)) => if record.pid == 0 {
            None
        } else {
            Some(record.pid)
        },
        Ok(None) => None,
        Err(_) => if crate::paths::valid_session_id(session_id) {
            peer_pid
        } else {
            None
        },
    }
}

/// Where the process id of a session's runner is to be had from, given what
/// [`load`] gave: from the record if there is one, from the session's socket
/// only if the record could not be read, and from nowhere if there is no record.
pub fn pid_source_for(
    workers_dir: &Directory,
    session_id: &str,
    loaded: &Result<Option<WorkerRecord>, RegistryError>,
) -> (r: PidSource)
    ensures
        match loaded {
            Ok(Some(record)) => r == PidSource::Resolved(
                if record.pid > 0 {
                    Some(record.pid)
                } else {
                    None
                },
            ),
            Ok(None) => r == PidSource::Resolved(None),
            Err(_) => if crate::paths::valid_session_id(session_id@) {
                r matches PidSource::Socket(path) && path@ == workers_dir.prefix@ + (session_id@
                    + ".sock"@)
            } else {
                r == PidSource::Resolved(None)
            },
        },
        forall|peer_pid: Option<u32>| #[trigger]
            runner_pid_of(session_id@, *loaded, peer_pid) == (match r {
                PidSource::Resolved(pid) => pid,
                PidSource::Socket(_) => peer_pid,
            }),
{
    match loaded {
        Ok(Some(record)) => if record.pid > 0 {
            PidSource::Resolved(Some(record.pid))
        } else {
            PidSource::Resolved(None)
        },
        Ok(None) => PidSource::Resolved(None),
        Err(_) => match socket_path_for(workers_dir, session_id) {
            Ok(path) => PidSource::Socket(path),
            Err(_) => PidSource::Resolved(None),
        },
    }
}

impl PidSource {
    /// The process id, given the process of the peer on the socket, which counts
    /// only where the socket is to be asked.
    pub fn runner_pid(&self, peer_pid: Option<u32>) -> (r: Option<u32>)
        ensures
            r == (match *self {
                PidSource::Resolved(pid) => pid,
                PidSource::Socket(_) => peer_pid,
            }),
    {
        match self {
            PidSource::Resolved(pid) => *pid,
            PidSource::Socket(_) => peer_pid,
        }
    }
}

/// A listing gives every record that a record file holds, and nothing else.
pub proof fn listings_are_complete(items: Seq<DirItem>, record: WorkerRecord)
    ensures
        records_in(items).contains(record) <==> exists|i: int|
            0 <= i < items.len() && holds_record(#[trigger] items[i], record),
    decreases items.len(),
{
    if items.len() > 0 {
        let before = items.drop_last();
        listings_are_complete(before, record);
        let earlier = records_in(before);
        let all = records_in(items);
        if holds_record(items.last(), record) {
            assert(all.last() == record);
            assert(items[items.len() - 1] == items.last());
        }
        if earlier.contains(record) {
            let k = earlier.index_of(record);
            assert(all[k] == record);
            let i = choose|i: int| 0 <= i < before.len() && holds_record(#[trigger] before[i], record);
            assert(holds_record(items[i], record));
        }
        if all.contains(record) && !holds_record(items.last(), record) {
            let k = all.index_of(record);
            assert(k < earlier.len() ==> earlier[k] == record);
        }
        if exists|i: int| 0 <= i < items.len() && holds_record(#[trigger] items[i], record) {
            let i = choose|i: int| 0 <= i < items.len() && holds_record(#[trigger] items[i], record);
            if i < before.len() {
                assert(holds_record(before[i], record));
            }
        }
    }
}

/// A strict listing succeeds only if nothing is wrong with any entry, so that no
/// record stays undiscovered.
pub proof fn strict_listings_hide_nothing(items: Seq<DirItem>)
    ensures
        first_item_error(items) is None <==> forall|i: int|
            0 <= i < items.len() ==> item_error(#[trigger] items[i]) is None,
    decreases items.len(),
{
    if items.len() > 0 {
        let before = items.drop_last();
        strict_listings_hide_nothing(before);
        if first_item_error(items) is None {
            assert forall|i: int| 0 <= i < items.len() implies item_error(
                #[trigger] items[i],
            ) is None by {
                if i < before.len() {
                    assert(before[i] == items[i]);
                }
            }
        } else {
            if first_item_error(before) is Some {
                let i = choose|i: int| 0 <= i < before.len() && item_error(#[trigger] before[i]) is Some;
                assert(item_error(items[i]) is Some);
            } else {
                assert(item_error(items[items.len() - 1]) is Some);
            }
        }
    }
}

/// Removing the files of one session takes no file of another one, and of its own
/// neither a log that holds something nor the staged record, the restart marker or
/// the lock file.
pub proof fn deletion_spares_the_rest(
    prefix: Seq<char>,
    a: Seq<char>,
    control_socket: Seq<char>,
    log_len: Option<u64>,
    path: Seq<char>,
    b: Seq<char>,
    j: int,
)
    requires
        crate::paths::valid_session_id(a),
        crate::paths::valid_session_id(b),
        0 <= j < crate::paths::session_files(b).len(),
        a != b || j == 1 || j == 4 || j == 5 || (j == 3 && log_len != Some(0u64)),
        files_to_remove(prefix, a, control_socket, log_len).contains(path),
        path != control_socket,
    ensures
        path != prefix + crate::paths::session_files(b)[j],
        crate::paths::is_unix_prefix(prefix) ==> crate::paths::unix_components(path)
            != crate::paths::unix_components(prefix + crate::paths::session_files(b)[j]),
{
    let files = files_to_remove(prefix, a, control_socket, log_len);
    let n = files.index_of(path);
    let i: int = if n == 0 {
        0
    } else if n == 1 {
        2
    } else {
        3
    };
    assert(path == prefix + crate::paths::session_files(a)[i]);
    crate::paths::session_files_are_distinct(prefix, a, i, b, j);
}

/// A listing of one entry is its record, where the entry is a file whose name ends
/// in the record extension and that holds one; a listing of more entries is that of
/// the first ones and then that of the others. So every record is listed once for
/// each file, in order.
pub proof fn listings_go_entry_by_entry(
    a: Seq<DirItem>,
    b: Seq<DirItem>,
    name: String,
    content: RecordRead,
)
    ensures
        records_in(Seq::empty()) == Seq::<WorkerRecord>::empty(),
        records_in(a + b) == records_in(a) + records_in(b),
        records_in(seq![DirItem::Failed]) == Seq::<WorkerRecord>::empty(),
        records_in(seq![DirItem::File { name, content }]) == (if name@.len() > 5
            && ".json"@.is_suffix_of(name@) && content is Record {
            seq![content->Record_0]
        } else {
            Seq::<WorkerRecord>::empty()
        }),
    decreases b.len(),
{
    reveal_strlit(".json");
    let one = seq![DirItem::File { name, content }];
    assert(one.drop_last() =~= Seq::empty());
    assert(seq![DirItem::Failed].drop_last() =~= Seq::empty());
    if name@.len() > 5 {
        assert(name@.skip(name@.len() - 5) =~= name@.subrange(
            (name@.len() - 5) as int,
            name@.len() as int,
        ));
    }
    if b.len() == 0 {
        assert(a + b =~= a);
        assert(records_in(a) + records_in(b) =~= records_in(a));
    } else {
        listings_go_entry_by_entry(a, b.drop_last(), name, content);
        assert((a + b).drop_last() =~= a + b.drop_last());
        assert(records_in(a + b) =~= records_in(a) + records_in(b));
    }
}

/// What a strict listing reports is what is wrong with the first wrong entry: that
/// it could not be read, or that a file whose name ends in the record extension
/// could not be read or holds no record.
pub proof fn strict_listings_report_the_first_fault(
    a: Seq<DirItem>,
    b: Seq<DirItem>,
    name: String,
    content: RecordRead,
)
    ensures
        first_item_error(Seq::empty()) is None,
        first_item_error(a + b) == (if first_item_error(a) is Some {
            first_item_error(a)
        } else {
            first_item_error(b)
        }),
        first_item_error(seq![DirItem::Failed]) == Some(RegistryError::DirEntry),
        ({
            let fault = first_item_error(seq![DirItem::File { name, content }]);
            let is_record = name@.len() > 5 && ".json"@.is_suffix_of(name@);
            &&& !is_record || content is Record ==> fault is None
            &&& is_record && content is Malformed ==> fault == Some(RegistryError::Parse)
            &&& is_record && (content is Absent || content is Unreadable) ==> fault == Some(
                RegistryError::Read,
            )
        }),
    decreases b.len(),
{
    reveal_strlit(".json");
    let one = seq![DirItem::File { name, content }];
    assert(one.drop_last() =~= Seq::empty());
    assert(seq![DirItem::Failed].drop_last() =~= Seq::empty());
    reveal_with_fuel(first_item_error, 2);
    if name@.len() > 5 {
        assert(name@.skip(name@.len() - 5) =~= name@.subrange(
            (name@.len() - 5) as int,
            name@.len() as int,
        ));
    }
    if b.len() == 0 {
        assert(a + b =~= a);
    } else {
        strict_listings_report_the_first_fault(a, b.drop_last(), name, content);
        assert((a + b).drop_last() =~= a + b.drop_last());
    }
}

/// With a session go exactly its record, its socket and the control socket beside
/// it, and its log where that is empty.
pub proof fn deletion_takes_these_files(
    prefix: Seq<char>,
    id: Seq<char>,
    control_socket: Seq<char>,
    log_len: Option<u64>,
    path: Seq<char>,
)
    ensures
        files_to_remove(prefix, id, control_socket, log_len).contains(path) <==> {
            ||| path == prefix + (id + ".json"@)
            ||| path == prefix + (id + ".sock"@)
            ||| path == control_socket
            ||| log_len == Some(0u64) && path == prefix + (id + ".log"@)
        },
{
    let files = files_to_remove(prefix, id, control_socket, log_len);
    assert(files[0] == prefix + (id + ".json"@));
    assert(files[1] == prefix + (id + ".sock"@));
    assert(files[2] == control_socket);
    if log_len == Some(0u64) {
        assert(files[3] == prefix + (id + ".log"@));
    }
}

/// What a load gives back is what the file holds: any record as it is, nothing for
/// no file, an error for a file that cannot be read. Only a file that holds no
/// record is taken in two ways, as missing or, strictly, as an error.
pub proof fn loads_give_back_what_the_file_holds(
    session_id: Seq<char>,
    record: WorkerRecord,
    file: RecordRead,
    strict: bool,
)
    ensures
        crate::paths::valid_session_id(session_id) ==> {
            &&& load_result(session_id, RecordRead::Record(record), strict) == Ok::<
                _,
                RegistryError,
            >(Some(record))
            &&& load_result(session_id, RecordRead::Absent, strict) == Ok::<
                Option<WorkerRecord>,
                RegistryError,
            >(None)
            &&& load_result(session_id, RecordRead::Unreadable, strict) == Err::<
                Option<WorkerRecord>,
                RegistryError,
            >(RegistryError::Read)
            &&& load_result(session_id, RecordRead::Malformed, true) == Err::<
                Option<WorkerRecord>,
                RegistryError,
            >(RegistryError::Parse)
            &&& load_result(session_id, RecordRead::Malformed, false) == load_result(
                session_id,
                RecordRead::Absent,
                false,
            )
        },
        !crate::paths::valid_session_id(session_id) ==> load_result(session_id, file, strict)
            == Err::<Option<WorkerRecord>, RegistryError>(RegistryError::InvalidSessionId),
{
}

/// A runner's process id comes from its record, if there is one, whatever listens
/// on the socket; from the socket only where the record could not be loaded for a
/// valid session id; and otherwise from nowhere.
pub proof fn the_record_goes_before_the_socket(
    session_id: Seq<char>,
    record: WorkerRecord,
    e: RegistryError,
    peer_pid: Option<u32>,
)
    ensures
        record.pid > 0 ==> runner_pid_of(session_id, Ok(Some(record)), peer_pid) == Some(
            record.pid,
        ),
        record.pid == 0 ==> runner_pid_of(session_id, Ok(Some(record)), peer_pid) is None,
        runner_pid_of(session_id, Ok(None), peer_pid) is None,
        crate::paths::valid_session_id(session_id) ==> runner_pid_of(session_id, Err(e), peer_pid)
            == peer_pid,
        !crate::paths::valid_session_id(session_id) ==> runner_pid_of(
            session_id,
            Err(e),
            peer_pid,
        ) is None,
{
}

}
