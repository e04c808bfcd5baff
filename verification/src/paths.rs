//! The files of one session inside the workers directory, and when two paths
//! are the same path.
//!
//! How a path is taken apart, and what stands between a directory and the name of
//! an entry, is up to the system. So a [`WorkerPath`] comes with its components and
//! a [`Directory`] with its separator, and what is said of them holds on every
//! system. [`unix_path`] and [`unix_directory`] make them by the rules of Unix.

use crate::error::RegistryError;
use crate::text::text_eq;
use vstd::prelude::*;
use vstd::string::*;

verus! {

/// The longest session id, in characters.
pub const MAX_SESSION_ID_LEN: usize = 128;

/// The characters that a session id is made of.
pub open spec fn is_id_char(c: char) -> bool {
    ||| 'a' <= c <= 'z'
    ||| 'A' <= c <= 'Z'
    ||| '0' <= c <= '9'
    ||| c == '-'
    ||| c == '_'
}

/// What may name a session on disk: ASCII letters, digits, `-` and `_`, at
/// least one and at most [`MAX_SESSION_ID_LEN`] of them. So an id holds no path
/// separator, no dot and no NUL.
pub open spec fn valid_session_id(id: Seq<char>) -> bool {
    &&& 0 < id.len() <= MAX_SESSION_ID_LEN
    &&& forall|i: int| 0 <= i < id.len() ==> is_id_char(#[trigger] id[i])
}

/// Accepts exactly the valid session ids.
pub fn validate_session_id(session_id: &str) -> (r: Result<(), RegistryError>)
    ensures
        r == (if valid_session_id(session_id@) {
            Ok(())
        } else {
            Err::<(), RegistryError>(RegistryError::InvalidSessionId)
        }),
{
    let len: usize = session_id.unicode_len();
    if len == 0 || len > MAX_SESSION_ID_LEN {
        return Err(RegistryError::InvalidSessionId);
    }
    let mut chars = session_id.chars();
    let mut i: usize = 0;
    while i < len
        invariant
            i <= len == session_id@.len() <= MAX_SESSION_ID_LEN,
            len > 0,
            vstd::std_specs::iter::IteratorSpec::remaining(&chars) == session_id@.skip(i as int),
            forall|j: int| 0 <= j < i ==> is_id_char(#[trigger] session_id@[j]),
        decreases len - i,
    {
        let c = chars.next().unwrap();
        let ok = ('a' <= c && c <= 'z') || ('A' <= c && c <= 'Z') || ('0' <= c && c <= '9') || c
            == '-' || c == '_';
        if !ok {
            assert(!is_id_char(session_id@[i as int]));
            return Err(RegistryError::InvalidSessionId);
        }
        i = i + 1;
    }
    Ok(())
}

/// A directory, by the text that the system puts before the name of an entry:
/// the directory's path with a separator at its end, where it needs one.
#[derive(Clone, Debug)]
pub struct Directory {
    pub prefix: String,
}

/// What Unix puts before the name of an entry of the directory `dir`.
pub open spec fn unix_prefix(dir: Seq<char>) -> Seq<char> {
    if dir.len() == 0 || dir.last() == '/' {
        dir
    } else {
        dir.push('/')
    }
}

/// The directory of this path, by the rules of Unix.
pub fn unix_directory(path: &str) -> (r: Directory)
    ensures
        r.prefix@ == unix_prefix(path@),
{
    let mut prefix = path.to_owned();
    let len: usize = path.unicode_len();
    if len > 0 && path.get_char(len - 1) != '/' {
        prefix.push('/');
    }
    Directory { prefix }
}

fn join(dir: &Directory, name: &str) -> (r: String)
    ensures
        r@ == dir.prefix@ + name@,
{
    let mut path = dir.prefix.clone();
    path.append(name);
    path
}

/// The path of the file of `session_id` whose name ends in `suffix`.
fn session_file(workers_dir: &Directory, session_id: &str, suffix: &str) -> (r: Result<
    String,
    RegistryError,
>)
    ensures
        match r {
            Ok(path) => valid_session_id(session_id@) && path@ == workers_dir.prefix@ + (
            session_id@ + suffix@),
            Err(e) => !valid_session_id(session_id@) && e == RegistryError::InvalidSessionId,
        },
{
    match validate_session_id(session_id) {
        Ok(()) => {
            let mut name = session_id.to_owned();
            name.append(suffix);
            Ok(join(workers_dir, name.as_str()))
        },
        Err(e) => Err(e),
    }
}

/// The directory that holds the workers' record files, logs and sockets:
/// `<app_dir>/acp-workers`.
pub fn workers_dir(app_dir: &Directory) -> (r: String)
    ensures
        r@ == app_dir.prefix@ + "acp-workers"@,
{
    join(app_dir, "acp-workers")
}

/// `<workers_dir>/<session_id>.json`.
pub fn record_path(workers_dir: &Directory, session_id: &str) -> (r: Result<String, RegistryError>)
    ensures
        match r {
            Ok(path) => valid_session_id(session_id@) && path@ == workers_dir.prefix@ + (
            session_id@ + ".json"@),
            Err(e) => !valid_session_id(session_id@) && e == RegistryError::InvalidSessionId,
        },
        r matches Ok(path) ==> path@ == workers_dir.prefix@ + session_files(session_id@)[0],
{
    session_file(workers_dir, session_id, ".json")
}

/// `<workers_dir>/<session_id>.json.tmp`: where a record is written in full
/// before it is renamed to its record path.
pub fn staged_record_path(workers_dir: &Directory, session_id: &str) -> (r: Result<String, RegistryError>)
    ensures
        match r {
            Ok(path) => valid_session_id(session_id@) && path@ == workers_dir.prefix@ + (
            session_id@ + ".json.tmp"@),
            Err(e) => !valid_session_id(session_id@) && e == RegistryError::InvalidSessionId,
        },
        r matches Ok(path) ==> path@ == workers_dir.prefix@ + session_files(session_id@)[1],
{
    session_file(workers_dir, session_id, ".json.tmp")
}

/// `<workers_dir>/<session_id>.sock`.
pub fn socket_path_for(workers_dir: &Directory, session_id: &str) -> (r: Result<String, RegistryError>)
    ensures
        match r {
            Ok(path) => valid_session_id(session_id@) && path@ == workers_dir.prefix@ + (
            session_id@ + ".sock"@),
            Err(e) => !valid_session_id(session_id@) && e == RegistryError::InvalidSessionId,
        },
        r matches Ok(path) ==> path@ == workers_dir.prefix@ + session_files(session_id@)[2],
{
    session_file(workers_dir, session_id, ".sock")
}

/// `<workers_dir>/<session_id>.log`, where the runner's stderr is drained to.
pub fn log_path_for(workers_dir: &Directory, session_id: &str) -> (r: Result<String, RegistryError>)
    ensures
        match r {
            Ok(path) => valid_session_id(session_id@) && path@ == workers_dir.prefix@ + (
            session_id@ + ".log"@),
            Err(e) => !valid_session_id(session_id@) && e == RegistryError::InvalidSessionId,
        },
        r matches Ok(path) ==> path@ == workers_dir.prefix@ + session_files(session_id@)[3],
{
    session_file(workers_dir, session_id, ".log")
}

/// `<workers_dir>/<session_id>.restart`, whose existence says that a teardown is
/// a restart.
pub fn restart_marker_path(workers_dir: &Directory, session_id: &str) -> (r: Result<
    String,
    RegistryError,
>)
    ensures
        match r {
            Ok(path) => valid_session_id(session_id@) && path@ == workers_dir.prefix@ + (
            session_id@ + ".restart"@),
            Err(e) => !valid_session_id(session_id@) && e == RegistryError::InvalidSessionId,
        },
        r matches Ok(path) ==> path@ == workers_dir.prefix@ + session_files(session_id@)[4],
{
    session_file(workers_dir, session_id, ".restart")
}

/// `<workers_dir>/.<session_id>.generation.lock`, the file whose lock fences the
/// session's record.
pub fn generation_lock_path(workers_dir: &Directory, session_id: &str) -> (r: Result<
    String,
    RegistryError,
>)
    ensures
        match r {
            Ok(path) => valid_session_id(session_id@) && path@ == workers_dir.prefix@ + (
            seq!['.'] + session_id@ + ".generation.lock"@),
            Err(e) => !valid_session_id(session_id@) && e == RegistryError::InvalidSessionId,
        },
        r matches Ok(path) ==> path@ == workers_dir.prefix@ + session_files(session_id@)[5],
{
    match validate_session_id(session_id) {
        Ok(()) => {
            let mut name = String::new();
            name.push('.');
            name.append(session_id);
            name.append(".generation.lock");
            assert(name@ =~= seq!['.'] + session_id@ + ".generation.lock"@);
            Ok(join(workers_dir, name.as_str()))
        },
        Err(e) => Err(e),
    }
}

/// Whether a directory entry of this name has the extension `json`. A name that
/// only starts with its one dot has no extension.
pub open spec fn has_json_extension(name: Seq<char>) -> bool {
    name.len() > 5 && name.skip(name.len() - 5) == ".json"@
}

/// Whether the file of this name is a record file.
pub fn is_record_file_name(name: &str) -> (r: bool)
    ensures
        r == has_json_extension(name@),
{
    let len: usize = name.unicode_len();
    len > 5 && text_eq(name.substring_char(len - 5, len), ".json")
}

/// A path's text cut at every `/`.
pub open spec fn split_at_slashes(path: Seq<char>) -> Seq<Seq<char>>
    decreases path.len(),
{
    if path.len() == 0 {
        seq![Seq::empty()]
    } else {
        let before = split_at_slashes(path.drop_last());
        if path.last() == '/' {
            before.push(Seq::empty())
        } else {
            before.drop_last().push(before.last().push(path.last()))
        }
    }
}

/// Whether a path starts at the root directory.
pub open spec fn is_rooted(path: Seq<char>) -> bool {
    path.len() > 0 && path[0] == '/'
}

/// The pieces that say where a path leads: not the empty ones, and `.` only as
/// the first piece of a relative path.
pub open spec fn significant_pieces(pieces: Seq<Seq<char>>, rooted: bool) -> Seq<Seq<char>>
    decreases pieces.len(),
{
    if pieces.len() == 0 {
        Seq::empty()
    } else {
        let before = significant_pieces(pieces.drop_last(), rooted);
        let piece = pieces.last();
        if piece.len() == 0 || (piece == seq!['.'] && (rooted || pieces.len() > 1)) {
            before
        } else {
            before.push(piece)
        }
    }
}

/// The components that Unix takes a path apart into: the root, if the path starts
/// there, and then its significant pieces.
pub open spec fn unix_components(path: Seq<char>) -> Seq<Seq<char>> {
    let pieces = significant_pieces(split_at_slashes(path), is_rooted(path));
    if is_rooted(path) {
        seq![seq!['/']] + pieces
    } else {
        pieces
    }
}

/// A path: its text, and the texts of the components that the system takes it
/// apart into.
#[derive(Clone, Debug)]
pub struct WorkerPath {
    pub text: String,
    pub components: Vec<String>,
}

/// Whether two paths are equal component by component, however they are spelled.
pub open spec fn paths_equal(a: WorkerPath, b: WorkerPath) -> bool {
    crate::text::texts(a.components@) == crate::text::texts(b.components@)
}

/// Whether `piece`, number `index` of a path, is significant.
fn is_significant(piece: &str, index: usize, rooted: bool) -> (r: bool)
    ensures
        r == !(piece@.len() == 0 || (piece@ == seq!['.'] && (rooted || index > 0))),
{
    if piece.unicode_len() == 0 {
        return false;
    }
    proof {
        reveal_strlit(".");
        assert("."@ =~= seq!['.']);
    }
    !(text_eq(piece, ".") && (rooted || index > 0))
}

/// The root as a component, if a path starts there.
spec fn root_of(rooted: bool) -> Seq<Seq<char>> {
    if rooted {
        seq![seq!['/']]
    } else {
        Seq::empty()
    }
}

fn components_of(path: &str) -> (r: Vec<String>)
    ensures
        crate::text::texts(r@) == unix_components(path@),
{
    let len: usize = path.unicode_len();
    let rooted = len > 0 && path.get_char(0) == '/';
    let mut chars = path.chars();
    let mut kept: Vec<String> = Vec::new();
    if rooted {
        let mut root = String::new();
        root.push('/');
        kept.push(root);
        assert(root@ =~= seq!['/']);
    }
    let mut piece = String::new();
    let mut count: usize = 0;
    let mut i: usize = 0;
    proof {
        assert(path@.take(0) =~= Seq::empty());
        reveal_with_fuel(significant_pieces, 2);
        assert(seq![Seq::<char>::empty()].drop_last() =~= Seq::empty());
        assert(crate::text::texts(kept@) =~= root_of(rooted) + Seq::<Seq<char>>::empty());
        assert(piece@ =~= Seq::empty());
    }
    while i < len
        invariant
            i <= len == path@.len(),
            count <= i,
            rooted == is_rooted(path@),
            vstd::std_specs::iter::IteratorSpec::remaining(&chars) == path@.skip(i as int),
            split_at_slashes(path@.take(i as int)).len() == count + 1,
            split_at_slashes(path@.take(i as int)).last() == piece@,
            crate::text::texts(kept@) == root_of(rooted) + significant_pieces(
                split_at_slashes(path@.take(i as int)).drop_last(),
                rooted,
            ),
        decreases len - i,
    {
        let ghost before = split_at_slashes(path@.take(i as int));
        let c = chars.next().unwrap();
        proof {
            assert(path@.take(i + 1).drop_last() =~= path@.take(i as int));
            assert(path@.take(i + 1).last() == c);
        }
        if c == '/' {
            let ghost kept_before = kept@;
            assert(before.push(Seq::empty()).drop_last() =~= before);
            if is_significant(piece.as_str(), count, rooted) {
                let ghost earlier = significant_pieces(before.drop_last(), rooted);
                kept.push(piece);
                assert(crate::text::texts(kept@) =~= crate::text::texts(kept_before).push(piece@));
                assert(root_of(rooted) + earlier.push(piece@) =~= (root_of(rooted) + earlier).push(
                    piece@,
                ));
            }
            piece = String::new();
            assert(piece@ =~= Seq::empty());
            count = count + 1;
        } else {
            piece.push(c);
            assert(before.drop_last().push(piece@).drop_last() =~= before.drop_last());
        }
        i = i + 1;
    }
    proof {
        assert(path@.take(len as int) =~= path@);
    }
    let ghost kept_before = kept@;
    if is_significant(piece.as_str(), count, rooted) {
        let ghost earlier = significant_pieces(split_at_slashes(path@).drop_last(), rooted);
        kept.push(piece);
        assert(crate::text::texts(kept@) =~= crate::text::texts(kept_before).push(piece@));
        assert(root_of(rooted) + earlier.push(piece@) =~= (root_of(rooted) + earlier).push(piece@));
    }
    assert(crate::text::texts(kept@) =~= unix_components(path@));
    kept
}

/// The path of this text, by the rules of Unix: repeated and trailing separators
/// do not count, nor does `.` but at the start of a relative path.
pub fn unix_path(text: &str) -> (r: WorkerPath)
    ensures
        r.text@ == text@,
        crate::text::texts(r.components@) == unix_components(text@),
{
    WorkerPath { text: text.to_owned(), components: components_of(text) }
}

/// Whether two paths are equal component by component.
pub fn same_path(a: &WorkerPath, b: &WorkerPath) -> (r: bool)
    ensures
        r == paths_equal(*a, *b),
{
    let ghost l = crate::text::texts(a.components@);
    let ghost rt = crate::text::texts(b.components@);
    if a.components.len() != b.components.len() {
        assert(l.len() != rt.len());
        return false;
    }
    let mut i: usize = 0;
    while i < a.components.len()
        invariant
            i <= a.components@.len() == b.components@.len(),
            l == crate::text::texts(a.components@),
            rt == crate::text::texts(b.components@),
            forall|j: int| 0 <= j < i ==> l[j] == rt[j],
        decreases a.components@.len() - i,
    {
        assert(l[i as int] == a.components@[i as int]@);
        assert(rt[i as int] == b.components@[i as int]@);
        if !text_eq(a.components[i].as_str(), b.components[i].as_str()) {
            return false;
        }
        i = i + 1;
    }
    assert(l =~= rt);
    true
}

/// A path with the same text and the same components.
pub fn copy_path(path: &WorkerPath) -> (r: WorkerPath)
    ensures
        r.text@ == path.text@,
        paths_equal(r, *path),
{
    let mut components: Vec<String> = Vec::new();
    let mut i: usize = 0;
    while i < path.components.len()
        invariant
            i <= path.components@.len(),
            crate::text::texts(components@) == crate::text::texts(path.components@).take(i as int),
        decreases path.components@.len() - i,
    {
        let ghost before = components@;
        components.push(path.components[i].clone());
        proof {
            let all = crate::text::texts(path.components@);
            assert(crate::text::texts(components@) =~= crate::text::texts(before).push(
                path.components@[i as int]@,
            ));
            assert(all.take(i + 1) =~= all.take(i as int).push(all[i as int]));
        }
        i = i + 1;
    }
    proof {
        let all = crate::text::texts(path.components@);
        assert(all.take(i as int) =~= all);
    }
    WorkerPath { text: path.text.clone(), components }
}

/// The names of a session's files: its record, the record while it is written,
/// its socket, its log, its restart marker and its lock file.
pub open spec fn session_files(id: Seq<char>) -> Seq<Seq<char>> {
    seq![
        id + ".json"@,
        id + ".json.tmp"@,
        id + ".sock"@,
        id + ".log"@,
        id + ".restart"@,
        seq!['.'] + id + ".generation.lock"@,
    ]
}

proof fn split_has_a_last(path: Seq<char>)
    ensures
        split_at_slashes(path).len() > 0,
    decreases path.len(),
{
    if path.len() > 0 {
        split_has_a_last(path.drop_last());
    }
}

proof fn split_of_extended(path: Seq<char>, name: Seq<char>)
    requires
        !name.contains('/'),
    ensures
        split_at_slashes(path + name) == split_at_slashes(path).drop_last().push(
            split_at_slashes(path).last() + name,
        ),
    decreases name.len(),
{
    split_has_a_last(path);
    let pieces = split_at_slashes(path);
    if name.len() == 0 {
        assert(path + name =~= path);
        assert(pieces.last() + name =~= pieces.last());
        assert(pieces.drop_last().push(pieces.last()) =~= pieces);
    } else {
        let before = name.drop_last();
        assert(!before.contains('/')) by {
            assert forall|i: int| 0 <= i < before.len() implies before[i] != '/' by {
                assert(name[i] == before[i]);
            }
        }
        split_of_extended(path, before);
        assert(name.last() != '/') by {
            assert(name[name.len() - 1] == name.last());
        }
        assert((path + name).drop_last() =~= path + before);
        let parts = pieces.drop_last().push(pieces.last() + before);
        assert(parts.drop_last() =~= pieces.drop_last());
        assert((pieces.last() + before).push(name.last()) =~= pieces.last() + name);
    }
}

/// Whether Unix can put this text before the name of an entry.
pub open spec fn is_unix_prefix(prefix: Seq<char>) -> bool {
    prefix.len() == 0 || prefix.last() == '/'
}

/// An entry of a directory leads where the directory leads, and then to the
/// entry.
proof fn components_of_entry(prefix: Seq<char>, name: Seq<char>)
    requires
        is_unix_prefix(prefix),
        name.len() > 1,
        !name.contains('/'),
    ensures
        unix_components(prefix + name) == unix_components(prefix).push(name),
{
    assert(name[0] != '/');
    assert(name != seq!['.']);
    split_has_a_last(prefix);
    let pieces = split_at_slashes(prefix);
    if prefix.len() > 0 {
        split_has_a_last(prefix.drop_last());
        assert((prefix + name)[0] == prefix[0]);
    }
    assert(is_rooted(prefix + name) == is_rooted(prefix));
    assert(pieces.last() =~= Seq::empty());
    split_of_extended(prefix, name);
    assert(pieces.last() + name =~= name);
    assert(pieces.drop_last().push(name).drop_last() =~= pieces.drop_last());
    assert(unix_components(prefix + name) =~= unix_components(prefix).push(name));
}

/// What Unix puts before the names of a directory's entries leads where the
/// directory leads.
pub proof fn prefixes_lead_to_their_directory(dir: Seq<char>)
    ensures
        is_unix_prefix(unix_prefix(dir)),
        unix_components(unix_prefix(dir)) == unix_components(dir),
{
    if dir.len() > 0 && dir.last() != '/' {
        let prefix = unix_prefix(dir);
        split_has_a_last(dir);
        let pieces = split_at_slashes(dir);
        assert(prefix.drop_last() =~= dir);
        assert(split_at_slashes(prefix) == pieces.push(Seq::empty()));
        assert(pieces.push(Seq::empty()).drop_last() =~= pieces);
        assert(is_rooted(prefix) == is_rooted(dir));
    }
}

proof fn ids_hold_no_dot(id: Seq<char>)
    requires
        valid_session_id(id),
    ensures
        !id.contains('.'),
{
    assert forall|i: int| 0 <= i < id.len() implies id[i] != '.' by {
        assert(is_id_char(id[i]));
    }
}

proof fn suffixes_revealed()
    ensures
        ".json"@ == seq!['.', 'j', 's', 'o', 'n'],
        ".json.tmp"@ == seq!['.', 'j', 's', 'o', 'n', '.', 't', 'm', 'p'],
        ".sock"@ == seq!['.', 's', 'o', 'c', 'k'],
        ".log"@ == seq!['.', 'l', 'o', 'g'],
        ".restart"@ == seq!['.', 'r', 'e', 's', 't', 'a', 'r', 't'],
        ".generation.lock"@ == seq![
            '.',
            'g',
            'e',
            'n',
            'e',
            'r',
            'a',
            't',
            'i',
            'o',
            'n',
            '.',
            'l',
            'o',
            'c',
            'k',
        ],
{
    reveal_strlit(".json");
    reveal_strlit(".json.tmp");
    reveal_strlit(".sock");
    reveal_strlit(".log");
    reveal_strlit(".restart");
    reveal_strlit(".generation.lock");
}

/// The name of every file of a valid session id is made of letters, digits, `-`,
/// `_` and dots, and not of dots alone. So on no system does it hold a separator,
/// and no id leads out of the workers directory or below it.
pub proof fn session_file_names_are_plain(id: Seq<char>, i: int)
    requires
        valid_session_id(id),
        0 <= i < session_files(id).len(),
    ensures
        session_files(id)[i].len() > 1,
        forall|k: int|
            0 <= k < session_files(id)[i].len() ==> is_id_char(#[trigger] session_files(id)[i][k])
                || session_files(id)[i][k] == '.',
        exists|k: int|
            0 <= k < session_files(id)[i].len() && is_id_char(#[trigger] session_files(id)[i][k]),
{
    suffixes_revealed();
    let name = session_files(id)[i];
    assert forall|k: int| 0 <= k < name.len() implies is_id_char(#[trigger] name[k]) || name[k]
        == '.' by {
        if i == 5 {
            if 1 <= k < 1 + id.len() {
                assert(name[k] == id[k - 1]);
            }
        } else if k < id.len() {
            assert(name[k] == id[k]);
        }
    }
    assert(is_id_char(id[0]));
    if i == 5 {
        assert(name[1] == id[0]);
    } else {
        assert(name[0] == id[0]);
    }
}

/// On Unix every file of a valid session id is an entry of the workers directory
/// itself: it leads where the directory leads, and then to the file.
pub proof fn session_files_stay_in_the_directory(prefix: Seq<char>, id: Seq<char>, i: int)
    requires
        is_unix_prefix(prefix),
        valid_session_id(id),
        0 <= i < session_files(id).len(),
    ensures
        unix_components(prefix + session_files(id)[i]) == unix_components(prefix).push(
            session_files(id)[i],
        ),
{
    session_file_names_are_plain(id, i);
    let name = session_files(id)[i];
    assert forall|k: int| 0 <= k < name.len() implies name[k] != '/' by {
        assert(is_id_char(name[k]) || name[k] == '.');
    }
    components_of_entry(prefix, name);
}

/// What follows an id in a file name begins with a dot, so the name tells where
/// the id ends.
proof fn name_splits_at_first_dot(a: Seq<char>, s: Seq<char>, b: Seq<char>, t: Seq<char>)
    requires
        !a.contains('.'),
        !b.contains('.'),
        s.len() > 0,
        t.len() > 0,
        s[0] == '.',
        t[0] == '.',
        a + s == b + t,
    ensures
        a == b,
        s == t,
{
    let whole = a + s;
    assert(whole[a.len() as int] == '.');
    assert((b + t)[b.len() as int] == '.');
    if a.len() < b.len() {
        assert(b[a.len() as int] == whole[a.len() as int]);
    } else if b.len() < a.len() {
        assert(a[b.len() as int] == whole[b.len() as int]);
    }
    assert(a =~= whole.take(a.len() as int));
    assert(b =~= whole.take(b.len() as int));
    assert(s =~= whole.skip(a.len() as int));
    assert(t =~= whole.skip(b.len() as int));
}

proof fn session_file_names_are_distinct(a: Seq<char>, i: int, b: Seq<char>, j: int)
    requires
        valid_session_id(a),
        valid_session_id(b),
        0 <= i < session_files(a).len(),
        0 <= j < session_files(b).len(),
        session_files(a)[i] == session_files(b)[j],
    ensures
        a == b,
        i == j,
{
    ids_hold_no_dot(a);
    ids_hold_no_dot(b);
    suffixes_revealed();
    let name = session_files(a)[i];
    let other = session_files(b)[j];
    assert(a[0] != '.' && b[0] != '.');
    if i == 5 && j == 5 {
        assert(name.skip(1) =~= a + ".generation.lock"@);
        assert(other.skip(1) =~= b + ".generation.lock"@);
        name_splits_at_first_dot(a, ".generation.lock"@, b, ".generation.lock"@);
    } else if i == 5 {
        assert(name[0] == '.' && other[0] == b[0]);
    } else if j == 5 {
        assert(other[0] == '.' && name[0] == a[0]);
    } else {
        let s = if i == 0 {
            ".json"@
        } else if i == 1 {
            ".json.tmp"@
        } else if i == 2 {
            ".sock"@
        } else if i == 3 {
            ".log"@
        } else {
            ".restart"@
        };
        let t = if j == 0 {
            ".json"@
        } else if j == 1 {
            ".json.tmp"@
        } else if j == 2 {
            ".sock"@
        } else if j == 3 {
            ".log"@
        } else {
            ".restart"@
        };
        assert(name == a + s && other == b + t);
        name_splits_at_first_dot(a, s, b, t);
        assert(s[1] == t[1] && s.len() == t.len());
    }
}

/// No two files of valid session ids share a path: neither two files of one
/// session nor files of two sessions. Their texts differ, and on Unix their
/// components do too.
pub proof fn session_files_are_distinct(
    prefix: Seq<char>,
    a: Seq<char>,
    i: int,
    b: Seq<char>,
    j: int,
)
    requires
        valid_session_id(a),
        valid_session_id(b),
        0 <= i < session_files(a).len(),
        0 <= j < session_files(b).len(),
        a != b || i != j,
    ensures
        prefix + session_files(a)[i] != prefix + session_files(b)[j],
        is_unix_prefix(prefix) ==> unix_components(prefix + session_files(a)[i])
            != unix_components(prefix + session_files(b)[j]),
{
    let left = session_files(a)[i];
    let right = session_files(b)[j];
    if left == right {
        session_file_names_are_distinct(a, i, b, j);
    }
    if prefix + left == prefix + right {
        assert(left =~= (prefix + left).skip(prefix.len() as int));
        assert(right =~= (prefix + right).skip(prefix.len() as int));
    }
    if is_unix_prefix(prefix) {
        session_files_stay_in_the_directory(prefix, a, i);
        session_files_stay_in_the_directory(prefix, b, j);
        assert(unix_components(prefix).push(left).last() == left);
        assert(unix_components(prefix).push(right).last() == right);
    }
}

/// Of a session's files only its record counts as a record file: a record that
/// is still being written is never listed.
pub proof fn only_records_are_listed(id: Seq<char>, i: int)
    requires
        valid_session_id(id),
        0 <= i < session_files(id).len(),
    ensures
        has_json_extension(session_files(id)[i]) <==> i == 0,
{
    suffixes_revealed();
    let name = session_files(id)[i];
    let end = name.skip(name.len() - 5);
    if i == 0 {
        assert(end =~= ".json"@);
    } else {
        assert(end[4] == name.last());
        assert(".json"@[4] == 'n');
    }
}

/// A session id is valid exactly where it has 1 to 128 characters and each is an
/// ASCII letter, an ASCII digit, a hyphen or an underscore, by code point.
pub proof fn valid_ids_are_short_and_plain(id: Seq<char>)
    ensures
        valid_session_id(id) <==> 1 <= id.len() <= 128 && forall|i: int|
            0 <= i < id.len() ==> (48 <= (#[trigger] id[i]) as int <= 57) || (65 <= id[i] as int
                <= 90) || (97 <= id[i] as int <= 122) || id[i] as int == 45 || id[i] as int == 95,
{
    if valid_session_id(id) {
        assert forall|i: int| 0 <= i < id.len() implies (48 <= (#[trigger] id[i]) as int <= 57) || (
        65 <= id[i] as int <= 90) || (97 <= id[i] as int <= 122) || id[i] as int == 45
            || id[i] as int == 95 by {
            assert(is_id_char(id[i]));
        }
    } else if 1 <= id.len() <= 128 {
        let i = choose|i: int| 0 <= i < id.len() && !is_id_char(#[trigger] id[i]);
        assert(!((48 <= id[i] as int <= 57) || (65 <= id[i] as int <= 90) || (97 <= id[i] as int
            <= 122) || id[i] as int == 45 || id[i] as int == 95));
    }
}

/// A name has the record extension exactly where it is something and then `.json`.
pub proof fn record_names_are_stems_with_the_extension(stem: Seq<char>, name: Seq<char>)
    ensures
        has_json_extension(stem + ".json"@) <==> stem.len() > 0,
        has_json_extension(name) ==> name == name.take(name.len() - 5) + ".json"@,
{
    reveal_strlit(".json");
    let whole = stem + ".json"@;
    assert(whole.skip(whole.len() - 5) =~= ".json"@);
    if has_json_extension(name) {
        assert(name =~= name.take(name.len() - 5) + name.skip(name.len() - 5));
    }
}

/// A path without a separator is one component, if it is not empty. One more piece
/// behind a separator is one more component, unless it is empty or `.`; where
/// nothing stands before the separator, the root does. So repeated and trailing
/// separators and later dots do not count, and everything else does.
pub proof fn components_are_the_pieces_between_separators(path: Seq<char>, piece: Seq<char>)
    requires
        !piece.contains('/'),
    ensures
        unix_components(piece) == (if piece.len() == 0 {
            Seq::<Seq<char>>::empty()
        } else {
            seq![piece]
        }),
        ({
            let before = if path.len() == 0 {
                seq![seq!['/']]
            } else {
                unix_components(path)
            };
            unix_components(path + seq!['/'] + piece) == (if piece.len() == 0 || piece == seq![
                '.',
            ] {
                before
            } else {
                before.push(piece)
            })
        }),
{
    let none = Seq::<char>::empty();
    split_of_extended(none, piece);
    assert(none + piece =~= piece);
    assert(split_at_slashes(none) =~= seq![none]);
    assert(split_at_slashes(piece) =~= seq![piece]);
    if piece.len() > 0 {
        assert(piece[0] != '/');
    }
    assert(seq![piece].drop_last() =~= Seq::empty());
    reveal_with_fuel(significant_pieces, 3);
    assert(unix_components(piece) =~= (if piece.len() == 0 {
        Seq::<Seq<char>>::empty()
    } else {
        seq![piece]
    }));
    let prefix = path + seq!['/'];
    let whole = prefix + piece;
    split_has_a_last(path);
    let pieces = split_at_slashes(path);
    assert(prefix.drop_last() =~= path);
    assert(split_at_slashes(prefix) == pieces.push(none));
    split_of_extended(prefix, piece);
    assert(pieces.push(none).drop_last() =~= pieces);
    assert(none + piece =~= piece);
    assert(split_at_slashes(whole) == pieces.push(piece));
    assert(pieces.push(piece).drop_last() =~= pieces);
    if path.len() == 0 {
        assert(whole[0] == '/');
        assert(path =~= none);
        assert(pieces.drop_last() =~= Seq::empty());
        assert(significant_pieces(pieces, true) =~= Seq::empty());
    } else {
        assert(whole[0] == path[0]);
    }
    let rooted = is_rooted(whole);
    let before = if path.len() == 0 {
        seq![seq!['/']]
    } else {
        unix_components(path)
    };
    assert(pieces.push(piece).len() > 1);
    assert(unix_components(whole) =~= (if piece.len() == 0 || piece == seq!['.'] {
        before
    } else {
        before.push(piece)
    }));
}

/// Two paths are equal exactly where they have as many components and each is
/// spelled alike; the texts have no part in it.
pub proof fn paths_are_equal_by_components(a: WorkerPath, b: WorkerPath)
    ensures
        paths_equal(a, b) <==> a.components@.len() == b.components@.len() && forall|i: int|
            0 <= i < a.components@.len() ==> (#[trigger] a.components@[i])@ == b.components@[i]@,
{
    let l = crate::text::texts(a.components@);
    let r = crate::text::texts(b.components@);
    if paths_equal(a, b) {
        assert(l.len() == r.len());
        assert forall|i: int| 0 <= i < a.components@.len() implies (#[trigger] a.components@[i])@
            == b.components@[i]@ by {
            assert(l[i] == r[i]);
        }
    } else if a.components@.len() == b.components@.len() && forall|i: int|
        0 <= i < a.components@.len() ==> (#[trigger] a.components@[i])@ == b.components@[i]@ {
        assert(l =~= r);
    }
}

/// The files of a session have these names.
pub proof fn session_files_have_these_names(id: Seq<char>)
    ensures
        session_files(id).len() == 6,
        session_files(id)[0] == id + ".json"@,
        session_files(id)[1] == id + ".json.tmp"@,
        session_files(id)[2] == id + ".sock"@,
        session_files(id)[3] == id + ".log"@,
        session_files(id)[4] == id + ".restart"@,
        session_files(id)[5] == seq!['.'] + id + ".generation.lock"@,
{
}

/// A directory's prefix is its path, with one separator more where it names
/// something and does not end in one.
pub proof fn prefixes_add_one_separator_where_needed(dir: Seq<char>, c: char)
    ensures
        unix_prefix(Seq::empty()) == Seq::<char>::empty(),
        unix_prefix(dir + seq!['/']) == dir + seq!['/'],
        c != '/' ==> unix_prefix(dir + seq![c]) == dir + seq![c] + seq!['/'],
{
    assert((dir + seq![c]).push('/') =~= dir + seq![c] + seq!['/']);
}

}
