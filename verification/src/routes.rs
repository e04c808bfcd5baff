//! The routes that the restricted profile admits.

use crate::restricted::{session_visible, Instance};
use crate::text::{find_char, starts_with, strip_prefix, text_eq};
use vstd::prelude::*;
use vstd::string::*;

verus! {

/// The method of a request.
#[derive(Clone, Copy, Debug, PartialEq, Eq, Structural)]
pub enum Method {
    Get,
    Post,
    Put,
    Patch,
    Delete,
    /// Any other method.
    Other,
}

/// Whether `path` is `prefix`, then `id`, then a `/` and `suffix`, where `id`
/// holds no `/`.
pub open spec fn is_under(
    path: Seq<char>,
    prefix: Seq<char>,
    id: Seq<char>,
    suffix: Seq<char>,
) -> bool {
    path == prefix + id + seq!['/'] + suffix && !id.contains('/')
}

/// Whether `path` is `prefix`, then one segment, then a `/` and `suffix`.
pub open spec fn has_suffix(path: Seq<char>, prefix: Seq<char>, suffix: Seq<char>) -> bool {
    exists|id: Seq<char>| is_under(path, prefix, id, suffix)
}

/// A path has at most one id and suffix under a prefix.
pub proof fn id_and_suffix_are_unique(
    path: Seq<char>,
    prefix: Seq<char>,
    id1: Seq<char>,
    suffix1: Seq<char>,
    id2: Seq<char>,
    suffix2: Seq<char>,
)
    requires
        is_under(path, prefix, id1, suffix1),
        is_under(path, prefix, id2, suffix2),
    ensures
        id1 == id2,
        suffix1 == suffix2,
{
    let n = prefix.len() as int;
    assert(path[n + id1.len()] == '/');
    assert(path[n + id2.len()] == '/');
    if id1.len() < id2.len() {
        assert(id2[id1.len() as int] == path[n + id1.len()]);
    }
    if id2.len() < id1.len() {
        assert(id1[id2.len() as int] == path[n + id2.len()]);
    }
    assert(id1 =~= path.subrange(n, n + id1.len()));
    assert(id2 =~= path.subrange(n, n + id2.len()));
    assert(suffix1 =~= path.skip(n + id1.len() + 1));
    assert(suffix2 =~= path.skip(n + id2.len() + 1));
}

/// What follows `prefix` and the next path segment.
fn suffix_under<'a>(path: &'a str, prefix: &str) -> (r: Option<&'a str>)
    ensures
        match r {
            Some(suffix) => has_suffix(path@, prefix@, suffix@),
            None => forall|suffix: Seq<char>| !has_suffix(path@, prefix@, suffix),
        },
{
    let rest = match strip_prefix(path, prefix) {
        Some(rest) => rest,
        None => {
            assert forall|suffix: Seq<char>| has_suffix(path@, prefix@, suffix) implies false by {
                assert(prefix@ =~= path@.subrange(0, prefix@.len() as int));
            }
            return None;
        },
    };
    let len: usize = rest.unicode_len();
    match find_char(rest, '/') {
        Some(i) => {
            let suffix = rest.substring_char(i + 1, len);
            proof {
                let id = rest@.take(i as int);
                assert(path@ =~= prefix@ + id + seq!['/'] + suffix@);
                assert(is_under(path@, prefix@, id, suffix@));
            }
            Some(suffix)
        },
        None => {
            assert forall|suffix: Seq<char>| has_suffix(path@, prefix@, suffix) implies false by {
                let id = choose|id: Seq<char>| is_under(path@, prefix@, id, suffix);
                assert(rest@[id.len() as int] == path@[prefix@.len() as int + id.len()]);
                assert(path@[prefix@.len() as int + id.len()] == '/');
                assert(rest@.contains('/'));
            }
            None
        },
    }
}

/// What follows `/api/sessions/<id>/`.
pub fn session_api_suffix(path: &str) -> (r: Option<&str>)
    ensures
        match r {
            Some(suffix) => has_suffix(path@, "/api/sessions/"@, suffix@),
            None => forall|suffix: Seq<char>| !has_suffix(path@, "/api/sessions/"@, suffix),
        },
{
    suffix_under(path, "/api/sessions/")
}

/// What follows `/sessions/<id>/`.
pub fn session_ws_suffix(path: &str) -> (r: Option<&str>)
    ensures
        match r {
            Some(suffix) => has_suffix(path@, "/sessions/"@, suffix@),
            None => forall|suffix: Seq<char>| !has_suffix(path@, "/sessions/"@, suffix),
        },
{
    suffix_under(path, "/sessions/")
}

/// Whether `path` is `prefix` and then the segment `id`, alone or with more
/// segments behind it.
pub open spec fn addresses(path: Seq<char>, prefix: Seq<char>, id: Seq<char>) -> bool {
    ||| path == prefix + id && !id.contains('/')
    ||| exists|suffix: Seq<char>| is_under(path, prefix, id, suffix)
}

/// Whether `path` is about the session `id`: the nonempty segment behind
/// `/api/sessions/` or `/sessions/`.
pub open spec fn concerns(path: Seq<char>, id: Seq<char>) -> bool {
    &&& id.len() > 0
    &&& addresses(path, "/api/sessions/"@, id) || addresses(path, "/sessions/"@, id)
}

/// A path has at most one first segment under a prefix.
proof fn segment_is_unique(path: Seq<char>, prefix: Seq<char>, id1: Seq<char>, id2: Seq<char>)
    requires
        addresses(path, prefix, id1),
        addresses(path, prefix, id2),
    ensures
        id1 == id2,
{
    let n = prefix.len() as int;
    assert(id1 =~= path.subrange(n, n + id1.len()));
    assert(id2 =~= path.subrange(n, n + id2.len()));
    if id1.len() < id2.len() {
        let suffix = choose|suffix: Seq<char>| is_under(path, prefix, id1, suffix);
        assert(is_under(path, prefix, id1, suffix));
        assert(path[n + id1.len()] == '/');
        assert(id2[id1.len() as int] == '/');
    }
    if id2.len() < id1.len() {
        let suffix = choose|suffix: Seq<char>| is_under(path, prefix, id2, suffix);
        assert(is_under(path, prefix, id2, suffix));
        assert(path[n + id2.len()] == '/');
        assert(id1[id2.len() as int] == '/');
    }
}

/// No path starts with both prefixes of session paths.
proof fn prefixes_exclude(path: Seq<char>)
    ensures
        !("/api/sessions/"@.is_prefix_of(path) && "/sessions/"@.is_prefix_of(path)),
{
    reveal_strlit("/api/sessions/");
    reveal_strlit("/sessions/");
    if "/api/sessions/"@.is_prefix_of(path) && "/sessions/"@.is_prefix_of(path) {
        assert(path[1] == "/api/sessions/"@[1]);
        assert(path[1] == "/sessions/"@[1]);
    }
}

proof fn addressed_path_has_prefix(path: Seq<char>, prefix: Seq<char>, id: Seq<char>)
    requires
        addresses(path, prefix, id),
    ensures
        prefix.is_prefix_of(path),
{
    assert(prefix =~= path.subrange(0, prefix.len() as int));
}

/// A path is about at most one session.
pub proof fn a_path_concerns_one_session(path: Seq<char>, id1: Seq<char>, id2: Seq<char>)
    requires
        concerns(path, id1),
        concerns(path, id2),
    ensures
        id1 == id2,
{
    prefixes_exclude(path);
    if addresses(path, "/api/sessions/"@, id1) {
        addressed_path_has_prefix(path, "/api/sessions/"@, id1);
        if addresses(path, "/sessions/"@, id2) {
            addressed_path_has_prefix(path, "/sessions/"@, id2);
        }
        segment_is_unique(path, "/api/sessions/"@, id1, id2);
    } else {
        addressed_path_has_prefix(path, "/sessions/"@, id1);
        if addresses(path, "/api/sessions/"@, id2) {
            addressed_path_has_prefix(path, "/api/sessions/"@, id2);
        }
        segment_is_unique(path, "/sessions/"@, id1, id2);
    }
}

/// The segment behind `prefix`.
fn segment_behind<'a>(path: &'a str, prefix: &str) -> (r: Option<&'a str>)
    ensures
        match r {
            Some(id) => addresses(path@, prefix@, id@),
            None => forall|id: Seq<char>| !addresses(path@, prefix@, id),
        },
{
    match strip_prefix(path, prefix) {
        Some(rest) => match find_char(rest, '/') {
            Some(i) => {
                let id = rest.substring_char(0, i);
                proof {
                    let suffix = rest@.skip(i + 1);
                    assert(path@ =~= prefix@ + id@ + seq!['/'] + suffix);
                    assert(is_under(path@, prefix@, id@, suffix));
                }
                Some(id)
            },
            None => Some(rest),
        },
        None => {
            assert forall|id: Seq<char>| !addresses(path@, prefix@, id) by {
                if addresses(path@, prefix@, id) {
                    addressed_path_has_prefix(path@, prefix@, id);
                }
            }
            None
        },
    }
}

/// The session that a path is about, if it is about one.
pub fn restricted_session_id(path: &str) -> (r: Option<&str>)
    ensures
        match r {
            Some(id) => concerns(path@, id@),
            None => forall|id: Seq<char>| !concerns(path@, id),
        },
{
    let found = match segment_behind(path, "/api/sessions/") {
        Some(id) => Some(id),
        None => segment_behind(path, "/sessions/"),
    };
    match found {
        Some(id) => {
            if id.is_empty() {
                assert forall|other: Seq<char>| !concerns(path@, other) by {
                    if concerns(path@, other) {
                        prefixes_exclude(path@);
                        if addresses(path@, "/api/sessions/"@, id@) {
                            addressed_path_has_prefix(path@, "/api/sessions/"@, id@);
                        } else {
                            addressed_path_has_prefix(path@, "/sessions/"@, id@);
                        }
                        if addresses(path@, "/api/sessions/"@, other) {
                            addressed_path_has_prefix(path@, "/api/sessions/"@, other);
                            segment_is_unique(path@, "/api/sessions/"@, id@, other);
                        } else {
                            addressed_path_has_prefix(path@, "/sessions/"@, other);
                            segment_is_unique(path@, "/sessions/"@, id@, other);
                        }
                    }
                }
                None
            } else {
                Some(id)
            }
        },
        None => None,
    }
}

/// The routes that are about no one session.
pub open spec fn is_fixed_route(method: Method, path: Seq<char>) -> bool {
    match method {
        Method::Get => {
            ||| path == "/api/about"@
            ||| path == "/api/login/status"@
            ||| path == "/api/sessions"@
            ||| path == "/api/app-state/web-ui-state"@
            ||| path == "/api/tips"@
            ||| path == "/api/skills"@
            ||| path == "/api/settings"@
            ||| path == "/api/settings/schema"@
            ||| path == "/api/sounds"@
            ||| path == "/api/themes"@
            ||| path == "/api/theme/current"@
            ||| "/api/sounds/file/"@.is_prefix_of(path)
            ||| "/api/themes/"@.is_prefix_of(path)
        },
        Method::Post => {
            ||| path == "/api/login"@
            ||| path == "/api/logout"@
            ||| path == "/api/sessions"@
            ||| path == "/api/maya/import-session"@
            ||| path == "/api/presence"@
            ||| path == "/api/tips/show"@
            ||| path == "/api/app-state/tip-seen"@
        },
        Method::Put => {
            ||| path == "/api/workspace-ordering"@
        },
        Method::Patch => {
            ||| path == "/api/app-state/web-ui-state"@
            ||| path == "/api/profiles/maya/settings"@
            ||| path == "/api/theme"@
        },
        Method::Delete => false,
        Method::Other => false,
    }
}

/// What may be done with a session, by the rest of the path behind its id.
pub open spec fn is_session_action(method: Method, suffix: Seq<char>) -> bool {
    match method {
        Method::Get => {
            ||| suffix == "acp/replay"@
            ||| suffix == "acp/files"@
            ||| suffix == "acp/context-primer"@
            ||| suffix == "diff/files"@
            ||| suffix == "diff/file"@
            ||| suffix == "file"@
            ||| suffix == "queue"@
            ||| "acp/attachments/"@.is_prefix_of(suffix)
            ||| "artifacts/"@.is_prefix_of(suffix)
        },
        Method::Post => {
            ||| suffix == "trash"@
            ||| suffix == "restore"@
            ||| suffix == "summarize"@
            ||| suffix == "stop"@
            ||| suffix == "start"@
            ||| suffix == "smart-rename"@
            ||| suffix == "acp/spawn"@
            ||| suffix == "acp/prompt"@
            ||| suffix == "acp/cancel"@
            ||| suffix == "acp/force_end_turn"@
            ||| suffix == "acp/mode"@
            ||| suffix == "acp/config-option"@
            ||| suffix == "terminal"@
            ||| suffix == "queue"@
            ||| "acp/approvals/"@.is_prefix_of(suffix)
            ||| "acp/elicitations/"@.is_prefix_of(suffix)
        },
        Method::Put => false,
        Method::Patch => {
            ||| suffix == "archive"@
            ||| suffix == "group"@
            ||| suffix == "notifications"@
            ||| suffix == "pin"@
            ||| suffix == "color"@
            ||| suffix == "snooze"@
            ||| suffix == "unread"@
            ||| "queue/"@.is_prefix_of(suffix)
        },
        Method::Delete => {
            ||| suffix == "terminal"@
            ||| suffix == "queue"@
            ||| "queue/"@.is_prefix_of(suffix)
        },
        Method::Other => false,
    }
}

/// The routes of one session: changing and deleting the session itself, and the
/// actions on it.
pub open spec fn is_session_route(method: Method, path: Seq<char>) -> bool {
    ||| (method == Method::Patch || method == Method::Delete) && exists|id: Seq<char>|
        path == "/api/sessions/"@ + id && !(#[trigger] id.contains('/'))
    ||| exists|suffix: Seq<char>|
        has_suffix(path, "/api/sessions/"@, suffix) && is_session_action(method, suffix)
}

/// The live transports of one session.
pub open spec fn is_session_transport(method: Method, path: Seq<char>) -> bool {
    method == Method::Get && (has_suffix(path, "/sessions/"@, "acp/ws"@) || has_suffix(
        path,
        "/sessions/"@,
        "terminal/live-ws"@,
    ))
}

/// The static assets: everything but the API and the session transports, read
/// only.
pub open spec fn is_asset(method: Method, path: Seq<char>) -> bool {
    method == Method::Get && !"/api/"@.is_prefix_of(path) && !"/sessions/"@.is_prefix_of(path)
}

/// The routes that the restricted profile admits. An API or transport route that
/// is not named is refused.
pub open spec fn is_admitted(method: Method, path: Seq<char>) -> bool {
    ||| is_fixed_route(method, path)
    ||| is_session_route(method, path)
    ||| is_session_transport(method, path)
    ||| is_asset(method, path)
}

fn fixed_route(method: Method, path: &str) -> (r: bool)
    ensures
        r == is_fixed_route(method, path@),
{
    match method {
        Method::Get => text_eq(path, "/api/about")
            || text_eq(path, "/api/login/status")
            || text_eq(path, "/api/sessions")
            || text_eq(path, "/api/app-state/web-ui-state")
            || text_eq(path, "/api/tips")
            || text_eq(path, "/api/skills")
            || text_eq(path, "/api/settings")
            || text_eq(path, "/api/settings/schema")
            || text_eq(path, "/api/sounds")
            || text_eq(path, "/api/themes")
            || text_eq(path, "/api/theme/current")
            || starts_with(path, "/api/sounds/file/")
            || starts_with(path, "/api/themes/"),
        Method::Post => text_eq(path, "/api/login")
            || text_eq(path, "/api/logout")
            || text_eq(path, "/api/sessions")
            || text_eq(path, "/api/maya/import-session")
            || text_eq(path, "/api/presence")
            || text_eq(path, "/api/tips/show")
            || text_eq(path, "/api/app-state/tip-seen"),
        Method::Put => text_eq(path, "/api/workspace-ordering"),
        Method::Patch => text_eq(path, "/api/app-state/web-ui-state")
            || text_eq(path, "/api/profiles/maya/settings")
            || text_eq(path, "/api/theme"),
        Method::Delete => false,
        Method::Other => false,
    }
}

fn session_action(method: Method, suffix: &str) -> (r: bool)
    ensures
        r == is_session_action(method, suffix@),
{
    match method {
        Method::Get => text_eq(suffix, "acp/replay")
            || text_eq(suffix, "acp/files")
            || text_eq(suffix, "acp/context-primer")
            || text_eq(suffix, "diff/files")
            || text_eq(suffix, "diff/file")
            || text_eq(suffix, "file")
            || text_eq(suffix, "queue")
            || starts_with(suffix, "acp/attachments/")
            || starts_with(suffix, "artifacts/"),
        Method::Post => text_eq(suffix, "trash")
            || text_eq(suffix, "restore")
            || text_eq(suffix, "summarize")
            || text_eq(suffix, "stop")
            || text_eq(suffix, "start")
            || text_eq(suffix, "smart-rename")
            || text_eq(suffix, "acp/spawn")
            || text_eq(suffix, "acp/prompt")
            || text_eq(suffix, "acp/cancel")
            || text_eq(suffix, "acp/force_end_turn")
            || text_eq(suffix, "acp/mode")
            || text_eq(suffix, "acp/config-option")
            || text_eq(suffix, "terminal")
            || text_eq(suffix, "queue")
            || starts_with(suffix, "acp/approvals/")
            || starts_with(suffix, "acp/elicitations/"),
        Method::Put => false,
        Method::Patch => text_eq(suffix, "archive")
            || text_eq(suffix, "group")
            || text_eq(suffix, "notifications")
            || text_eq(suffix, "pin")
            || text_eq(suffix, "color")
            || text_eq(suffix, "snooze")
            || text_eq(suffix, "unread")
            || starts_with(suffix, "queue/"),
        Method::Delete => text_eq(suffix, "terminal")
            || text_eq(suffix, "queue")
            || starts_with(suffix, "queue/"),
        Method::Other => false,
    }
}

proof fn suffix_is_unique(path: Seq<char>, prefix: Seq<char>, a: Seq<char>, b: Seq<char>)
    requires
        has_suffix(path, prefix, a),
        has_suffix(path, prefix, b),
    ensures
        a == b,
{
    let id1 = choose|id: Seq<char>| is_under(path, prefix, id, a);
    let id2 = choose|id: Seq<char>| is_under(path, prefix, id, b);
    id_and_suffix_are_unique(path, prefix, id1, a, id2, b);
}

proof fn suffixed_path_has_prefix(path: Seq<char>, prefix: Seq<char>, suffix: Seq<char>)
    requires
        has_suffix(path, prefix, suffix),
    ensures
        prefix.is_prefix_of(path),
{
    let id = choose|id: Seq<char>| is_under(path, prefix, id, suffix);
    assert(prefix =~= path.subrange(0, prefix.len() as int));
}

/// Session paths of the API are API paths.
proof fn session_paths_are_api_paths(path: Seq<char>)
    requires
        "/api/sessions/"@.is_prefix_of(path),
    ensures
        "/api/"@.is_prefix_of(path),
{
    reveal_strlit("/api/sessions/");
    reveal_strlit("/api/");
    assert("/api/"@ =~= "/api/sessions/"@.subrange(0, 5));
    assert("/api/"@ =~= path.subrange(0, 5));
}

/// Whether the restricted profile admits a request.
pub fn route_allowed(method: Method, path: &str) -> (r: bool)
    ensures
        r == is_admitted(method, path@),
{
    if fixed_route(method, path) {
        return true;
    }
    if let Some(rest) = strip_prefix(path, "/api/sessions/") {
        proof {
            prefixes_exclude(path@);
            session_paths_are_api_paths(path@);
            if is_session_transport(method, path@) {
                if has_suffix(path@, "/sessions/"@, "acp/ws"@) {
                    suffixed_path_has_prefix(path@, "/sessions/"@, "acp/ws"@);
                } else {
                    suffixed_path_has_prefix(path@, "/sessions/"@, "terminal/live-ws"@);
                }
            }
        }
        match session_api_suffix(path) {
            Some(suffix) => {
                proof {
                    assert forall|other: Seq<char>|
                        has_suffix(path@, "/api/sessions/"@, other) implies other == suffix@ by {
                        suffix_is_unique(path@, "/api/sessions/"@, other, suffix@);
                    }
                    let id = choose|id: Seq<char>|
                        is_under(path@, "/api/sessions/"@, id, suffix@);
                    let n = "/api/sessions/"@.len() as int;
                    assert(path@[n + id.len()] == '/');
                    assert(rest@[id.len() as int] == '/');
                    assert forall|own: Seq<char>|
                        path@ == "/api/sessions/"@ + own implies #[trigger] own.contains('/') by {
                        assert(own =~= path@.skip(n));
                        assert(rest@ =~= path@.skip(n));
                    }
                }
                return session_action(method, suffix);
            },
            None => {
                proof {
                    if rest@.contains('/') {
                        contains_slash_has_suffix(path@, "/api/sessions/"@, rest@);
                    }
                    assert(!rest@.contains('/'));
                }
                return method == Method::Patch || method == Method::Delete;
            },
        }
    }
    proof {
        assert forall|own: Seq<char>| path@ == "/api/sessions/"@ + own implies #[trigger] own.contains('/') && false by {
            assert("/api/sessions/"@ =~= path@.subrange(0, "/api/sessions/"@.len() as int));
        }
        assert forall|suffix: Seq<char>| has_suffix(path@, "/api/sessions/"@, suffix) implies false by {
            suffixed_path_has_prefix(path@, "/api/sessions/"@, suffix);
        }
    }
    if let Some(suffix) = session_ws_suffix(path) {
        proof {
            suffixed_path_has_prefix(path@, "/sessions/"@, suffix@);
            assert forall|other: Seq<char>|
                has_suffix(path@, "/sessions/"@, other) implies other == suffix@ by {
                suffix_is_unique(path@, "/sessions/"@, other, suffix@);
            }
        }
        return method == Method::Get && (text_eq(suffix, "acp/ws") || text_eq(
            suffix,
            "terminal/live-ws",
        ));
    }
    method == Method::Get && !starts_with(path, "/api/") && !starts_with(path, "/sessions/")
}

proof fn contains_slash_has_suffix(path: Seq<char>, prefix: Seq<char>, rest: Seq<char>)
    requires
        path == prefix + rest,
        rest.contains('/'),
    ensures
        exists|suffix: Seq<char>| has_suffix(path, prefix, suffix),
{
    rest.index_of_first_ensures('/');
    let i = rest.index_of_first('/')->0;
    let id = rest.take(i);
    let suffix = rest.skip(i + 1);
    assert(path =~= prefix + id + seq!['/'] + suffix);
    assert(is_under(path, prefix, id, suffix));
    assert(has_suffix(path, prefix, suffix));
}

/// What a refused request is answered.
#[derive(Clone, Copy, Debug)]
pub struct Refusal {
    /// The HTTP status.
    pub status: u16,
    /// The `error` of the answer.
    pub error: &'static str,
    /// The `message` of the answer.
    pub message: &'static str,
}

/// What becomes of a request.
#[derive(Clone, Copy, Debug)]
pub enum RouteVerdict {
    Forward,
    Refuse(Refusal),
}

/// The answer to a request that the profile does not admit.
pub open spec fn is_disabled_answer(refusal: Refusal) -> bool {
    &&& refusal.status == 403
    &&& refusal.error@ == "maya_restricted"@
    &&& refusal.message@ == "This route is disabled by the Maya restricted profile"@
}

/// The answer to a request about a session that the profile does not show.
pub open spec fn is_not_found_answer(refusal: Refusal) -> bool {
    &&& refusal.status == 404
    &&& refusal.error@ == "not_found"@
    &&& refusal.message@ == "Session not found"@
}

/// Whether the session that a path is about, if it is about one, belongs to the
/// restricted profile.
pub open spec fn concerns_only_visible(path: Seq<char>, instances: Seq<Instance>) -> bool {
    forall|id: Seq<char>| #[trigger]
        concerns(path, id) ==> crate::restricted::is_visible(instances, id)
}

/// Whether a request is forwarded.
pub open spec fn is_forwarded(
    maya_restricted: bool,
    method: Method,
    path: Seq<char>,
    instances: Seq<Instance>,
) -> bool {
    maya_restricted ==> is_admitted(method, path) && concerns_only_visible(path, instances)
}

/// What becomes of a request. Under the restricted profile a route that is not
/// admitted is answered as disabled, and an admitted one is answered as not found
/// if it is about a session that does not belong to the profile. Everything else
/// is forwarded.
pub fn enforce_routes(
    maya_restricted: bool,
    method: Method,
    path: &str,
    instances: &Vec<Instance>,
) -> (r: RouteVerdict)
    ensures
        match r {
            RouteVerdict::Forward => !maya_restricted || (is_admitted(method, path@)
                && concerns_only_visible(path@, instances@)),
            RouteVerdict::Refuse(refusal) => maya_restricted && if !is_admitted(method, path@) {
                is_disabled_answer(refusal)
            } else {
                !concerns_only_visible(path@, instances@) && is_not_found_answer(refusal)
            },
        },
        r is Forward <==> is_forwarded(maya_restricted, method, path@, instances@),
        r matches RouteVerdict::Refuse(refusal) ==> refusal.status == (if is_admitted(
            method,
            path@,
        ) {
            404u16
        } else {
            403u16
        }),
{
    if !maya_restricted {
        return RouteVerdict::Forward;
    }
    if !route_allowed(method, path) {
        return RouteVerdict::Refuse(
            Refusal {
                status: 403,
                error: "maya_restricted",
                message: "This route is disabled by the Maya restricted profile",
            },
        );
    }
    if let Some(id) = restricted_session_id(path) {
        if !session_visible(instances, id) {
            return RouteVerdict::Refuse(
                Refusal { status: 404, error: "not_found", message: "Session not found" },
            );
        }
        proof {
            assert forall|other: Seq<char>| #[trigger]
                concerns(path@, other) implies crate::restricted::is_visible(
                instances@,
                other,
            ) by {
                a_path_concerns_one_session(path@, id@, other);
            }
        }
    }
    RouteVerdict::Forward
}

/// Every fixed route is an API route, and none is under a session.
proof fn fixed_routes_are_api_routes(method: Method, path: Seq<char>)
    requires
        is_fixed_route(method, path),
    ensures
        "/api/"@.is_prefix_of(path),
        !"/api/sessions/"@.is_prefix_of(path),
{
    reveal_strlit("/api/sessions/");
    reveal_strlit("/api/");
    reveal_strlit("/api/about");
    reveal_strlit("/api/login/status");
    reveal_strlit("/api/sessions");
    reveal_strlit("/api/app-state/web-ui-state");
    reveal_strlit("/api/tips");
    reveal_strlit("/api/skills");
    reveal_strlit("/api/settings");
    reveal_strlit("/api/settings/schema");
    reveal_strlit("/api/sounds");
    reveal_strlit("/api/themes");
    reveal_strlit("/api/theme/current");
    reveal_strlit("/api/sounds/file/");
    reveal_strlit("/api/themes/");
    reveal_strlit("/api/login");
    reveal_strlit("/api/logout");
    reveal_strlit("/api/maya/import-session");
    reveal_strlit("/api/presence");
    reveal_strlit("/api/tips/show");
    reveal_strlit("/api/app-state/tip-seen");
    reveal_strlit("/api/workspace-ordering");
    reveal_strlit("/api/profiles/maya/settings");
    reveal_strlit("/api/theme");
    assert("/api/"@ =~= path.subrange(0, 5));
    let session = "/api/sessions/"@;
    if session.is_prefix_of(path) {
        assert(path[5] == session[5] && path[6] == session[6] && path[7] == session[7]);
        assert(path.len() >= 14);
        if "/api/sounds/file/"@.is_prefix_of(path) {
            assert(path[6] == "/api/sounds/file/"@[6]);
        }
        if "/api/themes/"@.is_prefix_of(path) {
            assert(path[5] == "/api/themes/"@[5]);
        }
    }
}

/// Outside the API and the session transports exactly reading is admitted.
pub proof fn assets_are_read_only(method: Method, path: Seq<char>)
    requires
        !"/api/"@.is_prefix_of(path),
        !"/sessions/"@.is_prefix_of(path),
    ensures
        is_admitted(method, path) <==> method == Method::Get,
{
    if is_fixed_route(method, path) {
        fixed_routes_are_api_routes(method, path);
    }
    if "/api/sessions/"@.is_prefix_of(path) {
        session_paths_are_api_paths(path);
    }
    if is_session_route(method, path) {
        session_routes_have_the_prefix(method, path);
    }
    if is_session_transport(method, path) {
        transports_have_the_prefix(method, path);
    }
}

proof fn session_routes_have_the_prefix(method: Method, path: Seq<char>)
    requires
        is_session_route(method, path),
    ensures
        "/api/sessions/"@.is_prefix_of(path),
{
    if exists|suffix: Seq<char>| has_suffix(path, "/api/sessions/"@, suffix) && is_session_action(
        method,
        suffix,
    ) {
        let suffix = choose|suffix: Seq<char>|
            has_suffix(path, "/api/sessions/"@, suffix) && is_session_action(method, suffix);
        suffixed_path_has_prefix(path, "/api/sessions/"@, suffix);
    } else {
        assert("/api/sessions/"@ =~= path.subrange(0, "/api/sessions/"@.len() as int));
    }
}

proof fn transports_have_the_prefix(method: Method, path: Seq<char>)
    requires
        is_session_transport(method, path),
    ensures
        "/sessions/"@.is_prefix_of(path),
{
    if has_suffix(path, "/sessions/"@, "acp/ws"@) {
        suffixed_path_has_prefix(path, "/sessions/"@, "acp/ws"@);
    } else {
        suffixed_path_has_prefix(path, "/sessions/"@, "terminal/live-ws"@);
    }
}

/// An API or transport route that is not named is refused, whatever its method.
pub proof fn unnamed_routes_are_refused(method: Method, path: Seq<char>)
    requires
        "/api/"@.is_prefix_of(path) || "/sessions/"@.is_prefix_of(path),
        !is_fixed_route(method, path),
        !is_session_route(method, path),
        !is_session_transport(method, path),
    ensures
        !is_admitted(method, path),
{
}

/// An admitted route of the form `/api/sessions/<id>`, `/api/sessions/<id>/..` or
/// `/sessions/<id>/..` with a nonempty id is guarded by exactly that session: it
/// is not forwarded unless the session `<id>` belongs to the restricted profile.
pub proof fn session_routes_are_guarded_by_their_session(
    path: Seq<char>,
    id: Seq<char>,
    instances: Seq<Instance>,
)
    requires
        id.len() > 0,
        addresses(path, "/api/sessions/"@, id) || addresses(path, "/sessions/"@, id),
    ensures
        concerns_only_visible(path, instances) <==> crate::restricted::is_visible(instances, id),
{
    assert(concerns(path, id));
    assert forall|other: Seq<char>| #[trigger]
        concerns(path, other) && crate::restricted::is_visible(
            instances,
            id,
        ) implies crate::restricted::is_visible(instances, other) by {
        a_path_concerns_one_session(path, id, other);
    }
}

/// No fixed route lies under `/api/sessions/`.
proof fn fixed_routes_are_about_no_session(method: Method, path: Seq<char>)
    requires
        "/api/sessions/"@.is_prefix_of(path),
    ensures
        !is_fixed_route(method, path),
{
    if is_fixed_route(method, path) {
        fixed_routes_are_api_routes(method, path);
    }
}

/// The admitted API routes that are about no one session are these and no others:
/// for each method a list of paths, and two directories to read from.
pub proof fn fixed_routes_are_listed(method: Method, path: Seq<char>)
    requires
        "/api/"@.is_prefix_of(path),
        !"/api/sessions/"@.is_prefix_of(path),
    ensures
        is_admitted(method, path) <==> (match method {
            Method::Get => seq![
                "/api/about"@,
                "/api/login/status"@,
                "/api/sessions"@,
                "/api/app-state/web-ui-state"@,
                "/api/tips"@,
                "/api/skills"@,
                "/api/settings"@,
                "/api/settings/schema"@,
                "/api/sounds"@,
                "/api/themes"@,
                "/api/theme/current"@,
            ].contains(path) || "/api/sounds/file/"@.is_prefix_of(path)
                || "/api/themes/"@.is_prefix_of(path),
            Method::Post => seq![
                "/api/login"@,
                "/api/logout"@,
                "/api/sessions"@,
                "/api/maya/import-session"@,
                "/api/presence"@,
                "/api/tips/show"@,
                "/api/app-state/tip-seen"@,
            ].contains(path),
            Method::Put => path == "/api/workspace-ordering"@,
            Method::Patch => seq![
                "/api/app-state/web-ui-state"@,
                "/api/profiles/maya/settings"@,
                "/api/theme"@,
            ].contains(path),
            Method::Delete => false,
            Method::Other => false,
        }),
{
    let get = seq![
        "/api/about"@,
        "/api/login/status"@,
        "/api/sessions"@,
        "/api/app-state/web-ui-state"@,
        "/api/tips"@,
        "/api/skills"@,
        "/api/settings"@,
        "/api/settings/schema"@,
        "/api/sounds"@,
        "/api/themes"@,
        "/api/theme/current"@,
    ];
    let post = seq![
        "/api/login"@,
        "/api/logout"@,
        "/api/sessions"@,
        "/api/maya/import-session"@,
        "/api/presence"@,
        "/api/tips/show"@,
        "/api/app-state/tip-seen"@,
    ];
    let patch = seq!["/api/app-state/web-ui-state"@, "/api/profiles/maya/settings"@, "/api/theme"@];
    api_routes_are_fixed_routes(method, path);
    assert(get[0] == "/api/about"@ && get[1] == "/api/login/status"@ && get[2] == "/api/sessions"@
        && get[3] == "/api/app-state/web-ui-state"@ && get[4] == "/api/tips"@ && get[5]
        == "/api/skills"@ && get[6] == "/api/settings"@ && get[7] == "/api/settings/schema"@
        && get[8] == "/api/sounds"@ && get[9] == "/api/themes"@ && get[10]
        == "/api/theme/current"@);
    assert(post[0] == "/api/login"@ && post[1] == "/api/logout"@ && post[2] == "/api/sessions"@
        && post[3] == "/api/maya/import-session"@ && post[4] == "/api/presence"@ && post[5]
        == "/api/tips/show"@ && post[6] == "/api/app-state/tip-seen"@);
    assert(patch[0] == "/api/app-state/web-ui-state"@ && patch[1] == "/api/profiles/maya/settings"@
        && patch[2] == "/api/theme"@);
}

proof fn api_routes_are_fixed_routes(method: Method, path: Seq<char>)
    requires
        "/api/"@.is_prefix_of(path),
        !"/api/sessions/"@.is_prefix_of(path),
    ensures
        is_admitted(method, path) == is_fixed_route(method, path),
{
    if is_session_route(method, path) {
        session_routes_have_the_prefix(method, path);
    }
    if is_session_transport(method, path) {
        transports_have_the_prefix(method, path);
        reveal_strlit("/api/");
        reveal_strlit("/sessions/");
        assert(path[1] == "/api/"@[1]);
        assert(path[1] == "/sessions/"@[1]);
    }
}

/// What may be done with a session goes by its method and the rest of the path
/// alone: these actions and no others.
pub proof fn session_actions_are_listed(method: Method, id: Seq<char>, suffix: Seq<char>)
    requires
        !id.contains('/'),
    ensures
        is_admitted(method, "/api/sessions/"@ + id + seq!['/'] + suffix) <==> (match method {
            Method::Get => seq![
                "acp/replay"@,
                "acp/files"@,
                "acp/context-primer"@,
                "diff/files"@,
                "diff/file"@,
                "file"@,
                "queue"@,
            ].contains(suffix) || "acp/attachments/"@.is_prefix_of(suffix)
                || "artifacts/"@.is_prefix_of(suffix),
            Method::Post => seq![
                "trash"@,
                "restore"@,
                "summarize"@,
                "stop"@,
                "start"@,
                "smart-rename"@,
                "acp/spawn"@,
                "acp/prompt"@,
                "acp/cancel"@,
                "acp/force_end_turn"@,
                "acp/mode"@,
                "acp/config-option"@,
                "terminal"@,
                "queue"@,
            ].contains(suffix) || "acp/approvals/"@.is_prefix_of(suffix)
                || "acp/elicitations/"@.is_prefix_of(suffix),
            Method::Put => false,
            Method::Patch => seq![
                "archive"@,
                "group"@,
                "notifications"@,
                "pin"@,
                "color"@,
                "snooze"@,
                "unread"@,
            ].contains(suffix) || "queue/"@.is_prefix_of(suffix),
            Method::Delete => seq![
                "terminal"@,
                "queue"@,
            ].contains(suffix) || "queue/"@.is_prefix_of(suffix),
            Method::Other => false,
        }),
{
    let get = seq![
        "acp/replay"@,
        "acp/files"@,
        "acp/context-primer"@,
        "diff/files"@,
        "diff/file"@,
        "file"@,
        "queue"@,
    ];
    assert(get[0] == "acp/replay"@ && get[1] == "acp/files"@ && get[2] == "acp/context-primer"@
        && get[3] == "diff/files"@ && get[4] == "diff/file"@ && get[5] == "file"@
        && get[6] == "queue"@);
    let post = seq![
        "trash"@,
        "restore"@,
        "summarize"@,
        "stop"@,
        "start"@,
        "smart-rename"@,
        "acp/spawn"@,
        "acp/prompt"@,
        "acp/cancel"@,
        "acp/force_end_turn"@,
        "acp/mode"@,
        "acp/config-option"@,
        "terminal"@,
        "queue"@,
    ];
    assert(post[0] == "trash"@ && post[1] == "restore"@ && post[2] == "summarize"@
        && post[3] == "stop"@ && post[4] == "start"@ && post[5] == "smart-rename"@
        && post[6] == "acp/spawn"@ && post[7] == "acp/prompt"@ && post[8] == "acp/cancel"@
        && post[9] == "acp/force_end_turn"@ && post[10] == "acp/mode"@
        && post[11] == "acp/config-option"@ && post[12] == "terminal"@ && post[13] == "queue"@);
    let patch = seq![
        "archive"@,
        "group"@,
        "notifications"@,
        "pin"@,
        "color"@,
        "snooze"@,
        "unread"@,
    ];
    assert(patch[0] == "archive"@ && patch[1] == "group"@ && patch[2] == "notifications"@
        && patch[3] == "pin"@ && patch[4] == "color"@ && patch[5] == "snooze"@
        && patch[6] == "unread"@);
    let delete = seq![
        "terminal"@,
        "queue"@,
    ];
    assert(delete[0] == "terminal"@ && delete[1] == "queue"@);
    let path = "/api/sessions/"@ + id + seq!['/'] + suffix;
    let n = "/api/sessions/"@.len() as int;
    assert(is_under(path, "/api/sessions/"@, id, suffix));
    assert(has_suffix(path, "/api/sessions/"@, suffix));
    suffixed_path_has_prefix(path, "/api/sessions/"@, suffix);
    fixed_routes_are_about_no_session(method, path);
    session_paths_are_api_paths(path);
    prefixes_exclude(path);
    if is_session_transport(method, path) {
        transports_have_the_prefix(method, path);
    }
    assert(is_session_route(method, path) ==> is_session_action(method, suffix)) by {
        assert forall|own: Seq<char>| path == "/api/sessions/"@ + own implies #[trigger] own.contains(
            '/',
        ) by {
            assert(own =~= path.skip(n));
            assert(own[id.len() as int] == '/');
        }
        assert forall|other: Seq<char>| has_suffix(path, "/api/sessions/"@, other) implies other
            == suffix by {
            suffix_is_unique(path, "/api/sessions/"@, other, suffix);
        }
    }
    assert(is_session_action(method, suffix) ==> is_session_route(method, path));
}

/// A session itself may be changed and deleted, and nothing else.
pub proof fn sessions_are_changed_or_deleted(method: Method, id: Seq<char>)
    requires
        !id.contains('/'),
    ensures
        is_admitted(method, "/api/sessions/"@ + id) <==> method is Patch || method is Delete,
{
    let path = "/api/sessions/"@ + id;
    let n = "/api/sessions/"@.len() as int;
    assert("/api/sessions/"@ =~= path.subrange(0, n));
    fixed_routes_are_about_no_session(method, path);
    session_paths_are_api_paths(path);
    prefixes_exclude(path);
    if is_session_transport(method, path) {
        transports_have_the_prefix(method, path);
    }
    assert forall|suffix: Seq<char>| !has_suffix(path, "/api/sessions/"@, suffix) by {
        if has_suffix(path, "/api/sessions/"@, suffix) {
            let own = choose|own: Seq<char>| is_under(path, "/api/sessions/"@, own, suffix);
            assert(path[n + own.len()] == '/');
            assert(id[own.len() as int] == '/');
        }
    }
}

/// Of the live transports of a session two are admitted, to be read, and nothing
/// else is under `/sessions/`.
pub proof fn transports_are_listed(method: Method, id: Seq<char>, suffix: Seq<char>)
    requires
        !id.contains('/'),
    ensures
        is_admitted(method, "/sessions/"@ + id + seq!['/'] + suffix) <==> method is Get && (suffix
            == "acp/ws"@ || suffix == "terminal/live-ws"@),
        !is_admitted(method, "/sessions/"@ + id),
{
    let n = "/sessions/"@.len() as int;
    let path = "/sessions/"@ + id + seq!['/'] + suffix;
    assert(is_under(path, "/sessions/"@, id, suffix));
    assert(has_suffix(path, "/sessions/"@, suffix));
    suffixed_path_has_prefix(path, "/sessions/"@, suffix);
    only_transports_are_under_sessions(method, path);
    assert forall|other: Seq<char>| has_suffix(path, "/sessions/"@, other) implies other
        == suffix by {
        suffix_is_unique(path, "/sessions/"@, other, suffix);
    }
    let bare = "/sessions/"@ + id;
    assert("/sessions/"@ =~= bare.subrange(0, n));
    only_transports_are_under_sessions(method, bare);
    assert forall|other: Seq<char>| !has_suffix(bare, "/sessions/"@, other) by {
        if has_suffix(bare, "/sessions/"@, other) {
            let own = choose|own: Seq<char>| is_under(bare, "/sessions/"@, own, other);
            assert(bare[n + own.len()] == '/');
            assert(id[own.len() as int] == '/');
        }
    }
}

proof fn only_transports_are_under_sessions(method: Method, path: Seq<char>)
    requires
        "/sessions/"@.is_prefix_of(path),
    ensures
        is_admitted(method, path) == is_session_transport(method, path),
{
    reveal_strlit("/api/");
    reveal_strlit("/sessions/");
    assert(path[1] == "/sessions/"@[1]);
    if "/api/"@.is_prefix_of(path) {
        assert(path[1] == "/api/"@[1]);
    }
    if is_fixed_route(method, path) {
        fixed_routes_are_api_routes(method, path);
    }
    if is_session_route(method, path) {
        session_routes_have_the_prefix(method, path);
        prefixes_exclude(path);
    }
}

/// A path that begins with one of the two session prefixes and then names a
/// session is about exactly that session, whatever follows.
pub proof fn paths_concern_the_session_they_name(id: Seq<char>, rest: Seq<char>, other: Seq<char>)
    requires
        id.len() > 0,
        !id.contains('/'),
        rest.len() > 0 ==> rest[0] == '/',
    ensures
        concerns("/api/sessions/"@ + id + rest, other) <==> other == id,
        concerns("/sessions/"@ + id + rest, other) <==> other == id,
{
    names_its_segment("/api/sessions/"@, id, rest);
    names_its_segment("/sessions/"@, id, rest);
    let api = "/api/sessions/"@ + id + rest;
    let transport = "/sessions/"@ + id + rest;
    if concerns(api, other) {
        a_path_concerns_one_session(api, id, other);
    }
    if concerns(transport, other) {
        a_path_concerns_one_session(transport, id, other);
    }
}

proof fn names_its_segment(prefix: Seq<char>, id: Seq<char>, rest: Seq<char>)
    requires
        !id.contains('/'),
        rest.len() > 0 ==> rest[0] == '/',
    ensures
        addresses(prefix + id + rest, prefix, id),
{
    let path = prefix + id + rest;
    if rest.len() == 0 {
        assert(path =~= prefix + id);
    } else {
        let suffix = rest.skip(1);
        assert(path =~= prefix + id + seq!['/'] + suffix);
        assert(is_under(path, prefix, id, suffix));
    }
}

/// A path that begins with neither session prefix, or whose session is empty, is
/// about no session.
pub proof fn other_paths_concern_no_session(path: Seq<char>, rest: Seq<char>, other: Seq<char>)
    requires
        rest.len() > 0 ==> rest[0] == '/',
    ensures
        !"/api/sessions/"@.is_prefix_of(path) && !"/sessions/"@.is_prefix_of(path) ==> !concerns(
            path,
            other,
        ),
        !concerns("/api/sessions/"@ + rest, other),
        !concerns("/sessions/"@ + rest, other),
{
    if addresses(path, "/api/sessions/"@, other) {
        addressed_path_has_prefix(path, "/api/sessions/"@, other);
    }
    if addresses(path, "/sessions/"@, other) {
        addressed_path_has_prefix(path, "/sessions/"@, other);
    }
    no_session_is_named("/api/sessions/"@, "/sessions/"@, rest, other);
    no_session_is_named("/sessions/"@, "/api/sessions/"@, rest, other);
}

proof fn no_session_is_named(
    prefix: Seq<char>,
    against: Seq<char>,
    rest: Seq<char>,
    other: Seq<char>,
)
    requires
        rest.len() > 0 ==> rest[0] == '/',
        (prefix == "/api/sessions/"@ && against == "/sessions/"@) || (prefix == "/sessions/"@
            && against == "/api/sessions/"@),
    ensures
        !concerns(prefix + rest, other),
{
    let path = prefix + rest;
    let none = Seq::<char>::empty();
    assert(prefix + none + rest =~= path);
    assert(!none.contains('/'));
    names_its_segment(prefix, none, rest);
    addressed_path_has_prefix(path, prefix, none);
    prefixes_exclude(path);
    if concerns(path, other) {
        if addresses(path, against, other) {
            addressed_path_has_prefix(path, against, other);
        }
        segment_is_unique(path, prefix, none, other);
    }
}

/// A request about a session is let through to it exactly where the session is
/// visible, and one about no session needs none.
pub proof fn only_visible_sessions_are_reached(
    id: Seq<char>,
    rest: Seq<char>,
    path: Seq<char>,
    instances: Seq<Instance>,
)
    requires
        id.len() > 0,
        !id.contains('/'),
        rest.len() > 0 ==> rest[0] == '/',
        !"/api/sessions/"@.is_prefix_of(path),
        !"/sessions/"@.is_prefix_of(path),
    ensures
        concerns_only_visible("/api/sessions/"@ + id + rest, instances)
            <==> crate::restricted::is_visible(instances, id),
        concerns_only_visible("/sessions/"@ + id + rest, instances)
            <==> crate::restricted::is_visible(instances, id),
        concerns_only_visible(path, instances),
        concerns_only_visible("/api/sessions/"@ + rest, instances),
        concerns_only_visible("/sessions/"@ + rest, instances),
{
    let api = "/api/sessions/"@ + id + rest;
    let transport = "/sessions/"@ + id + rest;
    paths_concern_the_session_they_name(id, rest, id);
    assert forall|other: Seq<char>| #[trigger] concerns(api, other) implies other == id by {
        paths_concern_the_session_they_name(id, rest, other);
    }
    assert forall|other: Seq<char>| #[trigger] concerns(transport, other) implies other == id by {
        paths_concern_the_session_they_name(id, rest, other);
    }
    assert forall|other: Seq<char>| !(#[trigger] concerns(path, other)) by {
        other_paths_concern_no_session(path, rest, other);
    }
    assert forall|other: Seq<char>| !(#[trigger] concerns("/api/sessions/"@ + rest, other)) by {
        other_paths_concern_no_session(path, rest, other);
    }
    assert forall|other: Seq<char>| !(#[trigger] concerns("/sessions/"@ + rest, other)) by {
        other_paths_concern_no_session(path, rest, other);
    }
}

/// The two answers to a refused request are these.
pub proof fn refusals_are_answered_as_forbidden_or_not_found(refusal: Refusal)
    ensures
        is_disabled_answer(refusal) <==> refusal.status == 403 && refusal.error@
            == "maya_restricted"@ && refusal.message@
            == "This route is disabled by the Maya restricted profile"@,
        is_not_found_answer(refusal) <==> refusal.status == 404 && refusal.error@ == "not_found"@
            && refusal.message@ == "Session not found"@,
{
}

/// Outside the restricted profile everything is forwarded. Under it a request about
/// a session is forwarded exactly where its route is admitted and the session is
/// visible, and any other request exactly where its route is admitted.
pub proof fn requests_are_forwarded_by_route_and_session(
    method: Method,
    id: Seq<char>,
    rest: Seq<char>,
    path: Seq<char>,
    instances: Seq<Instance>,
)
    requires
        id.len() > 0,
        !id.contains('/'),
        rest.len() > 0 ==> rest[0] == '/',
        !"/api/sessions/"@.is_prefix_of(path),
        !"/sessions/"@.is_prefix_of(path),
    ensures
        is_forwarded(false, method, path, instances),
        is_forwarded(false, method, "/api/sessions/"@ + id + rest, instances),
        is_forwarded(false, method, "/sessions/"@ + id + rest, instances),
        is_forwarded(true, method, path, instances) <==> is_admitted(method, path),
        ({
            let api = "/api/sessions/"@ + id + rest;
            is_forwarded(true, method, api, instances) <==> is_admitted(method, api)
                && crate::restricted::is_visible(instances, id)
        }),
        ({
            let transport = "/sessions/"@ + id + rest;
            is_forwarded(true, method, transport, instances) <==> is_admitted(method, transport)
                && crate::restricted::is_visible(instances, id)
        }),
{
    only_visible_sessions_are_reached(id, rest, path, instances);
}

/// Behind a prefix and one segment, what follows the next separator is the suffix,
/// and without a further separator there is none.
pub proof fn suffixes_follow_the_first_segment(
    prefix: Seq<char>,
    id: Seq<char>,
    suffix: Seq<char>,
    other: Seq<char>,
)
    requires
        !id.contains('/'),
    ensures
        has_suffix(prefix + id + seq!['/'] + suffix, prefix, other) <==> other == suffix,
        !has_suffix(prefix + id, prefix, other),
{
    let path = prefix + id + seq!['/'] + suffix;
    assert(is_under(path, prefix, id, suffix));
    if has_suffix(path, prefix, other) {
        suffix_is_unique(path, prefix, other, suffix);
    }
    let bare = prefix + id;
    if has_suffix(bare, prefix, other) {
        let own = choose|own: Seq<char>| is_under(bare, prefix, own, other);
        assert(bare[prefix.len() as int + own.len()] == '/');
        assert(id[own.len() as int] == '/');
    }
}

}
