//! The restricted profile: its routes, its launcher, its sessions and their
//! titles.

use aoe::identity::{canonical_codex_session_id, is_aoe_session_id, is_sha256, is_source_thread_id};
use aoe::launcher::{bind_codex_agent_spec, codex_agent_spec, BindError};
use aoe::naming::{
    apply_first_turn_name, rename_in, rename_target, FirstTurnNaming, NamingOutcome, NamingReply,
    NamingStage,
};
use aoe::restricted::{
    is_managed_effort, is_managed_mode, is_managed_model, is_restricted_session, session_visible,
    Instance, SessionView, PROFILE_NAME, PROJECT_PATH,
};
use aoe::routes::{
    enforce_routes, restricted_session_id, route_allowed, session_api_suffix, session_ws_suffix,
    Method, RouteVerdict,
};
use aoe::title::first_turn_title;

fn instance(id: &str) -> Instance {
    Instance {
        id: id.into(),
        title: "Maya".into(),
        has_default_title: false,
        tool: "codex".into(),
        view: SessionView::Structured,
        project_path: PROJECT_PATH.into(),
        source_profile: PROFILE_NAME.into(),
        scratch: false,
        has_worktree: false,
        has_workspace: false,
        agent_name: None,
        agent_model: None,
        acp_mode_id: None,
        acp_effort: None,
    }
}

#[test]
fn route_allowlist_keeps_only_the_maya_chat_contract() {
    for (method, path) in [
        (Method::Get, "/api/sessions"),
        (Method::Post, "/api/sessions"),
        (Method::Patch, "/api/sessions/s-1"),
        (Method::Delete, "/api/sessions/s-1"),
        (Method::Patch, "/api/sessions/s-1/archive"),
        (Method::Patch, "/api/sessions/s-1/group"),
        (Method::Patch, "/api/sessions/s-1/notifications"),
        (Method::Patch, "/api/sessions/s-1/pin"),
        (Method::Patch, "/api/sessions/s-1/color"),
        (Method::Patch, "/api/sessions/s-1/snooze"),
        (Method::Patch, "/api/sessions/s-1/unread"),
        (Method::Post, "/api/sessions/s-1/trash"),
        (Method::Post, "/api/sessions/s-1/restore"),
        (Method::Post, "/api/sessions/s-1/smart-rename"),
        (Method::Post, "/api/sessions/s-1/summarize"),
        (Method::Post, "/api/sessions/s-1/stop"),
        (Method::Post, "/api/sessions/s-1/start"),
        (Method::Put, "/api/workspace-ordering"),
        (Method::Post, "/api/sessions/s-1/acp/prompt"),
        (Method::Post, "/api/sessions/s-1/acp/cancel"),
        (Method::Post, "/api/sessions/s-1/acp/force_end_turn"),
        (Method::Get, "/api/sessions/s-1/acp/replay"),
        (Method::Get, "/api/sessions/s-1/acp/files"),
        (Method::Get, "/api/sessions/s-1/acp/context-primer"),
        (Method::Post, "/api/sessions/s-1/acp/mode"),
        (Method::Post, "/api/sessions/s-1/acp/config-option"),
        (Method::Get, "/api/sessions/s-1/diff/files"),
        (Method::Get, "/api/sessions/s-1/diff/file"),
        (Method::Get, "/api/sessions/s-1/file"),
        (Method::Post, "/api/sessions/s-1/terminal"),
        (Method::Delete, "/api/sessions/s-1/terminal"),
        (Method::Get, "/sessions/s-1/terminal/live-ws"),
        (Method::Get, "/api/sessions/s-1/queue"),
        (Method::Post, "/api/sessions/s-1/queue"),
        (Method::Delete, "/api/sessions/s-1/queue"),
        (Method::Patch, "/api/sessions/s-1/queue/q-1"),
        (Method::Delete, "/api/sessions/s-1/queue/q-1"),
        (Method::Get, "/api/sessions/s-1/artifacts/plot.png"),
        (Method::Post, "/api/sessions/s-1/acp/approvals/n-1"),
        (Method::Post, "/api/sessions/s-1/acp/elicitations/n-1"),
        (Method::Get, "/sessions/s-1/acp/ws"),
        (Method::Post, "/api/presence"),
        (Method::Get, "/api/tips"),
        (Method::Get, "/api/skills"),
        (Method::Get, "/api/settings"),
        (Method::Get, "/api/settings/schema"),
        (Method::Get, "/api/sounds"),
        (Method::Get, "/api/sounds/file/approval.wav"),
        (Method::Patch, "/api/profiles/maya/settings"),
        (Method::Post, "/api/tips/show"),
        (Method::Post, "/api/app-state/tip-seen"),
        (Method::Get, "/api/app-state/web-ui-state"),
        (Method::Patch, "/api/app-state/web-ui-state"),
        (Method::Get, "/api/themes"),
        (Method::Get, "/api/theme/current"),
        (Method::Get, "/api/themes/zinc"),
        (Method::Patch, "/api/theme"),
    ] {
        assert!(
            route_allowed(method, path),
            "expected allowed: {method:?} {path}"
        );
    }

    for (method, path) in [
        (Method::Get, "/api/agents"),
        (Method::Get, "/api/sessions/s-1/acp/worker-log"),
        (Method::Patch, "/api/settings"),
        (Method::Patch, "/api/profiles/other/settings"),
        (Method::Get, "/api/profiles"),
        (Method::Get, "/api/projects"),
        (Method::Delete, "/api/workspaces"),
        (Method::Post, "/api/git/clone"),
        (Method::Get, "/api/mcp/servers"),
        (Method::Get, "/api/plugins"),
        (Method::Post, "/api/skills"),
        (Method::Get, "/api/skills/codex/example"),
        (Method::Post, "/api/sessions/s-1/archive"),
        (Method::Patch, "/api/sessions/s-1/trash"),
        (Method::Delete, "/api/sessions/s-1/trash"),
        (Method::Post, "/api/sessions/s-1/archive/extra"),
        (Method::Delete, "/api/sessions/s-1/delete-worktree"),
        (Method::Post, "/api/sessions/s-1/acp/switch-agent"),
        (Method::Get, "/sessions/s-1/live-ws"),
    ] {
        assert!(
            !route_allowed(method, path),
            "expected denied: {method:?} {path}"
        );
    }
}

#[test]
fn restricted_terminal_routes_allow_only_the_stock_host_shell() {
    for (method, path) in [
        (Method::Post, "/api/sessions/s-1/container-terminal"),
        (Method::Get, "/sessions/s-1/live-ws"),
        (Method::Get, "/sessions/s-1/container-terminal/live-ws"),
    ] {
        assert!(
            !route_allowed(method, path),
            "expected denied: {method:?} {path}"
        );
    }
}

#[test]
fn the_remaining_routes_are_admitted_by_method() {
    for (method, path) in [
        (Method::Get, "/api/about"),
        (Method::Get, "/api/login/status"),
        (Method::Post, "/api/login"),
        (Method::Post, "/api/logout"),
        (Method::Post, "/api/maya/import-session"),
        (Method::Post, "/api/sessions/s-1/acp/spawn"),
        (Method::Get, "/api/sessions/s-1/acp/attachments/a"),
        (Method::Patch, "/api/sessions/"),
        (Method::Get, "/"),
        (Method::Get, "/assets/app.js"),
        (Method::Get, "/sessions"),
    ] {
        assert!(route_allowed(method, path), "expected allowed: {method:?} {path}");
    }
    for (method, path) in [
        (Method::Post, "/api/about"),
        (Method::Get, "/api/login"),
        (Method::Put, "/api/sessions"),
        (Method::Post, "/"),
        (Method::Other, "/"),
        (Method::Get, "/sessions/s-1"),
        (Method::Post, "/sessions/s-1/acp/ws"),
        (Method::Get, "/api/"),
        (Method::Get, "/api/sessions/s-1"),
    ] {
        assert!(!route_allowed(method, path), "expected denied: {method:?} {path}");
    }
}

#[test]
fn lifecycle_routes_bind_the_identity_guard_to_the_exact_session() {
    for path in [
        "/api/sessions/s-1",
        "/api/sessions/s-1/archive",
        "/api/sessions/s-1/group",
        "/api/sessions/s-1/notifications",
        "/api/sessions/s-1/pin",
        "/api/sessions/s-1/color",
        "/api/sessions/s-1/snooze",
        "/api/sessions/s-1/unread",
        "/api/sessions/s-1/trash",
        "/api/sessions/s-1/restore",
        "/api/sessions/s-1/summarize",
        "/api/sessions/s-1/stop",
        "/api/sessions/s-1/start",
    ] {
        assert_eq!(restricted_session_id(path), Some("s-1"), "path: {path}");
    }
    assert_eq!(restricted_session_id("/api/workspaces"), None);
    assert_eq!(restricted_session_id("/api/sessions/"), None);
}

#[test]
fn suffixes_follow_the_session_id() {
    assert_eq!(session_api_suffix("/api/sessions/s-1/queue/q-1"), Some("queue/q-1"));
    assert_eq!(session_api_suffix("/api/sessions/s-1/"), Some(""));
    assert_eq!(session_api_suffix("/api/sessions/s-1"), None);
    assert_eq!(session_api_suffix("/sessions/s-1/acp/ws"), None);
    assert_eq!(session_ws_suffix("/sessions/s-1/acp/ws"), Some("acp/ws"));
    assert_eq!(session_ws_suffix("/api/sessions/s-1/acp/ws"), None);
    assert_eq!(restricted_session_id("/sessions/s-1/acp/ws"), Some("s-1"));
    assert_eq!(restricted_session_id("/api/sessions//archive"), None);
}

#[test]
fn requests_are_forwarded_refused_or_not_found() {
    let mut foreign = instance("s-2");
    foreign.tool = "opencode".into();
    let instances = vec![instance("s-1"), foreign];
    let path = "/api/sessions/s-1/archive";
    assert!(matches!(
        enforce_routes(true, Method::Patch, path, &instances),
        RouteVerdict::Forward
    ));
    match enforce_routes(true, Method::Post, path, &instances) {
        RouteVerdict::Refuse(refusal) => {
            assert_eq!(refusal.status, 403);
            assert_eq!(refusal.error, "maya_restricted");
            assert_eq!(
                refusal.message,
                "This route is disabled by the Maya restricted profile"
            );
        }
        other => panic!("forwarded: {other:?}"),
    }
    for path in ["/api/sessions/s-2/archive", "/api/sessions/s-3/archive"] {
        match enforce_routes(true, Method::Patch, path, &instances) {
            RouteVerdict::Refuse(refusal) => {
                assert_eq!(refusal.status, 404);
                assert_eq!(refusal.error, "not_found");
                assert_eq!(refusal.message, "Session not found");
            }
            other => panic!("forwarded: {other:?}"),
        }
    }
    assert!(matches!(
        enforce_routes(false, Method::Delete, "/api/workspaces", &instances),
        RouteVerdict::Forward
    ));
    assert!(matches!(
        enforce_routes(true, Method::Get, "/index.html", &instances),
        RouteVerdict::Forward
    ));
}

#[test]
fn codex_command_is_the_exact_root_owned_wrapper_argv() {
    let spec = codex_agent_spec();
    assert_eq!(spec.command, "/usr/bin/sudo");
    assert_eq!(
        spec.args,
        [
            "-n",
            "-u",
            "#1001",
            "--",
            "/usr/local/libexec/maya-aoe/maya-codex-acp"
        ]
    );
    assert_eq!(spec.description, "Maya restricted Codex ACP bridge");
    assert_eq!(spec.env_allowlist, None);
}

#[test]
fn codex_assignment_argv_is_server_derived_and_prefix_bound() {
    let mut spec = codex_agent_spec();
    bind_codex_agent_spec(
        &mut spec,
        "0123456789abcdef",
        Some("11111111-1111-4111-8111-111111111111"),
    )
    .expect("bind persisted identities");
    assert_eq!(
        spec.args,
        [
            "-n",
            "-u",
            "#1001",
            "--",
            "/usr/local/libexec/maya-aoe/maya-codex-acp",
            "--maya-aoe-session-id",
            "0123456789abcdef",
            "--maya-assigned-codex-session-id",
            "11111111-1111-4111-8111-111111111111",
        ]
    );

    let mut crafted = codex_agent_spec();
    crafted.args.push("--maya-aoe-session-id".into());
    crafted.args.push("ffffffffffffffff".into());
    assert!(
        bind_codex_agent_spec(&mut crafted, "0123456789abcdef", None).is_err(),
        "caller-crafted argv must fail before the persisted assignment is appended"
    );
}

#[test]
fn a_launcher_is_bound_once_and_only_to_valid_identities() {
    let mut spec = codex_agent_spec();
    assert_eq!(
        bind_codex_agent_spec(&mut spec, "0123456789ABCDEF", None),
        Err(BindError::InvalidAoeSession)
    );
    assert_eq!(
        bind_codex_agent_spec(&mut spec, "0123456789abcdef", Some("1111")),
        Err(BindError::InvalidCodexSession)
    );
    assert_eq!(spec.args.len(), 5);
    assert_eq!(bind_codex_agent_spec(&mut spec, "0123456789abcdef", None), Ok(()));
    assert_eq!(spec.args[5..], ["--maya-aoe-session-id", "0123456789abcdef"]);
    assert_eq!(
        bind_codex_agent_spec(&mut spec, "0123456789abcdef", None),
        Err(BindError::WrongLauncher)
    );
    assert_eq!(
        BindError::WrongLauncher.message(),
        "Maya Codex launcher does not match the built-in prefix"
    );
    assert_eq!(BindError::InvalidAoeSession.message(), "invalid AoE session identity");
    assert_eq!(
        BindError::InvalidCodexSession.message(),
        "invalid assigned Codex session identity"
    );
}

#[test]
fn managed_selectors_keep_restricted_sessions_visible() {
    let mut instance = instance("s-1");
    instance.agent_model = Some("gpt-5.6-sol".into());
    instance.acp_mode_id = Some("agent-full-access".into());
    instance.acp_effort = Some("max".into());
    assert!(is_restricted_session(&instance));

    for (model, mode, effort) in [
        (Some("other"), Some("agent"), Some("high")),
        (Some("gpt-5.6-sol"), Some("other"), Some("high")),
        (Some("gpt-5.6-sol"), Some("agent"), Some("other")),
    ] {
        instance.agent_model = model.map(str::to_owned);
        instance.acp_mode_id = mode.map(str::to_owned);
        instance.acp_effort = effort.map(str::to_owned);
        assert!(!is_restricted_session(&instance));
    }
}

#[test]
fn sessions_outside_the_profile_are_not_restricted() {
    let base = instance("s-1");
    assert!(is_restricted_session(&base));
    for other in [
        Instance { tool: "opencode".into(), ..base.clone() },
        Instance { view: SessionView::Terminal, ..base.clone() },
        Instance { project_path: "/home/aaiyer/maya".into(), ..base.clone() },
        Instance { source_profile: "default".into(), ..base.clone() },
        Instance { scratch: true, ..base.clone() },
        Instance { has_worktree: true, ..base.clone() },
        Instance { has_workspace: true, ..base.clone() },
        Instance { agent_name: Some("codex".into()), ..base.clone() },
    ] {
        assert!(!is_restricted_session(&other));
        assert!(!session_visible(&vec![other], "s-1"));
    }
    assert!(session_visible(&vec![base], "s-1"));
}

#[test]
fn managed_selectors_are_the_listed_ones() {
    for model in [
        "gpt-5.6-sol",
        "gpt-5.6-terra",
        "gpt-5.6-luna",
        "gpt-5.5",
        "gpt-5.4",
        "gpt-5.4-mini",
        "gpt-5.2",
        "codex-auto-review",
    ] {
        assert!(is_managed_model(model));
    }
    assert!(!is_managed_model("gpt-5.6"));
    for mode in ["read-only", "agent", "agent-full-access"] {
        assert!(is_managed_mode(mode));
    }
    assert!(!is_managed_mode(""));
    for effort in ["low", "medium", "high", "xhigh", "max", "ultra"] {
        assert!(is_managed_effort(effort));
    }
    assert!(!is_managed_effort("none"));
}

#[test]
fn identities_are_lower_case_and_of_their_length() {
    assert!(is_aoe_session_id("0123456789abcdef"));
    for bad in ["", "0123456789abcde", "0123456789abcdeff", "0123456789abcdeF", "0123456789abcdeg"] {
        assert!(!is_aoe_session_id(bad));
    }
    assert!(is_sha256(&"a0".repeat(32)));
    assert!(!is_sha256(&"A0".repeat(32)));
    assert!(!is_sha256(&"é".repeat(32)));
}

#[test]
fn uuids_count_only_in_canonical_form() {
    assert!(canonical_codex_session_id("550e8400-e29b-41d4-a716-446655440000"));
    assert!(canonical_codex_session_id("00000000-0000-0000-0000-000000000000"));
    assert!(canonical_codex_session_id("ffffffff-ffff-ffff-ffff-ffffffffffff"));
    for other in [
        "",
        "550e8400e29b41d4a716446655440000",
        "550E8400-E29B-41D4-A716-446655440000",
        "{550e8400-e29b-41d4-a716-446655440000}",
        "urn:uuid:550e8400-e29b-41d4-a716-446655440000",
        "550e8400-e29b-41d4-a716-44665544000",
        "550e8400-e29b-41d4-a716-44665544000g",
    ] {
        assert!(!canonical_codex_session_id(other), "accepted {other}");
    }
    assert!(is_source_thread_id("maya-import-550e8400-e29b-41d4-a716-446655440000"));
    assert!(is_source_thread_id("550e8400-e29b-41d4-a716-446655440000"));
    assert!(!is_source_thread_id("maya-import-"));
    assert!(!is_source_thread_id(
        "maya-import-maya-import-550e8400-e29b-41d4-a716-446655440000"
    ));
}

#[test]
fn first_turn_title_is_bounded_and_deterministic() {
    assert_eq!(
        first_turn_title("  Fix   the login race\nplease  "),
        "Fix the login race please"
    );
    let title = first_turn_title(&"word ".repeat(30));
    assert!(title.chars().count() <= 60);
    assert!(title.ends_with('…'));
}

#[test]
fn titles_at_the_edges() {
    assert_eq!(first_turn_title(""), "Codex Chat");
    assert_eq!(first_turn_title(" \u{a0}\u{3000}\n"), "Codex Chat");
    assert_eq!(first_turn_title(&"a".repeat(60)), "a".repeat(60));
    assert_eq!(first_turn_title(&"a".repeat(61)), format!("{}…", "a".repeat(60)));
    let title = first_turn_title(&format!("{} {}", "a".repeat(59), "b"));
    assert_eq!(title, format!("{}…", "a".repeat(59)));
    assert_eq!(
        first_turn_title(&"word ".repeat(30)),
        format!("{}…", ["word"; 12].join(" "))
    );
}

fn generated(id: &str) -> Instance {
    Instance { title: "Romans".into(), has_default_title: true, ..instance(id) }
}

#[test]
fn only_a_restricted_session_with_a_generated_title_is_renamed() {
    let mut worktree = generated("s-3");
    worktree.has_worktree = true;
    let instances = vec![generated("s-1"), instance("s-2"), worktree];
    assert_eq!(rename_target(&instances, "s-1"), Some(0));
    assert_eq!(rename_target(&instances, "s-2"), None);
    assert_eq!(rename_target(&instances, "s-3"), None);
    assert_eq!(rename_target(&instances, "s-4"), None);
    assert_eq!(rename_target(&vec![instance("s-1"), generated("s-1")], "s-1"), None);
}

#[test]
fn a_session_is_renamed_once() {
    let mut instances = vec![instance("s-0"), generated("s-1")];
    assert!(rename_in(&mut instances, "s-1", "Fix the race".into(), false));
    assert_eq!(instances[1].title, "Fix the race");
    assert_eq!(instances[0].title, "Maya");
    assert!(is_restricted_session(&instances[1]));
    assert!(!rename_in(&mut instances, "s-1", "Second".into(), false));
    assert_eq!(instances[1].title, "Fix the race");
    assert!(!rename_in(&mut instances, "s-9", "Second".into(), false));
}

fn drive(naming: FirstTurnNaming, replies: Vec<NamingReply>) -> NamingStage {
    let mut naming = naming;
    for reply in replies {
        naming = naming.advance(reply);
    }
    naming.stage
}

#[test]
fn the_store_decides_over_a_renaming() {
    let begin = || apply_first_turn_name("s-1", "  Fix   the login race ");
    assert_eq!(begin().title, "Fix the login race");
    let sessions = || NamingReply::Sessions(vec![generated("s-1")]);
    assert_eq!(
        drive(begin(), vec![sessions(), NamingReply::Stored(true), NamingReply::Published]),
        NamingStage::Finished(NamingOutcome::Renamed)
    );
    assert_eq!(
        drive(begin(), vec![sessions(), NamingReply::Stored(true)]),
        NamingStage::Publishing
    );
    assert_eq!(
        drive(begin(), vec![sessions(), NamingReply::Stored(false)]),
        NamingStage::Finished(NamingOutcome::Unchanged)
    );
    assert_eq!(
        drive(begin(), vec![NamingReply::Sessions(vec![instance("s-1")])]),
        NamingStage::Finished(NamingOutcome::Unchanged)
    );
    assert_eq!(
        drive(begin(), vec![sessions(), NamingReply::StoreFailed]),
        NamingStage::Finished(NamingOutcome::Failed)
    );
    assert_eq!(
        drive(begin(), vec![sessions(), NamingReply::Published]),
        NamingStage::Finished(NamingOutcome::Failed)
    );
}
