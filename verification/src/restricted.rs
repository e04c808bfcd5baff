//! The restricted profile: its fixed settings and which sessions belong to it.

use crate::text::text_eq;
use vstd::prelude::*;

verus! {

pub const PROFILE_NAME: &'static str = "maya";

pub const PROJECT_PATH: &'static str = "/home/aaiyer/maya/maya-main";

pub const MAGIC_DNS_HOST: &'static str = "maya-devbox.tail564f89.ts.net";

pub const MAGIC_DNS_ORIGIN: &'static str = "https://maya-devbox.tail564f89.ts.net";

pub const HOST: &'static str = "127.0.0.1";

pub const PORT: u16 = 3773;

/// How a session is shown.
#[derive(Clone, Copy, Debug, PartialEq, Eq, Structural)]
pub enum SessionView {
    /// Through the structured protocol.
    Structured,
    /// As a terminal.
    Terminal,
}

/// What the profile's rules read of a session.
#[derive(Clone, Debug)]
pub struct Instance {
    pub id: String,
    pub title: String,
    /// Whether `title` is one of the generated default names.
    pub has_default_title: bool,
    pub tool: String,
    pub view: SessionView,
    pub project_path: String,
    pub source_profile: String,
    pub scratch: bool,
    pub has_worktree: bool,
    pub has_workspace: bool,
    pub agent_name: Option<String>,
    pub agent_model: Option<String>,
    pub acp_mode_id: Option<String>,
    pub acp_effort: Option<String>,
}

/// The models of the managed profile.
pub open spec fn managed_model(value: Seq<char>) -> bool {
    ||| value == "gpt-5.6-sol"@
    ||| value == "gpt-5.6-terra"@
    ||| value == "gpt-5.6-luna"@
    ||| value == "gpt-5.5"@
    ||| value == "gpt-5.4"@
    ||| value == "gpt-5.4-mini"@
    ||| value == "gpt-5.2"@
    ||| value == "codex-auto-review"@
}

/// Whether `value` is one of the models of the managed profile.
pub fn is_managed_model(value: &str) -> (r: bool)
    ensures
        r == managed_model(value@),
{
    text_eq(value, "gpt-5.6-sol")
        || text_eq(value, "gpt-5.6-terra")
        || text_eq(value, "gpt-5.6-luna")
        || text_eq(value, "gpt-5.5")
        || text_eq(value, "gpt-5.4")
        || text_eq(value, "gpt-5.4-mini")
        || text_eq(value, "gpt-5.2")
        || text_eq(value, "codex-auto-review")
}

/// The modes of the managed profile.
pub open spec fn managed_mode(value: Seq<char>) -> bool {
    ||| value == "read-only"@
    ||| value == "agent"@
    ||| value == "agent-full-access"@
}

/// Whether `value` is one of the modes of the managed profile.
pub fn is_managed_mode(value: &str) -> (r: bool)
    ensures
        r == managed_mode(value@),
{
    text_eq(value, "read-only")
        || text_eq(value, "agent")
        || text_eq(value, "agent-full-access")
}

/// The efforts of the managed profile.
pub open spec fn managed_effort(value: Seq<char>) -> bool {
    ||| value == "low"@
    ||| value == "medium"@
    ||| value == "high"@
    ||| value == "xhigh"@
    ||| value == "max"@
    ||| value == "ultra"@
}

/// Whether `value` is one of the efforts of the managed profile.
pub fn is_managed_effort(value: &str) -> (r: bool)
    ensures
        r == managed_effort(value@),
{
    text_eq(value, "low")
        || text_eq(value, "medium")
        || text_eq(value, "high")
        || text_eq(value, "xhigh")
        || text_eq(value, "max")
        || text_eq(value, "ultra")
}

/// Whether a session belongs to the restricted profile: a structured session of
/// the managed tool on the managed project, under the managed profile, without a
/// working copy or an agent of its own, whose selectors are all managed.
pub open spec fn is_restricted(instance: Instance) -> bool {
    &&& instance.tool@ == "codex"@
    &&& instance.view == SessionView::Structured
    &&& instance.project_path@ == PROJECT_PATH@
    &&& instance.source_profile@ == PROFILE_NAME@
    &&& !instance.scratch
    &&& !instance.has_worktree
    &&& !instance.has_workspace
    &&& instance.agent_name is None
    &&& instance.agent_model matches Some(model) ==> managed_model(model@)
    &&& instance.acp_mode_id matches Some(mode) ==> managed_mode(mode@)
    &&& instance.acp_effort matches Some(effort) ==> managed_effort(effort@)
}

/// Whether a session belongs to the restricted profile.
pub fn is_restricted_session(instance: &Instance) -> (r: bool)
    ensures
        r == is_restricted(*instance),
{
    text_eq(instance.tool.as_str(), "codex") && instance.view == SessionView::Structured && text_eq(
        instance.project_path.as_str(),
        PROJECT_PATH,
    ) && text_eq(instance.source_profile.as_str(), PROFILE_NAME) && !instance.scratch
        && !instance.has_worktree && !instance.has_workspace && instance.agent_name.is_none() && (
    match &instance.agent_model {
        Some(model) => is_managed_model(model.as_str()),
        None => true,
    }) && (match &instance.acp_mode_id {
        Some(mode) => is_managed_mode(mode.as_str()),
        None => true,
    }) && (match &instance.acp_effort {
        Some(effort) => is_managed_effort(effort.as_str()),
        None => true,
    })
}

/// Whether the session `id` is among `instances` and belongs to the restricted
/// profile.
pub open spec fn is_visible(instances: Seq<Instance>, id: Seq<char>) -> bool {
    exists|i: int|
        0 <= i < instances.len() && #[trigger] instances[i].id@ == id && is_restricted(
            instances[i],
        )
}

/// Whether the session `id` is among `instances` and belongs to the restricted
/// profile.
pub fn session_visible(instances: &Vec<Instance>, id: &str) -> (r: bool)
    ensures
        r == is_visible(instances@, id@),
{
    let mut i: usize = 0;
    while i < instances.len()
        invariant
            i <= instances@.len(),
            forall|j: int|
                0 <= j < i ==> !(#[trigger] instances@[j].id@ == id@ && is_restricted(
                    instances@[j],
                )),
        decreases instances@.len() - i,
    {
        if text_eq(instances[i].id.as_str(), id) && is_restricted_session(&instances[i]) {
            assert(instances@[i as int].id@ == id@);
            return true;
        }
        i = i + 1;
    }
    false
}

/// A session belongs to the restricted profile exactly where each of these fields
/// is as the profile has it: the tool, the view, the project, the profile, no
/// scratch, worktree, workspace or agent of its own, and each selector unset or
/// one of the managed ones.
pub proof fn membership_is_a_matter_of_eleven_fields(instance: Instance)
    ensures
        is_restricted(instance) <==> !(instance.tool@ != "codex"@ || instance.view is Terminal
            || instance.project_path@ != "/home/aaiyer/maya/maya-main"@ || instance.source_profile@
            != "maya"@ || instance.scratch || instance.has_worktree || instance.has_workspace
            || instance.agent_name is Some || (instance.agent_model is Some && !seq![
            "gpt-5.6-sol"@,
            "gpt-5.6-terra"@,
            "gpt-5.6-luna"@,
            "gpt-5.5"@,
            "gpt-5.4"@,
            "gpt-5.4-mini"@,
            "gpt-5.2"@,
            "codex-auto-review"@,
        ].contains(instance.agent_model->0@)) || (instance.acp_mode_id is Some && !seq![
            "read-only"@,
            "agent"@,
            "agent-full-access"@,
        ].contains(instance.acp_mode_id->0@)) || (instance.acp_effort is Some && !seq![
            "low"@,
            "medium"@,
            "high"@,
            "xhigh"@,
            "max"@,
            "ultra"@,
        ].contains(instance.acp_effort->0@))),
{
    if instance.agent_model is Some {
        selectors_are_listed(instance.agent_model->0@);
    }
    if instance.acp_mode_id is Some {
        selectors_are_listed(instance.acp_mode_id->0@);
    }
    if instance.acp_effort is Some {
        selectors_are_listed(instance.acp_effort->0@);
    }
}

/// The managed models, modes and efforts are these.
pub proof fn selectors_are_listed(value: Seq<char>)
    ensures
        managed_model(value) <==> seq![
            "gpt-5.6-sol"@,
            "gpt-5.6-terra"@,
            "gpt-5.6-luna"@,
            "gpt-5.5"@,
            "gpt-5.4"@,
            "gpt-5.4-mini"@,
            "gpt-5.2"@,
            "codex-auto-review"@,
        ].contains(value),
        managed_mode(value) <==> seq!["read-only"@, "agent"@, "agent-full-access"@].contains(value),
        managed_effort(value) <==> seq![
            "low"@,
            "medium"@,
            "high"@,
            "xhigh"@,
            "max"@,
            "ultra"@,
        ].contains(value),
{
    let models = seq![
        "gpt-5.6-sol"@,
        "gpt-5.6-terra"@,
        "gpt-5.6-luna"@,
        "gpt-5.5"@,
        "gpt-5.4"@,
        "gpt-5.4-mini"@,
        "gpt-5.2"@,
        "codex-auto-review"@,
    ];
    assert(models[0] == "gpt-5.6-sol"@ && models[1] == "gpt-5.6-terra"@ && models[2]
        == "gpt-5.6-luna"@ && models[3] == "gpt-5.5"@ && models[4] == "gpt-5.4"@ && models[5]
        == "gpt-5.4-mini"@ && models[6] == "gpt-5.2"@ && models[7] == "codex-auto-review"@);
    let modes = seq!["read-only"@, "agent"@, "agent-full-access"@];
    assert(modes[0] == "read-only"@ && modes[1] == "agent"@ && modes[2] == "agent-full-access"@);
    let efforts = seq!["low"@, "medium"@, "high"@, "xhigh"@, "max"@, "ultra"@];
    assert(efforts[0] == "low"@ && efforts[1] == "medium"@ && efforts[2] == "high"@ && efforts[3]
        == "xhigh"@ && efforts[4] == "max"@ && efforts[5] == "ultra"@);
}

/// A session's id and title have no part in whether it belongs to the profile.
pub proof fn names_have_no_part_in_membership(
    instance: Instance,
    id: String,
    title: String,
    has_default_title: bool,
)
    ensures
        is_restricted(Instance { id, title, has_default_title, ..instance }) == is_restricted(
            instance,
        ),
{
}

/// A session is visible exactly where some session with its id belongs to the
/// profile: adding a session shows that one and hides none.
pub proof fn visibility_is_membership_by_id(
    instances: Seq<Instance>,
    more: Instance,
    id: Seq<char>,
)
    ensures
        !is_visible(Seq::empty(), id),
        is_visible(instances.push(more), id) <==> is_visible(instances, id) || (more.id@ == id
            && is_restricted(more)),
{
    let longer = instances.push(more);
    if is_visible(instances, id) {
        let i = choose|i: int|
            0 <= i < instances.len() && #[trigger] instances[i].id@ == id && is_restricted(
                instances[i],
            );
        assert(longer[i] == instances[i]);
    }
    if more.id@ == id && is_restricted(more) {
        assert(longer[instances.len() as int] == more);
    }
    if is_visible(longer, id) {
        let i = choose|i: int|
            0 <= i < longer.len() && #[trigger] longer[i].id@ == id && is_restricted(longer[i]);
        if i < instances.len() {
            assert(instances[i] == longer[i]);
        }
    }
}

}
