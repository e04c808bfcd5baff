//! The command line that starts the restricted profile's agent.

use crate::identity::{canonical_codex_session_id, is_aoe_session_id};
use crate::text::text_eq;
use vstd::prelude::*;

verus! {

pub const CODEX_COMMAND: &'static str = "/usr/bin/sudo";

/// How an agent is started.
#[derive(Clone, Debug)]
pub struct AgentSpec {
    pub command: String,
    pub args: Vec<String>,
    pub description: String,
    pub env_allowlist: Option<Vec<String>>,
}

/// The built-in arguments of the launcher.
pub open spec fn codex_args() -> Seq<Seq<char>> {
    seq![
        "-n"@,
        "-u"@,
        "#1001"@,
        "--"@,
        "/usr/local/libexec/maya-aoe/maya-codex-acp"@,
    ]
}

/// The launcher, bound to no session yet.
pub fn codex_agent_spec() -> (r: AgentSpec)
    ensures
        r.command@ == CODEX_COMMAND@,
        crate::text::texts(r.args@) == codex_args(),
        r.description@ == "Maya restricted Codex ACP bridge"@,
        r.env_allowlist is None,
{
    let mut args: Vec<String> = Vec::new();
    args.push("-n".to_owned());
    args.push("-u".to_owned());
    args.push("#1001".to_owned());
    args.push("--".to_owned());
    args.push("/usr/local/libexec/maya-aoe/maya-codex-acp".to_owned());
    assert(crate::text::texts(args@) =~= codex_args());
    AgentSpec {
        command: CODEX_COMMAND.to_owned(),
        args,
        description: "Maya restricted Codex ACP bridge".to_owned(),
        env_allowlist: None,
    }
}

/// Why a launcher cannot be bound.
#[derive(Clone, Copy, Debug, PartialEq, Eq, Structural)]
pub enum BindError {
    /// The launcher is not the built-in one.
    WrongLauncher,
    /// The daemon's session id is not valid.
    InvalidAoeSession,
    /// The assigned session id of the agent is not valid.
    InvalidCodexSession,
}

impl BindError {
    /// What the error says.
    pub fn message(&self) -> (r: &'static str)
        ensures
            r@ == (match *self {
                BindError::WrongLauncher =>
                    "Maya Codex launcher does not match the built-in prefix"@,
                BindError::InvalidAoeSession => "invalid AoE session identity"@,
                BindError::InvalidCodexSession => "invalid assigned Codex session identity"@,
            }),
    {
        match self {
            BindError::WrongLauncher => "Maya Codex launcher does not match the built-in prefix",
            BindError::InvalidAoeSession => "invalid AoE session identity",
            BindError::InvalidCodexSession => "invalid assigned Codex session identity",
        }
    }
}

/// Whether the command line is the built-in one and nothing more.
pub open spec fn is_builtin(spec: AgentSpec) -> bool {
    spec.command@ == CODEX_COMMAND@ && crate::text::texts(spec.args@) == codex_args()
}

/// What stands against binding a launcher to these sessions.
pub open spec fn bind_error(
    spec: AgentSpec,
    aoe_session_id: Seq<char>,
    assigned: Option<Seq<char>>,
) -> Option<BindError> {
    if !is_builtin(spec) {
        Some(BindError::WrongLauncher)
    } else if !crate::identity::is_hex_text(aoe_session_id, 16) {
        Some(BindError::InvalidAoeSession)
    } else if assigned is Some && !crate::identity::is_canonical_uuid(assigned->0) {
        Some(BindError::InvalidCodexSession)
    } else {
        None
    }
}

/// The arguments that bind the launcher to these sessions.
pub open spec fn binding_args(
    aoe_session_id: Seq<char>,
    assigned: Option<Seq<char>>,
) -> Seq<Seq<char>> {
    let own = seq!["--maya-aoe-session-id"@, aoe_session_id];
    match assigned {
        Some(id) => own + seq!["--maya-assigned-codex-session-id"@, id],
        None => own,
    }
}

fn builtin(spec: &AgentSpec) -> (r: bool)
    ensures
        r == is_builtin(*spec),
{
    let ghost args = crate::text::texts(spec.args@);
    if spec.args.len() != 5 {
        assert(args.len() != codex_args().len());
        return false;
    }
    let r = text_eq(spec.command.as_str(), CODEX_COMMAND) && text_eq(spec.args[0].as_str(), "-n")
        && text_eq(spec.args[1].as_str(), "-u") && text_eq(spec.args[2].as_str(), "#1001")
        && text_eq(spec.args[3].as_str(), "--") && text_eq(
        spec.args[4].as_str(),
        "/usr/local/libexec/maya-aoe/maya-codex-acp",
    );
    proof {
        assert(args[0] == spec.args@[0]@ && args[1] == spec.args@[1]@ && args[2]
            == spec.args@[2]@ && args[3] == spec.args@[3]@ && args[4] == spec.args@[4]@);
        if r {
            assert(args =~= codex_args());
        }
    }
    r
}

/// Binds the built-in launcher to the daemon's session and, if there is one, to
/// the agent's assigned session. Nothing changes unless all is valid.
pub fn bind_codex_agent_spec(
    spec: &mut AgentSpec,
    aoe_session_id: &str,
    assigned_codex_session_id: Option<&str>,
) -> (r: Result<(), BindError>)
    ensures
        match bind_error(*old(spec), aoe_session_id@, crate::text::option_slice_text(assigned_codex_session_id)) {
            Some(e) => r == Err::<(), BindError>(e) && *final(spec) == *old(spec),
            None => r is Ok && crate::text::texts(final(spec).args@) == codex_args()
                + binding_args(aoe_session_id@, crate::text::option_slice_text(assigned_codex_session_id))
                && final(spec).command == old(spec).command && final(spec).description
                == old(spec).description && final(spec).env_allowlist == old(spec).env_allowlist,
        },
{
    if !builtin(spec) {
        return Err(BindError::WrongLauncher);
    }
    if !is_aoe_session_id(aoe_session_id) {
        return Err(BindError::InvalidAoeSession);
    }
    if let Some(id) = assigned_codex_session_id {
        if !canonical_codex_session_id(id) {
            return Err(BindError::InvalidCodexSession);
        }
    }
    let ghost before = spec.args@;
    assert(crate::text::texts(before).len() == before.len());
    spec.args.push("--maya-aoe-session-id".to_owned());
    spec.args.push(aoe_session_id.to_owned());
    if let Some(id) = assigned_codex_session_id {
        spec.args.push("--maya-assigned-codex-session-id".to_owned());
        spec.args.push(id.to_owned());
    }
    assert(crate::text::texts(spec.args@) =~= codex_args() + binding_args(
        aoe_session_id@,
        crate::text::option_slice_text(assigned_codex_session_id),
    )) by {
        assert forall|i: int| 0 <= i < before.len() implies #[trigger] crate::text::texts(
            spec.args@,
        )[i] == codex_args()[i] by {
            assert(crate::text::texts(before)[i] == before[i]@);
            assert(spec.args@[i] == before[i]);
        }
    }
    Ok(())
}

/// A launcher that carries arguments of its own, or has been bound already, is
/// refused, whatever the sessions.
pub proof fn only_the_bare_launcher_is_bound(
    spec: AgentSpec,
    aoe_session_id: Seq<char>,
    assigned: Option<Seq<char>>,
)
    requires
        spec.args@.len() != codex_args().len(),
    ensures
        bind_error(spec, aoe_session_id, assigned) == Some(BindError::WrongLauncher),
{
    assert(crate::text::texts(spec.args@).len() == spec.args@.len());
}

/// A launcher is bound exactly where its command line is the built-in one word by
/// word, the daemon's session id is 16 hexadecimal digits and the agent's session
/// id, if there is one, is a canonical UUID. Otherwise the first of these that is
/// not so is reported.
pub proof fn binding_goes_by_command_line_and_identities(
    spec: AgentSpec,
    aoe_session_id: Seq<char>,
    assigned: Option<Seq<char>>,
)
    ensures
        ({
            let bare = spec.command@ == "/usr/bin/sudo"@ && spec.args@.len() == 5
                && spec.args@[0]@ == "-n"@ && spec.args@[1]@ == "-u"@ && spec.args@[2]@
                == "#1001"@ && spec.args@[3]@ == "--"@ && spec.args@[4]@
                == "/usr/local/libexec/maya-aoe/maya-codex-acp"@;
            let own = crate::identity::is_hex_text(aoe_session_id, 16);
            let agent = assigned matches Some(id) ==> crate::identity::is_canonical_uuid(id);
            let error = bind_error(spec, aoe_session_id, assigned);
            &&& error is None <==> bare && own && agent
            &&& error == Some(BindError::WrongLauncher) <==> !bare
            &&& error == Some(BindError::InvalidAoeSession) <==> bare && !own
            &&& error == Some(BindError::InvalidCodexSession) <==> bare && own && !agent
        }),
{
    let args = crate::text::texts(spec.args@);
    let wanted = codex_args();
    assert(args.len() == spec.args@.len() && wanted.len() == 5);
    assert(wanted[0] == "-n"@ && wanted[1] == "-u"@ && wanted[2] == "#1001"@ && wanted[3] == "--"@
        && wanted[4] == "/usr/local/libexec/maya-aoe/maya-codex-acp"@);
    if args == wanted {
        assert(args[0] == spec.args@[0]@ && args[1] == spec.args@[1]@ && args[2]
            == spec.args@[2]@ && args[3] == spec.args@[3]@ && args[4] == spec.args@[4]@);
    } else if spec.args@.len() == 5 && spec.args@[0]@ == "-n"@ && spec.args@[1]@ == "-u"@
        && spec.args@[2]@ == "#1001"@ && spec.args@[3]@ == "--"@ && spec.args@[4]@
        == "/usr/local/libexec/maya-aoe/maya-codex-acp"@ {
        assert(args =~= wanted);
    }
}

/// A bound launcher carries its own session id behind its flag and then, if there
/// is one, the agent's session id behind its flag, and nothing else.
pub proof fn bound_arguments_are_flags_and_ids(own: Seq<char>, id: Seq<char>)
    ensures
        codex_args().len() == 5,
        binding_args(own, None).len() == 2,
        binding_args(own, None)[0] == "--maya-aoe-session-id"@,
        binding_args(own, None)[1] == own,
        binding_args(own, Some(id)).len() == 4,
        binding_args(own, Some(id)).take(2) == binding_args(own, None),
        binding_args(own, Some(id))[2] == "--maya-assigned-codex-session-id"@,
        binding_args(own, Some(id))[3] == id,
{
    assert(binding_args(own, Some(id)).take(2) =~= binding_args(own, None));
}

}
