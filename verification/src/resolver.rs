//! The lookup from a context server's identifier to the command that starts it.

use vstd::prelude::*;

use crate::error::{lemma_message_ends_in_id, unknown_server_message, UnknownServer};
use crate::launch::{Command, CommandView, ContextServerId};

verus! {

/// The one identifier that has a launch command.
pub open spec fn known_server_id() -> Seq<char> {
    "tailscale-mcp"@
}

/// The launch command of the known server: `uv run tailscale-mcp.main:main`,
/// with nothing added to the environment.
pub open spec fn tailscale_command() -> CommandView {
    CommandView {
        command: "uv"@,
        args: seq!["run"@, "tailscale-mcp.main:main"@],
        env: Seq::empty(),
    }
}

/// What a lookup of `id` yields: the launch command for the known
/// identifier, and for any other the identifier itself, as the error.
pub open spec fn resolution(id: Seq<char>) -> Result<CommandView, Seq<char>> {
    if id == known_server_id() {
        Ok(tailscale_command())
    } else {
        Err(id)
    }
}

/// The mathematical content of a lookup's result.
pub open spec fn outcome(r: Result<Command, UnknownServer>) -> Result<CommandView, Seq<char>> {
    match r {
        Ok(c) => Ok(c@),
        Err(e) => Err(e@),
    }
}

/// The extension that the host loads. It holds no state.
#[derive(Debug, Clone, Copy)]
pub struct TailscaleNetworkManagementExtension;

impl TailscaleNetworkManagementExtension {
    /// The command that starts the context server `id`.
    ///
    /// Succeeds for the known identifier alone; any other, the empty one
    /// included, comes back inside the error. The project handle is never
    /// looked at, so the result is a function of `id` only, and the extension
    /// is left as it was.
    pub fn context_server_command<P>(
        &mut self,
        id: &ContextServerId,
        _project: &P,
    ) -> (r: Result<Command, UnknownServer>)
        ensures
            outcome(r) == resolution(id@),
            *final(self) == *old(self),
    {
        let known = "tailscale-mcp".to_string();
        if id.0 == known {
            let cmd = Command {
                command: "uv".to_string(),
                args: vec!["run".to_string(), "tailscale-mcp.main:main".to_string()],
                env: Vec::new(),
            };
            assert(cmd@.args =~= tailscale_command().args);
            assert(cmd@.env =~= tailscale_command().env);
            Ok(cmd)
        } else {
            Err(UnknownServer { id: id.0.clone() })
        }
    }
}

/// Exactly one identifier has a launch command: a lookup succeeds if and
/// only if it asks for the known server, and then with the fixed command.
pub proof fn lemma_only_known_id_resolves(id: Seq<char>)
    ensures
        resolution(id) is Ok <==> id == known_server_id(),
        resolution(id) is Ok ==> resolution(id) == Ok::<CommandView, Seq<char>>(
            tailscale_command(),
        ),
{
}

/// Any identifier but the known one is refused, the error carries it
/// unchanged, and the message made for it ends in it, character for
/// character.
pub proof fn lemma_unknown_id_is_named(id: Seq<char>)
    requires
        id != known_server_id(),
    ensures
        resolution(id) == Err::<CommandView, Seq<char>>(id),
        unknown_server_message(id).len() == 16 + id.len(),
        unknown_server_message(id).subrange(16, 16 + id.len() as int) == id,
{
    lemma_message_ends_in_id(id);
}

/// Lookups are deterministic: two results obtained for one identifier have
/// the same content, whenever they were obtained and whatever project handle
/// went with either request.
pub proof fn lemma_lookup_is_deterministic(
    id: Seq<char>,
    first: Result<Command, UnknownServer>,
    second: Result<Command, UnknownServer>,
)
    requires
        outcome(first) == resolution(id),
        outcome(second) == resolution(id),
    ensures
        outcome(first) == outcome(second),
{
}

} // verus!
