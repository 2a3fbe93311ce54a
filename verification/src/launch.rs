//! The data that crosses the boundary with the host: the identifier it asks
//! about and the command it gets back.

use vstd::prelude::*;

verus! {

/// The identifier of a context server, as the host names it.
#[derive(Debug, Clone, PartialEq, Eq)]
pub struct ContextServerId(pub String);

impl View for ContextServerId {
    type V = Seq<char>;

    open spec fn view(&self) -> Seq<char> {
        self.0@
    }
}

/// What is needed to start a process: the program, its arguments in order,
/// and the environment variables to set for it, as pairs of name and value.
#[derive(Debug, Clone, PartialEq, Eq)]
pub struct Command {
    pub command: String,
    pub args: Vec<String>,
    pub env: Vec<(String, String)>,
}

/// The mathematical content of a [`Command`].
pub ghost struct CommandView {
    pub command: Seq<char>,
    pub args: Seq<Seq<char>>,
    pub env: Seq<(Seq<char>, Seq<char>)>,
}

impl View for Command {
    type V = CommandView;

    open spec fn view(&self) -> CommandView {
        CommandView {
            command: self.command@,
            args: self.args@.map_values(|a: String| a@),
            env: self.env@.map_values(|kv: (String, String)| (kv.0@, kv.1@)),
        }
    }
}

} // verus!
