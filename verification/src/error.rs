//! The one way a lookup can fail.

use vstd::prelude::*;
use vstd::string::StringExecFns;

verus! {

/// The identifier asked about names no context server known here.
#[derive(Debug, Clone, PartialEq, Eq)]
pub struct UnknownServer {
    /// The identifier that was not recognised, exactly as it was given.
    pub id: String,
}

impl View for UnknownServer {
    type V = Seq<char>;

    open spec fn view(&self) -> Seq<char> {
        self.id@
    }
}

/// The text shown for an unknown identifier: a fixed prefix, then the
/// identifier itself.
pub open spec fn unknown_server_message(id: Seq<char>) -> Seq<char> {
    "Unknown server: "@ + id
}

impl UnknownServer {
    /// The message for display, which ends in the offending identifier.
    pub fn message(&self) -> (msg: String)
        ensures
            msg@ == unknown_server_message(self@),
    {
        "Unknown server: ".to_string().concat(self.id.as_str())
    }
}

/// The message for an identifier holds that identifier verbatim: it is what
/// follows the sixteen characters of the prefix.
pub proof fn lemma_message_ends_in_id(id: Seq<char>)
    ensures
        unknown_server_message(id).len() == 16 + id.len(),
        unknown_server_message(id).subrange(16, 16 + id.len() as int) == id,
{
    reveal_strlit("Unknown server: ");
    assert(unknown_server_message(id).subrange(16, 16 + id.len() as int) =~= id);
}

} // verus!
