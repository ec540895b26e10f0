use vstd::prelude::*;

verus! {

/// The shape a lifecycle-hook field may take in a raw configuration document:
/// missing, a single command string, or a list of command strings. Decoding
/// resolves every shape to one ordered sequence of commands.
pub enum CommandList {
    Absent,
    Single(String),
    Many(Vec<String>),
}

impl CommandList {
    /// The sequence of commands this raw field stands for.
    pub open spec fn normalized(self) -> Seq<String> {
        match self {
            CommandList::Absent => Seq::empty(),
            CommandList::Single(s) => seq![s],
            CommandList::Many(v) => v@,
        }
    }

    /// Resolves the raw field to its command sequence: a missing field yields
    /// no commands, a bare string yields that one command, a list yields
    /// itself.
    pub fn normalize(self) -> (r: Vec<String>)
        ensures
            r@ == self.normalized(),
    {
        match self {
            CommandList::Absent => Vec::new(),
            CommandList::Single(s) => {
                let mut v: Vec<String> = Vec::new();
                v.push(s);
                v
            },
            CommandList::Many(v) => v,
        }
    }
}

/// A hook given as a bare command string means the same as the one-element
/// list holding that string.
pub proof fn lemma_single_command_equals_singleton_list(s: String, v: Vec<String>)
    requires
        v@ == seq![s],
    ensures
        CommandList::Single(s).normalized() == CommandList::Many(v).normalized(),
{
}

} // verus!
