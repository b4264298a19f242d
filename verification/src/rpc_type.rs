//! The kinds of remote procedure calls between nodes.
use vstd::prelude::*;

verus! {

#[derive(Debug, Clone, Copy, PartialEq, Eq, Hash, Structural)]
pub enum RPCTypes {
    Vote,
    /// Pre-vote probe.
    PreVote,
    AppendEntries,
    InstallSnapshot,
    /// Leadership-transfer directive.
    TimeoutNow,
}

/// The name a call kind is displayed with.
pub open spec fn rpc_type_name(t: RPCTypes) -> Seq<char> {
    match t {
        RPCTypes::Vote => "Vote"@,
        RPCTypes::PreVote => "PreVote"@,
        RPCTypes::AppendEntries => "AppendEntries"@,
        RPCTypes::InstallSnapshot => "InstallSnapshot"@,
        RPCTypes::TimeoutNow => "TimeoutNow"@,
    }
}

impl RPCTypes {
    /// The variant's name, which is how the call kind is displayed.
    pub fn name(&self) -> (s: &'static str)
        ensures
            s@ == rpc_type_name(*self),
    {
        match self {
            RPCTypes::Vote => "Vote",
            RPCTypes::PreVote => "PreVote",
            RPCTypes::AppendEntries => "AppendEntries",
            RPCTypes::InstallSnapshot => "InstallSnapshot",
            RPCTypes::TimeoutNow => "TimeoutNow",
        }
    }
}

} // verus!
