//! The two ways in which the endpoint's configuration can be wrong.

use vstd::prelude::*;

verus! {

/// Why no endpoint could be had from the environment.
#[derive(Debug, Clone, Copy, PartialEq, Eq, Hash)]
pub enum RpcUrlError {
    /// The variable is not set.
    NotSet,
    /// The variable is set, to what is no URL with a host.
    Invalid,
}

impl RpcUrlError {
    /// The words of the diagnostic for this error.
    pub open spec fn message_text(self) -> Seq<char> {
        match self {
            RpcUrlError::NotSet => "Environment variable `ETH_RPC_URL` is not set"@,
            RpcUrlError::Invalid => "Invalid ETH_RPC_URL"@,
        }
    }

    /// The diagnostic for this error, one sentence for each of the two.
    pub fn message(&self) -> (r: &'static str)
        ensures
            r@ == self.message_text(),
    {
        match self {
            RpcUrlError::NotSet => "Environment variable `ETH_RPC_URL` is not set",
            RpcUrlError::Invalid => "Invalid ETH_RPC_URL",
        }
    }
}

/// The two errors are told apart by their diagnostics alone.
pub proof fn lemma_messages_differ(a: RpcUrlError, b: RpcUrlError)
    requires
        a != b,
    ensures
        a.message_text() != b.message_text(),
{
    // The two sentences differ in length.
    reveal_strlit("Environment variable `ETH_RPC_URL` is not set");
    reveal_strlit("Invalid ETH_RPC_URL");
    assert(RpcUrlError::NotSet.message_text().len() == 45);
    assert(RpcUrlError::Invalid.message_text().len() == 19);
}

} // verus!
