//! The roles a peer can announce during the handshake, and their wire names.

use vstd::prelude::*;

verus! {

/// All roles a client can be.
#[derive(Debug, PartialEq, Eq, Structural, Hash, Clone, Copy)]
pub enum ClientRole {
    /// Client can call RPC endpoints.
    Caller,
    /// Client can register RPC endpoints.
    Callee,
    /// Client can publish events to topics.
    Publisher,
    /// Client can register for events on topics.
    Subscriber,
}

/// All the supported roles a server can have.
pub enum ServerRole {
    /// Server supports RPC calls.
    Router,
    /// Server supports pub/sub.
    Broker,
}

/// Whether every character of `name` is one of the letters `a` to `z`.
pub open spec fn is_lowercase_word(name: Seq<char>) -> bool {
    forall|i: int| 0 <= i < name.len() ==> 'a' <= #[trigger] name[i] <= 'z'
}

impl ClientRole {
    /// The canonical wire name of the role.
    pub open spec fn wire_name(self) -> Seq<char> {
        match self {
            ClientRole::Caller => "caller"@,
            ClientRole::Callee => "callee"@,
            ClientRole::Publisher => "publisher"@,
            ClientRole::Subscriber => "subscriber"@,
        }
    }

    /// Returns the string representation of the role.
    pub fn to_str(&self) -> (name: &'static str)
        ensures
            name@ == self.wire_name(),
    {
        match self {
            ClientRole::Caller => "caller",
            ClientRole::Callee => "callee",
            ClientRole::Publisher => "publisher",
            ClientRole::Subscriber => "subscriber",
        }
    }

    /// The wire name of every client role is a non-empty word of lowercase
    /// letters.
    pub proof fn lemma_wire_name_lowercase(self)
        ensures
            self.wire_name().len() > 0,
            is_lowercase_word(self.wire_name()),
    {
        reveal_strlit("caller");
        reveal_strlit("callee");
        reveal_strlit("publisher");
        reveal_strlit("subscriber");
    }

    /// No two client roles share a wire name: the name determines the role.
    pub proof fn lemma_wire_name_injective(self, other: ClientRole)
        ensures
            self.wire_name() == other.wire_name() <==> self == other,
    {
        reveal_strlit("caller");
        reveal_strlit("callee");
        reveal_strlit("publisher");
        reveal_strlit("subscriber");
        if self != other {
            // Any two of the four names differ in length or in their last
            // character.
            let a = self.wire_name();
            let b = other.wire_name();
            assert(a.len() != b.len() || a[a.len() - 1] != b[b.len() - 1]);
        }
    }
}

impl ServerRole {
    /// The canonical wire name of the role.
    pub open spec fn wire_name(self) -> Seq<char> {
        match self {
            ServerRole::Router => "router"@,
            ServerRole::Broker => "broker"@,
        }
    }

    /// Returns the string representation of the role.
    pub fn to_str(&self) -> (name: &'static str)
        ensures
            name@ == self.wire_name(),
    {
        match self {
            ServerRole::Router => "router",
            ServerRole::Broker => "broker",
        }
    }

    /// The wire name of every server role is a non-empty word of lowercase
    /// letters.
    pub proof fn lemma_wire_name_lowercase(self)
        ensures
            self.wire_name().len() > 0,
            is_lowercase_word(self.wire_name()),
    {
        reveal_strlit("router");
        reveal_strlit("broker");
    }

    /// The two server roles have different wire names.
    pub proof fn lemma_wire_name_injective(self, other: ServerRole)
        ensures
            self.wire_name() == other.wire_name() <==> self == other,
    {
        reveal_strlit("router");
        reveal_strlit("broker");
        if self != other {
            assert(self.wire_name()[0] != other.wire_name()[0]);
        }
    }
}

} // verus!
