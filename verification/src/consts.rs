use vstd::prelude::*;
use vstd::std_specs::convert::FromSpecImpl;
use vstd::string::StringExecFns;

verus! {

/// The transport protocol a rule applies to.
#[derive(Clone, Copy, Debug, PartialEq, Eq, Structural)]
pub enum Protocols {
    Tcp,
    Udp,
    Any,
}

/// The direction of the traffic a rule applies to.
#[derive(Clone, Copy, Debug, PartialEq, Eq, Structural)]
pub enum Directions {
    In,
    Out,
    Any,
}

/// What a rule does with the traffic it matches.
#[derive(Clone, Copy, Debug, PartialEq, Eq, Structural)]
pub enum Actions {
    Block,
    Allow,
}

/// The native code of TCP.
pub const PROTOCOL_TCP: i32 = 6;

/// The native code of UDP.
pub const PROTOCOL_UDP: i32 = 17;

/// The native code that stands for every protocol.
pub const PROTOCOL_ANY: i32 = 256;

/// The native code of inbound traffic.
pub const DIRECTION_IN: i32 = 1;

/// The native code of outbound traffic.
pub const DIRECTION_OUT: i32 = 2;

/// The native code that stands for both directions.
pub const DIRECTION_ANY: i32 = 0;

/// The native code of blocking.
pub const ACTION_BLOCK: i32 = 0;

/// The native code of allowing.
pub const ACTION_ALLOW: i32 = 1;

impl Protocols {
    /// The protocol that a native code stands for: every code but those of
    /// TCP and UDP means any protocol.
    pub open spec fn of_code(code: i32) -> Protocols {
        if code == PROTOCOL_TCP {
            Protocols::Tcp
        } else if code == PROTOCOL_UDP {
            Protocols::Udp
        } else {
            Protocols::Any
        }
    }

    /// The native code written for a protocol.
    pub open spec fn spec_code(self) -> i32 {
        match self {
            Protocols::Tcp => PROTOCOL_TCP,
            Protocols::Udp => PROTOCOL_UDP,
            Protocols::Any => PROTOCOL_ANY,
        }
    }

    /// The word that a protocol is shown as.
    pub open spec fn text(self) -> Seq<char> {
        match self {
            Protocols::Tcp => "TCP"@,
            Protocols::Udp => "UDP"@,
            Protocols::Any => "Any"@,
        }
    }

    /// The native code written for this protocol.
    #[verifier::when_used_as_spec(spec_code)]
    pub fn code(self) -> (code: i32)
        ensures
            code == self.spec_code(),
    {
        match self {
            Protocols::Tcp => PROTOCOL_TCP,
            Protocols::Udp => PROTOCOL_UDP,
            Protocols::Any => PROTOCOL_ANY,
        }
    }

    /// The word that this protocol is shown as.
    pub fn to_string(&self) -> (s: String)
        ensures
            s@ == self.text(),
    {
        match self {
            Protocols::Tcp => String::from_str("TCP"),
            Protocols::Udp => String::from_str("UDP"),
            Protocols::Any => String::from_str("Any"),
        }
    }

    /// The codes of the protocols: each protocol comes back from its own
    /// code, TCP and UDP have one code each, every other code means any
    /// protocol, and what a code means is written back as that code only
    /// for the three codes that are ever written.
    pub proof fn lemma_codes(p: Protocols, code: i32)
        ensures
            Protocols::of_code(p.spec_code()) == p,
            Protocols::Tcp.spec_code() == 6 && Protocols::Udp.spec_code() == 17
                && Protocols::Any.spec_code() == 256,
            Protocols::of_code(code) == Protocols::Tcp <==> code == 6,
            Protocols::of_code(code) == Protocols::Udp <==> code == 17,
            Protocols::of_code(code) == Protocols::Any <==> code != 6 && code != 17,
            Protocols::of_code(code).spec_code() == code <==> code == 6 || code == 17 || code
                == 256,
    {
    }
}

impl From<i32> for Protocols {
    fn from(w: i32) -> (p: Protocols) {
        if w == PROTOCOL_TCP {
            Protocols::Tcp
        } else if w == PROTOCOL_UDP {
            Protocols::Udp
        } else {
            Protocols::Any
        }
    }
}

impl FromSpecImpl<i32> for Protocols {
    open spec fn obeys_from_spec() -> bool {
        true
    }

    open spec fn from_spec(w: i32) -> Protocols {
        Protocols::of_code(w)
    }
}

impl Default for Protocols {
    fn default() -> (p: Protocols)
        ensures
            p == Protocols::Any,
    {
        Protocols::Any
    }
}

impl Directions {
    /// The direction that a native code stands for: every code but those of
    /// inbound and outbound means any direction.
    pub open spec fn of_code(code: i32) -> Directions {
        if code == DIRECTION_IN {
            Directions::In
        } else if code == DIRECTION_OUT {
            Directions::Out
        } else {
            Directions::Any
        }
    }

    /// The native code written for a direction.
    pub open spec fn spec_code(self) -> i32 {
        match self {
            Directions::In => DIRECTION_IN,
            Directions::Out => DIRECTION_OUT,
            Directions::Any => DIRECTION_ANY,
        }
    }

    /// The word that a direction is shown as.
    pub open spec fn text(self) -> Seq<char> {
        match self {
            Directions::In => "IN"@,
            Directions::Out => "OUT"@,
            Directions::Any => "Any"@,
        }
    }

    /// The native code written for this direction.
    #[verifier::when_used_as_spec(spec_code)]
    pub fn code(self) -> (code: i32)
        ensures
            code == self.spec_code(),
    {
        match self {
            Directions::In => DIRECTION_IN,
            Directions::Out => DIRECTION_OUT,
            Directions::Any => DIRECTION_ANY,
        }
    }

    /// The word that this direction is shown as.
    pub fn to_string(&self) -> (s: String)
        ensures
            s@ == self.text(),
    {
        match self {
            Directions::In => String::from_str("IN"),
            Directions::Out => String::from_str("OUT"),
            Directions::Any => String::from_str("Any"),
        }
    }

    /// The codes of the directions: each direction comes back from its own
    /// code, inbound and outbound have one code each, every other code means
    /// any direction, and what a code means is written back as that code
    /// only for the three codes that are ever written.
    pub proof fn lemma_codes(d: Directions, code: i32)
        ensures
            Directions::of_code(d.spec_code()) == d,
            Directions::In.spec_code() == 1 && Directions::Out.spec_code() == 2
                && Directions::Any.spec_code() == 0,
            Directions::of_code(code) == Directions::In <==> code == 1,
            Directions::of_code(code) == Directions::Out <==> code == 2,
            Directions::of_code(code) == Directions::Any <==> code != 1 && code != 2,
            Directions::of_code(code).spec_code() == code <==> code == 0 || code == 1 || code
                == 2,
    {
    }
}

impl From<i32> for Directions {
    fn from(w: i32) -> (d: Directions) {
        if w == DIRECTION_IN {
            Directions::In
        } else if w == DIRECTION_OUT {
            Directions::Out
        } else {
            Directions::Any
        }
    }
}

impl FromSpecImpl<i32> for Directions {
    open spec fn obeys_from_spec() -> bool {
        true
    }

    open spec fn from_spec(w: i32) -> Directions {
        Directions::of_code(w)
    }
}

impl Default for Directions {
    fn default() -> (d: Directions)
        ensures
            d == Directions::Any,
    {
        Directions::Any
    }
}

impl Actions {
    /// The action that a native code stands for: zero blocks, and every
    /// other code allows.
    pub open spec fn of_code(code: i32) -> Actions {
        if code == ACTION_BLOCK {
            Actions::Block
        } else {
            Actions::Allow
        }
    }

    /// The native code written for an action.
    pub open spec fn spec_code(self) -> i32 {
        match self {
            Actions::Block => ACTION_BLOCK,
            Actions::Allow => ACTION_ALLOW,
        }
    }

    /// The word that an action is shown as.
    pub open spec fn text(self) -> Seq<char> {
        match self {
            Actions::Block => "BLOCK"@,
            Actions::Allow => "ALLOW"@,
        }
    }

    /// The native code written for this action.
    #[verifier::when_used_as_spec(spec_code)]
    pub fn code(self) -> (code: i32)
        ensures
            code == self.spec_code(),
    {
        match self {
            Actions::Block => ACTION_BLOCK,
            Actions::Allow => ACTION_ALLOW,
        }
    }

    /// The word that this action is shown as.
    pub fn to_string(&self) -> (s: String)
        ensures
            s@ == self.text(),
    {
        match self {
            Actions::Block => String::from_str("BLOCK"),
            Actions::Allow => String::from_str("ALLOW"),
        }
    }

    /// The codes of the actions: each action comes back from its own code,
    /// zero alone blocks, every other code allows, and an allowing code is
    /// always written back as one.
    pub proof fn lemma_codes(a: Actions, code: i32)
        ensures
            Actions::of_code(a.spec_code()) == a,
            Actions::Block.spec_code() == 0 && Actions::Allow.spec_code() == 1,
            Actions::of_code(code) == Actions::Block <==> code == 0,
            Actions::of_code(code) == Actions::Allow <==> code != 0,
            code != 0 ==> Actions::of_code(code).spec_code() == 1,
    {
    }
}

impl From<i32> for Actions {
    fn from(w: i32) -> (a: Actions) {
        if w == ACTION_BLOCK {
            Actions::Block
        } else {
            Actions::Allow
        }
    }
}

impl FromSpecImpl<i32> for Actions {
    open spec fn obeys_from_spec() -> bool {
        true
    }

    open spec fn from_spec(w: i32) -> Actions {
        Actions::of_code(w)
    }
}

impl Default for Actions {
    fn default() -> (a: Actions)
        ensures
            a == Actions::Block,
    {
        Actions::Block
    }
}

} // verus!
