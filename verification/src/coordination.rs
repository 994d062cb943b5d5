//! The coordination strategy of a team and its text form.

use vstd::prelude::*;

use crate::text::same_text;

verus! {

/// How a team's members respond when the team is called.
#[derive(Debug, Clone, Copy, PartialEq, Eq, Structural)]
pub enum Coordination {
    /// Every member answers the same prompt independently. The default.
    Broadcast,
    /// Members answer in order; each sees the prior members' replies.
    RoundRobin,
    /// Members answer independently, then a lead agent synthesizes one answer.
    DebateSynthesis,
    /// A router picks the single best-suited member and routes only to it.
    Router,
}

impl Default for Coordination {
    fn default() -> (c: Self)
        ensures
            c == Coordination::Broadcast,
    {
        Coordination::Broadcast
    }
}

/// The strategy that a text names.
pub open spec fn named(s: Seq<char>) -> Option<Coordination> {
    if s == "broadcast"@ {
        Some(Coordination::Broadcast)
    } else if s == "round-robin"@ {
        Some(Coordination::RoundRobin)
    } else if s == "debate-synthesis"@ {
        Some(Coordination::DebateSynthesis)
    } else if s == "router"@ {
        Some(Coordination::Router)
    } else {
        None
    }
}

/// The strategy that a stored text stands for: the one it names, else the default.
pub open spec fn lenient(s: Seq<char>) -> Coordination {
    match named(s) {
        Some(c) => c,
        None => Coordination::Broadcast,
    }
}

impl Coordination {
    /// The text form of the strategy, in storage and on the wire.
    pub open spec fn name(self) -> Seq<char> {
        match self {
            Coordination::Broadcast => "broadcast"@,
            Coordination::RoundRobin => "round-robin"@,
            Coordination::DebateSynthesis => "debate-synthesis"@,
            Coordination::Router => "router"@,
        }
    }

    /// Parse the stored text form. Unknown or legacy values become
    /// [`Coordination::Broadcast`], so a bad row never breaks listing.
    pub fn from_str_lenient(s: &str) -> (c: Self)
        ensures
            c == lenient(s@),
            s@ == "broadcast"@ ==> c == Coordination::Broadcast,
            s@ == "round-robin"@ ==> c == Coordination::RoundRobin,
            s@ == "debate-synthesis"@ ==> c == Coordination::DebateSynthesis,
            s@ == "router"@ ==> c == Coordination::Router,
    {
        proof {
            lemma_names_distinct();
        }
        match Self::from_str_strict(s) {
            Some(c) => c,
            None => Coordination::Broadcast,
        }
    }

    /// Parse the text form of a strategy that a client writes: only the four names
    /// are accepted, so that a misspelt strategy is refused and not stored.
    pub fn from_str_strict(s: &str) -> (c: Option<Self>)
        ensures
            c == named(s@),
            s@ == "broadcast"@ ==> c == Some(Coordination::Broadcast),
            s@ == "round-robin"@ ==> c == Some(Coordination::RoundRobin),
            s@ == "debate-synthesis"@ ==> c == Some(Coordination::DebateSynthesis),
            s@ == "router"@ ==> c == Some(Coordination::Router),
    {
        proof {
            lemma_names_distinct();
        }
        if same_text(s, "broadcast") {
            Some(Coordination::Broadcast)
        } else if same_text(s, "round-robin") {
            Some(Coordination::RoundRobin)
        } else if same_text(s, "debate-synthesis") {
            Some(Coordination::DebateSynthesis)
        } else if same_text(s, "router") {
            Some(Coordination::Router)
        } else {
            None
        }
    }

    /// The stored text form.
    pub fn as_str(self) -> (s: &'static str)
        ensures
            s@ == self.name(),
    {
        match self {
            Coordination::Broadcast => "broadcast",
            Coordination::RoundRobin => "round-robin",
            Coordination::DebateSynthesis => "debate-synthesis",
            Coordination::Router => "router",
        }
    }
}

/// Read a strategy as it comes over the wire with a record: an absent one is the default,
/// and one that this build does not know degrades to it, so that the rest of the record
/// still loads.
pub fn coordination_lenient(raw: Option<&str>) -> (c: Coordination)
    ensures
        c == match raw {
            Some(s) => lenient(s@),
            None => Coordination::Broadcast,
        },
{
    match raw {
        Some(s) => Coordination::from_str_lenient(s),
        None => Coordination::Broadcast,
    }
}

/// The four names differ.
proof fn lemma_names_distinct()
    ensures
        "broadcast"@ != "round-robin"@,
        "broadcast"@ != "debate-synthesis"@,
        "broadcast"@ != "router"@,
        "round-robin"@ != "debate-synthesis"@,
        "round-robin"@ != "router"@,
        "debate-synthesis"@ != "router"@,
{
    reveal_strlit("broadcast");
    reveal_strlit("round-robin");
    reveal_strlit("debate-synthesis");
    reveal_strlit("router");
    assert("broadcast"@.len() == 9);
    assert("round-robin"@.len() == 11);
    assert("debate-synthesis"@.len() == 16);
    assert("router"@.len() == 6);
}

/// Every strategy survives being written as text and read back, strictly or leniently.
pub proof fn law_name_round_trip(c: Coordination)
    ensures
        named(c.name()) == Some(c),
        lenient(c.name()) == c,
{
    lemma_names_distinct();
}

/// A text names a strategy exactly when it is that strategy's text form.
pub proof fn law_named_exactly(s: Seq<char>, c: Coordination)
    ensures
        named(s) == Some(c) <==> s == c.name(),
{
    lemma_names_distinct();
}

/// A text that is no strategy's text form is read as [`Coordination::Broadcast`].
pub proof fn law_unknown_reads_as_broadcast(s: Seq<char>)
    requires
        forall|c: Coordination| s != #[trigger] c.name(),
    ensures
        named(s) is None,
        lenient(s) == Coordination::Broadcast,
{
    assert(s != Coordination::Broadcast.name());
    assert(s != Coordination::RoundRobin.name());
    assert(s != Coordination::DebateSynthesis.name());
    assert(s != Coordination::Router.name());
}

} // verus!
