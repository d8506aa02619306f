use vstd::prelude::*;
use vstd::string::StrSliceExecFns;

verus! {

/// Core status of a node based on polling results.
///
/// The three states of the status engine: a node starts `Unknown`, and the
/// counters of consecutive successes and failures move it to `Up` or `Down`.
#[derive(Debug, Clone, Copy, PartialEq, Eq, Structural)]
pub enum NodeStatus {
    /// Node status is not yet determined (initial state)
    Unknown,
    /// Node is reachable and responding
    Up,
    /// Node is unreachable or not responding
    Down,
}

impl Default for NodeStatus {
    fn default() -> (s: Self)
        ensures
            s == NodeStatus::Unknown,
    {
        NodeStatus::Unknown
    }
}

/// Effective status: the node status with dependency propagation applied.
///
/// `Suppressed` is the overlay that a node gets while its parent is `Down`.
#[derive(Debug, Clone, Copy, PartialEq, Eq, Structural)]
pub enum EffectiveStatus {
    /// Node status is not yet determined
    Unknown,
    /// Node is up and parent (if any) is not down
    Up,
    /// Node is down
    Down,
    /// Node's parent is down (status suppressed)
    Suppressed,
}

impl Default for EffectiveStatus {
    fn default() -> (s: Self)
        ensures
            s == EffectiveStatus::Unknown,
    {
        EffectiveStatus::Unknown
    }
}

/// The effective status that a node status stands for when nothing suppresses it.
pub open spec fn effective_of(status: NodeStatus) -> EffectiveStatus {
    match status {
        NodeStatus::Unknown => EffectiveStatus::Unknown,
        NodeStatus::Up => EffectiveStatus::Up,
        NodeStatus::Down => EffectiveStatus::Down,
    }
}

impl From<NodeStatus> for EffectiveStatus {
    fn from(status: NodeStatus) -> (r: Self) {
        match status {
            NodeStatus::Unknown => EffectiveStatus::Unknown,
            NodeStatus::Up => EffectiveStatus::Up,
            NodeStatus::Down => EffectiveStatus::Down,
        }
    }
}

impl vstd::std_specs::convert::FromSpecImpl<NodeStatus> for EffectiveStatus {
    open spec fn obeys_from_spec() -> bool {
        true
    }

    open spec fn from_spec(v: NodeStatus) -> Self {
        effective_of(v)
    }
}

/// The text form of a node status, as stored and served.
pub open spec fn node_status_name(status: NodeStatus) -> Seq<char> {
    match status {
        NodeStatus::Unknown => "Unknown"@,
        NodeStatus::Up => "Up"@,
        NodeStatus::Down => "Down"@,
    }
}

/// The node status that a stored text stands for: `Up` and `Down` by their
/// names, anything else `Unknown`.
pub open spec fn parse_node_status(text: Seq<char>) -> NodeStatus {
    if text == "Up"@ {
        NodeStatus::Up
    } else if text == "Down"@ {
        NodeStatus::Down
    } else {
        NodeStatus::Unknown
    }
}

/// The text form of an effective status, as served.
pub open spec fn effective_status_name(status: EffectiveStatus) -> Seq<char> {
    match status {
        EffectiveStatus::Unknown => "Unknown"@,
        EffectiveStatus::Up => "Up"@,
        EffectiveStatus::Down => "Down"@,
        EffectiveStatus::Suppressed => "Suppressed"@,
    }
}

/// Whether two strings hold the same characters.
pub fn str_equal(a: &str, b: &str) -> (r: bool)
    ensures
        r == (a@ == b@),
{
    let n = a.unicode_len();
    if n != b.unicode_len() {
        return false;
    }
    let mut i: usize = 0;
    while i < n
        invariant
            n == a@.len(),
            n == b@.len(),
            0 <= i <= n,
            forall|j: int| 0 <= j < i ==> a@[j] == b@[j],
        decreases n - i,
    {
        if a.get_char(i) != b.get_char(i) {
            return false;
        }
        i = i + 1;
    }
    assert(a@ =~= b@);
    true
}

impl NodeStatus {
    /// The text form: `"Unknown"`, `"Up"` or `"Down"`.
    pub fn as_str(&self) -> (s: &'static str)
        ensures
            s@ == node_status_name(*self),
    {
        match self {
            NodeStatus::Unknown => "Unknown",
            NodeStatus::Up => "Up",
            NodeStatus::Down => "Down",
        }
    }

    /// Read a stored status: `"Up"` and `"Down"` by name, anything else is
    /// `Unknown`.
    pub fn from_db_str(text: &str) -> (s: NodeStatus)
        ensures
            s == parse_node_status(text@),
    {
        if str_equal(text, "Up") {
            NodeStatus::Up
        } else if str_equal(text, "Down") {
            NodeStatus::Down
        } else {
            NodeStatus::Unknown
        }
    }
}

impl EffectiveStatus {
    /// The text form: `"Unknown"`, `"Up"`, `"Down"` or `"Suppressed"`.
    pub fn as_str(&self) -> (s: &'static str)
        ensures
            s@ == effective_status_name(*self),
    {
        match self {
            EffectiveStatus::Unknown => "Unknown",
            EffectiveStatus::Up => "Up",
            EffectiveStatus::Down => "Down",
            EffectiveStatus::Suppressed => "Suppressed",
        }
    }
}

/// A stored status reads back as the status that was stored.
pub proof fn lemma_status_text_round_trip(status: NodeStatus)
    ensures
        parse_node_status(node_status_name(status)) == status,
{
    reveal_strlit("Unknown");
    reveal_strlit("Up");
    reveal_strlit("Down");
    assert("Unknown"@ != "Up"@ && "Unknown"@ != "Down"@ && "Up"@ != "Down"@) by {
        assert("Unknown"@.len() != "Up"@.len());
        assert("Unknown"@.len() != "Down"@.len());
        assert("Up"@.len() != "Down"@.len());
    }
}

/// The served names of the statuses: each node status is served by its own
/// name (`"Unknown"`, `"Up"`, `"Down"`); an effective status that is not
/// `Suppressed` is served by the name of the node status it stands for, and
/// `Suppressed` by `"Suppressed"`.
pub proof fn lemma_status_names(status: NodeStatus)
    ensures
        node_status_name(NodeStatus::Unknown) == "Unknown"@,
        node_status_name(NodeStatus::Up) == "Up"@,
        node_status_name(NodeStatus::Down) == "Down"@,
        effective_status_name(effective_of(status)) == node_status_name(status),
        effective_status_name(EffectiveStatus::Unknown) == "Unknown"@,
        effective_status_name(EffectiveStatus::Up) == "Up"@,
        effective_status_name(EffectiveStatus::Down) == "Down"@,
        effective_status_name(EffectiveStatus::Suppressed) == "Suppressed"@,
{
}

} // verus!
