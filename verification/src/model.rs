//! The immutable model snapshot that one export call reads.
//!
//! The snapshot holds, as plain values, exactly what the export logic
//! queries of the network model: the two stable-ordered router lists, the
//! stored topology edge entries, the known prefixes with their per-prefix
//! facts, and the BGP session list. Coordinates are held as already
//! formatted text: the export performs no layout computation and copies
//! them verbatim into the document.

use vstd::prelude::*;

verus! {

/// A position on the drawing plane, as already-formatted coordinate text.
pub struct Point {
    pub x: String,
    pub y: String,
}

/// One router of the snapshot.
pub struct Router {
    /// Stable nonnegative index; the sole cross-reference key used in all
    /// generated text.
    pub index: usize,
    /// Optional display name; rendered as an empty trailing comment when
    /// absent.
    pub name: Option<String>,
    /// Optional position; the origin when absent.
    pub position: Option<Point>,
}

/// One stored topology edge entry. The topology is undirected: an entry may
/// carry its endpoints in either order, and one undirected connection may be
/// stored once per direction, each direction with its own weight.
pub struct Edge {
    pub a: usize,
    pub b: usize,
    /// Link weight, already rounded to an integer.
    pub weight: u64,
}

/// The resolved next hops of one internal router for one prefix
/// (zero or more: multipath).
pub struct NextHopFact {
    pub router: usize,
    pub next_hops: Vec<usize>,
}

/// One route announcement for a prefix passing from `source` to `dest`.
/// The step detail is carried along but never read by the export.
pub struct PropagationFact {
    pub source: usize,
    pub dest: usize,
    pub detail: Vec<usize>,
}

/// One known prefix: its canonical string form and its per-prefix facts,
/// each list in the model's stable order.
pub struct PrefixInfo {
    pub text: String,
    pub next_hops: Vec<NextHopFact>,
    pub propagations: Vec<PropagationFact>,
}

/// The closed set of BGP session kinds.
#[derive(Clone, Copy)]
pub enum SessionKind {
    EBgp,
    IBgpPeer,
    IBgpClient,
}

/// One BGP session: an ordered pair of routers and the session kind.
pub struct BgpSession {
    pub source: usize,
    pub dest: usize,
    pub kind: SessionKind,
}

/// The whole model snapshot of one export call.
pub struct NetSnapshot {
    /// Internal routers, in the model's stable order.
    pub internal: Vec<Router>,
    /// External routers, in the model's stable order.
    pub external: Vec<Router>,
    /// Stored topology edge entries, in the graph's native enumeration order.
    pub edges: Vec<Edge>,
    /// Known prefixes, in the model's stable order.
    pub prefixes: Vec<PrefixInfo>,
    /// BGP sessions, in the model's listing order.
    pub sessions: Vec<BgpSession>,
}

impl NetSnapshot {
    /// Every router index of the snapshot, internal list first.
    pub open spec fn router_indices(self) -> Seq<usize> {
        self.internal@.map_values(|r: Router| r.index) + self.external@.map_values(
            |r: Router| r.index,
        )
    }

    /// Model invariant: router indices are unique across both router lists,
    /// so every router is internal or external but never both.
    pub open spec fn wf(self) -> bool {
        self.router_indices().no_duplicates()
    }
}

} // verus!
