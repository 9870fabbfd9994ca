//! The library's stated laws, proved over the section spec functions.

use vstd::prelude::*;

use crate::model::{BgpSession, Edge, NetSnapshot, PrefixInfo, SessionKind};
use crate::sections::{
    canonical_edge, kept_edges, spec_edge_line, spec_edge_lines, spec_nh_blocks, spec_node_line,
    spec_node_lines, spec_prefix_block, spec_prefix_nh_lines, spec_prop_blocks, spec_prop_lines,
    spec_session_lines, spec_style, spec_toggles,
};
use crate::text::{dec_rep, joined, sanitized};

verus! {

/// The directed endpoint pair of each stored entry, in storage order.
pub open spec fn directed_pairs(edges: Seq<Edge>) -> Seq<(usize, usize)> {
    edges.map_values(|e: Edge| (e.a, e.b))
}

/// The endpoint pair of an entry with the smaller index first.
pub open spec fn canonical_pair(e: Edge) -> (usize, usize) {
    if e.a < e.b {
        (e.a, e.b)
    } else {
        (e.b, e.a)
    }
}

/// The canonical pair of each stored entry, in storage order.
pub open spec fn canonical_pairs(edges: Seq<Edge>) -> Seq<(usize, usize)> {
    edges.map_values(|e: Edge| canonical_pair(e))
}

/// The distinct undirected connections that the stored entries represent.
pub open spec fn undirected_connections(edges: Seq<Edge>) -> Set<(usize, usize)> {
    canonical_pairs(edges).to_set()
}

/// Entry `i`'s reversed entry is stored as well.
pub open spec fn has_reverse(edges: Seq<Edge>, i: int) -> bool {
    exists|j: int|
        0 <= j < edges.len() && (#[trigger] edges[j]).a == edges[i].b && edges[j].b == edges[i].a
}

/// How an undirected topology exposes its connections: no self
/// connections, no repeated directed entry, and each entry stored in both
/// endpoint orders.
pub open spec fn symmetric_storage(edges: Seq<Edge>) -> bool {
    &&& forall|i: int| 0 <= i < edges.len() ==> (#[trigger] edges[i]).a != edges[i].b
    &&& directed_pairs(edges).no_duplicates()
    &&& forall|i: int| 0 <= i < edges.len() ==> has_reverse(edges, i)
}

proof fn lemma_kept_edges_facts(edges: Seq<Edge>)
    ensures
        forall|p: (usize, usize)|
            #[trigger] directed_pairs(kept_edges(edges)).contains(p) ==> directed_pairs(
                edges,
            ).contains(p),
        directed_pairs(edges).no_duplicates() ==> directed_pairs(kept_edges(edges)).no_duplicates(),
        forall|m: int| 0 <= m < kept_edges(edges).len() ==> canonical_edge(
            #[trigger] kept_edges(edges)[m],
        ),
        forall|i: int|
            0 <= i < edges.len() && canonical_edge(#[trigger] edges[i]) ==> kept_edges(
                edges,
            ).contains(edges[i]),
        forall|m: int| 0 <= m < kept_edges(edges).len() ==> edges.contains(
            #[trigger] kept_edges(edges)[m],
        ),
    decreases edges.len(),
{
    reveal(Seq::filter);
    if edges.len() == 0 {
    } else {
        let dl = edges.drop_last();
        let last = edges.last();
        lemma_kept_edges_facts(dl);
        let k = kept_edges(edges);
        let kdl = kept_edges(dl);
        assert(k == if canonical_edge(last) {
            kdl.push(last)
        } else {
            kdl
        });
        assert(directed_pairs(dl) =~= directed_pairs(edges).drop_last());
        assert forall|n: int| 0 <= n < dl.len() implies dl[n] == edges[n] by {}

        assert forall|p: (usize, usize)|
            #[trigger] directed_pairs(k).contains(p) implies directed_pairs(edges).contains(
            p,
        ) by {
            let m = choose|m: int| 0 <= m < k.len() && directed_pairs(k)[m] == p;
            if canonical_edge(last) && m == k.len() - 1 {
                assert(k[m] == last);
                assert(directed_pairs(edges)[edges.len() - 1] == p);
            } else {
                assert(k[m] == kdl[m]);
                assert(directed_pairs(kdl)[m] == p);
                assert(directed_pairs(kdl).contains(p));
                let n = choose|n: int| 0 <= n < dl.len() && directed_pairs(dl)[n] == p;
                assert(directed_pairs(edges)[n] == p);
            }
        }

        if directed_pairs(edges).no_duplicates() {
            assert forall|i: int, j: int|
                0 <= i < directed_pairs(k).len() && 0 <= j < directed_pairs(k).len() && i
                    != j implies directed_pairs(k)[i] != directed_pairs(k)[j] by {
                if canonical_edge(last) {
                    if i == k.len() - 1 || j == k.len() - 1 {
                        let o = if i == k.len() - 1 {
                            j
                        } else {
                            i
                        };
                        assert(k[o] == kdl[o]);
                        if directed_pairs(k)[o] == (last.a, last.b) {
                            assert(directed_pairs(kdl)[o] == (last.a, last.b));
                            assert(directed_pairs(kdl).contains((last.a, last.b)));
                            assert(directed_pairs(dl).contains((last.a, last.b)));
                            let n = choose|n: int|
                                0 <= n < dl.len() && directed_pairs(dl)[n] == (last.a, last.b);
                            assert(directed_pairs(edges)[n] == (last.a, last.b));
                            assert(directed_pairs(edges)[edges.len() - 1] == (last.a, last.b));
                        }
                    } else {
                        assert(directed_pairs(k)[i] == directed_pairs(kdl)[i]);
                        assert(directed_pairs(k)[j] == directed_pairs(kdl)[j]);
                    }
                } else {
                    assert(directed_pairs(k)[i] == directed_pairs(kdl)[i]);
                    assert(directed_pairs(k)[j] == directed_pairs(kdl)[j]);
                }
            }
        }

        assert forall|i: int|
            0 <= i < edges.len() && canonical_edge(#[trigger] edges[i]) implies k.contains(
            edges[i],
        ) by {
            if i == edges.len() - 1 {
                assert(k[k.len() - 1] == edges[i]);
            } else {
                assert(kdl.contains(dl[i]));
                let m = choose|m: int| 0 <= m < kdl.len() && kdl[m] == dl[i];
                assert(k[m] == edges[i]);
            }
        }

        assert forall|m: int| 0 <= m < k.len() implies edges.contains(#[trigger] k[m]) by {
            if canonical_edge(last) && m == k.len() - 1 {
                assert(edges[edges.len() - 1] == k[m]);
            } else {
                assert(dl.contains(kdl[m]));
                let n = choose|n: int| 0 <= n < dl.len() && dl[n] == kdl[m];
                assert(edges[n] == k[m]);
            }
        }
    }
}

/// For any symmetrically stored topology, the edge section emits exactly
/// one connection line per distinct undirected connection — no
/// duplicates, no omissions — and line `i` is the line of the `i`-th kept
/// entry.
pub proof fn lemma_edge_lines_count(edges: Seq<Edge>)
    requires
        symmetric_storage(edges),
    ensures
        spec_edge_lines(edges).len() == undirected_connections(edges).len(),
        forall|i: int| 0 <= i < spec_edge_lines(edges).len() ==> #[trigger] spec_edge_lines(
            edges,
        )[i] == spec_edge_line(kept_edges(edges)[i]),
{
    lemma_kept_edges_facts(edges);
    let k = kept_edges(edges);
    let kp = directed_pairs(k);
    kp.unique_seq_to_set();
    assert(kp.to_set() =~= undirected_connections(edges)) by {
        assert forall|p: (usize, usize)| kp.to_set().contains(p) implies undirected_connections(
            edges,
        ).contains(p) by {
            let m = choose|m: int| 0 <= m < kp.len() && kp[m] == p;
            assert(canonical_edge(k[m]));
            assert(canonical_pair(k[m]) == p);
            assert(edges.contains(k[m]));
            let n = choose|n: int| 0 <= n < edges.len() && edges[n] == k[m];
            assert(canonical_pairs(edges)[n] == p);
            assert(canonical_pairs(edges).contains(p));
        }
        assert forall|p: (usize, usize)| undirected_connections(edges).contains(
            p,
        ) implies kp.to_set().contains(p) by {
            let i = choose|i: int| 0 <= i < edges.len() && canonical_pairs(edges)[i] == p;
            assert(canonical_pair(edges[i]) == p);
            if edges[i].a < edges[i].b {
                assert(k.contains(edges[i]));
                let m = choose|m: int| 0 <= m < k.len() && k[m] == edges[i];
                assert(kp[m] == p);
                assert(kp.contains(p));
            } else {
                assert(has_reverse(edges, i));
                let j = choose|j: int|
                    0 <= j < edges.len() && (#[trigger] edges[j]).a == edges[i].b && edges[j].b
                        == edges[i].a;
                assert(edges[i].a != edges[i].b);
                assert(canonical_edge(edges[j]));
                assert(k.contains(edges[j]));
                let m = choose|m: int| 0 <= m < k.len() && k[m] == edges[j];
                assert(kp[m] == p);
                assert(kp.contains(p));
            }
        }
    }
}

/// In a well-formed snapshot every router receives exactly one node line:
/// one in its own role's section, none in the other, and no router index
/// repeats within a section.
pub proof fn lemma_each_router_in_one_section(net: NetSnapshot)
    requires
        net.wf(),
    ensures
        spec_node_lines(net.internal@, true).len() == net.internal@.len(),
        spec_node_lines(net.external@, false).len() == net.external@.len(),
        forall|i: int| 0 <= i < net.internal@.len() ==> #[trigger] spec_node_lines(
            net.internal@,
            true,
        )[i] == spec_node_line(net.internal@[i], true),
        forall|i: int| 0 <= i < net.external@.len() ==> #[trigger] spec_node_lines(
            net.external@,
            false,
        )[i] == spec_node_line(net.external@[i], false),
        forall|i: int, j: int|
            #![trigger net.internal@[i], net.internal@[j]]
            0 <= i < net.internal@.len() && 0 <= j < net.internal@.len() && i != j
                ==> net.internal@[i].index != net.internal@[j].index,
        forall|i: int, j: int|
            #![trigger net.external@[i], net.external@[j]]
            0 <= i < net.external@.len() && 0 <= j < net.external@.len() && i != j
                ==> net.external@[i].index != net.external@[j].index,
        forall|i: int, j: int|
            #![trigger net.internal@[i], net.external@[j]]
            0 <= i < net.internal@.len() && 0 <= j < net.external@.len()
                ==> net.internal@[i].index != net.external@[j].index,
{
    let all = net.router_indices();
    let ni = net.internal@.len() as int;
    assert forall|i: int, j: int|
        #![trigger net.internal@[i], net.internal@[j]]
        0 <= i < net.internal@.len() && 0 <= j < net.internal@.len() && i
            != j implies net.internal@[i].index != net.internal@[j].index by {
        assert(all[i] == net.internal@[i].index);
        assert(all[j] == net.internal@[j].index);
    }
    assert forall|i: int, j: int|
        #![trigger net.external@[i], net.external@[j]]
        0 <= i < net.external@.len() && 0 <= j < net.external@.len() && i
            != j implies net.external@[i].index != net.external@[j].index by {
        assert(all[ni + i] == net.external@[i].index);
        assert(all[ni + j] == net.external@[j].index);
    }
    assert forall|i: int, j: int|
        #![trigger net.internal@[i], net.external@[j]]
        0 <= i < net.internal@.len() && 0 <= j
            < net.external@.len() implies net.internal@[i].index != net.external@[j].index by {
        assert(all[i] == net.internal@[i].index);
        assert(all[ni + j] == net.external@[j].index);
    }
}

/// For every known prefix, the sanitized identifier used in the toggle
/// list, in the next-hop section and in the propagation section is the
/// same `sanitized` of its canonical string form, and each of the two
/// overlay sections holds exactly one conditional block per prefix,
/// guarded by exactly that identifier.
pub proof fn lemma_prefix_identifier_consistent(prefixes: Seq<PrefixInfo>)
    ensures
        spec_toggles(prefixes).len() == prefixes.len(),
        spec_nh_blocks(prefixes).len() == prefixes.len(),
        spec_prop_blocks(prefixes).len() == prefixes.len(),
        forall|i: int|
            0 <= i < prefixes.len() ==> #[trigger] spec_toggles(prefixes)[i] == "prefix"@
                + sanitized(prefixes[i].text@),
        forall|i: int|
            0 <= i < prefixes.len() ==> #[trigger] spec_nh_blocks(prefixes)[i]
                == spec_prefix_block(
                sanitized(prefixes[i].text@),
                joined(spec_prefix_nh_lines(prefixes[i].next_hops@), "\n"@),
            ),
        forall|i: int|
            0 <= i < prefixes.len() ==> #[trigger] spec_prop_blocks(prefixes)[i]
                == spec_prefix_block(
                sanitized(prefixes[i].text@),
                joined(spec_prop_lines(prefixes[i].propagations@), "\n"@),
            ),
{
}

/// The kind-to-style mapping is total over the closed set of session
/// kinds, every kind yields one of exactly three pairwise distinct style
/// tokens, and each token names its kind alone.
pub proof fn lemma_style_total_and_distinct()
    ensures
        forall|k: SessionKind| (#[trigger] spec_style(k)) == "ebgp session"@ || spec_style(k)
            == "ibgp peer session"@ || spec_style(k) == "ibgp client session"@,
        spec_style(SessionKind::EBgp) == "ebgp session"@,
        spec_style(SessionKind::IBgpPeer) == "ibgp peer session"@,
        spec_style(SessionKind::IBgpClient) == "ibgp client session"@,
        "ebgp session"@ != "ibgp peer session"@,
        "ebgp session"@ != "ibgp client session"@,
        "ibgp peer session"@ != "ibgp client session"@,
{
    reveal_strlit("ebgp session");
    reveal_strlit("ibgp peer session");
    reveal_strlit("ibgp client session");
    assert("ebgp session"@.len() == 12);
    assert("ibgp peer session"@.len() == 17);
    assert("ibgp client session"@.len() == 19);
    assert forall|k: SessionKind| (#[trigger] spec_style(k)) == "ebgp session"@ || spec_style(k)
        == "ibgp peer session"@ || spec_style(k) == "ibgp client session"@ by {
        match k {
            SessionKind::EBgp => {},
            SessionKind::IBgpPeer => {},
            SessionKind::IBgpClient => {},
        }
    }
}

/// Every session yields exactly one connector line, in listing order, and
/// the connector names the stored source first and the stored destination
/// second — exactly as stored, never sorted.
pub proof fn lemma_session_connectors(sessions: Seq<BgpSession>)
    ensures
        spec_session_lines(sessions).len() == sessions.len(),
        forall|i: int|
            0 <= i < sessions.len() ==> #[trigger] spec_session_lines(sessions)[i] == "    \\draw["@
                + spec_style(sessions[i].kind) + "] (r"@ + dec_rep(sessions[i].source as nat)
                + ") to[bend left=20] (r"@ + dec_rep(sessions[i].dest as nat) + ");"@,
{
}

} // verus!
