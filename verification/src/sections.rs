//! The independent section builders.
//!
//! Every builder reads the snapshot and produces one section of the final
//! document. Each section is a list of lines (or of per-prefix blocks)
//! joined with newlines; the spec functions here state each line of text
//! exactly, and every builder's contract pins its section to them.

use vstd::prelude::*;
use vstd::string::*;

use crate::model::{BgpSession, Edge, NextHopFact, PrefixInfo, PropagationFact, Router, SessionKind};
use crate::text::{
    dec_rep, fmt_u64, fmt_usize, joined, lemma_joined_concat, lemma_joined_push, sanitize,
    sanitized,
};

verus! {

/// The x coordinate text of a router: its position's, or the origin's.
pub open spec fn spec_coord_x(r: Router) -> Seq<char> {
    match r.position {
        Some(p) => p.x@,
        None => "0"@,
    }
}

/// The y coordinate text of a router: its position's, or the origin's.
pub open spec fn spec_coord_y(r: Router) -> Seq<char> {
    match r.position {
        Some(p) => p.y@,
        None => "0"@,
    }
}

/// The display name of a router, empty when absent.
pub open spec fn spec_display_name(r: Router) -> Seq<char> {
    match r.name {
        Some(n) => n@,
        None => ""@,
    }
}

/// One positioned node declaration, tagged with its role marker
/// (`router` for internal, `external` for external), annotated with the
/// display name as a trailing comment.
pub open spec fn spec_node_line(r: Router, internal_role: bool) -> Seq<char> {
    (if internal_role {
        "  \\node[router] at ("@
    } else {
        "  \\node[external] at ("@
    }) + spec_coord_x(r) + ", "@ + spec_coord_y(r) + ") (r"@ + dec_rep(r.index as nat)
        + ") {}; % "@ + spec_display_name(r)
}

/// The node lines of one router list, in list order.
pub open spec fn spec_node_lines(routers: Seq<Router>, internal_role: bool) -> Seq<Seq<char>> {
    routers.map_values(|r: Router| spec_node_line(r, internal_role))
}

fn node_line(r: &Router, internal_role: bool) -> (s: String)
    ensures
        s@ == spec_node_line(*r, internal_role),
{
    let mut s = if internal_role {
        String::from_str("  \\node[router] at (")
    } else {
        String::from_str("  \\node[external] at (")
    };
    match &r.position {
        Some(p) => s.append(p.x.as_str()),
        None => s.append("0"),
    };
    s.append(", ");
    match &r.position {
        Some(p) => s.append(p.y.as_str()),
        None => s.append("0"),
    };
    s.append(") (r");
    let idx = fmt_usize(r.index);
    s.append(idx.as_str());
    s.append(") {}; % ");
    match &r.name {
        Some(n) => s.append(n.as_str()),
        None => s.append(""),
    };
    s
}

/// One node section: one node line per router of `routers`, in the list's
/// stable order, joined with newlines.
pub fn node_section(routers: &Vec<Router>, internal_role: bool) -> (s: String)
    ensures
        s@ == joined(spec_node_lines(routers@, internal_role), "\n"@),
{
    let mut r = String::new();
    let mut i: usize = 0;
    while i < routers.len()
        invariant
            i <= routers.len(),
            r@ == joined(spec_node_lines(routers@.take(i as int), internal_role), "\n"@),
        decreases routers.len() - i,
    {
        if i > 0 {
            r.append("\n");
        }
        let l = node_line(&routers[i], internal_role);
        r.append(l.as_str());
        proof {
            assert(spec_node_lines(routers@.take(i + 1), internal_role) =~~= spec_node_lines(
                routers@.take(i as int),
                internal_role,
            ).push(spec_node_line(routers@[i as int], internal_role)));
            lemma_joined_push(
                spec_node_lines(routers@.take(i as int), internal_role),
                spec_node_line(routers@[i as int], internal_role),
                "\n"@,
            );
            assert(r@ =~= joined(spec_node_lines(routers@.take(i + 1), internal_role), "\n"@));
        }
        i = i + 1;
    }
    proof {
        assert(routers@.take(routers.len() as int) =~= routers@);
    }
    r
}

/// One connection line between the endpoints of an edge entry.
pub open spec fn spec_edge_line(e: Edge) -> Seq<char> {
    "  \\draw[link] (r"@ + dec_rep(e.a as nat) + ") -- (r"@ + dec_rep(e.b as nat) + ");"@
}

/// Whether an edge entry carries its endpoints in canonical order; the one
/// entry per undirected connection that the edge section keeps.
pub open spec fn canonical_edge(e: Edge) -> bool {
    e.a < e.b
}

/// The stored edge entries that the edge section keeps: those in
/// canonical order, in the topology's enumeration order.
pub open spec fn kept_edges(edges: Seq<Edge>) -> Seq<Edge> {
    edges.filter(|e: Edge| canonical_edge(e))
}

/// The connection lines: one per kept edge entry.
pub open spec fn spec_edge_lines(edges: Seq<Edge>) -> Seq<Seq<char>> {
    kept_edges(edges).map_values(|e: Edge| spec_edge_line(e))
}

fn edge_line(e: &Edge) -> (s: String)
    ensures
        s@ == spec_edge_line(*e),
{
    let mut s = String::from_str("  \\draw[link] (r");
    let a = fmt_usize(e.a);
    s.append(a.as_str());
    s.append(") -- (r");
    let b = fmt_usize(e.b);
    s.append(b.as_str());
    s.append(");");
    s
}

/// The edge section: exactly one connection line per stored edge entry
/// whose first endpoint index is strictly below its second, joined with
/// newlines.
pub fn edge_section(edges: &Vec<Edge>) -> (s: String)
    ensures
        s@ == joined(spec_edge_lines(edges@), "\n"@),
{
    let mut r = String::new();
    let mut any: bool = false;
    let mut i: usize = 0;
    while i < edges.len()
        invariant
            i <= edges.len(),
            r@ == joined(spec_edge_lines(edges@.take(i as int)), "\n"@),
            any <==> spec_edge_lines(edges@.take(i as int)).len() != 0,
        decreases edges.len() - i,
    {
        proof {
            reveal(Seq::filter);
            assert(edges@.take(i + 1).drop_last() =~= edges@.take(i as int));
            assert(edges@.take(i + 1).last() == edges@[i as int]);
        }
        if edges[i].a < edges[i].b {
            if any {
                r.append("\n");
            }
            let l = edge_line(&edges[i]);
            r.append(l.as_str());
            any = true;
            proof {
                assert(spec_edge_lines(edges@.take(i + 1)) =~~= spec_edge_lines(
                    edges@.take(i as int),
                ).push(spec_edge_line(edges@[i as int])));
                lemma_joined_push(
                    spec_edge_lines(edges@.take(i as int)),
                    spec_edge_line(edges@[i as int]),
                    "\n"@,
                );
                assert(r@ =~= joined(spec_edge_lines(edges@.take(i + 1)), "\n"@));
            }
        } else {
            proof {
                assert(spec_edge_lines(edges@.take(i + 1)) =~~= spec_edge_lines(
                    edges@.take(i as int),
                ));
            }
        }
        i = i + 1;
    }
    proof {
        assert(edges@.take(edges.len() as int) =~= edges@);
    }
    r
}

/// One weight label, placed at the fixed fractional position along the
/// segment between the entry's endpoints, with the integer weight.
pub open spec fn spec_weight_line(e: Edge) -> Seq<char> {
    "    \\draw ($(r"@ + dec_rep(e.a as nat) + ")!\\linkweightdist!(r"@ + dec_rep(e.b as nat)
        + ")$) node[link weight] { "@ + dec_rep(e.weight as nat) + " };"@
}

/// The weight labels: one per stored edge entry, not deduplicated, in the
/// topology's enumeration order.
pub open spec fn spec_weight_lines(edges: Seq<Edge>) -> Seq<Seq<char>> {
    edges.map_values(|e: Edge| spec_weight_line(e))
}

fn weight_line(e: &Edge) -> (s: String)
    ensures
        s@ == spec_weight_line(*e),
{
    let mut s = String::from_str("    \\draw ($(r");
    let a = fmt_usize(e.a);
    s.append(a.as_str());
    s.append(")!\\linkweightdist!(r");
    let b = fmt_usize(e.b);
    s.append(b.as_str());
    s.append(")$) node[link weight] { ");
    let w = fmt_u64(e.weight);
    s.append(w.as_str());
    s.append(" };");
    s
}

/// The link-weight section: one label line per stored edge entry, joined
/// with newlines.
pub fn link_weight_section(edges: &Vec<Edge>) -> (s: String)
    ensures
        s@ == joined(spec_weight_lines(edges@), "\n"@),
{
    let mut r = String::new();
    let mut i: usize = 0;
    while i < edges.len()
        invariant
            i <= edges.len(),
            r@ == joined(spec_weight_lines(edges@.take(i as int)), "\n"@),
        decreases edges.len() - i,
    {
        if i > 0 {
            r.append("\n");
        }
        let l = weight_line(&edges[i]);
        r.append(l.as_str());
        proof {
            assert(spec_weight_lines(edges@.take(i + 1)) =~~= spec_weight_lines(
                edges@.take(i as int),
            ).push(spec_weight_line(edges@[i as int])));
            lemma_joined_push(
                spec_weight_lines(edges@.take(i as int)),
                spec_weight_line(edges@[i as int]),
                "\n"@,
            );
            assert(r@ =~= joined(spec_weight_lines(edges@.take(i + 1)), "\n"@));
        }
        i = i + 1;
    }
    proof {
        assert(edges@.take(edges.len() as int) =~= edges@);
    }
    r
}

/// The style token of a session kind. The match is exhaustive over the
/// closed kind set and has no default arm: a new kind would fail to
/// compile rather than fall back silently.
pub open spec fn spec_style(k: SessionKind) -> Seq<char> {
    match k {
        SessionKind::EBgp => "ebgp session"@,
        SessionKind::IBgpPeer => "ibgp peer session"@,
        SessionKind::IBgpClient => "ibgp client session"@,
    }
}

/// Select the style token for a session kind; total over the closed set.
pub fn style_token(k: SessionKind) -> (t: &'static str)
    ensures
        t@ == spec_style(k),
{
    match k {
        SessionKind::EBgp => "ebgp session",
        SessionKind::IBgpPeer => "ibgp peer session",
        SessionKind::IBgpClient => "ibgp client session",
    }
}

/// One curved session connector, from the stored source to the stored
/// destination, exactly in that order, styled by the session kind.
pub open spec fn spec_session_line(s: BgpSession) -> Seq<char> {
    "    \\draw["@ + spec_style(s.kind) + "] (r"@ + dec_rep(s.source as nat)
        + ") to[bend left=20] (r"@ + dec_rep(s.dest as nat) + ");"@
}

/// The session connectors, one per session, in the model's listing order.
pub open spec fn spec_session_lines(sessions: Seq<BgpSession>) -> Seq<Seq<char>> {
    sessions.map_values(|s: BgpSession| spec_session_line(s))
}

fn session_line(sess: &BgpSession) -> (s: String)
    ensures
        s@ == spec_session_line(*sess),
{
    let mut s = String::from_str("    \\draw[");
    s.append(style_token(sess.kind));
    s.append("] (r");
    let a = fmt_usize(sess.source);
    s.append(a.as_str());
    s.append(") to[bend left=20] (r");
    let b = fmt_usize(sess.dest);
    s.append(b.as_str());
    s.append(");");
    s
}

/// The BGP session section: one connector line per session, in listing
/// order, joined with newlines.
pub fn bgp_session_section(sessions: &Vec<BgpSession>) -> (s: String)
    ensures
        s@ == joined(spec_session_lines(sessions@), "\n"@),
{
    let mut r = String::new();
    let mut i: usize = 0;
    while i < sessions.len()
        invariant
            i <= sessions.len(),
            r@ == joined(spec_session_lines(sessions@.take(i as int)), "\n"@),
        decreases sessions.len() - i,
    {
        if i > 0 {
            r.append("\n");
        }
        let l = session_line(&sessions[i]);
        r.append(l.as_str());
        proof {
            assert(spec_session_lines(sessions@.take(i + 1)) =~~= spec_session_lines(
                sessions@.take(i as int),
            ).push(spec_session_line(sessions@[i as int])));
            lemma_joined_push(
                spec_session_lines(sessions@.take(i as int)),
                spec_session_line(sessions@[i as int]),
                "\n"@,
            );
            assert(r@ =~= joined(spec_session_lines(sessions@.take(i + 1)), "\n"@));
        }
        i = i + 1;
    }
    proof {
        assert(sessions@.take(sessions.len() as int) =~= sessions@);
    }
    r
}

/// The toggle name of one prefix: `prefix` followed by the sanitized
/// identifier of its canonical string form.
pub open spec fn spec_toggle(p: PrefixInfo) -> Seq<char> {
    "prefix"@ + sanitized(p.text@)
}

/// The toggle names, one per known prefix, in model order.
pub open spec fn spec_toggles(prefixes: Seq<PrefixInfo>) -> Seq<Seq<char>> {
    prefixes.map_values(|p: PrefixInfo| spec_toggle(p))
}

/// The prefix-toggle declaration list: the toggle names, comma-joined,
/// in model order.
pub fn toggle_list(prefixes: &Vec<PrefixInfo>) -> (s: String)
    ensures
        s@ == joined(spec_toggles(prefixes@), ", "@),
{
    let mut r = String::new();
    let mut i: usize = 0;
    while i < prefixes.len()
        invariant
            i <= prefixes.len(),
            r@ == joined(spec_toggles(prefixes@.take(i as int)), ", "@),
        decreases prefixes.len() - i,
    {
        if i > 0 {
            r.append(", ");
        }
        r.append("prefix");
        let id = sanitize(prefixes[i].text.as_str());
        r.append(id.as_str());
        proof {
            assert(spec_toggles(prefixes@.take(i + 1)) =~~= spec_toggles(
                prefixes@.take(i as int),
            ).push(spec_toggle(prefixes@[i as int])));
            lemma_joined_push(
                spec_toggles(prefixes@.take(i as int)),
                spec_toggle(prefixes@[i as int]),
                ", "@,
            );
            assert(r@ =~= joined(spec_toggles(prefixes@.take(i + 1)), ", "@));
        }
        i = i + 1;
    }
    proof {
        assert(prefixes@.take(prefixes.len() as int) =~= prefixes@);
    }
    r
}

/// One directed next-hop line, from a router to one of its resolved
/// next hops.
pub open spec fn spec_nh_line(src: usize, dst: usize) -> Seq<char> {
    "      \\draw[next hop] (r"@ + dec_rep(src as nat) + ") -- (r"@ + dec_rep(dst as nat) + ");"@
}

/// The next-hop lines of one router for one prefix: one line per resolved
/// next hop, in stored order (a router with two next hops yields two lines).
pub open spec fn spec_nh_lines_of(router: usize, hops: Seq<usize>) -> Seq<Seq<char>> {
    hops.map_values(|d: usize| spec_nh_line(router, d))
}

/// The next-hop lines of one fact.
pub open spec fn spec_fact_lines(f: NextHopFact) -> Seq<Seq<char>> {
    spec_nh_lines_of(f.router, f.next_hops@)
}

/// The per-fact line lists of one prefix, in fact order.
pub open spec fn spec_fact_lines_seq(facts: Seq<NextHopFact>) -> Seq<Seq<Seq<char>>> {
    facts.map_values(|f: NextHopFact| spec_fact_lines(f))
}

/// All next-hop lines of one prefix: the facts' lines, in fact order,
/// flattened. A fact without next hops contributes nothing.
pub open spec fn spec_prefix_nh_lines(facts: Seq<NextHopFact>) -> Seq<Seq<char>> {
    spec_fact_lines_seq(facts).flatten()
}

/// A per-prefix conditional block keyed by the sanitized identifier `tag`,
/// wrapping `inner`.
pub open spec fn spec_prefix_block(tag: Seq<char>, inner: Seq<char>) -> Seq<char> {
    "    \\ifdefined\\prefix"@ + tag + "\n"@ + inner + "\n  \\fi"@
}

/// The next-hop block of one prefix.
pub open spec fn spec_nh_block(p: PrefixInfo) -> Seq<char> {
    spec_prefix_block(sanitized(p.text@), joined(spec_prefix_nh_lines(p.next_hops@), "\n"@))
}

/// The next-hop blocks, one per known prefix, in model order.
pub open spec fn spec_nh_blocks(prefixes: Seq<PrefixInfo>) -> Seq<Seq<char>> {
    prefixes.map_values(|p: PrefixInfo| spec_nh_block(p))
}

fn fact_lines_text(f: &NextHopFact) -> (s: String)
    ensures
        s@ == joined(spec_fact_lines(*f), "\n"@),
{
    let mut r = String::new();
    let mut j: usize = 0;
    while j < f.next_hops.len()
        invariant
            j <= f.next_hops.len(),
            r@ == joined(spec_nh_lines_of(f.router, f.next_hops@.take(j as int)), "\n"@),
        decreases f.next_hops.len() - j,
    {
        if j > 0 {
            r.append("\n");
        }
        let mut l = String::from_str("      \\draw[next hop] (r");
        let a = fmt_usize(f.router);
        l.append(a.as_str());
        l.append(") -- (r");
        let b = fmt_usize(f.next_hops[j]);
        l.append(b.as_str());
        l.append(");");
        r.append(l.as_str());
        proof {
            assert(spec_nh_lines_of(f.router, f.next_hops@.take(j + 1)) =~~= spec_nh_lines_of(
                f.router,
                f.next_hops@.take(j as int),
            ).push(spec_nh_line(f.router, f.next_hops@[j as int])));
            lemma_joined_push(
                spec_nh_lines_of(f.router, f.next_hops@.take(j as int)),
                spec_nh_line(f.router, f.next_hops@[j as int]),
                "\n"@,
            );
            assert(r@ =~= joined(
                spec_nh_lines_of(f.router, f.next_hops@.take(j + 1)),
                "\n"@,
            ));
        }
        j = j + 1;
    }
    proof {
        assert(f.next_hops@.take(f.next_hops.len() as int) =~= f.next_hops@);
    }
    r
}

fn nh_inner_text(facts: &Vec<NextHopFact>) -> (s: String)
    ensures
        s@ == joined(spec_prefix_nh_lines(facts@), "\n"@),
{
    let mut r = String::new();
    let mut any: bool = false;
    let mut j: usize = 0;
    while j < facts.len()
        invariant
            j <= facts.len(),
            r@ == joined(spec_prefix_nh_lines(facts@.take(j as int)), "\n"@),
            any <==> spec_prefix_nh_lines(facts@.take(j as int)).len() != 0,
        decreases facts.len() - j,
    {
        proof {
            assert(spec_fact_lines_seq(facts@.take(j + 1)) =~~= spec_fact_lines_seq(
                facts@.take(j as int),
            ).push(spec_fact_lines(facts@[j as int])));
            Seq::lemma_flatten_push(
                spec_fact_lines_seq(facts@.take(j as int)),
                spec_fact_lines(facts@[j as int]),
            );
        }
        if facts[j].next_hops.len() > 0 {
            if any {
                r.append("\n");
            }
            let t = fact_lines_text(&facts[j]);
            r.append(t.as_str());
            any = true;
            proof {
                lemma_joined_concat(
                    spec_prefix_nh_lines(facts@.take(j as int)),
                    spec_fact_lines(facts@[j as int]),
                    "\n"@,
                );
                assert(r@ =~= joined(spec_prefix_nh_lines(facts@.take(j + 1)), "\n"@));
            }
        } else {
            proof {
                assert(spec_fact_lines(facts@[j as int]).len() == 0);
                assert(spec_prefix_nh_lines(facts@.take(j + 1)) =~~= spec_prefix_nh_lines(
                    facts@.take(j as int),
                ));
            }
        }
        j = j + 1;
    }
    proof {
        assert(facts@.take(facts.len() as int) =~= facts@);
    }
    r
}

fn nh_block(p: &PrefixInfo) -> (s: String)
    ensures
        s@ == spec_nh_block(*p),
{
    let tag = sanitize(p.text.as_str());
    let inner = nh_inner_text(&p.next_hops);
    let mut s = String::from_str("    \\ifdefined\\prefix");
    s.append(tag.as_str());
    s.append("\n");
    s.append(inner.as_str());
    s.append("\n  \\fi");
    s
}

/// The next-hop section: one conditional block per known prefix, in model
/// order, joined with newlines. A prefix without resolved next hops still
/// contributes its (empty) gated block.
pub fn next_hop_section(prefixes: &Vec<PrefixInfo>) -> (s: String)
    ensures
        s@ == joined(spec_nh_blocks(prefixes@), "\n"@),
{
    let mut r = String::new();
    let mut i: usize = 0;
    while i < prefixes.len()
        invariant
            i <= prefixes.len(),
            r@ == joined(spec_nh_blocks(prefixes@.take(i as int)), "\n"@),
        decreases prefixes.len() - i,
    {
        if i > 0 {
            r.append("\n");
        }
        let b = nh_block(&prefixes[i]);
        r.append(b.as_str());
        proof {
            assert(spec_nh_blocks(prefixes@.take(i + 1)) =~~= spec_nh_blocks(
                prefixes@.take(i as int),
            ).push(spec_nh_block(prefixes@[i as int])));
            lemma_joined_push(
                spec_nh_blocks(prefixes@.take(i as int)),
                spec_nh_block(prefixes@[i as int]),
                "\n"@,
            );
            assert(r@ =~= joined(spec_nh_blocks(prefixes@.take(i + 1)), "\n"@));
        }
        i = i + 1;
    }
    proof {
        assert(prefixes@.take(prefixes.len() as int) =~= prefixes@);
    }
    r
}

/// One curved propagation connector for a (source, destination) fact.
/// Only those two fields are read: the step detail never reaches the text.
pub open spec fn spec_prop_line(f: PropagationFact) -> Seq<char> {
    "      \\draw[bgp propagation] (r"@ + dec_rep(f.source as nat) + ") to[bend left=20] (r"@
        + dec_rep(f.dest as nat) + ");"@
}

/// The propagation lines of one prefix, one per fact, in stored order.
pub open spec fn spec_prop_lines(facts: Seq<PropagationFact>) -> Seq<Seq<char>> {
    facts.map_values(|f: PropagationFact| spec_prop_line(f))
}

/// The propagation block of one prefix, gated by the same sanitized
/// identifier as its next-hop block and its toggle name.
pub open spec fn spec_prop_block(p: PrefixInfo) -> Seq<char> {
    spec_prefix_block(sanitized(p.text@), joined(spec_prop_lines(p.propagations@), "\n"@))
}

/// The propagation blocks, one per known prefix, in model order.
pub open spec fn spec_prop_blocks(prefixes: Seq<PrefixInfo>) -> Seq<Seq<char>> {
    prefixes.map_values(|p: PrefixInfo| spec_prop_block(p))
}

fn prop_inner_text(facts: &Vec<PropagationFact>) -> (s: String)
    ensures
        s@ == joined(spec_prop_lines(facts@), "\n"@),
{
    let mut r = String::new();
    let mut j: usize = 0;
    while j < facts.len()
        invariant
            j <= facts.len(),
            r@ == joined(spec_prop_lines(facts@.take(j as int)), "\n"@),
        decreases facts.len() - j,
    {
        if j > 0 {
            r.append("\n");
        }
        let mut l = String::from_str("      \\draw[bgp propagation] (r");
        let a = fmt_usize(facts[j].source);
        l.append(a.as_str());
        l.append(") to[bend left=20] (r");
        let b = fmt_usize(facts[j].dest);
        l.append(b.as_str());
        l.append(");");
        r.append(l.as_str());
        proof {
            assert(spec_prop_lines(facts@.take(j + 1)) =~~= spec_prop_lines(
                facts@.take(j as int),
            ).push(spec_prop_line(facts@[j as int])));
            lemma_joined_push(
                spec_prop_lines(facts@.take(j as int)),
                spec_prop_line(facts@[j as int]),
                "\n"@,
            );
            assert(r@ =~= joined(spec_prop_lines(facts@.take(j + 1)), "\n"@));
        }
        j = j + 1;
    }
    proof {
        assert(facts@.take(facts.len() as int) =~= facts@);
    }
    r
}

fn prop_block(p: &PrefixInfo) -> (s: String)
    ensures
        s@ == spec_prop_block(*p),
{
    let tag = sanitize(p.text.as_str());
    let inner = prop_inner_text(&p.propagations);
    let mut s = String::from_str("    \\ifdefined\\prefix");
    s.append(tag.as_str());
    s.append("\n");
    s.append(inner.as_str());
    s.append("\n  \\fi");
    s
}

/// The propagation section: one conditional block per known prefix, in
/// model order, joined with newlines. A prefix without propagation facts
/// still contributes its (empty) gated block.
pub fn propagation_section(prefixes: &Vec<PrefixInfo>) -> (s: String)
    ensures
        s@ == joined(spec_prop_blocks(prefixes@), "\n"@),
{
    let mut r = String::new();
    let mut i: usize = 0;
    while i < prefixes.len()
        invariant
            i <= prefixes.len(),
            r@ == joined(spec_prop_blocks(prefixes@.take(i as int)), "\n"@),
        decreases prefixes.len() - i,
    {
        if i > 0 {
            r.append("\n");
        }
        let b = prop_block(&prefixes[i]);
        r.append(b.as_str());
        proof {
            assert(spec_prop_blocks(prefixes@.take(i + 1)) =~~= spec_prop_blocks(
                prefixes@.take(i as int),
            ).push(spec_prop_block(prefixes@[i as int])));
            lemma_joined_push(
                spec_prop_blocks(prefixes@.take(i as int)),
                spec_prop_block(prefixes@[i as int]),
                "\n"@,
            );
            assert(r@ =~= joined(spec_prop_blocks(prefixes@.take(i + 1)), "\n"@));
        }
        i = i + 1;
    }
    proof {
        assert(prefixes@.take(prefixes.len() as int) =~= prefixes@);
    }
    r
}

} // verus!
