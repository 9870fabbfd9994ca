//! Export of a network model snapshot to a TikZ picture document.
//!
//! The library turns an in-memory snapshot of a routed network (routers,
//! weighted links, BGP sessions, per-prefix next hops and route
//! propagations) into one textual document built from a fixed skeleton.
//! Every section builder and the final assembly carry contracts that pin
//! the produced text down exactly: the export is a pure function of the
//! snapshot, so the same snapshot always yields byte-identical output.

pub mod laws;
pub mod model;
pub mod sections;
pub mod template;
pub mod text;

use vstd::prelude::*;

use crate::model::NetSnapshot;
use crate::sections::{
    bgp_session_section, edge_section, link_weight_section, next_hop_section, node_section,
    propagation_section, spec_edge_lines, spec_nh_blocks, spec_node_lines, spec_prop_blocks,
    spec_session_lines, spec_toggles, spec_weight_lines, toggle_list,
};
use crate::template::{render, spec_render, Sections};
use crate::text::joined;

verus! {

/// The whole document produced for one snapshot: the fixed skeleton with
/// the eight section texts at their named insertion points.
pub open spec fn spec_export(net: NetSnapshot) -> Seq<char> {
    spec_render(
        joined(spec_toggles(net.prefixes@), ", "@),
        joined(spec_node_lines(net.internal@, true), "\n"@),
        joined(spec_node_lines(net.external@, false), "\n"@),
        joined(spec_edge_lines(net.edges@), "\n"@),
        joined(spec_nh_blocks(net.prefixes@), "\n"@),
        joined(spec_weight_lines(net.edges@), "\n"@),
        joined(spec_session_lines(net.sessions@), "\n"@),
        joined(spec_prop_blocks(net.prefixes@), "\n"@),
    )
}

/// Export one snapshot as a complete document.
///
/// The result equals `spec_export` of the snapshot, so the export neither
/// reads nor depends on anything else: invoking it twice on an unmodified
/// snapshot yields byte-identical output.
pub fn generate_latex(net: &NetSnapshot) -> (s: String)
    ensures
        s@ == spec_export(*net),
{
    let sections = Sections {
        prefixes: toggle_list(&net.prefixes),
        internal_nodes: node_section(&net.internal, true),
        external_nodes: node_section(&net.external, false),
        edges: edge_section(&net.edges),
        next_hops: next_hop_section(&net.prefixes),
        link_weights: link_weight_section(&net.edges),
        bgp_sessions: bgp_session_section(&net.sessions),
        bgp_propagations: propagation_section(&net.prefixes),
    };
    render(&sections)
}

} // verus!
