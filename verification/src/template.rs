//! The fixed document skeleton and the one substitution pass.
//!
//! The skeleton is held split at its eight named insertion points
//! (`PREFIXES`, `INTERNAL_NODES`, `EXTERNAL_NODES`, `EDGES`, `NEXT_HOPS`,
//! `LINK_WEIGHTS`, `BGP_SESSIONS`, `BGP_PROPAGATIONS`), each of which
//! occurs exactly once; rendering places every supplied section text at
//! its point in one pass, so a section's own content can never be
//! mistaken for a placeholder.

use vstd::prelude::*;
use vstd::string::*;

verus! {

/// The eight section texts, one per named insertion point of the skeleton.
/// All must be supplied; an absent section is the empty string.
pub struct Sections {
    pub prefixes: String,
    pub internal_nodes: String,
    pub external_nodes: String,
    pub edges: String,
    pub next_hops: String,
    pub link_weights: String,
    pub bgp_sessions: String,
    pub bgp_propagations: String,
}

/// The skeleton with each named insertion point replaced by the
/// corresponding section text, and nothing else changed. No escaping is
/// performed on the section texts.
pub open spec fn spec_render(
    prefixes: Seq<char>,
    internal_nodes: Seq<char>,
    external_nodes: Seq<char>,
    edges: Seq<char>,
    next_hops: Seq<char>,
    link_weights: Seq<char>,
    bgp_sessions: Seq<char>,
    bgp_propagations: Seq<char>,
) -> Seq<char> {
    "\n% Bgpsim network diagram\n\\documentclass{standalone}\n\n% latex packages\n\\usepackage{tikz}\n\\usetikzlibrary{positioning, arrows, shapes, calc}\n\n% color definitions\n\\usepackage{xcolor}\n\\definecolor{gray-50}{HTML}{F9FAFB}\n\\definecolor{gray-300}{HTML}{D1D5DB}\n\\definecolor{gray-700}{HTML}{374151}\n\\definecolor{red-500}{HTML}{EF4444}\n\\definecolor{yellow-500}{HTML}{EAB308}\n\\definecolor{green-500}{HTML}{22C55E}\n\\definecolor{blue-500}{HTML}{3B82F6}\n\\definecolor{purple-500}{HTML}{A855F7}\n\n% Parameters to edit\n\\def\\width{8}%cm\n\\def\\height{-6}%cm (negative)\n\\def\\linkweightdist{0.3}\n\n% tikzset styles\n\\tikzset{\n  router/.style = {circle, fill=gray-50, draw=gray-700, minimum size=0.4cm},\n  external/.style = {circle, fill=gray-300, draw=gray-700, minimum size=0.4cm},\n  link/.style = {gray-700},\n  next hop/.style = {very thick, -latex, blue-500},\n  ebgp session/.style = {very thick, -latex, red-500},\n  ibgp peer session/.style = {very thick, latex-latex, blue-500},\n  ibgp client session/.style = {very thick, -latex, purple-500},\n  bgp propagation/.style = {very thick, -latex, yellow-500},\n  link weight/.style = {fill=white},\n}\n\n% things to draw\n\\def\\showNextHop{1}\n% \\def\\showLinkWeights{1}\n% \\def\\showBgpSessions{1}\n% \\def\\showBgpPropagation{1}\n% \\def\\showRouterName{1}\n\\def\\prefix1{1} % choices: "@
        + prefixes
        + "\n\n\\begin{document}\n\\begin{tikzpicture}[xscale=\\width, yscale=\\height]\n"@
        + internal_nodes + "\n"@ + external_nodes + "\n\n"@ + edges
        + "\n\n  \\ifdefined\\showNextHop\n"@ + next_hops
        + "\n  \\fi\n\n  \\ifdefined\\showLinkWeights\n"@ + link_weights
        + "\n  \\fi\n\n  \\ifdefined\\showBgpSessions\n"@ + bgp_sessions
        + "\n  \\fi\n\n  \\ifdefined\\showBgpPropagation\n"@ + bgp_propagations
        + "\n  \\fi\n\\end{tikzpicture}\n\\end{document}\n"@
}

/// The skeleton itself, with the placeholder token of each insertion point
/// standing at its point: what `render` fills in.
pub open spec fn spec_skeleton() -> Seq<char> {
    spec_render(
        "{{PREFIXES}}"@,
        "{{INTERNAL_NODES}}"@,
        "{{EXTERNAL_NODES}}"@,
        "{{EDGES}}"@,
        "{{NEXT_HOPS}}"@,
        "{{LINK_WEIGHTS}}"@,
        "{{BGP_SESSIONS}}"@,
        "{{BGP_PROPAGATIONS}}"@,
    )
}

/// The fixed skeleton with its placeholder tokens still in place.
pub fn skeleton() -> (s: String)
    ensures
        s@ == spec_skeleton(),
{
    let sections = Sections {
        prefixes: String::from_str("{{PREFIXES}}"),
        internal_nodes: String::from_str("{{INTERNAL_NODES}}"),
        external_nodes: String::from_str("{{EXTERNAL_NODES}}"),
        edges: String::from_str("{{EDGES}}"),
        next_hops: String::from_str("{{NEXT_HOPS}}"),
        link_weights: String::from_str("{{LINK_WEIGHTS}}"),
        bgp_sessions: String::from_str("{{BGP_SESSIONS}}"),
        bgp_propagations: String::from_str("{{BGP_PROPAGATIONS}}"),
    };
    render(&sections)
}

/// Substitute all eight section texts into the skeleton, each at its named
/// insertion point, in one pass.
pub fn render(sections: &Sections) -> (s: String)
    ensures
        s@ == spec_render(
            sections.prefixes@,
            sections.internal_nodes@,
            sections.external_nodes@,
            sections.edges@,
            sections.next_hops@,
            sections.link_weights@,
            sections.bgp_sessions@,
            sections.bgp_propagations@,
        ),
{
    let mut s = String::from_str(
        "\n% Bgpsim network diagram\n\\documentclass{standalone}\n\n% latex packages\n\\usepackage{tikz}\n\\usetikzlibrary{positioning, arrows, shapes, calc}\n\n% color definitions\n\\usepackage{xcolor}\n\\definecolor{gray-50}{HTML}{F9FAFB}\n\\definecolor{gray-300}{HTML}{D1D5DB}\n\\definecolor{gray-700}{HTML}{374151}\n\\definecolor{red-500}{HTML}{EF4444}\n\\definecolor{yellow-500}{HTML}{EAB308}\n\\definecolor{green-500}{HTML}{22C55E}\n\\definecolor{blue-500}{HTML}{3B82F6}\n\\definecolor{purple-500}{HTML}{A855F7}\n\n% Parameters to edit\n\\def\\width{8}%cm\n\\def\\height{-6}%cm (negative)\n\\def\\linkweightdist{0.3}\n\n% tikzset styles\n\\tikzset{\n  router/.style = {circle, fill=gray-50, draw=gray-700, minimum size=0.4cm},\n  external/.style = {circle, fill=gray-300, draw=gray-700, minimum size=0.4cm},\n  link/.style = {gray-700},\n  next hop/.style = {very thick, -latex, blue-500},\n  ebgp session/.style = {very thick, -latex, red-500},\n  ibgp peer session/.style = {very thick, latex-latex, blue-500},\n  ibgp client session/.style = {very thick, -latex, purple-500},\n  bgp propagation/.style = {very thick, -latex, yellow-500},\n  link weight/.style = {fill=white},\n}\n\n% things to draw\n\\def\\showNextHop{1}\n% \\def\\showLinkWeights{1}\n% \\def\\showBgpSessions{1}\n% \\def\\showBgpPropagation{1}\n% \\def\\showRouterName{1}\n\\def\\prefix1{1} % choices: ",
    );
    s.append(sections.prefixes.as_str());
    s.append("\n\n\\begin{document}\n\\begin{tikzpicture}[xscale=\\width, yscale=\\height]\n");
    s.append(sections.internal_nodes.as_str());
    s.append("\n");
    s.append(sections.external_nodes.as_str());
    s.append("\n\n");
    s.append(sections.edges.as_str());
    s.append("\n\n  \\ifdefined\\showNextHop\n");
    s.append(sections.next_hops.as_str());
    s.append("\n  \\fi\n\n  \\ifdefined\\showLinkWeights\n");
    s.append(sections.link_weights.as_str());
    s.append("\n  \\fi\n\n  \\ifdefined\\showBgpSessions\n");
    s.append(sections.bgp_sessions.as_str());
    s.append("\n  \\fi\n\n  \\ifdefined\\showBgpPropagation\n");
    s.append(sections.bgp_propagations.as_str());
    s.append("\n  \\fi\n\\end{tikzpicture}\n\\end{document}\n");
    s
}

} // verus!
