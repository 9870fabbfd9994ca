use latex_export::generate_latex;
use latex_export::model::{
    BgpSession, Edge, NetSnapshot, NextHopFact, Point, PrefixInfo, PropagationFact, Router,
    SessionKind,
};
use latex_export::sections::{
    bgp_session_section, edge_section, link_weight_section, next_hop_section, node_section,
    propagation_section, toggle_list,
};
use latex_export::template::skeleton;

fn router(index: usize, name: Option<&str>, pos: Option<(&str, &str)>) -> Router {
    Router {
        index,
        name: name.map(|n| n.to_string()),
        position: pos.map(|(x, y)| Point { x: x.to_string(), y: y.to_string() }),
    }
}

fn prefix(
    text: &str,
    next_hops: Vec<NextHopFact>,
    propagations: Vec<PropagationFact>,
) -> PrefixInfo {
    PrefixInfo { text: text.to_string(), next_hops, propagations }
}

fn empty_net() -> NetSnapshot {
    NetSnapshot {
        internal: vec![],
        external: vec![],
        edges: vec![],
        prefixes: vec![],
        sessions: vec![],
    }
}

fn count(haystack: &str, needle: &str) -> usize {
    haystack.matches(needle).count()
}

/// The scenario of two routers, one link, one prefix without facts.
fn two_router_net() -> NetSnapshot {
    NetSnapshot {
        internal: vec![router(0, Some("A"), Some(("0", "0")))],
        external: vec![router(1, None, Some(("1", "1")))],
        edges: vec![
            Edge { a: 0, b: 1, weight: 100 },
            Edge { a: 1, b: 0, weight: 100 },
        ],
        prefixes: vec![prefix("10.0.0.0/8", vec![], vec![])],
        sessions: vec![],
    }
}

#[test]
fn two_router_scenario_nodes() {
    let doc = generate_latex(&two_router_net());
    assert_eq!(count(&doc, "  \\node[router] at ("), 1);
    assert_eq!(count(&doc, "  \\node[router] at (0, 0) (r0) {}; % A"), 1);
    assert_eq!(count(&doc, "  \\node[external] at ("), 1);
    assert_eq!(count(&doc, "  \\node[external] at (1, 1) (r1) {}; % "), 1);
}

#[test]
fn two_router_scenario_edge_line() {
    let doc = generate_latex(&two_router_net());
    assert_eq!(count(&doc, "\\draw[link]"), 1);
    assert_eq!(count(&doc, "  \\draw[link] (r0) -- (r1);"), 1);
    assert_eq!(count(&doc, "(r1) -- (r0)"), 0);
}

#[test]
fn two_router_scenario_toggle_and_empty_blocks() {
    let doc = generate_latex(&two_router_net());
    // toggle list + one guard in the next-hop section + one in propagation
    assert_eq!(count(&doc, "prefix10_0_0_0_8"), 3);
    assert_eq!(count(&doc, "% choices: prefix10_0_0_0_8\n"), 1);
    // both conditional blocks have empty inner content
    assert_eq!(
        count(&doc, "    \\ifdefined\\prefix10_0_0_0_8\n\n  \\fi"),
        2
    );
}

#[test]
fn multipath_yields_two_directed_lines() {
    let net = NetSnapshot {
        internal: vec![
            router(0, Some("src"), Some(("0", "0"))),
            router(1, None, None),
            router(2, None, None),
        ],
        external: vec![],
        edges: vec![],
        prefixes: vec![prefix(
            "10.0.0.0/8",
            vec![NextHopFact { router: 0, next_hops: vec![1, 2] }],
            vec![],
        )],
        sessions: vec![],
    };
    let doc = generate_latex(&net);
    assert_eq!(count(&doc, "\\draw[next hop]"), 2); // one per multipath choice
    assert_eq!(count(&doc, "      \\draw[next hop] (r0) -- (r1);"), 1);
    assert_eq!(count(&doc, "      \\draw[next hop] (r0) -- (r2);"), 1);
    // both stand inside the prefix's conditional, before its \fi
    let open = doc.find("\\ifdefined\\prefix10_0_0_0_8").unwrap();
    let close = doc[open..].find("\\fi").unwrap() + open;
    let first = doc.find("\\draw[next hop] (r0) -- (r1);").unwrap();
    let second = doc.find("\\draw[next hop] (r0) -- (r2);").unwrap();
    assert!(open < first && first < second && second < close);
}

#[test]
fn export_is_deterministic() {
    let net = NetSnapshot {
        internal: vec![router(0, Some("A"), None), router(2, None, Some(("0.5", "0.25")))],
        external: vec![router(1, Some("B"), Some(("1", "1")))],
        edges: vec![
            Edge { a: 0, b: 1, weight: 10 },
            Edge { a: 1, b: 0, weight: 20 },
            Edge { a: 2, b: 0, weight: 7 },
            Edge { a: 0, b: 2, weight: 7 },
        ],
        prefixes: vec![prefix(
            "192.168.0.0/16",
            vec![NextHopFact { router: 0, next_hops: vec![1] }],
            vec![PropagationFact { source: 1, dest: 0, detail: vec![1, 0] }],
        )],
        sessions: vec![BgpSession { source: 0, dest: 1, kind: SessionKind::EBgp }],
    };
    let first = generate_latex(&net);
    let second = generate_latex(&net);
    assert_eq!(first, second);
}

#[test]
fn edge_lines_count_distinct_connections() {
    // a triangle stored in both directions: three connection lines,
    // six weight labels
    let net = NetSnapshot {
        internal: vec![router(0, None, None), router(1, None, None), router(2, None, None)],
        external: vec![],
        edges: vec![
            Edge { a: 0, b: 1, weight: 1 },
            Edge { a: 1, b: 0, weight: 2 },
            Edge { a: 1, b: 2, weight: 3 },
            Edge { a: 2, b: 1, weight: 4 },
            Edge { a: 0, b: 2, weight: 5 },
            Edge { a: 2, b: 0, weight: 6 },
        ],
        prefixes: vec![],
        sessions: vec![],
    };
    let doc = generate_latex(&net);
    assert_eq!(count(&doc, "\\draw[link]"), 3);
    assert_eq!(count(&doc, "node[link weight]"), 6);
    assert_eq!(count(&doc, "  \\draw[link] (r0) -- (r1);"), 1);
    assert_eq!(count(&doc, "  \\draw[link] (r1) -- (r2);"), 1);
    assert_eq!(count(&doc, "  \\draw[link] (r0) -- (r2);"), 1);
}

#[test]
fn weight_labels_keep_direction_and_value() {
    let net = NetSnapshot {
        internal: vec![router(3, None, None), router(7, None, None)],
        external: vec![],
        edges: vec![
            Edge { a: 7, b: 3, weight: 100 },
            Edge { a: 3, b: 7, weight: 250 },
        ],
        prefixes: vec![],
        sessions: vec![],
    };
    let doc = generate_latex(&net);
    assert_eq!(
        count(
            &doc,
            "    \\draw ($(r7)!\\linkweightdist!(r3)$) node[link weight] { 100 };"
        ),
        1
    );
    assert_eq!(
        count(
            &doc,
            "    \\draw ($(r3)!\\linkweightdist!(r7)$) node[link weight] { 250 };"
        ),
        1
    );
}

#[test]
fn session_styles_are_total_and_keep_stored_order() {
    let net = NetSnapshot {
        internal: vec![router(0, None, None), router(1, None, None), router(2, None, None)],
        external: vec![],
        edges: vec![],
        prefixes: vec![],
        sessions: vec![
            BgpSession { source: 2, dest: 1, kind: SessionKind::EBgp },
            BgpSession { source: 0, dest: 1, kind: SessionKind::IBgpPeer },
            BgpSession { source: 1, dest: 0, kind: SessionKind::IBgpClient },
        ],
    };
    let doc = generate_latex(&net);
    let e = "    \\draw[ebgp session] (r2) to[bend left=20] (r1);";
    let p = "    \\draw[ibgp peer session] (r0) to[bend left=20] (r1);";
    let c = "    \\draw[ibgp client session] (r1) to[bend left=20] (r0);";
    assert_eq!(count(&doc, e), 1);
    assert_eq!(count(&doc, p), 1);
    assert_eq!(count(&doc, c), 1);
    // listing order is kept: never sorted by index
    let (ie, ip, ic) = (doc.find(e).unwrap(), doc.find(p).unwrap(), doc.find(c).unwrap());
    assert!(ie < ip && ip < ic);
}

#[test]
fn sanitized_identifier_used_everywhere() {
    let net = NetSnapshot {
        internal: vec![router(0, None, None)],
        external: vec![],
        edges: vec![],
        prefixes: vec![prefix(
            "1.2.3.0/24",
            vec![],
            vec![PropagationFact { source: 0, dest: 1, detail: vec![] }],
        )],
        sessions: vec![],
    };
    let doc = generate_latex(&net);
    assert_eq!(count(&doc, "prefix1_2_3_0_24"), 3);
    assert_eq!(count(&doc, "1.2.3.0/24"), 0);
    assert_eq!(
        count(&doc, "      \\draw[bgp propagation] (r0) to[bend left=20] (r1);"),
        1
    );
}

#[test]
fn propagation_detail_is_ignored() {
    let fact = |detail: Vec<usize>| NetSnapshot {
        internal: vec![router(0, None, None)],
        external: vec![],
        edges: vec![],
        prefixes: vec![prefix(
            "10.0.0.0/8",
            vec![],
            vec![PropagationFact { source: 0, dest: 1, detail }],
        )],
        sessions: vec![],
    };
    assert_eq!(generate_latex(&fact(vec![])), generate_latex(&fact(vec![5, 6, 7])));
}

#[test]
fn prefix_order_is_model_order() {
    let net = NetSnapshot {
        internal: vec![],
        external: vec![],
        edges: vec![],
        prefixes: vec![
            prefix("20.0.0.0/8", vec![], vec![]),
            prefix("10.0.0.0/8", vec![], vec![]),
        ],
        sessions: vec![],
    };
    let doc = generate_latex(&net);
    assert_eq!(count(&doc, "% choices: prefix20_0_0_0_8, prefix10_0_0_0_8\n"), 1);
}

#[test]
fn default_position_and_name() {
    let net = NetSnapshot {
        internal: vec![router(5, None, None)],
        external: vec![],
        edges: vec![],
        prefixes: vec![],
        sessions: vec![],
    };
    let doc = generate_latex(&net);
    assert_eq!(count(&doc, "  \\node[router] at (0, 0) (r5) {}; % \n"), 1);
}

#[test]
fn large_indices_and_weights_format_in_decimal() {
    let net = NetSnapshot {
        internal: vec![router(12345, None, None)],
        external: vec![],
        edges: vec![
            Edge { a: 12345, b: 67890, weight: 0 },
            Edge { a: 67890, b: 12345, weight: 4294967295 },
        ],
        prefixes: vec![],
        sessions: vec![],
    };
    let doc = generate_latex(&net);
    assert_eq!(count(&doc, "(r12345) {}; % "), 1);
    assert_eq!(count(&doc, "  \\draw[link] (r12345) -- (r67890);"), 1);
    assert_eq!(count(&doc, "node[link weight] { 0 };"), 1);
    assert_eq!(count(&doc, "node[link weight] { 4294967295 };"), 1);
}

#[test]
fn render_equals_placeholder_substitution() {
    // the library's one-pass assembly agrees with substituting each
    // placeholder token of the skeleton by its section text
    let net = two_router_net();
    let doc = generate_latex(&net);
    let expected = skeleton()
        .replace("{{PREFIXES}}", &toggle_list(&net.prefixes))
        .replace("{{INTERNAL_NODES}}", &node_section(&net.internal, true))
        .replace("{{EXTERNAL_NODES}}", &node_section(&net.external, false))
        .replace("{{EDGES}}", &edge_section(&net.edges))
        .replace("{{NEXT_HOPS}}", &next_hop_section(&net.prefixes))
        .replace("{{LINK_WEIGHTS}}", &link_weight_section(&net.edges))
        .replace("{{BGP_SESSIONS}}", &bgp_session_section(&net.sessions))
        .replace("{{BGP_PROPAGATIONS}}", &propagation_section(&net.prefixes));
    assert_eq!(doc, expected);
}

#[test]
fn skeleton_holds_each_placeholder_once() {
    let s = skeleton();
    for token in [
        "{{PREFIXES}}",
        "{{INTERNAL_NODES}}",
        "{{EXTERNAL_NODES}}",
        "{{EDGES}}",
        "{{NEXT_HOPS}}",
        "{{LINK_WEIGHTS}}",
        "{{BGP_SESSIONS}}",
        "{{BGP_PROPAGATIONS}}",
    ] {
        assert_eq!(count(&s, token), 1);
    }
}

#[test]
fn empty_snapshot_keeps_document_structure() {
    let doc = generate_latex(&empty_net());
    assert_eq!(count(&doc, "\\begin{document}"), 1);
    assert_eq!(count(&doc, "\\end{document}"), 1);
    assert_eq!(count(&doc, "\\begin{tikzpicture}"), 1);
    assert_eq!(count(&doc, "\\ifdefined\\showNextHop"), 1);
    assert_eq!(count(&doc, "\\ifdefined\\showLinkWeights"), 1);
    assert_eq!(count(&doc, "\\ifdefined\\showBgpSessions"), 1);
    assert_eq!(count(&doc, "\\ifdefined\\showBgpPropagation"), 1);
    assert_eq!(count(&doc, "% choices: \n"), 1);
    assert_eq!(count(&doc, "\\draw"), 0);
    assert_eq!(count(&doc, "\\node["), 0);
}

#[test]
fn next_hop_section_skips_routers_without_hops() {
    let net = NetSnapshot {
        internal: vec![router(0, None, None), router(1, None, None)],
        external: vec![],
        edges: vec![],
        prefixes: vec![prefix(
            "10.0.0.0/8",
            vec![
                NextHopFact { router: 0, next_hops: vec![] },
                NextHopFact { router: 1, next_hops: vec![0] },
            ],
            vec![],
        )],
        sessions: vec![],
    };
    let doc = generate_latex(&net);
    assert_eq!(count(&doc, "\\draw[next hop]"), 1);
    assert_eq!(count(&doc, "      \\draw[next hop] (r1) -- (r0);"), 1);
}
