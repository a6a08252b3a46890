use siostam::subsystem_mapping::dot::DotStatement;
use siostam::subsystem_mapping::links::source_to_graph;
use siostam::subsystem_mapping::render::join_lines;
use siostam::subsystem_mapping::render::render_statement;
use siostam::subsystem_mapping::Graph;
use siostam::subsystem_mapping::SubsystemDependencySource;
use siostam::subsystem_mapping::SubsystemFileSource;
use siostam::subsystem_mapping::SubsystemSource;
use siostam::subsystem_mapping::SystemSource;

fn system(id: &str, name: &str) -> SystemSource {
    SystemSource {
        id: Some(id.to_string()),
        name: Some(name.to_string()),
        description: None,
        howto: None,
        how_to: None,
    }
}

fn subsystem(id: &str, dependencies: Vec<&str>) -> SubsystemSource {
    SubsystemSource {
        id: Some(id.to_string()),
        name: None,
        description: None,
        dependency: Some(
            dependencies
                .into_iter()
                .map(|d| SubsystemDependencySource { id: Some(d.to_string()), why: None })
                .collect(),
        ),
        dependencies: None,
        howto: None,
        how_to: None,
    }
}

fn file(
    stored_in_system: Option<&str>,
    system: Option<SystemSource>,
    subsystems: Vec<SubsystemSource>,
) -> SubsystemFileSource {
    SubsystemFileSource {
        stored_in_system: stored_in_system.map(|s| s.to_string()),
        system,
        subsystem: Some(subsystems),
        subsystems: None,
        repo_name: "repo".to_string(),
        path: "p".to_string(),
    }
}

fn show(statement: &DotStatement) -> String {
    match statement {
        DotStatement::BeginCluster { indent, id, name } => format!("{}begin {} {}", indent, id, name),
        DotStatement::EndCluster { indent } => format!("{}end", indent),
        DotStatement::Node { indent, id, name } => format!("{}node {} {}", indent, id, name),
        DotStatement::Edge { indent, id_a, id_b } => format!("{}edge {} {}", indent, id_a, id_b),
    }
}

fn nested() -> Graph {
    source_to_graph(vec![
        Ok(file(None, Some(system("outer", "Outer")), vec![subsystem("a", vec!["b", "ghost"])])),
        Ok(file(Some("outer"), Some(system("inner", "Inner")), vec![subsystem("b", vec!["a"])])),
        Ok(file(None, None, vec![subsystem("free", vec![])])),
        Ok(file(Some("nowhere"), None, vec![subsystem("lost", vec!["free"])])),
    ])
    .unwrap()
}

#[test]
fn clusters_nest_and_edges_come_last() {
    let shown: Vec<String> = nested().dot_statements().iter().map(show).collect();
    assert_eq!(
        shown,
        vec![
            "  begin outer Outer",
            "    begin inner Inner",
            "      node b b",
            "    end",
            "    node a a",
            "  end",
            "  node free free",
            "  node lost lost",
            "  edge a b",
            "  edge b a",
            "  edge lost free",
        ]
    );
}

#[test]
fn an_unresolved_dependency_draws_no_edge() {
    let graph = source_to_graph(vec![Ok(file(None, None, vec![subsystem("a", vec!["ghost"])]))])
        .unwrap();
    assert_eq!(graph.subsystems[0].dependencies[0].subsystem.id(), "ghost");
    assert_eq!(graph.subsystems[0].dependencies[0].subsystem.index(), None);
    let shown: Vec<String> = graph.dot_statements().iter().map(show).collect();
    assert_eq!(shown, vec!["  node a a"]);
}

#[test]
fn systems_that_contain_each_other_are_not_drawn() {
    let graph = source_to_graph(vec![
        Ok(file(Some("two"), Some(system("one", "One")), vec![subsystem("in-one", vec![])])),
        Ok(file(Some("one"), Some(system("two", "Two")), vec![])),
        Ok(file(Some("self"), Some(system("self", "Self")), vec![])),
    ])
    .unwrap();
    assert_eq!(graph.systems[0].parent_system.as_ref().unwrap().index(), Some(1));
    assert_eq!(graph.systems[1].parent_system.as_ref().unwrap().index(), Some(0));
    assert_eq!(graph.systems[2].parent_system.as_ref().unwrap().index(), Some(2));
    assert!(graph.dot_statements().is_empty());
}

#[test]
fn a_deep_chain_is_drawn_whole() {
    let graph = source_to_graph(vec![
        Ok(file(Some("s2"), Some(system("s3", "3")), vec![])),
        Ok(file(Some("s1"), Some(system("s2", "2")), vec![])),
        Ok(file(None, Some(system("s1", "1")), vec![])),
    ])
    .unwrap();
    let shown: Vec<String> = graph.dot_statements().iter().map(show).collect();
    assert_eq!(
        shown,
        vec![
            "  begin s1 1",
            "    begin s2 2",
            "      begin s3 3",
            "      end",
            "    end",
            "  end",
        ]
    );
}

#[test]
fn empty_graph_draws_nothing() {
    assert!(Graph::new().dot_statements().is_empty());
}

#[test]
fn statements_are_rendered_from_their_templates() {
    let node = DotStatement::Node {
        indent: "  ".to_string(),
        id: "svc-a".to_string(),
        name: "Service A".to_string(),
    };
    assert_eq!(render_statement(&node).unwrap(), "  \"svc-a\" [label = \"Service A\"];\n");
    let edge = DotStatement::Edge {
        indent: "  ".to_string(),
        id_a: "svc-a".to_string(),
        id_b: "svc-b".to_string(),
    };
    assert_eq!(render_statement(&edge).unwrap(), "  \"svc-a\" -> \"svc-b\";\n");
    let begin = DotStatement::BeginCluster {
        indent: "    ".to_string(),
        id: "core".to_string(),
        name: "Core".to_string(),
    };
    assert_eq!(
        render_statement(&begin).unwrap(),
        "    subgraph \"cluster_core\" {\n      label = \"Core\";\n"
    );
    let end = DotStatement::EndCluster { indent: "    ".to_string() };
    assert_eq!(render_statement(&end).unwrap(), "    }\n");
}

#[test]
fn rendering_escapes_markup_in_names() {
    let node = DotStatement::Node {
        indent: "".to_string(),
        id: "a".to_string(),
        name: "<b>&".to_string(),
    };
    assert_eq!(render_statement(&node).unwrap(), "\"a\" [label = \"&lt;b&gt;&amp;\"];\n");
}

#[test]
fn lines_are_joined_in_order() {
    assert_eq!(join_lines(&vec![]), "");
    assert_eq!(
        join_lines(&vec!["a\n".to_string(), "".to_string(), "b".to_string()]),
        "a\nb"
    );
}

#[test]
fn the_whole_drawing_is_text() {
    let graph = source_to_graph(vec![
        Ok(file(None, Some(system("core", "Core")), vec![subsystem("svc-a", vec!["svc-b"])])),
        Ok(file(Some("core"), None, vec![subsystem("svc-b", vec!["missing"])])),
    ])
    .unwrap();
    assert_eq!(
        graph.output_to_dot().unwrap(),
        "digraph {\n  subgraph \"cluster_core\" {\n    label = \"Core\";\n    \"svc-a\" [label = \"svc-a\"];\n    \"svc-b\" [label = \"svc-b\"];\n  }\n  \"svc-a\" -> \"svc-b\";\n}\n"
    );
}

#[test]
fn the_empty_drawing_is_an_empty_digraph() {
    assert_eq!(Graph::new().output_to_dot().unwrap(), "digraph {\n}\n");
}

#[test]
fn edges_are_appended_in_subsystem_then_dependency_order() {
    let graph = source_to_graph(vec![Ok(file(
        None,
        None,
        vec![
            subsystem("a", vec!["c", "ghost", "b", "c"]),
            subsystem("b", vec![]),
            subsystem("c", vec!["a"]),
        ],
    ))])
    .unwrap();
    let mut statements = vec![DotStatement::EndCluster { indent: "kept".to_string() }];
    graph.output_subsystems_dependencies(&mut statements, "\t");
    let shown: Vec<String> = statements.iter().map(show).collect();
    assert_eq!(
        shown,
        vec!["keptend", "\tedge a c", "\tedge a b", "\tedge a c", "\tedge c a"]
    );
}

#[test]
fn a_scope_is_appended_with_its_own_indent_and_bound() {
    let graph = nested();
    let mut statements = Vec::new();
    graph.output_system(&mut statements, Some(0), "", 1);
    let shown: Vec<String> = statements.iter().map(show).collect();
    assert_eq!(shown, vec!["begin inner Inner", "  node b b", "end", "node a a"]);

    let mut cut = Vec::new();
    graph.output_system(&mut cut, None, "", 1);
    let shown: Vec<String> = cut.iter().map(show).collect();
    assert_eq!(
        shown,
        vec!["begin outer Outer", "  node a a", "end", "node free free", "node lost lost"]
    );

    let mut nothing = Vec::new();
    graph.output_system(&mut nothing, Some(7), "", 3);
    assert!(nothing.is_empty());
}
