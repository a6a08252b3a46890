use siostam::error::CustomError;
use siostam::subsystem_mapping::extract::iterate_over_option_vecs;
use siostam::subsystem_mapping::links::reconstruct_links;
use siostam::subsystem_mapping::links::source_to_graph;
use siostam::subsystem_mapping::merge::merge_all_files;
use siostam::subsystem_mapping::references::IndexById;
use siostam::subsystem_mapping::references::ReferenceByIndex;
use siostam::subsystem_mapping::Graph;
use siostam::subsystem_mapping::HowToSource;
use siostam::subsystem_mapping::Subsystem;
use siostam::subsystem_mapping::SubsystemDependencySource;
use siostam::subsystem_mapping::SubsystemFileSource;
use siostam::subsystem_mapping::SubsystemSource;
use siostam::subsystem_mapping::System;
use siostam::subsystem_mapping::SystemSource;

fn text(s: &str) -> Option<String> {
    Some(s.to_string())
}

fn system(id: Option<&str>, name: Option<&str>) -> SystemSource {
    SystemSource {
        id: id.map(|s| s.to_string()),
        name: name.map(|s| s.to_string()),
        description: None,
        howto: None,
        how_to: None,
    }
}

fn subsystem(id: Option<&str>, name: Option<&str>, dependencies: Vec<&str>) -> SubsystemSource {
    SubsystemSource {
        id: id.map(|s| s.to_string()),
        name: name.map(|s| s.to_string()),
        description: None,
        dependency: None,
        dependencies: Some(
            dependencies
                .into_iter()
                .map(|d| SubsystemDependencySource { id: text(d), why: None })
                .collect(),
        ),
        howto: None,
        how_to: None,
    }
}

fn file(
    stored_in_system: Option<&str>,
    system: Option<SystemSource>,
    subsystems: Vec<SubsystemSource>,
) -> SubsystemFileSource {
    SubsystemFileSource {
        stored_in_system: stored_in_system.map(|s| s.to_string()),
        system,
        subsystem: None,
        subsystems: Some(subsystems),
        repo_name: "repo".to_string(),
        path: "docs/a.subsystem.toml".to_string(),
    }
}

#[test]
fn system_with_only_a_name_takes_the_name_as_id() {
    let f = file(None, Some(system(None, Some("Core"))), vec![]);
    let s = f.extract_system().unwrap();
    assert_eq!(s.id, "Core");
    assert_eq!(s.name, "Core");
}

#[test]
fn system_with_only_an_id_takes_the_id_as_name() {
    let f = file(None, Some(system(Some("core"), None)), vec![]);
    let s = f.extract_system().unwrap();
    assert_eq!(s.id, "core");
    assert_eq!(s.name, "core");
}

#[test]
fn system_with_both_keeps_both() {
    let f = file(None, Some(system(Some("core"), Some("The Core"))), vec![]);
    let s = f.extract_system().unwrap();
    assert_eq!(s.id, "core");
    assert_eq!(s.name, "The Core");
}

#[test]
fn system_with_neither_is_dropped() {
    let f = file(None, Some(system(None, None)), vec![]);
    assert!(f.extract_system().is_none());
}

#[test]
fn record_without_system_gives_none() {
    let f = file(Some("core"), None, vec![]);
    assert!(f.extract_system().is_none());
}

#[test]
fn system_carries_provenance_description_and_parent() {
    let mut source = system(Some("core"), None);
    source.description = text("the heart");
    let f = file(Some("platform"), Some(source), vec![]);
    let s = f.extract_system().unwrap();
    assert_eq!(s.repo_name, "repo");
    assert_eq!(s.path, "docs/a.subsystem.toml");
    assert_eq!(s.description, text("the heart"));
    let parent = s.parent_system.unwrap();
    assert_eq!(parent.id(), "platform");
    assert_eq!(parent.index(), None);
}

#[test]
fn how_to_needs_a_url_and_shows_it_without_text() {
    let mut source = system(Some("core"), None);
    source.how_to = Some(vec![
        HowToSource { url: text("http://a"), text: text("read a") },
        HowToSource { url: None, text: text("lost") },
    ]);
    source.howto = Some(vec![HowToSource { url: text("http://b"), text: None }]);
    let f = file(None, Some(source), vec![]);
    let s = f.extract_system().unwrap();
    assert_eq!(s.how_to.len(), 2);
    assert_eq!(s.how_to[0].url, "http://a");
    assert_eq!(s.how_to[0].text, "read a");
    assert_eq!(s.how_to[1].url, "http://b");
    assert_eq!(s.how_to[1].text, "http://b");
}

#[test]
fn subsystems_follow_the_identity_rule() {
    let f = file(
        None,
        None,
        vec![
            subsystem(None, Some("Service A"), vec![]),
            subsystem(None, None, vec![]),
            subsystem(Some("svc-b"), None, vec![]),
            subsystem(Some("svc-c"), Some("Service C"), vec![]),
        ],
    );
    let subsystems = f.extract_subsystems(None);
    assert_eq!(subsystems.len(), 3);
    assert_eq!(subsystems[0].id, "Service A");
    assert_eq!(subsystems[0].name, "Service A");
    assert_eq!(subsystems[1].id, "svc-b");
    assert_eq!(subsystems[1].name, "svc-b");
    assert_eq!(subsystems[2].id, "svc-c");
    assert_eq!(subsystems[2].name, "Service C");
    assert!(subsystems[0].parent_system.is_none());
}

#[test]
fn subsystems_of_both_spellings_come_plural_first() {
    let mut f = file(None, None, vec![subsystem(Some("second"), None, vec![])]);
    f.subsystem = Some(vec![subsystem(Some("third"), None, vec![])]);
    let parent = "core".to_string();
    let subsystems = f.extract_subsystems(Some(&parent));
    assert_eq!(subsystems.len(), 2);
    assert_eq!(subsystems[0].id, "second");
    assert_eq!(subsystems[1].id, "third");
    assert_eq!(subsystems[1].parent_system.as_ref().unwrap().id(), "core");
    assert_eq!(subsystems[1].parent_system.as_ref().unwrap().index(), None);
}

#[test]
fn dependencies_need_an_id_and_keep_their_reason() {
    let mut source = subsystem(Some("a"), None, vec![]);
    source.dependencies = Some(vec![
        SubsystemDependencySource { id: text("b"), why: text("calls it") },
        SubsystemDependencySource { id: None, why: text("no target") },
    ]);
    source.dependency = Some(vec![SubsystemDependencySource { id: text("c"), why: None }]);
    let f = file(None, None, vec![source]);
    let subsystems = f.extract_subsystems(None);
    let dependencies = &subsystems[0].dependencies;
    assert_eq!(dependencies.len(), 2);
    assert_eq!(dependencies[0].subsystem.id(), "b");
    assert_eq!(dependencies[0].why, text("calls it"));
    assert_eq!(dependencies[0].subsystem.index(), None);
    assert_eq!(dependencies[1].subsystem.id(), "c");
    assert_eq!(dependencies[1].why, None);
}

#[test]
fn chained_lists_keep_order_and_skip_absent_ones() {
    let a = Some(vec![1, 2]);
    let b = Some(vec![3]);
    let none: Option<Vec<i32>> = None;
    assert_eq!(iterate_over_option_vecs(&a, &b), vec![&1, &2, &3]);
    assert_eq!(iterate_over_option_vecs(&none, &b), vec![&3]);
    assert_eq!(iterate_over_option_vecs(&a, &none), vec![&1, &2]);
    assert!(iterate_over_option_vecs(&none, &none).is_empty());
}

#[test]
fn two_files_are_merged_and_linked() {
    let file_a = file(
        None,
        Some(system(Some("core"), None)),
        vec![subsystem(Some("svc-a"), None, vec!["svc-b"])],
    );
    let file_b = file(Some("core"), None, vec![subsystem(Some("svc-b"), None, vec![])]);
    let graph = source_to_graph(vec![Ok(file_a), Ok(file_b)]).unwrap();

    assert_eq!(graph.systems.len(), 1);
    assert_eq!(graph.systems[0].id, "core");
    assert!(graph.systems[0].parent_system.is_none());

    assert_eq!(graph.subsystems.len(), 2);
    assert_eq!(graph.subsystems[0].id, "svc-a");
    assert_eq!(graph.subsystems[1].id, "svc-b");
    assert_eq!(graph.subsystems[0].parent_system.as_ref().unwrap().index(), Some(0));
    assert_eq!(graph.subsystems[1].parent_system.as_ref().unwrap().index(), Some(0));
    assert_eq!(graph.subsystems[0].parent_system.as_ref().unwrap().id(), "core");

    assert_eq!(graph.subsystems[0].dependencies.len(), 1);
    assert_eq!(graph.subsystems[0].dependencies[0].subsystem.id(), "svc-b");
    assert_eq!(graph.subsystems[0].dependencies[0].subsystem.index(), Some(1));
}

#[test]
fn own_system_wins_over_stored_in_system_as_parent() {
    let f = file(
        Some("platform"),
        Some(system(Some("core"), None)),
        vec![subsystem(Some("svc"), None, vec![])],
    );
    let platform = file(None, Some(system(Some("platform"), None)), vec![]);
    let graph = source_to_graph(vec![Ok(platform), Ok(f)]).unwrap();
    assert_eq!(graph.systems[1].id, "core");
    assert_eq!(graph.systems[1].parent_system.as_ref().unwrap().index(), Some(0));
    assert_eq!(graph.subsystems[0].parent_system.as_ref().unwrap().id(), "core");
    assert_eq!(graph.subsystems[0].parent_system.as_ref().unwrap().index(), Some(1));
}

#[test]
fn positions_do_not_move_when_more_is_merged() {
    let mut graph = Graph::new();
    graph.merge_file(&file(
        None,
        Some(system(Some("one"), None)),
        vec![subsystem(Some("a"), None, vec![]), subsystem(Some("b"), None, vec![])],
    ));
    assert_eq!(graph.systems.len(), 1);
    assert_eq!(graph.subsystems.len(), 2);
    graph.merge_file(&file(None, None, vec![subsystem(Some("c"), None, vec![])]));
    graph.merge_file(&file(None, Some(system(Some("two"), None)), vec![]));
    assert_eq!(graph.systems.len(), 2);
    assert_eq!(graph.subsystems.len(), 3);
    assert_eq!(graph.systems[0].id, "one");
    assert_eq!(graph.systems[1].id, "two");
    assert_eq!(graph.subsystems[0].id, "a");
    assert_eq!(graph.subsystems[1].id, "b");
    assert_eq!(graph.subsystems[2].id, "c");
}

#[test]
fn empty_input_gives_an_empty_graph() {
    let graph = source_to_graph(vec![]).unwrap();
    assert!(graph.systems.is_empty());
    assert!(graph.subsystems.is_empty());
}

#[test]
fn a_duplicate_id_is_shadowed_by_the_last_one() {
    let first = file(None, None, vec![subsystem(Some("dup"), Some("first"), vec![])]);
    let second = file(
        None,
        None,
        vec![
            subsystem(Some("dup"), Some("second"), vec![]),
            subsystem(Some("user"), None, vec!["dup"]),
        ],
    );
    let graph = source_to_graph(vec![Ok(first), Ok(second)]).unwrap();
    assert_eq!(graph.subsystems.len(), 3);
    assert_eq!(graph.subsystems[0].name, "first");
    assert_eq!(graph.subsystems[1].name, "second");
    assert_eq!(graph.subsystems[2].dependencies[0].subsystem.index(), Some(1));
}

#[test]
fn a_missing_target_stays_unresolved() {
    let f = file(
        Some("nowhere"),
        None,
        vec![subsystem(Some("svc"), None, vec!["ghost", "svc"])],
    );
    let graph = source_to_graph(vec![Ok(f)]).unwrap();
    let svc = &graph.subsystems[0];
    assert_eq!(svc.parent_system.as_ref().unwrap().id(), "nowhere");
    assert_eq!(svc.parent_system.as_ref().unwrap().index(), None);
    assert_eq!(svc.dependencies[0].subsystem.id(), "ghost");
    assert_eq!(svc.dependencies[0].subsystem.index(), None);
    assert_eq!(svc.dependencies[1].subsystem.index(), Some(0));
}

#[test]
fn parent_links_and_dependency_links_have_separate_namespaces() {
    let f = file(
        Some("shared"),
        None,
        vec![subsystem(Some("shared"), None, vec!["shared"])],
    );
    let graph = source_to_graph(vec![Ok(f)]).unwrap();
    let s = &graph.subsystems[0];
    assert_eq!(s.parent_system.as_ref().unwrap().index(), None);
    assert_eq!(s.dependencies[0].subsystem.index(), Some(0));
}

#[test]
fn one_unreadable_record_fails_the_whole_build() {
    let ok = file(None, Some(system(Some("core"), None)), vec![]);
    let also_ok = file(None, None, vec![subsystem(Some("a"), None, vec![])]);
    let result = source_to_graph(vec![
        Ok(ok),
        Err(CustomError::new("first failure".to_string())),
        Ok(also_ok),
        Err(CustomError::new("second failure".to_string())),
    ]);
    assert_eq!(result.unwrap_err().message, "first failure");
}

#[test]
fn merging_alone_resolves_nothing() {
    let file_a = file(
        None,
        Some(system(Some("core"), None)),
        vec![subsystem(Some("svc-a"), None, vec!["svc-a"])],
    );
    let mut graph = merge_all_files(vec![Ok(file_a)]).unwrap();
    assert_eq!(graph.subsystems[0].parent_system.as_ref().unwrap().index(), None);
    assert_eq!(graph.subsystems[0].dependencies[0].subsystem.index(), None);
    reconstruct_links(&mut graph);
    assert_eq!(graph.subsystems[0].parent_system.as_ref().unwrap().index(), Some(0));
    assert_eq!(graph.subsystems[0].dependencies[0].subsystem.index(), Some(0));
}

#[test]
fn merge_reports_the_first_failure() {
    let result = merge_all_files(vec![
        Err(CustomError::new("broken".to_string())),
        Ok(file(None, None, vec![])),
    ]);
    assert_eq!(result.unwrap_err().to_string(), "broken");
}

#[test]
fn index_by_id_keeps_the_last_position() {
    let mut index = IndexById::new();
    assert_eq!(index.get(&"a".to_string()), None);
    index.insert("a".to_string(), 0);
    index.insert("b".to_string(), 1);
    index.insert("a".to_string(), 2);
    assert_eq!(index.get(&"a".to_string()), Some(2));
    assert_eq!(index.get(&"b".to_string()), Some(1));
    assert_eq!(index.get(&"c".to_string()), None);
}

#[test]
fn a_reference_finds_its_index_or_none() {
    let mut index = IndexById::new();
    index.insert("here".to_string(), 7);
    let mut found: ReferenceByIndex<System> = ReferenceByIndex::new(&"here".to_string());
    assert_eq!(found.index(), None);
    found.find_index_in(&index);
    assert_eq!(found.index(), Some(7));
    assert_eq!(found.id(), "here");
    let mut lost: ReferenceByIndex<Subsystem> = ReferenceByIndex::new(&"gone".to_string());
    lost.find_index_in(&index);
    assert_eq!(lost.index(), None);
    assert_eq!(lost.id(), "gone");
    found.find_index_in(&IndexById::new());
    assert_eq!(found.index(), None);
}
