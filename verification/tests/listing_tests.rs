use service_master::descriptor::{LaunchAgent, ServiceConfig, ServiceMetadata};
use service_master::error::{ErrorKind, ServiceError};
use service_master::label_map::LabelMap;
use service_master::listing::{
    comes_before, get_services, has_unit_file_name, sort_services, DirectoryListing, UnitFileEntry,
};
use service_master::liveness::LoadedTable;
use service_master::overlay::MetadataStore;
use service_master::unit_file::render_unit_file;

fn agent(label: &str, order: Option<i32>, path: &str) -> LaunchAgent {
    LaunchAgent {
        label: label.to_string(),
        program: None,
        program_arguments: None,
        run_at_load: None,
        keep_alive: None,
        working_directory: None,
        standard_out_path: None,
        standard_error_path: None,
        environment_variables: None,
        file_path: path.to_string(),
        is_loaded: false,
        pid: None,
        display_name: None,
        description: None,
        icon: None,
        port: None,
        health_url: None,
        order,
        project_path: None,
        app_path: None,
    }
}

fn unit(label: &str) -> Vec<u8> {
    render_unit_file(&ServiceConfig {
        label: label.to_string(),
        program: Some("/bin/true".to_string()),
        program_arguments: None,
        run_at_load: None,
        keep_alive: None,
        working_directory: None,
        standard_out_path: None,
        standard_error_path: None,
        environment_variables: None,
    })
    .unwrap()
}

fn entry(name: &str, content: Option<Vec<u8>>) -> UnitFileEntry {
    UnitFileEntry { file_name: name.to_string(), path: format!("/agents/{}", name), content }
}

fn ordered(order: Option<i32>) -> ServiceMetadata {
    ServiceMetadata {
        display_name: Some("shown".to_string()),
        description: None,
        icon: Some("cpu".to_string()),
        port: Some(3000),
        health_url: None,
        order,
        project_path: None,
        app_path: Some("App".to_string()),
    }
}

fn labels(agents: &Vec<LaunchAgent>) -> Vec<String> {
    agents.iter().map(|a| a.label.clone()).collect()
}

#[test]
fn unit_files_are_known_by_their_name() {
    assert!(has_unit_file_name("com.a.plist"));
    assert!(has_unit_file_name("a.plist"));
    assert!(has_unit_file_name("..plist"));
    assert!(!has_unit_file_name(".plist"));
    assert!(!has_unit_file_name("plist"));
    assert!(!has_unit_file_name("a.plist.bak"));
    assert!(!has_unit_file_name("a.PLIST"));
    assert!(!has_unit_file_name(""));
    for name in ["com.a.plist", ".plist", "x", "a.plist.bak", "..plist", "a.b.plist", "plist"] {
        let by_path = std::path::Path::new("/agents").join(name).extension().map_or(false, |e| e == "plist");
        assert_eq!(has_unit_file_name(name), by_path, "{}", name);
    }
}

#[test]
fn services_with_order_come_first_by_order_then_the_others_by_label() {
    let sorted = sort_services(vec![
        agent("three", Some(3), "a"),
        agent("none", None, "b"),
        agent("one", Some(1), "c"),
    ]);
    assert_eq!(labels(&sorted), vec!["one", "three", "none"]);
    assert_eq!(sorted[0].order, Some(1));
    assert_eq!(sorted[1].order, Some(3));
    assert_eq!(sorted[2].order, None);
}

#[test]
fn services_without_order_go_by_label() {
    let sorted = sort_services(vec![
        agent("com.c", None, ""),
        agent("com.a", None, ""),
        agent("z", Some(9), ""),
        agent("com.b", None, ""),
        agent("B", None, ""),
        agent("y", Some(-2), ""),
    ]);
    assert_eq!(labels(&sorted), vec!["y", "z", "B", "com.a", "com.b", "com.c"]);
}

#[test]
fn services_of_equal_rank_keep_their_order() {
    let sorted = sort_services(vec![
        agent("b", Some(1), "first"),
        agent("a", Some(1), "second"),
        agent("same", None, "third"),
        agent("c", Some(1), "fourth"),
        agent("same", None, "fifth"),
    ]);
    let paths: Vec<String> = sorted.iter().map(|a| a.file_path.clone()).collect();
    assert_eq!(paths, vec!["first", "second", "fourth", "third", "fifth"]);
}

#[test]
fn sorting_agrees_with_the_stable_sort_of_the_standard_library() {
    let orders = [Some(2), None, Some(-5), Some(2), None, None, Some(0), Some(i32::MAX), Some(i32::MIN), None];
    let names = ["m", "b", "x", "a", "b", "服务", "q", "r", "s", ""];
    let mut agents = Vec::new();
    let mut expected = Vec::new();
    for i in 0..orders.len() {
        agents.push(agent(names[i], orders[i], &format!("{}", i)));
        expected.push(agent(names[i], orders[i], &format!("{}", i)));
    }
    expected.sort_by(|a, b| match (a.order, b.order) {
        (Some(x), Some(y)) => x.cmp(&y),
        (Some(_), None) => std::cmp::Ordering::Less,
        (None, Some(_)) => std::cmp::Ordering::Greater,
        (None, None) => a.label.cmp(&b.label),
    });
    assert_eq!(sort_services(agents), expected);
    assert_eq!(sort_services(vec![]), vec![]);
}

#[test]
fn one_service_comes_before_another_by_order_then_label() {
    assert!(comes_before(&agent("b", Some(1), ""), &agent("a", Some(2), "")));
    assert!(!comes_before(&agent("a", Some(2), ""), &agent("b", Some(2), "")));
    assert!(comes_before(&agent("z", Some(100), ""), &agent("a", None, "")));
    assert!(!comes_before(&agent("a", None, ""), &agent("z", Some(100), "")));
    assert!(comes_before(&agent("a", None, ""), &agent("b", None, "")));
    assert!(!comes_before(&agent("a", None, ""), &agent("a", None, "")));
}

#[test]
fn an_absent_directory_has_no_services() {
    let loaded: LoadedTable = LabelMap::new();
    let store: MetadataStore = LabelMap::new();
    assert_eq!(get_services(&DirectoryListing::Absent, &loaded, &store), Ok(vec![]));
    assert_eq!(get_services(&DirectoryListing::Entries(vec![]), &loaded, &store), Ok(vec![]));
}

#[test]
fn a_directory_that_cannot_be_read_is_a_failure() {
    let loaded: LoadedTable = LabelMap::new();
    let store: MetadataStore = LabelMap::new();
    assert_eq!(
        get_services(&DirectoryListing::Unreadable("Permission denied (os error 13)".to_string()), &loaded, &store),
        Err(ServiceError {
            kind: ErrorKind::PermissionOrTransport,
            message: "Permission denied (os error 13)".to_string()
        })
    );
}

#[test]
fn files_that_are_no_unit_files_are_skipped() {
    let loaded: LoadedTable = LabelMap::new();
    let store: MetadataStore = LabelMap::new();
    let directory = DirectoryListing::Entries(vec![
        entry("com.b.plist", Some(unit("com.b"))),
        entry("notes.txt", Some(unit("com.notes"))),
        entry("broken.plist", Some(b"garbage".to_vec())),
        entry("unreadable.plist", None),
        entry(".plist", Some(unit("com.hidden"))),
        entry("com.a.plist", Some(unit("com.a"))),
    ]);
    let agents = get_services(&directory, &loaded, &store).unwrap();
    assert_eq!(labels(&agents), vec!["com.a", "com.b"]);
    assert_eq!(agents[0].file_path, "/agents/com.a.plist");
    assert_eq!(agents[0].program, Some("/bin/true".to_string()));
    assert!(!agents[0].is_loaded);
    assert_eq!(agents[0].display_name, None);
}

#[test]
fn services_carry_their_liveness_and_their_overlay() {
    let mut loaded: LoadedTable = LabelMap::new();
    loaded.insert("com.a".to_string(), Some(42));
    loaded.insert("com.c".to_string(), None);
    loaded.insert("com.gone".to_string(), Some(1));
    let mut store: MetadataStore = LabelMap::new();
    store.insert("com.a".to_string(), ordered(Some(3)));
    store.insert("com.b".to_string(), ordered(Some(1)));
    store.insert("com.orphan".to_string(), ordered(Some(0)));
    let directory = DirectoryListing::Entries(vec![
        entry("a.plist", Some(unit("com.a"))),
        entry("b.plist", Some(unit("com.b"))),
        entry("c.plist", Some(unit("com.c"))),
    ]);
    let agents = get_services(&directory, &loaded, &store).unwrap();
    assert_eq!(labels(&agents), vec!["com.b", "com.a", "com.c"]);
    assert!(!agents[0].is_loaded);
    assert_eq!(agents[0].pid, None);
    assert_eq!(agents[0].order, Some(1));
    assert_eq!(agents[0].display_name, Some("shown".to_string()));
    assert_eq!(agents[0].icon, Some("cpu".to_string()));
    assert_eq!(agents[0].port, Some(3000));
    assert_eq!(agents[0].app_path, Some("App".to_string()));
    assert!(agents[1].is_loaded);
    assert_eq!(agents[1].pid, Some(42));
    assert_eq!(agents[1].order, Some(3));
    assert!(agents[2].is_loaded);
    assert_eq!(agents[2].pid, None);
    assert_eq!(agents[2].order, None);
    assert_eq!(agents[2].display_name, None);
}

#[test]
fn listing_twice_gives_the_same_services_in_the_same_order() {
    let mut loaded: LoadedTable = LabelMap::new();
    loaded.insert("com.a".to_string(), Some(42));
    let mut store: MetadataStore = LabelMap::new();
    store.insert("com.b".to_string(), ordered(Some(1)));
    let directory = DirectoryListing::Entries(vec![
        entry("z.plist", Some(unit("same"))),
        entry("a.plist", Some(unit("com.a"))),
        entry("y.plist", Some(unit("same"))),
        entry("b.plist", Some(unit("com.b"))),
    ]);
    let first = get_services(&directory, &loaded, &store);
    let second = get_services(&directory, &loaded, &store);
    assert_eq!(first, second);
    let agents = first.unwrap();
    assert_eq!(labels(&agents), vec!["com.b", "com.a", "same", "same"]);
    assert_eq!(agents[2].file_path, "/agents/z.plist");
    assert_eq!(agents[3].file_path, "/agents/y.plist");
}
