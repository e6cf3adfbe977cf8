use mc_cli::modrinth::{
    find_installed, is_server_compatible, latest_label, primary_file, select_latest, select_requested,
    update_status, version_label, Hashes, Project, SearchQuery, SelectError, UpdateStatus, Version, VersionFile,
};

fn file(name: &str, primary: Option<bool>) -> VersionFile {
    VersionFile {
        url: format!("https://cdn.example/{}", name),
        filename: name.to_string(),
        hashes: Hashes { sha1: None, sha512: None },
        primary,
    }
}

fn version(id: &str, number: Option<&str>, games: &[&str], loaders: &[&str], files: Vec<VersionFile>) -> Version {
    Version {
        id: id.to_string(),
        name: None,
        version_number: number.map(|n| n.to_string()),
        game_versions: games.iter().map(|g| g.to_string()).collect(),
        loaders: loaders.iter().map(|l| l.to_string()).collect(),
        files,
    }
}

fn project(server_side: Option<&str>) -> Project {
    Project {
        id: "id".to_string(),
        slug: "slug".to_string(),
        project_type: "mod".to_string(),
        title: "T".to_string(),
        description: "D".to_string(),
        categories: vec![],
        downloads: 0,
        author: None,
        client_side: None,
        server_side: server_side.map(|s| s.to_string()),
        versions: None,
    }
}

#[test]
fn search_query_builder() {
    let q = SearchQuery::new().query("fabric").limit(10).offset(5).facets("[[\"project_type:mod\"]]");
    assert_eq!(q.query.as_deref(), Some("fabric"));
    assert_eq!(q.limit, Some(10));
    assert_eq!(q.offset, Some(5));
    assert_eq!(q.facets.as_deref(), Some("[[\"project_type:mod\"]]"));
    assert!(q.index.is_none());
    assert!(q.filters.is_none());
    let q = q.index("downloads").filters("x=1");
    assert_eq!(q.index.as_deref(), Some("downloads"));
    assert_eq!(q.filters.as_deref(), Some("x=1"));
    assert_eq!(q.query.as_deref(), Some("fabric"));
}

#[test]
fn empty_search_query() {
    let q = SearchQuery::new();
    assert!(q.query.is_none() && q.facets.is_none() && q.limit.is_none() && q.offset.is_none());
}

#[test]
fn server_compatibility() {
    assert!(!is_server_compatible(&project(Some("unsupported"))));
    assert!(is_server_compatible(&project(Some("required"))));
    assert!(is_server_compatible(&project(Some("optional"))));
    assert!(is_server_compatible(&project(None)));
}

#[test]
fn primary_file_choice() {
    assert_eq!(primary_file(&vec![]), None);
    assert_eq!(primary_file(&vec![file("a", None), file("b", Some(false))]), Some(0));
    assert_eq!(primary_file(&vec![file("a", Some(false)), file("b", Some(true)), file("c", Some(true))]), Some(1));
}

#[test]
fn labels() {
    assert_eq!(version_label(&version("abc", Some("1.2"), &[], &[], vec![])), "1.2");
    assert_eq!(version_label(&version("abc", None, &[], &[], vec![])), "abc");
    assert_eq!(latest_label(&vec![]), "-");
    let vs = vec![version("n", Some("2.0"), &[], &[], vec![]), version("o", Some("1.0"), &[], &[], vec![])];
    assert_eq!(latest_label(&vs), "2.0");
}

#[test]
fn installed_version_by_number_or_id() {
    let vs = vec![
        version("id2", Some("2.0"), &[], &[], vec![]),
        version("id1", Some("1.0"), &[], &[], vec![]),
        version("id0", None, &[], &[], vec![]),
    ];
    assert_eq!(find_installed(&vs, &"1.0".to_string()), Some(1));
    assert_eq!(find_installed(&vs, &"id0".to_string()), Some(2));
    assert_eq!(find_installed(&vs, &"3.0".to_string()), None);
}

#[test]
fn latest_compatible_version() {
    let vs = vec![
        version("a", Some("3.0"), &["1.21"], &["fabric"], vec![file("a.jar", None)]),
        version("b", Some("2.0"), &["1.20.1"], &["forge"], vec![file("b.jar", None)]),
        version("c", Some("1.5"), &["1.20.1"], &["Fabric"], vec![file("c0.jar", None), file("c1.jar", Some(true))]),
        version("d", Some("1.0"), &[], &["fabric"], vec![file("d.jar", None)]),
    ];
    let mc = "1.20.1".to_string();
    assert_eq!(select_latest(&vs, true, &mc), Ok((2, 1)));
    assert_eq!(select_latest(&vs, false, &mc), Ok((1, 0)));
    assert_eq!(select_latest(&vs, true, &"1.19".to_string()), Ok((3, 0)));
    let none = vec![version("a", Some("3.0"), &["1.21"], &["forge"], vec![file("a.jar", None)])];
    assert_eq!(select_latest(&none, true, &mc), Err(SelectError::NoCompatibleVersion));
    let no_files = vec![version("a", Some("3.0"), &["1.20.1"], &["fabric"], vec![])];
    assert_eq!(select_latest(&no_files, true, &mc), Err(SelectError::NoFiles));
}

#[test]
fn requested_version_checks() {
    let vs = vec![
        version("a", Some("3.0"), &["1.21"], &["fabric"], vec![file("a.jar", None)]),
        version("b", Some("2.0"), &["1.20.1"], &["forge"], vec![file("b.jar", None)]),
        version("c", Some("1.0"), &["1.20.1"], &[], vec![file("c.jar", Some(true))]),
        version("e", Some("0.9"), &["1.20.1"], &["fabric"], vec![]),
    ];
    let mc = "1.20.1".to_string();
    assert_eq!(select_requested(&vs, &"3.0".to_string(), true, &mc), Err(SelectError::WrongGameVersion));
    assert_eq!(select_requested(&vs, &"2.0".to_string(), true, &mc), Err(SelectError::NoFabricLoader));
    assert_eq!(select_requested(&vs, &"2.0".to_string(), false, &mc), Ok((1, 0)));
    assert_eq!(select_requested(&vs, &"1.0".to_string(), true, &mc), Ok((2, 0)));
    assert_eq!(select_requested(&vs, &"0.9".to_string(), true, &mc), Err(SelectError::VersionNotFound));
    assert_eq!(select_requested(&vs, &"7.0".to_string(), true, &mc), Err(SelectError::VersionNotFound));
}

#[test]
fn update_statuses() {
    let s = |a: &str, b: &str| update_status(&a.to_string(), &b.to_string());
    assert_eq!(s("1.0", "-"), UpdateStatus::Unknown);
    assert_eq!(s("1.0", "1.0"), UpdateStatus::UpToDate);
    assert_eq!(s("1.0", "1.1"), UpdateStatus::UpdateAvailable);
}

use mc_cli::modrinth::{search_facets, search_facets_json, split_list, trim_each};

#[test]
fn split_list_trims_fields() {
    assert_eq!(split_list("fabric, forge ,quilt"), vec!["fabric", "forge", "quilt"]);
    assert_eq!(split_list("1.20.1"), vec!["1.20.1"]);
    assert_eq!(split_list(""), vec![""]);
}

#[test]
fn facets_groups() {
    let f = search_facets(&vec!["fabric".to_string()], &vec!["1.20.1".to_string(), "1.20.2".to_string()]);
    assert_eq!(
        f,
        vec![
            vec!["project_type:mod".to_string()],
            vec!["categories:fabric".to_string()],
            vec!["versions:1.20.1".to_string()],
            vec!["versions:1.20.2".to_string()],
        ]
    );
}

#[test]
fn facets_json_text() {
    let json = search_facets_json(&vec!["fabric".to_string()], &vec![]).unwrap();
    assert_eq!(json, r#"[["project_type:mod"],["categories:fabric"]]"#);
    let json = search_facets_json(&vec![], &vec!["1.20.1".to_string()]).unwrap();
    assert_eq!(json, r#"[["project_type:mod"],["versions:1.20.1"]]"#);
}

#[test]
fn trim_each_field() {
    let fields = vec![" a".to_string(), "b \t".to_string(), "".to_string()];
    assert_eq!(trim_each(&fields), vec!["a", "b", ""]);
}
