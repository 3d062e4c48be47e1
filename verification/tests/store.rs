use memo::config::{absolute_env_path, config_path, read_config, resolve_auto_project, Config, ConfigSource};
use memo::error::{Problem, StoreError};
use memo::marker::{
    marker_contents, marker_created, marker_initialized, marker_path, print_selection,
    store_created, MarkerCreation, MarkerProbe,
};
use memo::path::{path_join, path_parent};
use memo::project::project_id;
use memo::store::{
    absolute_data_root, needs_repository, parse_data_dir, select, validate_name, Kind, Selection,
};

fn bytes(text: &'static str) -> &'static [u8] {
    text.as_bytes()
}

fn no_repository() -> Result<Option<Vec<u8>>, StoreError> {
    Ok(None)
}

fn broken_repository() -> Result<Option<Vec<u8>>, StoreError> {
    Err(StoreError::new(Problem::JjMarkerNotDir, b"/w/.jj"))
}

#[test]
fn explicit_selection_and_names() {
    let root = b"/tmp/x/stores".to_vec();
    let repository = no_repository();
    assert_eq!(
        select(&root, Some("default"), true, &repository).unwrap().kind,
        Kind::Default
    );
    assert_eq!(
        select(&root, Some("notes_2"), true, &repository).unwrap().kind,
        Kind::Named("notes_2".into())
    );
    assert!(select(&root, Some("../bad"), true, &repository).is_err());
    assert!(select(&root, Some("project"), true, &repository).is_err());
}

#[test]
fn store_paths_by_class() {
    let root = b"/data/stores".to_vec();
    let repository = no_repository();
    assert_eq!(
        select(&root, Some("default"), true, &repository).unwrap().path,
        b"/data/stores/default".to_vec()
    );
    assert_eq!(
        select(&root, Some("research"), true, &repository).unwrap().path,
        b"/data/stores/named/research".to_vec()
    );
    let repository: Result<Option<Vec<u8>>, StoreError> = Ok(Some(b"git:/r/.git".to_vec()));
    let project = select(&root, None, true, &repository).unwrap();
    let mut expected = b"/data/stores/projects/".to_vec();
    expected.extend_from_slice(&project_id(b"git:/r/.git"));
    assert_eq!(project.path, expected);
    let rooted = select(b"/", Some("default"), true, &no_repository()).unwrap();
    assert_eq!(rooted.path, b"/default".to_vec());
}

#[test]
fn repository_failures_matter_only_where_looked_at() {
    let root = b"/s".to_vec();
    let broken = broken_repository();
    assert!(!needs_repository(Some("default"), true));
    assert!(!needs_repository(Some("notes"), true));
    assert!(!needs_repository(None, false));
    assert!(needs_repository(None, true));
    assert!(needs_repository(Some("project"), false));
    assert_eq!(select(&root, Some("default"), true, &broken).unwrap().kind, Kind::Default);
    assert_eq!(select(&root, None, false, &broken).unwrap().kind, Kind::Default);
    let error = select(&root, None, true, &broken).unwrap_err();
    assert_eq!(error.problem, Problem::JjMarkerNotDir);
    assert_eq!(error.path, b"/w/.jj".to_vec());
    assert_eq!(
        select(&root, Some("project"), true, &broken).unwrap_err().problem,
        Problem::JjMarkerNotDir
    );
    assert_eq!(
        select(&root, Some("project"), true, &no_repository()).unwrap_err().problem,
        Problem::ProjectNeedsRepository
    );
}

#[test]
fn store_names_are_checked() {
    for good in ["notes", "notes_2", "a-b", "X", "0"] {
        assert!(validate_name(good).is_ok(), "{good}");
    }
    for bad in ["", "default", "project", "../bad", "a/b", "a.b", "é", "a b", "project:abc"] {
        let error = validate_name(bad).unwrap_err();
        assert_eq!(error.problem, Problem::InvalidStoreName);
        assert_eq!(error.path, bad.as_bytes().to_vec());
    }
    let error = select(b"/s", Some("a/b"), true, &no_repository()).unwrap_err();
    assert_eq!(error.problem, Problem::InvalidStoreName);
}

#[test]
fn project_id_is_sha256_hex() {
    assert_eq!(
        project_id(b"abc"),
        b"ba7816bf8f01cfea414140de5dae2223b00361a396177a9cb410ff61f20015ad".to_vec()
    );
    assert_eq!(
        project_id(b""),
        b"e3b0c44298fc1c149afbf4c8996fb92427ae41e4649b934ca495991b7852b855".to_vec()
    );
    assert_ne!(project_id(b"jj:/a"), project_id(b"git:/a"));
}

#[test]
fn report_lines() {
    let selection = Selection {
        kind: Kind::Default,
        path: b"/d/default".to_vec(),
        selector: b"default".to_vec(),
    };
    assert_eq!(
        print_selection(&selection, false),
        b"kind: default\npath: /d/default\nselector: default\ninitialized: false\n".to_vec()
    );
    let selection =
        Selection { kind: Kind::Project, path: b"/p".to_vec(), selector: b"project:ab".to_vec() };
    assert_eq!(
        print_selection(&selection, true),
        b"kind: project\npath: /p\nselector: project:ab\ninitialized: true\n".to_vec()
    );
    let selection = Selection {
        kind: Kind::Named("research".into()),
        path: b"/n".to_vec(),
        selector: b"research".to_vec(),
    };
    assert_eq!(
        print_selection(&selection, true),
        b"kind: named:research\npath: /n\nselector: research\ninitialized: true\n".to_vec()
    );
}

#[test]
fn report_shows_a_path_that_is_not_utf8() {
    let selection = Selection {
        kind: Kind::Default,
        path: b"/a\xff/default".to_vec(),
        selector: b"default".to_vec(),
    };
    assert_eq!(
        print_selection(&selection, false),
        "kind: default\npath: /a\u{FFFD}/default\nselector: default\ninitialized: false\n"
            .as_bytes()
            .to_vec()
    );
}

#[test]
fn selectors_pin_their_store() {
    let root = b"/data/stores".to_vec();
    let identity: Result<Option<Vec<u8>>, StoreError> = Ok(Some(b"jj:/m/.jj/repo".to_vec()));
    let project = select(&root, None, true, &identity).unwrap();
    let id = project_id(b"jj:/m/.jj/repo");
    let mut selector = b"project:".to_vec();
    selector.extend_from_slice(&id);
    assert_eq!(project.selector, selector);
    let text = String::from_utf8(selector.clone()).unwrap();
    assert!(!needs_repository(Some(&text), true));
    for repository in [no_repository(), broken_repository()] {
        for auto in [true, false] {
            let pinned = select(&root, Some(&text), auto, &repository).unwrap();
            assert_eq!(pinned.kind, Kind::Project);
            assert_eq!(pinned.path, project.path);
            assert_eq!(pinned.selector, project.selector);
        }
    }
    let named = select(&root, Some("notes"), true, &no_repository()).unwrap();
    assert_eq!(named.selector, b"notes".to_vec());
    let default = select(&root, Some("default"), true, &no_repository()).unwrap();
    assert_eq!(default.selector, b"default".to_vec());

    let short = format!("project:{}", &text[8..71]);
    let upper = format!("project:{}", text[8..].to_uppercase());
    let long = format!("{text}0");
    for bad in [short.as_str(), upper.as_str(), long.as_str(), "project:", "project:xyz"] {
        let error = select(&root, Some(bad), true, &no_repository()).unwrap_err();
        assert_eq!(error.problem, Problem::InvalidStoreName);
    }
}

#[test]
fn format_marker_is_strict() {
    let store = b"/s/default".to_vec();
    assert_eq!(marker_path(&store), b"/s/default/FORMAT_VERSION".to_vec());
    assert_eq!(marker_contents(), b"1\n".to_vec());
    assert!(!marker_initialized(&store, MarkerProbe::Missing).unwrap());
    assert!(marker_initialized(&store, MarkerProbe::Contents(b"1\n".to_vec())).unwrap());
    for bad in [&b"2\n"[..], b"1", b"garbage\n", b"1\n\n", b""] {
        let error = marker_initialized(&store, MarkerProbe::Contents(bad.to_vec())).unwrap_err();
        assert_eq!(error.problem, Problem::MarkerMalformed);
        assert_eq!(error.path, b"/s/default/FORMAT_VERSION".to_vec());
    }
    assert_eq!(
        marker_initialized(&store, MarkerProbe::NotFile).unwrap_err().problem,
        Problem::MarkerNotFile
    );
    let error =
        marker_initialized(&store, MarkerProbe::Uninspectable("denied".into())).unwrap_err();
    assert_eq!(error.problem, Problem::MarkerUninspectable);
    assert_eq!(error.cause, Some("denied".to_string()));
    assert_eq!(
        marker_initialized(&store, MarkerProbe::Unreadable("io".into())).unwrap_err().problem,
        Problem::ReadFailed
    );
}

#[test]
fn init_is_idempotent() {
    let store = b"/s/default".to_vec();
    assert!(store_created(&store, Ok(())).is_ok());
    let error = store_created(&store, Err("denied".into())).unwrap_err();
    assert_eq!(error.problem, Problem::StoreNotCreated);
    assert_eq!(error.path, store);
    assert!(marker_created(&store, MarkerCreation::Written(Ok(()))).is_ok());
    let again = MarkerCreation::AlreadyPresent(MarkerProbe::Contents(marker_contents()));
    assert!(marker_created(&store, again).is_ok());
    let gone = MarkerCreation::AlreadyPresent(MarkerProbe::Missing);
    assert!(marker_created(&store, gone).is_ok());
    let bad = MarkerCreation::AlreadyPresent(MarkerProbe::Contents(b"2\n".to_vec()));
    assert_eq!(marker_created(&store, bad).unwrap_err().problem, Problem::MarkerMalformed);
    let error = marker_created(&store, MarkerCreation::Refused("denied".into())).unwrap_err();
    assert_eq!(error.problem, Problem::MarkerNotCreated);
    assert_eq!(error.path, b"/s/default/FORMAT_VERSION".to_vec());
    let error = marker_created(&store, MarkerCreation::Written(Err("full".into()))).unwrap_err();
    assert_eq!(error.problem, Problem::MarkerNotWritten);
}

#[test]
fn data_root_from_override_and_environment() {
    let cwd = b"/work".to_vec();
    assert_eq!(
        absolute_data_root(Some(bytes("/custom")), Some(bytes("/x")), Some(bytes("/h")), &cwd).unwrap(),
        b"/custom".to_vec()
    );
    assert_eq!(
        absolute_data_root(Some(bytes("rel")), None, None, &cwd).unwrap(),
        b"/work/rel".to_vec()
    );
    assert_eq!(
        absolute_data_root(None, Some(bytes("/x")), Some(bytes("/h")), &cwd).unwrap(),
        b"/x/memo/stores".to_vec()
    );
    assert_eq!(
        absolute_data_root(None, Some(bytes("relative-data")), Some(bytes("/h")), &cwd).unwrap(),
        b"/h/.local/share/memo/stores".to_vec()
    );
    assert_eq!(
        absolute_data_root(None, Some(bytes("")), Some(bytes("/h/")), &cwd).unwrap(),
        b"/h/.local/share/memo/stores".to_vec()
    );
    assert_eq!(
        absolute_data_root(None, Some(bytes("rel")), Some(bytes("home")), &cwd).unwrap_err().problem,
        Problem::NoDataRoot
    );
    assert_eq!(
        absolute_data_root(None, None, None, &cwd).unwrap_err().problem,
        Problem::NoDataRoot
    );
}

#[test]
fn data_dir_must_not_be_empty() {
    assert_eq!(parse_data_dir("").unwrap_err().problem, Problem::EmptyDataDir);
    assert_eq!(parse_data_dir("/d").unwrap(), b"/d".to_vec());
    assert_eq!(parse_data_dir("d").unwrap(), b"d".to_vec());
}

#[test]
fn configuration_and_flags() {
    assert_eq!(
        config_path(Some(bytes("/c")), Some(bytes("/h"))),
        Some(b"/c/memo/config.toml".to_vec())
    );
    assert_eq!(
        config_path(Some(bytes("relative-config")), Some(bytes("/h"))),
        Some(b"/h/.config/memo/config.toml".to_vec())
    );
    assert_eq!(config_path(Some(bytes("")), None), None);
    assert_eq!(config_path(None, Some(bytes("h"))), None);

    assert_eq!(read_config(None, ConfigSource::Missing).unwrap(), Config::default());
    assert!(Config::default().auto_project);
    let path = b"/c/memo/config.toml".to_vec();
    assert_eq!(read_config(Some(&path), ConfigSource::Missing).unwrap(), Config::default());
    let off = Config { auto_project: false };
    assert_eq!(read_config(Some(&path), ConfigSource::Parsed(off)).unwrap(), off);
    let error = read_config(Some(&path), ConfigSource::Malformed("bad".into())).unwrap_err();
    assert_eq!(error.problem, Problem::ConfigMalformed);
    assert_eq!(error.path, path);
    assert_eq!(
        read_config(Some(&path), ConfigSource::Unreadable("io".into())).unwrap_err().problem,
        Problem::ReadFailed
    );

    assert!(resolve_auto_project(true, false, &off));
    assert!(!resolve_auto_project(false, true, &Config::default()));
    assert!(!resolve_auto_project(false, false, &off));
    assert!(resolve_auto_project(false, false, &Config::default()));
}

#[test]
fn paths_join_and_climb() {
    assert_eq!(path_join(b"/a", b"b"), b"/a/b".to_vec());
    assert_eq!(path_join(b"/a/", b"b"), b"/a/b".to_vec());
    assert_eq!(path_join(b"", b"b"), b"b".to_vec());
    assert_eq!(path_join(b"/a", b"/b"), b"/b".to_vec());
    assert_eq!(path_join(b"/a", b"b/c"), b"/a/b/c".to_vec());
    assert_eq!(path_parent(b"/a/b"), Some(b"/a".to_vec()));
    assert_eq!(path_parent(b"/a"), Some(b"/".to_vec()));
    assert_eq!(path_parent(b"/"), None);
    assert_eq!(path_parent(b"a"), Some(Vec::new()));
    assert_eq!(path_parent(b""), None);
}

#[test]
fn environment_roots_must_be_absolute() {
    assert_eq!(absolute_env_path(Some(bytes("/h"))), Some(b"/h".to_vec()));
    assert_eq!(absolute_env_path(Some(bytes("h"))), None);
    assert_eq!(absolute_env_path(Some(bytes(""))), None);
    assert_eq!(absolute_env_path(None), None);
}
