use serde_json::Value;
use takecopter::data::{ensure_project, needs_legacy_migration, plan_legacy_migration, WorkspaceMap};
use takecopter::load::{load_project_data, read_folder, FolderContent, StoryFolders};
use takecopter::state::{set_active_root, ProjectState};
use takecopter::error::{JsonText, ProjectError};
use takecopter::library::{default_library, SettingLibrary};
use takecopter::manifest::{ProjectManifest, StoryManifestEntry};
use takecopter::recency::sort_by_recency;
use takecopter::story::Story;
use takecopter::workspace::{empty_workspace, StoredWorkspace, Workspace};

fn data_story(id: &str, updated_at: &str) -> Story {
    Story {
        id: id.to_string(),
        title: format!("title {id}"),
        description: String::new(),
        updated_at: updated_at.to_string(),
        cover_color: String::new(),
    }
}

fn data_entry(id: &str, updated_at: &str) -> StoryManifestEntry {
    StoryManifestEntry { story: data_story(id, updated_at), folder_name: format!("f-{id}") }
}

fn data_workspace(mark: i64) -> Workspace {
    Workspace { settings: vec![Value::from(mark)], tree: vec![], library: default_library() }
}

fn data_ids(entries: &[StoryManifestEntry]) -> Vec<String> {
    entries.iter().map(|e| e.story.id.clone()).collect()
}

#[test]
fn stories_are_sorted_newest_first() {
    let mut entries = vec![
        data_entry("a", "2024-01-01T00:00:00Z"),
        data_entry("b", "2024-03-01T00:00:00Z"),
        data_entry("c", "2024-02-01T00:00:00Z"),
        data_entry("d", "2023-12-31T23:59:59Z"),
    ];
    sort_by_recency(&mut entries);
    assert_eq!(data_ids(&entries), vec!["b", "c", "a", "d"]);
    assert_eq!(entries[1].folder_name, "f-c");
}

#[test]
fn stories_of_the_same_time_keep_their_order() {
    let mut entries = vec![
        data_entry("a", "t2"),
        data_entry("b", "t1"),
        data_entry("c", "t2"),
        data_entry("d", "t1"),
        data_entry("e", "t3"),
        data_entry("f", "t2"),
    ];
    sort_by_recency(&mut entries);
    assert_eq!(data_ids(&entries), vec!["e", "a", "c", "f", "b", "d"]);
}

#[test]
fn sorting_agrees_with_a_stable_descending_sort() {
    let stamps = ["b", "a", "", "c", "b", "ab", "a", "c", "b", "", "é", "Z"];
    let mut entries: Vec<StoryManifestEntry> =
        stamps.iter().enumerate().map(|(i, s)| data_entry(&i.to_string(), s)).collect();
    let mut expected = entries.clone();
    expected.sort_by(|a, b| b.story.updated_at.cmp(&a.story.updated_at));
    sort_by_recency(&mut entries);
    assert_eq!(entries, expected);
}

#[test]
fn sorting_nothing_or_one_story_changes_nothing() {
    let mut none: Vec<StoryManifestEntry> = vec![];
    sort_by_recency(&mut none);
    assert!(none.is_empty());
    let mut one = vec![data_entry("a", "t")];
    sort_by_recency(&mut one);
    assert_eq!(one, vec![data_entry("a", "t")]);
}

#[test]
fn sorting_a_sorted_list_changes_nothing() {
    let mut entries =
        vec![data_entry("a", "t3"), data_entry("b", "t2"), data_entry("c", "t2"), data_entry("d", "t1")];
    let before = entries.clone();
    sort_by_recency(&mut entries);
    assert_eq!(entries, before);
}

#[test]
fn legacy_database_is_moved_only_where_the_new_one_is_missing() {
    assert!(needs_legacy_migration(false, true));
    assert!(!needs_legacy_migration(true, true));
    assert!(!needs_legacy_migration(false, false));
    assert!(!needs_legacy_migration(true, false));
}

fn data_manifest(entries: Vec<StoryManifestEntry>) -> ProjectManifest {
    ProjectManifest {
        app: "takecopter".to_string(),
        schema_version: 1,
        created_at: "c".to_string(),
        shared_library: SettingLibrary {
            tags: vec![],
            categories: vec!["shared".to_string()],
            templates: vec![],
        },
        stories: entries,
    }
}

fn data_row(mark: i64) -> FolderContent {
    FolderContent::Row(StoredWorkspace {
        settings_json: format!("[{mark}]"),
        tree_json: "[]".to_string(),
        library: Some(default_library()),
    })
}

fn data_folders(contents: Vec<(&str, FolderContent)>) -> StoryFolders {
    let mut folders = StoryFolders::new();
    for (name, content) in contents {
        folders.insert(name.to_string(), content);
    }
    folders
}

#[test]
fn load_project_data_lists_stories_newest_first_with_their_workspaces() {
    let manifest = data_manifest(vec![
        data_entry("a", "t1"),
        data_entry("b", "t3"),
        data_entry("c", "t2"),
    ]);
    let folders =
        data_folders(vec![("f-a", data_row(1)), ("f-b", data_row(2)), ("f-c", data_row(3))]);
    let load = load_project_data("/r", manifest, folders);
    assert!(load.migrations.is_empty());
    let data = load.data.unwrap();
    assert_eq!(data.stories, vec![data_story("b", "t3"), data_story("c", "t2"), data_story("a", "t1")]);
    assert_eq!(data.workspaces.get("a"), Some(&data_workspace(1)));
    assert_eq!(data.workspaces.get("b"), Some(&data_workspace(2)));
    assert_eq!(data.workspaces.get("c"), Some(&data_workspace(3)));
    assert_eq!(data.workspaces.get("d"), None);
    assert!(data.workspaces.contains_key("a"));
    assert!(!data.workspaces.contains_key(""));
    assert_eq!(data.shared_library.categories, vec!["shared"]);
}

#[test]
fn load_project_data_of_no_stories_is_empty() {
    let load = load_project_data("/r", data_manifest(vec![]), data_folders(vec![("stray", data_row(1))]));
    assert!(load.migrations.is_empty());
    let data = load.data.unwrap();
    assert!(data.stories.is_empty());
    assert!(!data.workspaces.contains_key("a"));
    assert!(!data.workspaces.contains_key("stray"));
}

#[test]
fn a_story_without_a_row_loads_with_an_empty_workspace() {
    let manifest = data_manifest(vec![
        data_entry("a", "t1"),
        data_entry("b", "t2"),
        data_entry("c", "t3"),
    ]);
    let folders = data_folders(vec![("f-b", data_row(7)), ("f-c", FolderContent::Empty)]);
    let data = load_project_data("/r", manifest, folders).data.unwrap();
    assert_eq!(data.workspaces.get("a"), Some(&empty_workspace()));
    assert_eq!(data.workspaces.get("b"), Some(&data_workspace(7)));
    assert_eq!(data.workspaces.get("c"), Some(&empty_workspace()));
}

#[test]
fn of_two_stories_with_one_id_the_older_ones_workspace_counts() {
    let manifest = data_manifest(vec![
        StoryManifestEntry { story: data_story("same", "t1"), folder_name: "older".to_string() },
        StoryManifestEntry { story: data_story("same", "t2"), folder_name: "newer".to_string() },
    ]);
    let folders = data_folders(vec![("older", data_row(1)), ("newer", data_row(2))]);
    let data = load_project_data("/r", manifest, folders).data.unwrap();
    assert_eq!(data.stories.len(), 2);
    assert_eq!(data.stories[0].updated_at, "t2");
    assert_eq!(data.workspaces.get("same"), Some(&data_workspace(1)));
}

#[test]
fn the_first_story_that_cannot_be_read_in_listing_order_fails_the_load() {
    let manifest = data_manifest(vec![
        data_entry("a", "t1"),
        data_entry("b", "t3"),
        data_entry("c", "t2"),
    ]);
    let bad_settings = FolderContent::Row(StoredWorkspace {
        settings_json: "oops".to_string(),
        tree_json: "[]".to_string(),
        library: None,
    });
    let bad_tree = FolderContent::Row(StoredWorkspace {
        settings_json: "[]".to_string(),
        tree_json: "{".to_string(),
        library: None,
    });
    let folders = data_folders(vec![("f-a", bad_settings), ("f-b", data_row(2)), ("f-c", bad_tree)]);
    match load_project_data("/r", manifest, folders).data {
        Err(ProjectError::ParseFailure(JsonText::Tree, detail)) => assert!(!detail.is_empty()),
        Err(other) => panic!("unexpected failure {other:?}"),
        Ok(_) => panic!("the load went through"),
    }
}

#[test]
fn a_database_that_cannot_be_read_fails_the_load_in_its_turn() {
    let unreadable = || FolderContent::Unreadable("读取故事工作区失败: locked".to_string());
    let manifest = data_manifest(vec![data_entry("a", "t1"), data_entry("b", "t2")]);
    let bad_settings = FolderContent::Row(StoredWorkspace {
        settings_json: "oops".to_string(),
        tree_json: "[]".to_string(),
        library: None,
    });
    let load = load_project_data(
        "/r",
        manifest,
        data_folders(vec![("f-a", bad_settings), ("f-b", unreadable())]),
    );
    assert_eq!(
        load.data.err(),
        Some(ProjectError::IoFailure("读取故事工作区失败: locked".to_string()))
    );
    let manifest = data_manifest(vec![data_entry("a", "t2"), data_entry("b", "t1")]);
    let bad_settings = FolderContent::Row(StoredWorkspace {
        settings_json: "oops".to_string(),
        tree_json: "[]".to_string(),
        library: None,
    });
    let load = load_project_data(
        "/r",
        manifest,
        data_folders(vec![("f-a", bad_settings), ("f-b", unreadable())]),
    );
    assert!(matches!(load.data, Err(ProjectError::ParseFailure(JsonText::Settings, _))));
}

#[test]
fn a_folder_named_by_the_id_is_renamed_and_read_on_load() {
    let manifest = data_manifest(vec![
        StoryManifestEntry {
            story: data_story("11111111-2222", "t1"),
            folder_name: "old-tale-11111111".to_string(),
        },
        data_entry("b", "t2"),
    ]);
    let folders = data_folders(vec![("11111111-2222", data_row(5)), ("f-b", data_row(6))]);
    let load = load_project_data("/r", manifest, folders);
    assert_eq!(load.migrations.len(), 1);
    assert_eq!(load.migrations[0].from.base, "/r");
    assert_eq!(load.migrations[0].from.parts, vec!["stories", "11111111-2222"]);
    assert_eq!(load.migrations[0].to.base, "/r");
    assert_eq!(load.migrations[0].to.parts, vec!["stories", "old-tale-11111111"]);
    let data = load.data.unwrap();
    assert_eq!(data.workspaces.get("11111111-2222"), Some(&data_workspace(5)));
    assert_eq!(data.workspaces.get("b"), Some(&data_workspace(6)));
}

#[test]
fn a_story_with_its_own_folder_is_not_migrated() {
    let manifest = data_manifest(vec![StoryManifestEntry {
        story: data_story("11111111-2222", "t1"),
        folder_name: "old-tale-11111111".to_string(),
    }]);
    let folders =
        data_folders(vec![("11111111-2222", data_row(5)), ("old-tale-11111111", data_row(6))]);
    let load = load_project_data("/r", manifest, folders);
    assert!(load.migrations.is_empty());
    assert_eq!(load.data.unwrap().workspaces.get("11111111-2222"), Some(&data_workspace(6)));
}

#[test]
fn renames_ordered_before_a_failure_are_still_handed_out() {
    let manifest = data_manifest(vec![
        StoryManifestEntry { story: data_story("id-new", "t2"), folder_name: "new".to_string() },
        StoryManifestEntry { story: data_story("id-old", "t1"), folder_name: "old".to_string() },
    ]);
    let folders = data_folders(vec![
        ("id-new", data_row(1)),
        ("id-old", FolderContent::Unreadable("broken".to_string())),
    ]);
    let load = load_project_data("/r", manifest, folders);
    assert_eq!(load.migrations.len(), 2);
    assert_eq!(load.migrations[0].to.parts, vec!["stories", "new"]);
    assert_eq!(load.migrations[1].to.parts, vec!["stories", "old"]);
    assert_eq!(load.data.err(), Some(ProjectError::IoFailure("broken".to_string())));
}

#[test]
fn a_folder_is_read_by_what_it_holds() {
    assert_eq!(read_folder(None), Ok(empty_workspace()));
    assert_eq!(read_folder(Some(&FolderContent::Empty)), Ok(empty_workspace()));
    assert_eq!(read_folder(Some(&data_row(3))), Ok(data_workspace(3)));
    assert_eq!(
        read_folder(Some(&FolderContent::Unreadable("no".to_string()))),
        Err(ProjectError::IoFailure("no".to_string()))
    );
}

#[test]
fn folders_are_kept_by_name() {
    let mut folders = StoryFolders::new();
    assert_eq!(folders.get("f"), None);
    assert!(!folders.contains("f"));
    folders.insert("f".to_string(), data_row(1));
    folders.insert("g".to_string(), FolderContent::Empty);
    folders.insert("f".to_string(), data_row(3));
    assert_eq!(folders.get("f"), Some(&data_row(3)));
    assert_eq!(folders.get("g"), Some(&FolderContent::Empty));
    assert!(folders.contains("g"));
    folders.remove("g");
    assert!(!folders.contains("g"));
    assert_eq!(folders.get("h"), None);
}

#[test]
fn workspace_map_replaces_what_was_under_an_id() {
    let mut map = WorkspaceMap::new();
    assert_eq!(map.get("a"), None);
    map.insert("a".to_string(), data_workspace(1));
    map.insert("b".to_string(), empty_workspace());
    map.insert("a".to_string(), data_workspace(3));
    assert_eq!(map.get("a"), Some(&data_workspace(3)));
    assert_eq!(map.get("b"), Some(&empty_workspace()));
    assert!(!map.contains_key("c"));
    let mut ids = map.ids();
    ids.sort();
    ids.dedup();
    assert_eq!(ids, vec!["a", "b"]);
    assert!(WorkspaceMap::new().ids().is_empty());
}

#[test]
fn ensure_project_answers_with_path_and_data() {
    let data =
        load_project_data("/r", data_manifest(vec![data_entry("a", "t1")]), data_folders(vec![("f-a", data_row(1))]))
            .data;
    let mut state = ProjectState::default();
    set_active_root(&mut state, "/home/me/project");
    let response = ensure_project(&state, Some("/elsewhere".to_string()), data);
    let response = match response {
        Ok(response) => response,
        Err(e) => panic!("unexpected failure {e:?}"),
    };
    assert_eq!(response.project_path, "/home/me/project");
    assert_eq!(response.data.stories, vec![data_story("a", "t1")]);
    assert_eq!(response.data.workspaces.get("a"), Some(&data_workspace(1)));

    let data = load_project_data("/r", data_manifest(vec![]), StoryFolders::new()).data;
    let from_file = ensure_project(&ProjectState::default(), Some("/sel".to_string()), data);
    assert_eq!(from_file.ok().map(|r| r.project_path), Some("/sel".to_string()));
}

#[test]
fn ensure_project_without_an_active_root_fails() {
    let data = load_project_data("/r", data_manifest(vec![]), StoryFolders::new()).data;
    let r = ensure_project(&ProjectState::default(), None, data);
    assert_eq!(r.err(), Some(ProjectError::NoActiveRoot));
    assert_eq!(ProjectError::NoActiveRoot.message(), "请先创建项目目录或打开已有项目");
}

#[test]
fn ensure_project_fails_as_loading_failed() {
    let mut state = ProjectState::default();
    set_active_root(&mut state, "/r");
    let r = ensure_project(&state, None, Err(ProjectError::IoFailure("读取项目元信息失败: x".to_string())));
    assert_eq!(r.err(), Some(ProjectError::IoFailure("读取项目元信息失败: x".to_string())));
}

#[test]
fn legacy_migration_renames_the_id_folder_to_the_story_folder() {
    let entry = StoryManifestEntry {
        story: data_story("11111111-2222", "t"),
        folder_name: "old-tale-11111111".to_string(),
    };
    let planned = plan_legacy_migration("/r", &entry, false, true).unwrap();
    assert_eq!(planned.from.base, "/r");
    assert_eq!(planned.from.parts, vec!["stories", "11111111-2222"]);
    assert_eq!(planned.to.base, "/r");
    assert_eq!(planned.to.parts, vec!["stories", "old-tale-11111111"]);
    assert_eq!(plan_legacy_migration("/r", &entry, true, true), None);
    assert_eq!(plan_legacy_migration("/r", &entry, false, false), None);
    assert_eq!(plan_legacy_migration("/r", &entry, true, false), None);
    let same = StoryManifestEntry { story: data_story("x", "t"), folder_name: "x".to_string() };
    assert_eq!(plan_legacy_migration("/r", &same, false, true), None);
}
