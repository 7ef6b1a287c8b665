use serde_json::Value;
use takecopter::data::{ProjectData, WorkspaceMap};
use takecopter::load::{load_project_data, FolderContent, StoryFolders};
use takecopter::error::{Document, ProjectError};
use takecopter::library::{default_library, SettingLibrary, SettingTag};
use takecopter::manifest::{empty_manifest, ProjectManifest, StoryManifestEntry};
use takecopter::stories::{create_story_with, FolderMove, FolderProbe};
use takecopter::story::{CreateStoryInput, Story};
use takecopter::transfer::{
    check_import_header, export_project, export_project_at, export_story, export_story_at,
    import_project, import_story, import_story_folders, ExportedProjectData, ExportedStoryData,
};
use takecopter::workspace::{empty_workspace, write_workspace, StoredWorkspace, Workspace};

fn transfer_story(id: &str, title: &str, updated_at: &str) -> Story {
    Story {
        id: id.to_string(),
        title: title.to_string(),
        description: "d".to_string(),
        updated_at: updated_at.to_string(),
        cover_color: "var(--rose-400)".to_string(),
    }
}

fn transfer_workspace(mark: i64) -> Workspace {
    Workspace {
        settings: vec![Value::from(mark)],
        tree: vec![Value::String(format!("tree-{mark}"))],
        library: SettingLibrary {
            tags: vec![SettingTag { name: format!("tag-{mark}"), color: "c".to_string() }],
            categories: vec![],
            templates: vec![],
        },
    }
}

fn transfer_shared() -> SettingLibrary {
    SettingLibrary { tags: vec![], categories: vec!["shared".to_string()], templates: vec![] }
}

fn transfer_data() -> ProjectData {
    let mut workspaces = WorkspaceMap::new();
    workspaces.insert("22222222-b".to_string(), transfer_workspace(2));
    workspaces.insert("11111111-a".to_string(), transfer_workspace(1));
    ProjectData {
        stories: vec![
            transfer_story("22222222-b", "Newer", "2024-02-02T00:00:00Z"),
            transfer_story("11111111-a", "Older", "2024-01-01T00:00:00Z"),
        ],
        workspaces,
        shared_library: transfer_shared(),
    }
}

fn transfer_payload(app: &str, schema_version: i64) -> ExportedProjectData {
    ExportedProjectData {
        app: app.to_string(),
        schema_version,
        exported_at: "2024-03-03T00:00:00Z".to_string(),
        data: transfer_data(),
    }
}

fn transfer_manifest() -> ProjectManifest {
    let mut m = empty_manifest("2023-12-31T00:00:00Z".to_string());
    create_story_with(
        &mut m,
        CreateStoryInput { title: "Existing".to_string(), description: "d".to_string() },
        "99999999-z".to_string(),
        "2023-12-31T00:00:00Z".to_string(),
        0,
    );
    m
}

#[test]
fn export_project_wraps_the_data_with_name_and_version() {
    let snapshot = export_project_at(transfer_data(), "2024-03-03T00:00:00Z".to_string());
    assert_eq!(snapshot.app, "takecopter");
    assert_eq!(snapshot.schema_version, 1);
    assert_eq!(snapshot.exported_at, "2024-03-03T00:00:00Z");
    assert_eq!(snapshot.data.stories.len(), 2);
    assert_eq!(snapshot.data.stories[0].title, "Newer");
    assert_eq!(snapshot.data.workspaces.get("11111111-a"), Some(&transfer_workspace(1)));
    assert_eq!(snapshot.data.shared_library, transfer_shared());
    let now = export_project(transfer_data());
    assert_eq!(now.app, "takecopter");
    assert_eq!(now.schema_version, 1);
    assert!(!now.exported_at.is_empty());
    assert_eq!(now.data.stories.len(), 2);
}

#[test]
fn export_story_takes_the_story_from_the_manifest() {
    let m = transfer_manifest();
    let snapshot =
        export_story_at(&m, "99999999-z", transfer_workspace(9), "when".to_string()).unwrap();
    assert_eq!(
        snapshot,
        ExportedStoryData {
            app: "takecopter".to_string(),
            schema_version: 1,
            exported_at: "when".to_string(),
            story: m.stories[0].story.clone(),
            workspace: transfer_workspace(9),
        }
    );
    assert_eq!(
        export_story_at(&m, "nope", transfer_workspace(9), "when".to_string()),
        Err(ProjectError::NotFound)
    );
    let now = export_story(&m, "99999999-z", empty_workspace()).unwrap();
    assert_eq!(now.story.title, "Existing");
    assert!(!now.exported_at.is_empty());
    assert_eq!(export_story(&m, "nope", empty_workspace()), Err(ProjectError::NotFound));
}

#[test]
fn import_header_must_name_the_application() {
    assert_eq!(
        check_import_header("other", 1, Document::ProjectExport),
        Err(ProjectError::InvalidSource(Document::ProjectExport))
    );
    assert_eq!(
        check_import_header("", 1, Document::StoryExport),
        Err(ProjectError::InvalidSource(Document::StoryExport))
    );
    assert_eq!(
        check_import_header("other", 99, Document::ProjectExport),
        Err(ProjectError::InvalidSource(Document::ProjectExport))
    );
}

#[test]
fn import_header_must_not_be_newer_than_the_current_schema() {
    assert_eq!(check_import_header("takecopter", 1, Document::ProjectExport), Ok(()));
    assert_eq!(check_import_header("takecopter", 0, Document::ProjectExport), Ok(()));
    assert_eq!(check_import_header("takecopter", -5, Document::StoryExport), Ok(()));
    assert_eq!(
        check_import_header("takecopter", 2, Document::ProjectExport),
        Err(ProjectError::VersionTooNew(Document::ProjectExport))
    );
    assert_eq!(
        check_import_header("takecopter", i64::MAX, Document::StoryExport),
        Err(ProjectError::VersionTooNew(Document::StoryExport))
    );
}

#[test]
fn import_project_with_a_newer_schema_fails_and_leaves_the_manifest() {
    let mut m = transfer_manifest();
    let before = m.clone();
    assert_eq!(
        import_project(&mut m, transfer_payload("takecopter", 2)),
        Err(ProjectError::VersionTooNew(Document::ProjectExport))
    );
    assert_eq!(m, before);
}

#[test]
fn import_project_from_another_application_fails_and_leaves_the_manifest() {
    let mut m = transfer_manifest();
    let before = m.clone();
    assert_eq!(
        import_project(&mut m, transfer_payload("notes", 1)),
        Err(ProjectError::InvalidSource(Document::ProjectExport))
    );
    assert_eq!(m, before);
}

#[test]
fn import_project_replaces_stories_and_shared_library() {
    let mut m = transfer_manifest();
    let writes = import_project(&mut m, transfer_payload("takecopter", 1)).unwrap();
    assert_eq!(m.created_at, "2023-12-31T00:00:00Z");
    assert_eq!(m.shared_library, transfer_shared());
    assert_eq!(
        m.stories,
        vec![
            StoryManifestEntry {
                story: transfer_story("22222222-b", "Newer", "2024-02-02T00:00:00Z"),
                folder_name: "newer-22222222".to_string(),
            },
            StoryManifestEntry {
                story: transfer_story("11111111-a", "Older", "2024-01-01T00:00:00Z"),
                folder_name: "older-11111111".to_string(),
            },
        ]
    );
    assert_eq!(writes.len(), 2);
    assert_eq!(writes[0].folder_name, "newer-22222222");
    assert_eq!(writes[0].workspace, transfer_workspace(2));
    assert_eq!(writes[1].folder_name, "older-11111111");
    assert_eq!(writes[1].workspace, transfer_workspace(1));
}

#[test]
fn import_project_gives_a_story_without_workspace_an_empty_one() {
    let mut workspaces = WorkspaceMap::new();
    workspaces.insert("unrelated".to_string(), transfer_workspace(5));
    let payload = ExportedProjectData {
        app: "takecopter".to_string(),
        schema_version: 1,
        exported_at: "t".to_string(),
        data: ProjectData {
            stories: vec![transfer_story("abc", "Lonely", "t")],
            workspaces,
            shared_library: default_library(),
        },
    };
    let mut m = empty_manifest("c".to_string());
    let writes = import_project(&mut m, payload).unwrap();
    assert_eq!(writes.len(), 1);
    assert_eq!(writes[0].folder_name, "lonely-abc");
    assert_eq!(writes[0].workspace, empty_workspace());
}

#[test]
fn export_then_import_into_an_empty_root_reproduces_the_project() {
    let exported = transfer_data();
    let snapshot = export_project_at(transfer_data(), "2024-03-03T00:00:00Z".to_string());
    let mut m = empty_manifest("2024-03-04T00:00:00Z".to_string());
    let writes = import_project(&mut m, snapshot).unwrap();
    let mut folders = StoryFolders::new();
    for write in &writes {
        let encoded = write_workspace(&write.workspace).unwrap();
        folders.insert(
            write.folder_name.clone(),
            FolderContent::Row(StoredWorkspace {
                settings_json: encoded.settings_json,
                tree_json: encoded.tree_json,
                library: Some(write.workspace.library.clone()),
            }),
        );
    }
    let load = load_project_data("/r", m, folders);
    assert!(load.migrations.is_empty());
    let again = load.data.unwrap();
    assert_eq!(again.stories, exported.stories);
    assert_eq!(again.shared_library, exported.shared_library);
    for story in &exported.stories {
        assert_eq!(again.workspaces.get(&story.id), exported.workspaces.get(&story.id));
        assert!(again.workspaces.get(&story.id).is_some());
    }
    assert!(!again.workspaces.contains_key("unknown"));
}

fn transfer_probe(old_exists: bool, next_exists: bool) -> FolderProbe {
    FolderProbe { old_exists, next_exists }
}

fn transfer_story_payload(schema_version: i64, story: Story, mark: i64) -> ExportedStoryData {
    ExportedStoryData {
        app: "takecopter".to_string(),
        schema_version,
        exported_at: "t".to_string(),
        story,
        workspace: transfer_workspace(mark),
    }
}

#[test]
fn import_story_appends_an_unknown_story() {
    let mut m = transfer_manifest();
    let payload = transfer_story_payload(1, transfer_story("abcdef0123456", "Brand New", "u"), 3);
    assert_eq!(import_story_folders(&m, &payload), None);
    let import = import_story(&mut m, payload, transfer_probe(false, false)).unwrap();
    assert_eq!(import.write.folder_name, "brand-new-abcdef01");
    assert_eq!(import.write.workspace, transfer_workspace(3));
    assert_eq!(import.folder_move, None);
    assert_eq!(m.stories.len(), 2);
    assert_eq!(m.stories[0].story.id, "99999999-z");
    assert_eq!(m.stories[1].story, transfer_story("abcdef0123456", "Brand New", "u"));
    assert_eq!(m.stories[1].folder_name, "brand-new-abcdef01");
}

#[test]
fn import_story_replaces_a_known_story_and_derives_its_folder_anew() {
    let mut m = transfer_manifest();
    let payload =
        transfer_story_payload(0, transfer_story("99999999-z", "Renamed Elsewhere", "u"), 4);
    assert_eq!(
        import_story_folders(&m, &payload),
        Some(FolderMove {
            from: "existing-99999999".to_string(),
            to: "renamed-elsewhere-99999999".to_string()
        })
    );
    let import = import_story(&mut m, payload, transfer_probe(true, false)).unwrap();
    assert_eq!(import.write.folder_name, "renamed-elsewhere-99999999");
    assert_eq!(import.write.workspace, transfer_workspace(4));
    assert_eq!(
        import.folder_move,
        Some(FolderMove {
            from: "existing-99999999".to_string(),
            to: "renamed-elsewhere-99999999".to_string()
        })
    );
    assert_eq!(m.stories.len(), 1);
    assert_eq!(m.stories[0].story.title, "Renamed Elsewhere");
    assert_eq!(m.stories[0].folder_name, "renamed-elsewhere-99999999");
}

#[test]
fn import_story_under_the_same_title_keeps_the_folder() {
    let mut m = transfer_manifest();
    let payload = transfer_story_payload(1, transfer_story("99999999-z", "Existing", "later"), 5);
    let import = import_story(&mut m, payload, transfer_probe(true, true)).unwrap();
    assert_eq!(import.folder_move, None);
    assert_eq!(import.write.folder_name, "existing-99999999");
    assert_eq!(m.stories[0].story.updated_at, "later");
    assert_eq!(m.stories[0].folder_name, "existing-99999999");
}

#[test]
fn import_story_onto_a_taken_folder_moves_nothing_and_writes_there() {
    for old_exists in [true, false] {
        let mut m = transfer_manifest();
        let payload =
            transfer_story_payload(1, transfer_story("99999999-z", "Renamed Elsewhere", "u"), 4);
        let import = import_story(&mut m, payload, transfer_probe(old_exists, true)).unwrap();
        assert_eq!(import.folder_move, None);
        assert_eq!(import.write.folder_name, "renamed-elsewhere-99999999");
        assert_eq!(import.write.workspace, transfer_workspace(4));
        assert_eq!(m.stories.len(), 1);
        assert_eq!(m.stories[0].story, transfer_story("99999999-z", "Renamed Elsewhere", "u"));
        assert_eq!(m.stories[0].folder_name, "renamed-elsewhere-99999999");
    }
}

#[test]
fn import_story_without_a_folder_on_disk_moves_nothing() {
    let mut m = transfer_manifest();
    let payload =
        transfer_story_payload(1, transfer_story("99999999-z", "Renamed Elsewhere", "u"), 4);
    let import = import_story(&mut m, payload, transfer_probe(false, false)).unwrap();
    assert_eq!(import.folder_move, None);
    assert_eq!(m.stories[0].folder_name, "renamed-elsewhere-99999999");
}

#[test]
fn import_story_leaves_the_other_entries_alone() {
    let mut m = transfer_manifest();
    create_story_with(
        &mut m,
        CreateStoryInput { title: "Second".to_string(), description: "d".to_string() },
        "88888888-y".to_string(),
        "t".to_string(),
        1,
    );
    let second = m.stories[1].clone();
    let payload = transfer_story_payload(1, transfer_story("99999999-z", "Changed", "u"), 4);
    import_story(&mut m, payload, transfer_probe(true, true)).unwrap();
    assert_eq!(m.stories.len(), 2);
    assert_eq!(m.stories[0].story.title, "Changed");
    assert_eq!(m.stories[1], second);
}

#[test]
fn import_story_keeps_every_folder_name_derived() {
    let mut m = transfer_manifest();
    let payload = transfer_story_payload(1, transfer_story("99999999-z", "Another Name", "u"), 4);
    import_story(&mut m, payload, transfer_probe(false, false)).unwrap();
    let payload = transfer_story_payload(1, transfer_story("77777777-y", "Fresh", "u"), 4);
    import_story(&mut m, payload, transfer_probe(false, false)).unwrap();
    for entry in &m.stories {
        assert_eq!(
            entry.folder_name,
            takecopter::slug::make_story_folder_name(&entry.story.title, &entry.story.id)
        );
    }
}

#[test]
fn import_story_is_refused_by_its_header() {
    let mut m = transfer_manifest();
    let before = m.clone();
    let newer = transfer_story_payload(2, transfer_story("x", "X", "u"), 0);
    assert_eq!(
        import_story(&mut m, newer, transfer_probe(false, false)),
        Err(ProjectError::VersionTooNew(Document::StoryExport))
    );
    let mut foreign = transfer_story_payload(1, transfer_story("x", "X", "u"), 0);
    foreign.app = "TAKECOPTER".to_string();
    assert_eq!(
        import_story(&mut m, foreign, transfer_probe(false, false)),
        Err(ProjectError::InvalidSource(Document::StoryExport))
    );
    assert_eq!(m, before);
}
