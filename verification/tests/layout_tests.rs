use takecopter::layout::{
    decimal_string, ensure_root_layout, ensure_root_layout_at, lock_file_content, open_story_db,
};
use takecopter::library::default_library;
use takecopter::paths::{
    backup_path, default_root_path, exports_root, legacy_story_root, lock_file_path,
    project_export_path, project_manifest_path, selection_file_path, stories_root,
    story_db_path, story_export_path, story_images_path, story_root, story_videos_path,
    ProjectPath,
};

fn layout_path(base: &str, parts: &[&str]) -> ProjectPath {
    ProjectPath { base: base.to_string(), parts: parts.iter().map(|p| p.to_string()).collect() }
}

#[test]
fn decimal_string_writes_numbers_without_leading_zeros() {
    assert_eq!(decimal_string(0), "0");
    assert_eq!(decimal_string(7), "7");
    assert_eq!(decimal_string(10), "10");
    assert_eq!(decimal_string(109), "109");
    assert_eq!(decimal_string(4_294_967_295), "4294967295");
    for n in [1u32, 9, 11, 99, 100, 12345, 1_000_000] {
        assert_eq!(decimal_string(n), n.to_string());
    }
}

#[test]
fn lock_content_names_process_and_time() {
    assert_eq!(
        lock_file_content(4242, "2024-01-02T03:04:05Z"),
        "pid=4242\nupdated_at=2024-01-02T03:04:05Z\n"
    );
    assert_eq!(lock_file_content(0, ""), "pid=0\nupdated_at=\n");
}

#[test]
fn root_layout_of_a_new_root_includes_an_empty_manifest() {
    let layout = ensure_root_layout_at("/r", false, 12, "2024-01-02T03:04:05Z".to_string());
    assert_eq!(
        layout.directories,
        vec![layout_path("/r", &["stories"]), layout_path("/r", &["exports"])]
    );
    assert_eq!(layout.lock_file, layout_path("/r", &[".lock"]));
    assert_eq!(layout.lock_content, "pid=12\nupdated_at=2024-01-02T03:04:05Z\n");
    assert_eq!(layout.manifest_file, layout_path("/r", &["project.json"]));
    let manifest = layout.manifest.unwrap();
    assert_eq!(manifest.app, "takecopter");
    assert_eq!(manifest.schema_version, 1);
    assert_eq!(manifest.created_at, "2024-01-02T03:04:05Z");
    assert_eq!(manifest.shared_library, default_library());
    assert!(manifest.stories.is_empty());
}

#[test]
fn root_layout_of_a_root_with_manifest_writes_none() {
    let layout = ensure_root_layout_at("/r", true, 12, "t".to_string());
    assert_eq!(layout.manifest, None);
    assert_eq!(layout.directories.len(), 2);
    assert_eq!(layout.lock_content, "pid=12\nupdated_at=t\n");
}

#[test]
fn root_layout_is_the_same_when_asked_again() {
    let first = ensure_root_layout_at("/r", true, 1, "t".to_string());
    let second = ensure_root_layout_at("/r", true, 1, "t".to_string());
    assert_eq!(first, second);
}

#[test]
fn root_layout_as_of_now_stamps_lock_and_manifest() {
    let layout = ensure_root_layout("/r", false, 77);
    assert!(layout.lock_content.starts_with("pid=77\nupdated_at="));
    assert!(layout.lock_content.ends_with("Z\n"));
    let manifest = layout.manifest.unwrap();
    assert_eq!(layout.lock_content, format!("pid=77\nupdated_at={}\n", manifest.created_at));
    assert_eq!(ensure_root_layout("/r", true, 77).manifest, None);
}

#[test]
fn story_database_needs_its_folder_and_asset_folders() {
    assert_eq!(
        open_story_db("/r", "tale-12345678"),
        vec![
            layout_path("/r", &["stories", "tale-12345678"]),
            layout_path("/r", &["stories", "tale-12345678", "assets", "images"]),
            layout_path("/r", &["stories", "tale-12345678", "assets", "videos"]),
        ]
    );
}

#[test]
fn places_inside_a_root() {
    assert_eq!(project_manifest_path("/r"), layout_path("/r", &["project.json"]));
    assert_eq!(lock_file_path("/r"), layout_path("/r", &[".lock"]));
    assert_eq!(stories_root("/r"), layout_path("/r", &["stories"]));
    assert_eq!(exports_root("/r"), layout_path("/r", &["exports"]));
    assert_eq!(story_root("/r", "f"), layout_path("/r", &["stories", "f"]));
    assert_eq!(story_db_path("/r", "f"), layout_path("/r", &["stories", "f", "story.db"]));
    assert_eq!(
        legacy_story_root("/r", "some-id"),
        layout_path("/r", &["stories", "some-id"])
    );
    assert_eq!(
        story_images_path("/r", "f"),
        layout_path("/r", &["stories", "f", "assets", "images"])
    );
    assert_eq!(
        story_videos_path("/r", "f"),
        layout_path("/r", &["stories", "f", "assets", "videos"])
    );
}

#[test]
fn places_under_the_application_data_directory() {
    assert_eq!(
        default_root_path("/data"),
        layout_path("/data", &["takecopter", "projects", "default.takecopter"])
    );
    assert_eq!(
        selection_file_path("/data"),
        layout_path("/data", &["takecopter", "active_root_path.txt"])
    );
}

#[test]
fn export_files_carry_the_time_stamp() {
    assert_eq!(
        project_export_path("/r", "20240102-030405"),
        layout_path("/r", &["exports", "takecopter-project-20240102-030405.json"])
    );
    assert_eq!(
        story_export_path("/r", "id-1", "20240102-030405"),
        layout_path("/r", &["exports", "takecopter-story-id-1-20240102-030405.json"])
    );
    assert_eq!(
        backup_path("/r", "20240102-030405"),
        layout_path("/r", &["exports", "backup-20240102-030405"])
    );
}

#[test]
fn a_path_grows_by_joining_names() {
    let p = ProjectPath::new("/base").join("a").join("b");
    assert_eq!(p, layout_path("/base", &["a", "b"]));
    assert_eq!(p.clone(), p);
    assert_eq!(ProjectPath::new(""), layout_path("", &[]));
}

#[test]
fn local_exports_go_under_the_exports_directory() {
    let project = takecopter::local::export_project_to_local("/r");
    assert_eq!(project.directory, layout_path("/r", &["exports"]));
    assert_eq!(project.target.base, "/r");
    assert_eq!(project.target.parts.len(), 2);
    assert_eq!(project.target.parts[0], "exports");
    let name = &project.target.parts[1];
    assert!(name.starts_with("takecopter-project-"));
    assert!(name.ends_with(".json"));
    assert_eq!(name.len(), "takecopter-project-".len() + "20240102-030405".len() + ".json".len());

    let story = takecopter::local::export_story_to_local("/r", "id-1");
    assert_eq!(story.directory, layout_path("/r", &["exports"]));
    assert!(story.target.parts[1].starts_with("takecopter-story-id-1-"));
    assert!(story.target.parts[1].ends_with(".json"));

    let backup = takecopter::local::backup_local_database("/r");
    assert_eq!(backup.directory, layout_path("/r", &["exports"]));
    assert!(backup.target.parts[1].starts_with("backup-"));
    assert_eq!(backup.target.parts[1].len(), "backup-".len() + "20240102-030405".len());
}

#[test]
fn story_places_to_show_come_from_the_manifest() {
    let mut m = takecopter::manifest::empty_manifest("t".to_string());
    takecopter::stories::create_story_with(
        &mut m,
        takecopter::story::CreateStoryInput { title: "Tale".to_string(), description: String::new() },
        "12345678-abcd".to_string(),
        "t".to_string(),
        0,
    );
    assert_eq!(
        takecopter::local::open_story_folder(&m, "/r", "12345678-abcd"),
        Ok(layout_path("/r", &["stories", "tale-12345678"]))
    );
    assert_eq!(
        takecopter::local::open_story_database(&m, "/r", "12345678-abcd"),
        Ok(layout_path("/r", &["stories", "tale-12345678", "story.db"]))
    );
    assert_eq!(
        takecopter::local::open_story_folder(&m, "/r", "nope"),
        Err(takecopter::error::ProjectError::NotFound)
    );
    assert_eq!(
        takecopter::local::open_story_database(&m, "/r", "nope"),
        Err(takecopter::error::ProjectError::NotFound)
    );
}
