use takecopter::error::{Document, JsonText, ProjectError};
use takecopter::library::default_library;
use takecopter::manifest::{
    derive_entries, empty_manifest, find_story_entry, find_story_entry_mut, find_story_index,
    migrate_legacy_manifest, read_manifest, LegacyProjectManifest, ProjectManifest,
    StoryManifestEntry,
};
use takecopter::story::Story;

fn manifest_story(id: &str, title: &str, updated_at: &str) -> Story {
    Story {
        id: id.to_string(),
        title: title.to_string(),
        description: format!("about {title}"),
        updated_at: updated_at.to_string(),
        cover_color: "var(--teal-400)".to_string(),
    }
}

fn manifest_of(stories: Vec<(Story, &str)>) -> ProjectManifest {
    ProjectManifest {
        app: "takecopter".to_string(),
        schema_version: 1,
        created_at: "2024-01-01T00:00:00Z".to_string(),
        shared_library: default_library(),
        stories: stories
            .into_iter()
            .map(|(story, folder)| StoryManifestEntry { story, folder_name: folder.to_string() })
            .collect(),
    }
}

#[test]
fn empty_manifest_names_the_application_and_holds_nothing() {
    let m = empty_manifest("2024-05-06T07:08:09Z".to_string());
    assert_eq!(m.app, "takecopter");
    assert_eq!(m.schema_version, 1);
    assert_eq!(m.created_at, "2024-05-06T07:08:09Z");
    assert_eq!(m.shared_library, default_library());
    assert!(m.stories.is_empty());
}

#[test]
fn find_story_entry_finds_by_id() {
    let m = manifest_of(vec![
        (manifest_story("id-1", "One", "t1"), "one-id-1"),
        (manifest_story("id-2", "Two", "t2"), "two-id-2"),
    ]);
    let entry = find_story_entry(&m, "id-2").unwrap();
    assert_eq!(entry.story.title, "Two");
    assert_eq!(entry.folder_name, "two-id-2");
    assert_eq!(find_story_index(&m, "id-1"), Some(0));
    assert_eq!(find_story_index(&m, "id-2"), Some(1));
}

#[test]
fn find_story_entry_of_an_unknown_id_is_none() {
    let m = manifest_of(vec![(manifest_story("id-1", "One", "t1"), "one-id-1")]);
    assert!(find_story_entry(&m, "id-9").is_none());
    assert!(find_story_entry(&m, "").is_none());
    assert!(find_story_entry(&m, "id-").is_none());
    assert_eq!(find_story_index(&m, "ID-1"), None);
    let empty = manifest_of(vec![]);
    assert!(find_story_entry(&empty, "id-1").is_none());
}

#[test]
fn find_story_entry_takes_the_first_of_two_with_one_id() {
    let m = manifest_of(vec![
        (manifest_story("same", "First", "t1"), "first"),
        (manifest_story("same", "Second", "t2"), "second"),
    ]);
    assert_eq!(find_story_entry(&m, "same").unwrap().story.title, "First");
    assert_eq!(find_story_index(&m, "same"), Some(0));
}

#[test]
fn find_story_entry_mut_changes_that_entry_alone() {
    let mut m = manifest_of(vec![
        (manifest_story("id-1", "One", "t1"), "one-id-1"),
        (manifest_story("id-2", "Two", "t2"), "two-id-2"),
    ]);
    {
        let entry = find_story_entry_mut(&mut m, "id-2").unwrap();
        entry.story.title = "Changed".to_string();
        entry.folder_name = "changed".to_string();
    }
    assert_eq!(m.stories[0].story.title, "One");
    assert_eq!(m.stories[0].folder_name, "one-id-1");
    assert_eq!(m.stories[1].story.title, "Changed");
    assert_eq!(m.stories[1].folder_name, "changed");
    assert!(find_story_entry_mut(&mut m, "id-3").is_none());
}

#[test]
fn derive_entries_names_each_folder_after_title_and_id() {
    let entries = derive_entries(vec![
        manifest_story("123e4567-e89b", "My Story", "t1"),
        manifest_story("ab", "", "t2"),
    ]);
    assert_eq!(entries.len(), 2);
    assert_eq!(entries[0].folder_name, "my-story-123e4567");
    assert_eq!(entries[0].story, manifest_story("123e4567-e89b", "My Story", "t1"));
    assert_eq!(entries[1].folder_name, "story-ab");
}

#[test]
fn legacy_manifest_is_migrated_to_folder_name_entries() {
    let legacy = LegacyProjectManifest {
        app: "takecopter".to_string(),
        schema_version: 1,
        created_at: "2023-01-01T00:00:00Z".to_string(),
        stories: vec![
            manifest_story("11111111-2222", "Old Tale", "t1"),
            manifest_story("33333333-4444", "另一个", "t2"),
        ],
    };
    let m = read_manifest(None, Ok(legacy)).unwrap();
    assert_eq!(m.app, "takecopter");
    assert_eq!(m.created_at, "2023-01-01T00:00:00Z");
    assert_eq!(m.schema_version, 1);
    assert_eq!(m.shared_library, default_library());
    assert_eq!(m.stories.len(), 2);
    assert_eq!(m.stories[0].folder_name, "old-tale-11111111");
    assert_eq!(m.stories[0].story, manifest_story("11111111-2222", "Old Tale", "t1"));
    assert_eq!(m.stories[1].folder_name, "story-33333333");
}

#[test]
fn migrate_legacy_manifest_keeps_header_fields() {
    let legacy = LegacyProjectManifest {
        app: "other".to_string(),
        schema_version: 0,
        created_at: "then".to_string(),
        stories: vec![],
    };
    let m = migrate_legacy_manifest(legacy);
    assert_eq!(m.app, "other");
    assert_eq!(m.schema_version, 0);
    assert_eq!(m.created_at, "then");
    assert!(m.stories.is_empty());
}

#[test]
fn read_manifest_prefers_the_current_schema() {
    let current = manifest_of(vec![(manifest_story("id-1", "One", "t1"), "kept-folder")]);
    let legacy = LegacyProjectManifest {
        app: "takecopter".to_string(),
        schema_version: 1,
        created_at: "x".to_string(),
        stories: vec![],
    };
    let m = read_manifest(Some(current), Ok(legacy)).unwrap();
    assert_eq!(m.stories.len(), 1);
    assert_eq!(m.stories[0].folder_name, "kept-folder");
    let again = manifest_of(vec![]);
    assert!(read_manifest(Some(again), Err("unused".to_string())).is_ok());
}

#[test]
fn read_manifest_rejects_another_application() {
    let mut current = manifest_of(vec![]);
    current.app = "someone-else".to_string();
    assert_eq!(
        read_manifest(Some(current), Err("unused".to_string())),
        Err(ProjectError::InvalidSource(Document::Manifest))
    );
    let legacy = LegacyProjectManifest {
        app: "Takecopter".to_string(),
        schema_version: 1,
        created_at: "x".to_string(),
        stories: vec![],
    };
    assert_eq!(
        read_manifest(None, Ok(legacy)),
        Err(ProjectError::InvalidSource(Document::Manifest))
    );
}

#[test]
fn read_manifest_reports_a_file_that_reads_in_neither_schema() {
    let r = read_manifest(None, Err("expected value at line 1 column 1".to_string()));
    assert_eq!(
        r,
        Err(ProjectError::ParseFailure(
            JsonText::Manifest,
            "expected value at line 1 column 1".to_string()
        ))
    );
    assert_eq!(
        r.unwrap_err().message(),
        "解析项目元信息失败: expected value at line 1 column 1"
    );
}
