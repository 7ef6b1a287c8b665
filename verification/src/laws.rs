//! What holds of the library's operations taken together.

use vstd::prelude::*;
use crate::error::{Document, ProjectErrorView};
use crate::manifest::{
    app_name, derived_entry, empty_manifest_view, folders_are_derived, is_first_match,
    lemma_story_position_found, lemma_story_position_is_first, manifest_read, migrated_view,
    story_position, LegacyProjectManifestView, ProjectManifestView,
};
use crate::library::default_library_view;
use crate::slug::{folder_name_of, law_slug_ignores_surrounding_white_space};
use crate::state::root_refusal;
use crate::stories::{
    renamed, story_created, with_library, with_settings, with_tree, workspace_stored,
    FolderMoveView, FolderProbe, StoryCreationView,
};
use crate::story::CreateStoryInputView;
use crate::text::trimmed;
use crate::transfer::{imported_project, imported_story, ExportedProjectDataView, ExportedStoryDataView};
use crate::workspace::WorkspaceView;
use crate::CURRENT_SCHEMA_VERSION;

verus! {

/// A story that has just been created under an id that the manifest did not
/// know, and is then renamed to a title that is not blank: unless the new
/// folder name differs from the old one and is taken on disk, the rename
/// succeeds, the story's entry carries the folder name derived from the
/// title and the id, with or without the white space around the title,
/// and its title is the trimmed one. Where the
/// folder name changes and the story's folder exists, the folder is moved
/// from the old name to the new one.
pub proof fn law_rename_after_create(
    before: ProjectManifestView,
    input: CreateStoryInputView,
    id: Seq<char>,
    created_at: Seq<char>,
    millis: i64,
    after: ProjectManifestView,
    made: StoryCreationView,
    title: Seq<char>,
    probe: FolderProbe,
    renamed_at: Seq<char>,
)
    requires
        story_position(before.stories, id) is None,
        story_created(before, input, id, created_at, millis, after, made),
        trimmed(title).len() > 0,
        folder_name_of(trimmed(title), id) == folder_name_of(input.title, id)
            || !probe.next_exists,
    ensures
        renamed(after, id, title, probe, renamed_at) matches Ok((m, outcome)) && {
            let place = before.stories.len() as int;
            let next = folder_name_of(trimmed(title), id);
            &&& story_position(m.stories, id) == Some(place)
            &&& m.stories.len() == after.stories.len()
            &&& m.stories[place].folder_name == next
            &&& m.stories[place].folder_name == folder_name_of(title, id)
            &&& m.stories[place].story == outcome.story
            &&& outcome.story.id == id
            &&& outcome.story.title == trimmed(title)
            &&& outcome.story.updated_at == renamed_at
            &&& outcome.folder_move == if next != made.folder_name && probe.old_exists {
                Some(FolderMoveView { from: made.folder_name, to: next })
            } else {
                None
            }
            &&& made.folder_name == folder_name_of(input.title, id)
        },
{
    let place = before.stories.len() as int;
    law_slug_ignores_surrounding_white_space(title, id);
    lemma_story_position_is_first(before.stories, id);
    assert(is_first_match(after.stories, id, place)) by {
        assert forall|j: int| 0 <= j < place implies (#[trigger] after.stories[j]).story.id
            != id by {
            assert(after.stories[j] == before.stories[j]);
        }
    }
    lemma_story_position_found(after.stories, id, place);
    let m = renamed(after, id, title, probe, renamed_at)->Ok_0.0;
    assert(is_first_match(m.stories, id, place)) by {
        assert forall|j: int| 0 <= j < place implies (#[trigger] m.stories[j]).story.id != id by {
            assert(m.stories[j] == after.stories[j]);
        }
    }
    lemma_story_position_found(m.stories, id, place);
}

/// A rename whose new folder name differs from the story's present one and
/// is taken on disk is a conflict, whether or not the story's own folder
/// exists, and nothing is to be moved or changed.
pub proof fn law_rename_collision_is_conflict(
    before: ProjectManifestView,
    id: Seq<char>,
    title: Seq<char>,
    probe: FolderProbe,
    now: Seq<char>,
)
    requires
        trimmed(title).len() > 0,
        story_position(before.stories, id) matches Some(i) && before.stories[i].folder_name
            != folder_name_of(trimmed(title), id),
        probe.next_exists,
    ensures
        renamed(before, id, title, probe, now) == Err::<
            (ProjectManifestView, crate::stories::RenameOutcomeView),
            ProjectErrorView,
        >(ProjectErrorView::Conflict),
{
}

/// A rename moves a folder only where the story's present folder exists
/// and the target is free.
pub proof fn law_rename_moves_only_onto_free_names(
    before: ProjectManifestView,
    id: Seq<char>,
    title: Seq<char>,
    probe: FolderProbe,
    now: Seq<char>,
)
    ensures
        renamed(before, id, title, probe, now) matches Ok((_, outcome)) ==> (
        outcome.folder_move is Some ==> probe.old_exists && !probe.next_exists),
{
}

/// A project snapshot whose schema is newer than this library's is refused,
/// whatever the manifest holds: as too new where it names this application,
/// and as foreign where it does not.
pub proof fn law_import_refuses_newer_schema(
    before: ProjectManifestView,
    payload: ExportedProjectDataView,
)
    requires
        payload.schema_version > CURRENT_SCHEMA_VERSION,
    ensures
        imported_project(before, payload) is Err,
        payload.app == app_name() ==> imported_project(before, payload)->Err_0
            == ProjectErrorView::VersionTooNew(Document::ProjectExport),
        payload.app != app_name() ==> imported_project(before, payload)->Err_0
            == ProjectErrorView::InvalidSource(Document::ProjectExport),
{
}

/// A story snapshot whose schema is newer than this library's is refused in
/// the same way.
pub proof fn law_story_import_refuses_newer_schema(
    before: ProjectManifestView,
    payload: ExportedStoryDataView,
    probe: FolderProbe,
)
    requires
        payload.schema_version > CURRENT_SCHEMA_VERSION,
    ensures
        imported_story(before, payload, probe) is Err,
        payload.app == app_name() ==> imported_story(before, payload, probe)->Err_0
            == ProjectErrorView::VersionTooNew(Document::StoryExport),
        payload.app != app_name() ==> imported_story(before, payload, probe)->Err_0
            == ProjectErrorView::InvalidSource(Document::StoryExport),
{
}

/// Replacing one part of a stored workspace keeps the other two: new
/// settings leave tree and library, a new tree leaves settings and library,
/// a new library leaves settings and tree.
pub proof fn law_update_keeps_the_rest(
    before: ProjectManifestView,
    id: Seq<char>,
    current: WorkspaceView,
    settings: Seq<serde_json::Value>,
    tree: Seq<serde_json::Value>,
    library: crate::library::SettingLibraryView,
    now: Seq<char>,
)
    requires
        story_position(before.stories, id) is Some,
    ensures
        workspace_stored(before, id, with_settings(current, settings), now) matches Ok((_, w))
            && w.workspace.settings == settings && w.workspace.tree == current.tree
            && w.workspace.library == current.library,
        workspace_stored(before, id, with_tree(current, tree), now) matches Ok((_, w))
            && w.workspace.tree == tree && w.workspace.settings == current.settings
            && w.workspace.library == current.library,
        workspace_stored(before, id, with_library(current, library), now) matches Ok((_, w))
            && w.workspace.library == library && w.workspace.settings == current.settings
            && w.workspace.tree == current.tree,
{
}

/// A manifest file that reads only in the first schema, and names this
/// application, is accepted: every story keeps its fields and gets the
/// folder name derived from its title and id, and the shared library is
/// the default one.
pub proof fn law_legacy_manifest_is_migrated(legacy: LegacyProjectManifestView)
    requires
        legacy.app == app_name(),
    ensures
        manifest_read(None, Ok(legacy)) matches Ok(m) && {
            &&& m.stories.len() == legacy.stories.len()
            &&& forall|i: int|
                0 <= i < legacy.stories.len() ==> (#[trigger] m.stories[i]).story
                    == legacy.stories[i] && m.stories[i].folder_name == folder_name_of(
                    legacy.stories[i].title,
                    legacy.stories[i].id,
                )
            &&& m.shared_library == default_library_view()
            &&& m.created_at == legacy.created_at
            &&& m.schema_version == legacy.schema_version
        },
{
    assert(manifest_read(None, Ok(legacy)) == Ok::<ProjectManifestView, ProjectErrorView>(
        migrated_view(legacy),
    ));
}

/// A directory that does not exist and a directory that holds no manifest
/// are both refused, each with a failure of its own.
pub proof fn law_missing_root_differs_from_missing_manifest(manifest_exists: bool)
    ensures
        root_refusal(false, manifest_exists) == Some(ProjectErrorView::RootMissing),
        root_refusal(true, false) == Some(ProjectErrorView::NotAProject),
        root_refusal(false, manifest_exists) != root_refusal(true, false),
        root_refusal(true, true) is None,
{
}

/// A manifest that holds no story, one that was migrated from the first
/// schema, and one that a project was imported into carry derived folder
/// names throughout.
pub proof fn law_new_manifests_have_derived_folders(
    now: Seq<char>,
    legacy: LegacyProjectManifestView,
    before: ProjectManifestView,
    payload: ExportedProjectDataView,
)
    ensures
        folders_are_derived(empty_manifest_view(now)),
        folders_are_derived(migrated_view(legacy)),
        imported_project(before, payload) matches Ok((m, _)) ==> folders_are_derived(m),
{
}

/// Creating a story keeps every folder name derived.
pub proof fn law_create_keeps_folders_derived(
    before: ProjectManifestView,
    input: CreateStoryInputView,
    id: Seq<char>,
    now: Seq<char>,
    millis: i64,
    after: ProjectManifestView,
    made: StoryCreationView,
)
    requires
        folders_are_derived(before),
        story_created(before, input, id, now, millis, after, made),
    ensures
        folders_are_derived(after),
{
    assert forall|i: int| 0 <= i < after.stories.len() implies (#[trigger] after.stories[i])
        == derived_entry(after.stories[i].story) by {
        if i < before.stories.len() {
            assert(after.stories[i] == before.stories[i]);
        }
    }
}

/// Renaming a story, storing a workspace for it, deleting it and importing
/// a snapshot of it keep every folder name derived.
pub proof fn law_changes_keep_folders_derived(
    before: ProjectManifestView,
    id: Seq<char>,
    title: Seq<char>,
    probe: FolderProbe,
    now: Seq<char>,
    next: WorkspaceView,
    payload: ExportedStoryDataView,
)
    requires
        folders_are_derived(before),
    ensures
        renamed(before, id, title, probe, now) matches Ok((m, _)) ==> folders_are_derived(m),
        workspace_stored(before, id, next, now) matches Ok((m, _)) ==> folders_are_derived(m),
        story_position(before.stories, id) matches Some(i) ==> folders_are_derived(
            ProjectManifestView { stories: before.stories.remove(i), ..before },
        ),
        imported_story(before, payload, probe) matches Ok((m, _)) ==> folders_are_derived(m),
{
    lemma_story_position_is_first(before.stories, id);
    lemma_story_position_is_first(before.stories, payload.story.id);
    if renamed(before, id, title, probe, now) is Ok {
        let m = renamed(before, id, title, probe, now)->Ok_0.0;
        assert forall|i: int| 0 <= i < m.stories.len() implies (#[trigger] m.stories[i])
            == derived_entry(m.stories[i].story) by {
            if i != story_position(before.stories, id)->Some_0 {
                assert(m.stories[i] == before.stories[i]);
            }
        }
    }
    if workspace_stored(before, id, next, now) is Ok {
        let m = workspace_stored(before, id, next, now)->Ok_0.0;
        assert forall|i: int| 0 <= i < m.stories.len() implies (#[trigger] m.stories[i])
            == derived_entry(m.stories[i].story) by {
            assert(before.stories[i] == derived_entry(before.stories[i].story));
        }
    }
    if story_position(before.stories, id) is Some {
        let k = story_position(before.stories, id)->Some_0;
        let rest = before.stories.remove(k);
        assert forall|i: int| 0 <= i < rest.len() implies (#[trigger] rest[i]) == derived_entry(
            rest[i].story,
        ) by {
            if i < k {
                assert(rest[i] == before.stories[i]);
            } else {
                assert(rest[i] == before.stories[i + 1]);
            }
        }
    }
    if imported_story(before, payload, probe) is Ok {
        let m = imported_story(before, payload, probe)->Ok_0.0;
        assert forall|i: int| 0 <= i < m.stories.len() implies (#[trigger] m.stories[i])
            == derived_entry(m.stories[i].story) by {
            if i < before.stories.len() {
                if story_position(before.stories, payload.story.id) != Some(i) {
                    assert(m.stories[i] == before.stories[i]);
                }
            }
        }
    }
}

/// A story snapshot that names this application and is not of a newer
/// schema is always imported, whatever exists on disk: a listed story is
/// replaced in its place and the other entries stay as they are, a new
/// story is appended, and the snapshot's workspace is to be written into
/// the folder that the entry names. A folder is moved only from the story's
/// present folder, where that exists, onto a name that is free.
pub proof fn law_story_import_succeeds(
    before: ProjectManifestView,
    payload: ExportedStoryDataView,
    probe: FolderProbe,
)
    requires
        payload.app == app_name(),
        payload.schema_version <= CURRENT_SCHEMA_VERSION,
    ensures
        imported_story(before, payload, probe) matches Ok((m, import)) && {
            &&& import.write.workspace == payload.workspace
            &&& import.write.folder_name == folder_name_of(payload.story.title, payload.story.id)
            &&& import.folder_move is Some ==> probe.old_exists && !probe.next_exists
            &&& match story_position(before.stories, payload.story.id) {
                Some(i) => m.stories.len() == before.stories.len() && m.stories[i]
                    == derived_entry(payload.story) && forall|j: int|
                    0 <= j < before.stories.len() && j != i ==> #[trigger] m.stories[j]
                        == before.stories[j],
                None => m.stories == before.stories.push(derived_entry(payload.story)),
            }
            &&& m.shared_library == before.shared_library
        },
{
    lemma_story_position_is_first(before.stories, payload.story.id);
}

} // verus!
