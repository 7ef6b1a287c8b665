//! Snapshots: a project or one story written out with the application's name
//! and schema version, and read back in.

use vstd::prelude::*;
use crate::clock::now_rfc3339;
use crate::data::{ProjectData, ProjectDataView};
use crate::error::{Document, ProjectError, ProjectErrorView};
use crate::manifest::{
    app_name, derive_entries, derived_entry, entry_views, find_story_entry, find_story_entry_mut,
    story_position, ProjectManifest, ProjectManifestView, StoryManifestEntry, StoryManifestEntryView,
};
use crate::slug::{folder_name_of, make_story_folder_name};
use crate::stories::{
    folder_move_due, folder_move_view, plan_folder_move, with_entry, write_views, FolderMove,
    FolderMoveView, FolderProbe, WorkspaceWrite, WorkspaceWriteView,
};
use crate::story::{Story, StoryView};
use crate::workspace::{empty_workspace, empty_workspace_view, Workspace, WorkspaceView};
use crate::CURRENT_SCHEMA_VERSION;

verus! {

/// A snapshot of a whole project.
#[derive(Debug)]
pub struct ExportedProjectData {
    pub app: String,
    pub schema_version: i64,
    pub exported_at: String,
    pub data: ProjectData,
}

pub struct ExportedProjectDataView {
    pub app: Seq<char>,
    pub schema_version: i64,
    pub exported_at: Seq<char>,
    pub data: ProjectDataView,
}

impl View for ExportedProjectData {
    type V = ExportedProjectDataView;

    open spec fn view(&self) -> ExportedProjectDataView {
        ExportedProjectDataView {
            app: self.app@,
            schema_version: self.schema_version,
            exported_at: self.exported_at@,
            data: self.data@,
        }
    }
}

/// A snapshot of one story.
#[derive(Debug, PartialEq, Eq)]
pub struct ExportedStoryData {
    pub app: String,
    pub schema_version: i64,
    pub exported_at: String,
    pub story: Story,
    pub workspace: Workspace,
}

pub struct ExportedStoryDataView {
    pub app: Seq<char>,
    pub schema_version: i64,
    pub exported_at: Seq<char>,
    pub story: StoryView,
    pub workspace: WorkspaceView,
}

impl View for ExportedStoryData {
    type V = ExportedStoryDataView;

    open spec fn view(&self) -> ExportedStoryDataView {
        ExportedStoryDataView {
            app: self.app@,
            schema_version: self.schema_version,
            exported_at: self.exported_at@,
            story: self.story@,
            workspace: self.workspace@,
        }
    }
}

/// The snapshot of `data` taken at `now`.
pub open spec fn exported_project(data: ProjectDataView, now: Seq<char>) -> ExportedProjectDataView {
    ExportedProjectDataView {
        app: app_name(),
        schema_version: CURRENT_SCHEMA_VERSION,
        exported_at: now,
        data,
    }
}

/// The snapshot of `data` taken at `now`.
pub fn export_project_at(data: ProjectData, now: String) -> (r: ExportedProjectData)
    ensures
        r@ == exported_project(data@, now@),
{
    ExportedProjectData {
        app: "takecopter".to_owned(),
        schema_version: CURRENT_SCHEMA_VERSION,
        exported_at: now,
        data,
    }
}

/// The snapshot of `data` taken now.
pub fn export_project(data: ProjectData) -> (r: ExportedProjectData)
    ensures
        exists|now: Seq<char>| r@ == exported_project(data@, now),
{
    let now = now_rfc3339();
    let ghost stamp = now@;
    let r = export_project_at(data, now);
    assert(r@ == exported_project(data@, stamp));
    r
}

/// The snapshot, taken at `now`, of the story `id` with the workspace read
/// from its database.
pub open spec fn exported_story(
    manifest: ProjectManifestView,
    id: Seq<char>,
    workspace: WorkspaceView,
    now: Seq<char>,
) -> Result<ExportedStoryDataView, ProjectErrorView> {
    match story_position(manifest.stories, id) {
        None => Err(ProjectErrorView::NotFound),
        Some(i) => Ok(
            ExportedStoryDataView {
                app: app_name(),
                schema_version: CURRENT_SCHEMA_VERSION,
                exported_at: now,
                story: manifest.stories[i].story,
                workspace,
            },
        ),
    }
}

/// `r` is what `exported_story` gives.
pub open spec fn export_story_post(
    manifest: ProjectManifestView,
    id: Seq<char>,
    workspace: WorkspaceView,
    now: Seq<char>,
    r: Result<ExportedStoryData, ProjectError>,
) -> bool {
    match exported_story(manifest, id, workspace, now) {
        Ok(snapshot) => r matches Ok(s) && s@ == snapshot,
        Err(e) => r matches Err(err) && err@ == e,
    }
}

/// The snapshot, taken at `now`, of the story `story_id`.
pub fn export_story_at(
    manifest: &ProjectManifest,
    story_id: &str,
    workspace: Workspace,
    now: String,
) -> (r: Result<ExportedStoryData, ProjectError>)
    ensures
        export_story_post(manifest@, story_id@, workspace@, now@, r),
{
    match find_story_entry(manifest, story_id) {
        None => Err(ProjectError::NotFound),
        Some(entry) => Ok(
            ExportedStoryData {
                app: "takecopter".to_owned(),
                schema_version: CURRENT_SCHEMA_VERSION,
                exported_at: now,
                story: entry.story.clone(),
                workspace,
            },
        ),
    }
}

/// The snapshot, taken now, of the story `story_id`.
pub fn export_story(manifest: &ProjectManifest, story_id: &str, workspace: Workspace) -> (r:
    Result<ExportedStoryData, ProjectError>)
    ensures
        exists|now: Seq<char>| export_story_post(manifest@, story_id@, workspace@, now, r),
{
    let now = now_rfc3339();
    export_story_at(manifest, story_id, workspace, now)
}

/// Why a snapshot with this header cannot be imported, if it cannot: it
/// names another application, or its schema is newer than this library's.
pub open spec fn import_refusal(app: Seq<char>, schema_version: i64, what: Document) -> Option<
    ProjectErrorView,
> {
    if app != app_name() {
        Some(ProjectErrorView::InvalidSource(what))
    } else if schema_version > CURRENT_SCHEMA_VERSION {
        Some(ProjectErrorView::VersionTooNew(what))
    } else {
        None
    }
}

/// Checks the header of a snapshot.
pub fn check_import_header(app: &str, schema_version: i64, what: Document) -> (r: Result<
    (),
    ProjectError,
>)
    ensures
        match import_refusal(app@, schema_version, what) {
            Some(e) => r matches Err(err) && err@ == e,
            None => r is Ok,
        },
{
    if !crate::text::str_eq(app, "takecopter") {
        Err(ProjectError::InvalidSource(what))
    } else if schema_version > CURRENT_SCHEMA_VERSION {
        Err(ProjectError::VersionTooNew(what))
    } else {
        Ok(())
    }
}

/// The write that gives the story of `entry` the workspace that `workspaces`
/// holds for it, or an empty one where it holds none.
pub open spec fn import_write(
    entry: StoryManifestEntryView,
    workspaces: Map<Seq<char>, WorkspaceView>,
) -> WorkspaceWriteView {
    WorkspaceWriteView {
        folder_name: entry.folder_name,
        workspace: if workspaces.contains_key(entry.story.id) {
            workspaces[entry.story.id]
        } else {
            empty_workspace_view()
        },
    }
}

/// What importing a project snapshot gives: the manifest lists the
/// snapshot's stories, each under its derived folder name, and takes the
/// snapshot's shared library; every story's workspace is to be written.
pub open spec fn imported_project(before: ProjectManifestView, payload: ExportedProjectDataView) -> Result<
    (ProjectManifestView, Seq<WorkspaceWriteView>),
    ProjectErrorView,
> {
    match import_refusal(payload.app, payload.schema_version, Document::ProjectExport) {
        Some(e) => Err(e),
        None => {
            let entries = payload.data.stories.map_values(|s: StoryView| derived_entry(s));
            Ok(
                (
                    ProjectManifestView {
                        shared_library: payload.data.shared_library,
                        stories: entries,
                        ..before
                    },
                    entries.map_values(
                        |e: StoryManifestEntryView| import_write(e, payload.data.workspaces),
                    ),
                ),
            )
        },
    }
}

/// Imports a project snapshot. A snapshot that is refused leaves the
/// manifest as it was.
pub fn import_project(manifest: &mut ProjectManifest, payload: ExportedProjectData) -> (r: Result<
    Vec<WorkspaceWrite>,
    ProjectError,
>)
    ensures
        match imported_project(old(manifest)@, payload@) {
            Ok((m, writes)) => r matches Ok(w) && write_views(w@) == writes && final(manifest)@
                == m,
            Err(e) => r matches Err(err) && err@ == e && final(manifest)@ == old(manifest)@,
        },
{
    match check_import_header(
        payload.app.as_str(),
        payload.schema_version,
        Document::ProjectExport,
    ) {
        Err(e) => {
            return Err(e);
        },
        Ok(_) => {},
    }
    let data = payload.data;
    let entries = derive_entries(data.stories);
    let mut writes: Vec<WorkspaceWrite> = Vec::new();
    let mut i: usize = 0;
    while i < entries.len()
        invariant
            i <= entries.len(),
            writes@.len() == i,
            forall|j: int|
                0 <= j < i ==> (#[trigger] writes@[j])@ == import_write(
                    entries@[j]@,
                    data.workspaces@,
                ),
        decreases entries.len() - i,
    {
        let workspace = match data.workspaces.get(entries[i].story.id.as_str()) {
            Some(w) => w.clone(),
            None => empty_workspace(),
        };
        writes.push(WorkspaceWrite { folder_name: entries[i].folder_name.clone(), workspace });
        i += 1;
    }
    assert(write_views(writes@) =~= entry_views(entries@).map_values(
        |e: StoryManifestEntryView| import_write(e, data.workspaces@),
    ));
    manifest.shared_library = data.shared_library;
    manifest.stories = entries;
    Ok(writes)
}

/// A story to be stored after an import: its workspace to write and, where
/// its folder name changed, the folder to move first.
#[derive(Debug, PartialEq, Eq)]
pub struct StoryImport {
    pub write: WorkspaceWrite,
    pub folder_move: Option<FolderMove>,
}

pub struct StoryImportView {
    pub write: WorkspaceWriteView,
    pub folder_move: Option<FolderMoveView>,
}

impl View for StoryImport {
    type V = StoryImportView;

    open spec fn view(&self) -> StoryImportView {
        StoryImportView { write: self.write@, folder_move: folder_move_view(self.folder_move) }
    }
}

/// The present folder of the story that `payload` holds and the folder that
/// the snapshot derives for it, where the manifest lists the story: the two
/// that an import needs probed.
pub fn import_story_folders(manifest: &ProjectManifest, payload: &ExportedStoryData) -> (r:
    Option<FolderMove>)
    ensures
        match story_position(manifest@.stories, payload@.story.id) {
            Some(i) => r matches Some(folders) && folders@ == (FolderMoveView {
                from: manifest@.stories[i].folder_name,
                to: folder_name_of(payload@.story.title, payload@.story.id),
            }),
            None => r is None,
        },
{
    match find_story_entry(manifest, payload.story.id.as_str()) {
        Some(entry) => Some(
            FolderMove {
                from: entry.folder_name.clone(),
                to: make_story_folder_name(
                    payload.story.title.as_str(),
                    payload.story.id.as_str(),
                ),
            },
        ),
        None => None,
    }
}

/// What importing a story snapshot gives. A snapshot with an accepted
/// header is always imported. The story's entry carries the story as the
/// snapshot holds it, under the folder name derived from its title and id.
/// A story that the manifest knows is replaced in its place, and its folder
/// is moved where `folder_move_due` says so; where the derived name is taken
/// on disk nothing is moved. A new story is appended. Either way its
/// workspace is to be written into the folder of the derived name.
pub open spec fn imported_story(
    before: ProjectManifestView,
    payload: ExportedStoryDataView,
    probe: FolderProbe,
) -> Result<(ProjectManifestView, StoryImportView), ProjectErrorView> {
    match import_refusal(payload.app, payload.schema_version, Document::StoryExport) {
        Some(e) => Err(e),
        None => {
            let entry = derived_entry(payload.story);
            let write = WorkspaceWriteView {
                folder_name: entry.folder_name,
                workspace: payload.workspace,
            };
            match story_position(before.stories, payload.story.id) {
                Some(i) => Ok(
                    (
                        ProjectManifestView { stories: before.stories.update(i, entry), ..before },
                        StoryImportView {
                            write,
                            folder_move: folder_move_due(
                                before.stories[i].folder_name,
                                entry.folder_name,
                                probe,
                            ),
                        },
                    ),
                ),
                None => Ok((with_entry(before, entry), StoryImportView { write, folder_move: None })),
            }
        },
    }
}

/// Imports a story snapshot; `probe` says whether the two folders of
/// `import_story_folders` exist. A snapshot that is refused leaves the
/// manifest as it was.
pub fn import_story(
    manifest: &mut ProjectManifest,
    payload: ExportedStoryData,
    probe: FolderProbe,
) -> (r: Result<StoryImport, ProjectError>)
    ensures
        match imported_story(old(manifest)@, payload@, probe) {
            Ok((m, import)) => r matches Ok(done) && done@ == import && final(manifest)@ == m,
            Err(e) => r matches Err(err) && err@ == e && final(manifest)@ == old(manifest)@,
        },
{
    match check_import_header(payload.app.as_str(), payload.schema_version, Document::StoryExport) {
        Err(e) => {
            return Err(e);
        },
        Ok(_) => {},
    }
    let folder_name = make_story_folder_name(
        payload.story.title.as_str(),
        payload.story.id.as_str(),
    );
    match find_story_entry_mut(manifest, payload.story.id.as_str()) {
        Some(entry) => {
            let folder_move = plan_folder_move(&entry.folder_name, &folder_name, probe);
            entry.story = payload.story;
            entry.folder_name = folder_name.clone();
            Ok(
                StoryImport {
                    write: WorkspaceWrite { folder_name, workspace: payload.workspace },
                    folder_move,
                },
            )
        },
        None => {
            let entry = StoryManifestEntry {
                story: payload.story,
                folder_name: folder_name.clone(),
            };
            manifest.stories.push(entry);
            assert(entry_views(manifest.stories@) =~= entry_views(old(manifest).stories@).push(
                entry@,
            ));
            Ok(
                StoryImport {
                    write: WorkspaceWrite { folder_name, workspace: payload.workspace },
                    folder_move: None,
                },
            )
        },
    }
}

} // verus!
