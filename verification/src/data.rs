//! A project as the user interface sees it: its stories, the workspace of
//! each, and the library they share.

use vstd::prelude::*;
use crate::error::{ProjectError, ProjectErrorView};
use crate::state::{require_active_root, resolved_root, ProjectState};
use crate::text::opt_text;
use crate::library::{SettingLibrary, SettingLibraryView};
use crate::manifest::{ProjectManifestView, StoryManifestEntry, StoryManifestEntryView};
use crate::recency::by_recency;
use crate::paths::{legacy_story_root, place, story_root, ProjectPath, ProjectPathView};
use crate::story::{story_views, Story, StoryView};
use crate::workspace::{empty_workspace_view, Workspace, WorkspaceView};

verus! {

/// A workspace filed under a story id.
#[derive(Debug)]
struct WorkspaceEntry {
    story_id: String,
    workspace: Workspace,
}

/// Workspaces by story id. Each id has at most one workspace: what is put
/// under an id takes the place of what was there.
#[derive(Debug)]
pub struct WorkspaceMap {
    entries: Vec<WorkspaceEntry>,
}

/// The map that a list of entries stands for: a later entry counts over an
/// earlier one with the same id.
spec fn entries_map(entries: Seq<WorkspaceEntry>) -> Map<Seq<char>, WorkspaceView>
    decreases entries.len(),
{
    if entries.len() == 0 {
        Map::empty()
    } else {
        entries_map(entries.drop_last()).insert(
            entries.last().story_id@,
            entries.last().workspace@,
        )
    }
}

/// The ids of `entries` are the keys of the map they stand for.
proof fn lemma_entries_map_keys(entries: Seq<WorkspaceEntry>, id: Seq<char>)
    ensures
        entries_map(entries).contains_key(id) <==> exists|i: int|
            0 <= i < entries.len() && (#[trigger] entries[i]).story_id@ == id,
    decreases entries.len(),
{
    if entries.len() > 0 {
        let front = entries.drop_last();
        lemma_entries_map_keys(front, id);
        if entries.last().story_id@ == id {
            assert(entries[entries.len() - 1].story_id@ == id);
        } else if exists|i: int| 0 <= i < front.len() && (#[trigger] front[i]).story_id@ == id {
            let i = choose|i: int| 0 <= i < front.len() && (#[trigger] front[i]).story_id@ == id;
            assert(entries[i] == front[i]);
        } else {
            assert forall|i: int| 0 <= i < entries.len() implies (#[trigger] entries[i]).story_id@
                != id by {
                if i < front.len() {
                    assert(entries[i] == front[i]);
                }
            }
        }
    }
}

impl View for WorkspaceMap {
    type V = Map<Seq<char>, WorkspaceView>;

    closed spec fn view(&self) -> Map<Seq<char>, WorkspaceView> {
        entries_map(self.entries@)
    }
}

impl WorkspaceMap {
    /// A map without workspaces.
    pub fn new() -> (r: WorkspaceMap)
        ensures
            r@ == Map::<Seq<char>, WorkspaceView>::empty(),
    {
        WorkspaceMap { entries: Vec::new() }
    }

    /// Puts `workspace` under `story_id`, in place of what was there.
    pub fn insert(&mut self, story_id: String, workspace: Workspace)
        ensures
            final(self)@ == old(self)@.insert(story_id@, workspace@),
    {
        self.entries.push(WorkspaceEntry { story_id, workspace });
        assert(self.entries@.drop_last() =~= old(self).entries@);
    }

    /// The workspace under `story_id`.
    pub fn get(&self, story_id: &str) -> (r: Option<&Workspace>)
        ensures
            match r {
                Some(w) => self@.contains_key(story_id@) && w@ == self@[story_id@],
                None => !self@.contains_key(story_id@),
            },
    {
        let wanted = story_id.to_owned();
        let mut i: usize = self.entries.len();
        assert(self.entries@.take(i as int) =~= self.entries@);
        while i > 0
            invariant
                i <= self.entries.len(),
                wanted@ == story_id@,
                entries_map(self.entries@).contains_key(story_id@) == entries_map(
                    self.entries@.take(i as int),
                ).contains_key(story_id@),
                entries_map(self.entries@).contains_key(story_id@) ==> entries_map(
                    self.entries@,
                )[story_id@] == entries_map(self.entries@.take(i as int))[story_id@],
            decreases i,
        {
            assert(self.entries@.take(i as int).drop_last() =~= self.entries@.take(i - 1));
            assert(self.entries@.take(i as int).last() == self.entries@[i - 1]);
            if self.entries[i - 1].story_id == wanted {
                return Some(&self.entries[i - 1].workspace);
            }
            i -= 1;
        }
        None
    }

    /// Whether `story_id` has a workspace here.
    pub fn contains_key(&self, story_id: &str) -> (r: bool)
        ensures
            r == self@.contains_key(story_id@),
    {
        self.get(story_id).is_some()
    }

    /// The story ids that have a workspace here. An id may be listed more
    /// than once.
    pub fn ids(&self) -> (r: Vec<String>)
        ensures
            forall|id: Seq<char>| #[trigger]
                self@.contains_key(id) <==> exists|i: int|
                    0 <= i < r@.len() && (#[trigger] r@[i])@ == id,
    {
        let mut out: Vec<String> = Vec::new();
        let mut i: usize = 0;
        while i < self.entries.len()
            invariant
                i <= self.entries.len(),
                out@.len() == i,
                forall|j: int| 0 <= j < i ==> (#[trigger] out@[j])@ == self.entries@[j].story_id@,
            decreases self.entries.len() - i,
        {
            out.push(self.entries[i].story_id.clone());
            i += 1;
        }
        proof {
            assert forall|id: Seq<char>| #[trigger]
                self@.contains_key(id) <==> exists|i: int|
                    0 <= i < out@.len() && (#[trigger] out@[i])@ == id by {
                lemma_entries_map_keys(self.entries@, id);
                if exists|i: int| 0 <= i < out@.len() && (#[trigger] out@[i])@ == id {
                    let i = choose|i: int| 0 <= i < out@.len() && (#[trigger] out@[i])@ == id;
                    assert(self.entries@[i].story_id@ == id);
                }
                if exists|i: int|
                    0 <= i < self.entries@.len() && (#[trigger] self.entries@[i]).story_id@ == id {
                    let i = choose|i: int|
                        0 <= i < self.entries@.len() && (#[trigger] self.entries@[i]).story_id@
                            == id;
                    assert(out@[i]@ == id);
                }
            }
        }
        out
    }
}

/// The stories of a project, newest first, with their workspaces.
#[derive(Debug)]
pub struct ProjectData {
    pub stories: Vec<Story>,
    pub workspaces: WorkspaceMap,
    pub shared_library: SettingLibrary,
}

pub struct ProjectDataView {
    pub stories: Seq<StoryView>,
    pub workspaces: Map<Seq<char>, WorkspaceView>,
    pub shared_library: SettingLibraryView,
}

impl View for ProjectData {
    type V = ProjectDataView;

    open spec fn view(&self) -> ProjectDataView {
        ProjectDataView {
            stories: story_views(self.stories@),
            workspaces: self.workspaces@,
            shared_library: self.shared_library@,
        }
    }
}

/// What the user interface gets when it asks for the project.
#[derive(Debug)]
pub struct EnsureProjectResponse {
    pub project_path: String,
    pub data: ProjectData,
}

pub struct EnsureProjectResponseView {
    pub project_path: Seq<char>,
    pub data: ProjectDataView,
}

impl View for EnsureProjectResponse {
    type V = EnsureProjectResponseView;

    open spec fn view(&self) -> EnsureProjectResponseView {
        EnsureProjectResponseView { project_path: self.project_path@, data: self.data@ }
    }
}

/// A story together with the workspace read from its database.
pub struct LoadedStoryView {
    pub story: StoryView,
    pub workspace: WorkspaceView,
}

/// The workspaces of `loaded` by story id; of two stories with one id the
/// later one counts.
pub open spec fn loaded_workspaces(loaded: Seq<LoadedStoryView>) -> Map<Seq<char>, WorkspaceView>
    decreases loaded.len(),
{
    if loaded.len() == 0 {
        Map::empty()
    } else {
        loaded_workspaces(loaded.drop_last()).insert(
            loaded.last().story.id,
            loaded.last().workspace,
        )
    }
}

/// The project made of the stories in `loaded`, in their order.
pub open spec fn loaded_data(shared_library: SettingLibraryView, loaded: Seq<LoadedStoryView>) -> ProjectDataView {
    ProjectDataView {
        stories: loaded.map_values(|l: LoadedStoryView| l.story),
        workspaces: loaded_workspaces(loaded),
        shared_library,
    }
}

/// Whether a story is still where the first layout kept it: its own folder
/// is missing and the folder named by its id exists. That folder is then to
/// be renamed before the story is read.
pub fn needs_legacy_migration(folder_exists: bool, legacy_folder_exists: bool) -> (r: bool)
    ensures
        r == (!folder_exists && legacy_folder_exists),
{
    !folder_exists && legacy_folder_exists
}

/// A story folder of the first layout, to be renamed before the story is
/// read.
#[derive(Debug, PartialEq, Eq)]
pub struct FolderMigration {
    pub from: ProjectPath,
    pub to: ProjectPath,
}

pub struct FolderMigrationView {
    pub from: ProjectPathView,
    pub to: ProjectPathView,
}

impl View for FolderMigration {
    type V = FolderMigrationView;

    open spec fn view(&self) -> FolderMigrationView {
        FolderMigrationView { from: self.from@, to: self.to@ }
    }
}

/// The view of a folder migration, if there is one.
pub open spec fn folder_migration_view(o: Option<FolderMigration>) -> Option<FolderMigrationView> {
    match o {
        Some(m) => Some(m@),
        None => None,
    }
}

/// The rename that brings the folder of `entry` from the first layout,
/// where it is named by the story's id, to the story's folder name. It is
/// due where the story's folder is missing and the folder named by the id
/// exists.
pub open spec fn legacy_migration(
    root: Seq<char>,
    entry: StoryManifestEntryView,
    folder_exists: bool,
    legacy_folder_exists: bool,
) -> Option<FolderMigrationView> {
    if !folder_exists && legacy_folder_exists && entry.folder_name != entry.story.id {
        Some(
            FolderMigrationView {
                from: place(root, seq!["stories"@, entry.story.id]),
                to: place(root, seq!["stories"@, entry.folder_name]),
            },
        )
    } else {
        None
    }
}

/// Plans the rename of a story's folder out of the first layout; see
/// `legacy_migration`.
pub fn plan_legacy_migration(
    root: &str,
    entry: &StoryManifestEntry,
    folder_exists: bool,
    legacy_folder_exists: bool,
) -> (r: Option<FolderMigration>)
    ensures
        folder_migration_view(r) == legacy_migration(
            root@,
            entry@,
            folder_exists,
            legacy_folder_exists,
        ),
{
    if needs_legacy_migration(folder_exists, legacy_folder_exists) && !(entry.folder_name
        == entry.story.id) {
        Some(
            FolderMigration {
                from: legacy_story_root(root, entry.story.id.as_str()),
                to: story_root(root, entry.folder_name.as_str()),
            },
        )
    } else {
        None
    }
}

/// The story of `entry` with the workspace that its folder holds; a folder
/// without a row gives the empty workspace.
pub open spec fn read_back(entry: StoryManifestEntryView, stored: Map<Seq<char>, WorkspaceView>) -> LoadedStoryView {
    LoadedStoryView {
        story: entry.story,
        workspace: if stored.contains_key(entry.folder_name) {
            stored[entry.folder_name]
        } else {
            empty_workspace_view()
        },
    }
}

/// The project that loading gives from the manifest `m`, where the story
/// folders hold the workspaces `stored`: the stories newest first, each with
/// the workspace of its folder.
pub open spec fn reloaded(m: ProjectManifestView, stored: Map<Seq<char>, WorkspaceView>) -> ProjectDataView {
    loaded_data(
        m.shared_library,
        by_recency(m.stories).map_values(|e: StoryManifestEntryView| read_back(e, stored)),
    )
}

/// The answer to a request for the project: without an active root the
/// request fails; with one, it fails as loading failed, or answers with the
/// root and the project loaded from it.
pub open spec fn project_ensured(
    root: Option<Seq<char>>,
    data: Result<ProjectDataView, ProjectErrorView>,
) -> Result<EnsureProjectResponseView, ProjectErrorView> {
    match root {
        None => Err(ProjectErrorView::NoActiveRoot),
        Some(project_path) => match data {
            Err(e) => Err(e),
            Ok(loaded) => Ok(EnsureProjectResponseView { project_path, data: loaded }),
        },
    }
}

/// The view of a loaded project or of the failure in its place.
pub open spec fn data_result_view(data: Result<ProjectData, ProjectError>) -> Result<
    ProjectDataView,
    ProjectErrorView,
> {
    match data {
        Ok(d) => Ok(d@),
        Err(e) => Err(e@),
    }
}

/// Answers a request for the project; see `project_ensured`. `selected` is
/// what the selection file names; `data` is what loading from the active
/// root gave, and is looked at only where there is an active root.
pub fn ensure_project(
    state: &ProjectState,
    selected: Option<String>,
    data: Result<ProjectData, ProjectError>,
) -> (r: Result<EnsureProjectResponse, ProjectError>)
    ensures
        match project_ensured(
            resolved_root(state@, opt_text(selected)),
            data_result_view(data),
        ) {
            Ok(response) => r matches Ok(answer) && answer@ == response,
            Err(e) => r matches Err(err) && err@ == e,
        },
{
    let project_path = match require_active_root(state, selected) {
        Ok(root) => root,
        Err(e) => {
            return Err(e);
        },
    };
    match data {
        Ok(loaded) => Ok(EnsureProjectResponse { project_path, data: loaded }),
        Err(e) => Err(e),
    }
}

} // verus!
