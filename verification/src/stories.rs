//! Changes to the stories of a manifest: creating, renaming and deleting a
//! story, and replacing parts of its workspace. Each function decides what
//! the manifest becomes and what has to happen on disk; it touches no disk
//! itself.

use vstd::prelude::*;
use crate::clock::{now_rfc3339, now_timestamp_millis};
use crate::error::{ProjectError, ProjectErrorView};
use crate::ids::{is_hyphenated_uuid, new_story_id};
use crate::library::SettingLibrary;
use crate::manifest::{
    entry_views, find_story_entry, find_story_entry_mut, find_story_index, story_position,
    ProjectManifest, ProjectManifestView, StoryManifestEntry, StoryManifestEntryView,
};
use crate::slug::{folder_name_of, make_story_folder_name};
use crate::story::{CreateStoryInput, CreateStoryInputView, Story, StoryView};
use crate::text::{trim, trimmed};
use crate::workspace::{empty_workspace, empty_workspace_view, Workspace, WorkspaceView};

verus! {

/// How many cover colours there are.
pub const COVER_COLOR_COUNT: u64 = 5;

/// The cover colour at a place of the palette.
pub open spec fn cover_color(index: int) -> Seq<char> {
    if index == 0 {
        "var(--coral-400)"@
    } else if index == 1 {
        "var(--violet-400)"@
    } else if index == 2 {
        "var(--teal-400)"@
    } else if index == 3 {
        "var(--amber-400)"@
    } else {
        "var(--rose-400)"@
    }
}

/// The place of the palette that a time stamp in milliseconds picks: its
/// magnitude modulo the size of the palette.
pub open spec fn cover_index(millis: i64) -> int {
    (if millis < 0 {
        -(millis as int)
    } else {
        millis as int
    }) % (COVER_COLOR_COUNT as int)
}

/// The cover colour that a time stamp in milliseconds picks.
pub fn pick_cover_color(millis: i64) -> (r: String)
    ensures
        r@ == cover_color(cover_index(millis)),
{
    let magnitude: u64 = if millis >= 0 {
        millis as u64
    } else if millis == i64::MIN {
        9223372036854775808u64
    } else {
        (-millis) as u64
    };
    let index: u64 = magnitude % COVER_COLOR_COUNT;
    if index == 0 {
        "var(--coral-400)".to_owned()
    } else if index == 1 {
        "var(--violet-400)".to_owned()
    } else if index == 2 {
        "var(--teal-400)".to_owned()
    } else if index == 3 {
        "var(--amber-400)".to_owned()
    } else {
        "var(--rose-400)".to_owned()
    }
}

/// A new story with what is to be stored for it.
#[derive(Debug, PartialEq, Eq)]
pub struct StoryCreation {
    pub story: Story,
    /// The story's folder under the stories directory.
    pub folder_name: String,
    /// The workspace to write into the story's database.
    pub workspace: Workspace,
}

pub struct StoryCreationView {
    pub story: StoryView,
    pub folder_name: Seq<char>,
    pub workspace: WorkspaceView,
}

impl View for StoryCreation {
    type V = StoryCreationView;

    open spec fn view(&self) -> StoryCreationView {
        StoryCreationView {
            story: self.story@,
            folder_name: self.folder_name@,
            workspace: self.workspace@,
        }
    }
}

/// The story that `input` makes under the given id, at the given time.
pub open spec fn created_story(
    input: CreateStoryInputView,
    id: Seq<char>,
    now: Seq<char>,
    millis: i64,
) -> StoryView {
    StoryView {
        id,
        title: input.title,
        description: input.description,
        updated_at: now,
        cover_color: cover_color(cover_index(millis)),
    }
}

/// `m` with one more entry at its end.
pub open spec fn with_entry(m: ProjectManifestView, entry: StoryManifestEntryView) -> ProjectManifestView {
    ProjectManifestView { stories: m.stories.push(entry), ..m }
}

/// What creating a story gives: the story, its derived folder name, an empty
/// workspace, and the manifest with the story's entry appended.
pub open spec fn story_created(
    before: ProjectManifestView,
    input: CreateStoryInputView,
    id: Seq<char>,
    now: Seq<char>,
    millis: i64,
    after: ProjectManifestView,
    made: StoryCreationView,
) -> bool {
    &&& made.story == created_story(input, id, now, millis)
    &&& made.folder_name == folder_name_of(input.title, id)
    &&& made.workspace == empty_workspace_view()
    &&& after == with_entry(
        before,
        StoryManifestEntryView { story: made.story, folder_name: made.folder_name },
    )
}

/// Creates a story under the id `id`; `now` is the time of creation and
/// `millis` the time stamp that picks the cover colour.
pub fn create_story_with(
    manifest: &mut ProjectManifest,
    input: CreateStoryInput,
    id: String,
    now: String,
    millis: i64,
) -> (r: StoryCreation)
    ensures
        story_created(old(manifest)@, input@, id@, now@, millis, final(manifest)@, r@),
{
    let story = Story {
        id,
        title: input.title,
        description: input.description,
        updated_at: now,
        cover_color: pick_cover_color(millis),
    };
    let folder_name = make_story_folder_name(story.title.as_str(), story.id.as_str());
    let entry = StoryManifestEntry { story: story.clone(), folder_name: folder_name.clone() };
    manifest.stories.push(entry);
    assert(entry_views(manifest.stories@) =~= entry_views(old(manifest).stories@).push(entry@));
    StoryCreation { story, folder_name, workspace: empty_workspace() }
}

/// Creates a story under a fresh id, at the current time.
pub fn create_story(manifest: &mut ProjectManifest, input: CreateStoryInput) -> (r: StoryCreation)
    ensures
        is_hyphenated_uuid(r@.story.id),
        exists|now: Seq<char>, millis: i64|
            story_created(
                old(manifest)@,
                input@,
                r@.story.id,
                now,
                millis,
                final(manifest)@,
                r@,
            ),
{
    let id = new_story_id();
    let now = now_rfc3339();
    let millis = now_timestamp_millis();
    let ghost before = manifest@;
    let ghost given = input@;
    let ghost stamp = now@;
    let made = create_story_with(manifest, input, id, now, millis);
    assert(story_created(before, given, made@.story.id, stamp, millis, manifest@, made@));
    made
}

/// Whether the folders that a rename moves between exist on disk.
#[derive(Clone, Copy, Debug, PartialEq, Eq)]
pub struct FolderProbe {
    /// The story's present folder exists.
    pub old_exists: bool,
    /// The folder that the new title derives exists.
    pub next_exists: bool,
}

/// A story folder to be renamed on disk.
#[derive(Debug, PartialEq, Eq)]
pub struct FolderMove {
    pub from: String,
    pub to: String,
}

pub struct FolderMoveView {
    pub from: Seq<char>,
    pub to: Seq<char>,
}

impl View for FolderMove {
    type V = FolderMoveView;

    open spec fn view(&self) -> FolderMoveView {
        FolderMoveView { from: self.from@, to: self.to@ }
    }
}

/// The view of a folder move, if there is one.
pub open spec fn folder_move_view(o: Option<FolderMove>) -> Option<FolderMoveView> {
    match o {
        Some(m) => Some(m@),
        None => None,
    }
}

/// A renamed story, and the folder to rename on disk if there is one.
#[derive(Debug, PartialEq, Eq)]
pub struct RenameOutcome {
    pub story: Story,
    pub folder_move: Option<FolderMove>,
}

pub struct RenameOutcomeView {
    pub story: StoryView,
    pub folder_move: Option<FolderMoveView>,
}

impl View for RenameOutcome {
    type V = RenameOutcomeView;

    open spec fn view(&self) -> RenameOutcomeView {
        RenameOutcomeView { story: self.story@, folder_move: folder_move_view(self.folder_move) }
    }
}

/// The move of a story's folder that is due when the name derived for the
/// story changes from `old` to `next`: the folder is moved where the names
/// differ, the folder exists and the new name is free on disk; else nothing
/// is moved.
pub open spec fn folder_move_due(old: Seq<char>, next: Seq<char>, probe: FolderProbe) -> Option<
    FolderMoveView,
> {
    if old != next && probe.old_exists && !probe.next_exists {
        Some(FolderMoveView { from: old, to: next })
    } else {
        None
    }
}

/// Decides whether a story's folder is to be moved; see `folder_move_due`.
pub fn plan_folder_move(old: &String, next: &String, probe: FolderProbe) -> (r: Option<FolderMove>)
    ensures
        folder_move_view(r) == folder_move_due(old@, next@, probe),
{
    if !(*old == *next) && probe.old_exists && !probe.next_exists {
        Some(FolderMove { from: old.clone(), to: next.clone() })
    } else {
        None
    }
}

/// What becomes of a story's folder when a rename changes the name derived
/// for the story from `old` to `next`: a conflict where the names differ and
/// the new name is taken on disk; else the move that is due, if one is.
pub open spec fn folder_change(old: Seq<char>, next: Seq<char>, probe: FolderProbe) -> Result<
    Option<FolderMoveView>,
    ProjectErrorView,
> {
    if old != next && probe.next_exists {
        Err(ProjectErrorView::Conflict)
    } else {
        Ok(folder_move_due(old, next, probe))
    }
}

/// Decides what becomes of a story's folder in a rename; see `folder_change`.
pub fn plan_folder_change(old: &String, next: &String, probe: FolderProbe) -> (r: Result<
    Option<FolderMove>,
    ProjectError,
>)
    ensures
        match folder_change(old@, next@, probe) {
            Ok(folder_move) => r matches Ok(m) && folder_move_view(m) == folder_move,
            Err(e) => r matches Err(err) && err@ == e,
        },
{
    if !(*old == *next) && probe.next_exists {
        Err(ProjectError::Conflict)
    } else {
        Ok(plan_folder_move(old, next, probe))
    }
}

/// What renaming the story `id` to `title` gives.
///
/// The title is trimmed; a blank one is refused. The story's folder name is
/// derived anew and its folder changes as `folder_change` says, which may be
/// a conflict. Otherwise the entry gets the trimmed title, the new folder
/// name and the time `now`.
pub open spec fn renamed(
    before: ProjectManifestView,
    id: Seq<char>,
    title: Seq<char>,
    probe: FolderProbe,
    now: Seq<char>,
) -> Result<(ProjectManifestView, RenameOutcomeView), ProjectErrorView> {
    let clean = trimmed(title);
    if clean.len() == 0 {
        Err(ProjectErrorView::ValidationError)
    } else {
        match story_position(before.stories, id) {
            None => Err(ProjectErrorView::NotFound),
            Some(i) => {
                let entry = before.stories[i];
                let next = folder_name_of(clean, id);
                match folder_change(entry.folder_name, next, probe) {
                    Err(e) => Err(e),
                    Ok(folder_move) => {
                        let story = StoryView { title: clean, updated_at: now, ..entry.story };
                        Ok(
                            (
                                ProjectManifestView {
                                    stories: before.stories.update(
                                        i,
                                        StoryManifestEntryView { story, folder_name: next },
                                    ),
                                    ..before
                                },
                                RenameOutcomeView { story, folder_move },
                            ),
                        )
                    },
                }
            },
        }
    }
}

/// `r` and `after` are what `renamed` gives; a failure leaves the manifest
/// as it was.
pub open spec fn rename_story_post(
    before: ProjectManifestView,
    id: Seq<char>,
    title: Seq<char>,
    probe: FolderProbe,
    now: Seq<char>,
    after: ProjectManifestView,
    r: Result<RenameOutcome, ProjectError>,
) -> bool {
    match renamed(before, id, title, probe, now) {
        Ok((m, outcome)) => r matches Ok(out) && out@ == outcome && after == m,
        Err(e) => r matches Err(err) && err@ == e && after == before,
    }
}

/// The title that a story gets from `title`: the same without surrounding
/// white space. A title of white space alone is refused.
pub fn clean_story_title(title: &str) -> (r: Result<String, ProjectError>)
    ensures
        match r {
            Ok(clean) => clean@ == trimmed(title@) && clean@.len() > 0,
            Err(e) => e@ == ProjectErrorView::ValidationError && trimmed(title@).len() == 0,
        },
{
    let clean = trim(title);
    if clean.as_str().is_empty() {
        Err(ProjectError::ValidationError)
    } else {
        Ok(clean)
    }
}

/// The present folder of the story `story_id` and the folder that `title`
/// derives for it: the two that a rename needs probed.
pub fn rename_folders(manifest: &ProjectManifest, story_id: &str, title: &str) -> (r: Result<
    FolderMove,
    ProjectError,
>)
    ensures
        match r {
            Ok(folders) => trimmed(title@).len() > 0 && (story_position(manifest@.stories, story_id@)
                matches Some(i) && folders@ == (FolderMoveView {
                from: manifest@.stories[i].folder_name,
                to: folder_name_of(trimmed(title@), story_id@),
            })),
            Err(e) => if trimmed(title@).len() == 0 {
                e@ == ProjectErrorView::ValidationError
            } else {
                e@ == ProjectErrorView::NotFound && story_position(manifest@.stories, story_id@)
                    is None
            },
        },
{
    let clean_title = match clean_story_title(title) {
        Ok(clean) => clean,
        Err(e) => {
            return Err(e);
        },
    };
    match find_story_entry(manifest, story_id) {
        None => Err(ProjectError::NotFound),
        Some(entry) => Ok(
            FolderMove {
                from: entry.folder_name.clone(),
                to: make_story_folder_name(clean_title.as_str(), story_id),
            },
        ),
    }
}

/// Renames the story `story_id` to `title` at the time `now`.
pub fn rename_story_at(
    manifest: &mut ProjectManifest,
    story_id: &str,
    title: &str,
    probe: FolderProbe,
    now: String,
) -> (r: Result<RenameOutcome, ProjectError>)
    ensures
        rename_story_post(
            old(manifest)@,
            story_id@,
            title@,
            probe,
            now@,
            final(manifest)@,
            r,
        ),
{
    let clean_title = match clean_story_title(title) {
        Ok(clean) => clean,
        Err(e) => {
            return Err(e);
        },
    };
    let next_folder_name = make_story_folder_name(clean_title.as_str(), story_id);
    let entry = match find_story_entry_mut(manifest, story_id) {
        Some(entry) => entry,
        None => {
            return Err(ProjectError::NotFound);
        },
    };
    let ghost place = story_position(old(manifest)@.stories, story_id@)->Some_0;
    let folder_move = match plan_folder_change(&entry.folder_name, &next_folder_name, probe) {
        Ok(folder_move) => folder_move,
        Err(e) => {
            assert(old(manifest)@.stories.update(place, entry@) =~= old(manifest)@.stories);
            return Err(e);
        },
    };
    entry.folder_name = next_folder_name;
    entry.story.title = clean_title;
    entry.story.updated_at = now;
    let story = entry.story.clone();
    Ok(RenameOutcome { story, folder_move })
}

/// Renames the story `story_id` to `title` at the current time.
pub fn rename_story(
    manifest: &mut ProjectManifest,
    story_id: &str,
    title: &str,
    probe: FolderProbe,
) -> (r: Result<RenameOutcome, ProjectError>)
    ensures
        exists|now: Seq<char>|
            rename_story_post(
                old(manifest)@,
                story_id@,
                title@,
                probe,
                now,
                final(manifest)@,
                r,
            ),
{
    let now = now_rfc3339();
    rename_story_at(manifest, story_id, title, probe, now)
}

/// The folder of the story `story_id`.
pub fn story_folder_name(manifest: &ProjectManifest, story_id: &str) -> (r: Result<
    String,
    ProjectError,
>)
    ensures
        match story_position(manifest@.stories, story_id@) {
            Some(i) => r matches Ok(folder) && folder@ == manifest@.stories[i].folder_name,
            None => r matches Err(e) && e@ == ProjectErrorView::NotFound,
        },
{
    match find_story_entry(manifest, story_id) {
        Some(entry) => Ok(entry.folder_name.clone()),
        None => Err(ProjectError::NotFound),
    }
}

/// Removes the entry of the story `story_id` and returns its folder, which
/// is to be removed from disk. An unknown id leaves the manifest as it was.
pub fn delete_story(manifest: &mut ProjectManifest, story_id: &str) -> (r: Result<
    String,
    ProjectError,
>)
    ensures
        match story_position(old(manifest)@.stories, story_id@) {
            Some(i) => r matches Ok(folder) && folder@ == old(manifest)@.stories[i].folder_name
                && final(manifest)@ == (ProjectManifestView {
                stories: old(manifest)@.stories.remove(i),
                ..old(manifest)@
            }),
            None => r matches Err(e) && e@ == ProjectErrorView::NotFound && final(manifest)@
                == old(manifest)@,
        },
{
    match find_story_index(manifest, story_id) {
        Some(index) => {
            let entry = manifest.stories.remove(index);
            assert(entry_views(manifest.stories@) =~= entry_views(old(manifest).stories@).remove(
                index as int,
            ));
            Ok(entry.folder_name)
        },
        None => Err(ProjectError::NotFound),
    }
}

/// A workspace to be written into the database of the story in `folder_name`.
#[derive(Debug, PartialEq, Eq)]
pub struct WorkspaceWrite {
    pub folder_name: String,
    pub workspace: Workspace,
}

pub struct WorkspaceWriteView {
    pub folder_name: Seq<char>,
    pub workspace: WorkspaceView,
}

impl View for WorkspaceWrite {
    type V = WorkspaceWriteView;

    open spec fn view(&self) -> WorkspaceWriteView {
        WorkspaceWriteView { folder_name: self.folder_name@, workspace: self.workspace@ }
    }
}

/// The views of a list of writes.
pub open spec fn write_views(s: Seq<WorkspaceWrite>) -> Seq<WorkspaceWriteView> {
    s.map_values(|w: WorkspaceWrite| w@)
}

/// `m` with the story at `i` marked as changed at `now`.
pub open spec fn touched(m: ProjectManifestView, i: int, now: Seq<char>) -> ProjectManifestView {
    let entry = m.stories[i];
    ProjectManifestView {
        stories: m.stories.update(
            i,
            StoryManifestEntryView {
                story: StoryView { updated_at: now, ..entry.story },
                ..entry
            },
        ),
        ..m
    }
}

/// What storing `next` as the workspace of the story `id` gives: the
/// workspace goes to the story's folder and the story is marked as changed.
pub open spec fn workspace_stored(
    before: ProjectManifestView,
    id: Seq<char>,
    next: WorkspaceView,
    now: Seq<char>,
) -> Result<(ProjectManifestView, WorkspaceWriteView), ProjectErrorView> {
    match story_position(before.stories, id) {
        None => Err(ProjectErrorView::NotFound),
        Some(i) => Ok(
            (
                touched(before, i, now),
                WorkspaceWriteView { folder_name: before.stories[i].folder_name, workspace: next },
            ),
        ),
    }
}

/// `r` and `after` are what `workspace_stored` gives; a failure leaves the
/// manifest as it was.
pub open spec fn store_workspace_post(
    before: ProjectManifestView,
    id: Seq<char>,
    next: WorkspaceView,
    now: Seq<char>,
    after: ProjectManifestView,
    r: Result<WorkspaceWrite, ProjectError>,
) -> bool {
    match workspace_stored(before, id, next, now) {
        Ok((m, write)) => r matches Ok(w) && w@ == write && after == m,
        Err(e) => r matches Err(err) && err@ == e && after == before,
    }
}

/// Stores `next` as the workspace of the story `story_id` at the time `now`.
pub fn store_workspace(
    manifest: &mut ProjectManifest,
    story_id: &str,
    next: Workspace,
    now: String,
) -> (r: Result<WorkspaceWrite, ProjectError>)
    ensures
        store_workspace_post(old(manifest)@, story_id@, next@, now@, final(manifest)@, r),
{
    let entry = match find_story_entry_mut(manifest, story_id) {
        Some(entry) => entry,
        None => {
            return Err(ProjectError::NotFound);
        },
    };
    entry.story.updated_at = now;
    let folder_name = entry.folder_name.clone();
    Ok(WorkspaceWrite { folder_name, workspace: next })
}

/// `current` with its settings replaced.
pub open spec fn with_settings(current: WorkspaceView, settings: Seq<serde_json::Value>) -> WorkspaceView {
    WorkspaceView { settings, ..current }
}

/// `current` with its tree replaced.
pub open spec fn with_tree(current: WorkspaceView, tree: Seq<serde_json::Value>) -> WorkspaceView {
    WorkspaceView { tree, ..current }
}

/// `current` with its library replaced.
pub open spec fn with_library(
    current: WorkspaceView,
    library: crate::library::SettingLibraryView,
) -> WorkspaceView {
    WorkspaceView { library, ..current }
}

/// Replaces the settings of the story `story_id`, whose stored workspace is
/// `current`, at the time `now`. Tree and library stay as they are stored.
pub fn update_settings_at(
    manifest: &mut ProjectManifest,
    story_id: &str,
    current: Workspace,
    settings: Vec<serde_json::Value>,
    now: String,
) -> (r: Result<WorkspaceWrite, ProjectError>)
    ensures
        store_workspace_post(
            old(manifest)@,
            story_id@,
            with_settings(current@, settings@),
            now@,
            final(manifest)@,
            r,
        ),
{
    let next = Workspace { settings, tree: current.tree, library: current.library };
    store_workspace(manifest, story_id, next, now)
}

/// Replaces the tree of the story `story_id`, whose stored workspace is
/// `current`, at the time `now`. Settings and library stay as they are stored.
pub fn update_tree_at(
    manifest: &mut ProjectManifest,
    story_id: &str,
    current: Workspace,
    tree: Vec<serde_json::Value>,
    now: String,
) -> (r: Result<WorkspaceWrite, ProjectError>)
    ensures
        store_workspace_post(
            old(manifest)@,
            story_id@,
            with_tree(current@, tree@),
            now@,
            final(manifest)@,
            r,
        ),
{
    let next = Workspace { settings: current.settings, tree, library: current.library };
    store_workspace(manifest, story_id, next, now)
}

/// Replaces the library of the story `story_id`, whose stored workspace is
/// `current`, at the time `now`. Settings and tree stay as they are stored.
pub fn update_story_library_at(
    manifest: &mut ProjectManifest,
    story_id: &str,
    current: Workspace,
    library: SettingLibrary,
    now: String,
) -> (r: Result<WorkspaceWrite, ProjectError>)
    ensures
        store_workspace_post(
            old(manifest)@,
            story_id@,
            with_library(current@, library@),
            now@,
            final(manifest)@,
            r,
        ),
{
    let next = Workspace { settings: current.settings, tree: current.tree, library };
    store_workspace(manifest, story_id, next, now)
}

/// Replaces the settings of the story `story_id` at the current time.
pub fn update_settings(
    manifest: &mut ProjectManifest,
    story_id: &str,
    current: Workspace,
    settings: Vec<serde_json::Value>,
) -> (r: Result<WorkspaceWrite, ProjectError>)
    ensures
        exists|now: Seq<char>|
            store_workspace_post(
                old(manifest)@,
                story_id@,
                with_settings(current@, settings@),
                now,
                final(manifest)@,
                r,
            ),
{
    let now = now_rfc3339();
    update_settings_at(manifest, story_id, current, settings, now)
}

/// Replaces the tree of the story `story_id` at the current time.
pub fn update_tree(
    manifest: &mut ProjectManifest,
    story_id: &str,
    current: Workspace,
    tree: Vec<serde_json::Value>,
) -> (r: Result<WorkspaceWrite, ProjectError>)
    ensures
        exists|now: Seq<char>|
            store_workspace_post(
                old(manifest)@,
                story_id@,
                with_tree(current@, tree@),
                now,
                final(manifest)@,
                r,
            ),
{
    let now = now_rfc3339();
    update_tree_at(manifest, story_id, current, tree, now)
}

/// Replaces the library of the story `story_id` at the current time.
pub fn update_story_library(
    manifest: &mut ProjectManifest,
    story_id: &str,
    current: Workspace,
    library: SettingLibrary,
) -> (r: Result<WorkspaceWrite, ProjectError>)
    ensures
        exists|now: Seq<char>|
            store_workspace_post(
                old(manifest)@,
                story_id@,
                with_library(current@, library@),
                now,
                final(manifest)@,
                r,
            ),
{
    let now = now_rfc3339();
    update_story_library_at(manifest, story_id, current, library, now)
}

/// Replaces the library that the stories of the project share.
pub fn update_global_library(manifest: &mut ProjectManifest, library: SettingLibrary)
    ensures
        final(manifest)@ == (ProjectManifestView {
            shared_library: library@,
            ..old(manifest)@
        }),
{
    manifest.shared_library = library;
}

} // verus!
