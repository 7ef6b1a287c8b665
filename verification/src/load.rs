//! Loading a project: what the story folders hold is read beforehand; the
//! library then goes through the stories newest first, orders the rename of
//! folders that are still named by a story's id, reads each story's
//! workspace, and stops at the first story that cannot be read.

use vstd::prelude::*;
use vstd::hash_map::StringHashMap;
use crate::data::{
    legacy_migration, loaded_data, loaded_workspaces, plan_legacy_migration, read_back, reloaded,
    FolderMigration, FolderMigrationView, LoadedStoryView, ProjectData, WorkspaceMap,
};
use crate::error::{is_parse_failure, JsonText, ProjectError, ProjectErrorView};
use crate::manifest::{entry_views, ProjectManifest, ProjectManifestView, StoryManifestEntryView};
use crate::recency::{by_recency, sort_by_recency};
use crate::story::{story_views, Story};
use crate::workspace::{
    decoded, empty_workspace, empty_workspace_view, read_workspace, StoredWorkspace,
    StoredWorkspaceView, Workspace, WorkspaceView,
};

verus! {

/// What a story folder holds, as far as loading goes.
#[derive(Debug, PartialEq, Eq)]
pub enum FolderContent {
    /// No database, or a database without a workspace row.
    Empty,
    /// The workspace row of the folder's database.
    Row(StoredWorkspace),
    /// The database could not be read; holds the whole message.
    Unreadable(String),
}

pub enum FolderContentView {
    Empty,
    Row(StoredWorkspaceView),
    Unreadable(Seq<char>),
}

impl View for FolderContent {
    type V = FolderContentView;

    open spec fn view(&self) -> FolderContentView {
        match *self {
            FolderContent::Empty => FolderContentView::Empty,
            FolderContent::Row(row) => FolderContentView::Row(row@),
            FolderContent::Unreadable(message) => FolderContentView::Unreadable(message@),
        }
    }
}

impl Clone for FolderContent {
    fn clone(&self) -> (r: Self)
        ensures
            r@ == self@,
    {
        match self {
            FolderContent::Empty => FolderContent::Empty,
            FolderContent::Row(row) => FolderContent::Row(row.clone()),
            FolderContent::Unreadable(message) => FolderContent::Unreadable(message.clone()),
        }
    }
}

/// The folders that exist under the stories directory, by name, each with
/// what it holds.
pub struct StoryFolders {
    folders: StringHashMap<FolderContent>,
}

impl View for StoryFolders {
    type V = Map<Seq<char>, FolderContentView>;

    closed spec fn view(&self) -> Map<Seq<char>, FolderContentView> {
        self.folders@.map_values(|content: FolderContent| content@)
    }
}

impl StoryFolders {
    /// No folders.
    pub fn new() -> (r: StoryFolders)
        ensures
            r@ == Map::<Seq<char>, FolderContentView>::empty(),
    {
        let r = StoryFolders { folders: StringHashMap::new() };
        assert(r@ =~= Map::<Seq<char>, FolderContentView>::empty());
        r
    }

    /// Records that the folder `name` exists and holds `content`, in place
    /// of what was recorded for that name.
    pub fn insert(&mut self, name: String, content: FolderContent)
        ensures
            final(self)@ == old(self)@.insert(name@, content@),
    {
        self.folders.insert(name, content);
        assert(self@ =~= old(self)@.insert(name@, content@));
    }

    /// Records that no folder `name` exists.
    pub fn remove(&mut self, name: &str)
        ensures
            final(self)@ == old(self)@.remove(name@),
    {
        self.folders.remove(name);
        assert(self@ =~= old(self)@.remove(name@));
    }

    /// Whether a folder `name` exists.
    pub fn contains(&self, name: &str) -> (r: bool)
        ensures
            r == self@.contains_key(name@),
    {
        self.folders.contains_key(name)
    }

    /// What the folder `name` holds.
    pub fn get(&self, name: &str) -> (r: Option<&FolderContent>)
        ensures
            match r {
                Some(content) => self@.contains_key(name@) && content@ == self@[name@],
                None => !self@.contains_key(name@),
            },
    {
        self.folders.get(name)
    }
}

/// Why a story could not be loaded.
pub enum LoadFailure {
    /// A column of its workspace row is malformed.
    Malformed(JsonText),
    /// Its database could not be read.
    Unreadable(Seq<char>),
}

/// `e` reports the failure `failure`.
pub open spec fn is_load_failure(e: ProjectErrorView, failure: LoadFailure) -> bool {
    match failure {
        LoadFailure::Malformed(what) => is_parse_failure(e, what),
        LoadFailure::Unreadable(message) => e == ProjectErrorView::IoFailure(message),
    }
}

/// What the folder `name` holds, if it exists.
pub open spec fn content_of(folders: Map<Seq<char>, FolderContentView>, name: Seq<char>) -> Option<
    FolderContentView,
> {
    if folders.contains_key(name) {
        Some(folders[name])
    } else {
        None
    }
}

/// The workspace read from a story folder: the empty one where the folder
/// is missing or holds no row, else what the row holds.
pub open spec fn content_read(content: Option<FolderContentView>) -> Result<
    WorkspaceView,
    LoadFailure,
> {
    match content {
        None => Ok(empty_workspace_view()),
        Some(FolderContentView::Empty) => Ok(empty_workspace_view()),
        Some(FolderContentView::Row(row)) => match decoded(row) {
            Ok(w) => Ok(w),
            Err(what) => Err(LoadFailure::Malformed(what)),
        },
        Some(FolderContentView::Unreadable(message)) => Err(LoadFailure::Unreadable(message)),
    }
}

/// Reads the workspace of a story from what its folder holds; see
/// `content_read`.
pub fn read_folder(content: Option<&FolderContent>) -> (r: Result<Workspace, ProjectError>)
    ensures
        match content_read(
            match content {
                Some(c) => Some(c@),
                None => None,
            },
        ) {
            Ok(w) => r matches Ok(read) && read@ == w,
            Err(failure) => r matches Err(e) && is_load_failure(e@, failure),
        },
{
    match content {
        None => Ok(empty_workspace()),
        Some(FolderContent::Empty) => Ok(empty_workspace()),
        Some(FolderContent::Row(row)) => read_workspace(Some(row)),
        Some(FolderContent::Unreadable(message)) => Err(ProjectError::IoFailure(message.clone())),
    }
}

/// How far a load has come: what the folders hold by now, the renames
/// ordered, the stories read, and the failure that ended it, if one did.
pub struct LoadState {
    pub folders: Map<Seq<char>, FolderContentView>,
    pub migrations: Seq<FolderMigrationView>,
    pub loaded: Seq<LoadedStoryView>,
    pub failure: Option<LoadFailure>,
}

/// What the folders hold once the folder `from` is renamed to `to`.
pub open spec fn folders_after_move(
    folders: Map<Seq<char>, FolderContentView>,
    from: Seq<char>,
    to: Seq<char>,
) -> Map<Seq<char>, FolderContentView> {
    folders.remove(from).insert(to, folders[from])
}

/// The load after one more story. Nothing happens after a failure. Else a
/// folder still named by the story's id is renamed to the story's folder
/// name, where that is due; then the story's workspace is read from its
/// folder, which may fail.
pub open spec fn load_step(root: Seq<char>, state: LoadState, entry: StoryManifestEntryView) -> LoadState {
    if state.failure is Some {
        state
    } else {
        let migration = legacy_migration(
            root,
            entry,
            state.folders.contains_key(entry.folder_name),
            state.folders.contains_key(entry.story.id),
        );
        let folders = if migration is Some {
            folders_after_move(state.folders, entry.story.id, entry.folder_name)
        } else {
            state.folders
        };
        let migrations = match migration {
            Some(m) => state.migrations.push(m),
            None => state.migrations,
        };
        match content_read(content_of(folders, entry.folder_name)) {
            Ok(workspace) => LoadState {
                folders,
                migrations,
                loaded: state.loaded.push(LoadedStoryView { story: entry.story, workspace }),
                failure: None,
            },
            Err(failure) => LoadState {
                folders,
                migrations,
                loaded: state.loaded,
                failure: Some(failure),
            },
        }
    }
}

/// The load after the stories of `entries`, in their order.
pub open spec fn load_states(
    root: Seq<char>,
    entries: Seq<StoryManifestEntryView>,
    folders: Map<Seq<char>, FolderContentView>,
) -> LoadState
    decreases entries.len(),
{
    if entries.len() == 0 {
        LoadState { folders, migrations: Seq::empty(), loaded: Seq::empty(), failure: None }
    } else {
        load_step(root, load_states(root, entries.drop_last(), folders), entries.last())
    }
}

/// The load of the whole project: its stories newest first.
pub open spec fn project_load(
    root: Seq<char>,
    m: ProjectManifestView,
    folders: Map<Seq<char>, FolderContentView>,
) -> LoadState {
    load_states(root, by_recency(m.stories), folders)
}

/// What loading gives: the folder renames to carry out, in order, and then
/// the project or the failure that ended the load.
#[derive(Debug)]
pub struct ProjectLoad {
    pub migrations: Vec<FolderMigration>,
    pub data: Result<ProjectData, ProjectError>,
}

/// The views of a list of folder migrations.
pub open spec fn migration_views(s: Seq<FolderMigration>) -> Seq<FolderMigrationView> {
    s.map_values(|m: FolderMigration| m@)
}

/// `load` is what the finished load `end` of the manifest `m` gives.
pub open spec fn is_project_load(load: ProjectLoad, m: ProjectManifestView, end: LoadState) -> bool {
    &&& migration_views(load.migrations@) == end.migrations
    &&& match end.failure {
        None => load.data matches Ok(data) && data@ == loaded_data(m.shared_library, end.loaded),
        Some(failure) => load.data matches Err(e) && is_load_failure(e@, failure),
    }
}

/// Once a load has failed, further stories change nothing.
proof fn lemma_failure_ends_the_load(
    root: Seq<char>,
    entries: Seq<StoryManifestEntryView>,
    folders: Map<Seq<char>, FolderContentView>,
    k: int,
)
    requires
        0 <= k <= entries.len(),
        load_states(root, entries.take(k), folders).failure is Some,
    ensures
        load_states(root, entries, folders) == load_states(root, entries.take(k), folders),
    decreases entries.len() - k,
{
    if k < entries.len() {
        assert(entries.take(k + 1).drop_last() =~= entries.take(k));
        lemma_failure_ends_the_load(root, entries, folders, k + 1);
    } else {
        assert(entries.take(k) =~= entries);
    }
}

/// Loads the project at `root` from its manifest and from what its story
/// folders hold; see `project_load`.
pub fn load_project_data(root: &str, manifest: ProjectManifest, disk: StoryFolders) -> (r:
    ProjectLoad)
    ensures
        is_project_load(r, manifest@, project_load(root@, manifest@, disk@)),
{
    let ghost given = manifest@;
    let ghost start = disk@;
    let mut folders = disk;
    let mut entries = manifest.stories;
    sort_by_recency(&mut entries);
    let ghost sorted = entry_views(entries@);
    let mut migrations: Vec<FolderMigration> = Vec::new();
    let mut stories: Vec<Story> = Vec::new();
    let mut workspaces = WorkspaceMap::new();
    assert(sorted.take(0) =~= Seq::empty());
    assert(migration_views(migrations@) =~= Seq::empty());
    for entry in it: entries
        invariant
            it.seq() == entries@,
            sorted == entry_views(entries@),
            given == manifest@,
            start == disk@,
            sorted == by_recency(given.stories),
            load_states(root@, sorted.take(it.index() as int), start).failure is None,
            load_states(root@, sorted.take(it.index() as int), start).folders == folders@,
            load_states(root@, sorted.take(it.index() as int), start).migrations
                == migration_views(migrations@),
            stories@.len() == it.index(),
            load_states(root@, sorted.take(it.index() as int), start).loaded.len() == it.index(),
            forall|j: int|
                0 <= j < it.index() ==> (#[trigger] stories@[j])@ == load_states(
                    root@,
                    sorted.take(it.index() as int),
                    start,
                ).loaded[j].story,
            workspaces@ == loaded_workspaces(
                load_states(root@, sorted.take(it.index() as int), start).loaded,
            ),
    {
        let ghost place = it.index() as int;
        let ghost before = load_states(root@, sorted.take(place), start);
        assert(entry@ == sorted[place]);
        assert(sorted.take(place + 1).drop_last() =~= sorted.take(place));
        assert(sorted.take(place + 1).last() == entry@);
        let ghost after = load_states(root@, sorted.take(place + 1), start);
        assert(after == load_step(root@, before, entry@));
        let folder_exists = folders.contains(entry.folder_name.as_str());
        let legacy_exists = folders.contains(entry.story.id.as_str());
        match plan_legacy_migration(root, &entry, folder_exists, legacy_exists) {
            Some(migration) => {
                let content = match folders.get(entry.story.id.as_str()) {
                    Some(content) => content.clone(),
                    None => FolderContent::Empty,
                };
                folders.remove(entry.story.id.as_str());
                folders.insert(entry.folder_name.clone(), content);
                let ghost listed = migration_views(migrations@);
                migrations.push(migration);
                assert(migration_views(migrations@) =~= listed.push(migration@));
            },
            None => {},
        }
        assert(folders@ == after.folders);
        assert(migration_views(migrations@) == after.migrations);
        match read_folder(folders.get(entry.folder_name.as_str())) {
            Ok(workspace) => {
                proof {
                    assert(after.loaded == before.loaded.push(
                        LoadedStoryView { story: entry@.story, workspace: workspace@ },
                    ));
                    assert(after.loaded.drop_last() =~= before.loaded);
                }
                workspaces.insert(entry.story.id.clone(), workspace);
                stories.push(entry.story);
            },
            Err(e) => {
                proof {
                    assert(after.failure is Some);
                    lemma_failure_ends_the_load(root@, sorted, start, place + 1);
                    assert(project_load(root@, given, start) == after);
                }
                return ProjectLoad { migrations, data: Err(e) };
            },
        }
    }
    proof {
        assert(sorted.take(sorted.len() as int) =~= sorted);
        let end = load_states(root@, sorted, start);
        assert(story_views(stories@) =~= end.loaded.map_values(|l: LoadedStoryView| l.story));
    }
    ProjectLoad {
        migrations,
        data: Ok(ProjectData { stories, workspaces, shared_library: manifest.shared_library }),
    }
}

/// A load that has not failed has read every story so far, in order.
pub proof fn lemma_load_reads_every_story(
    root: Seq<char>,
    entries: Seq<StoryManifestEntryView>,
    folders: Map<Seq<char>, FolderContentView>,
)
    requires
        load_states(root, entries, folders).failure is None,
    ensures
        load_states(root, entries, folders).loaded.len() == entries.len(),
        forall|i: int|
            0 <= i < entries.len() ==> (#[trigger] load_states(root, entries, folders).loaded[i]).story
                == entries[i].story,
    decreases entries.len(),
{
    if entries.len() > 0 {
        let front = entries.drop_last();
        let before = load_states(root, front, folders);
        assert(before.failure is None);
        lemma_load_reads_every_story(root, front, folders);
        let after = load_states(root, entries, folders);
        assert forall|i: int| 0 <= i < entries.len() implies (#[trigger] after.loaded[i]).story
            == entries[i].story by {
            if i < front.len() {
                assert(after.loaded[i] == before.loaded[i]);
                assert(front[i] == entries[i]);
            }
        }
    }
}

/// No rename is due for any of `entries`, and every folder of theirs reads.
pub open spec fn loads_in_place(
    entries: Seq<StoryManifestEntryView>,
    folders: Map<Seq<char>, FolderContentView>,
) -> bool {
    forall|i: int|
        0 <= i < entries.len() ==> (folders.contains_key((#[trigger] entries[i]).folder_name)
            || !folders.contains_key(entries[i].story.id)) && content_read(
            content_of(folders, entries[i].folder_name),
        ) is Ok
}

/// The workspace that each folder holds, for the folders that read.
pub open spec fn folder_workspaces(folders: Map<Seq<char>, FolderContentView>) -> Map<
    Seq<char>,
    WorkspaceView,
> {
    folders.map_values(|content: FolderContentView| content_read(Some(content))->Ok_0)
}

/// Where no rename is due and every folder reads, the load keeps the
/// folders as they are and reads every story from its own folder.
proof fn lemma_load_in_place(
    root: Seq<char>,
    entries: Seq<StoryManifestEntryView>,
    folders: Map<Seq<char>, FolderContentView>,
)
    requires
        loads_in_place(entries, folders),
    ensures
        load_states(root, entries, folders) == (LoadState {
            folders,
            migrations: Seq::empty(),
            loaded: entries.map_values(
                |e: StoryManifestEntryView| read_back(e, folder_workspaces(folders)),
            ),
            failure: None,
        }),
    decreases entries.len(),
{
    let workspaces = folder_workspaces(folders);
    if entries.len() > 0 {
        let front = entries.drop_last();
        assert forall|i: int| 0 <= i < front.len() implies (folders.contains_key(
            (#[trigger] front[i]).folder_name,
        ) || !folders.contains_key(front[i].story.id)) && content_read(
            content_of(folders, front[i].folder_name),
        ) is Ok by {
            assert(front[i] == entries[i]);
        }
        lemma_load_in_place(root, front, folders);
        let last = entries[entries.len() - 1];
        assert(entries.last() == last);
        assert(entries.map_values(|e: StoryManifestEntryView| read_back(e, workspaces))
            =~= front.map_values(|e: StoryManifestEntryView| read_back(e, workspaces)).push(
            read_back(last, workspaces),
        ));
    } else {
        assert(entries.map_values(|e: StoryManifestEntryView| read_back(e, workspaces))
            =~= Seq::<LoadedStoryView>::empty());
    }
}

/// Where no folder is to be renamed and every folder reads, loading orders
/// no rename and gives the stories newest first, each with the workspace of
/// its folder.
pub proof fn law_load_in_place(
    root: Seq<char>,
    m: ProjectManifestView,
    folders: Map<Seq<char>, FolderContentView>,
)
    requires
        loads_in_place(by_recency(m.stories), folders),
    ensures
        project_load(root, m, folders).failure is None,
        project_load(root, m, folders).migrations == Seq::<FolderMigrationView>::empty(),
        loaded_data(m.shared_library, project_load(root, m, folders).loaded) == reloaded(
            m,
            folder_workspaces(folders),
        ),
{
    lemma_load_in_place(root, by_recency(m.stories), folders);
}

/// A story whose folder is missing while a folder named by its id exists
/// has that folder renamed to its folder name, and is read with what the
/// folder held.
pub proof fn law_step_migrates_legacy_folder(
    root: Seq<char>,
    state: LoadState,
    entry: StoryManifestEntryView,
)
    requires
        state.failure is None,
        !state.folders.contains_key(entry.folder_name),
        state.folders.contains_key(entry.story.id),
    ensures
        load_step(root, state, entry).migrations == state.migrations.push(
            FolderMigrationView {
                from: crate::paths::place(root, seq!["stories"@, entry.story.id]),
                to: crate::paths::place(root, seq!["stories"@, entry.folder_name]),
            },
        ),
        !load_step(root, state, entry).folders.contains_key(entry.story.id),
        load_step(root, state, entry).folders.contains_key(entry.folder_name),
        load_step(root, state, entry).folders[entry.folder_name]
            == state.folders[entry.story.id],
        match content_read(Some(state.folders[entry.story.id])) {
            Ok(workspace) => load_step(root, state, entry).loaded == state.loaded.push(
                LoadedStoryView { story: entry.story, workspace },
            ),
            Err(failure) => load_step(root, state, entry).failure == Some(failure),
        },
{
}

/// `entry` has `name` as its folder name or as its story's id.
pub open spec fn mentions(entry: StoryManifestEntryView, name: Seq<char>) -> bool {
    entry.folder_name == name || entry.story.id == name
}

/// A story changes only the folders that it mentions, and a load only adds
/// to the renames ordered and to the stories read.
proof fn lemma_step_is_local(
    root: Seq<char>,
    state: LoadState,
    entry: StoryManifestEntryView,
    name: Seq<char>,
)
    ensures
        !mentions(entry, name) ==> content_of(load_step(root, state, entry).folders, name)
            == content_of(state.folders, name),
        state.migrations.len() <= load_step(root, state, entry).migrations.len(),
        load_step(root, state, entry).migrations.take(state.migrations.len() as int)
            == state.migrations,
        state.loaded.len() <= load_step(root, state, entry).loaded.len(),
        load_step(root, state, entry).loaded.take(state.loaded.len() as int) == state.loaded,
{
    let after = load_step(root, state, entry);
    assert(after.migrations.take(state.migrations.len() as int) =~= state.migrations);
    assert(after.loaded.take(state.loaded.len() as int) =~= state.loaded);
}

/// Between the stories `lo` and `hi` of a load, a folder that none of them
/// mentions stays as it is, and what was ordered and read by `lo` stays.
proof fn lemma_load_is_local(
    root: Seq<char>,
    entries: Seq<StoryManifestEntryView>,
    folders: Map<Seq<char>, FolderContentView>,
    lo: int,
    hi: int,
    name: Seq<char>,
)
    requires
        0 <= lo <= hi <= entries.len(),
        forall|j: int| lo <= j < hi ==> !mentions(#[trigger] entries[j], name),
    ensures
        content_of(load_states(root, entries.take(hi), folders).folders, name) == content_of(
            load_states(root, entries.take(lo), folders).folders,
            name,
        ),
        load_states(root, entries.take(lo), folders).migrations.len() <= load_states(
            root,
            entries.take(hi),
            folders,
        ).migrations.len(),
        load_states(root, entries.take(hi), folders).migrations.take(
            load_states(root, entries.take(lo), folders).migrations.len() as int,
        ) == load_states(root, entries.take(lo), folders).migrations,
        load_states(root, entries.take(lo), folders).loaded.len() <= load_states(
            root,
            entries.take(hi),
            folders,
        ).loaded.len(),
        load_states(root, entries.take(hi), folders).loaded.take(
            load_states(root, entries.take(lo), folders).loaded.len() as int,
        ) == load_states(root, entries.take(lo), folders).loaded,
    decreases hi - lo,
{
    let start = load_states(root, entries.take(lo), folders);
    if lo < hi {
        lemma_load_is_local(root, entries, folders, lo, hi - 1, name);
        let before = load_states(root, entries.take(hi - 1), folders);
        let after = load_states(root, entries.take(hi), folders);
        assert(entries.take(hi).drop_last() =~= entries.take(hi - 1));
        assert(entries.take(hi).last() == entries[hi - 1]);
        assert(after == load_step(root, before, entries[hi - 1]));
        lemma_step_is_local(root, before, entries[hi - 1], name);
        assert(after.migrations.take(start.migrations.len() as int) =~= before.migrations.take(
            start.migrations.len() as int,
        ));
        assert(after.loaded.take(start.loaded.len() as int) =~= before.loaded.take(
            start.loaded.len() as int,
        ));
    } else {
        assert(start.migrations.take(start.migrations.len() as int) =~= start.migrations);
        assert(start.loaded.take(start.loaded.len() as int) =~= start.loaded);
    }
}

/// A load that has not failed in the end had not failed at any story.
proof fn lemma_no_failure_on_the_way(
    root: Seq<char>,
    entries: Seq<StoryManifestEntryView>,
    folders: Map<Seq<char>, FolderContentView>,
    k: int,
)
    requires
        0 <= k <= entries.len(),
        load_states(root, entries, folders).failure is None,
    ensures
        load_states(root, entries.take(k), folders).failure is None,
{
    if load_states(root, entries.take(k), folders).failure is Some {
        lemma_failure_ends_the_load(root, entries, folders, k);
    }
}

/// In a load that succeeds, a story whose folder is missing while a folder
/// named by its id exists, and whose folder name and id no other story of
/// the manifest mentions, has that folder renamed to its folder name: the
/// rename is among those ordered, afterwards no folder is named by the id,
/// the story's folder holds what the id-named folder held, and the story is
/// read with the workspace that was stored there. `entries` are the stories
/// in the order of the load, which is `by_recency` of the manifest's.
pub proof fn law_load_migrates_legacy_folders(
    root: Seq<char>,
    entries: Seq<StoryManifestEntryView>,
    folders: Map<Seq<char>, FolderContentView>,
    i: int,
)
    requires
        0 <= i < entries.len(),
        !folders.contains_key(entries[i].folder_name),
        folders.contains_key(entries[i].story.id),
        forall|j: int|
            0 <= j < entries.len() && j != i ==> !mentions(
                #[trigger] entries[j],
                entries[i].folder_name,
            ) && !mentions(entries[j], entries[i].story.id),
        load_states(root, entries, folders).failure is None,
    ensures
        ({
            let end = load_states(root, entries, folders);
            let entry = entries[i];
            &&& exists|k: int|
                0 <= k < end.migrations.len() && #[trigger] end.migrations[k]
                    == (FolderMigrationView {
                    from: crate::paths::place(root, seq!["stories"@, entry.story.id]),
                    to: crate::paths::place(root, seq!["stories"@, entry.folder_name]),
                })
            &&& !end.folders.contains_key(entry.story.id)
            &&& end.folders.contains_key(entry.folder_name)
            &&& end.folders[entry.folder_name] == folders[entry.story.id]
            &&& content_read(Some(folders[entry.story.id])) matches Ok(workspace) && end.loaded[i]
                == (LoadedStoryView { story: entry.story, workspace }) && loaded_workspaces(
                end.loaded,
            ).contains_key(entry.story.id) && loaded_workspaces(end.loaded)[entry.story.id]
                == workspace
        }),
{
    let n = entries.len() as int;
    let entry = entries[i];
    let folder = entry.folder_name;
    let id = entry.story.id;
    let end = load_states(root, entries, folders);
    let before = load_states(root, entries.take(i), folders);
    let after = load_states(root, entries.take(i + 1), folders);
    assert(entries.take(n) =~= entries);
    assert(entries.take(0) =~= Seq::<StoryManifestEntryView>::empty());
    lemma_no_failure_on_the_way(root, entries, folders, i);
    lemma_no_failure_on_the_way(root, entries, folders, i + 1);
    // Up to the story, its two folders are as they were at the start.
    lemma_load_is_local(root, entries, folders, 0, i, folder);
    lemma_load_is_local(root, entries, folders, 0, i, id);
    assert(content_of(before.folders, folder) == content_of(folders, folder));
    assert(content_of(before.folders, id) == content_of(folders, id));
    // The story's own step.
    assert(entries.take(i + 1).drop_last() =~= entries.take(i));
    assert(entries.take(i + 1).last() == entry);
    assert(after == load_step(root, before, entry));
    lemma_load_reads_every_story(root, entries.take(i), folders);
    assert(before.loaded.len() == i);
    let workspace = content_read(Some(folders[id]))->Ok_0;
    assert(after.loaded[i] == LoadedStoryView { story: entry.story, workspace });
    assert(after.migrations[before.migrations.len() as int] == FolderMigrationView {
        from: crate::paths::place(root, seq!["stories"@, id]),
        to: crate::paths::place(root, seq!["stories"@, folder]),
    });
    // From there to the end, nothing touches them.
    lemma_load_is_local(root, entries, folders, i + 1, n, folder);
    lemma_load_is_local(root, entries, folders, i + 1, n, id);
    assert(end.migrations[before.migrations.len() as int] == end.migrations.take(
        after.migrations.len() as int,
    )[before.migrations.len() as int]);
    assert(end.loaded[i] == end.loaded.take(after.loaded.len() as int)[i]);
    // No other story has the id, so the workspaces by id hold this one.
    lemma_load_reads_every_story(root, entries, folders);
    assert forall|k: int|
        0 <= k < end.loaded.len() && (#[trigger] end.loaded[k]).story.id == id implies end.loaded[k].workspace
        == workspace by {
        if k != i {
            assert(!mentions(entries[k], id));
        }
    }
    assert(end.loaded[i].story.id == id);
    crate::round_trip::lemma_loaded_lookup(end.loaded, id, workspace);
}

} // verus!
