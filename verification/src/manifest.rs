//! The manifest of a project root: the stories it holds, the folder of each,
//! and the library they share.

use vstd::prelude::*;
use crate::error::{Document, JsonText, ProjectError, ProjectErrorView};
use crate::library::{default_library, default_library_view, SettingLibrary, SettingLibraryView};
use crate::slug::{folder_name_of, make_story_folder_name};
use crate::story::{Story, StoryView};
use crate::CURRENT_SCHEMA_VERSION;

verus! {

/// The name that every manifest and snapshot of this application carries.
pub open spec fn app_name() -> Seq<char> {
    "takecopter"@
}

/// A story and the folder, under the stories directory, that holds it.
#[derive(Debug, PartialEq, Eq)]
pub struct StoryManifestEntry {
    pub story: Story,
    pub folder_name: String,
}

pub struct StoryManifestEntryView {
    pub story: StoryView,
    pub folder_name: Seq<char>,
}

impl View for StoryManifestEntry {
    type V = StoryManifestEntryView;

    open spec fn view(&self) -> StoryManifestEntryView {
        StoryManifestEntryView { story: self.story@, folder_name: self.folder_name@ }
    }
}

impl Clone for StoryManifestEntry {
    fn clone(&self) -> (r: Self)
        ensures
            r@ == self@,
    {
        StoryManifestEntry { story: self.story.clone(), folder_name: self.folder_name.clone() }
    }
}

/// The views of a list of entries.
pub open spec fn entry_views(s: Seq<StoryManifestEntry>) -> Seq<StoryManifestEntryView> {
    s.map_values(|e: StoryManifestEntry| e@)
}

/// A copy of a list of entries.
pub fn clone_entries(v: &Vec<StoryManifestEntry>) -> (r: Vec<StoryManifestEntry>)
    ensures
        entry_views(r@) == entry_views(v@),
{
    let mut out: Vec<StoryManifestEntry> = Vec::new();
    let mut i: usize = 0;
    while i < v.len()
        invariant
            i <= v.len(),
            out@.len() == i,
            forall|j: int| 0 <= j < i ==> out@[j]@ == v@[j]@,
        decreases v.len() - i,
    {
        out.push(v[i].clone());
        i += 1;
    }
    assert(entry_views(out@) =~= entry_views(v@));
    out
}

/// The manifest as the current schema stores it.
#[derive(Debug, PartialEq, Eq)]
pub struct ProjectManifest {
    pub app: String,
    pub schema_version: i64,
    pub created_at: String,
    pub shared_library: SettingLibrary,
    pub stories: Vec<StoryManifestEntry>,
}

pub struct ProjectManifestView {
    pub app: Seq<char>,
    pub schema_version: i64,
    pub created_at: Seq<char>,
    pub shared_library: SettingLibraryView,
    pub stories: Seq<StoryManifestEntryView>,
}

impl View for ProjectManifest {
    type V = ProjectManifestView;

    open spec fn view(&self) -> ProjectManifestView {
        ProjectManifestView {
            app: self.app@,
            schema_version: self.schema_version,
            created_at: self.created_at@,
            shared_library: self.shared_library@,
            stories: entry_views(self.stories@),
        }
    }
}

impl Clone for ProjectManifest {
    fn clone(&self) -> (r: Self)
        ensures
            r@ == self@,
    {
        ProjectManifest {
            app: self.app.clone(),
            schema_version: self.schema_version,
            created_at: self.created_at.clone(),
            shared_library: self.shared_library.clone(),
            stories: clone_entries(&self.stories),
        }
    }
}

/// The manifest as the first schema stored it: stories only, without
/// folder names or a shared library.
#[derive(Debug, PartialEq, Eq)]
pub struct LegacyProjectManifest {
    pub app: String,
    pub schema_version: i64,
    pub created_at: String,
    pub stories: Vec<Story>,
}

pub struct LegacyProjectManifestView {
    pub app: Seq<char>,
    pub schema_version: i64,
    pub created_at: Seq<char>,
    pub stories: Seq<StoryView>,
}

impl View for LegacyProjectManifest {
    type V = LegacyProjectManifestView;

    open spec fn view(&self) -> LegacyProjectManifestView {
        LegacyProjectManifestView {
            app: self.app@,
            schema_version: self.schema_version,
            created_at: self.created_at@,
            stories: crate::story::story_views(self.stories@),
        }
    }
}

/// The entry that a story gets where none is recorded: its folder name is
/// derived from its title and id.
pub open spec fn derived_entry(story: StoryView) -> StoryManifestEntryView {
    StoryManifestEntryView { story, folder_name: folder_name_of(story.title, story.id) }
}

/// Every entry's folder name is the one derived from its story's title and
/// id.
pub open spec fn folders_are_derived(m: ProjectManifestView) -> bool {
    forall|i: int|
        0 <= i < m.stories.len() ==> (#[trigger] m.stories[i]) == derived_entry(
            m.stories[i].story,
        )
}

/// `i` is the place of the first entry whose story has the id `id`.
pub open spec fn is_first_match(entries: Seq<StoryManifestEntryView>, id: Seq<char>, i: int) -> bool {
    &&& 0 <= i < entries.len()
    &&& entries[i].story.id == id
    &&& forall|j: int| 0 <= j < i ==> (#[trigger] entries[j]).story.id != id
}

/// The place of the first entry whose story has the id `id`, if there is one.
pub open spec fn story_position(entries: Seq<StoryManifestEntryView>, id: Seq<char>) -> Option<int> {
    if exists|i: int| is_first_match(entries, id, i) {
        Some(choose|i: int| is_first_match(entries, id, i))
    } else {
        None
    }
}

/// A first match is the story's position.
pub proof fn lemma_story_position_found(entries: Seq<StoryManifestEntryView>, id: Seq<char>, i: int)
    requires
        is_first_match(entries, id, i),
    ensures
        story_position(entries, id) == Some(i),
{
    let k = choose|k: int| is_first_match(entries, id, k);
    assert(is_first_match(entries, id, k));
    if k < i {
        assert(entries[k].story.id != id);
    } else if i < k {
        assert(entries[i].story.id != id);
    }
}

/// Where no entry has the id, the story has no position.
pub proof fn lemma_story_position_absent(entries: Seq<StoryManifestEntryView>, id: Seq<char>)
    requires
        forall|j: int| 0 <= j < entries.len() ==> (#[trigger] entries[j]).story.id != id,
    ensures
        story_position(entries, id) is None,
{
}

/// A story's position is the place of the first entry with its id; a
/// story without position has no entry.
pub proof fn lemma_story_position_is_first(entries: Seq<StoryManifestEntryView>, id: Seq<char>)
    ensures
        match story_position(entries, id) {
            Some(i) => is_first_match(entries, id, i),
            None => forall|j: int|
                0 <= j < entries.len() ==> (#[trigger] entries[j]).story.id != id,
        },
{
    if exists|i: int| is_first_match(entries, id, i) {
    } else {
        assert forall|j: int| 0 <= j < entries.len() implies (#[trigger] entries[j]).story.id
            != id by {
            if entries[j].story.id == id {
                lemma_some_match_has_first(entries, id, j);
            }
        }
    }
}

/// Where some entry has the id, one of them is the first.
proof fn lemma_some_match_has_first(entries: Seq<StoryManifestEntryView>, id: Seq<char>, j: int)
    requires
        0 <= j < entries.len(),
        entries[j].story.id == id,
    ensures
        exists|i: int| is_first_match(entries, id, i),
    decreases j,
{
    if exists|k: int| 0 <= k < j && (#[trigger] entries[k]).story.id == id {
        let k = choose|k: int| 0 <= k < j && (#[trigger] entries[k]).story.id == id;
        lemma_some_match_has_first(entries, id, k);
    } else {
        assert(is_first_match(entries, id, j));
    }
}

/// The place of the first entry for `story_id`.
pub fn find_story_index(manifest: &ProjectManifest, story_id: &str) -> (r: Option<usize>)
    ensures
        match r {
            Some(i) => story_position(manifest@.stories, story_id@) == Some(i as int),
            None => story_position(manifest@.stories, story_id@) is None,
        },
{
    let wanted = story_id.to_owned();
    let mut i: usize = 0;
    while i < manifest.stories.len()
        invariant
            i <= manifest.stories.len(),
            wanted@ == story_id@,
            forall|j: int| 0 <= j < i ==> (#[trigger] manifest@.stories[j]).story.id != story_id@,
        decreases manifest.stories.len() - i,
    {
        if manifest.stories[i].story.id == wanted {
            proof {
                lemma_story_position_found(manifest@.stories, story_id@, i as int);
            }
            return Some(i);
        }
        i += 1;
    }
    proof {
        lemma_story_position_absent(manifest@.stories, story_id@);
    }
    None
}

/// The first entry whose story has the id `story_id`.
pub fn find_story_entry<'a>(manifest: &'a ProjectManifest, story_id: &str) -> (r: Option<
    &'a StoryManifestEntry,
>)
    ensures
        match story_position(manifest@.stories, story_id@) {
            Some(i) => r matches Some(entry) && entry@ == manifest@.stories[i],
            None => r is None,
        },
{
    match find_story_index(manifest, story_id) {
        Some(i) => Some(&manifest.stories[i]),
        None => None,
    }
}

/// The first entry whose story has the id `story_id`, to be changed in
/// place. Nothing else of the manifest changes through it.
pub fn find_story_entry_mut<'a>(manifest: &'a mut ProjectManifest, story_id: &str) -> (r: Option<
    &'a mut StoryManifestEntry,
>)
    ensures
        match story_position(old(manifest)@.stories, story_id@) {
            Some(i) => r matches Some(entry) && entry@ == old(manifest)@.stories[i]
                && final(manifest)@ == (ProjectManifestView {
                stories: old(manifest)@.stories.update(i, final(entry)@),
                ..old(manifest)@
            }),
            None => r is None && final(manifest)@ == old(manifest)@,
        },
{
    match find_story_index(manifest, story_id) {
        Some(i) => {
            let entry = &mut manifest.stories[i];
            proof {
                assert(entry_views(old(manifest).stories@.update(i as int, *final(entry)))
                    =~= old(manifest)@.stories.update(i as int, final(entry)@));
            }
            Some(entry)
        },
        None => None,
    }
}

/// The manifest of a root that holds no story yet.
pub open spec fn empty_manifest_view(now: Seq<char>) -> ProjectManifestView {
    ProjectManifestView {
        app: app_name(),
        schema_version: CURRENT_SCHEMA_VERSION,
        created_at: now,
        shared_library: default_library_view(),
        stories: Seq::empty(),
    }
}

/// A manifest without stories, created at `now`.
pub fn empty_manifest(now: String) -> (r: ProjectManifest)
    ensures
        r@ == empty_manifest_view(now@),
{
    let r = ProjectManifest {
        app: "takecopter".to_owned(),
        schema_version: CURRENT_SCHEMA_VERSION,
        created_at: now,
        shared_library: default_library(),
        stories: Vec::new(),
    };
    assert(r@.stories =~= Seq::empty());
    r
}

/// A first-schema manifest in the current schema: every story gets the
/// folder name derived from its title and id, and the shared library is the
/// default one.
pub open spec fn migrated_view(legacy: LegacyProjectManifestView) -> ProjectManifestView {
    ProjectManifestView {
        app: legacy.app,
        schema_version: legacy.schema_version,
        created_at: legacy.created_at,
        shared_library: default_library_view(),
        stories: legacy.stories.map_values(|s: StoryView| derived_entry(s)),
    }
}

/// The entries of `stories`, each with its derived folder name.
pub fn derive_entries(stories: Vec<Story>) -> (r: Vec<StoryManifestEntry>)
    ensures
        entry_views(r@) == crate::story::story_views(stories@).map_values(
            |s: StoryView| derived_entry(s),
        ),
{
    let mut entries: Vec<StoryManifestEntry> = Vec::new();
    let ghost all = stories@;
    for story in it: stories
        invariant
            it.seq() == all,
            entries@.len() == it.index(),
            forall|j: int| 0 <= j < it.index() ==> (#[trigger] entries@[j])@ == derived_entry(all[j]@),
    {
        let folder_name = make_story_folder_name(story.title.as_str(), story.id.as_str());
        entries.push(StoryManifestEntry { story, folder_name });
    }
    assert(entry_views(entries@) =~= crate::story::story_views(all).map_values(
        |s: StoryView| derived_entry(s),
    ));
    entries
}

/// Brings a first-schema manifest into the current schema.
pub fn migrate_legacy_manifest(legacy: LegacyProjectManifest) -> (r: ProjectManifest)
    ensures
        r@ == migrated_view(legacy@),
{
    ProjectManifest {
        app: legacy.app,
        schema_version: legacy.schema_version,
        created_at: legacy.created_at,
        shared_library: default_library(),
        stories: derive_entries(legacy.stories),
    }
}

/// What reading a manifest file gives. `current` is the file read in the
/// current schema, if it could be; `legacy` is the file read in the first
/// schema, or the parser's words where that failed too. The current schema
/// wins; a first-schema file is migrated; either must name this application.
pub open spec fn manifest_read(
    current: Option<ProjectManifestView>,
    legacy: Result<LegacyProjectManifestView, Seq<char>>,
) -> Result<ProjectManifestView, ProjectErrorView> {
    let found = match current {
        Some(m) => Ok(m),
        None => match legacy {
            Ok(l) => Ok(migrated_view(l)),
            Err(detail) => Err(ProjectErrorView::ParseFailure(JsonText::Manifest, detail)),
        },
    };
    match found {
        Ok(m) => if m.app == app_name() {
            Ok(m)
        } else {
            Err(ProjectErrorView::InvalidSource(Document::Manifest))
        },
        Err(e) => Err(e),
    }
}

/// The view of a manifest or of the failure in its place.
pub open spec fn manifest_result_view(r: Result<ProjectManifest, ProjectError>) -> Result<
    ProjectManifestView,
    ProjectErrorView,
> {
    match r {
        Ok(m) => Ok(m@),
        Err(e) => Err(e@),
    }
}

/// The view of a first-schema manifest or of the parser's words.
pub open spec fn legacy_result_view(r: Result<LegacyProjectManifest, String>) -> Result<
    LegacyProjectManifestView,
    Seq<char>,
> {
    match r {
        Ok(m) => Ok(m@),
        Err(e) => Err(e@),
    }
}

/// The view of a manifest, if there is one.
pub open spec fn manifest_option_view(o: Option<ProjectManifest>) -> Option<ProjectManifestView> {
    match o {
        Some(m) => Some(m@),
        None => None,
    }
}

/// Decides what a manifest file holds; see `manifest_read`.
pub fn read_manifest(
    current: Option<ProjectManifest>,
    legacy: Result<LegacyProjectManifest, String>,
) -> (r: Result<ProjectManifest, ProjectError>)
    ensures
        manifest_result_view(r) == manifest_read(
            manifest_option_view(current),
            legacy_result_view(legacy),
        ),
{
    let manifest = match current {
        Some(m) => m,
        None => match legacy {
            Ok(l) => migrate_legacy_manifest(l),
            Err(detail) => {
                return Err(ProjectError::ParseFailure(JsonText::Manifest, detail));
            },
        },
    };
    let expected = "takecopter".to_owned();
    if manifest.app == expected {
        Ok(manifest)
    } else {
        Err(ProjectError::InvalidSource(Document::Manifest))
    }
}

} // verus!
