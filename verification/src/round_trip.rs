//! A project that is exported, imported into a root, and loaded from there
//! again is the project that was exported.

use vstd::prelude::*;
use crate::data::{
    loaded_data, loaded_workspaces, read_back, reloaded, LoadedStoryView, ProjectDataView,
};
use crate::load::{lemma_load_reads_every_story, project_load, FolderContentView};
use crate::manifest::{derived_entry, ProjectManifestView, StoryManifestEntryView};
use crate::recency::{
    by_recency, law_by_recency_orders, law_by_recency_permutes, lemma_by_recency_keeps_ordered, newer,
    newest_first,
};
use crate::slug::folder_name_of;
use crate::stories::WorkspaceWriteView;
use crate::story::StoryView;
use crate::text::lex_le;
use crate::transfer::{exported_project, import_write, imported_project};
use crate::workspace::WorkspaceView;

verus! {

/// What each story folder's database holds once `writes` have been carried
/// out in order.
pub open spec fn stored_workspaces(writes: Seq<WorkspaceWriteView>) -> Map<Seq<char>, WorkspaceView>
    decreases writes.len(),
{
    if writes.len() == 0 {
        Map::empty()
    } else {
        stored_workspaces(writes.drop_last()).insert(
            writes.last().folder_name,
            writes.last().workspace,
        )
    }
}

/// The stories are listed newest first.
pub open spec fn listed_newest_first(stories: Seq<StoryView>) -> bool {
    forall|i: int, j: int|
        0 <= i < j < stories.len() ==> lex_le(
            (#[trigger] stories[j]).updated_at,
            (#[trigger] stories[i]).updated_at,
        )
}

/// The workspaces are those of the listed stories: one for every story, and
/// none besides.
pub open spec fn workspaces_match_stories(data: ProjectDataView) -> bool {
    forall|id: Seq<char>| #[trigger]
        data.workspaces.contains_key(id) <==> exists|i: int|
            0 <= i < data.stories.len() && (#[trigger] data.stories[i]).id == id
}

/// Stories with different ids get different folders.
pub open spec fn folders_tell_stories_apart(stories: Seq<StoryView>) -> bool {
    forall|i: int, j: int|
        0 <= i < stories.len() && 0 <= j < stories.len() && folder_name_of(
            (#[trigger] stories[i]).title,
            stories[i].id,
        ) == folder_name_of((#[trigger] stories[j]).title, stories[j].id) ==> stories[i].id
            == stories[j].id
}

proof fn lemma_stored_lookup(writes: Seq<WorkspaceWriteView>, folder: Seq<char>, w: WorkspaceView)
    requires
        exists|k: int| 0 <= k < writes.len() && (#[trigger] writes[k]).folder_name == folder,
        forall|k: int|
            0 <= k < writes.len() && (#[trigger] writes[k]).folder_name == folder
                ==> writes[k].workspace == w,
    ensures
        stored_workspaces(writes).contains_key(folder),
        stored_workspaces(writes)[folder] == w,
    decreases writes.len(),
{
    let k = choose|k: int| 0 <= k < writes.len() && (#[trigger] writes[k]).folder_name == folder;
    if writes.last().folder_name != folder {
        let front = writes.drop_last();
        assert(front[k] == writes[k]);
        assert forall|j: int|
            0 <= j < front.len() && (#[trigger] front[j]).folder_name == folder implies front[j].workspace
            == w by {
            assert(front[j] == writes[j]);
        }
        lemma_stored_lookup(front, folder, w);
    }
}

/// Where every story of `loaded` with the id `id` has the workspace `w`, and
/// there is one, the workspaces by id hold `w` under `id`.
pub proof fn lemma_loaded_lookup(loaded: Seq<LoadedStoryView>, id: Seq<char>, w: WorkspaceView)
    requires
        exists|k: int| 0 <= k < loaded.len() && (#[trigger] loaded[k]).story.id == id,
        forall|k: int|
            0 <= k < loaded.len() && (#[trigger] loaded[k]).story.id == id ==> loaded[k].workspace
                == w,
    ensures
        loaded_workspaces(loaded).contains_key(id),
        loaded_workspaces(loaded)[id] == w,
    decreases loaded.len(),
{
    let k = choose|k: int| 0 <= k < loaded.len() && (#[trigger] loaded[k]).story.id == id;
    if loaded.last().story.id != id {
        let front = loaded.drop_last();
        assert(front[k] == loaded[k]);
        assert forall|j: int|
            0 <= j < front.len() && (#[trigger] front[j]).story.id == id implies front[j].workspace
            == w by {
            assert(front[j] == loaded[j]);
        }
        lemma_loaded_lookup(front, id, w);
    }
}

proof fn lemma_loaded_domain(loaded: Seq<LoadedStoryView>, id: Seq<char>)
    requires
        loaded_workspaces(loaded).contains_key(id),
    ensures
        exists|k: int| 0 <= k < loaded.len() && (#[trigger] loaded[k]).story.id == id,
    decreases loaded.len(),
{
    if loaded.len() > 0 {
        if loaded.last().story.id == id {
            assert(loaded[loaded.len() - 1].story.id == id);
        } else {
            let front = loaded.drop_last();
            lemma_loaded_domain(front, id);
            let k = choose|k: int| 0 <= k < front.len() && (#[trigger] front[k]).story.id == id;
            assert(loaded[k] == front[k]);
        }
    }
}

proof fn lemma_loaded_contains(loaded: Seq<LoadedStoryView>, k: int)
    requires
        0 <= k < loaded.len(),
    ensures
        loaded_workspaces(loaded).contains_key(loaded[k].story.id),
    decreases loaded.len(),
{
    if k < loaded.len() - 1 {
        let front = loaded.drop_last();
        assert(front[k] == loaded[k]);
        lemma_loaded_contains(front, k);
    }
}

/// A project as loading gives it lists its stories newest first and holds a
/// workspace for every story and no other.
pub proof fn law_loaded_project_is_well_formed(
    m: ProjectManifestView,
    stored: Map<Seq<char>, WorkspaceView>,
)
    ensures
        listed_newest_first(reloaded(m, stored).stories),
        workspaces_match_stories(reloaded(m, stored)),
        reloaded(m, stored).shared_library == m.shared_library,
        reloaded(m, stored).stories.len() == m.stories.len(),
{
    let sorted = by_recency(m.stories);
    let loaded = sorted.map_values(|e: StoryManifestEntryView| read_back(e, stored));
    let data = reloaded(m, stored);
    law_by_recency_orders(m.stories);
    law_by_recency_permutes(m.stories);
    assert forall|i: int, j: int| 0 <= i < j < data.stories.len() implies lex_le(
        (#[trigger] data.stories[j]).updated_at,
        (#[trigger] data.stories[i]).updated_at,
    ) by {
        assert(data.stories[i] == sorted[i].story && data.stories[j] == sorted[j].story);
        assert(!newer(sorted[j], sorted[i]));
    }
    assert forall|id: Seq<char>| #[trigger]
        data.workspaces.contains_key(id) <==> exists|i: int|
            0 <= i < data.stories.len() && (#[trigger] data.stories[i]).id == id by {
        if data.workspaces.contains_key(id) {
            lemma_loaded_domain(loaded, id);
            let k = choose|k: int| 0 <= k < loaded.len() && (#[trigger] loaded[k]).story.id == id;
            assert(data.stories[k].id == id);
        }
        if exists|i: int| 0 <= i < data.stories.len() && (#[trigger] data.stories[i]).id == id {
            let i = choose|i: int|
                0 <= i < data.stories.len() && (#[trigger] data.stories[i]).id == id;
            assert(loaded[i].story.id == id);
            lemma_loaded_contains(loaded, i);
        }
    }
}

/// Every load that succeeds gives a project that lists the manifest's
/// stories newest first and holds a workspace for every story and no other,
/// whatever folders were renamed on the way.
pub proof fn law_successful_load_is_well_formed(
    root: Seq<char>,
    m: ProjectManifestView,
    folders: Map<Seq<char>, FolderContentView>,
)
    requires
        project_load(root, m, folders).failure is None,
    ensures
        ({
            let data = loaded_data(m.shared_library, project_load(root, m, folders).loaded);
            &&& listed_newest_first(data.stories)
            &&& workspaces_match_stories(data)
            &&& data.stories.len() == m.stories.len()
            &&& data.stories == by_recency(m.stories).map_values(
                |e: StoryManifestEntryView| e.story,
            )
            &&& data.shared_library == m.shared_library
        }),
{
    let sorted = by_recency(m.stories);
    let loaded = project_load(root, m, folders).loaded;
    let data = loaded_data(m.shared_library, loaded);
    lemma_load_reads_every_story(root, sorted, folders);
    law_by_recency_orders(m.stories);
    law_by_recency_permutes(m.stories);
    assert(data.stories =~= sorted.map_values(|e: StoryManifestEntryView| e.story));
    assert forall|i: int, j: int| 0 <= i < j < data.stories.len() implies lex_le(
        (#[trigger] data.stories[j]).updated_at,
        (#[trigger] data.stories[i]).updated_at,
    ) by {
        assert(data.stories[i] == sorted[i].story && data.stories[j] == sorted[j].story);
        assert(!newer(sorted[j], sorted[i]));
    }
    assert forall|id: Seq<char>| #[trigger]
        data.workspaces.contains_key(id) <==> exists|i: int|
            0 <= i < data.stories.len() && (#[trigger] data.stories[i]).id == id by {
        if data.workspaces.contains_key(id) {
            lemma_loaded_domain(loaded, id);
            let k = choose|k: int| 0 <= k < loaded.len() && (#[trigger] loaded[k]).story.id == id;
            assert(data.stories[k].id == id);
        }
        if exists|i: int| 0 <= i < data.stories.len() && (#[trigger] data.stories[i]).id == id {
            let i = choose|i: int|
                0 <= i < data.stories.len() && (#[trigger] data.stories[i]).id == id;
            assert(loaded[i].story.id == id);
            lemma_loaded_contains(loaded, i);
        }
    }
}

/// Exporting a project, importing the snapshot, carrying out the writes that
/// the import asks for, and loading again gives back the exported project:
/// the same stories in the same order, the same workspace for each, and the
/// same shared library.
///
/// This holds of a project as loading gives it: stories newest first, a
/// workspace for every story and no other. It needs that no two stories
/// with different ids derive the same folder name, since they would then
/// share one database.
pub proof fn law_export_import_round_trip(
    before: ProjectManifestView,
    data: ProjectDataView,
    now: Seq<char>,
)
    requires
        listed_newest_first(data.stories),
        workspaces_match_stories(data),
        folders_tell_stories_apart(data.stories),
    ensures
        imported_project(before, exported_project(data, now)) matches Ok((m, writes)) && reloaded(
            m,
            stored_workspaces(writes),
        ) == data,
{
    let payload = exported_project(data, now);
    let outcome = imported_project(before, payload);
    assert(outcome is Ok);
    let m = outcome->Ok_0.0;
    let writes = outcome->Ok_0.1;
    let entries = data.stories.map_values(|s: StoryView| derived_entry(s));
    assert(m.stories == entries);
    assert(newest_first(entries)) by {
        assert forall|i: int, j: int| 0 <= i < j < entries.len() implies !newer(
            #[trigger] entries[j],
            #[trigger] entries[i],
        ) by {
            assert(lex_le(data.stories[j].updated_at, data.stories[i].updated_at));
        }
    }
    lemma_by_recency_keeps_ordered(entries);
    let stored = stored_workspaces(writes);
    let loaded = entries.map_values(|e: StoryManifestEntryView| read_back(e, stored));
    assert forall|i: int| 0 <= i < entries.len() implies (#[trigger] loaded[i]).story
        == data.stories[i] && loaded[i].workspace == data.workspaces[data.stories[i].id] by {
        let story = data.stories[i];
        let folder = entries[i].folder_name;
        let w = data.workspaces[story.id];
        assert(data.workspaces.contains_key(story.id));
        assert(writes[i] == import_write(entries[i], data.workspaces));
        assert(writes[i].folder_name == folder);
        assert forall|k: int|
            0 <= k < writes.len() && (#[trigger] writes[k]).folder_name == folder implies writes[k].workspace
            == w by {
            assert(writes[k] == import_write(entries[k], data.workspaces));
            assert(entries[k] == derived_entry(data.stories[k]));
            assert(data.stories[k].id == data.stories[i].id);
            assert(data.workspaces.contains_key(data.stories[k].id));
        }
        lemma_stored_lookup(writes, folder, w);
    }
    assert(loaded.map_values(|l: LoadedStoryView| l.story) =~= data.stories);
    assert(loaded_workspaces(loaded) =~= data.workspaces) by {
        assert forall|id: Seq<char>| #[trigger]
            loaded_workspaces(loaded).contains_key(id) implies data.workspaces.contains_key(
            id,
        ) by {
            lemma_loaded_domain(loaded, id);
            let k = choose|k: int| 0 <= k < loaded.len() && (#[trigger] loaded[k]).story.id == id;
            assert(data.stories[k].id == id);
        }
        assert forall|id: Seq<char>| #[trigger]
            data.workspaces.contains_key(id) implies loaded_workspaces(loaded).contains_key(id)
            && loaded_workspaces(loaded)[id] == data.workspaces[id] by {
            let i = choose|i: int|
                0 <= i < data.stories.len() && (#[trigger] data.stories[i]).id == id;
            assert(loaded[i].story.id == id);
            assert forall|k: int|
                0 <= k < loaded.len() && (#[trigger] loaded[k]).story.id == id implies loaded[k].workspace
                == data.workspaces[id] by {
                assert(loaded[k].story == data.stories[k]);
            }
            lemma_loaded_lookup(loaded, id, data.workspaces[id]);
        }
    }
}

} // verus!
