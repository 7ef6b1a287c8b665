//! Places on the local disk that the user is shown: snapshot files, backups,
//! and the folders and databases of stories.

use vstd::prelude::*;
use crate::clock::now_file_stamp;
use crate::error::{ProjectError, ProjectErrorView};
use crate::manifest::{story_position, ProjectManifest};
use crate::paths::{
    backup_path, exports_root, place, project_export_path, story_db_path, story_export_path,
    story_root, ProjectPath, ProjectPathView,
};
use crate::stories::story_folder_name;

verus! {

/// A file or directory to write, and the directory to show afterwards.
#[derive(Debug, PartialEq, Eq)]
pub struct LocalExport {
    /// The exports directory, which is to exist before anything is written.
    pub directory: ProjectPath,
    /// What is written: a snapshot file, or the directory of a backup.
    pub target: ProjectPath,
}

pub struct LocalExportView {
    pub directory: ProjectPathView,
    pub target: ProjectPathView,
}

impl View for LocalExport {
    type V = LocalExportView;

    open spec fn view(&self) -> LocalExportView {
        LocalExportView { directory: self.directory@, target: self.target@ }
    }
}

/// Where a snapshot of the project that is taken at `stamp` goes.
pub open spec fn project_export_place(root: Seq<char>, stamp: Seq<char>) -> LocalExportView {
    LocalExportView {
        directory: place(root, seq!["exports"@]),
        target: place(root, seq!["exports"@, "takecopter-project-"@ + stamp + ".json"@]),
    }
}

/// Where a snapshot of the story `story_id` that is taken at `stamp` goes.
pub open spec fn story_export_place(root: Seq<char>, story_id: Seq<char>, stamp: Seq<char>) -> LocalExportView {
    LocalExportView {
        directory: place(root, seq!["exports"@]),
        target: place(
            root,
            seq!["exports"@, "takecopter-story-"@ + story_id + "-"@ + stamp + ".json"@],
        ),
    }
}

/// Where a backup that is taken at `stamp` goes.
pub open spec fn backup_place(root: Seq<char>, stamp: Seq<char>) -> LocalExportView {
    LocalExportView {
        directory: place(root, seq!["exports"@]),
        target: place(root, seq!["exports"@, "backup-"@ + stamp]),
    }
}

/// Where a snapshot of the project that is taken now goes.
pub fn export_project_to_local(root: &str) -> (r: LocalExport)
    ensures
        exists|stamp: Seq<char>| r@ == project_export_place(root@, stamp),
{
    let stamp = now_file_stamp();
    let r = LocalExport {
        directory: exports_root(root),
        target: project_export_path(root, stamp.as_str()),
    };
    assert(r@ == project_export_place(root@, stamp@));
    r
}

/// Where a snapshot of the story `story_id` that is taken now goes.
pub fn export_story_to_local(root: &str, story_id: &str) -> (r: LocalExport)
    ensures
        exists|stamp: Seq<char>| r@ == story_export_place(root@, story_id@, stamp),
{
    let stamp = now_file_stamp();
    let r = LocalExport {
        directory: exports_root(root),
        target: story_export_path(root, story_id, stamp.as_str()),
    };
    assert(r@ == story_export_place(root@, story_id@, stamp@));
    r
}

/// Where a backup of the root that is taken now goes.
pub fn backup_local_database(root: &str) -> (r: LocalExport)
    ensures
        exists|stamp: Seq<char>| r@ == backup_place(root@, stamp),
{
    let stamp = now_file_stamp();
    let r = LocalExport { directory: exports_root(root), target: backup_path(root, stamp.as_str()) };
    assert(r@ == backup_place(root@, stamp@));
    r
}

/// The folder of the story `story_id`, to be shown in the file manager.
pub fn open_story_folder(manifest: &ProjectManifest, root: &str, story_id: &str) -> (r: Result<
    ProjectPath,
    ProjectError,
>)
    ensures
        match story_position(manifest@.stories, story_id@) {
            Some(i) => r matches Ok(path) && path@ == place(
                root@,
                seq!["stories"@, manifest@.stories[i].folder_name],
            ),
            None => r matches Err(e) && e@ == ProjectErrorView::NotFound,
        },
{
    match story_folder_name(manifest, story_id) {
        Ok(folder_name) => Ok(story_root(root, folder_name.as_str())),
        Err(e) => Err(e),
    }
}

/// The database of the story `story_id`, to be shown in the file manager.
pub fn open_story_database(manifest: &ProjectManifest, root: &str, story_id: &str) -> (r: Result<
    ProjectPath,
    ProjectError,
>)
    ensures
        match story_position(manifest@.stories, story_id@) {
            Some(i) => r matches Ok(path) && path@ == place(
                root@,
                seq!["stories"@, manifest@.stories[i].folder_name, "story.db"@],
            ),
            None => r matches Err(e) && e@ == ProjectErrorView::NotFound,
        },
{
    match story_folder_name(manifest, story_id) {
        Ok(folder_name) => Ok(story_db_path(root, folder_name.as_str())),
        Err(e) => Err(e),
    }
}

} // verus!
