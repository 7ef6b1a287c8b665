//! Where things lie on disk: each place is a base directory and the names
//! to descend through from it.

use vstd::prelude::*;
use crate::text::{clone_texts, joined, texts};

verus! {

/// A place in the file system: `base`, then one directory entry per name in
/// `parts`.
#[derive(Debug, PartialEq, Eq)]
pub struct ProjectPath {
    pub base: String,
    pub parts: Vec<String>,
}

pub struct ProjectPathView {
    pub base: Seq<char>,
    pub parts: Seq<Seq<char>>,
}

impl View for ProjectPath {
    type V = ProjectPathView;

    open spec fn view(&self) -> ProjectPathView {
        ProjectPathView { base: self.base@, parts: texts(self.parts@) }
    }
}

impl Clone for ProjectPath {
    fn clone(&self) -> (r: Self)
        ensures
            r@ == self@,
    {
        ProjectPath { base: self.base.clone(), parts: clone_texts(&self.parts) }
    }
}

impl ProjectPath {
    /// The directory `base` itself.
    pub fn new(base: &str) -> (r: ProjectPath)
        ensures
            r@ == (ProjectPathView { base: base@, parts: Seq::empty() }),
    {
        let r = ProjectPath { base: base.to_owned(), parts: Vec::new() };
        assert(r@.parts =~= Seq::empty());
        r
    }

    /// The entry `name` inside this place.
    pub fn join(self, name: &str) -> (r: ProjectPath)
        ensures
            r@ == (ProjectPathView { base: self@.base, parts: self@.parts.push(name@) }),
    {
        let mut parts = self.parts;
        parts.push(name.to_owned());
        let r = ProjectPath { base: self.base, parts };
        assert(r@.parts =~= self@.parts.push(name@));
        r
    }
}

/// The place `base/parts[0]/parts[1]/…`.
pub open spec fn place(base: Seq<char>, parts: Seq<Seq<char>>) -> ProjectPathView {
    ProjectPathView { base, parts }
}

/// The manifest file of a root.
pub fn project_manifest_path(root: &str) -> (r: ProjectPath)
    ensures
        r@ == place(root@, seq!["project.json"@]),
{
    let r = ProjectPath::new(root).join("project.json");
    assert(r@.parts =~= seq!["project.json"@]);
    r
}

/// The lock marker of a root.
pub fn lock_file_path(root: &str) -> (r: ProjectPath)
    ensures
        r@ == place(root@, seq![".lock"@]),
{
    let r = ProjectPath::new(root).join(".lock");
    assert(r@.parts =~= seq![".lock"@]);
    r
}

/// The directory that holds one folder per story.
pub fn stories_root(root: &str) -> (r: ProjectPath)
    ensures
        r@ == place(root@, seq!["stories"@]),
{
    let r = ProjectPath::new(root).join("stories");
    assert(r@.parts =~= seq!["stories"@]);
    r
}

/// The directory that holds snapshots and backups.
pub fn exports_root(root: &str) -> (r: ProjectPath)
    ensures
        r@ == place(root@, seq!["exports"@]),
{
    let r = ProjectPath::new(root).join("exports");
    assert(r@.parts =~= seq!["exports"@]);
    r
}

/// The folder of a story.
pub fn story_root(root: &str, folder_name: &str) -> (r: ProjectPath)
    ensures
        r@ == place(root@, seq!["stories"@, folder_name@]),
{
    let r = stories_root(root).join(folder_name);
    assert(r@.parts =~= seq!["stories"@, folder_name@]);
    r
}

/// The database of a story.
pub fn story_db_path(root: &str, folder_name: &str) -> (r: ProjectPath)
    ensures
        r@ == place(root@, seq!["stories"@, folder_name@, "story.db"@]),
{
    let r = story_root(root, folder_name).join("story.db");
    assert(r@.parts =~= seq!["stories"@, folder_name@, "story.db"@]);
    r
}

/// The folder of a story in the first layout, where a story's folder was
/// named by its id.
pub fn legacy_story_root(root: &str, story_id: &str) -> (r: ProjectPath)
    ensures
        r@ == place(root@, seq!["stories"@, story_id@]),
{
    story_root(root, story_id)
}

/// The directory of a story's images.
pub fn story_images_path(root: &str, folder_name: &str) -> (r: ProjectPath)
    ensures
        r@ == place(root@, seq!["stories"@, folder_name@, "assets"@, "images"@]),
{
    let r = story_root(root, folder_name).join("assets").join("images");
    assert(r@.parts =~= seq!["stories"@, folder_name@, "assets"@, "images"@]);
    r
}

/// The directory of a story's videos.
pub fn story_videos_path(root: &str, folder_name: &str) -> (r: ProjectPath)
    ensures
        r@ == place(root@, seq!["stories"@, folder_name@, "assets"@, "videos"@]),
{
    let r = story_root(root, folder_name).join("assets").join("videos");
    assert(r@.parts =~= seq!["stories"@, folder_name@, "assets"@, "videos"@]);
    r
}

/// The root that is used where the user chooses none, under the
/// application's data directory.
pub fn default_root_path(app_data: &str) -> (r: ProjectPath)
    ensures
        r@ == place(app_data@, seq!["takecopter"@, "projects"@, "default.takecopter"@]),
{
    let r = ProjectPath::new(app_data).join("takecopter").join("projects").join(
        "default.takecopter",
    );
    assert(r@.parts =~= seq!["takecopter"@, "projects"@, "default.takecopter"@]);
    r
}

/// The file that remembers the chosen root, under the application's data
/// directory.
pub fn selection_file_path(app_data: &str) -> (r: ProjectPath)
    ensures
        r@ == place(app_data@, seq!["takecopter"@, "active_root_path.txt"@]),
{
    let r = ProjectPath::new(app_data).join("takecopter").join("active_root_path.txt");
    assert(r@.parts =~= seq!["takecopter"@, "active_root_path.txt"@]);
    r
}

/// The file that a snapshot of the whole project is written to; `stamp` is
/// the time of writing.
pub fn project_export_path(root: &str, stamp: &str) -> (r: ProjectPath)
    ensures
        r@ == place(
            root@,
            seq!["exports"@, "takecopter-project-"@ + stamp@ + ".json"@],
        ),
{
    let mut name = joined("takecopter-project-", stamp);
    name.append(".json");
    let r = exports_root(root).join(name.as_str());
    assert(r@.parts =~= seq!["exports"@, "takecopter-project-"@ + stamp@ + ".json"@]);
    r
}

/// The file that a snapshot of one story is written to.
pub fn story_export_path(root: &str, story_id: &str, stamp: &str) -> (r: ProjectPath)
    ensures
        r@ == place(
            root@,
            seq![
                "exports"@,
                "takecopter-story-"@ + story_id@ + "-"@ + stamp@ + ".json"@,
            ],
        ),
{
    let mut name = joined("takecopter-story-", story_id);
    name.append("-");
    name.append(stamp);
    name.append(".json");
    let r = exports_root(root).join(name.as_str());
    assert(r@.parts =~= seq![
        "exports"@,
        "takecopter-story-"@ + story_id@ + "-"@ + stamp@ + ".json"@,
    ]);
    r
}

/// The directory that a backup of the root is copied to.
pub fn backup_path(root: &str, stamp: &str) -> (r: ProjectPath)
    ensures
        r@ == place(root@, seq!["exports"@, "backup-"@ + stamp@]),
{
    let name = joined("backup-", stamp);
    let r = exports_root(root).join(name.as_str());
    assert(r@.parts =~= seq!["exports"@, "backup-"@ + stamp@]);
    r
}

} // verus!
