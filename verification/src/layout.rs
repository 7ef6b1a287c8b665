//! What a project root and a story folder must hold before they are used.

use vstd::prelude::*;
use crate::clock::now_rfc3339;
use crate::manifest::{
    empty_manifest, empty_manifest_view, manifest_option_view, ProjectManifest, ProjectManifestView,
};
use crate::paths::{
    exports_root, lock_file_path, place, project_manifest_path, stories_root, story_images_path,
    story_root, story_videos_path, ProjectPath, ProjectPathView,
};

verus! {

/// The character of a decimal digit.
pub open spec fn digit_char(d: int) -> char {
    (48 + d) as char
}

/// A number in decimal, without leading zeros.
pub open spec fn decimal(n: nat) -> Seq<char>
    decreases n,
{
    if n < 10 {
        seq![digit_char(n as int)]
    } else {
        decimal(n / 10).push(digit_char((n % 10) as int))
    }
}

/// `n` in decimal.
pub fn decimal_string(n: u32) -> (r: String)
    ensures
        r@ == decimal(n as nat),
    decreases n,
{
    let digit: u8 = (n % 10) as u8;
    let c: char = (48u8 + digit) as char;
    if n < 10 {
        let mut s = String::new();
        s.push(c);
        assert(s@ =~= seq![digit_char(n as int)]);
        s
    } else {
        let mut s = decimal_string(n / 10);
        s.push(c);
        s
    }
}

/// The content of the lock marker: the process that wrote it, and when.
pub open spec fn lock_text(pid: u32, now: Seq<char>) -> Seq<char> {
    "pid="@ + decimal(pid as nat) + "\nupdated_at="@ + now + "\n"@
}

/// The content of the lock marker that the process `pid` writes at `now`.
pub fn lock_file_content(pid: u32, now: &str) -> (r: String)
    ensures
        r@ == lock_text(pid, now@),
{
    let mut content = "pid=".to_owned();
    content.append(decimal_string(pid).as_str());
    content.append("\nupdated_at=");
    content.append(now);
    content.append("\n");
    content
}

/// What to do so that a root is laid out: directories to create, the lock
/// marker to write, and a manifest to write where the root has none.
#[derive(Debug, PartialEq, Eq)]
pub struct RootLayout {
    pub directories: Vec<ProjectPath>,
    pub lock_file: ProjectPath,
    pub lock_content: String,
    pub manifest_file: ProjectPath,
    pub manifest: Option<ProjectManifest>,
}

pub struct RootLayoutView {
    pub directories: Seq<ProjectPathView>,
    pub lock_file: ProjectPathView,
    pub lock_content: Seq<char>,
    pub manifest_file: ProjectPathView,
    pub manifest: Option<ProjectManifestView>,
}

/// The views of a list of places.
pub open spec fn path_views(s: Seq<ProjectPath>) -> Seq<ProjectPathView> {
    s.map_values(|p: ProjectPath| p@)
}

impl View for RootLayout {
    type V = RootLayoutView;

    open spec fn view(&self) -> RootLayoutView {
        RootLayoutView {
            directories: path_views(self.directories@),
            lock_file: self.lock_file@,
            lock_content: self.lock_content@,
            manifest_file: self.manifest_file@,
            manifest: manifest_option_view(self.manifest),
        }
    }
}

/// The layout of `root` as of `now`: the stories and exports directories, a
/// fresh lock marker, and an empty manifest unless one exists.
pub open spec fn root_layout(root: Seq<char>, manifest_exists: bool, pid: u32, now: Seq<char>) -> RootLayoutView {
    RootLayoutView {
        directories: seq![place(root, seq!["stories"@]), place(root, seq!["exports"@])],
        lock_file: place(root, seq![".lock"@]),
        lock_content: lock_text(pid, now),
        manifest_file: place(root, seq!["project.json"@]),
        manifest: if manifest_exists {
            None
        } else {
            Some(empty_manifest_view(now))
        },
    }
}

/// The layout of `root` as of `now`, for the process `pid`.
pub fn ensure_root_layout_at(root: &str, manifest_exists: bool, pid: u32, now: String) -> (r:
    RootLayout)
    ensures
        r@ == root_layout(root@, manifest_exists, pid, now@),
{
    let mut directories: Vec<ProjectPath> = Vec::new();
    directories.push(stories_root(root));
    directories.push(exports_root(root));
    let lock_content = lock_file_content(pid, now.as_str());
    let manifest = if manifest_exists {
        None
    } else {
        Some(empty_manifest(now))
    };
    let r = RootLayout {
        directories,
        lock_file: lock_file_path(root),
        lock_content,
        manifest_file: project_manifest_path(root),
        manifest,
    };
    assert(r@.directories =~= root_layout(root@, manifest_exists, pid, now@).directories);
    r
}

/// The layout of `root` as of now, for the process `pid`.
pub fn ensure_root_layout(root: &str, manifest_exists: bool, pid: u32) -> (r: RootLayout)
    ensures
        exists|now: Seq<char>| r@ == root_layout(root@, manifest_exists, pid, now),
{
    let now = now_rfc3339();
    let ghost stamp = now@;
    let r = ensure_root_layout_at(root, manifest_exists, pid, now);
    assert(r@ == root_layout(root@, manifest_exists, pid, stamp));
    r
}

/// The directories that must exist before the database of the story in
/// `folder_name` is opened: the story's folder, and those of its images and
/// videos.
pub fn open_story_db(root: &str, folder_name: &str) -> (r: Vec<ProjectPath>)
    ensures
        path_views(r@) == seq![
            place(root@, seq!["stories"@, folder_name@]),
            place(root@, seq!["stories"@, folder_name@, "assets"@, "images"@]),
            place(root@, seq!["stories"@, folder_name@, "assets"@, "videos"@]),
        ],
{
    let mut directories: Vec<ProjectPath> = Vec::new();
    directories.push(story_root(root, folder_name));
    directories.push(story_images_path(root, folder_name));
    directories.push(story_videos_path(root, folder_name));
    assert(path_views(directories@) =~= seq![
        place(root@, seq!["stories"@, folder_name@]),
        place(root@, seq!["stories"@, folder_name@, "assets"@, "images"@]),
        place(root@, seq!["stories"@, folder_name@, "assets"@, "videos"@]),
    ]);
    directories
}

} // verus!
