//! Which project root is active: none until one is chosen, then the chosen
//! one, remembered across restarts by a selection file.

use vstd::prelude::*;
use crate::error::{ProjectError, ProjectErrorView};
use crate::manifest::ProjectManifest;
use crate::text::{clone_opt_text, opt_text, trim, trimmed};

verus! {

/// The active project root of the running application, if one is set.
#[derive(Debug, PartialEq, Eq)]
pub struct ProjectState {
    project_root: Option<String>,
}

impl View for ProjectState {
    type V = Option<Seq<char>>;

    closed spec fn view(&self) -> Option<Seq<char>> {
        opt_text(self.project_root)
    }
}

impl Clone for ProjectState {
    fn clone(&self) -> (r: Self)
        ensures
            r@ == self@,
    {
        ProjectState { project_root: clone_opt_text(&self.project_root) }
    }
}

impl Default for ProjectState {
    fn default() -> (r: Self)
        ensures
            r@ is None,
    {
        ProjectState { project_root: None }
    }
}

impl ProjectState {
    /// The root held in memory.
    pub fn active_root(&self) -> (r: Option<String>)
        ensures
            opt_text(r) == self@,
    {
        clone_opt_text(&self.project_root)
    }
}

/// What the user interface needs to know at start.
#[derive(Debug, PartialEq, Eq)]
pub struct BootstrapState {
    pub needs_setup: bool,
    pub default_root_path: String,
    pub active_root_path: Option<String>,
}

pub struct BootstrapStateView {
    pub needs_setup: bool,
    pub default_root_path: Seq<char>,
    pub active_root_path: Option<Seq<char>>,
}

impl View for BootstrapState {
    type V = BootstrapStateView;

    open spec fn view(&self) -> BootstrapStateView {
        BootstrapStateView {
            needs_setup: self.needs_setup,
            default_root_path: self.default_root_path@,
            active_root_path: opt_text(self.active_root_path),
        }
    }
}

/// The root that a selection file names: its content without surrounding
/// white space, or none where nothing is left.
pub open spec fn selected_root(raw: Seq<char>) -> Option<Seq<char>> {
    if trimmed(raw).len() == 0 {
        None
    } else {
        Some(trimmed(raw))
    }
}

/// The root that the selection file names. `raw` is the file's content, or
/// `None` where there is no such file.
pub fn read_selected_root(raw: Option<&str>) -> (r: Option<String>)
    ensures
        opt_text(r) == match raw {
            Some(text) => selected_root(text@),
            None => None,
        },
{
    match raw {
        None => None,
        Some(text) => {
            let root = trim(text);
            if root.as_str().is_empty() {
                None
            } else {
                Some(root)
            }
        },
    }
}

/// The active root: the one held in memory, or else the one that the
/// selection file names.
pub open spec fn resolved_root(state: Option<Seq<char>>, selected: Option<Seq<char>>) -> Option<
    Seq<char>,
> {
    match state {
        Some(root) => Some(root),
        None => selected,
    }
}

/// The active root, if there is one; `selected` is what the selection file
/// names.
pub fn resolve_state_root(state: &ProjectState, selected: Option<String>) -> (r: Option<String>)
    ensures
        opt_text(r) == resolved_root(state@, opt_text(selected)),
{
    match &state.project_root {
        Some(root) => Some(root.clone()),
        None => selected,
    }
}

/// Makes `root` the active root. The selection file is to be written with it.
pub fn set_active_root(state: &mut ProjectState, root: &str)
    ensures
        final(state)@ == Some(root@),
{
    state.project_root = Some(root.to_owned());
}

/// The active root, which an operation on the project needs.
pub fn require_active_root(state: &ProjectState, selected: Option<String>) -> (r: Result<
    String,
    ProjectError,
>)
    ensures
        match resolved_root(state@, opt_text(selected)) {
            Some(root) => r matches Ok(found) && found@ == root,
            None => r matches Err(e) && e@ == ProjectErrorView::NoActiveRoot,
        },
{
    match resolve_state_root(state, selected) {
        Some(root) => Ok(root),
        None => Err(ProjectError::NoActiveRoot),
    }
}

/// The state at start: setup is needed exactly where no root is active.
pub fn get_bootstrap_state(default_root: String, active_root: Option<String>) -> (r: BootstrapState)
    ensures
        r@ == (BootstrapStateView {
            needs_setup: active_root is None,
            default_root_path: default_root@,
            active_root_path: opt_text(active_root),
        }),
{
    BootstrapState {
        needs_setup: active_root.is_none(),
        default_root_path: default_root,
        active_root_path: active_root,
    }
}

/// The root that the user asks to set up: the given path without
/// surrounding white space, or the default root where no path is given or a
/// blank one.
pub open spec fn initial_root(root_path: Option<Seq<char>>, default_root: Seq<char>) -> Seq<char> {
    match root_path {
        Some(path) => match selected_root(path) {
            Some(root) => root,
            None => default_root,
        },
        None => default_root,
    }
}

/// The root to set up; see `initial_root`. Its layout is to be made sure of
/// before it becomes the active root.
pub fn choose_initial_root(root_path: Option<&str>, default_root: &str) -> (r: String)
    ensures
        r@ == initial_root(
            match root_path {
                Some(path) => Some(path@),
                None => None,
            },
            default_root@,
        ),
{
    match read_selected_root(root_path) {
        Some(root) => root,
        None => default_root.to_owned(),
    }
}

/// What setting up a root gives, from the state `state`: the new state and
/// the root that is now active, or the failure of laying the root out, which
/// leaves the state as it was.
pub open spec fn root_initialized(
    state: Option<Seq<char>>,
    root_path: Option<Seq<char>>,
    default_root: Seq<char>,
    layout: Option<ProjectErrorView>,
) -> Result<(Option<Seq<char>>, Seq<char>), ProjectErrorView> {
    match layout {
        Some(e) => Err(e),
        None => Ok(
            (Some(initial_root(root_path, default_root)), initial_root(root_path, default_root)),
        ),
    }
}

/// The failure of an operation on disk, if it failed.
pub open spec fn disk_failure(outcome: Result<(), ProjectError>) -> Option<ProjectErrorView> {
    match outcome {
        Ok(_) => None,
        Err(e) => Some(e@),
    }
}

/// Sets up a root and makes it the active root; see `root_initialized`.
/// `layout` is what laying out the root chosen by `choose_initial_root`
/// gave. On success the selection file is to be written with the root
/// returned.
pub fn initialize_project_root(
    state: &mut ProjectState,
    root_path: Option<&str>,
    default_root: &str,
    layout: Result<(), ProjectError>,
) -> (r: Result<String, ProjectError>)
    ensures
        match root_initialized(
            old(state)@,
            match root_path {
                Some(path) => Some(path@),
                None => None,
            },
            default_root@,
            disk_failure(layout),
        ) {
            Ok((next, root)) => r matches Ok(chosen) && chosen@ == root && final(state)@ == next,
            Err(e) => r matches Err(err) && err@ == e && final(state)@ == old(state)@,
        },
{
    match layout {
        Err(e) => Err(e),
        Ok(_) => {
            let root = choose_initial_root(root_path, default_root);
            set_active_root(state, root.as_str());
            Ok(root)
        },
    }
}

/// Whether the directory that the user asks to open can be opened: it must
/// exist, and it must hold a manifest.
pub open spec fn root_refusal(root_exists: bool, manifest_exists: bool) -> Option<ProjectErrorView> {
    if !root_exists {
        Some(ProjectErrorView::RootMissing)
    } else if !manifest_exists {
        Some(ProjectErrorView::NotAProject)
    } else {
        None
    }
}

/// Checks that the directory which the user asks to open can be opened,
/// before anything in it is read.
pub fn check_project_root(root_exists: bool, manifest_exists: bool) -> (r: Result<(), ProjectError>)
    ensures
        match root_refusal(root_exists, manifest_exists) {
            Some(e) => r matches Err(err) && err@ == e,
            None => r is Ok,
        },
{
    if !root_exists {
        Err(ProjectError::RootMissing)
    } else if !manifest_exists {
        Err(ProjectError::NotAProject)
    } else {
        Ok(())
    }
}

/// What opening the directory `root_path` gives, from the state `state`:
/// the new state and the root that is now active, or the failure. The path
/// counts without surrounding white space. The directory must exist and
/// hold a manifest, and the manifest must read; `manifest` is the failure
/// of reading it, if it failed. Any failure leaves the state as it was.
pub open spec fn root_opened(
    state: Option<Seq<char>>,
    root_path: Seq<char>,
    root_exists: bool,
    manifest_exists: bool,
    manifest: Option<ProjectErrorView>,
) -> Result<(Option<Seq<char>>, Seq<char>), ProjectErrorView> {
    match root_refusal(root_exists, manifest_exists) {
        Some(e) => Err(e),
        None => match manifest {
            Some(e) => Err(e),
            None => Ok((Some(trimmed(root_path)), trimmed(root_path))),
        },
    }
}

/// The failure of reading a manifest, if it failed.
pub open spec fn manifest_failure(manifest: Result<ProjectManifest, ProjectError>) -> Option<
    ProjectErrorView,
> {
    match manifest {
        Ok(_) => None,
        Err(e) => Some(e@),
    }
}

/// Opens the directory `root_path` as the active root; see `root_opened`.
/// `manifest` is what reading the directory's manifest gave; it is looked
/// at only where the directory and its manifest file exist. On success the
/// selection file is to be written with the root returned.
pub fn open_project_root(
    state: &mut ProjectState,
    root_path: &str,
    root_exists: bool,
    manifest_exists: bool,
    manifest: Result<ProjectManifest, ProjectError>,
) -> (r: Result<String, ProjectError>)
    ensures
        match root_opened(
            old(state)@,
            root_path@,
            root_exists,
            manifest_exists,
            manifest_failure(manifest),
        ) {
            Ok((next, root)) => r matches Ok(opened) && opened@ == root && final(state)@ == next,
            Err(e) => r matches Err(err) && err@ == e && final(state)@ == old(state)@,
        },
{
    match check_project_root(root_exists, manifest_exists) {
        Err(e) => {
            return Err(e);
        },
        Ok(_) => {},
    }
    match manifest {
        Err(e) => Err(e),
        Ok(_) => {
            let root = trim(root_path);
            set_active_root(state, root.as_str());
            Ok(root)
        },
    }
}

/// A root that has been opened is the active root from then on, whatever
/// the selection file names, and setup is no longer needed.
pub proof fn law_opened_root_is_active(
    state: Option<Seq<char>>,
    root_path: Seq<char>,
    selected: Option<Seq<char>>,
)
    ensures
        root_opened(state, root_path, true, true, None) matches Ok((next, root)) && root
            == trimmed(root_path) && resolved_root(next, selected) == Some(root),
{
}

} // verus!
