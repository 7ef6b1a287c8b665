//! Workspaces: the settings, tree and library of one story, and the row
//! that stores them.

use vstd::prelude::*;
use crate::error::{is_parse_failure, JsonText, ProjectError, ProjectErrorView};
use crate::json::{
    clone_values, json_array_parse, json_array_text, json_error_text, parse_json_array,
    render_json_array,
};
use crate::library::{default_library, default_library_view, SettingLibrary, SettingLibraryView};

verus! {

/// The content of one story. Settings and tree are kept as they come and
/// never looked into.
#[derive(Debug, PartialEq, Eq)]
pub struct Workspace {
    pub settings: Vec<serde_json::Value>,
    pub tree: Vec<serde_json::Value>,
    pub library: SettingLibrary,
}

pub struct WorkspaceView {
    pub settings: Seq<serde_json::Value>,
    pub tree: Seq<serde_json::Value>,
    pub library: SettingLibraryView,
}

impl View for Workspace {
    type V = WorkspaceView;

    open spec fn view(&self) -> WorkspaceView {
        WorkspaceView { settings: self.settings@, tree: self.tree@, library: self.library@ }
    }
}

impl Clone for Workspace {
    fn clone(&self) -> (r: Self)
        ensures
            r@ == self@,
    {
        Workspace {
            settings: clone_values(&self.settings),
            tree: clone_values(&self.tree),
            library: self.library.clone(),
        }
    }
}

/// The workspace of a story that has stored nothing yet.
pub open spec fn empty_workspace_view() -> WorkspaceView {
    WorkspaceView { settings: Seq::empty(), tree: Seq::empty(), library: default_library_view() }
}

/// A workspace without settings and tree, with the default library.
pub fn empty_workspace() -> (r: Workspace)
    ensures
        r@ == empty_workspace_view(),
{
    Workspace { settings: Vec::new(), tree: Vec::new(), library: default_library() }
}

/// The workspace row of a story's database. `library` is the library column
/// where it is present and well-formed.
#[derive(Debug, PartialEq, Eq)]
pub struct StoredWorkspace {
    pub settings_json: String,
    pub tree_json: String,
    pub library: Option<SettingLibrary>,
}

pub struct StoredWorkspaceView {
    pub settings_json: Seq<char>,
    pub tree_json: Seq<char>,
    pub library: Option<SettingLibraryView>,
}

impl View for StoredWorkspace {
    type V = StoredWorkspaceView;

    open spec fn view(&self) -> StoredWorkspaceView {
        StoredWorkspaceView {
            settings_json: self.settings_json@,
            tree_json: self.tree_json@,
            library: match self.library {
                Some(l) => Some(l@),
                None => None,
            },
        }
    }
}

impl Clone for StoredWorkspace {
    fn clone(&self) -> (r: Self)
        ensures
            r@ == self@,
    {
        StoredWorkspace {
            settings_json: self.settings_json.clone(),
            tree_json: self.tree_json.clone(),
            library: match &self.library {
                Some(l) => Some(l.clone()),
                None => None,
            },
        }
    }
}

/// The view of a row, if there is one.
pub open spec fn stored_option_view(o: Option<&StoredWorkspace>) -> Option<StoredWorkspaceView> {
    match o {
        Some(row) => Some(row@),
        None => None,
    }
}

/// The two JSON columns that the library writes for a workspace.
#[derive(Debug, PartialEq, Eq)]
pub struct EncodedWorkspace {
    pub settings_json: String,
    pub tree_json: String,
}

/// The stored library, or the default one where the row has none.
pub open spec fn library_or_default(library: Option<SettingLibrary>) -> SettingLibraryView {
    match library {
        Some(l) => l@,
        None => default_library_view(),
    }
}

/// A workspace from its parsed columns. A settings column that did not parse
/// is reported first, then a tree column; a missing library is the default
/// one.
pub fn workspace_from_parts(
    settings: Result<Vec<serde_json::Value>, String>,
    tree: Result<Vec<serde_json::Value>, String>,
    library: Option<SettingLibrary>,
) -> (r: Result<Workspace, ProjectError>)
    ensures
        match (settings, tree) {
            (Ok(s), Ok(t)) => r matches Ok(w) && w@ == (WorkspaceView {
                settings: s@,
                tree: t@,
                library: library_or_default(library),
            }),
            (Err(detail), _) => r matches Err(e) && e@ == ProjectErrorView::ParseFailure(
                JsonText::Settings,
                detail@,
            ),
            (Ok(_), Err(detail)) => r matches Err(e) && e@ == ProjectErrorView::ParseFailure(
                JsonText::Tree,
                detail@,
            ),
        },
{
    let settings = match settings {
        Ok(values) => values,
        Err(detail) => {
            return Err(ProjectError::ParseFailure(JsonText::Settings, detail));
        },
    };
    let tree = match tree {
        Ok(values) => values,
        Err(detail) => {
            return Err(ProjectError::ParseFailure(JsonText::Tree, detail));
        },
    };
    let library = match library {
        Some(l) => l,
        None => default_library(),
    };
    Ok(Workspace { settings, tree, library })
}

/// Parses a column of a workspace row and keeps the parser's words on failure.
fn parse_column(text: &str) -> (r: Result<Vec<serde_json::Value>, String>)
    ensures
        match r {
            Ok(values) => json_array_parse(text@) == Some(values@),
            Err(_) => json_array_parse(text@) is None,
        },
{
    match parse_json_array(text) {
        Ok(values) => Ok(values),
        Err(error) => Err(json_error_text(&error)),
    }
}

/// The workspace that a row holds, or the column that is malformed: the
/// settings column is looked at first, then the tree column. A row without
/// library has the default one.
pub open spec fn decoded(row: StoredWorkspaceView) -> Result<WorkspaceView, JsonText> {
    match json_array_parse(row.settings_json) {
        None => Err(JsonText::Settings),
        Some(settings) => match json_array_parse(row.tree_json) {
            None => Err(JsonText::Tree),
            Some(tree) => Ok(
                WorkspaceView {
                    settings,
                    tree,
                    library: match row.library {
                        Some(l) => l,
                        None => default_library_view(),
                    },
                },
            ),
        },
    }
}

/// The workspace that a story's database holds. No row, or no database,
/// gives the empty workspace.
pub open spec fn workspace_read(stored: Option<StoredWorkspaceView>) -> Result<
    WorkspaceView,
    JsonText,
> {
    match stored {
        None => Ok(empty_workspace_view()),
        Some(row) => decoded(row),
    }
}

/// Reads the workspace that a story's database holds; see `workspace_read`.
/// A malformed column is reported with the parser's words.
pub fn read_workspace(stored: Option<&StoredWorkspace>) -> (r: Result<Workspace, ProjectError>)
    ensures
        match workspace_read(stored_option_view(stored)) {
            Ok(w) => r matches Ok(read) && read@ == w,
            Err(what) => r matches Err(e) && is_parse_failure(e@, what),
        },
{
    match stored {
        None => Ok(empty_workspace()),
        Some(row) => {
            let settings = parse_column(row.settings_json.as_str());
            let tree = parse_column(row.tree_json.as_str());
            let library = match &row.library {
                Some(l) => Some(l.clone()),
                None => None,
            };
            workspace_from_parts(settings, tree, library)
        },
    }
}

/// The row columns from their rendered texts. A column that could not be
/// rendered is reported with the renderer's words, settings first.
pub fn encoded_from_parts(settings: Result<String, String>, tree: Result<String, String>) -> (r:
    Result<EncodedWorkspace, ProjectError>)
    ensures
        match (settings, tree) {
            (Ok(s), Ok(t)) => r matches Ok(row) && row.settings_json@ == s@ && row.tree_json@
                == t@,
            (Err(detail), _) => r matches Err(e) && e@ == ProjectErrorView::IoFailure(detail@),
            (Ok(_), Err(detail)) => r matches Err(e) && e@ == ProjectErrorView::IoFailure(
                detail@,
            ),
        },
{
    let settings_json = match settings {
        Ok(text) => text,
        Err(detail) => {
            return Err(ProjectError::IoFailure(detail));
        },
    };
    let tree_json = match tree {
        Ok(text) => text,
        Err(detail) => {
            return Err(ProjectError::IoFailure(detail));
        },
    };
    Ok(EncodedWorkspace { settings_json, tree_json })
}

/// Renders a column of a workspace row and keeps the renderer's words on failure.
fn render_column(values: &Vec<serde_json::Value>) -> (r: Result<String, String>)
    ensures
        match r {
            Ok(text) => json_array_text(values@) == Some(text@),
            Err(_) => json_array_text(values@) is None,
        },
{
    match render_json_array(values) {
        Ok(text) => Ok(text),
        Err(error) => Err(json_error_text(&error)),
    }
}

/// The settings and tree columns of the row that stores `workspace`.
pub fn write_workspace(workspace: &Workspace) -> (r: Result<EncodedWorkspace, ProjectError>)
    ensures
        match (json_array_text(workspace.settings@), json_array_text(workspace.tree@)) {
            (Some(s), Some(t)) => r matches Ok(row) && row.settings_json@ == s
                && row.tree_json@ == t,
            _ => r matches Err(e) && e@ is IoFailure,
        },
{
    let settings = render_column(&workspace.settings);
    let tree = render_column(&workspace.tree);
    encoded_from_parts(settings, tree)
}

} // verus!
