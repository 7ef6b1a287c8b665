//! The failures that the library reports, and the text of each.

use vstd::prelude::*;
use crate::text::joined;

verus! {

/// A document that names the application it came from.
#[derive(Clone, Copy, Debug, PartialEq, Eq)]
pub enum Document {
    /// The manifest of a project root.
    Manifest,
    /// A snapshot of a whole project.
    ProjectExport,
    /// A snapshot of one story.
    StoryExport,
}

/// A piece of stored JSON text.
#[derive(Clone, Copy, Debug, PartialEq, Eq)]
pub enum JsonText {
    /// The manifest file.
    Manifest,
    /// The settings column of a workspace row.
    Settings,
    /// The tree column of a workspace row.
    Tree,
}

/// Why an operation failed. Every failure ends the call.
#[derive(Debug, PartialEq, Eq)]
pub enum ProjectError {
    /// A file, directory or database operation failed; holds the whole message.
    IoFailure(String),
    /// Stored JSON text is malformed; holds the parser's words.
    ParseFailure(JsonText, String),
    /// The document was not written by this application.
    InvalidSource(Document),
    /// The snapshot's schema is newer than this library's.
    VersionTooNew(Document),
    /// No story has the given id.
    NotFound,
    /// The folder that a rename would move to is taken.
    Conflict,
    /// The new title is blank.
    ValidationError,
    /// No project root has been chosen.
    NoActiveRoot,
    /// The directory to open does not exist.
    RootMissing,
    /// The directory to open holds no manifest.
    NotAProject,
}

/// A failure with its texts as character sequences.
pub enum ProjectErrorView {
    IoFailure(Seq<char>),
    ParseFailure(JsonText, Seq<char>),
    InvalidSource(Document),
    VersionTooNew(Document),
    NotFound,
    Conflict,
    ValidationError,
    NoActiveRoot,
    RootMissing,
    NotAProject,
}

impl View for ProjectError {
    type V = ProjectErrorView;

    open spec fn view(&self) -> ProjectErrorView {
        match *self {
            ProjectError::IoFailure(text) => ProjectErrorView::IoFailure(text@),
            ProjectError::ParseFailure(what, detail) => ProjectErrorView::ParseFailure(
                what,
                detail@,
            ),
            ProjectError::InvalidSource(what) => ProjectErrorView::InvalidSource(what),
            ProjectError::VersionTooNew(what) => ProjectErrorView::VersionTooNew(what),
            ProjectError::NotFound => ProjectErrorView::NotFound,
            ProjectError::Conflict => ProjectErrorView::Conflict,
            ProjectError::ValidationError => ProjectErrorView::ValidationError,
            ProjectError::NoActiveRoot => ProjectErrorView::NoActiveRoot,
            ProjectError::RootMissing => ProjectErrorView::RootMissing,
            ProjectError::NotAProject => ProjectErrorView::NotAProject,
        }
    }
}

/// `e` reports malformed JSON text in `what`.
pub open spec fn is_parse_failure(e: ProjectErrorView, what: JsonText) -> bool {
    e matches ProjectErrorView::ParseFailure(column, _) && column == what
}

/// How the message of a parse failure starts.
pub open spec fn parse_failure_prefix(what: JsonText) -> Seq<char> {
    match what {
        JsonText::Manifest => "解析项目元信息失败: "@,
        JsonText::Settings => "解析故事设定失败: "@,
        JsonText::Tree => "解析故事树结构失败: "@,
    }
}

/// The message for a document of another application.
pub open spec fn invalid_source_text(what: Document) -> Seq<char> {
    match what {
        Document::Manifest => "无效的项目目录来源"@,
        Document::ProjectExport => "无效的项目文件来源"@,
        Document::StoryExport => "无效的故事文件来源"@,
    }
}

/// The message for a snapshot of a newer schema.
pub open spec fn version_too_new_text(what: Document) -> Seq<char> {
    match what {
        Document::StoryExport => "故事版本过新，请升级应用后再导入"@,
        _ => "项目版本过新，请升级应用后再导入"@,
    }
}

impl ProjectError {
    /// The message shown to the user.
    pub open spec fn message_text(self) -> Seq<char> {
        match self {
            ProjectError::IoFailure(text) => text@,
            ProjectError::ParseFailure(what, detail) => parse_failure_prefix(what) + detail@,
            ProjectError::InvalidSource(what) => invalid_source_text(what),
            ProjectError::VersionTooNew(what) => version_too_new_text(what),
            ProjectError::NotFound => "故事不存在"@,
            ProjectError::Conflict => "目标故事目录已存在，请使用其他名称"@,
            ProjectError::ValidationError => "故事名称不能为空"@,
            ProjectError::NoActiveRoot => "请先创建项目目录或打开已有项目"@,
            ProjectError::RootMissing => "项目目录不存在"@,
            ProjectError::NotAProject =>
                "未找到 project.json，请先创建项目目录或选择有效项目目录"@,
        }
    }

    /// The message shown to the user.
    pub fn message(&self) -> (r: String)
        ensures
            r@ == self.message_text(),
    {
        match self {
            ProjectError::IoFailure(text) => text.clone(),
            ProjectError::ParseFailure(what, detail) => {
                let prefix = match what {
                    JsonText::Manifest => "解析项目元信息失败: ",
                    JsonText::Settings => "解析故事设定失败: ",
                    JsonText::Tree => "解析故事树结构失败: ",
                };
                joined(prefix, detail.as_str())
            },
            ProjectError::InvalidSource(what) => match what {
                Document::Manifest => "无效的项目目录来源".to_owned(),
                Document::ProjectExport => "无效的项目文件来源".to_owned(),
                Document::StoryExport => "无效的故事文件来源".to_owned(),
            },
            ProjectError::VersionTooNew(what) => match what {
                Document::StoryExport => "故事版本过新，请升级应用后再导入".to_owned(),
                _ => "项目版本过新，请升级应用后再导入".to_owned(),
            },
            ProjectError::NotFound => "故事不存在".to_owned(),
            ProjectError::Conflict => "目标故事目录已存在，请使用其他名称".to_owned(),
            ProjectError::ValidationError => "故事名称不能为空".to_owned(),
            ProjectError::NoActiveRoot => "请先创建项目目录或打开已有项目".to_owned(),
            ProjectError::RootMissing => "项目目录不存在".to_owned(),
            ProjectError::NotAProject =>
                "未找到 project.json，请先创建项目目录或选择有效项目目录".to_owned(),
        }
    }
}

} // verus!
