use takecopter::error::{Document, JsonText, ProjectError};

#[test]
fn every_failure_has_its_message() {
    assert_eq!(ProjectError::IoFailure("磁盘已满".to_string()).message(), "磁盘已满");
    assert_eq!(
        ProjectError::ParseFailure(JsonText::Manifest, "eof".to_string()).message(),
        "解析项目元信息失败: eof"
    );
    assert_eq!(
        ProjectError::ParseFailure(JsonText::Settings, "eof".to_string()).message(),
        "解析故事设定失败: eof"
    );
    assert_eq!(
        ProjectError::ParseFailure(JsonText::Tree, "eof".to_string()).message(),
        "解析故事树结构失败: eof"
    );
    assert_eq!(ProjectError::InvalidSource(Document::Manifest).message(), "无效的项目目录来源");
    assert_eq!(
        ProjectError::InvalidSource(Document::ProjectExport).message(),
        "无效的项目文件来源"
    );
    assert_eq!(ProjectError::InvalidSource(Document::StoryExport).message(), "无效的故事文件来源");
    assert_eq!(
        ProjectError::VersionTooNew(Document::ProjectExport).message(),
        "项目版本过新，请升级应用后再导入"
    );
    assert_eq!(
        ProjectError::VersionTooNew(Document::StoryExport).message(),
        "故事版本过新，请升级应用后再导入"
    );
    assert_eq!(ProjectError::NotFound.message(), "故事不存在");
    assert_eq!(ProjectError::Conflict.message(), "目标故事目录已存在，请使用其他名称");
    assert_eq!(ProjectError::ValidationError.message(), "故事名称不能为空");
    assert_eq!(ProjectError::NoActiveRoot.message(), "请先创建项目目录或打开已有项目");
    assert_eq!(ProjectError::RootMissing.message(), "项目目录不存在");
    assert_eq!(
        ProjectError::NotAProject.message(),
        "未找到 project.json，请先创建项目目录或选择有效项目目录"
    );
}

#[test]
fn messages_of_different_failures_differ() {
    let all = vec![
        ProjectError::InvalidSource(Document::Manifest),
        ProjectError::InvalidSource(Document::ProjectExport),
        ProjectError::InvalidSource(Document::StoryExport),
        ProjectError::VersionTooNew(Document::ProjectExport),
        ProjectError::VersionTooNew(Document::StoryExport),
        ProjectError::NotFound,
        ProjectError::Conflict,
        ProjectError::ValidationError,
        ProjectError::NoActiveRoot,
        ProjectError::RootMissing,
        ProjectError::NotAProject,
    ];
    for (i, a) in all.iter().enumerate() {
        for (j, b) in all.iter().enumerate() {
            if i != j {
                assert_ne!(a.message(), b.message());
            }
        }
    }
}
