use serde_json::Value;
use takecopter::error::{JsonText, ProjectError};
use takecopter::library::{default_library, SettingLibrary, SettingTag};
use takecopter::workspace::{
    empty_workspace, encoded_from_parts, read_workspace, workspace_from_parts, write_workspace,
    EncodedWorkspace, StoredWorkspace, Workspace,
};

fn workspace_library() -> SettingLibrary {
    SettingLibrary {
        tags: vec![SettingTag { name: "t".to_string(), color: "c".to_string() }],
        categories: vec![],
        templates: vec![],
    }
}

fn workspace_row(settings: &str, tree: &str, library: Option<SettingLibrary>) -> StoredWorkspace {
    StoredWorkspace { settings_json: settings.to_string(), tree_json: tree.to_string(), library }
}

#[test]
fn empty_workspace_has_the_default_library() {
    let w = empty_workspace();
    assert!(w.settings.is_empty());
    assert!(w.tree.is_empty());
    assert_eq!(w.library, default_library());
}

#[test]
fn read_workspace_without_a_row_is_the_empty_workspace() {
    assert_eq!(read_workspace(None), Ok(empty_workspace()));
}

#[test]
fn read_workspace_parses_both_columns() {
    let w = read_workspace(Some(&workspace_row(
        "[1, \"two\", null]",
        "[{\"id\": \"n1\", \"children\": []}]",
        Some(workspace_library()),
    )))
    .unwrap();
    assert_eq!(
        w.settings,
        vec![Value::from(1), Value::String("two".to_string()), Value::Null]
    );
    let mut node = serde_json::Map::new();
    node.insert("id".to_string(), Value::String("n1".to_string()));
    node.insert("children".to_string(), Value::Array(vec![]));
    assert_eq!(w.tree, vec![Value::Object(node)]);
    assert_eq!(w.library, workspace_library());
}

#[test]
fn read_workspace_without_a_library_takes_the_default_one() {
    let w = read_workspace(Some(&workspace_row("[]", "[]", None))).unwrap();
    assert_eq!(w, empty_workspace());
}

#[test]
fn read_workspace_reports_malformed_settings_first() {
    let r = read_workspace(Some(&workspace_row("{not json", "also bad", None)));
    match r {
        Err(ProjectError::ParseFailure(JsonText::Settings, detail)) => {
            assert!(!detail.is_empty());
            assert_ne!(detail, "{not json");
        }
        other => panic!("unexpected {other:?}"),
    }
    let e = read_workspace(Some(&workspace_row("", "[]", None))).unwrap_err();
    assert!(e.message().starts_with("解析故事设定失败: "));
    assert!(e.message().len() > "解析故事设定失败: ".len());
}

#[test]
fn read_workspace_reports_a_malformed_tree() {
    let r = read_workspace(Some(&workspace_row("[]", "[1,", None)));
    assert!(matches!(r, Err(ProjectError::ParseFailure(JsonText::Tree, _))));
    assert!(r.unwrap_err().message().starts_with("解析故事树结构失败: "));
}

#[test]
fn read_workspace_wants_arrays() {
    assert!(matches!(
        read_workspace(Some(&workspace_row("{}", "[]", None))),
        Err(ProjectError::ParseFailure(JsonText::Settings, _))
    ));
    assert!(matches!(
        read_workspace(Some(&workspace_row("[]", "3", None))),
        Err(ProjectError::ParseFailure(JsonText::Tree, _))
    ));
}

#[test]
fn workspace_from_parts_decides_by_the_parsed_columns() {
    let ok = workspace_from_parts(Ok(vec![Value::from(1)]), Ok(vec![]), None).unwrap();
    assert_eq!(ok.settings, vec![Value::from(1)]);
    assert_eq!(ok.library, default_library());
    let with_library =
        workspace_from_parts(Ok(vec![]), Ok(vec![Value::Null]), Some(workspace_library())).unwrap();
    assert_eq!(with_library.library, workspace_library());
    assert_eq!(with_library.tree, vec![Value::Null]);
    assert_eq!(
        workspace_from_parts(Err("s".to_string()), Err("t".to_string()), None),
        Err(ProjectError::ParseFailure(JsonText::Settings, "s".to_string()))
    );
    assert_eq!(
        workspace_from_parts(Err("s".to_string()), Ok(vec![]), None),
        Err(ProjectError::ParseFailure(JsonText::Settings, "s".to_string()))
    );
    assert_eq!(
        workspace_from_parts(Ok(vec![]), Err("t".to_string()), None),
        Err(ProjectError::ParseFailure(JsonText::Tree, "t".to_string()))
    );
}

#[test]
fn write_workspace_renders_both_columns() {
    let mut node = serde_json::Map::new();
    node.insert("k".to_string(), Value::Bool(false));
    let w = Workspace {
        settings: vec![Value::from(1), Value::String("a\"b".to_string())],
        tree: vec![Value::Object(node), Value::Null],
        library: default_library(),
    };
    assert_eq!(
        write_workspace(&w),
        Ok(EncodedWorkspace {
            settings_json: "[1,\"a\\\"b\"]".to_string(),
            tree_json: "[{\"k\":false},null]".to_string(),
        })
    );
    assert_eq!(
        write_workspace(&empty_workspace()),
        Ok(EncodedWorkspace { settings_json: "[]".to_string(), tree_json: "[]".to_string() })
    );
}

#[test]
fn what_is_written_reads_back() {
    let w = Workspace {
        settings: vec![Value::from(-3), Value::String("世界".to_string()), Value::Array(vec![])],
        tree: vec![Value::Bool(true)],
        library: workspace_library(),
    };
    let row = write_workspace(&w).unwrap();
    let back = read_workspace(Some(&StoredWorkspace {
        settings_json: row.settings_json,
        tree_json: row.tree_json,
        library: Some(workspace_library()),
    }));
    assert_eq!(back, Ok(w));
}

#[test]
fn encoded_from_parts_reports_the_first_failure() {
    assert_eq!(
        encoded_from_parts(Ok("[]".to_string()), Ok("[1]".to_string())),
        Ok(EncodedWorkspace { settings_json: "[]".to_string(), tree_json: "[1]".to_string() })
    );
    assert_eq!(
        encoded_from_parts(Err("s".to_string()), Err("t".to_string())),
        Err(ProjectError::IoFailure("s".to_string()))
    );
    assert_eq!(
        encoded_from_parts(Ok("[]".to_string()), Err("t".to_string())),
        Err(ProjectError::IoFailure("t".to_string()))
    );
}

#[test]
fn a_cloned_workspace_equals_its_source() {
    let w = Workspace {
        settings: vec![Value::from(1), Value::String("x".to_string())],
        tree: vec![Value::Array(vec![Value::Null])],
        library: workspace_library(),
    };
    assert_eq!(w.clone(), w);
}
