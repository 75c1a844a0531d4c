use gba_core::events::PlanEvent;
use gba_core::gitignore::gitignore_update;
use gba_core::planning::spec_file_event;
use gba_core::error::PmError;
use gba_core::plan::{feature_dir, phases_path, spec_doc_path};
use gba_core::templates::{path_is_under, template_name_from_path};

#[test]
fn test_should_derive_template_name_from_path() {
    let name = template_name_from_path("/base", "/base/agent/template.md.j2").unwrap();
    assert_eq!(name, "agent/template");
}

#[test]
fn test_should_reject_path_without_md_j2_extension() {
    let result = template_name_from_path("/base", "/base/agent/readme.md");
    assert!(result.is_err());
    assert!(matches!(result.unwrap_err(), PmError::InvalidTemplate(_)));
}

#[test]
fn template_outside_base_is_invalid() {
    assert!(matches!(template_name_from_path("/base", "/other/a.md.j2"), Err(PmError::InvalidTemplate(_))));
    assert!(matches!(template_name_from_path("/base", "/basement/a.md.j2"), Err(PmError::InvalidTemplate(_))));
    assert_eq!(template_name_from_path("/base", "/base/dir\\x.md.j2").unwrap(), "dir/x");
}

#[test]
fn test_should_detect_spec_file_path() {
    let feature_dir = "/repo/.gba/features/login";
    let spec_path = "/repo/.gba/features/login/specs/design.md";
    let non_spec_path = "/repo/src/main.rs";

    assert!(path_is_under(spec_path, feature_dir), "spec path should be inside feature dir");
    assert!(!path_is_under(non_spec_path, feature_dir), "non-spec path should not be inside feature dir");
}

#[test]
fn feature_paths() {
    assert_eq!(feature_dir("/r/.gba", "s"), "/r/.gba/features/s");
    assert_eq!(phases_path("/r/.gba", "s"), "/r/.gba/features/s/phases.yaml");
    assert_eq!(spec_doc_path("/r/.gba", "s", "design.md"), "/r/.gba/features/s/specs/design.md");
    assert!(!path_is_under("/r/.gba/features/sx", "/r/.gba/features/s"));
}

#[test]
fn gitignore_gets_trees_line_once() {
    assert_eq!(gitignore_update("target/\n").as_deref(), Some("target/\n.trees/\n"));
    assert_eq!(gitignore_update("target/").as_deref(), Some("target/\n.trees/\n"));
    assert_eq!(gitignore_update("").as_deref(), Some(".trees/\n"));
    assert_eq!(gitignore_update("a\n  .trees/  \nb\n"), None);
    assert_eq!(gitignore_update("x\r\n.trees/\r\n"), None);
}

#[test]
fn planning_detects_written_feature_files() {
    let dir = "/repo/.gba/features/login";
    assert_eq!(
        spec_file_event("Write", Some("/repo/.gba/features/login/specs/design.md"), Some("# D"), dir),
        Some(PlanEvent::SpecGenerated {
            path: "/repo/.gba/features/login/specs/design.md".to_owned(),
            content: "# D".to_owned()
        })
    );
    assert_eq!(
        spec_file_event("Write", Some("/repo/.gba/features/login/phases.yaml"), None, dir),
        Some(PlanEvent::SpecGenerated { path: "/repo/.gba/features/login/phases.yaml".to_owned(), content: String::new() })
    );
    assert_eq!(spec_file_event("Read", Some("/repo/.gba/features/login/x.md"), None, dir), None);
    assert_eq!(spec_file_event("Write", Some("/repo/src/main.rs"), None, dir), None);
    assert_eq!(spec_file_event("Write", None, None, dir), None);
}
