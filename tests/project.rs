use octmm::project::{valid_name, ProjectError, DIR_MODULES, DIR_SAMPLES, FILE_PROGRAM};

#[test]
fn project_names() {
    assert!(valid_name("abc123"));
    assert!(valid_name("project-success"));
    assert!(valid_name("project_success"));
    assert!(valid_name("projet_été"));
    assert!(!valid_name("project fail"));
    assert!(!valid_name("project$fail"));
    assert!(!valid_name("project.fail"));
    assert!(!valid_name("project/fail"));
    assert!(!valid_name("project\\fail"));
}

#[test]
fn error_messages() {
    assert_eq!(ProjectError::BadName("a b".to_string()).to_string(), "Bad name provided \"a b\"");
    assert_eq!(ProjectError::BadPath("\"/x\"".to_string()).to_string(), "Failed to use path \"/x\"");
    assert_eq!(ProjectError::BadTemplate.to_string(), "Error occured while creating template");
    assert_eq!(ProjectError::NoProgram.to_string(), "Missing program.luau");
    assert_eq!((DIR_MODULES, DIR_SAMPLES, FILE_PROGRAM), ("modules", "samples", "program.luau"));
}
