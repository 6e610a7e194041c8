use kinetik::{command, editor, physics, project, reflect, runtime};

#[test]
fn exposes_crate_name() {
    assert_eq!(runtime::crate_name(), "kinetik-app");
    assert_eq!(command::crate_name(), "kinetik-command");
    assert_eq!(editor::crate_name(), "kinetik-editor");
    assert_eq!(physics::crate_name(), "kinetik-physics");
    assert_eq!(project::crate_name(), "kinetik-project");
    assert_eq!(reflect::crate_name(), "kinetik-reflect");
}

#[test]
fn lib_exposes_crate_name() {
    assert_eq!(runtime::crate_name(), "kinetik-app");
    assert_eq!(editor::crate_name(), "kinetik-editor");
    assert_eq!(project::crate_name(), "kinetik-project");
    assert_eq!(reflect::crate_name(), "kinetik-reflect");
}

#[test]
fn tests_exposes_crate_name() {
    assert_eq!(command::crate_name(), "kinetik-command");
    assert_eq!(physics::crate_name(), "kinetik-physics");
    assert_eq!(project::crate_name(), "kinetik-project");
    assert_eq!(reflect::crate_name(), "kinetik-reflect");
}
