use devboot::config::{AppConfig, Project, Settings};
use devboot::startup::{disable_auto_start, enable_auto_start, is_auto_start_enabled};

#[test]
fn new_project_gets_a_fresh_id_and_enabled_flags() {
    let p = Project::new(
        "My Bot".to_string(),
        "C:\\bots\\mybot".to_string(),
        vec!["python bot.py".to_string()],
    );
    assert_eq!(p.id.len(), 36);
    assert_eq!(p.name, "My Bot");
    assert_eq!(p.path, "C:\\bots\\mybot");
    assert_eq!(p.commands, vec!["python bot.py"]);
    assert!(p.auto_start);
    assert!(p.restart_on_crash);
    assert!(p.enabled);
    let q = Project::new("Other".to_string(), "d".to_string(), Vec::new());
    assert_eq!(q.id.len(), 36);
}

#[test]
fn default_settings() {
    let s = Settings::default();
    assert!(s.auto_start_with_windows);
    assert_eq!(s.theme, "dark");
    assert!(s.minimize_to_tray);
    assert!(s.show_notifications);
}

#[test]
fn default_config_is_empty_at_version_one() {
    let c = AppConfig::default();
    assert_eq!(c.version, "1.0");
    assert!(c.projects.is_empty());
    assert_eq!(c.settings.theme, "dark");
}

#[test]
fn portable_auto_start_is_refused() {
    assert_eq!(
        enable_auto_start().unwrap_err(),
        "Auto-start not supported on this platform"
    );
    assert_eq!(
        disable_auto_start().unwrap_err(),
        "Auto-start not supported on this platform"
    );
    assert!(!is_auto_start_enabled());
}

#[test]
fn add_update_and_delete_projects() {
    let mut c = AppConfig::default();
    let a = Project::new("A".to_string(), "pa".to_string(), vec!["run a".to_string()]);
    let b = Project::new("B".to_string(), "pb".to_string(), vec!["run b".to_string()]);
    let a_id = a.id.clone();
    c.add_project(a);
    c.add_project(b);
    assert_eq!(c.projects.len(), 2);
    assert_eq!(c.projects[0].name, "A");

    // replace A under its id
    let mut a2 = c.projects[0].clone();
    a2.name = "A renamed".to_string();
    a2.enabled = false;
    c.update_project(a2);
    assert_eq!(c.projects.len(), 2);
    assert_eq!(c.projects[0].name, "A renamed");
    assert!(!c.projects[0].enabled);
    assert_eq!(c.projects[1].name, "B");

    // updating an unknown id changes nothing
    let ghost_p = Project::new("G".to_string(), "pg".to_string(), Vec::new());
    c.update_project(ghost_p);
    assert_eq!(c.projects.len(), 2);

    // find by id
    assert_eq!(c.find_project(&a_id).unwrap().name, "A renamed");
    assert!(c.find_project("nope").is_none());

    // delete keeps the others in order
    c.delete_project(&a_id);
    assert_eq!(c.projects.len(), 1);
    assert_eq!(c.projects[0].name, "B");
    c.delete_project("nope");
    assert_eq!(c.projects.len(), 1);
}
