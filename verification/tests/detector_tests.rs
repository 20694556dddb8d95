use devboot::detector::{detect_nodejs, detect_python, detect_project, find_python_entry, DirFacts};

fn facts(name: &str) -> DirFacts {
    DirFacts {
        dir_name: name.to_string(),
        has_requirements_txt: false,
        has_setup_py: false,
        has_pyproject_toml: false,
        has_dot_venv: false,
        has_venv: false,
        has_manage_py: false,
        requirements_text: String::new(),
        pyproject_text: String::new(),
        has_main_py: false,
        has_app_py: false,
        has_bot_py: false,
        has_run_py: false,
        has_server_py: false,
        has_dunder_main_py: false,
        has_package_json: false,
        package_json_text: String::new(),
        has_yarn_lock: false,
        has_pnpm_lock: false,
        has_cargo_toml: false,
        has_go_mod: false,
        has_pom_xml: false,
        pom_text: String::new(),
        has_build_gradle: false,
        has_build_gradle_kts: false,
        build_gradle_text: String::new(),
        has_composer_json: false,
        has_artisan: false,
        has_symfony_lock: false,
        has_bin_console: false,
        has_csproj: false,
        has_sln_literal: false,
        has_pubspec_yaml: false,
        pubspec_text: String::new(),
        has_gemfile: false,
        has_bin_rails: false,
        has_config_routes: false,
        has_docker_compose: false,
    }
}

fn commands(d: &devboot::detector::DetectedProject) -> Vec<(String, bool)> {
    d.suggestions
        .iter()
        .map(|s| (s.command.clone(), s.is_recommended))
        .collect()
}

#[test]
fn bare_directory_is_unknown() {
    let d = detect_project(&facts("empty"));
    assert_eq!(d.name, "empty");
    assert_eq!(d.project_type, "Unknown");
    assert!(d.framework.is_none());
    assert!(d.suggestions.is_empty());
}

#[test]
fn cargo_toml_means_rust() {
    let mut f = facts("tool");
    f.has_cargo_toml = true;
    let d = detect_project(&f);
    assert_eq!(d.project_type, "Rust");
    assert!(d.framework.is_none());
    assert_eq!(
        commands(&d),
        vec![
            ("cargo build".to_string(), false),
            ("cargo run".to_string(), true),
            ("cargo run --release".to_string(), false),
            ("cargo watch -x run".to_string(), false),
        ]
    );
}

#[test]
fn python_fastapi_project_with_venv() {
    let mut f = facts("api");
    f.has_requirements_txt = true;
    // uppercase in the manifest: detection lowercases before matching
    f.requirements_text = "FastAPI==0.100\nuvicorn".to_string();
    f.has_dot_venv = true;
    f.has_app_py = true;
    let d = detect_project(&f);
    assert_eq!(d.project_type, "Python");
    assert_eq!(d.framework.as_deref(), Some("FastAPI"));
    assert_eq!(
        commands(&d),
        vec![
            ("source .venv/Scripts/activate".to_string(), true),
            ("uvicorn app:app --reload".to_string(), true),
            ("python app.py".to_string(), false),
            ("pip install -r requirements.txt".to_string(), false),
        ]
    );
}

#[test]
fn manage_py_wins_over_manifest_markers() {
    let mut f = facts("web");
    f.has_setup_py = true;
    f.has_manage_py = true;
    f.requirements_text = "flask".to_string();
    let d = detect_python(&f).expect("python project");
    assert_eq!(d.framework.as_deref(), Some("Django"));
    assert_eq!(d.suggestions[0].command, "python manage.py runserver");
}

#[test]
fn python_entry_falls_back_to_main() {
    let f = facts("x");
    assert_eq!(find_python_entry(&f), "main.py");
    let mut f2 = facts("x");
    f2.has_bot_py = true;
    assert_eq!(find_python_entry(&f2), "bot.py");
}

#[test]
fn nodejs_next_with_yarn() {
    let mut f = facts("site");
    f.has_package_json = true;
    f.has_yarn_lock = true;
    f.package_json_text =
        "{\"dependencies\":{\"next\":\"14\"},\"scripts\":{\"dev\":\"next dev\",\"build\":\"next build\"}}"
            .to_string();
    let d = detect_nodejs(&f).expect("node project");
    assert_eq!(d.project_type, "Node.js");
    assert_eq!(d.framework.as_deref(), Some("Next.js"));
    assert_eq!(
        commands(&d),
        vec![
            ("yarn".to_string(), true),
            ("yarn run dev".to_string(), true),
            ("yarn run build".to_string(), false),
        ]
    );
}

#[test]
fn nodejs_tauri_gets_its_extra_suggestion() {
    let mut f = facts("desktop");
    f.has_package_json = true;
    f.package_json_text = "{\"dependencies\":{\"@tauri-apps/api\":\"2\"}}".to_string();
    let d = detect_project(&f);
    assert_eq!(d.framework.as_deref(), Some("Tauri"));
    let cmds = commands(&d);
    assert!(cmds.contains(&("npm run tauri dev".to_string(), true)));
}

#[test]
fn non_python_non_node_is_passed_over() {
    let f = facts("plain");
    assert!(detect_python(&f).is_none());
    assert!(detect_nodejs(&f).is_none());
}

#[test]
fn maven_spring_boot_is_recognised() {
    let mut f = facts("svc");
    f.has_pom_xml = true;
    f.pom_text = "<project><artifactId>spring-boot-starter</artifactId></project>".to_string();
    let d = detect_project(&f);
    assert_eq!(d.project_type, "Java");
    assert_eq!(d.framework.as_deref(), Some("Spring Boot"));
    assert!(commands(&d).contains(&("mvn spring-boot:run".to_string(), true)));
}

#[test]
fn gemfile_with_routes_is_rails() {
    let mut f = facts("shop");
    f.has_gemfile = true;
    f.has_config_routes = true;
    let d = detect_project(&f);
    assert_eq!(d.project_type, "Ruby");
    assert_eq!(d.framework.as_deref(), Some("Rails"));
    assert_eq!(
        commands(&d),
        vec![
            ("bundle install".to_string(), true),
            ("rails server".to_string(), true),
            ("rails console".to_string(), true),
        ]
    );
}

#[test]
fn compose_file_means_docker() {
    let mut f = facts("stack");
    f.has_docker_compose = true;
    let d = detect_project(&f);
    assert_eq!(d.project_type, "Docker");
    assert_eq!(d.framework.as_deref(), Some("Compose"));
    assert_eq!(d.suggestions.len(), 5);
    assert_eq!(d.suggestions[0].command, "docker-compose up");
    assert!(d.suggestions[0].is_recommended);
}

#[test]
fn flutter_marker_in_pubspec_decides_flutter_over_dart() {
    let mut f = facts("appy");
    f.has_pubspec_yaml = true;
    f.pubspec_text = "name: appy\nflutter:\n  uses-material-design: true".to_string();
    let d = detect_project(&f);
    assert_eq!(d.project_type, "Flutter");
    let mut f2 = facts("cli");
    f2.has_pubspec_yaml = true;
    f2.pubspec_text = "name: cli".to_string();
    let d2 = detect_project(&f2);
    assert_eq!(d2.project_type, "Dart");
}
