//! Project-type detection: given what a probe of a project directory
//! observed — which marker files exist and what the manifest files say — the
//! detector names the project's type and framework and suggests launch
//! commands. The probing itself is filesystem work done by the driver; every
//! decision about what the observations mean is made and proved here.

use vstd::prelude::*;
use vstd::string::StringExecFns;

verus! {

/// Whether `needle` occurs as a contiguous run of characters in `haystack`.
pub open spec fn contains_seq(haystack: Seq<char>, needle: Seq<char>) -> bool {
    exists|i: int|
        0 <= i <= haystack.len() - needle.len() && #[trigger] haystack.subrange(
            i,
            i + needle.len(),
        ) == needle
}

/// Relies on `str::contains` with a string pattern: whether the needle
/// occurs as a substring (UTF-8 byte matches of valid text always fall on
/// character boundaries).
#[verifier::external_body]
fn str_contains(haystack: &str, needle: &str) -> (r: bool)
    ensures
        r == contains_seq(haystack@, needle@),
{
    haystack.contains(needle)
}

/// What `str::to_lowercase` returns for a given text; the result depends on
/// the characters alone.
pub uninterp spec fn lower_of(s: Seq<char>) -> Seq<char>;

/// Relies on `str::to_lowercase`: the Unicode-lowercased text.
#[verifier::external_body]
fn lowercase(s: &str) -> (r: String)
    ensures
        r@ == lower_of(s@),
{
    s.to_lowercase()
}

/// Everything a probe of a project directory observed: which marker files
/// exist, and the text of the manifests that were read (empty when absent).
pub struct DirFacts {
    /// The directory's own name, used as the project name.
    pub dir_name: String,
    pub has_requirements_txt: bool,
    pub has_setup_py: bool,
    pub has_pyproject_toml: bool,
    pub has_dot_venv: bool,
    pub has_venv: bool,
    pub has_manage_py: bool,
    pub requirements_text: String,
    pub pyproject_text: String,
    pub has_main_py: bool,
    pub has_app_py: bool,
    pub has_bot_py: bool,
    pub has_run_py: bool,
    pub has_server_py: bool,
    pub has_dunder_main_py: bool,
    pub has_package_json: bool,
    pub package_json_text: String,
    pub has_yarn_lock: bool,
    pub has_pnpm_lock: bool,
    pub has_cargo_toml: bool,
    pub has_go_mod: bool,
    pub has_pom_xml: bool,
    pub pom_text: String,
    pub has_build_gradle: bool,
    pub has_build_gradle_kts: bool,
    pub build_gradle_text: String,
    pub has_composer_json: bool,
    pub has_artisan: bool,
    pub has_symfony_lock: bool,
    pub has_bin_console: bool,
    pub has_csproj: bool,
    pub has_sln_literal: bool,
    pub has_pubspec_yaml: bool,
    pub pubspec_text: String,
    pub has_gemfile: bool,
    pub has_bin_rails: bool,
    pub has_config_routes: bool,
    pub has_docker_compose: bool,
}

/// Mathematical model of the observed facts.
#[verifier::ext_equal]
pub ghost struct FactsView {
    pub dir_name: Seq<char>,
    pub has_requirements_txt: bool,
    pub has_setup_py: bool,
    pub has_pyproject_toml: bool,
    pub has_dot_venv: bool,
    pub has_venv: bool,
    pub has_manage_py: bool,
    pub requirements_text: Seq<char>,
    pub pyproject_text: Seq<char>,
    pub has_main_py: bool,
    pub has_app_py: bool,
    pub has_bot_py: bool,
    pub has_run_py: bool,
    pub has_server_py: bool,
    pub has_dunder_main_py: bool,
    pub has_package_json: bool,
    pub package_json_text: Seq<char>,
    pub has_yarn_lock: bool,
    pub has_pnpm_lock: bool,
    pub has_cargo_toml: bool,
    pub has_go_mod: bool,
    pub has_pom_xml: bool,
    pub pom_text: Seq<char>,
    pub has_build_gradle: bool,
    pub has_build_gradle_kts: bool,
    pub build_gradle_text: Seq<char>,
    pub has_composer_json: bool,
    pub has_artisan: bool,
    pub has_symfony_lock: bool,
    pub has_bin_console: bool,
    pub has_csproj: bool,
    pub has_sln_literal: bool,
    pub has_pubspec_yaml: bool,
    pub pubspec_text: Seq<char>,
    pub has_gemfile: bool,
    pub has_bin_rails: bool,
    pub has_config_routes: bool,
    pub has_docker_compose: bool,
}

impl View for DirFacts {
    type V = FactsView;

    open spec fn view(&self) -> FactsView {
        FactsView {
            dir_name: self.dir_name@,
            has_requirements_txt: self.has_requirements_txt,
            has_setup_py: self.has_setup_py,
            has_pyproject_toml: self.has_pyproject_toml,
            has_dot_venv: self.has_dot_venv,
            has_venv: self.has_venv,
            has_manage_py: self.has_manage_py,
            requirements_text: self.requirements_text@,
            pyproject_text: self.pyproject_text@,
            has_main_py: self.has_main_py,
            has_app_py: self.has_app_py,
            has_bot_py: self.has_bot_py,
            has_run_py: self.has_run_py,
            has_server_py: self.has_server_py,
            has_dunder_main_py: self.has_dunder_main_py,
            has_package_json: self.has_package_json,
            package_json_text: self.package_json_text@,
            has_yarn_lock: self.has_yarn_lock,
            has_pnpm_lock: self.has_pnpm_lock,
            has_cargo_toml: self.has_cargo_toml,
            has_go_mod: self.has_go_mod,
            has_pom_xml: self.has_pom_xml,
            pom_text: self.pom_text@,
            has_build_gradle: self.has_build_gradle,
            has_build_gradle_kts: self.has_build_gradle_kts,
            build_gradle_text: self.build_gradle_text@,
            has_composer_json: self.has_composer_json,
            has_artisan: self.has_artisan,
            has_symfony_lock: self.has_symfony_lock,
            has_bin_console: self.has_bin_console,
            has_csproj: self.has_csproj,
            has_sln_literal: self.has_sln_literal,
            has_pubspec_yaml: self.has_pubspec_yaml,
            pubspec_text: self.pubspec_text@,
            has_gemfile: self.has_gemfile,
            has_bin_rails: self.has_bin_rails,
            has_config_routes: self.has_config_routes,
            has_docker_compose: self.has_docker_compose,
        }
    }
}

/// One suggested launch command.
pub struct CommandSuggestion {
    pub command: String,
    pub description: String,
    pub is_recommended: bool,
}

/// Mathematical model of one suggestion.
#[verifier::ext_equal]
pub ghost struct SuggestionView {
    pub command: Seq<char>,
    pub description: Seq<char>,
    pub is_recommended: bool,
}

impl View for CommandSuggestion {
    type V = SuggestionView;

    open spec fn view(&self) -> SuggestionView {
        SuggestionView {
            command: self.command@,
            description: self.description@,
            is_recommended: self.is_recommended,
        }
    }
}

/// Shorthand for a suggestion model.
pub open spec fn sv(command: Seq<char>, description: Seq<char>, is_recommended: bool) -> SuggestionView {
    SuggestionView { command, description, is_recommended }
}

impl CommandSuggestion {
    /// A suggestion from its parts.
    pub fn new(command: &str, description: &str, is_recommended: bool) -> (r: Self)
        ensures
            r@ == sv(command@, description@, is_recommended),
    {
        CommandSuggestion {
            command: String::from_str(command),
            description: String::from_str(description),
            is_recommended,
        }
    }
}

/// The views of a suggestion list, in order.
pub open spec fn sugs_view(s: Seq<CommandSuggestion>) -> Seq<SuggestionView> {
    s.map_values(|x: CommandSuggestion| x@)
}

/// A directory is a Python project when any of the Python manifests exists.
pub open spec fn is_python(f: FactsView) -> bool {
    f.has_requirements_txt || f.has_setup_py || f.has_pyproject_toml
}

/// The Python entry file: the first of the well-known candidates that
/// exists, falling back to `main.py`.
pub open spec fn python_entry_of(f: FactsView) -> Seq<char> {
    if f.has_main_py {
        "main.py"@
    } else if f.has_app_py {
        "app.py"@
    } else if f.has_bot_py {
        "bot.py"@
    } else if f.has_run_py {
        "run.py"@
    } else if f.has_server_py {
        "server.py"@
    } else if f.has_dunder_main_py {
        "__main__.py"@
    } else {
        "main.py"@
    }
}

/// The entry file's module name: the entry without its `.py` ending.
pub open spec fn python_stem_of(f: FactsView) -> Seq<char> {
    if f.has_main_py {
        "main"@
    } else if f.has_app_py {
        "app"@
    } else if f.has_bot_py {
        "bot"@
    } else if f.has_run_py {
        "run"@
    } else if f.has_server_py {
        "server"@
    } else if f.has_dunder_main_py {
        "__main__"@
    } else {
        "main"@
    }
}

/// The requirements and pyproject texts joined and lowercased, in which the
/// framework markers are searched for.
pub open spec fn python_combined(f: FactsView) -> Seq<char> {
    lower_of(f.requirements_text + "\n"@ + f.pyproject_text)
}

/// The Python framework, decided by `manage.py` first and then by markers in
/// the combined manifest text.
pub open spec fn python_framework_of(f: FactsView) -> Option<Seq<char>> {
    let c = python_combined(f);
    if f.has_manage_py {
        Some("Django"@)
    } else if contains_seq(c, "fastapi"@) {
        Some("FastAPI"@)
    } else if contains_seq(c, "flask"@) {
        Some("Flask"@)
    } else if contains_seq(c, "discord"@) || contains_seq(c, "nextcord"@) || contains_seq(
        c,
        "disnake"@,
    ) {
        Some("Discord Bot"@)
    } else if contains_seq(c, "telegram"@) || contains_seq(c, "aiogram"@) || contains_seq(
        c,
        "pyrogram"@,
    ) {
        Some("Telegram Bot"@)
    } else if contains_seq(c, "streamlit"@) {
        Some("Streamlit"@)
    } else {
        None
    }
}

/// The virtual-environment activation suggestion, when a venv exists.
pub open spec fn python_venv_sugs(f: FactsView) -> Seq<SuggestionView> {
    if f.has_dot_venv || f.has_venv {
        let venv = if f.has_dot_venv {
            ".venv"@
        } else {
            "venv"@
        };
        seq![
            sv("source "@ + venv + "/Scripts/activate"@, "Activate virtual environment"@, true),
        ]
    } else {
        Seq::empty()
    }
}

/// The framework-specific run suggestions for a Python project.
pub open spec fn python_framework_sugs(f: FactsView) -> Seq<SuggestionView> {
    let c = python_combined(f);
    let entry = python_entry_of(f);
    let stem = python_stem_of(f);
    if f.has_manage_py {
        seq![
            sv("python manage.py runserver"@, "Start Django dev server"@, true),
            sv("python manage.py migrate"@, "Run database migrations"@, false),
            sv("python manage.py shell"@, "Start Django shell"@, false),
        ]
    } else if contains_seq(c, "fastapi"@) {
        seq![
            sv("uvicorn "@ + stem + ":app --reload"@, "Start FastAPI with hot reload"@, true),
            sv("python "@ + entry, "Run directly"@, false),
        ]
    } else if contains_seq(c, "flask"@) {
        seq![
            sv("flask --app "@ + stem + " run --reload"@, "Start Flask with hot reload"@, true),
            sv("python "@ + entry, "Run directly"@, false),
        ]
    } else if contains_seq(c, "discord"@) || contains_seq(c, "nextcord"@) || contains_seq(
        c,
        "disnake"@,
    ) {
        seq![sv("python "@ + entry, "Start the bot"@, true)]
    } else if contains_seq(c, "telegram"@) || contains_seq(c, "aiogram"@) || contains_seq(
        c,
        "pyrogram"@,
    ) {
        seq![sv("python "@ + entry, "Start the bot"@, true)]
    } else if contains_seq(c, "streamlit"@) {
        seq![sv("streamlit run "@ + entry, "Start Streamlit app"@, true)]
    } else {
        seq![sv("python "@ + entry, "Run main script"@, true)]
    }
}

/// The dependency-install suggestion for a Python project.
pub open spec fn python_install_sugs(f: FactsView) -> Seq<SuggestionView> {
    if f.has_requirements_txt {
        seq![sv("pip install -r requirements.txt"@, "Install dependencies"@, false)]
    } else {
        Seq::empty()
    }
}

/// The full detection result for a Python project.
pub open spec fn spec_detect_python(f: FactsView) -> DetectedView {
    DetectedView {
        name: f.dir_name,
        project_type: "Python"@,
        framework: python_framework_of(f),
        suggestions: python_venv_sugs(f) + python_framework_sugs(f) + python_install_sugs(f),
    }
}

/// What detection concluded about a directory.
pub struct DetectedProject {
    pub name: String,
    pub project_type: String,
    pub framework: Option<String>,
    pub suggestions: Vec<CommandSuggestion>,
}

/// Mathematical model of a detection result.
#[verifier::ext_equal]
pub ghost struct DetectedView {
    pub name: Seq<char>,
    pub project_type: Seq<char>,
    pub framework: Option<Seq<char>>,
    pub suggestions: Seq<SuggestionView>,
}

impl View for DetectedProject {
    type V = DetectedView;

    open spec fn view(&self) -> DetectedView {
        DetectedView {
            name: self.name@,
            project_type: self.project_type@,
            framework: match self.framework {
                Some(ref f) => Some(f@),
                None => None,
            },
            suggestions: self.suggestions@.map_values(|s: CommandSuggestion| s@),
        }
    }
}



/// The package manager implied by the lockfiles: pnpm, then yarn, then npm.
pub open spec fn pkg_manager_of(f: FactsView) -> Seq<char> {
    if f.has_pnpm_lock {
        "pnpm"@
    } else if f.has_yarn_lock {
        "yarn"@
    } else {
        "npm"@
    }
}

/// The Node.js framework, decided by dependency markers in `package.json`.
pub open spec fn node_framework_of(f: FactsView) -> Option<Seq<char>> {
    let p = f.package_json_text;
    if contains_seq(p, "\"next\""@) {
        Some("Next.js"@)
    } else if contains_seq(p, "\"nuxt\""@) {
        Some("Nuxt"@)
    } else if contains_seq(p, "\"@remix-run"@) {
        Some("Remix"@)
    } else if contains_seq(p, "\"react-scripts\""@) {
        Some("Create React App"@)
    } else if contains_seq(p, "\"vite\""@) && contains_seq(p, "\"react\""@) {
        Some("Vite + React"@)
    } else if contains_seq(p, "\"vite\""@) && contains_seq(p, "\"vue\""@) {
        Some("Vite + Vue"@)
    } else if contains_seq(p, "\"vite\""@) {
        Some("Vite"@)
    } else if contains_seq(p, "\"vue\""@) {
        Some("Vue"@)
    } else if contains_seq(p, "\"@angular/core\""@) {
        Some("Angular"@)
    } else if contains_seq(p, "\"svelte\""@) || contains_seq(p, "\"@sveltejs"@) {
        Some("Svelte"@)
    } else if contains_seq(p, "\"express\""@) {
        Some("Express"@)
    } else if contains_seq(p, "\"fastify\""@) {
        Some("Fastify"@)
    } else if contains_seq(p, "\"nestjs\""@) || contains_seq(p, "\"@nestjs"@) {
        Some("NestJS"@)
    } else if contains_seq(p, "\"discord.js\""@) || contains_seq(p, "\"eris\""@) {
        Some("Discord Bot"@)
    } else if contains_seq(p, "\"electron\""@) {
        Some("Electron"@)
    } else if contains_seq(p, "\"tauri\""@) || contains_seq(p, "\"@tauri-apps"@) {
        Some("Tauri"@)
    } else {
        None
    }
}

/// The dependency-install suggestion for a Node.js project.
pub open spec fn node_install_sugs(f: FactsView) -> Seq<SuggestionView> {
    let cmd = if f.has_pnpm_lock {
        "pnpm install"@
    } else if f.has_yarn_lock {
        "yarn"@
    } else {
        "npm install"@
    };
    seq![sv(cmd, "Install dependencies"@, true)]
}

/// The script suggestions for a Node.js project, driven by which scripts
/// `package.json` declares.
pub open spec fn node_script_sugs(f: FactsView) -> Seq<SuggestionView> {
    let p = f.package_json_text;
    let pkg = pkg_manager_of(f);
    let has_dev = contains_seq(p, "\"dev\""@);
    let has_start = contains_seq(p, "\"start\""@);
    let has_serve = contains_seq(p, "\"serve\""@);
    let has_build = contains_seq(p, "\"build\""@);
    (if has_dev {
        seq![sv(pkg + " run dev"@, "Start development server"@, true)]
    } else {
        Seq::empty()
    }) + (if has_start {
        seq![sv(pkg + " start"@, "Start the application"@, !has_dev)]
    } else {
        Seq::empty()
    }) + (if has_serve {
        seq![sv(pkg + " run serve"@, "Start dev server (Vue CLI)"@, !has_dev && !has_start)]
    } else {
        Seq::empty()
    }) + (if has_build {
        seq![sv(pkg + " run build"@, "Build for production"@, false)]
    } else {
        Seq::empty()
    })
}

/// Whether any framework marker earlier in the cascade than Electron
/// occurs in `package.json`.
pub open spec fn node_pre_electron(p: Seq<char>) -> bool {
    ||| contains_seq(p, "\"next\""@)
    ||| contains_seq(p, "\"nuxt\""@)
    ||| contains_seq(p, "\"@remix-run"@)
    ||| contains_seq(p, "\"react-scripts\""@)
    ||| contains_seq(p, "\"vite\""@)
    ||| contains_seq(p, "\"vue\""@)
    ||| contains_seq(p, "\"@angular/core\""@)
    ||| contains_seq(p, "\"svelte\""@)
    ||| contains_seq(p, "\"@sveltejs"@)
    ||| contains_seq(p, "\"express\""@)
    ||| contains_seq(p, "\"fastify\""@)
    ||| contains_seq(p, "\"nestjs\""@)
    ||| contains_seq(p, "\"@nestjs"@)
    ||| contains_seq(p, "\"discord.js\""@)
    ||| contains_seq(p, "\"eris\""@)
}

/// Whether the cascade lands on Electron.
pub open spec fn node_is_electron(f: FactsView) -> bool {
    !node_pre_electron(f.package_json_text) && contains_seq(
        f.package_json_text,
        "\"electron\""@,
    )
}

/// Whether the cascade lands on Tauri.
pub open spec fn node_is_tauri(f: FactsView) -> bool {
    &&& !node_pre_electron(f.package_json_text)
    &&& !contains_seq(f.package_json_text, "\"electron\""@)
    &&& (contains_seq(f.package_json_text, "\"tauri\""@) || contains_seq(
        f.package_json_text,
        "\"@tauri-apps"@,
    ))
}

/// The framework-specific extra suggestions for a Node.js project.
pub open spec fn node_extra_sugs(f: FactsView) -> Seq<SuggestionView> {
    let pkg = pkg_manager_of(f);
    if node_is_electron(f) {
        seq![sv(pkg + " run electron:serve"@, "Start Electron in dev mode"@, false)]
    } else if node_is_tauri(f) {
        seq![sv(pkg + " run tauri dev"@, "Start Tauri in dev mode"@, true)]
    } else {
        Seq::empty()
    }
}

/// The full detection result for a Node.js project.
pub open spec fn spec_detect_nodejs(f: FactsView) -> DetectedView {
    DetectedView {
        name: f.dir_name,
        project_type: "Node.js"@,
        framework: node_framework_of(f),
        suggestions: node_install_sugs(f) + node_script_sugs(f) + node_extra_sugs(f),
    }
}

/// A fixed suggestion table under a type name, as the simpler project kinds
/// use.
pub open spec fn fixed_detect(
    f: FactsView,
    project_type: Seq<char>,
    framework: Option<Seq<char>>,
    suggestions: Seq<SuggestionView>,
) -> DetectedView {
    DetectedView { name: f.dir_name, project_type, framework, suggestions }
}

/// The whole detection cascade, in priority order: Python, Node.js, Rust,
/// Go, Maven, Gradle, PHP, .NET, Flutter or Dart, Ruby, Docker Compose, and
/// finally the unknown project.
pub open spec fn spec_detect(f: FactsView) -> DetectedView {
    if is_python(f) {
        spec_detect_python(f)
    } else if f.has_package_json {
        spec_detect_nodejs(f)
    } else if f.has_cargo_toml {
        fixed_detect(
            f,
            "Rust"@,
            None,
            seq![
                sv("cargo build"@, "Build the project"@, false),
                sv("cargo run"@, "Build and run the project"@, true),
                sv("cargo run --release"@, "Run in release mode"@, false),
                sv("cargo watch -x run"@, "Watch mode (requires cargo-watch)"@, false),
            ],
        )
    } else if f.has_go_mod {
        fixed_detect(
            f,
            "Go"@,
            None,
            seq![
                sv("go build"@, "Build the project"@, false),
                sv("go run ."@, "Run the project"@, true),
                sv("go run main.go"@, "Run main.go directly"@, false),
            ],
        )
    } else if f.has_pom_xml {
        let spring = contains_seq(f.pom_text, "spring-boot"@);
        fixed_detect(
            f,
            "Java"@,
            if spring {
                Some("Spring Boot"@)
            } else {
                Some("Maven"@)
            },
            seq![
                sv("mvn clean install"@, "Build the project"@, true),
                sv("mvn spring-boot:run"@, "Run Spring Boot app"@, spring),
                sv("java -jar target/*.jar"@, "Run the JAR file"@, !spring),
                sv("mvn test"@, "Run tests"@, false),
            ],
        )
    } else if f.has_build_gradle || f.has_build_gradle_kts {
        let spring = f.has_build_gradle && contains_seq(f.build_gradle_text, "spring-boot"@);
        fixed_detect(
            f,
            "Java"@,
            if spring {
                Some("Spring Boot"@)
            } else {
                Some("Gradle"@)
            },
            seq![
                sv("./gradlew build"@, "Build the project"@, true),
                sv("./gradlew bootRun"@, "Run Spring Boot app"@, spring),
                sv("./gradlew run"@, "Run the application"@, !spring),
                sv("./gradlew test"@, "Run tests"@, false),
            ],
        )
    } else if f.has_composer_json {
        let laravel = f.has_artisan;
        let symfony = f.has_symfony_lock || f.has_bin_console;
        fixed_detect(
            f,
            "PHP"@,
            if laravel {
                Some("Laravel"@)
            } else if symfony {
                Some("Symfony"@)
            } else {
                None
            },
            seq![sv("composer install"@, "Install dependencies"@, true)] + (if laravel {
                seq![
                    sv("php artisan serve"@, "Start Laravel dev server"@, true),
                    sv("php artisan migrate"@, "Run database migrations"@, false),
                    sv("php artisan queue:work"@, "Start queue worker"@, false),
                ]
            } else if symfony {
                seq![
                    sv("symfony serve"@, "Start Symfony dev server"@, true),
                    sv("php bin/console"@, "Run Symfony console"@, false),
                ]
            } else {
                seq![sv("php -S localhost:8000"@, "Start PHP built-in server"@, true)]
            }),
        )
    } else if f.has_csproj || f.has_sln_literal {
        fixed_detect(
            f,
            ".NET"@,
            Some("ASP.NET"@),
            seq![
                sv("dotnet restore"@, "Restore dependencies"@, true),
                sv("dotnet build"@, "Build the project"@, false),
                sv("dotnet run"@, "Run the project"@, true),
                sv("dotnet watch run"@, "Run with hot reload"@, false),
                sv("dotnet test"@, "Run tests"@, false),
            ],
        )
    } else if f.has_pubspec_yaml {
        if contains_seq(f.pubspec_text, "flutter:"@) {
            fixed_detect(
                f,
                "Flutter"@,
                Some("Dart"@),
                seq![
                    sv("flutter pub get"@, "Get dependencies"@, true),
                    sv("flutter run"@, "Run on connected device"@, true),
                    sv("flutter run -d windows"@, "Run on Windows"@, false),
                    sv("flutter run -d chrome"@, "Run on Chrome (web)"@, false),
                    sv("flutter build apk"@, "Build Android APK"@, false),
                ],
            )
        } else {
            fixed_detect(
                f,
                "Dart"@,
                None,
                seq![
                    sv("dart pub get"@, "Get dependencies"@, true),
                    sv("dart run"@, "Run the project"@, true),
                ],
            )
        }
    } else if f.has_gemfile {
        let rails = f.has_bin_rails || f.has_config_routes;
        fixed_detect(
            f,
            "Ruby"@,
            if rails {
                Some("Rails"@)
            } else {
                None
            },
            seq![
                sv("bundle install"@, "Install dependencies"@, true),
                sv(
                    if rails {
                        "rails server"@
                    } else {
                        "ruby main.rb"@
                    },
                    if rails {
                        "Start Rails server"@
                    } else {
                        "Run main script"@
                    },
                    true,
                ),
                sv("rails console"@, "Start Rails console"@, rails),
            ],
        )
    } else if f.has_docker_compose {
        fixed_detect(
            f,
            "Docker"@,
            Some("Compose"@),
            seq![
                sv("docker-compose up"@, "Start all services"@, true),
                sv("docker-compose up -d"@, "Start in background"@, false),
                sv("docker-compose up --build"@, "Rebuild and start"@, false),
                sv("docker-compose down"@, "Stop all services"@, false),
                sv("docker-compose logs -f"@, "Follow logs"@, false),
            ],
        )
    } else {
        fixed_detect(f, "Unknown"@, None, Seq::empty())
    }
}

/// The Python entry file actually present, falling back to `main.py`.
pub fn find_python_entry(f: &DirFacts) -> (r: String)
    ensures
        r@ == python_entry_of(f@),
{
    if f.has_main_py {
        String::from_str("main.py")
    } else if f.has_app_py {
        String::from_str("app.py")
    } else if f.has_bot_py {
        String::from_str("bot.py")
    } else if f.has_run_py {
        String::from_str("run.py")
    } else if f.has_server_py {
        String::from_str("server.py")
    } else if f.has_dunder_main_py {
        String::from_str("__main__.py")
    } else {
        String::from_str("main.py")
    }
}

fn python_stem(f: &DirFacts) -> (r: String)
    ensures
        r@ == python_stem_of(f@),
{
    if f.has_main_py {
        String::from_str("main")
    } else if f.has_app_py {
        String::from_str("app")
    } else if f.has_bot_py {
        String::from_str("bot")
    } else if f.has_run_py {
        String::from_str("run")
    } else if f.has_server_py {
        String::from_str("server")
    } else if f.has_dunder_main_py {
        String::from_str("__main__")
    } else {
        String::from_str("main")
    }
}

/// A suggestion from an already-built command.
fn sug_owned(command: String, description: &str, is_recommended: bool) -> (r: CommandSuggestion)
    ensures
        r@ == sv(command@, description@, is_recommended),
{
    CommandSuggestion { command, description: String::from_str(description), is_recommended }
}

/// Detects a Python project: present exactly when one of the Python
/// manifests exists, and then exactly the model's verdict.
pub fn detect_python(f: &DirFacts) -> (r: Option<DetectedProject>)
    ensures
        match r {
            Some(d) => is_python(f@) && d@ == spec_detect_python(f@),
            None => !is_python(f@),
        },
{
    if !(f.has_requirements_txt || f.has_setup_py || f.has_pyproject_toml) {
        return None;
    }
    let combined_raw = f.requirements_text.clone().concat("\n").concat(f.pyproject_text.as_str());
    proof {
        assert(combined_raw@ =~= f.requirements_text@ + "\n"@ + f.pyproject_text@);
    }
    let combined = lowercase(combined_raw.as_str());
    proof {
        assert(combined@ == python_combined(f@));
    }
    let entry = find_python_entry(f);
    let stem = python_stem(f);
    let mut sugs: Vec<CommandSuggestion> = Vec::new();
    if f.has_dot_venv || f.has_venv {
        let venv: &str = if f.has_dot_venv {
            ".venv"
        } else {
            "venv"
        };
        let cmd = String::from_str("source ").concat(venv).concat("/Scripts/activate");
        sugs.push(sug_owned(cmd, "Activate virtual environment", true));
    }
    proof {
        assert(sugs_view(sugs@) =~= python_venv_sugs(f@));
    }
    let ghost venv_part = sugs_view(sugs@);
    let framework: Option<String>;
    if f.has_manage_py {
        framework = Some(String::from_str("Django"));
        sugs.push(CommandSuggestion::new("python manage.py runserver", "Start Django dev server", true));
        sugs.push(CommandSuggestion::new("python manage.py migrate", "Run database migrations", false));
        sugs.push(CommandSuggestion::new("python manage.py shell", "Start Django shell", false));
    } else if str_contains(combined.as_str(), "fastapi") {
        framework = Some(String::from_str("FastAPI"));
        let cmd = String::from_str("uvicorn ").concat(stem.as_str()).concat(":app --reload");
        sugs.push(sug_owned(cmd, "Start FastAPI with hot reload", true));
        let run = String::from_str("python ").concat(entry.as_str());
        sugs.push(sug_owned(run, "Run directly", false));
    } else if str_contains(combined.as_str(), "flask") {
        framework = Some(String::from_str("Flask"));
        let cmd = String::from_str("flask --app ").concat(stem.as_str()).concat(" run --reload");
        sugs.push(sug_owned(cmd, "Start Flask with hot reload", true));
        let run = String::from_str("python ").concat(entry.as_str());
        sugs.push(sug_owned(run, "Run directly", false));
    } else if str_contains(combined.as_str(), "discord") || str_contains(combined.as_str(), "nextcord")
        || str_contains(combined.as_str(), "disnake") {
        framework = Some(String::from_str("Discord Bot"));
        let run = String::from_str("python ").concat(entry.as_str());
        sugs.push(sug_owned(run, "Start the bot", true));
    } else if str_contains(combined.as_str(), "telegram") || str_contains(combined.as_str(), "aiogram")
        || str_contains(combined.as_str(), "pyrogram") {
        framework = Some(String::from_str("Telegram Bot"));
        let run = String::from_str("python ").concat(entry.as_str());
        sugs.push(sug_owned(run, "Start the bot", true));
    } else if str_contains(combined.as_str(), "streamlit") {
        framework = Some(String::from_str("Streamlit"));
        let run = String::from_str("streamlit run ").concat(entry.as_str());
        sugs.push(sug_owned(run, "Start Streamlit app", true));
    } else {
        framework = None;
        let run = String::from_str("python ").concat(entry.as_str());
        sugs.push(sug_owned(run, "Run main script", true));
    }
    proof {
        assert(sugs_view(sugs@) =~= venv_part + python_framework_sugs(f@));
    }
    if f.has_requirements_txt {
        sugs.push(CommandSuggestion::new("pip install -r requirements.txt", "Install dependencies", false));
    }
    proof {
        assert(sugs_view(sugs@) =~= python_venv_sugs(f@) + python_framework_sugs(f@)
            + python_install_sugs(f@));
    }
    let d = DetectedProject {
        name: f.dir_name.clone(),
        project_type: String::from_str("Python"),
        framework,
        suggestions: sugs,
    };
    proof {
        assert(d@ =~~= spec_detect_python(f@));
    }
    Some(d)
}


/// Detects a Node.js project: present exactly when `package.json` exists,
/// and then exactly the model's verdict.
#[verifier::rlimit(100)]
#[verifier::spinoff_prover]
pub fn detect_nodejs(f: &DirFacts) -> (r: Option<DetectedProject>)
    ensures
        match r {
            Some(d) => f@.has_package_json && d@ == spec_detect_nodejs(f@),
            None => !f@.has_package_json,
        },
{
    if !f.has_package_json {
        return None;
    }
    let p = f.package_json_text.as_str();
    let pkg: &str = if f.has_pnpm_lock {
        "pnpm"
    } else if f.has_yarn_lock {
        "yarn"
    } else {
        "npm"
    };
    let c_next = str_contains(p, "\"next\"");
    let c_nuxt = str_contains(p, "\"nuxt\"");
    let c_remix = str_contains(p, "\"@remix-run");
    let c_cra = str_contains(p, "\"react-scripts\"");
    let c_vite = str_contains(p, "\"vite\"");
    let c_react = str_contains(p, "\"react\"");
    let c_vue = str_contains(p, "\"vue\"");
    let c_angular = str_contains(p, "\"@angular/core\"");
    let c_svelte = str_contains(p, "\"svelte\"") || str_contains(p, "\"@sveltejs");
    let c_express = str_contains(p, "\"express\"");
    let c_fastify = str_contains(p, "\"fastify\"");
    let c_nest = str_contains(p, "\"nestjs\"") || str_contains(p, "\"@nestjs");
    let c_discord = str_contains(p, "\"discord.js\"") || str_contains(p, "\"eris\"");
    let c_electron = str_contains(p, "\"electron\"");
    let c_tauri = str_contains(p, "\"tauri\"") || str_contains(p, "\"@tauri-apps");
    let pre_electron = c_next || c_nuxt || c_remix || c_cra || c_vite || c_vue || c_angular
        || c_svelte || c_express || c_fastify || c_nest || c_discord;
    let is_electron = !pre_electron && c_electron;
    let is_tauri = !pre_electron && !c_electron && c_tauri;
    let framework: Option<String> = if c_next {
        Some(String::from_str("Next.js"))
    } else if c_nuxt {
        Some(String::from_str("Nuxt"))
    } else if c_remix {
        Some(String::from_str("Remix"))
    } else if c_cra {
        Some(String::from_str("Create React App"))
    } else if c_vite && c_react {
        Some(String::from_str("Vite + React"))
    } else if c_vite && c_vue {
        Some(String::from_str("Vite + Vue"))
    } else if c_vite {
        Some(String::from_str("Vite"))
    } else if c_vue {
        Some(String::from_str("Vue"))
    } else if c_angular {
        Some(String::from_str("Angular"))
    } else if c_svelte {
        Some(String::from_str("Svelte"))
    } else if c_express {
        Some(String::from_str("Express"))
    } else if c_fastify {
        Some(String::from_str("Fastify"))
    } else if c_nest {
        Some(String::from_str("NestJS"))
    } else if c_discord {
        Some(String::from_str("Discord Bot"))
    } else if c_electron {
        Some(String::from_str("Electron"))
    } else if c_tauri {
        Some(String::from_str("Tauri"))
    } else {
        None
    };
    proof {
        assert(match framework {
            Some(ref s) => node_framework_of(f@) == Some(s@),
            None => node_framework_of(f@) is None,
        });
    }
    let mut sugs: Vec<CommandSuggestion> = Vec::new();
    let install: &str = if f.has_pnpm_lock {
        "pnpm install"
    } else if f.has_yarn_lock {
        "yarn"
    } else {
        "npm install"
    };
    sugs.push(CommandSuggestion::new(install, "Install dependencies", true));
    proof {
        assert(sugs_view(sugs@) =~= node_install_sugs(f@));
    }
    let ghost before_scripts = sugs_view(sugs@);
    let has_dev = str_contains(p, "\"dev\"");
    let has_start = str_contains(p, "\"start\"");
    let has_serve = str_contains(p, "\"serve\"");
    let has_build = str_contains(p, "\"build\"");
    if has_dev {
        let cmd = String::from_str(pkg).concat(" run dev");
        sugs.push(sug_owned(cmd, "Start development server", true));
    }
    if has_start {
        let cmd = String::from_str(pkg).concat(" start");
        sugs.push(sug_owned(cmd, "Start the application", !has_dev));
    }
    if has_serve {
        let cmd = String::from_str(pkg).concat(" run serve");
        sugs.push(sug_owned(cmd, "Start dev server (Vue CLI)", !has_dev && !has_start));
    }
    if has_build {
        let cmd = String::from_str(pkg).concat(" run build");
        sugs.push(sug_owned(cmd, "Build for production", false));
    }
    proof {
        assert(sugs_view(sugs@) =~= before_scripts + node_script_sugs(f@));
    }
    let ghost before_extras = sugs_view(sugs@);
    if is_electron {
        let cmd = String::from_str(pkg).concat(" run electron:serve");
        sugs.push(sug_owned(cmd, "Start Electron in dev mode", false));
    } else if is_tauri {
        let cmd = String::from_str(pkg).concat(" run tauri dev");
        sugs.push(sug_owned(cmd, "Start Tauri in dev mode", true));
    }
    proof {
        assert(sugs_view(sugs@) =~= before_extras + node_extra_sugs(f@));
    }
    let d = DetectedProject {
        name: f.dir_name.clone(),
        project_type: String::from_str("Node.js"),
        framework,
        suggestions: sugs,
    };
    proof {
        assert(d@ =~~= spec_detect_nodejs(f@));
    }
    Some(d)
}


/// Detects the project type of a probed directory: the full cascade, in
/// priority order, always yielding exactly the model's verdict.
#[verifier::rlimit(100)]
#[verifier::spinoff_prover]
pub fn detect_project(f: &DirFacts) -> (r: DetectedProject)
    ensures
        r@ == spec_detect(f@),
{
    if let Some(d) = detect_python(f) {
        return d;
    }
    if let Some(d) = detect_nodejs(f) {
        return d;
    }
    let name = f.dir_name.clone();
    if f.has_cargo_toml {
        let mut sugs: Vec<CommandSuggestion> = Vec::new();
        sugs.push(CommandSuggestion::new("cargo build", "Build the project", false));
        sugs.push(CommandSuggestion::new("cargo run", "Build and run the project", true));
        sugs.push(CommandSuggestion::new("cargo run --release", "Run in release mode", false));
        sugs.push(CommandSuggestion::new("cargo watch -x run", "Watch mode (requires cargo-watch)", false));
        let d = DetectedProject {
            name,
            project_type: String::from_str("Rust"),
            framework: None,
            suggestions: sugs,
        };
        proof {
            assert(d@ =~~= spec_detect(f@));
        }
        return d;
    }
    if f.has_go_mod {
        let mut sugs: Vec<CommandSuggestion> = Vec::new();
        sugs.push(CommandSuggestion::new("go build", "Build the project", false));
        sugs.push(CommandSuggestion::new("go run .", "Run the project", true));
        sugs.push(CommandSuggestion::new("go run main.go", "Run main.go directly", false));
        let d = DetectedProject {
            name,
            project_type: String::from_str("Go"),
            framework: None,
            suggestions: sugs,
        };
        proof {
            assert(d@ =~~= spec_detect(f@));
        }
        return d;
    }
    if f.has_pom_xml {
        let spring = str_contains(f.pom_text.as_str(), "spring-boot");
        let mut sugs: Vec<CommandSuggestion> = Vec::new();
        sugs.push(CommandSuggestion::new("mvn clean install", "Build the project", true));
        sugs.push(CommandSuggestion::new("mvn spring-boot:run", "Run Spring Boot app", spring));
        sugs.push(CommandSuggestion::new("java -jar target/*.jar", "Run the JAR file", !spring));
        sugs.push(CommandSuggestion::new("mvn test", "Run tests", false));
        let d = DetectedProject {
            name,
            project_type: String::from_str("Java"),
            framework: if spring {
                Some(String::from_str("Spring Boot"))
            } else {
                Some(String::from_str("Maven"))
            },
            suggestions: sugs,
        };
        proof {
            assert(d@ =~~= spec_detect(f@));
        }
        return d;
    }
    if f.has_build_gradle || f.has_build_gradle_kts {
        let spring = f.has_build_gradle && str_contains(f.build_gradle_text.as_str(), "spring-boot");
        let mut sugs: Vec<CommandSuggestion> = Vec::new();
        sugs.push(CommandSuggestion::new("./gradlew build", "Build the project", true));
        sugs.push(CommandSuggestion::new("./gradlew bootRun", "Run Spring Boot app", spring));
        sugs.push(CommandSuggestion::new("./gradlew run", "Run the application", !spring));
        sugs.push(CommandSuggestion::new("./gradlew test", "Run tests", false));
        let d = DetectedProject {
            name,
            project_type: String::from_str("Java"),
            framework: if spring {
                Some(String::from_str("Spring Boot"))
            } else {
                Some(String::from_str("Gradle"))
            },
            suggestions: sugs,
        };
        proof {
            assert(d@ =~~= spec_detect(f@));
        }
        return d;
    }
    if f.has_composer_json {
        let laravel = f.has_artisan;
        let symfony = f.has_symfony_lock || f.has_bin_console;
        let mut sugs: Vec<CommandSuggestion> = Vec::new();
        sugs.push(CommandSuggestion::new("composer install", "Install dependencies", true));
        if laravel {
            sugs.push(CommandSuggestion::new("php artisan serve", "Start Laravel dev server", true));
            sugs.push(CommandSuggestion::new("php artisan migrate", "Run database migrations", false));
            sugs.push(CommandSuggestion::new("php artisan queue:work", "Start queue worker", false));
        } else if symfony {
            sugs.push(CommandSuggestion::new("symfony serve", "Start Symfony dev server", true));
            sugs.push(CommandSuggestion::new("php bin/console", "Run Symfony console", false));
        } else {
            sugs.push(CommandSuggestion::new("php -S localhost:8000", "Start PHP built-in server", true));
        }
        let d = DetectedProject {
            name,
            project_type: String::from_str("PHP"),
            framework: if laravel {
                Some(String::from_str("Laravel"))
            } else if symfony {
                Some(String::from_str("Symfony"))
            } else {
                None
            },
            suggestions: sugs,
        };
        proof {
            assert(d@ =~~= spec_detect(f@));
        }
        return d;
    }
    if f.has_csproj || f.has_sln_literal {
        let mut sugs: Vec<CommandSuggestion> = Vec::new();
        sugs.push(CommandSuggestion::new("dotnet restore", "Restore dependencies", true));
        sugs.push(CommandSuggestion::new("dotnet build", "Build the project", false));
        sugs.push(CommandSuggestion::new("dotnet run", "Run the project", true));
        sugs.push(CommandSuggestion::new("dotnet watch run", "Run with hot reload", false));
        sugs.push(CommandSuggestion::new("dotnet test", "Run tests", false));
        let d = DetectedProject {
            name,
            project_type: String::from_str(".NET"),
            framework: Some(String::from_str("ASP.NET")),
            suggestions: sugs,
        };
        proof {
            assert(d@ =~~= spec_detect(f@));
        }
        return d;
    }
    if f.has_pubspec_yaml {
        if str_contains(f.pubspec_text.as_str(), "flutter:") {
            let mut sugs: Vec<CommandSuggestion> = Vec::new();
            sugs.push(CommandSuggestion::new("flutter pub get", "Get dependencies", true));
            sugs.push(CommandSuggestion::new("flutter run", "Run on connected device", true));
            sugs.push(CommandSuggestion::new("flutter run -d windows", "Run on Windows", false));
            sugs.push(CommandSuggestion::new("flutter run -d chrome", "Run on Chrome (web)", false));
            sugs.push(CommandSuggestion::new("flutter build apk", "Build Android APK", false));
            let d = DetectedProject {
                name,
                project_type: String::from_str("Flutter"),
                framework: Some(String::from_str("Dart")),
                suggestions: sugs,
            };
            proof {
                assert(d@ =~~= spec_detect(f@));
            }
            return d;
        } else {
            let mut sugs: Vec<CommandSuggestion> = Vec::new();
            sugs.push(CommandSuggestion::new("dart pub get", "Get dependencies", true));
            sugs.push(CommandSuggestion::new("dart run", "Run the project", true));
            let d = DetectedProject {
                name,
                project_type: String::from_str("Dart"),
                framework: None,
                suggestions: sugs,
            };
            proof {
                assert(d@ =~~= spec_detect(f@));
            }
            return d;
        }
    }
    if f.has_gemfile {
        let rails = f.has_bin_rails || f.has_config_routes;
        let mut sugs: Vec<CommandSuggestion> = Vec::new();
        sugs.push(CommandSuggestion::new("bundle install", "Install dependencies", true));
        if rails {
            sugs.push(CommandSuggestion::new("rails server", "Start Rails server", true));
        } else {
            sugs.push(CommandSuggestion::new("ruby main.rb", "Run main script", true));
        }
        sugs.push(CommandSuggestion::new("rails console", "Start Rails console", rails));
        let d = DetectedProject {
            name,
            project_type: String::from_str("Ruby"),
            framework: if rails {
                Some(String::from_str("Rails"))
            } else {
                None
            },
            suggestions: sugs,
        };
        proof {
            assert(d@ =~~= spec_detect(f@));
        }
        return d;
    }
    if f.has_docker_compose {
        let mut sugs: Vec<CommandSuggestion> = Vec::new();
        sugs.push(CommandSuggestion::new("docker-compose up", "Start all services", true));
        sugs.push(CommandSuggestion::new("docker-compose up -d", "Start in background", false));
        sugs.push(CommandSuggestion::new("docker-compose up --build", "Rebuild and start", false));
        sugs.push(CommandSuggestion::new("docker-compose down", "Stop all services", false));
        sugs.push(CommandSuggestion::new("docker-compose logs -f", "Follow logs", false));
        let d = DetectedProject {
            name,
            project_type: String::from_str("Docker"),
            framework: Some(String::from_str("Compose")),
            suggestions: sugs,
        };
        proof {
            assert(d@ =~~= spec_detect(f@));
        }
        return d;
    }
    let d = DetectedProject {
        name,
        project_type: String::from_str("Unknown"),
        framework: None,
        suggestions: Vec::new(),
    };
    proof {
        assert(d@ =~~= spec_detect(f@));
    }
    d
}

} // verus!
