//! Configuration data: a project definition, the application settings, and
//! the configuration root. Reading and writing the configuration file is the
//! driver's business; the shapes, defaults and identifier rules live here.

use vstd::prelude::*;
use vstd::string::StringExecFns;

verus! {

/// Relies on `uuid::Uuid::new_v4` and its hyphenated `Display` form: a fresh
/// random identifier rendered as 36 lowercase hexadecimal characters and
/// hyphens. The value is random; only its length is promised.
#[verifier::external_body]
fn fresh_project_id() -> (r: String)
    ensures
        r@.len() == 36,
{
    uuid::Uuid::new_v4().to_string()
}

/// One user-defined project: a working directory plus an ordered command
/// list, with its supervision flags.
#[derive(Clone, Debug)]
pub struct Project {
    pub id: String,
    pub name: String,
    pub path: String,
    pub commands: Vec<String>,
    pub auto_start: bool,
    pub restart_on_crash: bool,
    pub enabled: bool,
}

/// Mathematical model of a project definition.
#[verifier::ext_equal]
pub ghost struct ProjectView {
    pub id: Seq<char>,
    pub name: Seq<char>,
    pub path: Seq<char>,
    pub commands: Seq<Seq<char>>,
    pub auto_start: bool,
    pub restart_on_crash: bool,
    pub enabled: bool,
}

impl View for Project {
    type V = ProjectView;

    open spec fn view(&self) -> ProjectView {
        ProjectView {
            id: self.id@,
            name: self.name@,
            path: self.path@,
            commands: self.commands.deep_view(),
            auto_start: self.auto_start,
            restart_on_crash: self.restart_on_crash,
            enabled: self.enabled,
        }
    }
}

/// The views of a project list, in order.
pub open spec fn projects_view(s: Seq<Project>) -> Seq<ProjectView> {
    s.map_values(|p: Project| p@)
}

/// `i` is the position of the first project in `s` carrying `id`.
pub open spec fn is_first_project_idx(s: Seq<ProjectView>, id: Seq<char>, i: int) -> bool {
    &&& 0 <= i < s.len()
    &&& s[i].id == id
    &&& forall|j: int| 0 <= j < i ==> (#[trigger] s[j]).id != id
}

/// The project list with every project carrying `id` removed, order kept.
pub open spec fn spec_remove_project(s: Seq<ProjectView>, id: Seq<char>) -> Seq<ProjectView>
    decreases s.len(),
{
    if s.len() == 0 {
        Seq::empty()
    } else if s.last().id == id {
        spec_remove_project(s.drop_last(), id)
    } else {
        spec_remove_project(s.drop_last(), id).push(s.last())
    }
}

impl Project {
    /// A new project under a fresh 36-character identifier; auto-start,
    /// crash-restart and the project itself all start enabled.
    pub fn new(name: String, path: String, commands: Vec<String>) -> (r: Self)
        ensures
            r.id@.len() == 36,
            r.name == name,
            r.path == path,
            r.commands == commands,
            r.auto_start,
            r.restart_on_crash,
            r.enabled,
    {
        Project {
            id: fresh_project_id(),
            name,
            path,
            commands,
            auto_start: true,
            restart_on_crash: true,
            enabled: true,
        }
    }
}

/// Global application settings.
#[derive(Clone, Debug)]
pub struct Settings {
    pub auto_start_with_windows: bool,
    pub theme: String,
    pub minimize_to_tray: bool,
    pub show_notifications: bool,
}

impl Default for Settings {
    /// The defaults: start with the OS, dark theme, tray and notifications on.
    fn default() -> (r: Self)
        ensures
            r.auto_start_with_windows,
            r.theme@ == "dark"@,
            r.minimize_to_tray,
            r.show_notifications,
    {
        Settings {
            auto_start_with_windows: true,
            theme: String::from_str("dark"),
            minimize_to_tray: true,
            show_notifications: true,
        }
    }
}

/// An exact copy of a project definition, field by field.
fn clone_project(p: &Project) -> (r: Project)
    ensures
        r@ == p@,
{
    let r = Project {
        id: p.id.clone(),
        name: p.name.clone(),
        path: p.path.clone(),
        commands: crate::strutil::clone_strings(&p.commands),
        auto_start: p.auto_start,
        restart_on_crash: p.restart_on_crash,
        enabled: p.enabled,
    };
    proof {
        assert(r@ =~= p@);
    }
    r
}

/// The whole persisted configuration.
#[derive(Clone, Debug)]
pub struct AppConfig {
    pub version: String,
    pub settings: Settings,
    pub projects: Vec<Project>,
}

impl AppConfig {
    /// Appends a project definition to the configuration.
    pub fn add_project(&mut self, project: Project)
        ensures
            projects_view(final(self).projects@) == projects_view(old(self).projects@).push(
                project@,
            ),
            final(self).version == old(self).version,
            final(self).settings == old(self).settings,
    {
        let ghost pre = projects_view(self.projects@);
        self.projects.push(project);
        proof {
            assert(projects_view(self.projects@) =~= pre.push(project@));
        }
    }

    /// The first project carrying this id, if any is defined.
    pub fn find_project(&self, project_id: &str) -> (r: Option<&Project>)
        ensures
            match r {
                Some(p) => exists|i: int|
                    is_first_project_idx(projects_view(self.projects@), project_id@, i)
                        && #[trigger] projects_view(self.projects@)[i] == p@,
                None => forall|j: int|
                    0 <= j < self.projects@.len() ==> (#[trigger] self.projects@[j])@.id
                        != project_id@,
            },
    {
        let key = String::from_str(project_id);
        let mut i: usize = 0;
        while i < self.projects.len()
            invariant
                i <= self.projects@.len(),
                key@ == project_id@,
                forall|j: int| 0 <= j < i ==> (#[trigger] self.projects@[j])@.id != project_id@,
            decreases self.projects@.len() - i,
        {
            if self.projects[i].id == key {
                proof {
                    assert(is_first_project_idx(
                        projects_view(self.projects@),
                        project_id@,
                        i as int,
                    ));
                }
                return Some(&self.projects[i]);
            }
            i += 1;
        }
        None
    }

    /// Replaces the first project carrying the same id as the given one; a
    /// configuration without such a project is left unchanged.
    pub fn update_project(&mut self, project: Project)
        ensures
            final(self).version == old(self).version,
            final(self).settings == old(self).settings,
            (exists|i: int|
                is_first_project_idx(projects_view(old(self).projects@), project@.id, i)
                    && projects_view(final(self).projects@) == projects_view(
                    old(self).projects@,
                ).update(i, project@)) || ({
                &&& forall|j: int|
                    0 <= j < old(self).projects@.len() ==> (#[trigger] old(
                        self,
                    ).projects@[j])@.id != project@.id
                &&& final(self).projects == old(self).projects
            }),
    {
        let mut i: usize = 0;
        while i < self.projects.len()
            invariant
                i <= self.projects@.len(),
                self.version == old(self).version,
                self.settings == old(self).settings,
                self.projects == old(self).projects,
                forall|j: int| 0 <= j < i ==> (#[trigger] self.projects@[j])@.id != project@.id,
            decreases self.projects@.len() - i,
        {
            if self.projects[i].id == project.id {
                let ghost pre = projects_view(self.projects@);
                proof {
                    assert(is_first_project_idx(pre, project@.id, i as int));
                }
                self.projects.set(i, project);
                proof {
                    assert(projects_view(self.projects@) =~= pre.update(i as int, project@));
                }
                return ;
            }
            i += 1;
        }
    }

    /// Removes every project carrying this id, keeping the others in order.
    pub fn delete_project(&mut self, project_id: &str)
        ensures
            final(self).version == old(self).version,
            final(self).settings == old(self).settings,
            projects_view(final(self).projects@) == spec_remove_project(
                projects_view(old(self).projects@),
                project_id@,
            ),
    {
        let ghost pre = projects_view(self.projects@);
        let key = String::from_str(project_id);
        let mut kept: Vec<Project> = Vec::new();
        let mut i: usize = 0;
        while i < self.projects.len()
            invariant
                i <= self.projects@.len(),
                key@ == project_id@,
                projects_view(self.projects@) == pre,
                projects_view(kept@) =~= spec_remove_project(
                    pre.subrange(0, i as int),
                    project_id@,
                ),
            decreases self.projects@.len() - i,
        {
            let ghost kept_pre = projects_view(kept@);
            if !(self.projects[i].id == key) {
                kept.push(clone_project(&self.projects[i]));
                proof {
                    assert(projects_view(kept@) =~= kept_pre.push(pre[i as int]));
                }
            }
            i += 1;
            proof {
                let cur = pre.subrange(0, i as int);
                assert(cur.drop_last() =~= pre.subrange(0, i - 1));
                assert(cur.last() == pre[i - 1]);
                assert(projects_view(kept@) =~= spec_remove_project(cur, project_id@));
            }
        }
        self.projects = kept;
        proof {
            assert(pre.subrange(0, pre.len() as int) =~= pre);
        }
    }
}

impl Default for AppConfig {
    /// An empty configuration at schema version 1.0 with default settings.
    fn default() -> (r: Self)
        ensures
            r.version@ == "1.0"@,
            r.projects@.len() == 0,
            r.settings.auto_start_with_windows,
            r.settings.theme@ == "dark"@,
            r.settings.minimize_to_tray,
            r.settings.show_notifications,
    {
        AppConfig {
            version: String::from_str("1.0"),
            settings: Settings::default(),
            projects: Vec::new(),
        }
    }
}

} // verus!
