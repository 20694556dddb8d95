//! Building the shell invocation for a project: a `cd` into the working
//! directory followed by the project's commands joined with logical AND, so
//! each step runs only if the previous one succeeded. The launcher never
//! interprets the commands itself — the driver hands the script to a host
//! shell.

use crate::strutil::{normalize_path, normalized_path};
use vstd::prelude::*;
use vstd::string::StringExecFns;

verus! {

/// `" && cmd"` for every command, in order.
pub open spec fn and_chain(cmds: Seq<Seq<char>>) -> Seq<char>
    decreases cmds.len(),
{
    if cmds.len() == 0 {
        Seq::empty()
    } else {
        and_chain(cmds.drop_last()) + " && "@ + cmds.last()
    }
}

/// The full shell script for a launch: change into the (separator-normalised,
/// single-quoted) working directory, then run each command, each step
/// conditional on the previous one's success.
pub open spec fn script_view(path: Seq<char>, cmds: Seq<Seq<char>>) -> Seq<char> {
    "cd '"@ + normalized_path(path) + "'"@ + and_chain(cmds)
}

/// Everything the driver needs to spawn one child process.
pub struct LaunchPlan {
    pub script: String,
}

/// Builds the shell script that launches a project.
pub fn build_script(path: &str, commands: &Vec<String>) -> (r: String)
    ensures
        r@ == script_view(path@, commands.deep_view()),
{
    let mut r = String::from_str("cd '").concat(normalize_path(path).as_str()).concat("'");
    proof {
        assert(commands.deep_view().subrange(0, 0) =~= Seq::<Seq<char>>::empty());
        assert(r@ =~= "cd '"@ + normalized_path(path@) + "'"@ + and_chain(
            commands.deep_view().subrange(0, 0),
        ));
    }
    let mut i: usize = 0;
    while i < commands.len()
        invariant
            i <= commands@.len(),
            r@ == "cd '"@ + normalized_path(path@) + "'"@ + and_chain(
                commands.deep_view().subrange(0, i as int),
            ),
        decreases commands@.len() - i,
    {
        r = r.concat(" && ").concat(commands[i].as_str());
        i += 1;
        proof {
            let pre = commands.deep_view().subrange(0, i - 1);
            let cur = commands.deep_view().subrange(0, i as int);
            assert(cur.drop_last() =~= pre);
            assert(cur.last() == commands.deep_view()[i - 1]);
            assert(r@ =~= "cd '"@ + normalized_path(path@) + "'"@ + and_chain(cur));
        }
    }
    proof {
        assert(commands.deep_view().subrange(0, commands.deep_view().len() as int)
            =~= commands.deep_view());
    }
    r
}

/// The environment forced onto every launched child so that interpreters
/// which default to a platform locale emit UTF-8.
pub fn launch_env() -> (r: Vec<(String, String)>)
    ensures
        r@.len() == 4,
        r@[0].0@ == "PYTHONIOENCODING"@ && r@[0].1@ == "utf-8"@,
        r@[1].0@ == "PYTHONUTF8"@ && r@[1].1@ == "1"@,
        r@[2].0@ == "LANG"@ && r@[2].1@ == "en_US.UTF-8"@,
        r@[3].0@ == "LC_ALL"@ && r@[3].1@ == "en_US.UTF-8"@,
{
    let mut r: Vec<(String, String)> = Vec::new();
    r.push((String::from_str("PYTHONIOENCODING"), String::from_str("utf-8")));
    r.push((String::from_str("PYTHONUTF8"), String::from_str("1")));
    r.push((String::from_str("LANG"), String::from_str("en_US.UTF-8")));
    r.push((String::from_str("LC_ALL"), String::from_str("en_US.UTF-8")));
    r
}

/// The well-known places a Git Bash interpreter is looked for, in order of
/// preference; the driver probes them and falls back to [`fallback_shell`].
pub fn shell_candidates() -> (r: Vec<String>)
    ensures
        r.deep_view() =~= seq![
            "C:\\Program Files\\Git\\bin\\bash.exe"@,
            "C:\\Program Files (x86)\\Git\\bin\\bash.exe"@,
            "C:\\Git\\bin\\bash.exe"@,
        ],
{
    let mut r: Vec<String> = Vec::new();
    r.push(String::from_str("C:\\Program Files\\Git\\bin\\bash.exe"));
    r.push(String::from_str("C:\\Program Files (x86)\\Git\\bin\\bash.exe"));
    r.push(String::from_str("C:\\Git\\bin\\bash.exe"));
    r
}

/// The shell used when no candidate path exists: whatever `bash` resolves to
/// on the search path.
pub fn fallback_shell() -> (r: &'static str)
    ensures
        r@ == "bash"@,
{
    "bash"
}

} // verus!
