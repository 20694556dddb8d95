use devboot::launcher::{build_script, fallback_shell, launch_env, shell_candidates};
use devboot::strutil::{i64_to_string, normalize_path, stamp, u64_to_string};

#[test]
fn unsigned_decimal_rendering() {
    assert_eq!(u64_to_string(0), "0");
    assert_eq!(u64_to_string(7), "7");
    assert_eq!(u64_to_string(42), "42");
    assert_eq!(u64_to_string(1000), "1000");
    assert_eq!(u64_to_string(u64::MAX), "18446744073709551615");
}

#[test]
fn signed_decimal_rendering() {
    assert_eq!(i64_to_string(0), "0");
    assert_eq!(i64_to_string(-1), "-1");
    assert_eq!(i64_to_string(137), "137");
    assert_eq!(i64_to_string(-256), "-256");
    assert_eq!(i64_to_string(i64::MIN), "-9223372036854775808");
}

#[test]
fn paths_are_separator_normalised() {
    assert_eq!(normalize_path("C:\\Users\\dev\\proj"), "C:/Users/dev/proj");
    assert_eq!(normalize_path("already/fine"), "already/fine");
    assert_eq!(normalize_path(""), "");
}

#[test]
fn stamp_brackets_the_timestamp() {
    assert_eq!(stamp("09:15:42", "ready"), "[09:15:42] ready");
}

#[test]
fn script_joins_commands_with_logical_and() {
    let commands = vec!["pip install -r requirements.txt".to_string(), "python main.py".to_string()];
    assert_eq!(
        build_script("C:\\py\\bot", &commands),
        "cd 'C:/py/bot' && pip install -r requirements.txt && python main.py"
    );
    let none: Vec<String> = Vec::new();
    assert_eq!(build_script("/srv/app", &none), "cd '/srv/app'");
}

#[test]
fn launch_environment_forces_utf8() {
    let env = launch_env();
    let pairs: Vec<(&str, &str)> = env.iter().map(|(k, v)| (k.as_str(), v.as_str())).collect();
    assert_eq!(
        pairs,
        vec![
            ("PYTHONIOENCODING", "utf-8"),
            ("PYTHONUTF8", "1"),
            ("LANG", "en_US.UTF-8"),
            ("LC_ALL", "en_US.UTF-8"),
        ]
    );
}

#[test]
fn shell_candidates_prefer_git_bash() {
    let c = shell_candidates();
    assert_eq!(c.len(), 3);
    assert_eq!(c[0], "C:\\Program Files\\Git\\bin\\bash.exe");
    assert_eq!(c[1], "C:\\Program Files (x86)\\Git\\bin\\bash.exe");
    assert_eq!(c[2], "C:\\Git\\bin\\bash.exe");
    assert_eq!(fallback_shell(), "bash");
}
