use worker_supervisor::launch::{
    candidate_report, executable_candidates, log_startup_paths, resolve_executable, spawn_backend,
    SIDECAR_NAME,
};

fn env_of(debug_build: bool, app_dir: Option<&str>) -> Vec<(String, String)> {
    spawn_backend(debug_build, app_dir.map(String::from))
        .envs
        .into_iter()
        .map(|var| (var.name, var.value))
        .collect()
}

fn pairs(items: &[(&str, &str)]) -> Vec<(String, String)> {
    items.iter().map(|(name, value)| (String::from(*name), String::from(*value))).collect()
}

#[test]
fn release_build_environment() {
    assert_eq!(
        env_of(false, None),
        pairs(&[
            ("PORT", "8000"),
            ("APP_ENV", "prod"),
            ("PYTHONUTF8", "1"),
            ("PYTHONIOENCODING", "utf-8"),
        ])
    );
}

#[test]
fn debug_build_environment() {
    assert_eq!(
        env_of(true, None),
        pairs(&[
            ("PORT", "8000"),
            ("APP_ENV", "dev"),
            ("PYTHONUTF8", "1"),
            ("PYTHONIOENCODING", "utf-8"),
        ])
    );
}

#[test]
fn data_directory_override_is_passed_on_unchanged() {
    let env = env_of(false, Some("  D:\\dados  "));
    assert_eq!(env.len(), 5);
    assert_eq!(env[4], (String::from("CHRONOS_APP_DIR"), String::from("  D:\\dados  ")));
}

#[test]
fn blank_override_is_ignored() {
    for blank in ["", " ", "\t", " \r\n ", "\u{a0}", "\u{2003}\u{3000}"] {
        assert_eq!(env_of(true, Some(blank)).len(), 4, "{:?}", blank);
        let plan = spawn_backend(true, Some(String::from(blank)));
        assert!(plan.announcement.ends_with("CHRONOS_APP_DIR=(inherit/default)"));
    }
    assert_eq!(env_of(true, Some("\u{200b}")).len(), 5);
    assert_eq!(env_of(true, Some(" x ")).len(), 5);
}

#[test]
fn spawn_plan_names_program_and_encoding() {
    let plan = spawn_backend(false, None);
    assert_eq!(SIDECAR_NAME, "estoque_backend");
    assert_eq!(plan.program, "estoque_backend");
    assert_eq!(plan.encoding_label, "utf-8");
}

#[test]
fn spawn_announcements() {
    assert_eq!(
        spawn_backend(false, None).announcement,
        "spawn sidecar: name=estoque_backend PORT=8000 APP_ENV=prod CHRONOS_APP_DIR=(inherit/default)"
    );
    assert_eq!(
        spawn_backend(true, Some(String::from("/srv/chronos"))).announcement,
        "spawn sidecar: name=estoque_backend PORT=8000 APP_ENV=dev CHRONOS_APP_DIR=/srv/chronos"
    );
}

#[test]
fn candidates_in_resolution_order() {
    let found = executable_candidates(Some("/res"), Some("/data"), Some("/exe"));
    let listed: Vec<(&str, &str, bool, &str)> = found
        .iter()
        .map(|c| (c.label.as_str(), c.dir.as_str(), c.in_bin, c.file_name.as_str()))
        .collect();
    let plain = "estoque_backend.exe";
    let qualified = "estoque_backend-x86_64-pc-windows-msvc.exe";
    assert_eq!(
        listed,
        vec![
            ("resource_dir/estoque_backend.exe", "/res", false, plain),
            ("resource_dir/estoque_backend-x86_64-pc-windows-msvc.exe", "/res", false, qualified),
            ("resource_dir/bin/estoque_backend.exe", "/res", true, plain),
            (
                "resource_dir/bin/estoque_backend-x86_64-pc-windows-msvc.exe",
                "/res",
                true,
                qualified
            ),
            ("app_data_dir/estoque_backend.exe", "/data", false, plain),
            ("app_data_dir/estoque_backend-x86_64-pc-windows-msvc.exe", "/data", false, qualified),
            ("exe_dir/estoque_backend.exe", "/exe", false, plain),
            ("exe_dir/estoque_backend-x86_64-pc-windows-msvc.exe", "/exe", false, qualified),
        ]
    );
}

#[test]
fn unknown_directories_contribute_no_candidate() {
    assert!(executable_candidates(None, None, None).is_empty());
    let only_exe = executable_candidates(None, None, Some("/exe"));
    assert_eq!(only_exe.len(), 2);
    assert_eq!(only_exe[0].label, "exe_dir/estoque_backend.exe");
    let no_data = executable_candidates(Some("/res"), None, Some("/exe"));
    assert_eq!(no_data.len(), 6);
    assert_eq!(no_data[4].label, "exe_dir/estoque_backend.exe");
}

#[test]
fn first_existing_candidate_wins() {
    assert_eq!(resolve_executable(&vec![]), None);
    assert_eq!(resolve_executable(&vec![false, false, false]), None);
    assert_eq!(resolve_executable(&vec![true]), Some(0));
    assert_eq!(resolve_executable(&vec![false, true, true, false]), Some(1));
    assert_eq!(resolve_executable(&vec![false, false, false, true]), Some(3));
}

#[test]
fn startup_path_lines() {
    assert_eq!(
        log_startup_paths(Some("\"/res\""), None, Some("\"C:\\\\app\"")),
        vec!["resource_dir=Some(\"/res\")", "app_data_dir=None", "current_exe_dir=Some(\"C:\\\\app\")"]
    );
    // The lines are those of the debug form of an optional path.
    let dir = Some(std::path::PathBuf::from("/opt/chronos inventory"));
    let quoted = dir.as_ref().map(|d| format!("{:?}", d));
    let none: Option<std::path::PathBuf> = None;
    let lines = log_startup_paths(quoted.as_deref(), None, quoted.as_deref());
    assert_eq!(lines[0], format!("resource_dir={:?}", dir));
    assert_eq!(lines[1], format!("app_data_dir={:?}", none));
    assert_eq!(lines[2], format!("current_exe_dir={:?}", dir));
    assert_eq!(
        candidate_report("exe_dir/estoque_backend.exe", true, "/exe/estoque_backend.exe"),
        "exe_dir/estoque_backend.exe exists=true path=/exe/estoque_backend.exe"
    );
    assert_eq!(candidate_report("x", false, ""), "x exists=false path=");
}
