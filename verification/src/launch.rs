//! What the worker is launched with, and where its executable is looked for.
//!
//! Nothing here touches the file system or the process table. The caller
//! reads its environment, asks for the plan, and carries it out.

use vstd::prelude::*;
use crate::escalation::{plain_image_text, qualified_image_text, BACKEND_PORT};
use crate::text::{decimal, decimal_text, is_blank, is_blank_text};

verus! {

/// The name under which the worker is bundled.
pub const SIDECAR_NAME: &'static str = "estoque_backend";

/// One variable of the worker's environment.
pub struct EnvVar {
    pub name: String,
    pub value: String,
}

/// Everything needed to launch the worker.
pub struct SpawnPlan {
    /// The bundled program to start.
    pub program: String,
    /// The variables to set, in addition to what the worker inherits.
    pub envs: Vec<EnvVar>,
    /// The text encoding in which the worker's output is read.
    pub encoding_label: String,
    /// The line to log before the launch.
    pub announcement: String,
}

/// A place where the worker's executable may be installed.
pub struct Candidate {
    /// How the place is named in the log.
    pub label: String,
    /// The directory searched.
    pub dir: String,
    /// Whether the file is looked for in the directory's `bin` subdirectory.
    pub in_bin: bool,
    /// The file name looked for.
    pub file_name: String,
}

/// A candidate as plain values.
pub struct CandidateView {
    pub label: Seq<char>,
    pub dir: Seq<char>,
    pub in_bin: bool,
    pub file_name: Seq<char>,
}

impl View for Candidate {
    type V = CandidateView;

    open spec fn view(&self) -> CandidateView {
        CandidateView {
            label: self.label@,
            dir: self.dir@,
            in_bin: self.in_bin,
            file_name: self.file_name@,
        }
    }
}

/// The value of the execution-mode flag: one of two fixed words.
pub open spec fn app_env_text(debug_build: bool) -> Seq<char> {
    if debug_build {
        "dev"@
    } else {
        "prod"@
    }
}

/// The data-directory override that is passed on: the requested one, unless
/// it is missing, empty or all white space.
pub open spec fn app_dir_override(requested: Option<String>) -> Option<Seq<char>> {
    match requested {
        Some(dir) => if is_blank_text(dir@) {
            None
        } else {
            Some(dir@)
        },
        None => None,
    }
}

/// The variables set for the worker, as name and value, in order.
pub open spec fn worker_environment_text(debug_build: bool, requested: Option<String>) -> Seq<
    (Seq<char>, Seq<char>),
> {
    let fixed = seq![
        ("PORT"@, decimal_text(BACKEND_PORT as nat)),
        ("APP_ENV"@, app_env_text(debug_build)),
        ("PYTHONUTF8"@, "1"@),
        ("PYTHONIOENCODING"@, "utf-8"@),
    ];
    match app_dir_override(requested) {
        Some(dir) => fixed.push(("CHRONOS_APP_DIR"@, dir)),
        None => fixed,
    }
}

/// The line logged before the launch.
pub open spec fn spawn_announcement_text(debug_build: bool, requested: Option<String>) -> Seq<
    char,
> {
    "spawn sidecar: name="@ + SIDECAR_NAME@ + " PORT="@ + decimal_text(BACKEND_PORT as nat)
        + " APP_ENV="@ + app_env_text(debug_build) + " CHRONOS_APP_DIR="@ + (match app_dir_override(
        requested,
    ) {
        Some(dir) => dir,
        None => "(inherit/default)"@,
    })
}

/// Name and value of each variable of a list.
pub open spec fn env_pairs(envs: Seq<EnvVar>) -> Seq<(Seq<char>, Seq<char>)> {
    envs.map_values(|var: EnvVar| (var.name@, var.value@))
}

/// The views of a list of candidates.
pub open spec fn candidate_views(candidates: Seq<Candidate>) -> Seq<CandidateView> {
    candidates.map_values(|candidate: Candidate| candidate@)
}

fn env_var(name: &str, value: &str) -> (var: EnvVar)
    ensures
        var.name@ == name@,
        var.value@ == value@,
{
    EnvVar { name: String::from_str(name), value: String::from_str(value) }
}

/// Plans the launch of the worker.
///
/// The worker is told the port to listen on, whether the supervisor is a
/// debug or a release build, and to use UTF-8 on its standard streams. A
/// data-directory override is passed on unchanged unless it is empty or all
/// white space, in which case the worker keeps its default.
pub fn spawn_backend(debug_build: bool, app_dir: Option<String>) -> (plan: SpawnPlan)
    ensures
        plan.program@ == SIDECAR_NAME@,
        env_pairs(plan.envs@) == worker_environment_text(debug_build, app_dir),
        plan.encoding_label@ == "utf-8"@,
        plan.announcement@ == spawn_announcement_text(debug_build, app_dir),
{
    let app_env = if debug_build {
        "dev"
    } else {
        "prod"
    };
    let port = decimal(BACKEND_PORT as u64);
    let mut envs: Vec<EnvVar> = Vec::new();
    envs.push(env_var("PORT", port.as_str()));
    envs.push(env_var("APP_ENV", app_env));
    envs.push(env_var("PYTHONUTF8", "1"));
    envs.push(env_var("PYTHONIOENCODING", "utf-8"));
    let mut announcement = String::from_str("spawn sidecar: name=");
    announcement.append(SIDECAR_NAME);
    announcement.append(" PORT=");
    announcement.append(port.as_str());
    announcement.append(" APP_ENV=");
    announcement.append(app_env);
    announcement.append(" CHRONOS_APP_DIR=");
    let mut passed_on = false;
    match &app_dir {
        Some(dir) => {
            if !is_blank(dir.as_str()) {
                envs.push(env_var("CHRONOS_APP_DIR", dir.as_str()));
                announcement.append(dir.as_str());
                passed_on = true;
            }
        },
        None => {},
    }
    if !passed_on {
        announcement.append("(inherit/default)");
    }
    assert(env_pairs(envs@) =~= worker_environment_text(debug_build, app_dir));
    SpawnPlan {
        program: String::from_str(SIDECAR_NAME),
        envs,
        encoding_label: String::from_str("utf-8"),
        announcement,
    }
}

/// The candidates under the installed-resource directory.
pub open spec fn resource_candidates(dir: Option<Seq<char>>) -> Seq<CandidateView> {
    match dir {
        Some(dir) => seq![
            CandidateView {
                label: "resource_dir/estoque_backend.exe"@,
                dir,
                in_bin: false,
                file_name: plain_image_text(),
            },
            CandidateView {
                label: "resource_dir/estoque_backend-x86_64-pc-windows-msvc.exe"@,
                dir,
                in_bin: false,
                file_name: qualified_image_text(),
            },
            CandidateView {
                label: "resource_dir/bin/estoque_backend.exe"@,
                dir,
                in_bin: true,
                file_name: plain_image_text(),
            },
            CandidateView {
                label: "resource_dir/bin/estoque_backend-x86_64-pc-windows-msvc.exe"@,
                dir,
                in_bin: true,
                file_name: qualified_image_text(),
            },
        ],
        None => Seq::empty(),
    }
}

/// The candidates under the user-data directory.
pub open spec fn app_data_candidates(dir: Option<Seq<char>>) -> Seq<CandidateView> {
    match dir {
        Some(dir) => seq![
            CandidateView {
                label: "app_data_dir/estoque_backend.exe"@,
                dir,
                in_bin: false,
                file_name: plain_image_text(),
            },
            CandidateView {
                label: "app_data_dir/estoque_backend-x86_64-pc-windows-msvc.exe"@,
                dir,
                in_bin: false,
                file_name: qualified_image_text(),
            },
        ],
        None => Seq::empty(),
    }
}

/// The candidates under the directory of the application's own executable.
pub open spec fn exe_dir_candidates(dir: Option<Seq<char>>) -> Seq<CandidateView> {
    match dir {
        Some(dir) => seq![
            CandidateView {
                label: "exe_dir/estoque_backend.exe"@,
                dir,
                in_bin: false,
                file_name: plain_image_text(),
            },
            CandidateView {
                label: "exe_dir/estoque_backend-x86_64-pc-windows-msvc.exe"@,
                dir,
                in_bin: false,
                file_name: qualified_image_text(),
            },
        ],
        None => Seq::empty(),
    }
}

/// The text of an optional string.
pub open spec fn optional_text(value: Option<&str>) -> Option<Seq<char>> {
    match value {
        Some(text) => Some(text@),
        None => None,
    }
}

/// All candidates, in the order in which they are tried.
pub open spec fn executable_candidates_text(
    resource_dir: Option<Seq<char>>,
    app_data_dir: Option<Seq<char>>,
    exe_dir: Option<Seq<char>>,
) -> Seq<CandidateView> {
    resource_candidates(resource_dir) + app_data_candidates(app_data_dir) + exe_dir_candidates(
        exe_dir,
    )
}

fn candidate(label: &str, dir: &str, in_bin: bool, file_name: &str) -> (made: Candidate)
    ensures
        made@ == (CandidateView { label: label@, dir: dir@, in_bin, file_name: file_name@ }),
{
    Candidate {
        label: String::from_str(label),
        dir: String::from_str(dir),
        in_bin,
        file_name: String::from_str(file_name),
    }
}

/// Lists the places where the worker's executable is looked for, in the
/// order in which they are tried: the installed-resource directory and its
/// `bin` subdirectory, the user-data directory, the directory of the
/// application's own executable; in each, the plain file name before the
/// target-qualified one. A directory that is not known contributes nothing.
pub fn executable_candidates(
    resource_dir: Option<&str>,
    app_data_dir: Option<&str>,
    exe_dir: Option<&str>,
) -> (candidates: Vec<Candidate>)
    ensures
        candidate_views(candidates@) == executable_candidates_text(
            optional_text(resource_dir),
            optional_text(app_data_dir),
            optional_text(exe_dir),
        ),
{
    let plain = "estoque_backend.exe";
    let qualified = "estoque_backend-x86_64-pc-windows-msvc.exe";
    let mut candidates: Vec<Candidate> = Vec::new();
    match resource_dir {
        Some(dir) => {
            candidates.push(candidate("resource_dir/estoque_backend.exe", dir, false, plain));
            candidates.push(
                candidate(
                    "resource_dir/estoque_backend-x86_64-pc-windows-msvc.exe",
                    dir,
                    false,
                    qualified,
                ),
            );
            candidates.push(candidate("resource_dir/bin/estoque_backend.exe", dir, true, plain));
            candidates.push(
                candidate(
                    "resource_dir/bin/estoque_backend-x86_64-pc-windows-msvc.exe",
                    dir,
                    true,
                    qualified,
                ),
            );
        },
        None => {},
    }
    assert(candidate_views(candidates@) =~= resource_candidates(optional_text(resource_dir)));
    match app_data_dir {
        Some(dir) => {
            candidates.push(candidate("app_data_dir/estoque_backend.exe", dir, false, plain));
            candidates.push(
                candidate(
                    "app_data_dir/estoque_backend-x86_64-pc-windows-msvc.exe",
                    dir,
                    false,
                    qualified,
                ),
            );
        },
        None => {},
    }
    assert(candidate_views(candidates@) =~= resource_candidates(optional_text(resource_dir))
        + app_data_candidates(optional_text(app_data_dir)));
    match exe_dir {
        Some(dir) => {
            candidates.push(candidate("exe_dir/estoque_backend.exe", dir, false, plain));
            candidates.push(
                candidate(
                    "exe_dir/estoque_backend-x86_64-pc-windows-msvc.exe",
                    dir,
                    false,
                    qualified,
                ),
            );
        },
        None => {},
    }
    assert(candidate_views(candidates@) =~= executable_candidates_text(
        optional_text(resource_dir),
        optional_text(app_data_dir),
        optional_text(exe_dir),
    ));
    candidates
}

/// Whether `index` is the first candidate that exists.
pub open spec fn is_first_existing(exists: Seq<bool>, index: int) -> bool {
    &&& 0 <= index < exists.len()
    &&& exists[index]
    &&& forall|j: int| 0 <= j < index ==> !exists[j]
}

/// Picks the executable: the first candidate that exists wins. `exists[i]`
/// says whether candidate `i` was found on disk; the result is `None` exactly
/// when none was.
pub fn resolve_executable(exists: &Vec<bool>) -> (choice: Option<usize>)
    ensures
        match choice {
            Some(index) => is_first_existing(exists@, index as int),
            None => forall|j: int| 0 <= j < exists@.len() ==> !exists@[j],
        },
{
    let mut i: usize = 0;
    while i < exists.len()
        invariant
            i <= exists@.len(),
            forall|j: int| 0 <= j < i ==> !exists@[j],
        decreases exists@.len() - i,
    {
        if exists[i] {
            return Some(i);
        }
        i += 1;
    }
    None
}

/// The log line that names a directory, or says that it is not known.
/// `quoted` is the directory as the platform writes a path for debugging,
/// quotation marks included.
pub open spec fn directory_line_text(name: Seq<char>, quoted: Option<Seq<char>>) -> Seq<char> {
    name + "="@ + (match quoted {
        Some(path) => "Some("@ + path + ")"@,
        None => "None"@,
    })
}

/// The log line for one candidate.
pub open spec fn candidate_line_text(label: Seq<char>, exists: bool, path: Seq<char>) -> Seq<char> {
    label + " exists="@ + (if exists {
        "true"@
    } else {
        "false"@
    }) + " path="@ + path
}

fn directory_line(name: &str, quoted: Option<&str>) -> (line: String)
    ensures
        line@ == directory_line_text(name@, optional_text(quoted)),
{
    let mut line = String::from_str(name);
    line.append("=");
    match quoted {
        Some(path) => {
            line.append("Some(");
            line.append(path);
            line.append(")");
        },
        None => line.append("None"),
    }
    line
}

/// The lines that record, at startup, which directories are known: the
/// installed-resource directory, the user-data directory and the directory
/// of the application's own executable, in this order. Each argument is the
/// directory as the platform writes a path for debugging, in quotation marks
/// and with its escapes; the caller, who holds the path, writes it so.
pub fn log_startup_paths(
    resource_dir: Option<&str>,
    app_data_dir: Option<&str>,
    exe_dir: Option<&str>,
) -> (lines: Vec<String>)
    ensures
        lines@.len() == 3,
        lines@[0]@ == directory_line_text("resource_dir"@, optional_text(resource_dir)),
        lines@[1]@ == directory_line_text("app_data_dir"@, optional_text(app_data_dir)),
        lines@[2]@ == directory_line_text("current_exe_dir"@, optional_text(exe_dir)),
{
    let mut lines: Vec<String> = Vec::new();
    lines.push(directory_line("resource_dir", resource_dir));
    lines.push(directory_line("app_data_dir", app_data_dir));
    lines.push(directory_line("current_exe_dir", exe_dir));
    lines
}

/// The line that records whether one candidate exists and where it lies.
pub fn candidate_report(label: &str, exists: bool, path: &str) -> (line: String)
    ensures
        line@ == candidate_line_text(label@, exists, path@),
{
    let mut line = String::from_str(label);
    line.append(" exists=");
    if exists {
        line.append("true");
    } else {
        line.append("false");
    }
    line.append(" path=");
    line.append(path);
    line
}

/// The first existing candidate is unique: resolution cannot depend on
/// anything but the order of the candidates and which of them exist.
pub proof fn law_resolution_is_determined(exists: Seq<bool>, a: int, b: int)
    requires
        is_first_existing(exists, a),
        is_first_existing(exists, b),
    ensures
        a == b,
{
}

} // verus!
