//! Preparing a Python runtime for the backend: package index settings, the
//! places of interpreters and of `uv`, the download of `uv`, and the command
//! lines that create an environment and install into it.
//!
//! Paths are texts here. Where a path lies below a directory that only the
//! caller knows, a function returns the components to append to it. A path
//! that has no text form is passed as `None`.

use crate::text::{has_prefix, lowercase, push_pair, push_text, starts_with, str_eq, to_lowercase};
use vstd::prelude::*;
use vstd::string::*;

verus! {

/// The Python version that `uv` is asked for.
pub const UV_PYTHON_VERSION: &'static str = "3.12";

/// The package index used inside mainland China.
pub const INDEX_CHINA: &'static str = "https://pypi.tuna.tsinghua.edu.cn/simple";

/// The package index used everywhere else, and as the second choice inside China.
pub const INDEX_DEFAULT: &'static str = "https://pypi.org/simple";

/// The little program that makes an interpreter report its version and place.
pub const PYTHON_INFO_SCRIPT: &'static str =
    "import json, sys; print(json.dumps({'version': f'{sys.version_info[0]}.{sys.version_info[1]}', 'executable': sys.executable}))";

/// How far a download has come.
#[derive(Debug, Clone, Copy, PartialEq, Eq, Structural)]
pub struct DownloadProgress {
    pub received_bytes: u64,
    pub total_bytes: Option<u64>,
}

/// The archive format in which `uv` is published for a platform.
#[derive(Debug, Clone, Copy, PartialEq, Eq, Structural)]
pub enum UvArchiveKind {
    Zip,
    TarGz,
}

/// The operating system that the program was built for.
#[derive(Debug, Clone, Copy, PartialEq, Eq, Structural)]
pub enum TargetOs {
    Windows,
    MacOs,
    Linux,
    Other,
}

/// The processor that the program was built for.
#[derive(Debug, Clone, Copy, PartialEq, Eq, Structural)]
pub enum TargetArch {
    X86_64,
    Aarch64,
    Other,
}

/// A program to run, with its arguments and the variables to add to its environment.
#[derive(Debug, Clone)]
pub struct CommandLine {
    pub program: String,
    pub args: Vec<String>,
    pub env: Vec<(String, String)>,
}

/// A command line as mathematics.
pub struct CommandView {
    pub program: Seq<char>,
    pub args: Seq<Seq<char>>,
    pub env: Seq<(Seq<char>, Seq<char>)>,
}

impl View for CommandLine {
    type V = CommandView;

    open spec fn view(&self) -> CommandView {
        CommandView {
            program: self.program@,
            args: self.args.deep_view(),
            env: self.env.deep_view(),
        }
    }
}

/// What an interpreter reported of itself.
#[derive(Debug, Clone)]
pub struct PythonInfo {
    pub version: String,
    pub executable: String,
}

/// An interpreter to try: a command and the arguments that select it.
#[derive(Debug, Clone)]
pub struct PythonCandidate {
    pub command: String,
    pub args: Vec<String>,
}

impl View for PythonCandidate {
    type V = (Seq<char>, Seq<Seq<char>>);

    open spec fn view(&self) -> (Seq<char>, Seq<Seq<char>>) {
        (self.command@, self.args.deep_view())
    }
}

/// The interpreter of a virtual environment, as the components below the
/// environment's directory.
pub open spec fn venv_python_components(windows: bool) -> Seq<Seq<char>> {
    if windows {
        seq!["Scripts"@, "python.exe"@]
    } else {
        seq!["bin"@, "python3"@]
    }
}

/// The `uv` of a virtual environment, as the components below the
/// environment's directory.
pub open spec fn venv_uv_components(windows: bool) -> Seq<Seq<char>> {
    if windows {
        seq!["Scripts"@, "uv.exe"@]
    } else {
        seq!["bin"@, "uv"@]
    }
}

/// The downloaded `uv`, as the components below the runtime directory.
pub open spec fn runtime_uv_components(windows: bool) -> Seq<Seq<char>> {
    if windows {
        seq!["uv"@, "uv.exe"@]
    } else {
        seq!["uv"@, "uv"@]
    }
}

fn two_components(first: &str, second: &str) -> (path: Vec<String>)
    ensures
        path.deep_view() == seq![first@, second@],
{
    let mut path: Vec<String> = Vec::new();
    assert(path.deep_view() =~= Seq::<Seq<char>>::empty());
    push_text(&mut path, first);
    push_text(&mut path, second);
    assert(path.deep_view() =~= seq![first@, second@]);
    path
}

/// Where the interpreter of a virtual environment lies below the
/// environment's directory.
pub fn get_venv_python_path(windows: bool) -> (path: Vec<String>)
    ensures
        path.deep_view() == venv_python_components(windows),
{
    if windows {
        two_components("Scripts", "python.exe")
    } else {
        two_components("bin", "python3")
    }
}

/// Where the `uv` of a virtual environment lies below the environment's directory.
pub fn get_venv_uv_path(windows: bool) -> (path: Vec<String>)
    ensures
        path.deep_view() == venv_uv_components(windows),
{
    if windows {
        two_components("Scripts", "uv.exe")
    } else {
        two_components("bin", "uv")
    }
}

/// Where the downloaded `uv` lies below the runtime directory.
pub fn get_runtime_uv_path(windows: bool) -> (path: Vec<String>)
    ensures
        path.deep_view() == runtime_uv_components(windows),
{
    if windows {
        two_components("uv", "uv.exe")
    } else {
        two_components("uv", "uv")
    }
}

/// Whether the settings place the user in mainland China. `region` and
/// `language` are in lower case. A region of `cn` says yes, `global` and
/// `intl` say no; any other region, or none, leaves it to the language,
/// which says yes where it begins with `zh_cn`.
pub open spec fn china_by(region: Option<Seq<char>>, language: Option<Seq<char>>) -> bool {
    if region == Some("cn"@) {
        true
    } else if region == Some("global"@) || region == Some("intl"@) {
        false
    } else {
        language matches Some(text) && has_prefix(text, "zh_cn"@)
    }
}

/// Decides from a region and a language that are already in lower case.
pub fn region_is_china(region: Option<&str>, language: Option<&str>) -> (china: bool)
    ensures
        china == china_by(crate::config::text_of(region), crate::config::text_of(language)),
{
    match region {
        Some(name) => {
            if str_eq(name, "cn") {
                return true;
            }
            if str_eq(name, "global") || str_eq(name, "intl") {
                return false;
            }
        },
        None => {},
    }
    match language {
        Some(text) => starts_with(text, "zh_cn"),
        None => false,
    }
}

/// The lower-case form of an optional text.
pub open spec fn lowered(value: Option<&str>) -> Option<Seq<char>> {
    match value {
        Some(text) => Some(lowercase(text@)),
        None => None,
    }
}

/// Whether the user is in mainland China, from the configured region and
/// the language of the environment, in any case of letters.
pub fn is_mainland_china(region: Option<&str>, language: Option<&str>) -> (china: bool)
    ensures
        china == china_by(lowered(region), lowered(language)),
{
    let region_lower = match region {
        Some(text) => Some(to_lowercase(text)),
        None => None,
    };
    let language_lower = match language {
        Some(text) => Some(to_lowercase(text)),
        None => None,
    };
    region_is_china(
        match &region_lower {
            Some(text) => Some(text.as_str()),
            None => None,
        },
        match &language_lower {
            Some(text) => Some(text.as_str()),
            None => None,
        },
    )
}

/// The package index settings: inside China the mirror first and the
/// default index as the extra one, for `uv` and for `pip`; elsewhere the
/// default index alone.
pub open spec fn uv_env(china: bool) -> Seq<(Seq<char>, Seq<char>)> {
    if china {
        seq![
            ("UV_INDEX_URL"@, INDEX_CHINA@),
            ("UV_EXTRA_INDEX_URL"@, INDEX_DEFAULT@),
            ("PIP_INDEX_URL"@, INDEX_CHINA@),
            ("PIP_EXTRA_INDEX_URL"@, INDEX_DEFAULT@),
        ]
    } else {
        seq![("UV_INDEX_URL"@, INDEX_DEFAULT@), ("PIP_INDEX_URL"@, INDEX_DEFAULT@)]
    }
}

/// Builds the package index settings.
pub fn build_uv_env(china: bool) -> (env: Vec<(String, String)>)
    ensures
        env.deep_view() == uv_env(china),
{
    let mut env: Vec<(String, String)> = Vec::new();
    assert(env.deep_view() =~= Seq::<(Seq<char>, Seq<char>)>::empty());
    if china {
        push_pair(&mut env, "UV_INDEX_URL", INDEX_CHINA);
        push_pair(&mut env, "UV_EXTRA_INDEX_URL", INDEX_DEFAULT);
        push_pair(&mut env, "PIP_INDEX_URL", INDEX_CHINA);
        push_pair(&mut env, "PIP_EXTRA_INDEX_URL", INDEX_DEFAULT);
    } else {
        push_pair(&mut env, "UV_INDEX_URL", INDEX_DEFAULT);
        push_pair(&mut env, "PIP_INDEX_URL", INDEX_DEFAULT);
    }
    assert(env.deep_view() =~= uv_env(china));
    env
}

/// The package index settings to put into the environment of `uv`.
pub fn uv_env_pairs(china: bool) -> (env: Vec<(String, String)>)
    ensures
        env.deep_view() == uv_env(china),
{
    build_uv_env(china)
}

/// The archive format of `uv` for an operating system.
pub fn uv_archive_kind(os: TargetOs) -> (kind: Result<UvArchiveKind, String>)
    ensures
        match os {
            TargetOs::Windows => kind == Ok::<UvArchiveKind, String>(UvArchiveKind::Zip),
            TargetOs::MacOs | TargetOs::Linux => kind == Ok::<UvArchiveKind, String>(
                UvArchiveKind::TarGz,
            ),
            TargetOs::Other => kind matches Err(message) && message@
                == "Unsupported OS for uv download"@,
        },
{
    match os {
        TargetOs::Windows => Ok(UvArchiveKind::Zip),
        TargetOs::MacOs => Ok(UvArchiveKind::TarGz),
        TargetOs::Linux => Ok(UvArchiveKind::TarGz),
        TargetOs::Other => Err(String::from_str("Unsupported OS for uv download")),
    }
}

/// Where `uv` is downloaded from for a platform, or why it cannot be.
pub open spec fn uv_download_source(os: TargetOs, arch: TargetArch) -> Result<Seq<char>, Seq<char>> {
    match (os, arch) {
        (TargetOs::Windows, TargetArch::X86_64) => Ok(
            "https://github.com/astral-sh/uv/releases/latest/download/uv-x86_64-pc-windows-msvc.zip"@,
        ),
        (TargetOs::Windows, TargetArch::Aarch64) => Ok(
            "https://github.com/astral-sh/uv/releases/latest/download/uv-aarch64-pc-windows-msvc.zip"@,
        ),
        (TargetOs::Windows, TargetArch::Other) => Err(
            "Unsupported Windows architecture for uv download"@,
        ),
        (TargetOs::MacOs, TargetArch::X86_64) => Ok(
            "https://github.com/astral-sh/uv/releases/latest/download/uv-x86_64-apple-darwin.tar.gz"@,
        ),
        (TargetOs::MacOs, TargetArch::Aarch64) => Ok(
            "https://github.com/astral-sh/uv/releases/latest/download/uv-aarch64-apple-darwin.tar.gz"@,
        ),
        (TargetOs::MacOs, TargetArch::Other) => Err(
            "Unsupported macOS architecture for uv download"@,
        ),
        (TargetOs::Linux, TargetArch::X86_64) => Ok(
            "https://github.com/astral-sh/uv/releases/latest/download/uv-x86_64-unknown-linux-gnu.tar.gz"@,
        ),
        (TargetOs::Linux, TargetArch::Aarch64) => Ok(
            "https://github.com/astral-sh/uv/releases/latest/download/uv-aarch64-unknown-linux-gnu.tar.gz"@,
        ),
        (TargetOs::Linux, TargetArch::Other) => Err(
            "Unsupported Linux architecture for uv download"@,
        ),
        (TargetOs::Other, _) => Err("Unsupported OS for uv download"@),
    }
}

/// The address of the `uv` archive for a platform.
pub fn uv_download_url(os: TargetOs, arch: TargetArch) -> (url: Result<&'static str, String>)
    ensures
        match uv_download_source(os, arch) {
            Ok(address) => url matches Ok(found) && found@ == address,
            Err(reason) => url matches Err(message) && message@ == reason,
        },
{
    match os {
        TargetOs::Windows => match arch {
            TargetArch::X86_64 => Ok(
                "https://github.com/astral-sh/uv/releases/latest/download/uv-x86_64-pc-windows-msvc.zip",
            ),
            TargetArch::Aarch64 => Ok(
                "https://github.com/astral-sh/uv/releases/latest/download/uv-aarch64-pc-windows-msvc.zip",
            ),
            TargetArch::Other => Err(
                String::from_str("Unsupported Windows architecture for uv download"),
            ),
        },
        TargetOs::MacOs => match arch {
            TargetArch::X86_64 => Ok(
                "https://github.com/astral-sh/uv/releases/latest/download/uv-x86_64-apple-darwin.tar.gz",
            ),
            TargetArch::Aarch64 => Ok(
                "https://github.com/astral-sh/uv/releases/latest/download/uv-aarch64-apple-darwin.tar.gz",
            ),
            TargetArch::Other => Err(
                String::from_str("Unsupported macOS architecture for uv download"),
            ),
        },
        TargetOs::Linux => match arch {
            TargetArch::X86_64 => Ok(
                "https://github.com/astral-sh/uv/releases/latest/download/uv-x86_64-unknown-linux-gnu.tar.gz",
            ),
            TargetArch::Aarch64 => Ok(
                "https://github.com/astral-sh/uv/releases/latest/download/uv-aarch64-unknown-linux-gnu.tar.gz",
            ),
            TargetArch::Other => Err(
                String::from_str("Unsupported Linux architecture for uv download"),
            ),
        },
        TargetOs::Other => Err(String::from_str("Unsupported OS for uv download")),
    }
}

/// The name of the downloaded archive, below the directory of `uv`.
pub fn uv_archive_name(kind: UvArchiveKind) -> (name: &'static str)
    ensures
        name@ == (match kind {
            UvArchiveKind::Zip => "uv.zip"@,
            UvArchiveKind::TarGz => "uv.tar.gz"@,
        }),
{
    match kind {
        UvArchiveKind::Zip => "uv.zip",
        UvArchiveKind::TarGz => "uv.tar.gz",
    }
}

/// The interpreters to try, in this order: on Windows the launcher with
/// the version, then the versioned name, then the plain one; elsewhere the
/// versioned name, then `python3`, then the plain one.
pub open spec fn candidate_list(windows: bool) -> Seq<(Seq<char>, Seq<Seq<char>>)> {
    if windows {
        seq![
            ("py"@, seq!["-3.12"@]),
            ("python3.12"@, Seq::<Seq<char>>::empty()),
            ("python"@, Seq::<Seq<char>>::empty()),
        ]
    } else {
        seq![
            ("python3.12"@, Seq::<Seq<char>>::empty()),
            ("python3"@, Seq::<Seq<char>>::empty()),
            ("python"@, Seq::<Seq<char>>::empty()),
        ]
    }
}

/// The views of a list of candidates.
pub open spec fn candidate_views(list: Seq<PythonCandidate>) -> Seq<(Seq<char>, Seq<Seq<char>>)> {
    list.map_values(|c: PythonCandidate| c@)
}

fn candidate(command: &str, flag: Option<&str>) -> (made: PythonCandidate)
    ensures
        made@ == (command@, match flag {
            Some(text) => seq![text@],
            None => Seq::<Seq<char>>::empty(),
        }),
{
    let mut args: Vec<String> = Vec::new();
    assert(args.deep_view() =~= Seq::<Seq<char>>::empty());
    match flag {
        Some(text) => {
            push_text(&mut args, text);
            assert(args.deep_view() =~= seq![text@]);
        },
        None => {},
    }
    PythonCandidate { command: String::from_str(command), args }
}

/// Lists the interpreters to try.
pub fn python_candidates(windows: bool) -> (list: Vec<PythonCandidate>)
    ensures
        candidate_views(list@) == candidate_list(windows),
{
    let mut list: Vec<PythonCandidate> = Vec::new();
    if windows {
        list.push(candidate("py", Some("-3.12")));
        list.push(candidate("python3.12", None));
        list.push(candidate("python", None));
    } else {
        list.push(candidate("python3.12", None));
        list.push(candidate("python3", None));
        list.push(candidate("python", None));
    }
    assert(candidate_views(list@) =~= candidate_list(windows));
    list
}

/// The arguments that make a candidate report itself: its own, then the
/// switch for a program text and the reporting program.
pub fn python_info_args(candidate: &PythonCandidate) -> (args: Vec<String>)
    ensures
        args.deep_view() == candidate@.1 + seq!["-c"@, PYTHON_INFO_SCRIPT@],
{
    let mut args: Vec<String> = Vec::new();
    assert(args.deep_view() =~= Seq::<Seq<char>>::empty());
    let mut i: usize = 0;
    while i < candidate.args.len()
        invariant
            i <= candidate.args.len(),
            args.deep_view() == candidate.args.deep_view().take(i as int),
        decreases candidate.args.len() - i,
    {
        push_text(&mut args, candidate.args[i].as_str());
        assert(args.deep_view() =~= candidate.args.deep_view().take(i + 1));
        i += 1;
    }
    assert(candidate.args.deep_view().take(candidate.args.len() as int)
        =~= candidate.args.deep_view());
    push_text(&mut args, "-c");
    push_text(&mut args, PYTHON_INFO_SCRIPT);
    assert(args.deep_view() =~= candidate@.1 + seq!["-c"@, PYTHON_INFO_SCRIPT@]);
    args
}

/// Whether a report is that of a usable interpreter: version 3.12, and a
/// place that is not empty.
pub open spec fn is_python312(info: PythonInfo) -> bool {
    info.version@ == UV_PYTHON_VERSION@ && info.executable@.len() > 0
}

/// Whether the candidate at `i` reported itself as a usable interpreter.
pub open spec fn usable_at(reports: Seq<Option<PythonInfo>>, i: int) -> bool {
    0 <= i < reports.len() && (reports[i] matches Some(info) && is_python312(info))
}

/// Tests one report.
pub fn accepts_python(info: &PythonInfo) -> (usable: bool)
    ensures
        usable == is_python312(*info),
{
    str_eq(info.version.as_str(), UV_PYTHON_VERSION) && info.executable.as_str().unicode_len() > 0
}

/// Picks the system's Python from what the candidates reported, in their
/// order; a candidate that reported nothing stands as `None`. The first
/// usable one wins, and its place is returned.
pub fn find_python312(reports: &Vec<Option<PythonInfo>>) -> (found: Option<String>)
    ensures
        match found {
            Some(place) => exists|i: int| #[trigger]
                usable_at(reports@, i) && place@ == reports@[i]->0.executable@ && forall|j: int|
                    0 <= j < i ==> !usable_at(reports@, j),
            None => forall|j: int| 0 <= j < reports.len() ==> !usable_at(reports@, j),
        },
{
    let mut i: usize = 0;
    while i < reports.len()
        invariant
            i <= reports.len(),
            forall|j: int| 0 <= j < i ==> !usable_at(reports@, j),
        decreases reports.len() - i,
    {
        match &reports[i] {
            Some(info) => {
                if accepts_python(info) {
                    assert(usable_at(reports@, i as int));
                    return Some(info.executable.clone());
                }
            },
            None => {},
        }
        i += 1;
    }
    None
}

/// Whether something has to be run to have a thing in place.
#[derive(Debug, Clone)]
pub enum EnsureStep {
    /// It is there already.
    Present,
    /// Run this, then look again.
    Run(CommandLine),
}

/// The things that a command is run to create.
#[derive(Debug, Clone, Copy, PartialEq, Eq, Structural)]
pub enum Ensured {
    /// The virtual environment made by the system's Python.
    Venv,
    /// The `uv` inside the virtual environment.
    VenvUv,
    /// The virtual environment made by `uv`.
    UvVenv,
}

/// The view of what an ensuring function returns.
pub open spec fn step_view(step: Result<EnsureStep, String>) -> Result<Option<CommandView>, Seq<char>> {
    match step {
        Ok(EnsureStep::Present) => Ok(None),
        Ok(EnsureStep::Run(command)) => Ok(Some(command@)),
        Err(reason) => Err(reason@),
    }
}

/// The view of a command line that may have failed to form.
pub open spec fn command_view(command: Result<CommandLine, String>) -> Result<CommandView, Seq<char>> {
    match command {
        Ok(line) => Ok(line@),
        Err(reason) => Err(reason@),
    }
}

fn no_env() -> (env: Vec<(String, String)>)
    ensures
        env.deep_view() == Seq::<(Seq<char>, Seq<char>)>::empty(),
{
    let env: Vec<(String, String)> = Vec::new();
    assert(env.deep_view() =~= Seq::<(Seq<char>, Seq<char>)>::empty());
    env
}

fn no_args() -> (args: Vec<String>)
    ensures
        args.deep_view() == Seq::<Seq<char>>::empty(),
{
    let args: Vec<String> = Vec::new();
    assert(args.deep_view() =~= Seq::<Seq<char>>::empty());
    args
}

/// How the virtual environment is created by the system's Python:
/// nothing to do where its interpreter is present; else
/// `<python> -m venv <dir>`, which needs both paths as text.
pub open spec fn venv_step(present: bool, python_path: Option<Seq<char>>, venv_dir: Option<Seq<char>>) -> Result<
    Option<CommandView>,
    Seq<char>,
> {
    if present {
        Ok(None)
    } else if python_path is None {
        Err("Invalid python path"@)
    } else if venv_dir is None {
        Err("Invalid venv path"@)
    } else {
        Ok(
            Some(
                CommandView {
                    program: python_path->0,
                    args: seq!["-m"@, "venv"@, venv_dir->0],
                    env: Seq::empty(),
                },
            ),
        )
    }
}

/// Says what to run to have a virtual environment made by the system's Python.
pub fn ensure_venv(present: bool, python_path: Option<&str>, venv_dir: Option<&str>) -> (step: Result<
    EnsureStep,
    String,
>)
    ensures
        step_view(step) == venv_step(
            present,
            crate::config::text_of(python_path),
            crate::config::text_of(venv_dir),
        ),
{
    if present {
        return Ok(EnsureStep::Present);
    }
    match python_path {
        None => Err(String::from_str("Invalid python path")),
        Some(python) => match venv_dir {
            None => Err(String::from_str("Invalid venv path")),
            Some(dir) => {
                let mut args = no_args();
                push_text(&mut args, "-m");
                push_text(&mut args, "venv");
                push_text(&mut args, dir);
                assert(args.deep_view() =~= seq!["-m"@, "venv"@, dir@]);
                Ok(
                    EnsureStep::Run(
                        CommandLine { program: String::from_str(python), args, env: no_env() },
                    ),
                )
            },
        },
    }
}

/// How `uv` gets into the virtual environment: nothing to do where it is
/// present; else `<python> -m pip install --upgrade uv`.
pub open spec fn venv_uv_step(present: bool, venv_python: Option<Seq<char>>) -> Result<
    Option<CommandView>,
    Seq<char>,
> {
    if present {
        Ok(None)
    } else if venv_python is None {
        Err("Invalid venv python path"@)
    } else {
        Ok(
            Some(
                CommandView {
                    program: venv_python->0,
                    args: seq!["-m"@, "pip"@, "install"@, "--upgrade"@, "uv"@],
                    env: Seq::empty(),
                },
            ),
        )
    }
}

/// Says what to run to have `uv` in the virtual environment.
pub fn ensure_uv(present: bool, venv_python: Option<&str>) -> (step: Result<EnsureStep, String>)
    ensures
        step_view(step) == venv_uv_step(present, crate::config::text_of(venv_python)),
{
    if present {
        return Ok(EnsureStep::Present);
    }
    match venv_python {
        None => Err(String::from_str("Invalid venv python path")),
        Some(python) => {
            let mut args = no_args();
            push_text(&mut args, "-m");
            push_text(&mut args, "pip");
            push_text(&mut args, "install");
            push_text(&mut args, "--upgrade");
            push_text(&mut args, "uv");
            assert(args.deep_view() =~= seq!["-m"@, "pip"@, "install"@, "--upgrade"@, "uv"@]);
            Ok(
                EnsureStep::Run(
                    CommandLine { program: String::from_str(python), args, env: no_env() },
                ),
            )
        },
    }
}

/// The command by which `uv` installs Python: `<uv> python install 3.12`,
/// with the package index settings.
pub open spec fn uv_python_command(uv_path: Option<Seq<char>>, china: bool) -> Result<
    CommandView,
    Seq<char>,
> {
    match uv_path {
        None => Err("Invalid uv path"@),
        Some(uv) => Ok(
            CommandView {
                program: uv,
                args: seq!["python"@, "install"@, UV_PYTHON_VERSION@],
                env: uv_env(china),
            },
        ),
    }
}

/// Says what to run to have `uv` install Python.
pub fn ensure_uv_python(uv_path: Option<&str>, china: bool) -> (command: Result<CommandLine, String>)
    ensures
        command_view(command) == uv_python_command(crate::config::text_of(uv_path), china),
{
    match uv_path {
        None => Err(String::from_str("Invalid uv path")),
        Some(uv) => {
            let mut args = no_args();
            push_text(&mut args, "python");
            push_text(&mut args, "install");
            push_text(&mut args, UV_PYTHON_VERSION);
            assert(args.deep_view() =~= seq!["python"@, "install"@, UV_PYTHON_VERSION@]);
            Ok(CommandLine { program: String::from_str(uv), args, env: build_uv_env(china) })
        },
    }
}

/// How `uv` creates the virtual environment: nothing to do where its
/// interpreter is present; else `<uv> venv <dir> --python 3.12`, with the
/// package index settings.
pub open spec fn uv_venv_step(
    present: bool,
    uv_path: Option<Seq<char>>,
    venv_dir: Option<Seq<char>>,
    china: bool,
) -> Result<Option<CommandView>, Seq<char>> {
    if present {
        Ok(None)
    } else if uv_path is None {
        Err("Invalid uv path"@)
    } else if venv_dir is None {
        Err("Invalid venv path"@)
    } else {
        Ok(
            Some(
                CommandView {
                    program: uv_path->0,
                    args: seq!["venv"@, venv_dir->0, "--python"@, UV_PYTHON_VERSION@],
                    env: uv_env(china),
                },
            ),
        )
    }
}

/// Says what to run to have a virtual environment made by `uv`.
pub fn ensure_uv_venv(present: bool, uv_path: Option<&str>, venv_dir: Option<&str>, china: bool) -> (step:
    Result<EnsureStep, String>)
    ensures
        step_view(step) == uv_venv_step(
            present,
            crate::config::text_of(uv_path),
            crate::config::text_of(venv_dir),
            china,
        ),
{
    if present {
        return Ok(EnsureStep::Present);
    }
    match uv_path {
        None => Err(String::from_str("Invalid uv path")),
        Some(uv) => match venv_dir {
            None => Err(String::from_str("Invalid venv path")),
            Some(dir) => {
                let mut args = no_args();
                push_text(&mut args, "venv");
                push_text(&mut args, dir);
                push_text(&mut args, "--python");
                push_text(&mut args, UV_PYTHON_VERSION);
                assert(args.deep_view() =~= seq!["venv"@, dir@, "--python"@, UV_PYTHON_VERSION@]);
                Ok(
                    EnsureStep::Run(
                        CommandLine {
                            program: String::from_str(uv),
                            args,
                            env: build_uv_env(china),
                        },
                    ),
                )
            },
        },
    }
}

/// The command that installs the requirements:
/// `<uv> pip install -r <requirements> --python <interpreter>`, with the
/// package index settings. The paths are needed as text, and are asked for
/// in the order `uv`, requirements, interpreter.
pub open spec fn install_command(
    uv_path: Option<Seq<char>>,
    venv_python: Option<Seq<char>>,
    requirements_path: Option<Seq<char>>,
    china: bool,
) -> Result<CommandView, Seq<char>> {
    if uv_path is None {
        Err("Invalid uv path"@)
    } else if requirements_path is None {
        Err("Invalid requirements path"@)
    } else if venv_python is None {
        Err("Invalid venv python path"@)
    } else {
        Ok(
            CommandView {
                program: uv_path->0,
                args: seq![
                    "pip"@,
                    "install"@,
                    "-r"@,
                    requirements_path->0,
                    "--python"@,
                    venv_python->0,
                ],
                env: uv_env(china),
            },
        )
    }
}

/// Says what to run to install the requirements.
pub fn install_requirements(
    uv_path: Option<&str>,
    venv_python: Option<&str>,
    requirements_path: Option<&str>,
    china: bool,
) -> (command: Result<CommandLine, String>)
    ensures
        command_view(command) == install_command(
            crate::config::text_of(uv_path),
            crate::config::text_of(venv_python),
            crate::config::text_of(requirements_path),
            china,
        ),
{
    match uv_path {
        None => Err(String::from_str("Invalid uv path")),
        Some(uv) => match requirements_path {
            None => Err(String::from_str("Invalid requirements path")),
            Some(requirements) => match venv_python {
                None => Err(String::from_str("Invalid venv python path")),
                Some(python) => {
                    let mut args = no_args();
                    push_text(&mut args, "pip");
                    push_text(&mut args, "install");
                    push_text(&mut args, "-r");
                    push_text(&mut args, requirements);
                    push_text(&mut args, "--python");
                    push_text(&mut args, python);
                    assert(args.deep_view() =~= seq![
                        "pip"@,
                        "install"@,
                        "-r"@,
                        requirements@,
                        "--python"@,
                        python@,
                    ]);
                    Ok(
                        CommandLine {
                            program: String::from_str(uv),
                            args,
                            env: build_uv_env(china),
                        },
                    )
                },
            },
        },
    }
}

/// The complaint about a thing that is still missing after its command ran.
pub open spec fn missing_message(what: Ensured) -> Seq<char> {
    match what {
        Ensured::Venv => "Failed to create virtual environment"@,
        Ensured::VenvUv => "Failed to install uv in virtual environment"@,
        Ensured::UvVenv => "Failed to create virtual environment with uv"@,
    }
}

/// Judges a command that ran without error by its effect: the thing it
/// was run for has to be present now.
pub fn ensure_finished(what: Ensured, present: bool) -> (outcome: Result<(), String>)
    ensures
        outcome.is_ok() == present,
        outcome matches Err(message) ==> message@ == missing_message(what),
{
    if present {
        Ok(())
    } else {
        match what {
            Ensured::Venv => Err(String::from_str("Failed to create virtual environment")),
            Ensured::VenvUv => Err(String::from_str("Failed to install uv in virtual environment")),
            Ensured::UvVenv => Err(String::from_str("Failed to create virtual environment with uv")),
        }
    }
}

/// The least number of bytes between two reports of a download of unknown size.
pub const REPORT_EVERY_BYTES: u64 = 1_048_576;

/// The share of `total` that `received` is, in whole percent, at most 100.
pub open spec fn percent_of(received: u64, total: u64) -> u64
    recommends
        total > 0,
{
    if received * 100 / (total as int) >= 100 {
        100
    } else {
        (received * 100 / (total as int)) as u64
    }
}

/// The percentage to show for a progress: none while the total is unknown or zero.
pub open spec fn shown_percent(progress: DownloadProgress) -> Option<u64> {
    match progress.total_bytes {
        Some(total) => if total > 0 {
            Some(percent_of(progress.received_bytes, total))
        } else {
            None
        },
        None => None,
    }
}

/// Computes the percentage to show.
pub fn download_percent(progress: &DownloadProgress) -> (percent: Option<u64>)
    ensures
        percent == shown_percent(*progress),
{
    match progress.total_bytes {
        Some(total) => {
            if total > 0 {
                let share: u128 = (progress.received_bytes as u128) * 100 / (total as u128);
                if share >= 100 {
                    Some(100)
                } else {
                    Some(share as u64)
                }
            } else {
                None
            }
        },
        None => None,
    }
}

/// The bookkeeping of a download: what has arrived, and what was last reported.
#[derive(Debug, Clone, Copy, PartialEq, Eq, Structural)]
pub struct ProgressMeter {
    pub total: Option<u64>,
    pub received: u64,
    pub last_percent: Option<u64>,
    pub last_report_bytes: u64,
}

impl ProgressMeter {
    /// The progress that the meter stands at.
    pub open spec fn progress(self) -> DownloadProgress {
        DownloadProgress { received_bytes: self.received, total_bytes: self.total }
    }

    /// The meter after `len` more bytes; the count stops at the largest
    /// number it can hold.
    pub open spec fn advanced(self, len: u64) -> ProgressMeter {
        ProgressMeter {
            received: if self.received + len > u64::MAX {
                u64::MAX
            } else {
                (self.received + len) as u64
            },
            ..self
        }
    }

    /// Whether the meter's progress is worth a report: with a known total,
    /// when the percentage differs from the one last reported; without,
    /// when a mebibyte has arrived since the last report.
    pub open spec fn worth_reporting(self) -> bool {
        match shown_percent(self.progress()) {
            Some(percent) => self.last_percent != Some(percent),
            None => self.received - self.last_report_bytes >= REPORT_EVERY_BYTES,
        }
    }

    /// The meter after its progress has been reported.
    pub open spec fn reported(self) -> ProgressMeter {
        ProgressMeter {
            last_percent: shown_percent(self.progress()),
            last_report_bytes: self.received,
            ..self
        }
    }

    /// A meter at the start of a download of `total` bytes, if that is known.
    pub fn new(total: Option<u64>) -> (meter: ProgressMeter)
        ensures
            meter == (ProgressMeter { total, received: 0, last_percent: None, last_report_bytes: 0 }),
    {
        ProgressMeter { total, received: 0, last_percent: None, last_report_bytes: 0 }
    }

    /// Counts a chunk of `len` bytes and returns the progress where it is
    /// worth a report.
    pub fn chunk_received(&mut self, len: u64) -> (report: Option<DownloadProgress>)
        ensures
            report == (if old(self).advanced(len).worth_reporting() {
                Some(old(self).advanced(len).progress())
            } else {
                None
            }),
            *final(self) == (if old(self).advanced(len).worth_reporting() {
                old(self).advanced(len).reported()
            } else {
                old(self).advanced(len)
            }),
    {
        self.received = if len > u64::MAX - self.received {
            u64::MAX
        } else {
            self.received + len
        };
        let progress = DownloadProgress { received_bytes: self.received, total_bytes: self.total };
        let percent = download_percent(&progress);
        let worth = match percent {
            Some(value) => match self.last_percent {
                Some(last) => last != value,
                None => true,
            },
            None => self.received >= self.last_report_bytes && self.received
                - self.last_report_bytes >= REPORT_EVERY_BYTES,
        };
        if worth {
            self.last_percent = percent;
            self.last_report_bytes = self.received;
            Some(progress)
        } else {
            None
        }
    }

    /// The progress to report when the download has ended.
    pub fn finished(&self) -> (report: DownloadProgress)
        ensures
            report == self.progress(),
    {
        DownloadProgress { received_bytes: self.received, total_bytes: self.total }
    }
}

} // verus!
