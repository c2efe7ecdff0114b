//! What it takes to launch a backend: the choice of a runtime, the command
//! line of each runtime, the preparation of the script runtime, and the
//! verdict on a process once it has been spawned.

use crate::backend::{
    mode_label, process_end, stop_managed_backend, ProcessEnd, SupervisorState,
};
use crate::backend_python::{build_uv_env, lowered, uv_env, CommandLine, CommandView};
use crate::backend_support::{
    is_unrecognised_reply, not_a_backend_message, startup_timeout_message, verify_backend_mode,
    HealthReply,
};
use crate::config::{text_of, ServerMode};
use crate::text::{
    decimal, decimal_string, eq_ignore_ascii_case, eq_ignoring_ascii_case, push_pair, push_text,
    str_eq, to_lowercase,
};
use vstd::prelude::*;
use vstd::string::*;

verus! {

/// How the backend is run.
#[derive(Debug, Clone, Copy, PartialEq, Eq, Structural)]
pub enum BackendRuntime {
    /// By `uv run`, in the backend's source directory.
    Uv,
    /// As a script, by the interpreter of a prepared virtual environment.
    Script,
    /// As a packaged executable.
    PyInstaller,
}

/// The runtime that a configured name selects; the name is in lower case.
pub open spec fn runtime_named(name: Seq<char>) -> Option<BackendRuntime> {
    if name == "uv"@ || name == "uv-run"@ || name == "uvrun"@ {
        Some(BackendRuntime::Uv)
    } else if name == "pyinstaller"@ {
        Some(BackendRuntime::PyInstaller)
    } else if name == "script"@ {
        Some(BackendRuntime::Script)
    } else {
        None
    }
}

/// The runtime that the name fixed at build time selects, in any case of letters.
pub open spec fn default_runtime_named(name: Seq<char>) -> Option<BackendRuntime> {
    if eq_ignoring_ascii_case(name, "pyinstaller"@) {
        Some(BackendRuntime::PyInstaller)
    } else if eq_ignoring_ascii_case(name, "script"@) {
        Some(BackendRuntime::Script)
    } else if eq_ignoring_ascii_case(name, "uv"@) || eq_ignoring_ascii_case(name, "uv-run"@) {
        Some(BackendRuntime::Uv)
    } else {
        None
    }
}

/// The runtime to use: what the configured name selects, else what the
/// build-time name selects, else `Uv`. A name that selects nothing counts
/// as absent.
pub open spec fn chosen_runtime(configured: Option<Seq<char>>, built_in: Option<Seq<char>>) -> BackendRuntime {
    if configured matches Some(name) && runtime_named(name) is Some {
        runtime_named(configured->0)->0
    } else if built_in matches Some(name) && default_runtime_named(name) is Some {
        default_runtime_named(built_in->0)->0
    } else {
        BackendRuntime::Uv
    }
}

/// The runtime that a lower-case name selects.
pub fn runtime_from_name(name: &str) -> (runtime: Option<BackendRuntime>)
    ensures
        runtime == runtime_named(name@),
{
    if str_eq(name, "uv") || str_eq(name, "uv-run") || str_eq(name, "uvrun") {
        Some(BackendRuntime::Uv)
    } else if str_eq(name, "pyinstaller") {
        Some(BackendRuntime::PyInstaller)
    } else if str_eq(name, "script") {
        Some(BackendRuntime::Script)
    } else {
        None
    }
}

/// The runtime that a build-time name selects.
pub fn runtime_from_default(name: &str) -> (runtime: Option<BackendRuntime>)
    ensures
        runtime == default_runtime_named(name@),
{
    if eq_ignore_ascii_case(name, "pyinstaller") {
        Some(BackendRuntime::PyInstaller)
    } else if eq_ignore_ascii_case(name, "script") {
        Some(BackendRuntime::Script)
    } else if eq_ignore_ascii_case(name, "uv") || eq_ignore_ascii_case(name, "uv-run") {
        Some(BackendRuntime::Uv)
    } else {
        None
    }
}

/// Chooses the runtime from a configured name that is already in lower
/// case and the name fixed at build time.
pub fn choose_backend_runtime(configured: Option<&str>, built_in: Option<&str>) -> (runtime:
    BackendRuntime)
    ensures
        runtime == chosen_runtime(text_of(configured), text_of(built_in)),
{
    match configured {
        Some(name) => match runtime_from_name(name) {
            Some(runtime) => {
                return runtime;
            },
            None => {},
        },
        None => {},
    }
    match built_in {
        Some(name) => match runtime_from_default(name) {
            Some(runtime) => {
                return runtime;
            },
            None => {},
        },
        None => {},
    }
    BackendRuntime::Uv
}

/// Chooses the runtime from the configured name, in any case of letters,
/// and the name fixed at build time.
pub fn get_backend_runtime(configured: Option<&str>, built_in: Option<&str>) -> (runtime:
    BackendRuntime)
    ensures
        runtime == chosen_runtime(lowered(configured), text_of(built_in)),
{
    match configured {
        Some(name) => {
            let lower = to_lowercase(name);
            choose_backend_runtime(Some(lower.as_str()), built_in)
        },
        None => choose_backend_runtime(None, built_in),
    }
}

/// What is launched, by runtime, with the places each runtime needs.
#[derive(Debug, Clone)]
pub enum LaunchTarget {
    /// `uv run` in the backend's source directory.
    Uv { backend_root: String },
    /// The start script, run by the interpreter of the virtual environment
    /// in the backend's source directory.
    Script { venv_python: String, backend_path: String, backend_root: String },
    /// The packaged executable, run in the directory it lies in.
    PyInstaller { backend_path: String, backend_dir: String },
}

impl LaunchTarget {
    pub open spec fn runtime(self) -> BackendRuntime {
        match self {
            LaunchTarget::Uv { .. } => BackendRuntime::Uv,
            LaunchTarget::Script { .. } => BackendRuntime::Script,
            LaunchTarget::PyInstaller { .. } => BackendRuntime::PyInstaller,
        }
    }
}

/// A process to spawn: program, arguments, working directory and the
/// variables to add to its environment.
#[derive(Debug, Clone)]
pub struct LaunchPlan {
    pub command: String,
    pub args: Vec<String>,
    pub working_dir: String,
    pub env: Vec<(String, String)>,
}

/// A launch plan as mathematics.
pub struct PlanView {
    pub command: Seq<char>,
    pub args: Seq<Seq<char>>,
    pub working_dir: Seq<char>,
    pub env: Seq<(Seq<char>, Seq<char>)>,
}

impl View for LaunchPlan {
    type V = PlanView;

    open spec fn view(&self) -> PlanView {
        PlanView {
            command: self.command@,
            args: self.args.deep_view(),
            working_dir: self.working_dir@,
            env: self.env.deep_view(),
        }
    }
}

/// The name of a mode on the command line.
pub open spec fn mode_label_text(mode: ServerMode) -> Seq<char> {
    match mode {
        ServerMode::Dev => "dev"@,
        ServerMode::Build => "build"@,
    }
}

/// The variables that every backend gets: unbuffered UTF-8 output, the
/// data directory, and observability and debugging switched off.
pub open spec fn backend_env(data_dir: Seq<char>) -> Seq<(Seq<char>, Seq<char>)> {
    seq![
        ("PYTHONUNBUFFERED"@, "1"@),
        ("PYTHONUTF8"@, "1"@),
        ("LIFETRACE_DATA_DIR"@, data_dir),
        ("LIFETRACE__OBSERVABILITY__ENABLED"@, "false"@),
        ("LIFETRACE__SERVER__DEBUG"@, "false"@),
    ]
}

/// The arguments that a script or a packaged backend takes.
pub open spec fn backend_args(port: u16, mode: ServerMode, data_dir: Seq<char>) -> Seq<Seq<char>> {
    seq![
        "--port"@,
        decimal(port as nat),
        "--data-dir"@,
        data_dir,
        "--mode"@,
        mode_label_text(mode),
    ]
}

/// The plan for a target: under `uv`, the server module with port and
/// mode, and the package index settings in the environment; as a script,
/// the interpreter with the script and the backend's arguments; packaged,
/// the executable with the backend's arguments.
pub open spec fn planned(
    target: LaunchTarget,
    port: u16,
    mode: ServerMode,
    data_dir: Seq<char>,
    china: bool,
) -> PlanView {
    match target {
        LaunchTarget::Uv { backend_root } => PlanView {
            command: "uv"@,
            args: seq![
                "run"@,
                "python"@,
                "-m"@,
                "lifetrace.server"@,
                "--port"@,
                decimal(port as nat),
                "--mode"@,
                mode_label_text(mode),
            ],
            working_dir: backend_root@,
            env: uv_env(china) + backend_env(data_dir),
        },
        LaunchTarget::Script { venv_python, backend_path, backend_root } => PlanView {
            command: venv_python@,
            args: seq![backend_path@] + backend_args(port, mode, data_dir),
            working_dir: backend_root@,
            env: backend_env(data_dir),
        },
        LaunchTarget::PyInstaller { backend_path, backend_dir } => PlanView {
            command: backend_path@,
            args: backend_args(port, mode, data_dir),
            working_dir: backend_dir@,
            env: backend_env(data_dir),
        },
    }
}

fn push_backend_env(env: &mut Vec<(String, String)>, data_dir: &str)
    ensures
        final(env).deep_view() == old(env).deep_view() + backend_env(data_dir@),
{
    push_pair(env, "PYTHONUNBUFFERED", "1");
    push_pair(env, "PYTHONUTF8", "1");
    push_pair(env, "LIFETRACE_DATA_DIR", data_dir);
    push_pair(env, "LIFETRACE__OBSERVABILITY__ENABLED", "false");
    push_pair(env, "LIFETRACE__SERVER__DEBUG", "false");
    assert(env.deep_view() =~= old(env).deep_view() + backend_env(data_dir@));
}

fn push_backend_args(args: &mut Vec<String>, port: u16, mode: ServerMode, data_dir: &str)
    ensures
        final(args).deep_view() == old(args).deep_view() + backend_args(port, mode, data_dir@),
{
    let digits = decimal_string(port as u64);
    push_text(args, "--port");
    push_text(args, digits.as_str());
    push_text(args, "--data-dir");
    push_text(args, data_dir);
    push_text(args, "--mode");
    push_text(args, mode_label(mode));
    assert(args.deep_view() =~= old(args).deep_view() + backend_args(port, mode, data_dir@));
}

/// Works out the process to spawn for a backend on `port`.
pub fn launch_plan(target: LaunchTarget, port: u16, mode: ServerMode, data_dir: &str, china: bool) -> (plan:
    LaunchPlan)
    ensures
        plan@ == planned(target, port, mode, data_dir@, china),
{
    let mut args: Vec<String> = Vec::new();
    assert(args.deep_view() =~= Seq::<Seq<char>>::empty());
    match target {
        LaunchTarget::Uv { backend_root } => {
            let digits = decimal_string(port as u64);
            push_text(&mut args, "run");
            push_text(&mut args, "python");
            push_text(&mut args, "-m");
            push_text(&mut args, "lifetrace.server");
            push_text(&mut args, "--port");
            push_text(&mut args, digits.as_str());
            push_text(&mut args, "--mode");
            push_text(&mut args, mode_label(mode));
            let mut env = build_uv_env(china);
            push_backend_env(&mut env, data_dir);
            let plan = LaunchPlan {
                command: String::from_str("uv"),
                args,
                working_dir: backend_root,
                env,
            };
            assert(plan@.args =~= planned(target, port, mode, data_dir@, china).args);
            plan
        },
        LaunchTarget::Script { venv_python, backend_path, backend_root } => {
            push_text(&mut args, backend_path.as_str());
            push_backend_args(&mut args, port, mode, data_dir);
            let mut env: Vec<(String, String)> = Vec::new();
            assert(env.deep_view() =~= Seq::<(Seq<char>, Seq<char>)>::empty());
            push_backend_env(&mut env, data_dir);
            let plan = LaunchPlan { command: venv_python, args, working_dir: backend_root, env };
            assert(plan@.args =~= planned(target, port, mode, data_dir@, china).args);
            assert(plan@.env =~= planned(target, port, mode, data_dir@, china).env);
            plan
        },
        LaunchTarget::PyInstaller { backend_path, backend_dir } => {
            push_backend_args(&mut args, port, mode, data_dir);
            let mut env: Vec<(String, String)> = Vec::new();
            assert(env.deep_view() =~= Seq::<(Seq<char>, Seq<char>)>::empty());
            push_backend_env(&mut env, data_dir);
            let plan = LaunchPlan { command: backend_path, args, working_dir: backend_dir, env };
            assert(plan@.args =~= planned(target, port, mode, data_dir@, china).args);
            assert(plan@.env =~= planned(target, port, mode, data_dir@, china).env);
            plan
        },
    }
}

/// Every plan names the port and the mode on its command line, gives the
/// data directory in the environment, and switches observability and
/// debugging off.
pub proof fn lemma_plan_carries_port_and_mode(
    target: LaunchTarget,
    port: u16,
    mode: ServerMode,
    data_dir: Seq<char>,
    china: bool,
)
    ensures
        ({
            let plan = planned(target, port, mode, data_dir, china);
            &&& exists|i: int|
                0 <= i < plan.args.len() - 1 && #[trigger] plan.args[i] == "--port"@ && plan.args[i
                    + 1] == decimal(port as nat)
            &&& exists|i: int|
                0 <= i < plan.args.len() - 1 && #[trigger] plan.args[i] == "--mode"@ && plan.args[i
                    + 1] == mode_label_text(mode)
            &&& plan.env.contains(("LIFETRACE_DATA_DIR"@, data_dir))
            &&& plan.env.contains(("LIFETRACE__OBSERVABILITY__ENABLED"@, "false"@))
            &&& plan.env.contains(("LIFETRACE__SERVER__DEBUG"@, "false"@))
        }),
{
    let plan = planned(target, port, mode, data_dir, china);
    let common = backend_env(data_dir);
    assert(common[2] == ("LIFETRACE_DATA_DIR"@, data_dir));
    assert(common[3] == ("LIFETRACE__OBSERVABILITY__ENABLED"@, "false"@));
    assert(common[4] == ("LIFETRACE__SERVER__DEBUG"@, "false"@));
    match target {
        LaunchTarget::Uv { .. } => {
            let n = uv_env(china).len() as int;
            assert(plan.env[n + 2] == common[2]);
            assert(plan.env[n + 3] == common[3]);
            assert(plan.env[n + 4] == common[4]);
            assert(plan.args[4] == "--port"@);
            assert(plan.args[6] == "--mode"@);
        },
        LaunchTarget::Script { .. } => {
            assert(plan.env[2] == common[2]);
            assert(plan.env[3] == common[3]);
            assert(plan.env[4] == common[4]);
            assert(plan.args[1] == "--port"@);
            assert(plan.args[5] == "--mode"@);
        },
        LaunchTarget::PyInstaller { .. } => {
            assert(plan.env[2] == common[2]);
            assert(plan.env[3] == common[3]);
            assert(plan.env[4] == common[4]);
            assert(plan.args[0] == "--port"@);
            assert(plan.args[4] == "--mode"@);
        },
    }
}

/// Whether the backend's dependencies still have to be synchronised: once
/// per run is enough.
pub fn run_uv_sync_if_needed(state: &SupervisorState) -> (needed: bool)
    ensures
        needed == !state.uv_synced,
{
    !state.uv_synced
}

/// The command that synchronises the backend's dependencies; it runs in
/// the backend's source directory.
pub fn uv_sync_command(china: bool) -> (command: CommandLine)
    ensures
        command@ == (CommandView { program: "uv"@, args: seq!["sync"@], env: uv_env(china) }),
{
    let mut args: Vec<String> = Vec::new();
    assert(args.deep_view() =~= Seq::<Seq<char>>::empty());
    push_text(&mut args, "sync");
    assert(args.deep_view() =~= seq!["sync"@]);
    CommandLine { program: String::from_str("uv"), args, env: build_uv_env(china) }
}

/// Takes the end of the synchronisation. Success is remembered for the
/// rest of the run; failure is an error that names the exit status.
pub fn uv_sync_finished(state: &mut SupervisorState, success: bool, status: &str) -> (outcome:
    Result<(), String>)
    ensures
        outcome.is_ok() == success,
        outcome matches Err(message) ==> message@ == "uv sync failed with status "@ + status@,
        *final(state) == (SupervisorState {
            uv_synced: old(state).uv_synced || success,
            ..*old(state)
        }),
{
    if success {
        state.uv_synced = true;
        Ok(())
    } else {
        let mut message = String::from_str("uv sync failed with status ");
        message.append(status);
        Err(message)
    }
}

/// The stages of preparing the script runtime, in the order in which they
/// can follow each other.
#[derive(Debug, Clone, Copy, PartialEq, Eq, Structural)]
pub enum BootstrapStage {
    /// Is the requirements file there?
    CheckRequirements,
    /// Make sure that a `uv` binary is in the runtime directory.
    EnsureUvBinary,
    /// Let `uv` install Python.
    EnsureUvPython,
    /// Let `uv` create the virtual environment.
    EnsureUvVenv,
    /// Let `uv` install the requirements into it.
    InstallWithUv,
    /// Look for a Python on the system.
    FindSystemPython,
    /// Let the system's Python create the virtual environment.
    EnsureVenv,
    /// Install `uv` into the virtual environment.
    EnsureVenvUv,
    /// Let that `uv` install the requirements.
    InstallWithVenvUv,
    /// Is the interpreter of the virtual environment there?
    CheckVenvPython,
}

/// How the preparation goes on.
#[derive(Debug, Clone)]
pub enum BootstrapStep {
    /// Carry out the stage and come back with its outcome.
    Run(BootstrapStage),
    /// The interpreter of the virtual environment is ready to run the backend.
    Ready,
    /// The preparation failed, with the reason.
    Failed(String),
}

/// A step of the preparation as mathematics.
pub enum BootstrapView {
    Run(BootstrapStage),
    Ready,
    Failed(Seq<char>),
}

impl View for BootstrapStep {
    type V = BootstrapView;

    open spec fn view(&self) -> BootstrapView {
        match self {
            BootstrapStep::Run(stage) => BootstrapView::Run(*stage),
            BootstrapStep::Ready => BootstrapView::Ready,
            BootstrapStep::Failed(reason) => BootstrapView::Failed(reason@),
        }
    }
}

/// The place of a stage in the order of stages.
pub open spec fn stage_rank(stage: BootstrapStage) -> nat {
    match stage {
        BootstrapStage::CheckRequirements => 0,
        BootstrapStage::EnsureUvBinary => 1,
        BootstrapStage::EnsureUvPython => 2,
        BootstrapStage::EnsureUvVenv => 3,
        BootstrapStage::InstallWithUv => 4,
        BootstrapStage::FindSystemPython => 5,
        BootstrapStage::EnsureVenv => 6,
        BootstrapStage::EnsureVenvUv => 7,
        BootstrapStage::InstallWithVenvUv => 8,
        BootstrapStage::CheckVenvPython => 9,
    }
}

/// What follows a stage. `failure` is `None` where the stage succeeded and
/// the detail of the failure where it did not.
///
/// The way through `uv` comes first. Whatever fails on it, the
/// preparation falls back on the system's Python; on that way every
/// failure is final. A missing requirements file ends the preparation
/// before it has begun, a missing interpreter at its end.
pub open spec fn bootstrap_after(stage: BootstrapStage, failure: Option<Seq<char>>) -> BootstrapView {
    match stage {
        BootstrapStage::CheckRequirements => match failure {
            None => BootstrapView::Run(BootstrapStage::EnsureUvBinary),
            Some(place) => BootstrapView::Failed("Requirements file not found at "@ + place),
        },
        BootstrapStage::EnsureUvBinary => match failure {
            None => BootstrapView::Run(BootstrapStage::EnsureUvPython),
            Some(_) => BootstrapView::Run(BootstrapStage::FindSystemPython),
        },
        BootstrapStage::EnsureUvPython => match failure {
            None => BootstrapView::Run(BootstrapStage::EnsureUvVenv),
            Some(_) => BootstrapView::Run(BootstrapStage::FindSystemPython),
        },
        BootstrapStage::EnsureUvVenv => match failure {
            None => BootstrapView::Run(BootstrapStage::InstallWithUv),
            Some(_) => BootstrapView::Run(BootstrapStage::FindSystemPython),
        },
        BootstrapStage::InstallWithUv => match failure {
            None => BootstrapView::Run(BootstrapStage::CheckVenvPython),
            Some(_) => BootstrapView::Run(BootstrapStage::FindSystemPython),
        },
        BootstrapStage::FindSystemPython => match failure {
            None => BootstrapView::Run(BootstrapStage::EnsureVenv),
            Some(_) => BootstrapView::Failed("Python 3.12 not found"@),
        },
        BootstrapStage::EnsureVenv => match failure {
            None => BootstrapView::Run(BootstrapStage::EnsureVenvUv),
            Some(reason) => BootstrapView::Failed(reason),
        },
        BootstrapStage::EnsureVenvUv => match failure {
            None => BootstrapView::Run(BootstrapStage::InstallWithVenvUv),
            Some(reason) => BootstrapView::Failed(reason),
        },
        BootstrapStage::InstallWithVenvUv => match failure {
            None => BootstrapView::Run(BootstrapStage::CheckVenvPython),
            Some(reason) => BootstrapView::Failed(reason),
        },
        BootstrapStage::CheckVenvPython => match failure {
            None => BootstrapView::Ready,
            Some(_) => BootstrapView::Failed("Virtual environment python not found"@),
        },
    }
}

/// The failure of an outcome, if it is one.
pub open spec fn failure_of(outcome: Result<(), String>) -> Option<Seq<char>> {
    match outcome {
        Ok(_) => None,
        Err(reason) => Some(reason@),
    }
}

/// The stage with which the preparation of the script runtime begins.
pub fn script_bootstrap_first() -> (stage: BootstrapStage)
    ensures
        stage == BootstrapStage::CheckRequirements,
{
    BootstrapStage::CheckRequirements
}

/// Takes the outcome of a stage and says how the preparation goes on.
pub fn script_bootstrap_next(stage: BootstrapStage, outcome: Result<(), String>) -> (step:
    BootstrapStep)
    ensures
        step@ == bootstrap_after(stage, failure_of(outcome)),
{
    match stage {
        BootstrapStage::CheckRequirements => match outcome {
            Ok(_) => BootstrapStep::Run(BootstrapStage::EnsureUvBinary),
            Err(place) => {
                let mut message = String::from_str("Requirements file not found at ");
                message.append(place.as_str());
                BootstrapStep::Failed(message)
            },
        },
        BootstrapStage::EnsureUvBinary => match outcome {
            Ok(_) => BootstrapStep::Run(BootstrapStage::EnsureUvPython),
            Err(_) => BootstrapStep::Run(BootstrapStage::FindSystemPython),
        },
        BootstrapStage::EnsureUvPython => match outcome {
            Ok(_) => BootstrapStep::Run(BootstrapStage::EnsureUvVenv),
            Err(_) => BootstrapStep::Run(BootstrapStage::FindSystemPython),
        },
        BootstrapStage::EnsureUvVenv => match outcome {
            Ok(_) => BootstrapStep::Run(BootstrapStage::InstallWithUv),
            Err(_) => BootstrapStep::Run(BootstrapStage::FindSystemPython),
        },
        BootstrapStage::InstallWithUv => match outcome {
            Ok(_) => BootstrapStep::Run(BootstrapStage::CheckVenvPython),
            Err(_) => BootstrapStep::Run(BootstrapStage::FindSystemPython),
        },
        BootstrapStage::FindSystemPython => match outcome {
            Ok(_) => BootstrapStep::Run(BootstrapStage::EnsureVenv),
            Err(_) => BootstrapStep::Failed(String::from_str("Python 3.12 not found")),
        },
        BootstrapStage::EnsureVenv => match outcome {
            Ok(_) => BootstrapStep::Run(BootstrapStage::EnsureVenvUv),
            Err(reason) => BootstrapStep::Failed(reason),
        },
        BootstrapStage::EnsureVenvUv => match outcome {
            Ok(_) => BootstrapStep::Run(BootstrapStage::InstallWithVenvUv),
            Err(reason) => BootstrapStep::Failed(reason),
        },
        BootstrapStage::InstallWithVenvUv => match outcome {
            Ok(_) => BootstrapStep::Run(BootstrapStage::CheckVenvPython),
            Err(reason) => BootstrapStep::Failed(reason),
        },
        BootstrapStage::CheckVenvPython => match outcome {
            Ok(_) => BootstrapStep::Ready,
            Err(_) => BootstrapStep::Failed(String::from_str("Virtual environment python not found")),
        },
    }
}

/// The preparation only moves forward: a stage that follows another lies
/// later in the order of stages, so no stage runs twice and the
/// preparation ends after ten stages at most.
pub proof fn lemma_bootstrap_moves_forward(stage: BootstrapStage, failure: Option<Seq<char>>)
    ensures
        bootstrap_after(stage, failure) matches BootstrapView::Run(next) ==> stage_rank(stage)
            < stage_rank(next) <= 9,
{
}

/// The verdict on a spawned backend: it has to become healthy in time, and
/// what answers on its port has to identify itself as the backend.
pub open spec fn launch_verdict(port: u16, healthy_in_time: bool, reply: Option<&HealthReply>) -> Result<
    u16,
    Seq<char>,
> {
    if !healthy_in_time {
        Err("Backend did not start in time"@)
    } else if is_unrecognised_reply(reply) {
        Err(not_a_backend_message(port))
    } else {
        Ok(port)
    }
}

/// Records that the backend process has been spawned and is now held.
pub fn process_spawned(state: &mut SupervisorState)
    ensures
        *final(state) == (SupervisorState { managed: true, ..*old(state) }),
{
    state.managed = true;
}

/// How a launch ended once its process had been spawned: the verdict,
/// and what is to be done with the process.
#[derive(Debug)]
pub struct LaunchOutcome {
    /// The port of the confirmed backend, or why the launch failed.
    pub verdict: Result<u16, String>,
    /// How the process is brought down; nothing after a confirmed launch.
    pub end: ProcessEnd,
}

/// Judges a spawned backend, once the wait for its health is over.
/// `reply` is the answer to the identity probe that follows a successful
/// wait. A backend that passes is confirmed on its port and keeps running.
/// One that fails, by timing out or by not identifying itself, is given
/// up: the state no longer holds a process, and the process that was held
/// is brought down by a request to terminate, the grace period, and a kill
/// unless it has exited by then.
pub fn confirm_launch(
    state: &mut SupervisorState,
    port: u16,
    healthy_in_time: bool,
    expected_mode: &str,
    reply: Option<&HealthReply>,
) -> (outcome: LaunchOutcome)
    ensures
        match launch_verdict(port, healthy_in_time, reply) {
            Ok(confirmed) => {
                &&& outcome.verdict == Ok::<u16, String>(confirmed)
                &&& outcome.end == ProcessEnd::Nothing
                &&& *final(state) == *old(state)
            },
            Err(reason) => {
                &&& outcome.verdict matches Err(message) && message@ == reason
                &&& outcome.end == process_end(old(state).managed)
                &&& *final(state) == (SupervisorState { managed: false, ..*old(state) })
            },
        },
{
    if !healthy_in_time {
        let end = stop_managed_backend(state);
        return LaunchOutcome { verdict: Err(startup_timeout_message()), end };
    }
    match verify_backend_mode(port, expected_mode, reply) {
        Ok(_) => LaunchOutcome { verdict: Ok(port), end: ProcessEnd::Nothing },
        Err(message) => {
            let end = stop_managed_backend(state);
            LaunchOutcome { verdict: Err(message), end }
        },
    }
}

} // verus!
