//! The lifecycle of a service: load, unload, restart, create, update,
//! delete.
//!
//! Each operation is planned here and carried out by the caller. A plan
//! lists the commands whose outcome is ignored, then the one step whose
//! outcome decides, and the message that reports success.

use crate::command::{command, command_of, CommandSpec, CommandView};
use crate::descriptor::ServiceConfig;
use crate::error::{failure, outcome_view, ErrorKind, ServiceError, ServiceErrorView};
use crate::platform::Platform;
use crate::paths::{path_stem, unit_file_path, unit_file_path_of, unit_name_for, unit_name_of};
use crate::unit_file::{render_unit_file, rendering_view, unit_file_content};
use vstd::prelude::*;

verus! {

/// A plan that ends in a command.
#[derive(Debug, PartialEq, Eq)]
pub struct CommandPlan {
    /// Run first, in order; what comes of them is ignored.
    pub best_effort: Vec<CommandSpec>,
    /// Its outcome is the operation's.
    pub decisive: CommandSpec,
    pub success_message: String,
}

/// Mathematical form of [`CommandPlan`].
pub struct CommandPlanView {
    pub best_effort: Seq<CommandView>,
    pub decisive: CommandView,
    pub success_message: Seq<char>,
}

impl View for CommandPlan {
    type V = CommandPlanView;

    open spec fn view(&self) -> CommandPlanView {
        CommandPlanView {
            best_effort: self.best_effort.deep_view(),
            decisive: self.decisive@,
            success_message: self.success_message@,
        }
    }
}

/// A change to the unit file.
#[derive(Debug, PartialEq, Eq)]
pub enum FileStep {
    /// Replace the file's content, creating the file where it is absent.
    /// Where the content could not be rendered, the step fails with the
    /// given reason before the file is touched.
    Write { path: String, content: Result<Vec<u8>, String> },
    /// Remove the file.
    Remove { path: String },
}

/// Mathematical form of [`FileStep`].
pub enum FileStepView {
    Write { path: Seq<char>, content: Result<Seq<u8>, Seq<char>> },
    Remove { path: Seq<char> },
}

impl View for FileStep {
    type V = FileStepView;

    open spec fn view(&self) -> FileStepView {
        match self {
            FileStep::Write { path, content } => FileStepView::Write {
                path: path@,
                content: rendering_view(*content),
            },
            FileStep::Remove { path } => FileStepView::Remove { path: path@ },
        }
    }
}

/// A plan that ends in a change to the unit file.
#[derive(Debug, PartialEq, Eq)]
pub struct FilePlan {
    /// Run first, in order; what comes of them is ignored.
    pub best_effort: Vec<CommandSpec>,
    /// A directory to create, with its parents, before the file step. A
    /// failure to create it is the operation's.
    pub create_dir: Option<String>,
    /// Its outcome is the operation's.
    pub file: FileStep,
    pub success_message: String,
}

/// Mathematical form of [`FilePlan`].
pub struct FilePlanView {
    pub best_effort: Seq<CommandView>,
    pub create_dir: Option<Seq<char>>,
    pub file: FileStepView,
    pub success_message: Seq<char>,
}

impl View for FilePlan {
    type V = FilePlanView;

    open spec fn view(&self) -> FilePlanView {
        FilePlanView {
            best_effort: self.best_effort.deep_view(),
            create_dir: self.create_dir.deep_view(),
            file: self.file@,
            success_message: self.success_message@,
        }
    }
}

/// What planning a command yields, in mathematical form.
pub open spec fn command_plan_view(r: Result<CommandPlan, ServiceError>) -> Result<
    CommandPlanView,
    ServiceErrorView,
> {
    match r {
        Ok(p) => Ok(p@),
        Err(e) => Err(e@),
    }
}

/// What planning a file change yields, in mathematical form.
pub open spec fn file_plan_view(r: Result<FilePlan, ServiceError>) -> Result<
    FilePlanView,
    ServiceErrorView,
> {
    match r {
        Ok(p) => Ok(p@),
        Err(e) => Err(e@),
    }
}

/// `launchctl <verb> <path>`.
pub open spec fn launchctl(verb: Seq<char>, path: Seq<char>) -> CommandView {
    command_of("launchctl"@, seq![verb, path])
}

/// `systemctl --user <verb> <unit>`.
pub open spec fn systemctl(verb: Seq<char>, unit: Seq<char>) -> CommandView {
    command_of("systemctl"@, seq!["--user"@, verb, unit])
}

fn launchctl_command(verb: &str, path: &str) -> (r: CommandSpec)
    ensures
        r@ == launchctl(verb@, path@),
{
    let args = vec![verb, path];
    proof {
        assert(args.deep_view() =~= seq![verb@, path@]);
    }
    command("launchctl", args)
}

fn systemctl_command(verb: &str, unit: &str) -> (r: CommandSpec)
    ensures
        r@ == systemctl(verb@, unit@),
{
    let args = vec!["--user", verb, unit];
    proof {
        assert(args.deep_view() =~= seq!["--user"@, verb@, unit@]);
    }
    command("systemctl", args)
}

/// The name by which a supervisor that goes by names knows the unit file
/// at a path: the stem of the file's name.
pub open spec fn unit_at(path: Seq<char>) -> Seq<char> {
    unit_name_for(path_stem(path))
}

/// The command that loads a unit, where the platform has one.
pub open spec fn load_command(platform: Platform, path: Seq<char>, unit: Seq<char>) -> Option<
    CommandView,
> {
    match platform {
        Platform::MacOs => Some(launchctl("load"@, path)),
        Platform::Windows => None,
        Platform::Linux => Some(systemctl("start"@, unit)),
    }
}

/// The command that unloads a unit, where the platform has one.
pub open spec fn unload_command(platform: Platform, path: Seq<char>, unit: Seq<char>) -> Option<
    CommandView,
> {
    match platform {
        Platform::MacOs => Some(launchctl("unload"@, path)),
        Platform::Windows => None,
        Platform::Linux => Some(systemctl("stop"@, unit)),
    }
}

/// The commands that stop a unit for good before its file changes or
/// goes: the unload command, and on the platform that enables units,
/// the command that disables it when `disable` is set.
pub open spec fn retire_commands(
    platform: Platform,
    path: Seq<char>,
    unit: Seq<char>,
    disable: bool,
) -> Seq<CommandView> {
    match platform {
        Platform::MacOs => seq![launchctl("unload"@, path)],
        Platform::Windows => Seq::empty(),
        Platform::Linux => if disable {
            seq![systemctl("stop"@, unit), systemctl("disable"@, unit)]
        } else {
            seq![systemctl("stop"@, unit)]
        },
    }
}

fn retire(platform: Platform, path: &str, unit: &str, disable: bool) -> (r: Vec<CommandSpec>)
    ensures
        r.deep_view() == retire_commands(platform, path@, unit@, disable),
{
    let mut r: Vec<CommandSpec> = Vec::new();
    match platform {
        Platform::MacOs => {
            r.push(launchctl_command("unload", path));
        },
        Platform::Windows => {},
        Platform::Linux => {
            r.push(systemctl_command("stop", unit));
            if disable {
                r.push(systemctl_command("disable", unit));
            }
        },
    }
    r
}

/// The plan of `load`: the platform's load command decides. Where the
/// platform has none, the operation is unsupported.
pub open spec fn load_plan(platform: Platform, path: Seq<char>, unit: Seq<char>) -> Result<
    CommandPlanView,
    ServiceErrorView,
> {
    match platform {
        Platform::MacOs => Ok(
            CommandPlanView {
                best_effort: Seq::empty(),
                decisive: launchctl("load"@, path),
                success_message: "Service loaded successfully"@,
            },
        ),
        Platform::Windows => Err(
            failure(
                ErrorKind::Unsupported,
                "Windows service loading not yet implemented. Please start the process manually."@,
            ),
        ),
        Platform::Linux => Ok(
            CommandPlanView {
                best_effort: Seq::empty(),
                decisive: systemctl("start"@, unit),
                success_message: "Service started successfully"@,
            },
        ),
    }
}

/// The plan of `unload`: the platform's unload command decides.
pub open spec fn unload_plan(platform: Platform, path: Seq<char>, unit: Seq<char>) -> Result<
    CommandPlanView,
    ServiceErrorView,
> {
    match platform {
        Platform::MacOs => Ok(
            CommandPlanView {
                best_effort: Seq::empty(),
                decisive: launchctl("unload"@, path),
                success_message: "Service unloaded successfully"@,
            },
        ),
        Platform::Windows => Err(
            failure(ErrorKind::Unsupported, "Windows service unloading not yet implemented."@),
        ),
        Platform::Linux => Ok(
            CommandPlanView {
                best_effort: Seq::empty(),
                decisive: systemctl("stop"@, unit),
                success_message: "Service stopped successfully"@,
            },
        ),
    }
}

/// The plan of `restart`: unload, whatever comes of it, then load, which
/// decides.
pub open spec fn restart_plan(platform: Platform, path: Seq<char>, unit: Seq<char>) -> Result<
    CommandPlanView,
    ServiceErrorView,
> {
    match (unload_command(platform, path, unit), load_command(platform, path, unit)) {
        (Some(unload), Some(load)) => Ok(
            CommandPlanView {
                best_effort: seq![unload],
                decisive: load,
                success_message: "Service restarted successfully"@,
            },
        ),
        _ => Err(failure(ErrorKind::Unsupported, "Windows service restart not yet implemented."@)),
    }
}

/// Plans the loading of the unit file at `plist_path`. A supervisor that
/// goes by names is given the stem of the file's name.
pub fn load_service(platform: Platform, plist_path: &str) -> (r: Result<CommandPlan, ServiceError>)
    ensures
        command_plan_view(r) == load_plan(platform, plist_path@, unit_at(plist_path@)),
{
    let unit = unit_name_of(plist_path);
    let unit_name = unit.as_str();
    match platform {
        Platform::MacOs => Ok(
            CommandPlan {
                best_effort: no_commands(),
                decisive: launchctl_command("load", plist_path),
                success_message: "Service loaded successfully".to_owned(),
            },
        ),
        Platform::Windows => Err(
            ServiceError::of(
                ErrorKind::Unsupported,
                "Windows service loading not yet implemented. Please start the process manually.",
            ),
        ),
        Platform::Linux => Ok(
            CommandPlan {
                best_effort: no_commands(),
                decisive: systemctl_command("start", unit_name),
                success_message: "Service started successfully".to_owned(),
            },
        ),
    }
}

/// Plans the unloading of the unit file at `plist_path`.
pub fn unload_service(platform: Platform, plist_path: &str) -> (r: Result<
    CommandPlan,
    ServiceError,
>)
    ensures
        command_plan_view(r) == unload_plan(platform, plist_path@, unit_at(plist_path@)),
{
    let unit = unit_name_of(plist_path);
    let unit_name = unit.as_str();
    match platform {
        Platform::MacOs => Ok(
            CommandPlan {
                best_effort: no_commands(),
                decisive: launchctl_command("unload", plist_path),
                success_message: "Service unloaded successfully".to_owned(),
            },
        ),
        Platform::Windows => Err(
            ServiceError::of(
                ErrorKind::Unsupported,
                "Windows service unloading not yet implemented.",
            ),
        ),
        Platform::Linux => Ok(
            CommandPlan {
                best_effort: no_commands(),
                decisive: systemctl_command("stop", unit_name),
                success_message: "Service stopped successfully".to_owned(),
            },
        ),
    }
}

/// Plans the restart of the unit file at `plist_path`.
pub fn restart_service(platform: Platform, plist_path: &str) -> (r: Result<
    CommandPlan,
    ServiceError,
>)
    ensures
        command_plan_view(r) == restart_plan(platform, plist_path@, unit_at(plist_path@)),
{
    let unit = unit_name_of(plist_path);
    let unit_name = unit.as_str();
    let (unload, load) = match platform {
        Platform::MacOs => (
            launchctl_command("unload", plist_path),
            launchctl_command("load", plist_path),
        ),
        Platform::Windows => {
            return Err(
                ServiceError::of(
                    ErrorKind::Unsupported,
                    "Windows service restart not yet implemented.",
                ),
            );
        },
        Platform::Linux => (
            systemctl_command("stop", unit_name),
            systemctl_command("start", unit_name),
        ),
    };
    let ghost first = unload@;
    let mut best_effort: Vec<CommandSpec> = Vec::new();
    best_effort.push(unload);
    proof {
        assert(best_effort.deep_view() =~= seq![first]);
    }
    Ok(
        CommandPlan {
            best_effort,
            decisive: load,
            success_message: "Service restarted successfully".to_owned(),
        },
    )
}

fn no_commands() -> (r: Vec<CommandSpec>)
    ensures
        r.deep_view() == Seq::<CommandView>::empty(),
{
    let r: Vec<CommandSpec> = Vec::new();
    r
}

/// The failure that reports an absent unit file.
pub open spec fn unit_file_missing() -> ServiceErrorView {
    failure(ErrorKind::NotFound, "Service file not found"@)
}

/// The plan of `create`: make the directory of unit files where it is
/// absent, then write the unit file, replacing one that is there.
/// Success reports the file's path. Nothing is loaded.
pub open spec fn create_plan(
    agents_dir: Seq<char>,
    dir_exists: bool,
    file_path: Seq<char>,
    content: Result<Seq<u8>, Seq<char>>,
) -> FilePlanView {
    FilePlanView {
        best_effort: Seq::empty(),
        create_dir: if dir_exists {
            None
        } else {
            Some(agents_dir)
        },
        file: FileStepView::Write { path: file_path, content },
        success_message: file_path,
    }
}

/// The plan of `update`: stop the unit, whatever comes of it, then write
/// the new content over the file at the same path. Nothing is reloaded.
pub open spec fn update_plan(
    platform: Platform,
    file_path: Seq<char>,
    unit: Seq<char>,
    content: Result<Seq<u8>, Seq<char>>,
) -> FilePlanView {
    FilePlanView {
        best_effort: retire_commands(platform, file_path, unit, false),
        create_dir: None,
        file: FileStepView::Write { path: file_path, content },
        success_message: "Service updated successfully"@,
    }
}

/// The plan of `delete`: stop and disable the unit, whatever comes of
/// it, then remove the file.
pub open spec fn delete_plan(platform: Platform, file_path: Seq<char>, unit: Seq<char>) -> FilePlanView {
    FilePlanView {
        best_effort: retire_commands(platform, file_path, unit, true),
        create_dir: None,
        file: FileStepView::Remove { path: file_path },
        success_message: "Service deleted successfully"@,
    }
}

/// Plans the creation of a service in the directory `agents_dir`. The
/// unit file is named after the label and lies in that directory.
pub fn create_service(agents_dir: &str, dir_exists: bool, config: &ServiceConfig) -> (r: FilePlan)
    ensures
        r@ == create_plan(
            agents_dir@,
            dir_exists,
            unit_file_path_of(agents_dir@, config@.label),
            unit_file_content(config@),
        ),
{
    let file_path = unit_file_path(agents_dir, config.label.as_str());
    let create_dir = if dir_exists {
        None
    } else {
        Some(agents_dir.to_owned())
    };
    FilePlan {
        best_effort: no_commands(),
        create_dir,
        file: FileStep::Write { path: file_path.clone(), content: render_unit_file(config) },
        success_message: file_path,
    }
}

/// Plans the update of the unit file at `file_path`. `exists` says
/// whether the file is there. An absent file is reported and nothing is
/// planned.
pub fn update_service(platform: Platform, file_path: &str, exists: bool, config: &ServiceConfig) -> (r:
    Result<FilePlan, ServiceError>)
    ensures
        file_plan_view(r) == (if exists {
            Ok::<FilePlanView, ServiceErrorView>(
                update_plan(platform, file_path@, unit_at(file_path@), unit_file_content(config@)),
            )
        } else {
            Err::<FilePlanView, ServiceErrorView>(unit_file_missing())
        }),
{
    if !exists {
        return Err(ServiceError::of(ErrorKind::NotFound, "Service file not found"));
    }
    let unit = unit_name_of(file_path);
    Ok(
        FilePlan {
            best_effort: retire(platform, file_path, unit.as_str(), false),
            create_dir: None,
            file: FileStep::Write { path: file_path.to_owned(), content: render_unit_file(config) },
            success_message: "Service updated successfully".to_owned(),
        },
    )
}

/// Plans the deletion of the unit file at `file_path`. `exists` says
/// whether the file is there. An absent file is reported and nothing is
/// planned, so nothing is changed.
pub fn delete_service(platform: Platform, file_path: &str, exists: bool) -> (r: Result<
    FilePlan,
    ServiceError,
>)
    ensures
        file_plan_view(r) == (if exists {
            Ok::<FilePlanView, ServiceErrorView>(
                delete_plan(platform, file_path@, unit_at(file_path@)),
            )
        } else {
            Err::<FilePlanView, ServiceErrorView>(unit_file_missing())
        }),
{
    if !exists {
        return Err(ServiceError::of(ErrorKind::NotFound, "Service file not found"));
    }
    let unit = unit_name_of(file_path);
    Ok(
        FilePlan {
            best_effort: retire(platform, file_path, unit.as_str(), true),
            create_dir: None,
            file: FileStep::Remove { path: file_path.to_owned() },
            success_message: "Service deleted successfully".to_owned(),
        },
    )
}

/// What the outcome of a plan's file step means: the plan's message on
/// success, the reason as a failure otherwise. The same holds of the
/// outcome of creating the directory.
pub open spec fn file_concluded(outcome: Result<(), String>, success_message: Seq<char>) -> Result<
    Seq<char>,
    ServiceErrorView,
> {
    match outcome {
        Ok(()) => Ok(success_message),
        Err(reason) => Err(failure(ErrorKind::PermissionOrTransport, reason@)),
    }
}

/// Turns the outcome of a plan's file step into the operation's result.
pub fn conclude_file(outcome: Result<(), String>, success_message: &str) -> (r: Result<
    String,
    ServiceError,
>)
    ensures
        outcome_view(r) == file_concluded(outcome, success_message@),
{
    match outcome {
        Ok(()) => Ok(success_message.to_owned()),
        Err(reason) => Err(ServiceError::new(ErrorKind::PermissionOrTransport, reason)),
    }
}

/// The unit files that exist after a file step, given those that
/// existed before.
pub open spec fn files_after(step: FileStepView, files: Set<Seq<char>>) -> Set<Seq<char>> {
    match step {
        FileStepView::Write { path, content } => if content is Ok {
            files.insert(path)
        } else {
            files
        },
        FileStepView::Remove { path } => files.remove(path),
    }
}

/// An update changes no file but the one it was asked to update: where
/// that file exists, the same files exist afterwards, so the old and the
/// new unit file are one file.
pub proof fn lemma_update_keeps_files(
    platform: Platform,
    file_path: Seq<char>,
    unit: Seq<char>,
    content: Result<Seq<u8>, Seq<char>>,
    files: Set<Seq<char>>,
)
    requires
        files.contains(file_path),
    ensures
        files_after(update_plan(platform, file_path, unit, content).file, files) == files,
        update_plan(platform, file_path, unit, content).create_dir is None,
{
}

} // verus!
