//! System maintenance tasks: which command each task runs, the transcript of
//! its output, and the maintenance dialog's state machine.
use vstd::prelude::*;
use crate::text::{cat2, cat4, cat5, join, join_strings, signed_decimal, str_owned, string_views};
use crate::transcript::{exit_code_text, shown_code};
use crate::device_install_dialog::{PostInstallTool, tool_args};

verus! {

#[derive(Clone, Copy, Debug, PartialEq, Eq, Structural)]
pub enum MaintenanceTask {
    RebuildKernelModules,
    RegenerateInitramfs,
    RemoveOrphanedPackages,
    CleanPackageCache,
}

pub open spec fn task_title(t: MaintenanceTask) -> Seq<char> {
    match t {
        MaintenanceTask::RebuildKernelModules => "Rebuild Kernel Modules"@,
        MaintenanceTask::RegenerateInitramfs => "Regenerate Initramfs"@,
        MaintenanceTask::RemoveOrphanedPackages => "Remove Orphaned Packages"@,
        MaintenanceTask::CleanPackageCache => "Clean Package Cache"@,
    }
}

/// The program that a task runs: every task goes through `pkexec`.
pub open spec fn task_program(t: MaintenanceTask) -> Seq<char> {
    "pkexec"@
}

/// The arguments that a task hands to `pkexec`.
pub open spec fn task_args(t: MaintenanceTask) -> Seq<Seq<char>> {
    match t {
        MaintenanceTask::RebuildKernelModules => seq!["akmods"@, "--force"@, "--rebuild"@],
        MaintenanceTask::RegenerateInitramfs => seq!["dracut"@, "-f"@, "regenerate-all"@],
        MaintenanceTask::RemoveOrphanedPackages => seq![
            "dnf"@,
            "autoremove"@,
            "-y"@,
            "--assumeyes"@,
        ],
        MaintenanceTask::CleanPackageCache => seq!["dnf"@, "clean"@, "all"@],
    }
}

/// What the dialog says while a task runs.
pub open spec fn task_progress_text(t: MaintenanceTask) -> Seq<char> {
    match t {
        MaintenanceTask::RebuildKernelModules => "Rebuilding kernel modules..."@,
        MaintenanceTask::RegenerateInitramfs => "Regenerating initramfs..."@,
        MaintenanceTask::RemoveOrphanedPackages => "Removing orphaned packages..."@,
        MaintenanceTask::CleanPackageCache => "Cleaning package cache..."@,
    }
}

/// The first lines of a task's transcript: the command line and a rule.
pub open spec fn task_header(program: Seq<char>, args: Seq<Seq<char>>) -> Seq<char> {
    "$ "@ + program + " "@ + join(args, " "@) + "\n--- Output ---\n"@
}

pub fn task_header_text(program: &str, args: &Vec<String>) -> (r: String)
    ensures
        r@ == task_header(program@, string_views(args@)),
{
    let joined = join_strings(args, " ");
    cat5("$ ", program, " ", joined.as_str(), "\n--- Output ---\n")
}

/// The outcome of a task from how its process ended and its transcript.
pub open spec fn task_outcome(success: bool, code: Option<i32>, transcript: Seq<char>) -> Result<
    Seq<char>,
    Seq<char>,
> {
    if success {
        Ok(transcript)
    } else {
        Err("Process failed (exit code: "@ + signed_decimal(shown_code(code)) + "):\n"@
            + transcript)
    }
}

pub fn task_outcome_text(success: bool, code: Option<i32>, transcript: &str) -> (r: Result<
    String,
    String,
>)
    ensures
        match (r, task_outcome(success, code, transcript@)) {
            (Ok(a), Ok(b)) => a@ == b,
            (Err(a), Err(b)) => a@ == b,
            _ => false,
        },
{
    if success {
        Ok(str_owned(transcript))
    } else {
        let c = exit_code_text(code);
        Err(cat4("Process failed (exit code: ", c.as_str(), "):\n", transcript))
    }
}

/// The error when the task's program cannot be started.
pub fn spawn_error(program: &str, error: &str) -> (r: String)
    ensures
        r@ == "Failed to execute "@ + program@ + ": "@ + error@,
{
    cat4("Failed to execute ", program, ": ", error)
}

pub enum Message {
    StartTask,
    TaskProgress(String),
    TaskComplete,
    TaskError(String),
    Close,
}

/// What the dialog asks its runner to do after a message.
pub enum Action {
    Idle,
    /// Run this program with these arguments and report its transcript.
    RunTask(String, Vec<String>),
    CloseWindow,
}

pub struct MaintenanceDialog {
    task: MaintenanceTask,
    is_running: bool,
    is_complete: bool,
    has_error: bool,
    progress_text: String,
    terminal_output: String,
}

pub struct MaintenanceView {
    pub task: MaintenanceTask,
    pub is_running: bool,
    pub is_complete: bool,
    pub has_error: bool,
    pub progress_text: Seq<char>,
    pub terminal_output: Seq<char>,
}

impl View for MaintenanceDialog {
    type V = MaintenanceView;

    closed spec fn view(&self) -> MaintenanceView {
        MaintenanceView {
            task: self.task,
            is_running: self.is_running,
            is_complete: self.is_complete,
            has_error: self.has_error,
            progress_text: self.progress_text@,
            terminal_output: self.terminal_output@,
        }
    }
}

/// The maintenance dialog after a message.
pub open spec fn maintenance_next(s: MaintenanceView, m: Message) -> MaintenanceView {
    match m {
        Message::StartTask => MaintenanceView {
            is_running: true,
            terminal_output: Seq::empty(),
            ..s
        },
        Message::TaskProgress(out) => MaintenanceView {
            terminal_output: out@,
            is_running: false,
            is_complete: true,
            ..s
        },
        Message::TaskComplete => MaintenanceView { is_running: false, is_complete: true, ..s },
        Message::TaskError(e) => MaintenanceView {
            is_running: false,
            has_error: true,
            terminal_output: e@,
            ..s
        },
        Message::Close => s,
    }
}

/// What the maintenance dialog asks for after a message.
pub open spec fn maintenance_action_ok(s: MaintenanceView, m: Message, a: Action) -> bool {
    match m {
        Message::StartTask => a matches Action::RunTask(p, args) && p@ == task_program(s.task)
            && string_views(args@) == task_args(s.task),
        Message::Close => a is CloseWindow,
        _ => a is Idle,
    }
}

impl MaintenanceDialog {
    /// A dialog that runs `task`, shown as running from the start.
    pub fn new(task: MaintenanceTask) -> (r: Self)
        ensures
            r@ == (MaintenanceView {
                task,
                is_running: true,
                is_complete: false,
                has_error: false,
                progress_text: task_progress_text(task),
                terminal_output: Seq::empty(),
            }),
    {
        let progress_text = match task {
            MaintenanceTask::RebuildKernelModules => str_owned("Rebuilding kernel modules..."),
            MaintenanceTask::RegenerateInitramfs => str_owned("Regenerating initramfs..."),
            MaintenanceTask::RemoveOrphanedPackages => str_owned("Removing orphaned packages..."),
            MaintenanceTask::CleanPackageCache => str_owned("Cleaning package cache..."),
        };
        MaintenanceDialog {
            task,
            is_running: true,
            is_complete: false,
            has_error: false,
            progress_text,
            terminal_output: String::new(),
        }
    }

    pub fn get_task_title(&self) -> (r: &'static str)
        ensures
            r@ == task_title(self@.task),
    {
        match self.task {
            MaintenanceTask::RebuildKernelModules => "Rebuild Kernel Modules",
            MaintenanceTask::RegenerateInitramfs => "Regenerate Initramfs",
            MaintenanceTask::RemoveOrphanedPackages => "Remove Orphaned Packages",
            MaintenanceTask::CleanPackageCache => "Clean Package Cache",
        }
    }

    /// The program and arguments of the dialog's task.
    pub fn get_task_command(&self) -> (r: (String, Vec<String>))
        ensures
            r.0@ == task_program(self@.task),
            string_views(r.1@) == task_args(self@.task),
    {
        let mut args: Vec<String> = Vec::new();
        match self.task {
            MaintenanceTask::RebuildKernelModules => {
                args.push(str_owned("akmods"));
                args.push(str_owned("--force"));
                args.push(str_owned("--rebuild"));
            },
            MaintenanceTask::RegenerateInitramfs => {
                args.push(str_owned("dracut"));
                args.push(str_owned("-f"));
                args.push(str_owned("regenerate-all"));
            },
            MaintenanceTask::RemoveOrphanedPackages => {
                args.push(str_owned("dnf"));
                args.push(str_owned("autoremove"));
                args.push(str_owned("-y"));
                args.push(str_owned("--assumeyes"));
            },
            MaintenanceTask::CleanPackageCache => {
                args.push(str_owned("dnf"));
                args.push(str_owned("clean"));
                args.push(str_owned("all"));
            },
        }
        assert(string_views(args@) =~= task_args(self@.task));
        (str_owned("pkexec"), args)
    }

    pub fn title(&self) -> (r: String)
        ensures
            r@ == task_title(self@.task) + " - Rustora"@,
    {
        cat2(self.get_task_title(), " - Rustora")
    }

    /// Takes in a message and says what to do next.
    pub fn update(&mut self, message: Message) -> (a: Action)
        ensures
            final(self)@ == maintenance_next(old(self)@, message),
            maintenance_action_ok(old(self)@, message, a),
    {
        match message {
            Message::StartTask => {
                self.is_running = true;
                self.terminal_output = String::new();
                let (program, args) = self.get_task_command();
                Action::RunTask(program, args)
            },
            Message::TaskProgress(output) => {
                self.terminal_output = output;
                self.is_running = false;
                self.is_complete = true;
                Action::Idle
            },
            Message::TaskComplete => {
                self.is_running = false;
                self.is_complete = true;
                Action::Idle
            },
            Message::TaskError(error) => {
                self.is_running = false;
                self.has_error = true;
                self.terminal_output = error;
                Action::Idle
            },
            Message::Close => Action::CloseWindow,
        }
    }

    pub fn is_running(&self) -> (r: bool)
        ensures
            r == self@.is_running,
    {
        self.is_running
    }

    pub fn is_complete(&self) -> (r: bool)
        ensures
            r == self@.is_complete,
    {
        self.is_complete
    }

    pub fn has_error(&self) -> (r: bool)
        ensures
            r == self@.has_error,
    {
        self.has_error
    }

    pub fn progress_text(&self) -> (r: &str)
        ensures
            r@ == self@.progress_text,
    {
        self.progress_text.as_str()
    }

    pub fn terminal_output(&self) -> (r: &str)
        ensures
            r@ == self@.terminal_output,
    {
        self.terminal_output.as_str()
    }
}

/// Whatever message comes, the dialog keeps its task, and the command that a
/// start asks for is always that task's command.
pub proof fn maintenance_task_is_kept(s: MaintenanceView, m: Message, a: Action)
    requires
        maintenance_action_ok(s, m, a),
    ensures
        maintenance_next(s, m).task == s.task,
        a matches Action::RunTask(p, args) ==> p@ == task_program(s.task) && string_views(args@)
            == task_args(s.task),
{
}

/// An error report ends the run and is what the terminal shows.
pub proof fn maintenance_error_is_shown(s: MaintenanceView, e: String)
    ensures
        !maintenance_next(s, Message::TaskError(e)).is_running,
        maintenance_next(s, Message::TaskError(e)).has_error,
        maintenance_next(s, Message::TaskError(e)).terminal_output == e@,
{
}


/// Every task runs with elevated rights through `pkexec`, and each hands it
/// its tool's full command line: the module rebuild forces `akmods` to
/// rebuild every module, the initramfs task forces `dracut`, the orphan
/// removal answers yes to `dnf autoremove`, and the cache clean removes all
/// of dnf's caches.
pub proof fn maintenance_commands(t: MaintenanceTask)
    ensures
        task_program(t) == "pkexec"@,
        task_args(MaintenanceTask::RebuildKernelModules) == seq!["akmods"@, "--force"@, "--rebuild"@],
        task_args(MaintenanceTask::RegenerateInitramfs) == seq!["dracut"@, "-f"@, "regenerate-all"@],
        task_args(MaintenanceTask::RemoveOrphanedPackages) == seq![
            "dnf"@,
            "autoremove"@,
            "-y"@,
            "--assumeyes"@,
        ],
        task_args(MaintenanceTask::CleanPackageCache) == seq!["dnf"@, "clean"@, "all"@],
{
}

/// Rebuilding kernel modules runs the same forced `akmods` rebuild that
/// follows an NVIDIA driver install.
pub proof fn rebuild_matches_post_install()
    ensures
        task_args(MaintenanceTask::RebuildKernelModules) == tool_args(PostInstallTool::Akmods),
{
}

} // verus!
