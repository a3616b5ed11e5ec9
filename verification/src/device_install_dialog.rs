//! Installing or removing a device driver with a profile's script: the
//! transcript of the script, its outcome, the NVIDIA post-install steps, and
//! the dialog's state machine.
use vstd::prelude::*;
use crate::text::{
    after_newline, append_on_new_line, cat2, cat3, cat4, contains, decimal, lowercase,
    lowercase_contains, signed_decimal, str_owned, string_append, string_views, usize_text,
};
use crate::transcript::{exit_code_text, shown_code};

verus! {

/// The device that a driver profile is for.
pub struct DeviceInfo {
    pub vendor_name: String,
    pub device_name: String,
    pub driver: String,
    pub driver_version: String,
    pub bus_id: String,
    pub vendor_id: String,
    pub device_id: String,
    /// The repositories that will be enabled or used.
    pub repositories: Vec<String>,
}

/// Whether a device takes the NVIDIA post-install steps: its vendor is NVIDIA
/// (`10de`) or its driver's name, lowercased, mentions nvidia.
pub open spec fn is_nvidia(info: DeviceInfo) -> bool {
    info.vendor_id@ == "10de"@ || contains(lowercase(info.driver@), "nvidia"@)
}

pub fn is_nvidia_device(info: &DeviceInfo) -> (r: bool)
    ensures
        r == is_nvidia(*info),
{
    let v = crate::text::chars_of(info.vendor_id.as_str());
    let ten_de = crate::text::chars_of("10de");
    crate::text::same_text(&v, &ten_de) || lowercase_contains(info.driver.as_str(), "nvidia")
}

/// The word that the dialog uses for what it does.
pub open spec fn action_word(is_removal: bool) -> Seq<char> {
    if is_removal {
        "Removing"@
    } else {
        "Installing"@
    }
}

/// The name of the temporary script file, from the process id.
pub open spec fn script_file_name(is_removal: bool, pid: u32) -> Seq<char> {
    (if is_removal {
        "rustora_remove"@
    } else {
        "rustora_install"@
    }) + "_"@ + decimal(pid as nat) + ".sh"@
}

pub fn script_file_name_text(is_removal: bool, pid: u32) -> (r: String)
    ensures
        r@ == script_file_name(is_removal, pid),
{
    let n = usize_text(pid as usize);
    if is_removal {
        cat4("rustora_remove", "_", n.as_str(), ".sh")
    } else {
        cat4("rustora_install", "_", n.as_str(), ".sh")
    }
}

/// The transcript after a chunk read from the script's standard output (a
/// line with its line feed): an empty chunk adds nothing.
pub fn push_stdout_chunk(out: &mut String, chunk: &str)
    ensures
        final(out)@ == old(out)@ + chunk@,
{
    string_append(out, chunk);
}

/// The transcript after a chunk read from the script's standard error: it is
/// added after a `[stderr] ` tag, unless it is empty.
pub fn push_stderr_chunk(out: &mut String, chunk: &str)
    ensures
        final(out)@ == (if chunk@.len() == 0 {
            old(out)@
        } else {
            old(out)@ + "[stderr] "@ + chunk@
        }),
{
    if chunk.is_empty() {
        return;
    }
    let ghost before = out@;
    string_append(out, "[stderr] ");
    string_append(out, chunk);
    assert(out@ =~= before + "[stderr] "@ + chunk@);
}

/// The outcome of the script: its output, or a note that it went well where
/// it printed nothing; or, where it failed, the exit code with the output.
pub open spec fn script_outcome(success: bool, code: Option<i32>, is_removal: bool, output: Seq<
    char,
>) -> Result<Seq<char>, Seq<char>> {
    if success {
        Ok(
            if output.len() > 0 {
                output
            } else if is_removal {
                "Removal completed successfully."@
            } else {
                "Installation completed successfully."@
            },
        )
    } else {
        Err((if is_removal {
            "Removal"@
        } else {
            "Installation"@
        }) + " failed with exit code "@ + signed_decimal(shown_code(code)) + ". Output:\n"@
            + output)
    }
}

pub open spec fn same_outcome(r: Result<String, String>, s: Result<Seq<char>, Seq<char>>) -> bool {
    match (r, s) {
        (Ok(a), Ok(b)) => a@ == b,
        (Err(a), Err(b)) => a@ == b,
        _ => false,
    }
}

pub fn script_outcome_text(success: bool, code: Option<i32>, is_removal: bool, output: &str) -> (r:
    Result<String, String>)
    ensures
        same_outcome(r, script_outcome(success, code, is_removal, output@)),
{
    if success {
        if !output.is_empty() {
            Ok(str_owned(output))
        } else if is_removal {
            Ok(str_owned("Removal completed successfully."))
        } else {
            Ok(str_owned("Installation completed successfully."))
        }
    } else {
        let c = exit_code_text(code);
        let mut m = if is_removal {
            cat3("Removal", " failed with exit code ", c.as_str())
        } else {
            cat3("Installation", " failed with exit code ", c.as_str())
        };
        string_append(&mut m, ". Output:\n");
        string_append(&mut m, output);
        Err(m)
    }
}

/// The two commands that follow an NVIDIA driver install.
#[derive(Clone, Copy, Debug, PartialEq, Eq, Structural)]
pub enum PostInstallTool {
    /// `akmods --force --rebuild`
    Akmods,
    /// `dracut -f --regenerate-all`
    Dracut,
}

pub open spec fn tool_args(t: PostInstallTool) -> Seq<Seq<char>> {
    match t {
        PostInstallTool::Akmods => seq!["akmods"@, "--force"@, "--rebuild"@],
        PostInstallTool::Dracut => seq!["dracut"@, "-f"@, "--regenerate-all"@],
    }
}

/// The program that a post-install command runs.
pub open spec fn tool_name(t: PostInstallTool) -> Seq<char> {
    match t {
        PostInstallTool::Akmods => "akmods"@,
        PostInstallTool::Dracut => "dracut"@,
    }
}

impl PostInstallTool {
    /// The command line that is run with elevated rights: the program and
    /// its arguments.
    pub fn args(&self) -> (r: Vec<String>)
        ensures
            string_views(r@) == tool_args(*self),
    {
        let mut v: Vec<String> = Vec::new();
        match self {
            PostInstallTool::Akmods => {
                v.push(str_owned("akmods"));
                v.push(str_owned("--force"));
                v.push(str_owned("--rebuild"));
            },
            PostInstallTool::Dracut => {
                v.push(str_owned("dracut"));
                v.push(str_owned("-f"));
                v.push(str_owned("--regenerate-all"));
            },
        }
        assert(string_views(v@) =~= tool_args(*self));
        v
    }

    /// The program's name.
    pub fn name(&self) -> (r: String)
        ensures
            r@ == tool_name(*self),
    {
        match self {
            PostInstallTool::Akmods => str_owned("akmods"),
            PostInstallTool::Dracut => str_owned("dracut"),
        }
    }

    /// The error when the command could not be started.
    pub fn start_error(&self, error: &str) -> (r: String)
        ensures
            r@ == "Failed to start "@ + tool_name(*self) + ": "@ + error@,
    {
        match self {
            PostInstallTool::Akmods => cat4("Failed to start ", "akmods", ": ", error),
            PostInstallTool::Dracut => cat4("Failed to start ", "dracut", ": ", error),
        }
    }
}

/// The outcome of a post-install command.
pub open spec fn tool_outcome(t: PostInstallTool, success: bool, code: Option<i32>, output: Seq<
    char,
>) -> Result<Seq<char>, Seq<char>> {
    let (name, line) = match t {
        PostInstallTool::Akmods => ("akmods"@, "akmods --force --rebuild"@),
        PostInstallTool::Dracut => ("dracut"@, "dracut -f --regenerate-all"@),
    };
    if success {
        Ok(
            if output.len() > 0 {
                output
            } else {
                line + " completed successfully."@
            },
        )
    } else {
        Err(name + " failed with exit code "@ + signed_decimal(shown_code(code)) + ". Output:\n"@
            + output)
    }
}

pub fn tool_outcome_text(t: PostInstallTool, success: bool, code: Option<i32>, output: &str) -> (r:
    Result<String, String>)
    ensures
        same_outcome(r, tool_outcome(t, success, code, output@)),
{
    let (name, line) = match t {
        PostInstallTool::Akmods => ("akmods", "akmods --force --rebuild"),
        PostInstallTool::Dracut => ("dracut", "dracut -f --regenerate-all"),
    };
    if success {
        if !output.is_empty() {
            Ok(str_owned(output))
        } else {
            Ok(cat2(line, " completed successfully."))
        }
    } else {
        let c = exit_code_text(code);
        let mut m = cat3(name, " failed with exit code ", c.as_str());
        string_append(&mut m, ". Output:\n");
        string_append(&mut m, output);
        Err(m)
    }
}

pub enum Message {
    StartInstallation,
    InstallationProgress(String),
    InstallationComplete,
    InstallationError(String),
    PostInstallProgress(String),
    PostInstallComplete,
    PostInstallError(String),
    Close,
}

/// What the dialog asks its runner to do after a message.
pub enum Action {
    Idle,
    /// Run this script, as an install or a removal, and report its outcome.
    RunScript(String, bool),
    /// Run this post-install command and report its outcome.
    RunTool(PostInstallTool),
    CloseWindow,
}

pub struct DeviceInstallDialog {
    profile_name: String,
    install_script: String,
    device_info: DeviceInfo,
    is_removal: bool,
    is_running: bool,
    is_complete: bool,
    has_error: bool,
    is_post_install: bool,
    post_install_complete: bool,
    progress_text: String,
    terminal_output: String,
    post_install_output: String,
}

pub struct DeviceView {
    pub profile_name: Seq<char>,
    pub install_script: Seq<char>,
    pub device_info: DeviceInfo,
    pub is_removal: bool,
    pub is_running: bool,
    pub is_complete: bool,
    pub has_error: bool,
    pub is_post_install: bool,
    pub post_install_complete: bool,
    pub progress_text: Seq<char>,
    pub terminal_output: Seq<char>,
    pub post_install_output: Seq<char>,
}

impl View for DeviceInstallDialog {
    type V = DeviceView;

    closed spec fn view(&self) -> DeviceView {
        DeviceView {
            profile_name: self.profile_name@,
            install_script: self.install_script@,
            device_info: self.device_info,
            is_removal: self.is_removal,
            is_running: self.is_running,
            is_complete: self.is_complete,
            has_error: self.has_error,
            is_post_install: self.is_post_install,
            post_install_complete: self.post_install_complete,
            progress_text: self.progress_text@,
            terminal_output: self.terminal_output@,
            post_install_output: self.post_install_output@,
        }
    }
}

/// Whether a finished script is followed by the NVIDIA post-install steps:
/// only after an install, never after a removal.
pub open spec fn takes_post_install(s: DeviceView) -> bool {
    !s.is_removal && is_nvidia(s.device_info)
}

/// The device dialog after a message.
pub open spec fn device_next(s: DeviceView, m: Message) -> DeviceView {
    match m {
        Message::StartInstallation => DeviceView {
            is_running: true,
            terminal_output: Seq::empty(),
            ..s
        },
        Message::InstallationProgress(out) => {
            let done = DeviceView {
                terminal_output: out@,
                is_running: false,
                is_complete: true,
                ..s
            };
            if takes_post_install(s) {
                DeviceView {
                    is_post_install: true,
                    progress_text: "Rebuilding kernel modules..."@,
                    ..done
                }
            } else {
                done
            }
        },
        Message::InstallationComplete => DeviceView { is_running: false, is_complete: true, ..s },
        Message::InstallationError(e) => DeviceView {
            is_running: false,
            has_error: true,
            terminal_output: after_newline(s.terminal_output, "Error: "@ + e@),
            ..s
        },
        Message::PostInstallProgress(out) => DeviceView {
            post_install_output: out@,
            progress_text: "Regenerating initramfs..."@,
            ..s
        },
        Message::PostInstallComplete => DeviceView {
            is_post_install: false,
            post_install_complete: true,
            progress_text: "All post-installation steps completed successfully!"@,
            ..s
        },
        Message::PostInstallError(e) => DeviceView {
            is_post_install: false,
            has_error: true,
            post_install_output: after_newline(s.post_install_output, "Error: "@ + e@),
            ..s
        },
        Message::Close => s,
    }
}

/// What the device dialog asks for after a message.
pub open spec fn device_action_ok(s: DeviceView, m: Message, a: Action) -> bool {
    match m {
        Message::StartInstallation => a matches Action::RunScript(script, removal) && script@
            == s.install_script && removal == s.is_removal,
        Message::InstallationProgress(_) => if takes_post_install(s) {
            a matches Action::RunTool(PostInstallTool::Akmods)
        } else {
            a is Idle
        },
        Message::PostInstallProgress(_) => a matches Action::RunTool(PostInstallTool::Dracut),
        Message::Close => a is CloseWindow,
        _ => a is Idle,
    }
}

impl DeviceInstallDialog {
    /// A dialog that runs `install_script` for a driver profile, shown as
    /// running from the start.
    pub fn new(profile_name: String, install_script: String, device_info: DeviceInfo, is_removal: bool) -> (r: Self)
        ensures
            r@ == (DeviceView {
                profile_name: profile_name@,
                install_script: install_script@,
                device_info,
                is_removal,
                is_running: true,
                is_complete: false,
                has_error: false,
                is_post_install: false,
                post_install_complete: false,
                progress_text: action_word(is_removal) + " driver: "@ + profile_name@ + "..."@,
                terminal_output: Seq::empty(),
                post_install_output: Seq::empty(),
            }),
    {
        let word = if is_removal {
            "Removing"
        } else {
            "Installing"
        };
        let progress_text = cat4(word, " driver: ", profile_name.as_str(), "...");
        DeviceInstallDialog {
            profile_name,
            install_script,
            device_info,
            is_removal,
            is_running: true,
            is_complete: false,
            has_error: false,
            is_post_install: false,
            post_install_complete: false,
            progress_text,
            terminal_output: String::new(),
            post_install_output: String::new(),
        }
    }

    pub fn title(&self) -> (r: String)
        ensures
            r@ == action_word(self@.is_removal) + " Driver: "@ + self@.profile_name + " - Rustora"@,
    {
        let word = if self.is_removal {
            "Removing"
        } else {
            "Installing"
        };
        cat4(word, " Driver: ", self.profile_name.as_str(), " - Rustora")
    }

    /// Takes in a message and says what to do next.
    pub fn update(&mut self, message: Message) -> (a: Action)
        ensures
            final(self)@ == device_next(old(self)@, message),
            device_action_ok(old(self)@, message, a),
    {
        match message {
            Message::StartInstallation => {
                self.is_running = true;
                self.terminal_output = String::new();
                Action::RunScript(str_owned(self.install_script.as_str()), self.is_removal)
            },
            Message::InstallationProgress(output) => {
                self.terminal_output = output;
                self.is_running = false;
                self.is_complete = true;
                if !self.is_removal && is_nvidia_device(&self.device_info) {
                    self.is_post_install = true;
                    self.progress_text = str_owned("Rebuilding kernel modules...");
                    Action::RunTool(PostInstallTool::Akmods)
                } else {
                    Action::Idle
                }
            },
            Message::InstallationComplete => {
                self.is_running = false;
                self.is_complete = true;
                Action::Idle
            },
            Message::InstallationError(error) => {
                self.is_running = false;
                self.has_error = true;
                let e = cat2("Error: ", error.as_str());
                append_on_new_line(&mut self.terminal_output, e.as_str());
                Action::Idle
            },
            Message::PostInstallProgress(output) => {
                self.post_install_output = output;
                self.progress_text = str_owned("Regenerating initramfs...");
                Action::RunTool(PostInstallTool::Dracut)
            },
            Message::PostInstallComplete => {
                self.is_post_install = false;
                self.post_install_complete = true;
                self.progress_text = str_owned(
                    "All post-installation steps completed successfully!",
                );
                Action::Idle
            },
            Message::PostInstallError(error) => {
                self.is_post_install = false;
                self.has_error = true;
                let e = cat2("Error: ", error.as_str());
                append_on_new_line(&mut self.post_install_output, e.as_str());
                Action::Idle
            },
            Message::Close => Action::CloseWindow,
        }
    }

    pub fn device_info(&self) -> (r: &DeviceInfo)
        ensures
            *r == self@.device_info,
    {
        &self.device_info
    }

    pub fn is_removal(&self) -> (r: bool)
        ensures
            r == self@.is_removal,
    {
        self.is_removal
    }

    pub fn is_running(&self) -> (r: bool)
        ensures
            r == self@.is_running,
    {
        self.is_running
    }

    pub fn is_complete(&self) -> (r: bool)
        ensures
            r == self@.is_complete,
    {
        self.is_complete
    }

    pub fn has_error(&self) -> (r: bool)
        ensures
            r == self@.has_error,
    {
        self.has_error
    }

    pub fn is_post_install(&self) -> (r: bool)
        ensures
            r == self@.is_post_install,
    {
        self.is_post_install
    }

    pub fn post_install_complete(&self) -> (r: bool)
        ensures
            r == self@.post_install_complete,
    {
        self.post_install_complete
    }

    pub fn progress_text(&self) -> (r: &str)
        ensures
            r@ == self@.progress_text,
    {
        self.progress_text.as_str()
    }

    pub fn terminal_output(&self) -> (r: &str)
        ensures
            r@ == self@.terminal_output,
    {
        self.terminal_output.as_str()
    }

    pub fn post_install_output(&self) -> (r: &str)
        ensures
            r@ == self@.post_install_output,
    {
        self.post_install_output.as_str()
    }

    /// Which screen the dialog shows.
    pub fn screen(&self) -> (r: DeviceScreen)
        ensures
            r == device_screen(self@),
    {
        if self.is_running || self.is_post_install {
            DeviceScreen::Running
        } else if self.has_error {
            DeviceScreen::Failed
        } else {
            DeviceScreen::Succeeded
        }
    }

    /// Whether the dialog offers its Close button.
    pub fn offers_close(&self) -> (r: bool)
        ensures
            r == offers_close(self@),
            r == !(self@.is_running || self@.is_post_install),
    {
        !(self.is_running || self.is_post_install)
    }

    /// The output that the dialog shows.
    pub fn shown_output(&self) -> (r: String)
        ensures
            r@ == shown_output(self@),
    {
        let both = if self.is_running || self.is_post_install {
            self.is_post_install
        } else if self.has_error {
            false
        } else {
            self.post_install_complete
        };
        if !both {
            return str_owned(self.terminal_output.as_str());
        }
        let mut t = str_owned(self.terminal_output.as_str());
        if !self.terminal_output.as_str().is_empty() && !self.post_install_output.as_str().is_empty() {
            string_append(&mut t, "\n\n=== Post-Installation Steps ===\n");
        }
        string_append(&mut t, self.post_install_output.as_str());
        t
    }

    /// The heading of the dialog.
    pub fn heading(&self) -> (r: String)
        ensures
            r@ == device_heading(self@),
    {
        if self.is_running || self.is_post_install {
            if self.is_post_install {
                str_owned("Post-Installation Steps")
            } else if self.is_removal {
                str_owned("Removing Driver")
            } else {
                str_owned("Installing Driver")
            }
        } else if self.has_error {
            if self.is_removal {
                str_owned("Removal Failed")
            } else {
                str_owned("Installation Failed")
            }
        } else if self.post_install_complete {
            str_owned("Installation and Post-Installation Complete")
        } else if self.is_removal {
            str_owned("Removal Complete")
        } else {
            str_owned("Installation Complete")
        }
    }

    /// The label above the output.
    pub fn output_label(&self) -> (r: String)
        ensures
            r@ == device_output_label(self@),
    {
        if self.is_running || self.is_post_install {
            if self.is_post_install {
                str_owned("Post-Installation Output:")
            } else if self.is_removal {
                str_owned("Removing Output:")
            } else {
                str_owned("Installing Output:")
            }
        } else if self.has_error {
            str_owned("Error Output:")
        } else if self.is_removal {
            str_owned("Removal Output:")
        } else {
            str_owned("Installation Output:")
        }
    }

    /// The message of the success screen, when that screen is shown.
    pub fn success_message(&self) -> (r: Option<String>)
        ensures
            match (r, device_success_message(self@)) {
                (Some(t), Some(u)) => t@ == u,
                (None, None) => true,
                _ => false,
            },
    {
        if self.is_running || self.is_post_install || self.has_error {
            None
        } else if self.post_install_complete {
            Some(str_owned("All post-installation steps completed successfully!"))
        } else if self.is_removal {
            Some(str_owned("Removal completed successfully."))
        } else {
            Some(str_owned("Installation completed successfully."))
        }
    }
}

/// The screens of the dialog.
#[derive(Clone, Copy, Debug, PartialEq, Eq, Structural)]
pub enum DeviceScreen {
    /// The script or the post-install steps are running; no Close button.
    Running,
    /// The run failed; the error output and a Close button.
    Failed,
    /// The run ended well; the output and a Close button.
    Succeeded,
}

pub open spec fn device_screen(s: DeviceView) -> DeviceScreen {
    if s.is_running || s.is_post_install {
        DeviceScreen::Running
    } else if s.has_error {
        DeviceScreen::Failed
    } else {
        DeviceScreen::Succeeded
    }
}

/// The Close button is offered on the failed and the finished screens only.
pub open spec fn offers_close(s: DeviceView) -> bool {
    device_screen(s) != DeviceScreen::Running
}

/// The install output followed by the post-install output, with a separating
/// line where both hold text.
pub open spec fn combined_output(t: Seq<char>, p: Seq<char>) -> Seq<char> {
    if t.len() > 0 && p.len() > 0 {
        t + "\n\n=== Post-Installation Steps ===\n"@ + p
    } else {
        t + p
    }
}

/// The output shown: while running, in an error and after success; the
/// post-install output joins it during the post-install steps and after them.
pub open spec fn shown_output(s: DeviceView) -> Seq<char> {
    let both = if s.is_running || s.is_post_install {
        s.is_post_install
    } else if s.has_error {
        false
    } else {
        s.post_install_complete
    };
    if both {
        combined_output(s.terminal_output, s.post_install_output)
    } else {
        s.terminal_output
    }
}

/// The heading of the running, failed or finished screen.
pub open spec fn device_heading(s: DeviceView) -> Seq<char> {
    if s.is_running || s.is_post_install {
        if s.is_post_install {
            "Post-Installation Steps"@
        } else if s.is_removal {
            "Removing Driver"@
        } else {
            "Installing Driver"@
        }
    } else if s.has_error {
        if s.is_removal {
            "Removal Failed"@
        } else {
            "Installation Failed"@
        }
    } else if s.post_install_complete {
        "Installation and Post-Installation Complete"@
    } else if s.is_removal {
        "Removal Complete"@
    } else {
        "Installation Complete"@
    }
}

/// The label above the output.
pub open spec fn device_output_label(s: DeviceView) -> Seq<char> {
    if s.is_running || s.is_post_install {
        if s.is_post_install {
            "Post-Installation Output:"@
        } else if s.is_removal {
            "Removing Output:"@
        } else {
            "Installing Output:"@
        }
    } else if s.has_error {
        "Error Output:"@
    } else if s.is_removal {
        "Removal Output:"@
    } else {
        "Installation Output:"@
    }
}

/// The message of the success screen; none on the other screens.
pub open spec fn device_success_message(s: DeviceView) -> Option<Seq<char>> {
    if s.is_running || s.is_post_install || s.has_error {
        None
    } else if s.post_install_complete {
        Some("All post-installation steps completed successfully!"@)
    } else if s.is_removal {
        Some("Removal completed successfully."@)
    } else {
        Some("Installation completed successfully."@)
    }
}

/// A removal never runs the post-install steps, whatever the device.
pub proof fn removal_skips_post_install(s: DeviceView, out: String, a: Action)
    requires
        s.is_removal,
        device_action_ok(s, Message::InstallationProgress(out), a),
    ensures
        a is Idle,
        !device_next(s, Message::InstallationProgress(out)).is_post_install || s.is_post_install,
{
}

/// An error keeps what the terminal showed before it and adds the error.
pub proof fn device_error_keeps_output(s: DeviceView, e: String)
    ensures
        s.terminal_output.is_prefix_of(
            device_next(s, Message::InstallationError(e)).terminal_output,
        ),
        device_next(s, Message::InstallationError(e)).has_error,
{
    let t = device_next(s, Message::InstallationError(e)).terminal_output;
    assert(t.subrange(0, s.terminal_output.len() as int) =~= s.terminal_output);
}

} // verus!
