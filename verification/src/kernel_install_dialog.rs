//! Installing a kernel with its headers: the three commands that the install
//! runs one after the other, the transcript it keeps, and the dialog's state
//! machine.
use vstd::prelude::*;
use crate::text::{cat2, cat3, chars_of, replace_all, replace_all_vec, signed_decimal, str_owned, string_append, string_of, string_views};
use crate::transcript::{exit_code_text, push_line, read_error, read_error_text, shown_code, RunAction, RunEvent};

verus! {

/// The package of a kernel's headers: its name with `kernel-` changed into
/// `kernel-headers-`.
pub open spec fn headers_name(kernel: Seq<char>) -> Seq<char> {
    replace_all(kernel, "kernel-"@, "kernel-headers-"@)
}

pub fn headers_name_text(kernel: &str) -> (r: String)
    ensures
        r@ == headers_name(kernel@),
{
    let v = chars_of(kernel);
    proof {
        reveal_strlit("kernel-");
    }
    let h = replace_all_vec(&v, "kernel-", "kernel-headers-");
    string_of(&h)
}

/// Which command of the install is running.
#[derive(Clone, Copy, Debug, PartialEq, Eq, Structural)]
pub enum KernelStep {
    Kernel,
    Headers,
    Grub,
    Done,
}

/// The arguments that `pkexec` gets to install a package.
pub open spec fn dnf_install_args(package: Seq<char>) -> Seq<Seq<char>> {
    seq!["dnf"@, "install"@, "-y"@, "--assumeyes"@, package]
}

pub open spec fn grub_args() -> Seq<Seq<char>> {
    seq!["grub2-mkconfig"@, "-o"@, "/boot/grub2/grub.cfg"@]
}

/// The state of an install: the kernel, the running command, the transcript.
pub struct KernelRunView {
    pub kernel_name: Seq<char>,
    pub step: KernelStep,
    pub output: Seq<char>,
}

pub open spec fn kernel_run_start(kernel: Seq<char>) -> KernelRunView {
    KernelRunView {
        kernel_name: kernel,
        step: KernelStep::Kernel,
        output: "$ Installing kernel: "@ + kernel + "\n"@
            + "--- Step 1: Installing kernel package ---\n"@,
    }
}

/// The text that starts the headers step.
pub open spec fn headers_intro(kernel: Seq<char>) -> Seq<char> {
    "\n--- Step 2: Installing kernel headers ---\n"@ + "$ Installing headers: "@ + headers_name(
        kernel,
    ) + "\n"@
}

pub open spec fn grub_intro() -> Seq<char> {
    "\n--- Step 3: Rebuilding GRUB configuration ---\n"@ + "$ Rebuilding GRUB configuration...\n"@
}

/// The note on a failed headers install.
pub open spec fn headers_warning(code: Option<i32>) -> Seq<char> {
    "Warning: Headers installation failed (exit code: "@ + signed_decimal(shown_code(code))
        + "), but kernel is installed.\n"@
}

/// The note on how the GRUB rebuild went.
pub open spec fn grub_note(success: bool, code: Option<i32>) -> Seq<char> {
    if success {
        "GRUB configuration rebuilt successfully.\n"@
    } else {
        "Warning: GRUB rebuild failed (exit code: "@ + signed_decimal(shown_code(code))
            + "), but kernel is installed.\n"@
    }
}

/// The error of a command that could not be started.
pub open spec fn kernel_spawn_error(step: KernelStep, error: Seq<char>) -> Seq<char> {
    if step is Grub {
        "Failed to execute grub2-mkconfig: "@ + error
    } else {
        "Failed to execute dnf install: "@ + error
    }
}

/// The install after an event.
pub open spec fn kernel_run_next(s: KernelRunView, ev: RunEvent) -> KernelRunView {
    if s.step is Done {
        s
    } else {
        match ev {
            RunEvent::Line(l) => KernelRunView { output: s.output + l@ + seq!['\n'], ..s },
            RunEvent::ReadFailed(st, e) => KernelRunView {
                step: KernelStep::Done,
                output: s.output + read_error(st, e@) + seq!['\n'],
                ..s
            },
            RunEvent::SpawnFailed(_) => KernelRunView { step: KernelStep::Done, ..s },
            RunEvent::WaitFailed(_) => KernelRunView { step: KernelStep::Done, ..s },
            RunEvent::Exited(ok, code) => match s.step {
                KernelStep::Kernel => if ok {
                    KernelRunView {
                        step: KernelStep::Headers,
                        output: s.output + headers_intro(s.kernel_name),
                        ..s
                    }
                } else {
                    KernelRunView { step: KernelStep::Done, ..s }
                },
                KernelStep::Headers => KernelRunView {
                    step: KernelStep::Grub,
                    output: if ok {
                        s.output + grub_intro()
                    } else {
                        s.output + headers_warning(code) + grub_intro()
                    },
                    ..s
                },
                _ => KernelRunView {
                    step: KernelStep::Done,
                    output: s.output + grub_note(ok, code),
                    ..s
                },
            },
        }
    }
}

/// What the install asks for after an event.
pub open spec fn kernel_action_ok(s: KernelRunView, ev: RunEvent, a: RunAction) -> bool {
    if s.step is Done {
        a is Continue
    } else {
        match ev {
            RunEvent::Line(_) => a is Continue,
            RunEvent::ReadFailed(st, e) => a matches RunAction::Finish(Err(m)) && m@ == read_error(
                st,
                e@,
            ),
            RunEvent::SpawnFailed(e) => a matches RunAction::Finish(Err(m)) && m@
                == kernel_spawn_error(s.step, e@),
            RunEvent::WaitFailed(e) => a matches RunAction::Finish(Err(m)) && m@
                == "Failed to wait for process: "@ + e@,
            RunEvent::Exited(ok, code) => match s.step {
                KernelStep::Kernel => if ok {
                    a matches RunAction::Run(p, args) && p@ == "pkexec"@ && string_views(args@)
                        == dnf_install_args(headers_name(s.kernel_name))
                } else {
                    a matches RunAction::Finish(Err(m)) && m@
                        == "Kernel installation failed (exit code: "@ + signed_decimal(
                        shown_code(code),
                    ) + "):\n"@ + s.output
                },
                KernelStep::Headers => a matches RunAction::Run(p, args) && p@ == "pkexec"@
                    && string_views(args@) == grub_args(),
                _ => a matches RunAction::Finish(Ok(m)) && m@ == "Kernel "@ + s.kernel_name
                    + " installed successfully!\n\n"@ + s.output + grub_note(ok, code),
            },
        }
    }
}

/// A kernel install in progress.
pub struct KernelInstall {
    kernel_name: String,
    step: KernelStep,
    output: String,
}

impl View for KernelInstall {
    type V = KernelRunView;

    closed spec fn view(&self) -> KernelRunView {
        KernelRunView { kernel_name: self.kernel_name@, step: self.step, output: self.output@ }
    }
}

fn pkexec_args(items: Vec<&str>) -> (r: Vec<String>)
    ensures
        r@.len() == items@.len(),
        forall|i: int| 0 <= i < items@.len() ==> #[trigger] r@[i]@ == items@[i]@,
{
    let mut r: Vec<String> = Vec::new();
    let mut i: usize = 0;
    while i < items.len()
        invariant
            i <= items.len(),
            r@.len() == i,
            forall|j: int| 0 <= j < i ==> #[trigger] r@[j]@ == items@[j]@,
        decreases items.len() - i,
    {
        r.push(str_owned(items[i]));
        i += 1;
    }
    r
}

fn dnf_install_command(package: &str) -> (r: RunAction)
    ensures
        r matches RunAction::Run(p, args) && p@ == "pkexec"@ && string_views(args@)
            == dnf_install_args(package@),
{
    let args = pkexec_args(vec!["dnf", "install", "-y", "--assumeyes", package]);
    assert(string_views(args@) =~= dnf_install_args(package@));
    RunAction::Run(str_owned("pkexec"), args)
}

impl KernelInstall {
    /// Starts installing `kernel_name`: the first command installs the kernel.
    pub fn start(kernel_name: &str) -> (r: (KernelInstall, RunAction))
        ensures
            r.0@ == kernel_run_start(kernel_name@),
            r.1 matches RunAction::Run(p, args) && p@ == "pkexec"@ && string_views(args@)
                == dnf_install_args(kernel_name@),
    {
        let mut output = cat3("$ Installing kernel: ", kernel_name, "\n");
        string_append(&mut output, "--- Step 1: Installing kernel package ---\n");
        let run = KernelInstall { kernel_name: str_owned(kernel_name), step: KernelStep::Kernel, output };
        (run, dnf_install_command(kernel_name))
    }

    /// Takes in what happened to the running command and says what to do next.
    pub fn on_event(&mut self, ev: RunEvent) -> (a: RunAction)
        ensures
            final(self)@ == kernel_run_next(old(self)@, ev),
            kernel_action_ok(old(self)@, ev, a),
    {
        if let KernelStep::Done = self.step {
            return RunAction::Continue;
        }
        match ev {
            RunEvent::Line(l) => {
                push_line(&mut self.output, l.as_str());
                RunAction::Continue
            },
            RunEvent::ReadFailed(st, e) => {
                let msg = read_error_text(st, e.as_str());
                push_line(&mut self.output, msg.as_str());
                self.step = KernelStep::Done;
                RunAction::Finish(Err(msg))
            },
            RunEvent::SpawnFailed(e) => {
                let msg = if let KernelStep::Grub = self.step {
                    cat2("Failed to execute grub2-mkconfig: ", e.as_str())
                } else {
                    cat2("Failed to execute dnf install: ", e.as_str())
                };
                self.step = KernelStep::Done;
                RunAction::Finish(Err(msg))
            },
            RunEvent::WaitFailed(e) => {
                self.step = KernelStep::Done;
                RunAction::Finish(Err(cat2("Failed to wait for process: ", e.as_str())))
            },
            RunEvent::Exited(ok, code) => match self.step {
                KernelStep::Kernel => {
                    let ghost before = self.output@;
                    if ok {
                        let h = headers_name_text(self.kernel_name.as_str());
                        string_append(&mut self.output, "\n--- Step 2: Installing kernel headers ---\n");
                        string_append(&mut self.output, "$ Installing headers: ");
                        string_append(&mut self.output, h.as_str());
                        string_append(&mut self.output, "\n");
                        assert(self.output@ =~= before + headers_intro(self.kernel_name@));
                        self.step = KernelStep::Headers;
                        dnf_install_command(h.as_str())
                    } else {
                        let c = exit_code_text(code);
                        let mut msg = cat3("Kernel installation failed (exit code: ", c.as_str(), "):\n");
                        string_append(&mut msg, self.output.as_str());
                        self.step = KernelStep::Done;
                        RunAction::Finish(Err(msg))
                    }
                },
                KernelStep::Headers => {
                    let ghost before = self.output@;
                    if !ok {
                        let c = exit_code_text(code);
                        string_append(&mut self.output, "Warning: Headers installation failed (exit code: ");
                        string_append(&mut self.output, c.as_str());
                        string_append(&mut self.output, "), but kernel is installed.\n");
                    }
                    string_append(&mut self.output, "\n--- Step 3: Rebuilding GRUB configuration ---\n");
                    string_append(&mut self.output, "$ Rebuilding GRUB configuration...\n");
                    assert(self.output@ =~= (if ok {
                        before + grub_intro()
                    } else {
                        before + headers_warning(code) + grub_intro()
                    }));
                    self.step = KernelStep::Grub;
                    let args = pkexec_args(vec!["grub2-mkconfig", "-o", "/boot/grub2/grub.cfg"]);
                    assert(string_views(args@) =~= grub_args());
                    RunAction::Run(str_owned("pkexec"), args)
                },
                _ => {
                    let ghost before = self.output@;
                    if ok {
                        string_append(&mut self.output, "GRUB configuration rebuilt successfully.\n");
                    } else {
                        let c = exit_code_text(code);
                        string_append(&mut self.output, "Warning: GRUB rebuild failed (exit code: ");
                        string_append(&mut self.output, c.as_str());
                        string_append(&mut self.output, "), but kernel is installed.\n");
                    }
                    assert(self.output@ =~= before + grub_note(ok, code));
                    self.step = KernelStep::Done;
                    let mut msg = cat3("Kernel ", self.kernel_name.as_str(), " installed successfully!\n\n");
                    string_append(&mut msg, self.output.as_str());
                    assert(msg@ =~= "Kernel "@ + self.kernel_name@ + " installed successfully!\n\n"@
                        + before + grub_note(ok, code));
                    RunAction::Finish(Ok(msg))
                },
            },
        }
    }

    pub fn is_done(&self) -> (r: bool)
        ensures
            r == (self@.step is Done),
    {
        if let KernelStep::Done = self.step {
            true
        } else {
            false
        }
    }
}

/// Once the kernel itself is installed, a failed headers install or GRUB
/// rebuild only adds a warning: the install goes on, and ends in success.
pub proof fn kernel_later_failures_are_warnings(s: KernelRunView, code: Option<i32>, a: RunAction)
    requires
        s.step is Headers || s.step is Grub,
        kernel_action_ok(s, RunEvent::Exited(false, code), a),
    ensures
        !(a matches RunAction::Finish(Err(_))),
        s.step is Headers ==> a is Run,
        s.step is Grub ==> a matches RunAction::Finish(Ok(_)),
{
}

/// The transcript only grows: no event takes back what it already holds.
pub proof fn kernel_transcript_grows(s: KernelRunView, ev: RunEvent)
    ensures
        s.output.is_prefix_of(kernel_run_next(s, ev).output),
        kernel_run_next(s, ev).kernel_name == s.kernel_name,
{
    let n = kernel_run_next(s, ev);
    assert(n.output.subrange(0, s.output.len() as int) =~= s.output);
}

/// A failed kernel install stops the run with the transcript in its error,
/// and nothing more is run.
pub proof fn kernel_failure_stops(s: KernelRunView, code: Option<i32>, a: RunAction)
    requires
        s.step is Kernel,
        kernel_action_ok(s, RunEvent::Exited(false, code), a),
    ensures
        kernel_run_next(s, RunEvent::Exited(false, code)).step is Done,
        a matches RunAction::Finish(Err(m)) && s.output.is_suffix_of(m@),
{
    if let RunAction::Finish(Err(m)) = a {
        let p = "Kernel installation failed (exit code: "@ + signed_decimal(shown_code(code))
            + "):\n"@;
        assert(m@ == p + s.output);
        assert(m@.subrange(m@.len() - s.output.len(), m@.len() as int) =~= s.output);
    }
}

pub enum Message {
    StartTask,
    TaskProgress(String),
    TaskError(String),
    Close,
}

/// What the dialog asks its runner to do after a message.
pub enum Action {
    Idle,
    /// Install this kernel with its headers and report the transcript.
    InstallKernel(String),
    CloseWindow,
}

pub struct KernelInstallDialog {
    kernel_name: String,
    is_running: bool,
    is_complete: bool,
    has_error: bool,
    progress_text: String,
    terminal_output: String,
}

pub struct KernelDialogView {
    pub kernel_name: Seq<char>,
    pub is_running: bool,
    pub is_complete: bool,
    pub has_error: bool,
    pub progress_text: Seq<char>,
    pub terminal_output: Seq<char>,
}

impl View for KernelInstallDialog {
    type V = KernelDialogView;

    closed spec fn view(&self) -> KernelDialogView {
        KernelDialogView {
            kernel_name: self.kernel_name@,
            is_running: self.is_running,
            is_complete: self.is_complete,
            has_error: self.has_error,
            progress_text: self.progress_text@,
            terminal_output: self.terminal_output@,
        }
    }
}

pub open spec fn kernel_dialog_next(s: KernelDialogView, m: Message) -> KernelDialogView {
    match m {
        Message::StartTask => KernelDialogView {
            is_running: true,
            terminal_output: Seq::empty(),
            ..s
        },
        Message::TaskProgress(out) => KernelDialogView {
            terminal_output: out@,
            is_running: false,
            is_complete: true,
            ..s
        },
        Message::TaskError(e) => KernelDialogView {
            is_running: false,
            has_error: true,
            terminal_output: e@,
            ..s
        },
        Message::Close => s,
    }
}

pub open spec fn kernel_dialog_action_ok(s: KernelDialogView, m: Message, a: Action) -> bool {
    match m {
        Message::StartTask => a matches Action::InstallKernel(k) && k@ == s.kernel_name,
        Message::Close => a is CloseWindow,
        _ => a is Idle,
    }
}

impl KernelInstallDialog {
    /// A dialog that installs `kernel_name`, shown as running from the start.
    pub fn new(kernel_name: String) -> (r: Self)
        ensures
            r@ == (KernelDialogView {
                kernel_name: kernel_name@,
                is_running: true,
                is_complete: false,
                has_error: false,
                progress_text: "Installing kernel "@ + kernel_name@ + "..."@,
                terminal_output: Seq::empty(),
            }),
    {
        let progress_text = cat3("Installing kernel ", kernel_name.as_str(), "...");
        KernelInstallDialog {
            kernel_name,
            is_running: true,
            is_complete: false,
            has_error: false,
            progress_text,
            terminal_output: String::new(),
        }
    }

    pub fn title(&self) -> (r: String)
        ensures
            r@ == "Installing Kernel "@ + self@.kernel_name + " - Rustora"@,
    {
        cat3("Installing Kernel ", self.kernel_name.as_str(), " - Rustora")
    }

    /// Takes in a message and says what to do next.
    pub fn update(&mut self, message: Message) -> (a: Action)
        ensures
            final(self)@ == kernel_dialog_next(old(self)@, message),
            kernel_dialog_action_ok(old(self)@, message, a),
    {
        match message {
            Message::StartTask => {
                self.is_running = true;
                self.terminal_output = String::new();
                Action::InstallKernel(str_owned(self.kernel_name.as_str()))
            },
            Message::TaskProgress(output) => {
                self.terminal_output = output;
                self.is_running = false;
                self.is_complete = true;
                Action::Idle
            },
            Message::TaskError(error) => {
                self.is_running = false;
                self.has_error = true;
                self.terminal_output = error;
                Action::Idle
            },
            Message::Close => Action::CloseWindow,
        }
    }

    pub fn is_running(&self) -> (r: bool)
        ensures
            r == self@.is_running,
    {
        self.is_running
    }

    pub fn is_complete(&self) -> (r: bool)
        ensures
            r == self@.is_complete,
    {
        self.is_complete
    }

    pub fn has_error(&self) -> (r: bool)
        ensures
            r == self@.has_error,
    {
        self.has_error
    }

    pub fn progress_text(&self) -> (r: &str)
        ensures
            r@ == self@.progress_text,
    {
        self.progress_text.as_str()
    }

    pub fn terminal_output(&self) -> (r: &str)
        ensures
            r@ == self@.terminal_output,
    {
        self.terminal_output.as_str()
    }
}

} // verus!
