//! The state machine shared by the installers that run a fixed number of
//! steps one after the other (the CachyOS kernel, Hyprland and its dotfiles):
//! which step runs next, when the install is over, and the transcript shown.
//!
//! Progress is counted in finished steps out of the installer's total; the
//! bar shows that fraction.
use vstd::prelude::*;
use crate::text::{cat2, cat3, contains, ends_with, str_contains, str_owned, string_append};

verus! {

/// The installers that run steps.
#[derive(Clone, Copy, Debug, PartialEq, Eq, Structural)]
pub enum Installer {
    CachyosKernel,
    Hyprland,
    HyprlandDotfiles,
}

pub open spec fn total_steps(k: Installer) -> nat {
    match k {
        Installer::CachyosKernel => 8,
        Installer::Hyprland => 11,
        Installer::HyprlandDotfiles => 2,
    }
}

pub fn total_steps_of(k: Installer) -> (r: usize)
    ensures
        r == total_steps(k),
{
    match k {
        Installer::CachyosKernel => 8,
        Installer::Hyprland => 11,
        Installer::HyprlandDotfiles => 2,
    }
}

/// The line that the last step prints when every step went well.
pub open spec fn final_marker(k: Installer) -> Seq<char> {
    match k {
        Installer::CachyosKernel => "✓ ALL STEPS COMPLETED SUCCESSFULLY!"@,
        _ => "[OK] ALL STEPS COMPLETED SUCCESSFULLY!"@,
    }
}

fn final_marker_str(k: Installer) -> (r: &'static str)
    ensures
        r@ == final_marker(k),
{
    match k {
        Installer::CachyosKernel => "✓ ALL STEPS COMPLETED SUCCESSFULLY!",
        _ => "[OK] ALL STEPS COMPLETED SUCCESSFULLY!",
    }
}

/// What the transcript gets when the install ends well without the marker.
pub open spec fn done_note(k: Installer) -> Seq<char> {
    match k {
        Installer::CachyosKernel => "\n✓ All steps completed successfully!\n"@,
        _ => "\n[OK] All steps completed successfully!\n"@,
    }
}

/// What the transcript gets when the install fails.
pub open spec fn error_note(k: Installer, e: Seq<char>) -> Seq<char> {
    match k {
        Installer::CachyosKernel => "\n✗ Error: "@ + e + "\n"@,
        _ => "\n[FAIL] Error: "@ + e + "\n"@,
    }
}

/// The transcript when the install starts.
pub open spec fn start_banner(k: Installer) -> Seq<char> {
    match k {
        Installer::CachyosKernel => "Starting Cachyos Kernel installation...\n=====================================\n\n"@,
        Installer::Hyprland => "Starting Hyprland installation...\n=====================================\n\n"@,
        Installer::HyprlandDotfiles => "Starting dotfiles installation...\n=====================================\n\n"@,
    }
}

fn start_banner_str(k: Installer) -> (r: &'static str)
    ensures
        r@ == start_banner(k),
{
    match k {
        Installer::CachyosKernel => "Starting Cachyos Kernel installation...\n=====================================\n\n",
        Installer::Hyprland => "Starting Hyprland installation...\n=====================================\n\n",
        Installer::HyprlandDotfiles => "Starting dotfiles installation...\n=====================================\n\n",
    }
}

/// What the dialog says before the first step reports.
pub open spec fn initial_progress_text(k: Installer) -> Seq<char> {
    match k {
        Installer::CachyosKernel => "Installing Cachyos Kernel..."@,
        Installer::Hyprland => "Installing Hyprland & Dependencies..."@,
        Installer::HyprlandDotfiles => "Installing Dotfiles..."@,
    }
}

/// What the dialog says once step `step` has reported.
pub open spec fn step_progress_text(k: Installer, step: nat) -> Seq<char> {
    match k {
        Installer::CachyosKernel => if step == 0 {
            "Step 1/8: Enabling kernel-cachyos repo..."@
        } else if step == 1 {
            "Step 2/8: Enabling kernel-cachyos-addons repo..."@
        } else if step == 2 {
            "Step 3/8: Installing Cachyos kernel..."@
        } else if step == 3 {
            "Step 4/8: Installing Cachyos settings..."@
        } else if step == 4 {
            "Step 5/8: Installing scheduler extensions..."@
        } else if step == 5 {
            "Step 6/8: Updating GRUB configuration..."@
        } else if step == 6 {
            "Step 7/8: GPU detection and module rebuild..."@
        } else if step == 7 {
            "Step 8/8: Regenerating initramfs..."@
        } else {
            "Installing Cachyos Kernel..."@
        },
        Installer::Hyprland => if step == 0 {
            "Step 1/11: Updating system..."@
        } else if step == 1 {
            "Step 2/11: Enabling COPR repositories..."@
        } else if step == 2 {
            "Step 3/11: Updating package cache..."@
        } else if step == 3 {
            "Step 4/11: Installing development tools..."@
        } else if step == 4 {
            "Step 5/11: Installing desktop environment components..."@
        } else if step == 5 {
            "Step 6/11: Installing system utilities..."@
        } else if step == 6 {
            "Step 7/11: Installing applications..."@
        } else if step == 7 {
            "Step 8/11: Installing GUI tools..."@
        } else if step == 8 {
            "Step 9/11: Building and installing Mission Center..."@
        } else if step == 9 {
            "Step 10/11: Building and installing dgop..."@
        } else if step == 10 {
            "Step 11/11: Installing matugen..."@
        } else {
            "Installation complete!"@
        },
        Installer::HyprlandDotfiles => if step == 0 {
            "Step 1/2: Cloning repository..."@
        } else if step == 1 {
            "Step 2/2: Copying configuration files..."@
        } else {
            "Installation complete!"@
        },
    }
}

/// The text shown while step `step` of an installer runs.
pub fn get_step_progress_text(k: Installer, step: usize) -> (r: String)
    ensures
        r@ == step_progress_text(k, step as nat),
{
    let s = match k {
        Installer::CachyosKernel => if step == 0 {
            "Step 1/8: Enabling kernel-cachyos repo..."
        } else if step == 1 {
            "Step 2/8: Enabling kernel-cachyos-addons repo..."
        } else if step == 2 {
            "Step 3/8: Installing Cachyos kernel..."
        } else if step == 3 {
            "Step 4/8: Installing Cachyos settings..."
        } else if step == 4 {
            "Step 5/8: Installing scheduler extensions..."
        } else if step == 5 {
            "Step 6/8: Updating GRUB configuration..."
        } else if step == 6 {
            "Step 7/8: GPU detection and module rebuild..."
        } else if step == 7 {
            "Step 8/8: Regenerating initramfs..."
        } else {
            "Installing Cachyos Kernel..."
        },
        Installer::Hyprland => if step == 0 {
            "Step 1/11: Updating system..."
        } else if step == 1 {
            "Step 2/11: Enabling COPR repositories..."
        } else if step == 2 {
            "Step 3/11: Updating package cache..."
        } else if step == 3 {
            "Step 4/11: Installing development tools..."
        } else if step == 4 {
            "Step 5/11: Installing desktop environment components..."
        } else if step == 5 {
            "Step 6/11: Installing system utilities..."
        } else if step == 6 {
            "Step 7/11: Installing applications..."
        } else if step == 7 {
            "Step 8/11: Installing GUI tools..."
        } else if step == 8 {
            "Step 9/11: Building and installing Mission Center..."
        } else if step == 9 {
            "Step 10/11: Building and installing dgop..."
        } else if step == 10 {
            "Step 11/11: Installing matugen..."
        } else {
            "Installation complete!"
        },
        Installer::HyprlandDotfiles => if step == 0 {
            "Step 1/2: Cloning repository..."
        } else if step == 1 {
            "Step 2/2: Copying configuration files..."
        } else {
            "Installation complete!"
        },
    };
    str_owned(s)
}

/// The step number from which a step's report counts as the end of the
/// install. The report of the very first step is read against a threshold of
/// its own, which differs for Hyprland.
pub open spec fn end_threshold(k: Installer, first: bool) -> nat {
    if first && k is Hyprland {
        2
    } else {
        total_steps(k)
    }
}

pub enum Message {
    StartInstallation,
    /// A step's output, and the number of steps finished with it.
    StepProgress(String, usize),
    InstallationComplete(Result<(), String>),
    CopyToClipboard,
    Close,
}

/// The message that a step's result becomes: the step's output with the
/// finished count, the end of the install where the reported step number has
/// reached the threshold, or the failure.
pub open spec fn step_message_ok(k: Installer, first: bool, result: Result<(String, usize, usize), String>, m: Message) -> bool {
    match result {
        Ok((out, n, done)) => if n >= end_threshold(k, first) {
            m matches Message::InstallationComplete(Ok(_))
        } else {
            m matches Message::StepProgress(o, d) && o@ == out@ && d == done
        },
        Err(e) => m matches Message::InstallationComplete(Err(f)) && f@ == e@,
    }
}

/// Turns a step's result (output, reported step number, steps finished)
/// into the message for the dialog.
pub fn step_message(k: Installer, first: bool, result: Result<(String, usize, usize), String>) -> (m: Message)
    ensures
        step_message_ok(k, first, result, m),
{
    let threshold: usize = if first && (k matches Installer::Hyprland) {
        2
    } else {
        total_steps_of(k)
    };
    match result {
        Ok((out, n, done)) => if n >= threshold {
            Message::InstallationComplete(Ok(()))
        } else {
            Message::StepProgress(out, done)
        },
        Err(e) => Message::InstallationComplete(Err(e)),
    }
}

/// What the dialog asks its runner to do after a message.
pub enum Action {
    Idle,
    /// Run this step and report it with `step_message`; `first` tells whether
    /// it is the step that starts the install.
    RunStep(usize, bool),
    /// Put this text on the clipboard.
    CopyToClipboard(String),
    CloseWindow,
}

pub struct StepRun {
    kind: Installer,
    is_running: bool,
    is_complete: bool,
    has_error: bool,
    progress_text: String,
    terminal_output: String,
    steps_done: usize,
    current_step_num: usize,
}

pub struct StepView {
    pub kind: Installer,
    pub is_running: bool,
    pub is_complete: bool,
    pub has_error: bool,
    pub progress_text: Seq<char>,
    pub terminal_output: Seq<char>,
    pub steps_done: nat,
    pub current_step_num: nat,
}

impl View for StepRun {
    type V = StepView;

    closed spec fn view(&self) -> StepView {
        StepView {
            kind: self.kind,
            is_running: self.is_running,
            is_complete: self.is_complete,
            has_error: self.has_error,
            progress_text: self.progress_text@,
            terminal_output: self.terminal_output@,
            steps_done: self.steps_done as nat,
            current_step_num: self.current_step_num as nat,
        }
    }
}

/// The transcript after a step's output: on a new line unless the transcript
/// is empty or already ends a line.
pub open spec fn add_step_output(t: Seq<char>, out: Seq<char>) -> Seq<char> {
    if t.len() > 0 && !ends_with(t, seq!['\n']) {
        t + seq!['\n'] + out
    } else {
        t + out
    }
}

/// Whether a step's output says that the step is over.
pub open spec fn step_finished(out: Seq<char>) -> bool {
    contains(out, "completed"@) || contains(out, "failed"@)
}

/// The installer's state after a message.
pub open spec fn step_next(s: StepView, m: Message) -> StepView {
    match m {
        Message::StartInstallation => StepView {
            is_running: true,
            is_complete: false,
            has_error: false,
            steps_done: 0,
            current_step_num: 0,
            terminal_output: start_banner(s.kind),
            ..s
        },
        Message::StepProgress(out, done) => {
            let t = StepView {
                terminal_output: add_step_output(s.terminal_output, out@),
                steps_done: done as nat,
                progress_text: step_progress_text(s.kind, s.current_step_num),
                ..s
            };
            if !step_finished(out@) {
                t
            } else if contains(out@, final_marker(s.kind)) {
                StepView {
                    is_running: false,
                    is_complete: true,
                    steps_done: total_steps(s.kind),
                    progress_text: "Installation completed successfully!"@,
                    ..t
                }
            } else if s.current_step_num + 1 < total_steps(s.kind) {
                StepView { current_step_num: s.current_step_num + 1, ..t }
            } else {
                StepView {
                    current_step_num: s.current_step_num + 1,
                    is_running: false,
                    is_complete: true,
                    steps_done: total_steps(s.kind),
                    ..t
                }
            }
        },
        Message::InstallationComplete(r) => match r {
            Ok(_) => StepView {
                is_running: false,
                is_complete: true,
                steps_done: total_steps(s.kind),
                progress_text: "Installation completed successfully!"@,
                terminal_output: if contains(s.terminal_output, final_marker(s.kind)) {
                    s.terminal_output
                } else {
                    s.terminal_output + done_note(s.kind)
                },
                ..s
            },
            Err(e) => StepView {
                is_running: false,
                has_error: true,
                progress_text: "Installation failed: "@ + e@,
                terminal_output: s.terminal_output + error_note(s.kind, e@),
                ..s
            },
        },
        _ => s,
    }
}

/// What the installer asks for after a message.
pub open spec fn step_action_ok(s: StepView, m: Message, a: Action) -> bool {
    match m {
        Message::StartInstallation => a matches Action::RunStep(i, first) && i == 0 && first,
        Message::StepProgress(out, _) => if step_finished(out@) && !contains(
            out@,
            final_marker(s.kind),
        ) && s.current_step_num + 1 < total_steps(s.kind) {
            a matches Action::RunStep(i, first) && i == s.current_step_num + 1 && !first
        } else {
            a is Idle
        },
        Message::CopyToClipboard => a matches Action::CopyToClipboard(t) && t@ == s.terminal_output,
        Message::Close => a is CloseWindow,
        _ => a is Idle,
    }
}

impl StepRun {
    /// An installer of kind `k`, shown as running from the start.
    pub fn new(k: Installer) -> (r: Self)
        ensures
            r@ == (StepView {
                kind: k,
                is_running: true,
                is_complete: false,
                has_error: false,
                progress_text: initial_progress_text(k),
                terminal_output: Seq::empty(),
                steps_done: 0,
                current_step_num: 0,
            }),
    {
        let progress_text = match k {
            Installer::CachyosKernel => str_owned("Installing Cachyos Kernel..."),
            Installer::Hyprland => str_owned("Installing Hyprland & Dependencies..."),
            Installer::HyprlandDotfiles => str_owned("Installing Dotfiles..."),
        };
        StepRun {
            kind: k,
            is_running: true,
            is_complete: false,
            has_error: false,
            progress_text,
            terminal_output: String::new(),
            steps_done: 0,
            current_step_num: 0,
        }
    }

    /// Takes in a message and says what to do next.
    pub fn update(&mut self, message: Message) -> (a: Action)
        requires
            old(self)@.current_step_num < usize::MAX,
        ensures
            final(self)@ == step_next(old(self)@, message),
            step_action_ok(old(self)@, message, a),
    {
        match message {
            Message::StartInstallation => {
                self.is_running = true;
                self.is_complete = false;
                self.has_error = false;
                self.steps_done = 0;
                self.current_step_num = 0;
                self.terminal_output = str_owned(start_banner_str(self.kind));
                Action::RunStep(0, true)
            },
            Message::StepProgress(output, done) => {
                let ghost before = self.terminal_output@;
                let t = self.terminal_output.as_str();
                proof {
                    reveal_strlit("\n");
                }
                if !t.is_empty() && !str_ends_with_newline(t) {
                    string_append(&mut self.terminal_output, "\n");
                }
                string_append(&mut self.terminal_output, output.as_str());
                assert(self.terminal_output@ =~= add_step_output(before, output@));
                self.steps_done = done;
                self.progress_text = get_step_progress_text(self.kind, self.current_step_num);
                let finished = str_contains(output.as_str(), "completed") || str_contains(
                    output.as_str(),
                    "failed",
                );
                if !finished {
                    return Action::Idle;
                }
                let total = total_steps_of(self.kind);
                if str_contains(output.as_str(), final_marker_str(self.kind)) {
                    self.is_running = false;
                    self.is_complete = true;
                    self.steps_done = total;
                    self.progress_text = str_owned("Installation completed successfully!");
                    return Action::Idle;
                }
                self.current_step_num = self.current_step_num + 1;
                if self.current_step_num < total {
                    Action::RunStep(self.current_step_num, false)
                } else {
                    self.is_running = false;
                    self.is_complete = true;
                    self.steps_done = total;
                    Action::Idle
                }
            },
            Message::InstallationComplete(result) => {
                self.is_running = false;
                match result {
                    Ok(_) => {
                        self.is_complete = true;
                        self.steps_done = total_steps_of(self.kind);
                        self.progress_text = str_owned("Installation completed successfully!");
                        if !str_contains(self.terminal_output.as_str(), final_marker_str(self.kind)) {
                            match self.kind {
                                Installer::CachyosKernel => string_append(
                                    &mut self.terminal_output,
                                    "\n✓ All steps completed successfully!\n",
                                ),
                                _ => string_append(
                                    &mut self.terminal_output,
                                    "\n[OK] All steps completed successfully!\n",
                                ),
                            }
                        }
                    },
                    Err(e) => {
                        self.has_error = true;
                        self.progress_text = cat2("Installation failed: ", e.as_str());
                        let note = match self.kind {
                            Installer::CachyosKernel => cat3("\n✗ Error: ", e.as_str(), "\n"),
                            _ => cat3("\n[FAIL] Error: ", e.as_str(), "\n"),
                        };
                        string_append(&mut self.terminal_output, note.as_str());
                    },
                }
                Action::Idle
            },
            Message::CopyToClipboard => Action::CopyToClipboard(
                str_owned(self.terminal_output.as_str()),
            ),
            Message::Close => Action::CloseWindow,
        }
    }

    pub fn kind(&self) -> (r: Installer)
        ensures
            r == self@.kind,
    {
        self.kind
    }

    pub fn is_running(&self) -> (r: bool)
        ensures
            r == self@.is_running,
    {
        self.is_running
    }

    pub fn is_complete(&self) -> (r: bool)
        ensures
            r == self@.is_complete,
    {
        self.is_complete
    }

    pub fn has_error(&self) -> (r: bool)
        ensures
            r == self@.has_error,
    {
        self.has_error
    }

    pub fn progress_text(&self) -> (r: &str)
        ensures
            r@ == self@.progress_text,
    {
        self.progress_text.as_str()
    }

    pub fn terminal_output(&self) -> (r: &str)
        ensures
            r@ == self@.terminal_output,
    {
        self.terminal_output.as_str()
    }

    /// The steps finished, out of `total_steps`.
    pub fn steps_done(&self) -> (r: usize)
        ensures
            r == self@.steps_done,
    {
        self.steps_done
    }

    pub fn current_step_num(&self) -> (r: usize)
        ensures
            r == self@.current_step_num,
    {
        self.current_step_num
    }
}

/// Whether text ends with a line feed.
fn str_ends_with_newline(t: &str) -> (r: bool)
    ensures
        r == ends_with(t@, seq!['\n']),
{
    let v = crate::text::chars_of(t);
    let nl = crate::text::chars_of("\n");
    proof {
        reveal_strlit("\n");
    }
    assert(nl@ =~= seq!['\n']);
    crate::text::ends_with_vec(&v, &nl)
}

/// The installer never asks for a step that it does not have, and no
/// message moves it on by more than one step.
pub proof fn steps_stay_in_range(s: StepView, m: Message, a: Action)
    requires
        step_action_ok(s, m, a),
    ensures
        a matches Action::RunStep(i, _) ==> i < total_steps(s.kind),
        step_next(s, m).current_step_num <= s.current_step_num + 1,
        s.current_step_num < total_steps(s.kind) ==> step_next(s, m).current_step_num <= total_steps(
            s.kind,
        ),
{
}

/// An install that ends well shows every step as finished, and one that
/// fails keeps the transcript it had and adds the error.
pub proof fn install_end_is_shown(s: StepView, r: Result<(), String>)
    ensures
        r is Ok ==> step_next(s, Message::InstallationComplete(r)).steps_done == total_steps(s.kind)
            && step_next(s, Message::InstallationComplete(r)).is_complete,
        r is Err ==> s.terminal_output.is_prefix_of(
            step_next(s, Message::InstallationComplete(r)).terminal_output,
        ) && step_next(s, Message::InstallationComplete(r)).has_error,
{
    if let Err(e) = r {
        let t = step_next(s, Message::InstallationComplete(r)).terminal_output;
        assert(t.subrange(0, s.terminal_output.len() as int) =~= s.terminal_output);
    }
}

/// Steps run in order: a finished step that is not the last asks for the one
/// right after it.
pub proof fn steps_run_in_order(s: StepView, out: String, done: usize, a: Action)
    requires
        step_action_ok(s, Message::StepProgress(out, done), a),
        a is RunStep,
    ensures
        a matches Action::RunStep(i, first) && i == s.current_step_num + 1 && !first,
        step_next(s, Message::StepProgress(out, done)).current_step_num == s.current_step_num + 1,
{
}

/// Only a fresh start clears the transcript: every other message keeps what
/// it held at its start, and a step's report adds its output after it, on a
/// new line unless the transcript is empty or already ends one.
pub proof fn step_transcript_grows(s: StepView, m: Message)
    requires
        !(m is StartInstallation),
    ensures
        s.terminal_output.is_prefix_of(step_next(s, m).terminal_output),
        m matches Message::StepProgress(out, _) ==> step_next(s, m).terminal_output == add_step_output(
            s.terminal_output,
            out@,
        ),
{
    let t = s.terminal_output;
    let n = step_next(s, m).terminal_output;
    match m {
        Message::StepProgress(out, _) => {
            if t.len() > 0 && !ends_with(t, seq!['\n']) {
                assert((t + seq!['\n'] + out@).subrange(0, t.len() as int) =~= t);
            } else {
                assert((t + out@).subrange(0, t.len() as int) =~= t);
            }
        },
        Message::InstallationComplete(r) => {
            match r {
                Ok(_) => {
                    assert((t + done_note(s.kind)).subrange(0, t.len() as int) =~= t);
                },
                Err(e) => {
                    assert((t + error_note(s.kind, e@)).subrange(0, t.len() as int) =~= t);
                },
            }
        },
        _ => {
            assert(n.subrange(0, t.len() as int) =~= t);
        },
    }
}

} // verus!
