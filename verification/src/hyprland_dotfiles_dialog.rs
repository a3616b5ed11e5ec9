//! Installing the Hyprland dotfiles: cloning the repository, copying its
//! configuration into place, what each step prints, and the dialog.
use vstd::prelude::*;
use crate::stepper::{Action, Installer, Message, StepRun, StepView, step_action_ok, step_next};
use crate::text::{cat2, cat3, str_owned, string_append};

verus! {

pub const RULE: &'static str = "─────────────────────────────────────────────────────────────\n";

pub const REPO_URL: &'static str = "https://github.com/ryzendew/Dark-Material-shell.git";

/// The name of the directory that the repository is cloned into.
pub const CLONE_DIR_NAME: &'static str = "Dark-Material-shell";

/// The first lines of the clone step's output.
pub open spec fn clone_header(repo_dir: Seq<char>) -> Seq<char> {
    "$ git clone --depth 1 "@ + REPO_URL@ + " "@ + repo_dir + "\n"@ + RULE@
}

pub fn clone_header_text(repo_dir: &str) -> (r: String)
    ensures
        r@ == clone_header(repo_dir@),
{
    let mut h = cat3("$ git clone --depth 1 ", REPO_URL, " ");
    string_append(&mut h, repo_dir);
    string_append(&mut h, "\n");
    string_append(&mut h, RULE);
    h
}

/// The outcome of `git clone`: its standard error where it failed, else the
/// header and its standard output.
pub open spec fn clone_outcome(success: bool, header: Seq<char>, stdout: Seq<char>, stderr: Seq<char>) -> Result<Seq<char>, Seq<char>> {
    if success {
        Ok(header + stdout)
    } else {
        Err("Git clone failed: "@ + stderr)
    }
}

pub fn clone_outcome_text(success: bool, header: &str, stdout: &str, stderr: &str) -> (r: Result<String, String>)
    ensures
        match (r, clone_outcome(success, header@, stdout@, stderr@)) {
            (Ok(a), Ok(b)) => a@ == b,
            (Err(a), Err(b)) => a@ == b,
            _ => false,
        },
{
    if success {
        Ok(cat2(header, stdout))
    } else {
        Err(cat2("Git clone failed: ", stderr))
    }
}

/// The first lines of the copy step's output.
pub open spec fn copy_header() -> Seq<char> {
    "Copying configuration files...\n"@ + RULE@
}

pub fn copy_header_text() -> (r: String)
    ensures
        r@ == copy_header(),
{
    cat2("Copying configuration files...\n", RULE)
}

/// The line that reports a directory copied into place.
pub fn copied_line(name: &str, dest: &str) -> (r: String)
    ensures
        r@ == "[OK] Copied "@ + name@ + " → "@ + dest@ + "\n"@,
{
    let mut l = cat3("[OK] Copied ", name, " → ");
    string_append(&mut l, dest);
    string_append(&mut l, "\n");
    l
}

/// The error when the repository lacks a directory that is copied.
pub fn missing_dir_error(name: &str) -> (r: String)
    ensures
        r@ == name@ + " directory not found in repository"@,
{
    cat2(name, " directory not found in repository")
}

pub const CLEANUP_LINE: &'static str = "[OK] Cleaned up temporary files\n";

/// What closes each step's output.
pub open spec fn step_done_line(step: nat) -> Seq<char> {
    if step == 0 {
        "\n[OK] Step 1 completed: Repository cloned\n"@
    } else {
        "\n[OK] Step 2 completed: Configuration files copied\n\n[OK] ALL STEPS COMPLETED SUCCESSFULLY!\n"@
    }
}

/// The result of step `step` from its work's outcome: the output with its
/// closing line, the step number it reports and the steps finished; the
/// work's error; or an error past the last step.
pub open spec fn step_report_ok(step: nat, work: Result<String, String>, r: Result<(String, usize, usize), String>) -> bool {
    if step >= 2 {
        r matches Err(e) && e@ == "Invalid step number"@
    } else {
        match work {
            Ok(out) => r matches Ok((o, n, d)) && o@ == out@ + step_done_line(step) && n == step + 1
                && d == step + 1,
            Err(e) => r matches Err(f) && f@ == e@,
        }
    }
}

pub fn step_report(step: usize, work: Result<String, String>) -> (r: Result<(String, usize, usize), String>)
    ensures
        step_report_ok(step as nat, work, r),
{
    if step >= 2 {
        return Err(str_owned("Invalid step number"));
    }
    match work {
        Ok(out) => {
            let mut o = out;
            if step == 0 {
                string_append(&mut o, "\n[OK] Step 1 completed: Repository cloned\n");
            } else {
                string_append(
                    &mut o,
                    "\n[OK] Step 2 completed: Configuration files copied\n\n[OK] ALL STEPS COMPLETED SUCCESSFULLY!\n",
                );
            }
            Ok((o, step + 1, step + 1))
        },
        Err(e) => Err(e),
    }
}

/// The dotfiles installer's dialog.
pub struct HyprlandDotfilesDialog {
    run: StepRun,
}

impl View for HyprlandDotfilesDialog {
    type V = StepView;

    closed spec fn view(&self) -> StepView {
        self.run@
    }
}

impl HyprlandDotfilesDialog {
    /// The dialog always runs the steps of its own installer.
    #[verifier::type_invariant]
    spec fn runs_own_steps(self) -> bool {
        self.run@.kind == Installer::HyprlandDotfiles
    }
}

impl HyprlandDotfilesDialog {
    pub fn new() -> (r: Self)
        ensures
            r@.kind == Installer::HyprlandDotfiles,
            r@.is_running && !r@.is_complete && !r@.has_error,
            r@.progress_text == "Installing Dotfiles..."@,
            r@.terminal_output.len() == 0 && r@.steps_done == 0 && r@.current_step_num == 0,
    {
        HyprlandDotfilesDialog { run: StepRun::new(Installer::HyprlandDotfiles) }
    }

    pub fn title(&self) -> (r: String)
        ensures
            r@ == "Hyprland Dotfiles Installation - Rustora"@,
    {
        str_owned("Hyprland Dotfiles Installation - Rustora")
    }

    /// Takes in a message and says what to do next.
    pub fn update(&mut self, message: Message) -> (a: Action)
        requires
            old(self)@.current_step_num < usize::MAX,
        ensures
            old(self)@.kind == Installer::HyprlandDotfiles,
            final(self)@ == step_next(old(self)@, message),
            final(self)@.kind == Installer::HyprlandDotfiles,
            step_action_ok(old(self)@, message, a),
    {
        proof {
            use_type_invariant(&*self);
        }
        let mut run = StepRun::new(Installer::HyprlandDotfiles);
        std::mem::swap(&mut run, &mut self.run);
        let a = run.update(message);
        std::mem::swap(&mut run, &mut self.run);
        a
    }

    pub fn state(&self) -> (r: &StepRun)
        ensures
            r@ == self@,
            r@.kind == Installer::HyprlandDotfiles,
    {
        proof {
            use_type_invariant(self);
        }
        &self.run
    }
}

} // verus!
