//! Installing the CachyOS kernel: what each of the eight steps runs and
//! prints, how its commands' outcomes are read, the GPU check, and the
//! dialog.
use vstd::prelude::*;
use crate::stepper::{Action, Installer, Message, StepRun, StepView, step_action_ok, step_next};
use crate::text::{
    cat2, cat3, chars_of, contains, occurs_at, debug_code, debug_code_text, join, join_strings, lowercase,
    lowercase_contains, same_text, str_contains, str_owned, string_append, string_views,
};
use crate::transcript::{auth_refused, auth_refused_code, AUTH_ERROR};

verus! {

pub const DOUBLE_RULE: &'static str = "═══════════════════════════════════════════════════════════════\n";
pub const SINGLE_RULE: &'static str = "─────────────────────────────────────────────────────────────\n";

/// A step's banner: its title lines between two double rules, and an empty line.
pub open spec fn banner(lines: Seq<char>) -> Seq<char> {
    DOUBLE_RULE@ + lines + DOUBLE_RULE@ + "\n"@
}

/// Whether a package command's output says that nothing had to be installed.
pub open spec fn reports_installed(out: Seq<char>) -> bool {
    contains(out, "already installed"@) || contains(out, "Nothing to do"@)
}

pub open spec fn summary() -> Seq<char> {
    DOUBLE_RULE@ + "✓ ALL STEPS COMPLETED SUCCESSFULLY!\n"@ + DOUBLE_RULE@
        + "\nInstalled packages:\n"@ + "  • kernel-cachyos\n"@ + "  • cachyos-settings\n"@
        + "  • ananicy-cpp\n"@ + "  • cachyos-ananicy-rules\n"@ + "  • scx-manager\n"@
        + "  • scx-scheds-git\n"@ + "  • scx-tools\n"@
        + "\n⚠️  Please reboot to use the new kernel!\n"@
}

/// What step `step` prints when it goes well, from the GPU found (step 7)
/// and the output of its command.
pub open spec fn step_output(step: nat, gpu: Seq<char>, out: Seq<char>) -> Seq<char> {
    if step == 0 {
        banner("Step 1: Enabling kernel-cachyos repository\n"@) + out
            + "\n✓ Step 1 completed: kernel-cachyos repository enabled\n\n"@
    } else if step == 1 {
        banner("Step 2: Enabling kernel-cachyos-addons repository\n"@) + out
            + "\n✓ Step 2 completed: kernel-cachyos-addons repository enabled\n\n"@
    } else if step == 2 {
        banner("Step 3: Installing Cachyos kernel\n"@) + out + "\n✓ Step 3 completed: "@ + (if reports_installed(out) {
            "Cachyos kernel already installed (continuing with remaining steps)"@
        } else {
            "Cachyos kernel installed"@
        }) + "\n\n"@
    } else if step == 3 {
        banner("Step 4: Installing Cachyos settings and ananicy\n"@
            + "Packages: cachyos-settings, ananicy-cpp, cachyos-ananicy-rules\n"@) + out
            + "\n✓ Step 4 completed: "@ + (if reports_installed(out) {
            "Cachyos settings and ananicy already installed (continuing with remaining steps)"@
        } else {
            "Cachyos settings and ananicy installed"@
        }) + "\n\n"@
    } else if step == 4 {
        banner("Step 5: Installing scheduler extensions\n"@
            + "Packages: scx-manager, scx-scheds-git, scx-tools\n"@) + out + "\n✓ Step 5 completed: "@
            + (if reports_installed(out) {
            "Scheduler extensions already installed (continuing with remaining steps)"@
        } else {
            "Scheduler extensions installed"@
        }) + "\n\n"@
    } else if step == 5 {
        banner("Step 6: Updating GRUB configuration\n"@) + out
            + "\n✓ Step 6 completed: GRUB configuration updated\n\n"@
    } else if step == 6 {
        banner("Step 7: GPU detected - "@ + gpu + "\n"@) + if gpu == "NVIDIA"@ {
            "NVIDIA GPU detected - rebuilding kernel modules...\n\n"@ + out
                + "\n✓ Step 7 completed: Kernel modules rebuilt\n\n"@
        } else {
            gpu + " GPU detected - skipping kernel module rebuild\n\n"@
                + "✓ Step 7 completed: Skipped (not NVIDIA)\n\n"@
        }
    } else {
        banner("Step 8: Regenerating initramfs\n"@) + out
            + "\n✓ Step 8 completed: Initramfs regenerated\n\n"@ + summary()
    }
}

/// The commands that the steps run.
pub enum CachyosCommand {
    /// `dnf copr enable -y` of this repository.
    EnableRepo(String),
    /// `dnf install -y --allowerasing` of these packages.
    InstallPackages(Vec<String>),
    /// `grub2-mkconfig -o /boot/grub2/grub.cfg`
    UpdateGrub,
    /// `akmods --force --rebuild`
    RebuildModules,
    /// `dracut -f --regenerate-all`
    RegenerateInitramfs,
}

/// The command of step `step`, if it runs one: step 7 runs one only for an
/// NVIDIA GPU.
pub open spec fn step_command_ok(step: nat, gpu: Seq<char>, c: Option<CachyosCommand>) -> bool {
    if step == 0 {
        c matches Some(CachyosCommand::EnableRepo(r)) && r@ == "bieszczaders/kernel-cachyos"@
    } else if step == 1 {
        c matches Some(CachyosCommand::EnableRepo(r)) && r@ == "bieszczaders/kernel-cachyos-addons"@
    } else if step == 2 {
        c matches Some(CachyosCommand::InstallPackages(p)) && string_views(p@) == seq![
            "kernel-cachyos"@,
        ]
    } else if step == 3 {
        c matches Some(CachyosCommand::InstallPackages(p)) && string_views(p@) == seq![
            "cachyos-settings"@,
            "ananicy-cpp"@,
            "cachyos-ananicy-rules"@,
        ]
    } else if step == 4 {
        c matches Some(CachyosCommand::InstallPackages(p)) && string_views(p@) == seq![
            "scx-manager"@,
            "scx-scheds-git"@,
            "scx-tools"@,
        ]
    } else if step == 5 {
        c matches Some(CachyosCommand::UpdateGrub)
    } else if step == 6 {
        if gpu == "NVIDIA"@ {
            c matches Some(CachyosCommand::RebuildModules)
        } else {
            c is None
        }
    } else if step == 7 {
        c matches Some(CachyosCommand::RegenerateInitramfs)
    } else {
        c is None
    }
}

fn owned_all(items: Vec<&str>) -> (r: Vec<String>)
    ensures
        r@.len() == items@.len(),
        forall|i: int| 0 <= i < items@.len() ==> #[trigger] r@[i]@ == items@[i]@,
{
    let mut r: Vec<String> = Vec::new();
    let mut i: usize = 0;
    while i < items.len()
        invariant
            i <= items.len(),
            r@.len() == i,
            forall|j: int| 0 <= j < i ==> #[trigger] r@[j]@ == items@[j]@,
        decreases items.len() - i,
    {
        r.push(str_owned(items[i]));
        i += 1;
    }
    r
}

/// The command that step `step` runs, given the GPU that was found.
pub fn step_command(step: usize, gpu: &str) -> (r: Option<CachyosCommand>)
    ensures
        step_command_ok(step as nat, gpu@, r),
{
    if step == 0 {
        Some(CachyosCommand::EnableRepo(str_owned("bieszczaders/kernel-cachyos")))
    } else if step == 1 {
        Some(CachyosCommand::EnableRepo(str_owned("bieszczaders/kernel-cachyos-addons")))
    } else if step == 2 {
        let p = owned_all(vec!["kernel-cachyos"]);
        assert(string_views(p@) =~= seq!["kernel-cachyos"@]);
        Some(CachyosCommand::InstallPackages(p))
    } else if step == 3 {
        let p = owned_all(vec!["cachyos-settings", "ananicy-cpp", "cachyos-ananicy-rules"]);
        assert(string_views(p@) =~= seq![
            "cachyos-settings"@,
            "ananicy-cpp"@,
            "cachyos-ananicy-rules"@,
        ]);
        Some(CachyosCommand::InstallPackages(p))
    } else if step == 4 {
        let p = owned_all(vec!["scx-manager", "scx-scheds-git", "scx-tools"]);
        assert(string_views(p@) =~= seq!["scx-manager"@, "scx-scheds-git"@, "scx-tools"@]);
        Some(CachyosCommand::InstallPackages(p))
    } else if step == 5 {
        Some(CachyosCommand::UpdateGrub)
    } else if step == 6 {
        if same_text(&chars_of(gpu), &chars_of("NVIDIA")) {
            Some(CachyosCommand::RebuildModules)
        } else {
            None
        }
    } else if step == 7 {
        Some(CachyosCommand::RegenerateInitramfs)
    } else {
        None
    }
}

/// The arguments that `pkexec` gets for a command.
pub open spec fn command_args(c: CachyosCommand) -> Seq<Seq<char>> {
    match c {
        CachyosCommand::EnableRepo(r) => seq!["dnf"@, "copr"@, "enable"@, "-y"@, r@],
        CachyosCommand::InstallPackages(p) => seq!["dnf"@, "install"@, "-y"@, "--allowerasing"@]
            + string_views(p@),
        CachyosCommand::UpdateGrub => seq!["grub2-mkconfig"@, "-o"@, "/boot/grub2/grub.cfg"@],
        CachyosCommand::RebuildModules => seq!["akmods"@, "--force"@, "--rebuild"@],
        CachyosCommand::RegenerateInitramfs => seq!["dracut"@, "-f"@, "--regenerate-all"@],
    }
}

/// The name that a command's errors give it.
pub open spec fn command_name(c: CachyosCommand) -> Seq<char> {
    match c {
        CachyosCommand::EnableRepo(_) => "dnf"@,
        CachyosCommand::InstallPackages(_) => "dnf install"@,
        CachyosCommand::UpdateGrub => "grub2-mkconfig"@,
        CachyosCommand::RebuildModules => "akmods"@,
        CachyosCommand::RegenerateInitramfs => "dracut"@,
    }
}

/// The first lines of a command's transcript: the command line and a rule.
pub open spec fn command_header(c: CachyosCommand) -> Seq<char> {
    match c {
        CachyosCommand::EnableRepo(r) => "$ pkexec dnf copr enable -y "@ + r@ + "\n"@ + SINGLE_RULE@,
        CachyosCommand::InstallPackages(p) => "$ pkexec dnf install -y --allowerasing "@ + join(
            string_views(p@),
            " "@,
        ) + "\n"@ + SINGLE_RULE@,
        CachyosCommand::UpdateGrub => "$ pkexec grub2-mkconfig -o /boot/grub2/grub.cfg"@ + "\n"@
            + SINGLE_RULE@,
        CachyosCommand::RebuildModules => "$ pkexec akmods --force --rebuild"@ + "\n"@
            + SINGLE_RULE@,
        CachyosCommand::RegenerateInitramfs => "$ pkexec dracut -f --regenerate-all"@ + "\n"@
            + SINGLE_RULE@,
    }
}

impl CachyosCommand {
    pub fn args(&self) -> (r: Vec<String>)
        ensures
            string_views(r@) == command_args(*self),
    {
        match self {
            CachyosCommand::EnableRepo(repo) => {
                let r = owned_all(vec!["dnf", "copr", "enable", "-y", repo.as_str()]);
                assert(string_views(r@) =~= command_args(*self));
                r
            },
            CachyosCommand::InstallPackages(p) => {
                let mut r = owned_all(vec!["dnf", "install", "-y", "--allowerasing"]);
                let ghost head = string_views(r@);
                assert(head =~= seq!["dnf"@, "install"@, "-y"@, "--allowerasing"@]);
                let mut i: usize = 0;
                while i < p.len()
                    invariant
                        i <= p.len(),
                        string_views(r@) == head + string_views(p@).take(i as int),
                    decreases p.len() - i,
                {
                    let c = str_owned(p[i].as_str());
                    let ghost prev = string_views(r@);
                    r.push(c);
                    assert(string_views(r@) == prev.push(c@));
                    assert(string_views(p@).take(i + 1) == string_views(p@).take(i as int).push(
                        p@[i as int]@,
                    ));
                    i += 1;
                }
                assert(string_views(p@).take(p.len() as int) == string_views(p@));
                r
            },
            CachyosCommand::UpdateGrub => {
                let r = owned_all(vec!["grub2-mkconfig", "-o", "/boot/grub2/grub.cfg"]);
                assert(string_views(r@) =~= command_args(*self));
                r
            },
            CachyosCommand::RebuildModules => {
                let r = owned_all(vec!["akmods", "--force", "--rebuild"]);
                assert(string_views(r@) =~= command_args(*self));
                r
            },
            CachyosCommand::RegenerateInitramfs => {
                let r = owned_all(vec!["dracut", "-f", "--regenerate-all"]);
                assert(string_views(r@) =~= command_args(*self));
                r
            },
        }
    }

    pub fn name(&self) -> (r: &'static str)
        ensures
            r@ == command_name(*self),
    {
        match self {
            CachyosCommand::EnableRepo(_) => "dnf",
            CachyosCommand::InstallPackages(_) => "dnf install",
            CachyosCommand::UpdateGrub => "grub2-mkconfig",
            CachyosCommand::RebuildModules => "akmods",
            CachyosCommand::RegenerateInitramfs => "dracut",
        }
    }

    pub fn header(&self) -> (r: String)
        ensures
            r@ == command_header(*self),
    {
        match self {
            CachyosCommand::EnableRepo(repo) => {
                let mut h = cat3("$ pkexec dnf copr enable -y ", repo.as_str(), "\n");
                string_append(&mut h, SINGLE_RULE);
                h
            },
            CachyosCommand::InstallPackages(p) => {
                let j = join_strings(p, " ");
                let mut h = cat3("$ pkexec dnf install -y --allowerasing ", j.as_str(), "\n");
                string_append(&mut h, SINGLE_RULE);
                h
            },
            CachyosCommand::UpdateGrub => cat3(
                "$ pkexec grub2-mkconfig -o /boot/grub2/grub.cfg",
                "\n",
                SINGLE_RULE,
            ),
            CachyosCommand::RebuildModules => cat3(
                "$ pkexec akmods --force --rebuild",
                "\n",
                SINGLE_RULE,
            ),
            CachyosCommand::RegenerateInitramfs => cat3(
                "$ pkexec dracut -f --regenerate-all",
                "\n",
                SINGLE_RULE,
            ),
        }
    }

    /// Whether the command's outcome is read as a package install.
    pub fn is_package_install(&self) -> (r: bool)
        ensures
            r == (*self is InstallPackages),
    {
        match self {
            CachyosCommand::InstallPackages(_) => true,
            _ => false,
        }
    }
}

/// The outcome of a command other than a package install: a refused
/// authorisation, a failure with its exit code, or the transcript.
pub open spec fn command_outcome(code: Option<i32>, success: bool, output: Seq<char>) -> Result<Seq<char>, Seq<char>> {
    if auth_refused(code) {
        Err(AUTH_ERROR@)
    } else if !success {
        Err("Command failed with exit code: "@ + debug_code(code))
    } else {
        Ok(output)
    }
}

pub open spec fn same_outcome(r: Result<String, String>, s: Result<Seq<char>, Seq<char>>) -> bool {
    match (r, s) {
        (Ok(a), Ok(b)) => a@ == b,
        (Err(a), Err(b)) => a@ == b,
        _ => false,
    }
}

pub fn command_outcome_text(code: Option<i32>, success: bool, output: String) -> (r: Result<String, String>)
    ensures
        same_outcome(r, command_outcome(code, success, output@)),
{
    if auth_refused_code(code) {
        Err(str_owned(AUTH_ERROR))
    } else if !success {
        let d = debug_code_text(code);
        Err(cat2("Command failed with exit code: ", d.as_str()))
    } else {
        Ok(output)
    }
}

/// What a package install's output lines have said so far.
pub struct InstallNotes {
    pub already_installed: bool,
    pub nothing_to_do: bool,
}

/// The notes after a line of output, lowercased for the check.
pub open spec fn note_line(n: InstallNotes, line: Seq<char>) -> InstallNotes {
    let low = lowercase(line);
    InstallNotes {
        already_installed: n.already_installed || contains(low, "already installed"@) || contains(
            low,
            "is already installed"@,
        ),
        nothing_to_do: n.nothing_to_do || contains(low, "nothing to do"@),
    }
}

impl InstallNotes {
    pub fn new() -> (r: Self)
        ensures
            !r.already_installed && !r.nothing_to_do,
    {
        InstallNotes { already_installed: false, nothing_to_do: false }
    }

    pub fn note(&mut self, line: &str)
        ensures
            *final(self) == note_line(*old(self), line@),
    {
        if lowercase_contains(line, "already installed") || lowercase_contains(
            line,
            "is already installed",
        ) {
            self.already_installed = true;
        }
        if lowercase_contains(line, "nothing to do") {
            self.nothing_to_do = true;
        }
    }
}

pub const ALREADY_NOTE: &'static str = "\nℹ️  Note: Some packages were already installed. Continuing...\n";
pub const EXIT_ONE_NOTE: &'static str = "\nℹ️  Note: Installation completed (exit code 1, but no clear errors detected). Continuing...\n";

/// Whether a failed install's output, lowercased, reports an error.
pub open spec fn reports_error(output: Seq<char>) -> bool {
    let low = lowercase(output);
    contains(low, "error"@) || contains(low, "failed"@) || contains(low, "no package"@)
        || contains(low, "cannot find"@)
}

/// The outcome of a package install: packages already there count as
/// success; a failure with exit code 1 and no error in the output too.
pub open spec fn install_outcome(code: Option<i32>, success: bool, notes: InstallNotes, output: Seq<char>) -> Result<Seq<char>, Seq<char>> {
    if auth_refused(code) {
        Err(AUTH_ERROR@)
    } else if notes.already_installed || notes.nothing_to_do {
        Ok(output + ALREADY_NOTE@)
    } else if !success {
        if reports_error(output) {
            Err("Installation failed with exit code: "@ + debug_code(code) + "\n\nOutput:\n"@
                + output)
        } else if code == Some(1i32) {
            Ok(output + EXIT_ONE_NOTE@)
        } else {
            Err("Command failed with exit code: "@ + debug_code(code) + "\n\nOutput:\n"@ + output)
        }
    } else {
        Ok(output)
    }
}

pub fn install_outcome_text(code: Option<i32>, success: bool, notes: &InstallNotes, output: String) -> (r: Result<String, String>)
    ensures
        same_outcome(r, install_outcome(code, success, *notes, output@)),
{
    if auth_refused_code(code) {
        return Err(str_owned(AUTH_ERROR));
    }
    if notes.already_installed || notes.nothing_to_do {
        let mut o = output;
        string_append(&mut o, ALREADY_NOTE);
        return Ok(o);
    }
    if !success {
        let erroneous = lowercase_contains(output.as_str(), "error") || lowercase_contains(
            output.as_str(),
            "failed",
        ) || lowercase_contains(output.as_str(), "no package") || lowercase_contains(
            output.as_str(),
            "cannot find",
        );
        let d = debug_code_text(code);
        if erroneous {
            let mut m = cat3("Installation failed with exit code: ", d.as_str(), "\n\nOutput:\n");
            string_append(&mut m, output.as_str());
            return Err(m);
        }
        let one = match code {
            Some(c) => c == 1,
            None => false,
        };
        if one {
            let mut o = output;
            string_append(&mut o, EXIT_ONE_NOTE);
            return Ok(o);
        }
        let mut m = cat3("Command failed with exit code: ", d.as_str(), "\n\nOutput:\n");
        string_append(&mut m, output.as_str());
        return Err(m);
    }
    Ok(output)
}

/// The GPU that `lspci -k` output names: NVIDIA first, then AMD, then Intel;
/// `Unknown` where the command failed or named none.
pub open spec fn gpu_kind(success: bool, stdout: Seq<char>) -> Seq<char> {
    if success && (contains(stdout, "NVIDIA"@) || contains(stdout, "nvidia"@)) {
        "NVIDIA"@
    } else if success && (contains(stdout, "AMD"@) || contains(stdout, "amd"@) || contains(
        stdout,
        "Radeon"@,
    )) {
        "AMD"@
    } else if success && (contains(stdout, "Intel"@) || contains(stdout, "intel"@)) {
        "Intel"@
    } else {
        "Unknown"@
    }
}

pub fn gpu_from_lspci(success: bool, stdout: &str) -> (r: &'static str)
    ensures
        r@ == gpu_kind(success, stdout@),
{
    if success {
        if str_contains(stdout, "NVIDIA") || str_contains(stdout, "nvidia") {
            return "NVIDIA";
        }
        if str_contains(stdout, "AMD") || str_contains(stdout, "amd") || str_contains(
            stdout,
            "Radeon",
        ) {
            return "AMD";
        }
        if str_contains(stdout, "Intel") || str_contains(stdout, "intel") {
            return "Intel";
        }
    }
    "Unknown"
}

/// The result of step `step`: its output with the step number and the
/// number of steps finished; the command's error where it failed; nothing
/// more to do past the last step.
pub open spec fn step_result_ok(step: nat, gpu: Seq<char>, cmd: Result<String, String>, r: Result<(String, usize, usize), String>) -> bool {
    if step >= 8 {
        r matches Ok((o, n, d)) && o@.len() == 0 && n == step && d == 8
    } else {
        let runs = !(step == 6 && gpu != "NVIDIA"@);
        match cmd {
            Err(e) if runs => r matches Err(f) && f@ == e@,
            _ => r matches Ok((o, n, d)) && n == step && d == step + 1 && o@ == step_output(
                step,
                gpu,
                match cmd {
                    Ok(c) => c@,
                    Err(_) => Seq::empty(),
                },
            ),
        }
    }
}

/// Puts together step `step`'s result from the GPU found and the outcome of
/// the step's command (ignored where the step runs none).
pub fn step_result(step: usize, gpu: &str, cmd: Result<String, String>) -> (r: Result<(String, usize, usize), String>)
    ensures
        step_result_ok(step as nat, gpu@, cmd, r),
{
    if step >= 8 {
        return Ok((String::new(), step, 8));
    }
    let runs = !(step == 6 && !same_text(&chars_of(gpu), &chars_of("NVIDIA")));
    let out = match cmd {
        Ok(c) => c,
        Err(e) => {
            if runs {
                return Err(e);
            }
            String::new()
        },
    };
    let o = out.as_str();
    let installed = str_contains(o, "already installed") || str_contains(o, "Nothing to do");
    let mut t = str_owned(DOUBLE_RULE);
    let ghost d = DOUBLE_RULE@;
    if step == 0 {
        string_append(&mut t, "Step 1: Enabling kernel-cachyos repository\n");
        string_append(&mut t, DOUBLE_RULE);
        string_append(&mut t, "\n");
        string_append(&mut t, o);
        string_append(&mut t, "\n✓ Step 1 completed: kernel-cachyos repository enabled\n\n");
    } else if step == 1 {
        string_append(&mut t, "Step 2: Enabling kernel-cachyos-addons repository\n");
        string_append(&mut t, DOUBLE_RULE);
        string_append(&mut t, "\n");
        string_append(&mut t, o);
        string_append(&mut t, "\n✓ Step 2 completed: kernel-cachyos-addons repository enabled\n\n");
    } else if step == 2 {
        string_append(&mut t, "Step 3: Installing Cachyos kernel\n");
        string_append(&mut t, DOUBLE_RULE);
        string_append(&mut t, "\n");
        string_append(&mut t, o);
        string_append(&mut t, "\n✓ Step 3 completed: ");
        if installed {
            string_append(&mut t, "Cachyos kernel already installed (continuing with remaining steps)");
        } else {
            string_append(&mut t, "Cachyos kernel installed");
        }
        string_append(&mut t, "\n\n");
    } else if step == 3 {
        string_append(&mut t, "Step 4: Installing Cachyos settings and ananicy\n");
        string_append(&mut t, "Packages: cachyos-settings, ananicy-cpp, cachyos-ananicy-rules\n");
        string_append(&mut t, DOUBLE_RULE);
        string_append(&mut t, "\n");
        string_append(&mut t, o);
        string_append(&mut t, "\n✓ Step 4 completed: ");
        if installed {
            string_append(
                &mut t,
                "Cachyos settings and ananicy already installed (continuing with remaining steps)",
            );
        } else {
            string_append(&mut t, "Cachyos settings and ananicy installed");
        }
        string_append(&mut t, "\n\n");
    } else if step == 4 {
        string_append(&mut t, "Step 5: Installing scheduler extensions\n");
        string_append(&mut t, "Packages: scx-manager, scx-scheds-git, scx-tools\n");
        string_append(&mut t, DOUBLE_RULE);
        string_append(&mut t, "\n");
        string_append(&mut t, o);
        string_append(&mut t, "\n✓ Step 5 completed: ");
        if installed {
            string_append(&mut t, "Scheduler extensions already installed (continuing with remaining steps)");
        } else {
            string_append(&mut t, "Scheduler extensions installed");
        }
        string_append(&mut t, "\n\n");
    } else if step == 5 {
        string_append(&mut t, "Step 6: Updating GRUB configuration\n");
        string_append(&mut t, DOUBLE_RULE);
        string_append(&mut t, "\n");
        string_append(&mut t, o);
        string_append(&mut t, "\n✓ Step 6 completed: GRUB configuration updated\n\n");
    } else if step == 6 {
        string_append(&mut t, "Step 7: GPU detected - ");
        string_append(&mut t, gpu);
        string_append(&mut t, "\n");
        string_append(&mut t, DOUBLE_RULE);
        string_append(&mut t, "\n");
        if runs {
            string_append(&mut t, "NVIDIA GPU detected - rebuilding kernel modules...\n\n");
            string_append(&mut t, o);
            string_append(&mut t, "\n✓ Step 7 completed: Kernel modules rebuilt\n\n");
        } else {
            string_append(&mut t, gpu);
            string_append(&mut t, " GPU detected - skipping kernel module rebuild\n\n");
            string_append(&mut t, "✓ Step 7 completed: Skipped (not NVIDIA)\n\n");
        }
    } else {
        string_append(&mut t, "Step 8: Regenerating initramfs\n");
        string_append(&mut t, DOUBLE_RULE);
        string_append(&mut t, "\n");
        string_append(&mut t, o);
        string_append(&mut t, "\n✓ Step 8 completed: Initramfs regenerated\n\n");
        string_append(&mut t, DOUBLE_RULE);
        string_append(&mut t, "✓ ALL STEPS COMPLETED SUCCESSFULLY!\n");
        string_append(&mut t, DOUBLE_RULE);
        string_append(&mut t, "\nInstalled packages:\n");
        string_append(&mut t, "  • kernel-cachyos\n");
        string_append(&mut t, "  • cachyos-settings\n");
        string_append(&mut t, "  • ananicy-cpp\n");
        string_append(&mut t, "  • cachyos-ananicy-rules\n");
        string_append(&mut t, "  • scx-manager\n");
        string_append(&mut t, "  • scx-scheds-git\n");
        string_append(&mut t, "  • scx-tools\n");
        string_append(&mut t, "\n⚠️  Please reboot to use the new kernel!\n");
    }
    assert(t@ =~= step_output(step as nat, gpu@, o@));
    Ok((t, step, step + 1))
}

/// The CachyOS kernel installer's dialog.
pub struct CachyosKernelDialog {
    run: StepRun,
}

impl View for CachyosKernelDialog {
    type V = StepView;

    closed spec fn view(&self) -> StepView {
        self.run@
    }
}

impl CachyosKernelDialog {
    /// The dialog always runs the steps of its own installer.
    #[verifier::type_invariant]
    spec fn runs_own_steps(self) -> bool {
        self.run@.kind == Installer::CachyosKernel
    }
}

impl CachyosKernelDialog {
    pub fn new() -> (r: Self)
        ensures
            r@.kind == Installer::CachyosKernel,
            r@.is_running && !r@.is_complete && !r@.has_error,
            r@.progress_text == "Installing Cachyos Kernel..."@,
            r@.terminal_output.len() == 0 && r@.steps_done == 0 && r@.current_step_num == 0,
    {
        CachyosKernelDialog { run: StepRun::new(Installer::CachyosKernel) }
    }

    pub fn title(&self) -> (r: String)
        ensures
            r@ == "Cachyos Kernel Installation - Rustora"@,
    {
        str_owned("Cachyos Kernel Installation - Rustora")
    }

    /// Takes in a message and says what to do next.
    pub fn update(&mut self, message: Message) -> (a: Action)
        requires
            old(self)@.current_step_num < usize::MAX,
        ensures
            old(self)@.kind == Installer::CachyosKernel,
            final(self)@ == step_next(old(self)@, message),
            final(self)@.kind == Installer::CachyosKernel,
            step_action_ok(old(self)@, message, a),
    {
        proof {
            use_type_invariant(&*self);
        }
        let mut run = StepRun::new(Installer::CachyosKernel);
        std::mem::swap(&mut run, &mut self.run);
        let a = run.update(message);
        std::mem::swap(&mut run, &mut self.run);
        a
    }

    pub fn state(&self) -> (r: &StepRun)
        ensures
            r@ == self@,
            r@.kind == Installer::CachyosKernel,
    {
        proof {
            use_type_invariant(self);
        }
        &self.run
    }
}

/// A step whose command failed stops the install with that command's error:
/// nothing of the step's output is shown as a success.
pub proof fn failed_step_stops(step: nat, gpu: Seq<char>, e: String, r: Result<(String, usize, usize), String>)
    requires
        step < 8,
        step != 6 || gpu == "NVIDIA"@,
        step_result_ok(step, gpu, Err(e), r),
    ensures
        r matches Err(f) && f@ == e@,
{
}

/// Only the last step's output carries the marker that ends the install.
pub proof fn only_last_step_ends(step: nat, gpu: Seq<char>, out: Seq<char>)
    requires
        step == 7,
    ensures
        contains(step_output(step, gpu, out), "✓ ALL STEPS COMPLETED SUCCESSFULLY!"@),
{
    let s = step_output(step, gpu, out);
    let m = "✓ ALL STEPS COMPLETED SUCCESSFULLY!\n"@;
    let pre = banner("Step 8: Regenerating initramfs\n"@) + out
        + "\n✓ Step 8 completed: Initramfs regenerated\n\n"@ + DOUBLE_RULE@;
    let post = DOUBLE_RULE@ + "\nInstalled packages:\n"@ + "  • kernel-cachyos\n"@
        + "  • cachyos-settings\n"@ + "  • ananicy-cpp\n"@ + "  • cachyos-ananicy-rules\n"@
        + "  • scx-manager\n"@ + "  • scx-scheds-git\n"@ + "  • scx-tools\n"@
        + "\n⚠️  Please reboot to use the new kernel!\n"@;
    assert(s =~= pre + m + post);
    let i = pre.len() as int;
    assert((pre + m + post).subrange(i, i + m.len()) =~= m);
    reveal_strlit("✓ ALL STEPS COMPLETED SUCCESSFULLY!\n");
    reveal_strlit("✓ ALL STEPS COMPLETED SUCCESSFULLY!");
    let k = "✓ ALL STEPS COMPLETED SUCCESSFULLY!"@;
    assert(m.subrange(0, k.len() as int) =~= k);
    assert(s.subrange(i, i + k.len()) =~= k);
    assert(occurs_at(s, k, i));
}

} // verus!
