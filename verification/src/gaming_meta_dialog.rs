//! The gaming bundle: the seven steps of its install, what each prints, how
//! the outcomes of its commands and of the GitHub release lookup are read,
//! and the dialog, whose progress follows the step markers in the output.
//!
//! Progress is counted in tenths of a step out of the seven steps (70 is the
//! whole bar).
use vstd::prelude::*;
use crate::cachyos_kernel_dialog::{DOUBLE_RULE, SINGLE_RULE};
use crate::size::scaled_text;
use crate::text::{
    cat2, cat3, contains, debug_code, debug_code_text, ends_with, ends_with_vec, chars_of, str_contains,
    str_owned, string_append, string_of,
};

verus! {

/// The number of times `c` occurs in `s`.
pub open spec fn count_char(s: Seq<char>, c: char) -> nat
    decreases s.len(),
{
    if s.len() == 0 {
        0
    } else {
        count_char(s.drop_last(), c) + if s.last() == c {
            1nat
        } else {
            0nat
        }
    }
}

/// Whether `c` occurs in `t` more than once.
pub fn occurs_more_than_once(t: &str, c: char) -> (r: bool)
    ensures
        r == (count_char(t@, c) > 1),
{
    let v = chars_of(t);
    let mut n: usize = 0;
    let mut i: usize = 0;
    assert(v@.take(0) =~= Seq::<char>::empty());
    while i < v.len()
        invariant
            i <= v.len(),
            v@ == t@,
            n == count_char(v@.take(i as int), c),
            n <= i,
        decreases v.len() - i,
    {
        assert(v@.take(i + 1).drop_last() =~= v@.take(i as int));
        if v[i] == c {
            n = n + 1;
        }
        i += 1;
    }
    assert(v@.take(v.len() as int) =~= v@);
    n > 1
}

/// The progress (in tenths of a step) and the text that an output shows: a
/// completed step's full count, or a started step's first tenth; else the
/// progress that came with the output.
pub open spec fn output_progress(out: Seq<char>, given: u32) -> (nat, Seq<char>) {
    if contains(out, "Step 1 completed"@) {
        (10, "Step 1/7: Installing core gaming tools..."@)
    } else if contains(out, "Step 2 completed"@) {
        (20, "Step 2/7: Checking Flatpak availability..."@)
    } else if contains(out, "Step 3 completed"@) {
        (30, "Step 3/7: Installing MangoJuice..."@)
    } else if contains(out, "Step 4 completed"@) {
        (40, "Step 4/7: Installing ProtonPlus..."@)
    } else if contains(out, "Step 5 completed"@) {
        (50, "Step 5/7: Fetching Heroic release info..."@)
    } else if contains(out, "Step 6 completed"@) {
        (60, "Step 6/7: Downloading Heroic Games Launcher..."@)
    } else if contains(out, "Step 7 completed"@) {
        (70, "Step 7/7: Installing Heroic Games Launcher..."@)
    } else if contains(out, "Step 1:"@) && !contains(out, "Step 1 completed"@) {
        (1, "Step 1/7: Installing core gaming tools..."@)
    } else if contains(out, "Step 2:"@) && !contains(out, "Step 2 completed"@) {
        (11, "Step 2/7: Checking Flatpak availability..."@)
    } else if contains(out, "Step 3:"@) && !contains(out, "Step 3 completed"@) {
        (21, "Step 3/7: Installing MangoJuice..."@)
    } else if contains(out, "Step 4:"@) && !contains(out, "Step 4 completed"@) {
        (31, "Step 4/7: Installing ProtonPlus..."@)
    } else if contains(out, "Step 5:"@) && !contains(out, "Step 5 completed"@) {
        (41, "Step 5/7: Fetching Heroic release info..."@)
    } else if contains(out, "Step 6:"@) && !contains(out, "Step 6 completed"@) {
        (51, "Step 6/7: Downloading Heroic Games Launcher..."@)
    } else if contains(out, "Step 7:"@) && !contains(out, "Step 7 completed"@) {
        (61, "Step 7/7: Installing Heroic Games Launcher..."@)
    } else {
        (given as nat, "Installing Gaming Meta..."@)
    }
}

fn output_progress_of(o: &str, given: u32) -> (r: (u32, &'static str))
    ensures
        r.0 as nat == output_progress(o@, given).0,
        r.1@ == output_progress(o@, given).1,
{
    if str_contains(o, "Step 1 completed") {
        (10, "Step 1/7: Installing core gaming tools...")
    } else if str_contains(o, "Step 2 completed") {
        (20, "Step 2/7: Checking Flatpak availability...")
    } else if str_contains(o, "Step 3 completed") {
        (30, "Step 3/7: Installing MangoJuice...")
    } else if str_contains(o, "Step 4 completed") {
        (40, "Step 4/7: Installing ProtonPlus...")
    } else if str_contains(o, "Step 5 completed") {
        (50, "Step 5/7: Fetching Heroic release info...")
    } else if str_contains(o, "Step 6 completed") {
        (60, "Step 6/7: Downloading Heroic Games Launcher...")
    } else if str_contains(o, "Step 7 completed") {
        (70, "Step 7/7: Installing Heroic Games Launcher...")
    } else if str_contains(o, "Step 1:") && !str_contains(o, "Step 1 completed") {
        (1, "Step 1/7: Installing core gaming tools...")
    } else if str_contains(o, "Step 2:") && !str_contains(o, "Step 2 completed") {
        (11, "Step 2/7: Checking Flatpak availability...")
    } else if str_contains(o, "Step 3:") && !str_contains(o, "Step 3 completed") {
        (21, "Step 3/7: Installing MangoJuice...")
    } else if str_contains(o, "Step 4:") && !str_contains(o, "Step 4 completed") {
        (31, "Step 4/7: Installing ProtonPlus...")
    } else if str_contains(o, "Step 5:") && !str_contains(o, "Step 5 completed") {
        (41, "Step 5/7: Fetching Heroic release info...")
    } else if str_contains(o, "Step 6:") && !str_contains(o, "Step 6 completed") {
        (51, "Step 6/7: Downloading Heroic Games Launcher...")
    } else if str_contains(o, "Step 7:") && !str_contains(o, "Step 7 completed") {
        (61, "Step 7/7: Installing Heroic Games Launcher...")
    } else {
        (given, "Installing Gaming Meta...")
    }
}

pub enum Message {
    StartInstallation,
    /// The install's output so far, and its progress in tenths of a step.
    InstallationProgress(String, u32),
    InstallationComplete(Result<(), String>),
    Close,
}

/// What the dialog asks its runner to do after a message.
pub enum Action {
    Idle,
    /// Run the whole install and report it.
    RunInstall,
    CloseWindow,
}

pub struct GamingMetaDialog {
    is_running: bool,
    is_complete: bool,
    has_error: bool,
    progress_text: String,
    terminal_output: String,
    current_step: String,
    progress_tenths: u32,
}

pub struct GamingView {
    pub is_running: bool,
    pub is_complete: bool,
    pub has_error: bool,
    pub progress_text: Seq<char>,
    pub terminal_output: Seq<char>,
    pub current_step: Seq<char>,
    pub progress_tenths: nat,
}

impl View for GamingMetaDialog {
    type V = GamingView;

    closed spec fn view(&self) -> GamingView {
        GamingView {
            is_running: self.is_running,
            is_complete: self.is_complete,
            has_error: self.has_error,
            progress_text: self.progress_text@,
            terminal_output: self.terminal_output@,
            current_step: self.current_step@,
            progress_tenths: self.progress_tenths as nat,
        }
    }
}

pub const START_BANNER: &'static str = "Starting Gaming Meta installation...\n=====================================\n\n";

/// The gaming dialog after a message.
pub open spec fn gaming_next(s: GamingView, m: Message) -> GamingView {
    match m {
        Message::StartInstallation => GamingView {
            is_running: true,
            is_complete: false,
            has_error: false,
            progress_tenths: 0,
            terminal_output: START_BANNER@,
            ..s
        },
        Message::InstallationProgress(out, given) => {
            let (p, text) = output_progress(out@, given);
            let t = GamingView { terminal_output: out@, progress_tenths: p, progress_text: text, ..s };
            if contains(out@, "✓ ALL STEPS COMPLETED SUCCESSFULLY!"@) {
                GamingView {
                    is_running: false,
                    is_complete: true,
                    progress_tenths: 70,
                    progress_text: "Installation completed successfully!"@,
                    ..t
                }
            } else if contains(out@, "✗ Step"@) && contains(out@, "failed"@) && (count_char(out@, '✗')
                > 1 || contains(out@, "return Err"@)) {
                GamingView {
                    is_running: false,
                    has_error: true,
                    progress_text: "Installation failed"@,
                    ..t
                }
            } else {
                t
            }
        },
        Message::InstallationComplete(r) => match r {
            Ok(_) => GamingView {
                is_running: false,
                is_complete: true,
                progress_text: "Installation completed successfully!"@,
                terminal_output: if contains(
                    s.terminal_output,
                    "✓ All gaming tools installed successfully"@,
                ) {
                    s.terminal_output
                } else {
                    s.terminal_output + "\n✓ All gaming tools installed successfully!\n"@
                },
                ..s
            },
            Err(e) => GamingView {
                is_running: false,
                has_error: true,
                progress_text: "Installation failed: "@ + e@,
                terminal_output: s.terminal_output + "\n✗ Error: "@ + e@ + "\n"@,
                ..s
            },
        },
        Message::Close => s,
    }
}

pub open spec fn gaming_action_ok(m: Message, a: Action) -> bool {
    match m {
        Message::StartInstallation => a is RunInstall,
        Message::Close => a is CloseWindow,
        _ => a is Idle,
    }
}

impl GamingMetaDialog {
    pub fn new() -> (r: Self)
        ensures
            r@ == (GamingView {
                is_running: true,
                is_complete: false,
                has_error: false,
                progress_text: "Installing Gaming Meta..."@,
                terminal_output: Seq::empty(),
                current_step: Seq::empty(),
                progress_tenths: 0,
            }),
    {
        GamingMetaDialog {
            is_running: true,
            is_complete: false,
            has_error: false,
            progress_text: str_owned("Installing Gaming Meta..."),
            terminal_output: String::new(),
            current_step: String::new(),
            progress_tenths: 0,
        }
    }

    pub fn title(&self) -> (r: String)
        ensures
            r@ == "Gaming Meta Installation - Rustora"@,
    {
        str_owned("Gaming Meta Installation - Rustora")
    }

    /// Takes in a message and says what to do next.
    pub fn update(&mut self, message: Message) -> (a: Action)
        ensures
            final(self)@ == gaming_next(old(self)@, message),
            gaming_action_ok(message, a),
    {
        match message {
            Message::StartInstallation => {
                self.is_running = true;
                self.is_complete = false;
                self.has_error = false;
                self.progress_tenths = 0;
                self.terminal_output = str_owned(START_BANNER);
                Action::RunInstall
            },
            Message::InstallationProgress(output, given) => {
                let (p, text) = output_progress_of(output.as_str(), given);
                self.progress_tenths = p;
                self.progress_text = str_owned(text);
                let done = str_contains(output.as_str(), "✓ ALL STEPS COMPLETED SUCCESSFULLY!");
                let failed = str_contains(output.as_str(), "✗ Step") && str_contains(
                    output.as_str(),
                    "failed",
                ) && (occurs_more_than_once(output.as_str(), '✗') || str_contains(
                    output.as_str(),
                    "return Err",
                ));
                self.terminal_output = output;
                if done {
                    self.is_running = false;
                    self.is_complete = true;
                    self.progress_tenths = 70;
                    self.progress_text = str_owned("Installation completed successfully!");
                } else if failed {
                    self.is_running = false;
                    self.has_error = true;
                    self.progress_text = str_owned("Installation failed");
                }
                Action::Idle
            },
            Message::InstallationComplete(result) => {
                self.is_running = false;
                match result {
                    Ok(_) => {
                        self.is_complete = true;
                        self.progress_text = str_owned("Installation completed successfully!");
                        if !str_contains(
                            self.terminal_output.as_str(),
                            "✓ All gaming tools installed successfully",
                        ) {
                            string_append(
                                &mut self.terminal_output,
                                "\n✓ All gaming tools installed successfully!\n",
                            );
                        }
                    },
                    Err(e) => {
                        self.has_error = true;
                        self.progress_text = cat2("Installation failed: ", e.as_str());
                        let note = cat3("\n✗ Error: ", e.as_str(), "\n");
                        let ghost before = self.terminal_output@;
                        string_append(&mut self.terminal_output, note.as_str());
                        assert(self.terminal_output@ =~= before + "\n✗ Error: "@ + e@ + "\n"@);
                    },
                }
                Action::Idle
            },
            Message::Close => Action::CloseWindow,
        }
    }

    pub fn is_running(&self) -> (r: bool)
        ensures
            r == self@.is_running,
    {
        self.is_running
    }

    pub fn is_complete(&self) -> (r: bool)
        ensures
            r == self@.is_complete,
    {
        self.is_complete
    }

    pub fn has_error(&self) -> (r: bool)
        ensures
            r == self@.has_error,
    {
        self.has_error
    }

    pub fn progress_text(&self) -> (r: &str)
        ensures
            r@ == self@.progress_text,
    {
        self.progress_text.as_str()
    }

    pub fn terminal_output(&self) -> (r: &str)
        ensures
            r@ == self@.terminal_output,
    {
        self.terminal_output.as_str()
    }

    /// The progress in tenths of a step, out of 70.
    pub fn progress_tenths(&self) -> (r: u32)
        ensures
            r == self@.progress_tenths,
    {
        self.progress_tenths
    }
}

/// The banner that opens step `k` of the install; steps 6 and 7 name the
/// package file found in step 5.
pub open spec fn step_banner(k: nat, filename: Seq<char>) -> Seq<char> {
    DOUBLE_RULE@ + (
    if k == 1 {
        "Step 1: Installing core gaming tools\n"@ + "Packages: steam, lutris, mangohud, gamescope\n"@
    } else if k == 2 {
        "Step 2: Checking Flatpak availability\n"@
    } else if k == 3 {
        "Step 3: Installing MangoJuice (io.github.radiolamp.mangojuice)\n"@
    } else if k == 4 {
        "Step 4: Installing ProtonPlus (com.vysp3r.ProtonPlus)\n"@
    } else if k == 5 {
        "Step 5: Fetching Heroic Games Launcher release information\n"@
    } else if k == 6 {
        "Step 6: Downloading Heroic Games Launcher\n"@ + "File: "@ + filename + "\n"@
    } else {
        "Step 7: Installing Heroic Games Launcher\n"@ + "RPM: "@ + filename + "\n"@
    }
    ) + DOUBLE_RULE@ + "\n"@
}

pub open spec fn step_done_line(k: nat) -> Seq<char> {
    if k == 1 {
        "\n✓ Step 1 completed: Core gaming tools installed successfully\n\n"@
    } else if k == 2 {
        "\n✓ Step 2 completed: Flatpak is available\n\n"@
    } else if k == 3 {
        "\n✓ Step 3 completed: MangoJuice installed successfully\n\n"@
    } else if k == 4 {
        "\n✓ Step 4 completed: ProtonPlus installed successfully\n\n"@
    } else if k == 5 {
        "\n✓ Step 5 completed: Release information fetched\n\n"@
    } else if k == 6 {
        "\n✓ Step 6 completed: Download completed\n\n"@
    } else {
        "\n✓ Step 7 completed: Heroic Games Launcher installed successfully\n\n"@
    }
}

fn step_done_line_str(k: usize) -> (r: &'static str)
    ensures
        r@ == step_done_line(k as nat),
{
    if k == 1 {
        "\n✓ Step 1 completed: Core gaming tools installed successfully\n\n"
    } else if k == 2 {
        "\n✓ Step 2 completed: Flatpak is available\n\n"
    } else if k == 3 {
        "\n✓ Step 3 completed: MangoJuice installed successfully\n\n"
    } else if k == 4 {
        "\n✓ Step 4 completed: ProtonPlus installed successfully\n\n"
    } else if k == 5 {
        "\n✓ Step 5 completed: Release information fetched\n\n"
    } else if k == 6 {
        "\n✓ Step 6 completed: Download completed\n\n"
    } else {
        "\n✓ Step 7 completed: Heroic Games Launcher installed successfully\n\n"
    }
}

pub open spec fn summary() -> Seq<char> {
    DOUBLE_RULE@ + "✓ ALL STEPS COMPLETED SUCCESSFULLY!\n"@ + DOUBLE_RULE@ + "\nInstalled packages:\n"@
        + "  • steam\n"@ + "  • lutris\n"@ + "  • mangohud\n"@ + "  • gamescope\n"@
        + "  • io.github.radiolamp.mangojuice (Flatpak)\n"@
        + "  • com.vysp3r.ProtonPlus (Flatpak)\n"@ + "  • Heroic Games Launcher\n"@
}

fn banner_text(k: usize, filename: &str) -> (r: String)
    requires
        1 <= k <= 7,
    ensures
        r@ == step_banner(k as nat, filename@),
{
    let mut t = str_owned(DOUBLE_RULE);
    if k == 1 {
        string_append(&mut t, "Step 1: Installing core gaming tools\n");
        string_append(&mut t, "Packages: steam, lutris, mangohud, gamescope\n");
    } else if k == 2 {
        string_append(&mut t, "Step 2: Checking Flatpak availability\n");
    } else if k == 3 {
        string_append(&mut t, "Step 3: Installing MangoJuice (io.github.radiolamp.mangojuice)\n");
    } else if k == 4 {
        string_append(&mut t, "Step 4: Installing ProtonPlus (com.vysp3r.ProtonPlus)\n");
    } else if k == 5 {
        string_append(&mut t, "Step 5: Fetching Heroic Games Launcher release information\n");
    } else if k == 6 {
        string_append(&mut t, "Step 6: Downloading Heroic Games Launcher\n");
        string_append(&mut t, "File: ");
        string_append(&mut t, filename);
        string_append(&mut t, "\n");
    } else {
        string_append(&mut t, "Step 7: Installing Heroic Games Launcher\n");
        string_append(&mut t, "RPM: ");
        string_append(&mut t, filename);
        string_append(&mut t, "\n");
    }
    string_append(&mut t, DOUBLE_RULE);
    string_append(&mut t, "\n");
    assert(t@ =~= step_banner(k as nat, filename@));
    t
}

/// Where the install stands: the step that runs (8 once it is over), the
/// output so far, and the package file that step 5 found.
pub struct GamingRunView {
    pub step: nat,
    pub output: Seq<char>,
    pub filename: Seq<char>,
}

/// What comes after a step.
pub enum GamingNext {
    /// Run this step next.
    RunStep(usize),
    /// The install is over: its output with the whole bar, or the error.
    Finished(Result<(String, u32), String>),
}

/// The install after step `s.step` ended with `result`; `filename` is the
/// package file that step 5 found.
pub open spec fn gaming_run_next(s: GamingRunView, result: Result<Seq<char>, Seq<char>>, filename: Seq<char>) -> GamingRunView {
    match result {
        Err(_) => GamingRunView { step: 8, ..s },
        Ok(o) => {
            let f = if s.step == 5 {
                filename
            } else {
                s.filename
            };
            let out = s.output + o + step_done_line(s.step);
            if s.step + 1 <= 7 {
                GamingRunView {
                    step: s.step + 1,
                    output: out + step_banner(s.step + 1, f),
                    filename: f,
                }
            } else {
                GamingRunView { step: 8, output: out + summary(), filename: f }
            }
        },
    }
}

pub open spec fn gaming_run_next_ok(s: GamingRunView, result: Result<Seq<char>, Seq<char>>, n: GamingNext) -> bool {
    match result {
        Err(e) => n matches GamingNext::Finished(Err(f)) && f@ == e,
        Ok(_) => if s.step + 1 <= 7 {
            n matches GamingNext::RunStep(k) && k == s.step + 1
        } else {
            n matches GamingNext::Finished(Ok((o, p))) && p == 70 && o@ == gaming_run_next(
                s,
                result,
                Seq::empty(),
            ).output
        },
    }
}

/// The install of the gaming bundle, step by step.
pub struct GamingRun {
    step: usize,
    output: String,
    filename: String,
}

impl View for GamingRun {
    type V = GamingRunView;

    closed spec fn view(&self) -> GamingRunView {
        GamingRunView { step: self.step as nat, output: self.output@, filename: self.filename@ }
    }
}

impl GamingRun {
    /// The step is one of the seven, or 8 once the install is over.
    #[verifier::type_invariant]
    spec fn step_in_range(self) -> bool {
        1 <= self.step <= 8
    }
}

pub open spec fn text_result(r: Result<String, String>) -> Result<Seq<char>, Seq<char>> {
    match r {
        Ok(o) => Ok(o@),
        Err(e) => Err(e@),
    }
}

impl GamingRun {
    /// The install before its first step: the output holds step 1's banner.
    pub fn start() -> (r: Self)
        ensures
            r@ == (GamingRunView { step: 1, output: step_banner(1, Seq::empty()), filename: Seq::empty() }),
    {
        let b = banner_text(1, "");
        proof {
            reveal_strlit("");
        }
        GamingRun { step: 1, output: b, filename: String::new() }
    }

    /// The step that runs, from 1 to 7; 8 once the install is over.
    pub fn step(&self) -> (r: usize)
        ensures
            r == self@.step,
            1 <= r <= 8,
    {
        proof {
            use_type_invariant(self);
        }
        self.step
    }

    /// The package file that step 5 found.
    pub fn filename(&self) -> (r: &str)
        ensures
            r@ == self@.filename,
    {
        self.filename.as_str()
    }

    /// Takes in how the running step ended (with the package file name where
    /// it was step 5) and says what comes next.
    pub fn finish_step(&mut self, result: Result<String, String>, filename: &str) -> (n: GamingNext)
        requires
            old(self)@.step <= 7,
        ensures
            1 <= old(self)@.step,
            final(self)@ == gaming_run_next(old(self)@, text_result(result), filename@),
            gaming_run_next_ok(old(self)@, text_result(result), n),
    {
        proof {
            use_type_invariant(&*self);
        }
        match result {
            Err(e) => {
                self.step = 8;
                GamingNext::Finished(Err(e))
            },
            Ok(o) => {
                let mut out = String::new();
                std::mem::swap(&mut out, &mut self.output);
                let ghost before = out@;
                if self.step == 5 {
                    self.filename = str_owned(filename);
                }
                string_append(&mut out, o.as_str());
                string_append(&mut out, step_done_line_str(self.step));
                let next = self.step + 1;
                if next <= 7 {
                    let b = banner_text(next, self.filename.as_str());
                    string_append(&mut out, b.as_str());
                    self.step = next;
                    self.output = out;
                    GamingNext::RunStep(next)
                } else {
                    string_append(&mut out, DOUBLE_RULE);
                    string_append(&mut out, "✓ ALL STEPS COMPLETED SUCCESSFULLY!\n");
                    string_append(&mut out, DOUBLE_RULE);
                    string_append(&mut out, "\nInstalled packages:\n");
                    string_append(&mut out, "  • steam\n");
                    string_append(&mut out, "  • lutris\n");
                    string_append(&mut out, "  • mangohud\n");
                    string_append(&mut out, "  • gamescope\n");
                    string_append(&mut out, "  • io.github.radiolamp.mangojuice (Flatpak)\n");
                    string_append(&mut out, "  • com.vysp3r.ProtonPlus (Flatpak)\n");
                    string_append(&mut out, "  • Heroic Games Launcher\n");
                    assert(out@ =~= before + o@ + step_done_line(7) + summary());
                    let shown = str_owned(out.as_str());
                    self.step = next;
                    self.output = out;
                    GamingNext::Finished(Ok((shown, 70)))
                }
            },
        }
    }
}

/// The first lines of the core tools install.
pub fn core_tools_header() -> (r: String)
    ensures
        r@ == "$ pkexec dnf install -y steam lutris mangohud gamescope\n"@ + SINGLE_RULE@,
{
    cat2("$ pkexec dnf install -y steam lutris mangohud gamescope\n", SINGLE_RULE)
}

/// The first lines of a Flatpak install.
pub fn flatpak_install_header(package_id: &str) -> (r: String)
    ensures
        r@ == "$ flatpak install -y flathub "@ + package_id@ + "\n"@ + SINGLE_RULE@,
{
    let mut h = cat3("$ flatpak install -y flathub ", package_id, "\n");
    string_append(&mut h, SINGLE_RULE);
    h
}

/// The first lines of the Heroic package install.
pub fn heroic_install_header(rpm_path: &str) -> (r: String)
    ensures
        r@ == "$ pkexec dnf install -y "@ + rpm_path@ + "\n"@ + SINGLE_RULE@,
{
    let mut h = cat3("$ pkexec dnf install -y ", rpm_path, "\n");
    string_append(&mut h, SINGLE_RULE);
    h
}

/// The outcome of `which flatpak`.
pub open spec fn flatpak_check(success: bool, stdout: Seq<char>) -> Result<Seq<char>, Seq<char>> {
    if success {
        Ok("$ which flatpak\n"@ + SINGLE_RULE@ + stdout + "\nFlatpak is installed and available.\n"@)
    } else {
        Err("Flatpak is not installed. Please install it first."@)
    }
}

pub fn flatpak_check_text(success: bool, stdout: &str) -> (r: Result<String, String>)
    ensures
        text_result(r) == flatpak_check(success, stdout@),
{
    if success {
        let mut t = cat2("$ which flatpak\n", SINGLE_RULE);
        string_append(&mut t, stdout);
        string_append(&mut t, "\nFlatpak is installed and available.\n");
        Ok(t)
    } else {
        Err(str_owned("Flatpak is not installed. Please install it first."))
    }
}

/// The outcome of a Flatpak install: a package that was already there counts
/// as installed.
pub open spec fn flatpak_install_outcome(success: bool, code: Option<i32>, name: Seq<char>, output: Seq<char>) -> Result<Seq<char>, Seq<char>> {
    if success {
        Ok(output)
    } else if contains(output, "already installed"@) || contains(output, "is already installed"@) {
        Ok(output + "\n(Note: Package was already installed)\n"@)
    } else {
        Err("Failed to install "@ + name + ": Command exited with code "@ + debug_code(code))
    }
}

pub fn flatpak_install_outcome_text(success: bool, code: Option<i32>, name: &str, output: String) -> (r: Result<String, String>)
    ensures
        text_result(r) == flatpak_install_outcome(success, code, name@, output@),
{
    if success {
        return Ok(output);
    }
    if str_contains(output.as_str(), "already installed") || str_contains(
        output.as_str(),
        "is already installed",
    ) {
        let mut o = output;
        string_append(&mut o, "\n(Note: Package was already installed)\n");
        return Ok(o);
    }
    let d = debug_code_text(code);
    let mut m = cat3("Failed to install ", name, ": Command exited with code ");
    string_append(&mut m, d.as_str());
    Err(m)
}

/// One asset of a GitHub release, as far as the install reads it.
pub struct ReleaseAsset {
    pub name: Option<String>,
    pub browser_download_url: Option<String>,
    pub size: Option<u64>,
}

/// A GitHub release, as far as the install reads it.
pub struct Release {
    pub tag_name: Option<String>,
    pub name: Option<String>,
    pub assets: Option<Vec<ReleaseAsset>>,
}

pub open spec fn asset_name(a: ReleaseAsset) -> Seq<char> {
    match a.name {
        Some(n) => n@,
        None => Seq::empty(),
    }
}

/// Whether an asset is the x86_64 RPM package.
pub open spec fn is_rpm_asset(a: ReleaseAsset) -> bool {
    ends_with(asset_name(a), ".rpm"@) && contains(asset_name(a), "x86_64"@)
}

/// The index of the first x86_64 RPM among `assets`, if any.
pub open spec fn first_rpm(assets: Seq<ReleaseAsset>) -> Option<int>
    decreases assets.len(),
{
    if assets.len() == 0 {
        None
    } else if is_rpm_asset(assets[0]) {
        Some(0)
    } else {
        match first_rpm(assets.drop_first()) {
            Some(i) => Some(i + 1),
            None => None,
        }
    }
}

proof fn lemma_first_rpm(assets: Seq<ReleaseAsset>, i: int)
    requires
        0 <= i <= assets.len(),
        forall|j: int| 0 <= j < i ==> !is_rpm_asset(#[trigger] assets[j]),
    ensures
        first_rpm(assets) == (match first_rpm(assets.subrange(i, assets.len() as int)) {
            Some(k) => Some(k + i),
            None => None::<int>,
        }),
    decreases i,
{
    if i == 0 {
        assert(assets.subrange(0, assets.len() as int) =~= assets);
        match first_rpm(assets) {
            Some(k) => {},
            None => {},
        }
    } else {
        assert(!is_rpm_asset(assets[0]));
        let t = assets.drop_first();
        assert forall|j: int| 0 <= j < i - 1 implies !is_rpm_asset(#[trigger] t[j]) by {
            assert(t[j] == assets[j + 1]);
        }
        lemma_first_rpm(t, i - 1);
        assert(t.subrange(i - 1, t.len() as int) =~= assets.subrange(i, assets.len() as int));
    }
}

proof fn lemma_first_rpm_found(assets: Seq<ReleaseAsset>)
    ensures
        first_rpm(assets) matches Some(i) ==> 0 <= i < assets.len() && is_rpm_asset(assets[i]),
    decreases assets.len(),
{
    if assets.len() > 0 && !is_rpm_asset(assets[0]) {
        lemma_first_rpm_found(assets.drop_first());
    }
}

/// The first asset of `assets` that is the x86_64 RPM package.
pub fn find_rpm_asset(assets: &Vec<ReleaseAsset>) -> (r: Option<usize>)
    ensures
        match (r, first_rpm(assets@)) {
            (Some(a), Some(b)) => a as int == b,
            (None, None) => true,
            _ => false,
        },
{
    let mut i: usize = 0;
    while i < assets.len()
        invariant
            i <= assets.len(),
            forall|j: int| 0 <= j < i ==> !is_rpm_asset(#[trigger] assets@[j]),
        decreases assets.len() - i,
    {
        let name = match &assets[i].name {
            Some(n) => chars_of(n.as_str()),
            None => Vec::new(),
        };
        assert(name@ == asset_name(assets@[i as int]));
        if ends_with_vec(&name, &chars_of(".rpm")) && crate::text::contains_str(&name, "x86_64") {
            proof {
                lemma_first_rpm(assets@, i as int);
                assert(assets@.subrange(i as int, assets@.len() as int)[0] == assets@[i as int]);
            }
            return Some(i);
        }
        i += 1;
    }
    proof {
        lemma_first_rpm(assets@, i as int);
        assert(assets@.subrange(i as int, i as int).len() == 0);
    }
    None
}

pub const RELEASES_URL: &'static str = "https://api.github.com/repos/Heroic-Games-Launcher/HeroicGamesLauncher/releases/latest";

pub open spec fn or_unknown(o: Option<String>) -> Seq<char> {
    match o {
        Some(s) => s@,
        None => "unknown"@,
    }
}

/// What the release lookup prints before it reads the assets.
pub open spec fn release_intro(rel: Release) -> Seq<char> {
    "$ curl -s "@ + RELEASES_URL@ + "\n"@ + SINGLE_RULE@
        + "Fetching latest release information from GitHub...\n"@ + "Release: "@ + or_unknown(rel.name)
        + "\n"@ + "Tag: "@ + or_unknown(rel.tag_name) + "\n"@
}

/// The package to download from a release: its address, its file name and
/// the lookup's output; or why there is none.
pub open spec fn release_choice_ok(rel: Release, r: Result<(String, String, String), String>) -> bool {
    match rel.assets {
        None => r matches Err(e) && e@ == "No assets found in release"@,
        Some(assets) => match first_rpm(assets@) {
            None => r matches Err(e) && e@ == "No x86_64 RPM file found in release"@,
            Some(i) => {
                let a = assets@[i];
                match a.browser_download_url {
                    None => r matches Err(e) && e@ == "No download URL found"@,
                    Some(url) => r matches Ok((u, f, o)) && u@ == url@ && f@ == asset_name(a)
                        && o@ == release_intro(rel) + "RPM file: "@ + asset_name(a) + "\n"@
                        + "Size: "@ + scaled_text(
                        match a.size {
                            Some(s) => s as nat,
                            None => 0,
                        },
                        20,
                    ) + " MB\n"@ + "Download URL: "@ + url@ + "\n"@,
                }
            },
        },
    }
}

fn text_or_unknown(o: &Option<String>) -> (r: &str)
    ensures
        r@ == or_unknown(*o),
{
    match o {
        Some(s) => s.as_str(),
        None => "unknown",
    }
}

/// Chooses the package to download from a release and writes what the
/// lookup found.
pub fn choose_release_asset(rel: &Release) -> (r: Result<(String, String, String), String>)
    ensures
        release_choice_ok(*rel, r),
{
    let mut out = cat3("$ curl -s ", RELEASES_URL, "\n");
    string_append(&mut out, SINGLE_RULE);
    string_append(&mut out, "Fetching latest release information from GitHub...\n");
    string_append(&mut out, "Release: ");
    string_append(&mut out, text_or_unknown(&rel.name));
    string_append(&mut out, "\n");
    string_append(&mut out, "Tag: ");
    string_append(&mut out, text_or_unknown(&rel.tag_name));
    string_append(&mut out, "\n");
    assert(out@ =~= release_intro(*rel));
    let assets = match &rel.assets {
        Some(a) => a,
        None => {
            return Err(str_owned("No assets found in release"));
        },
    };
    proof {
        lemma_first_rpm_found(assets@);
        reveal_strlit(".rpm");
    }
    let i = match find_rpm_asset(assets) {
        Some(i) => i,
        None => {
            return Err(str_owned("No x86_64 RPM file found in release"));
        },
    };
    let a = &assets[i];
    let url = match &a.browser_download_url {
        Some(u) => u,
        None => {
            return Err(str_owned("No download URL found"));
        },
    };
    let filename = match &a.name {
        Some(n) => n,
        None => {
            return Err(str_owned("No filename found"));
        },
    };
    let size: u64 = match a.size {
        Some(s) => s,
        None => 0,
    };
    let ghost intro = out@;
    let mb = string_of(&crate::size::scaled_text_vec(size, 20));
    string_append(&mut out, "RPM file: ");
    string_append(&mut out, filename.as_str());
    string_append(&mut out, "\n");
    string_append(&mut out, "Size: ");
    string_append(&mut out, mb.as_str());
    string_append(&mut out, " MB\n");
    string_append(&mut out, "Download URL: ");
    string_append(&mut out, url.as_str());
    string_append(&mut out, "\n");
    assert(out@ =~= intro + "RPM file: "@ + filename@ + "\n"@ + "Size: "@ + mb@ + " MB\n"@
        + "Download URL: "@ + url@ + "\n"@);
    Ok((str_owned(url.as_str()), str_owned(filename.as_str()), out))
}

/// What the download prints: where it goes, how much came, and that it is
/// done; sizes in megabytes with two decimals.
pub open spec fn download_report(url: Seq<char>, path: Seq<char>, len: u64, total: Option<u64>) -> Seq<char> {
    "$ wget "@ + url + "\n"@ + SINGLE_RULE@ + "Downloading to: "@ + path + "\n"@ + "Downloading...\n"@
        + match total {
        Some(t) => "Downloaded: "@ + scaled_text(len as nat, 20) + " MB / "@ + scaled_text(t as nat, 20)
            + " MB (100%)\n"@,
        None => "Downloaded: "@ + scaled_text(len as nat, 20) + " MB\n"@,
    } + "✓ Download completed: "@ + path + "\n"@
}

pub fn download_report_text(url: &str, path: &str, len: u64, total: Option<u64>) -> (r: String)
    ensures
        r@ == download_report(url@, path@, len, total),
{
    let mut t = cat3("$ wget ", url, "\n");
    string_append(&mut t, SINGLE_RULE);
    string_append(&mut t, "Downloading to: ");
    string_append(&mut t, path);
    string_append(&mut t, "\n");
    string_append(&mut t, "Downloading...\n");
    let got = string_of(&crate::size::scaled_text_vec(len, 20));
    string_append(&mut t, "Downloaded: ");
    string_append(&mut t, got.as_str());
    match total {
        Some(n) => {
            let all = string_of(&crate::size::scaled_text_vec(n, 20));
            string_append(&mut t, " MB / ");
            string_append(&mut t, all.as_str());
            string_append(&mut t, " MB (100%)\n");
        },
        None => {
            string_append(&mut t, " MB\n");
        },
    }
    string_append(&mut t, "✓ Download completed: ");
    string_append(&mut t, path);
    string_append(&mut t, "\n");
    assert(t@ =~= download_report(url@, path@, len, total));
    t
}

/// Each step of the install runs only after the one before it went well,
/// and a failed step ends the install with that step's error.
pub proof fn gaming_steps_in_order(s: GamingRunView, result: Result<Seq<char>, Seq<char>>, filename: Seq<char>, n: GamingNext)
    requires
        1 <= s.step <= 7,
        gaming_run_next_ok(s, result, n),
    ensures
        n matches GamingNext::RunStep(k) ==> k == s.step + 1 && result is Ok,
        result is Err ==> n is Finished && gaming_run_next(s, result, filename).step == 8,
{
}

} // verus!
