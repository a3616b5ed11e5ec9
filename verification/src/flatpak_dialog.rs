//! Installing a Flatpak application: reading `flatpak remote-info` and
//! `flatpak info` output, the install command and its outcome, the log, and
//! the dialog's state machine.
use vstd::prelude::*;
use crate::install_dialog::{field_value, field_value_vec};
use crate::text::{lemma_starts_with_char, after_newline, append_on_new_line, cat2, cat3, cat4, chars_of, contains, i32_text, lines, lines_vec, lowercase, lowercase_contains, signed_decimal, starts_with, starts_with_str, str_contains, str_owned, string_append, string_of, string_views, trim, trim_text, trim_vec, views, same_text};
use crate::transcript::{transcript_header, transcript_header_text};

use crate::dialog_view::{
    ActionButtons, DetailsScreen, action_buttons, action_buttons_of, dependencies_label,
    dependencies_label_of, details_screen, details_screen_of, progress_line, progress_line_of, text_opt,
};

verus! {

/// What the Flatpak install dialog shows of an application.
pub struct FlatpakInfo {
    pub name: String,
    pub application_id: String,
    pub version: String,
    pub branch: String,
    pub arch: String,
    pub summary: String,
    pub description: String,
    pub size: String,
    pub runtime: String,
    pub dependencies: Vec<String>,
}

/// The fields read so far about an application.
pub struct FlatpakFields {
    pub name: Seq<char>,
    pub version: Seq<char>,
    pub branch: Seq<char>,
    pub arch: Seq<char>,
    pub summary: Seq<char>,
    pub description: Seq<char>,
    pub size: Seq<char>,
    pub runtime: Seq<char>,
}

/// The fields before any output is read: the name is the application id.
pub open spec fn initial_fields(app_id: Seq<char>) -> FlatpakFields {
    FlatpakFields {
        name: app_id,
        version: Seq::empty(),
        branch: Seq::empty(),
        arch: Seq::empty(),
        summary: Seq::empty(),
        description: Seq::empty(),
        size: Seq::empty(),
        runtime: Seq::empty(),
    }
}

/// One line of `flatpak remote-info` output: each field line sets its field.
pub open spec fn remote_step(f: FlatpakFields, raw: Seq<char>) -> FlatpakFields {
    let line = trim(raw);
    let v = field_value(line);
    if starts_with(line, "Name:"@) {
        FlatpakFields { name: v, ..f }
    } else if starts_with(line, "Version:"@) {
        FlatpakFields { version: v, ..f }
    } else if starts_with(line, "Branch:"@) {
        FlatpakFields { branch: v, ..f }
    } else if starts_with(line, "Arch:"@) {
        FlatpakFields { arch: v, ..f }
    } else if starts_with(line, "Summary:"@) {
        FlatpakFields { summary: v, ..f }
    } else if starts_with(line, "Description:"@) {
        FlatpakFields { description: v, ..f }
    } else if starts_with(line, "Download size:"@) {
        FlatpakFields { size: v, ..f }
    } else if starts_with(line, "Runtime:"@) {
        FlatpakFields { runtime: v, ..f }
    } else {
        f
    }
}

/// One line of `flatpak info` output: a field line fills its field only while
/// it is still empty (the name only while it is still the application id), and
/// the installed size stands for the size.
pub open spec fn local_step(app_id: Seq<char>, f: FlatpakFields, raw: Seq<char>) -> FlatpakFields {
    let line = trim(raw);
    let v = field_value(line);
    if starts_with(line, "Name:"@) && f.name == app_id {
        FlatpakFields { name: v, ..f }
    } else if starts_with(line, "Version:"@) && f.version.len() == 0 {
        FlatpakFields { version: v, ..f }
    } else if starts_with(line, "Branch:"@) && f.branch.len() == 0 {
        FlatpakFields { branch: v, ..f }
    } else if starts_with(line, "Arch:"@) && f.arch.len() == 0 {
        FlatpakFields { arch: v, ..f }
    } else if starts_with(line, "Summary:"@) && f.summary.len() == 0 {
        FlatpakFields { summary: v, ..f }
    } else if starts_with(line, "Description:"@) && f.description.len() == 0 {
        FlatpakFields { description: v, ..f }
    } else if starts_with(line, "Installed size:"@) && f.size.len() == 0 {
        FlatpakFields { size: v, ..f }
    } else if starts_with(line, "Runtime:"@) && f.runtime.len() == 0 {
        FlatpakFields { runtime: v, ..f }
    } else {
        f
    }
}

/// The fields after reading lines of remote-info output (`local` false) or of
/// info output (`local` true), in order.
pub open spec fn scan_fields(app_id: Seq<char>, f: FlatpakFields, ls: Seq<Seq<char>>, local: bool) -> FlatpakFields
    decreases ls.len(),
{
    if ls.len() == 0 {
        f
    } else {
        let prev = scan_fields(app_id, f, ls.drop_last(), local);
        if local {
            local_step(app_id, prev, ls.last())
        } else {
            remote_step(prev, ls.last())
        }
    }
}

/// The fields being read, kept as characters.
pub struct FieldsReader {
    pub name: Vec<char>,
    pub version: Vec<char>,
    pub branch: Vec<char>,
    pub arch: Vec<char>,
    pub summary: Vec<char>,
    pub description: Vec<char>,
    pub size: Vec<char>,
    pub runtime: Vec<char>,
}

impl View for FieldsReader {
    type V = FlatpakFields;

    open spec fn view(&self) -> FlatpakFields {
        FlatpakFields {
            name: self.name@,
            version: self.version@,
            branch: self.branch@,
            arch: self.arch@,
            summary: self.summary@,
            description: self.description@,
            size: self.size@,
            runtime: self.runtime@,
        }
    }
}

impl FieldsReader {
    /// A reader that has read nothing about `app_id` yet.
    pub fn new(app_id: &str) -> (r: Self)
        ensures
            r@ == initial_fields(app_id@),
    {
        FieldsReader {
            name: chars_of(app_id),
            version: Vec::new(),
            branch: Vec::new(),
            arch: Vec::new(),
            summary: Vec::new(),
            description: Vec::new(),
            size: Vec::new(),
            runtime: Vec::new(),
        }
    }

    /// Whether a second look, at the installed application, is wanted: when no
    /// version has been read.
    pub fn needs_local_info(&self) -> (r: bool)
        ensures
            r == (self@.version.len() == 0),
    {
        self.version.len() == 0
    }

    fn remote_line(&mut self, raw: &Vec<char>)
        ensures
            final(self)@ == remote_step(old(self)@, raw@),
    {
        let line = trim_vec(raw);
        let v = field_value_vec(&line);
        if starts_with_str(&line, "Name:") {
            self.name = v;
        } else if starts_with_str(&line, "Version:") {
            self.version = v;
        } else if starts_with_str(&line, "Branch:") {
            self.branch = v;
        } else if starts_with_str(&line, "Arch:") {
            self.arch = v;
        } else if starts_with_str(&line, "Summary:") {
            self.summary = v;
        } else if starts_with_str(&line, "Description:") {
            self.description = v;
        } else if starts_with_str(&line, "Download size:") {
            self.size = v;
        } else if starts_with_str(&line, "Runtime:") {
            self.runtime = v;
        }
    }

    fn local_line(&mut self, app_id: &Vec<char>, raw: &Vec<char>)
        ensures
            final(self)@ == local_step(app_id@, old(self)@, raw@),
    {
        let line = trim_vec(raw);
        let v = field_value_vec(&line);
        if starts_with_str(&line, "Name:") && same_text(&self.name, app_id) {
            self.name = v;
        } else if starts_with_str(&line, "Version:") && self.version.len() == 0 {
            self.version = v;
        } else if starts_with_str(&line, "Branch:") && self.branch.len() == 0 {
            self.branch = v;
        } else if starts_with_str(&line, "Arch:") && self.arch.len() == 0 {
            self.arch = v;
        } else if starts_with_str(&line, "Summary:") && self.summary.len() == 0 {
            self.summary = v;
        } else if starts_with_str(&line, "Description:") && self.description.len() == 0 {
            self.description = v;
        } else if starts_with_str(&line, "Installed size:") && self.size.len() == 0 {
            self.size = v;
        } else if starts_with_str(&line, "Runtime:") && self.runtime.len() == 0 {
            self.runtime = v;
        }
    }

    /// Reads `flatpak remote-info` output (`local` false) or `flatpak info`
    /// output (`local` true) about `app_id`.
    pub fn read(&mut self, app_id: &str, stdout: &str, local: bool)
        ensures
            final(self)@ == scan_fields(app_id@, old(self)@, lines(stdout@), local),
    {
        let id = chars_of(app_id);
        let text = chars_of(stdout);
        let ls = lines_vec(&text);
        let ghost lsv = views(ls@);
        let ghost start = self@;
        let mut i: usize = 0;
        assert(lsv.take(0) == Seq::<Seq<char>>::empty());
        while i < ls.len()
            invariant
                i <= ls.len(),
                lsv == views(ls@),
                id@ == app_id@,
                self@ == scan_fields(app_id@, start, lsv.take(i as int), local),
            decreases ls.len() - i,
        {
            assert(lsv.take(i + 1).drop_last() == lsv.take(i as int));
            if local {
                self.local_line(&id, &ls[i]);
            } else {
                self.remote_line(&ls[i]);
            }
            i += 1;
        }
        assert(lsv.take(ls.len() as int) == lsv);
    }

    /// The application's information: empty fields get their defaults.
    pub fn finish(self, app_id: &str) -> (r: FlatpakInfo)
        ensures
            r.name@ == (if self@.name.len() == 0 {
                app_id@
            } else {
                self@.name
            }),
            r.application_id@ == app_id@,
            r.version@ == or_default(self@.version, "N/A"@),
            r.branch@ == or_default(self@.branch, "stable"@),
            r.arch@ == or_default(self@.arch, "x86_64"@),
            r.summary@ == or_default(self@.summary, "No summary available"@),
            r.description@ == or_default(self@.description, "No description available"@),
            r.size@ == or_default(self@.size, "Unknown"@),
            r.runtime@ == or_default(self@.runtime, "N/A"@),
            r.dependencies@.len() == 0,
    {
        FlatpakInfo {
            name: if self.name.len() == 0 {
                str_owned(app_id)
            } else {
                string_of(&self.name)
            },
            application_id: str_owned(app_id),
            version: text_or(&self.version, "N/A"),
            branch: text_or(&self.branch, "stable"),
            arch: text_or(&self.arch, "x86_64"),
            summary: text_or(&self.summary, "No summary available"),
            description: text_or(&self.description, "No description available"),
            size: text_or(&self.size, "Unknown"),
            runtime: text_or(&self.runtime, "N/A"),
            dependencies: Vec::new(),
        }
    }
}

/// `s`, or `d` when `s` is empty.
pub open spec fn or_default(s: Seq<char>, d: Seq<char>) -> Seq<char> {
    if s.len() == 0 {
        d
    } else {
        s
    }
}

pub fn text_or(s: &Vec<char>, d: &str) -> (r: String)
    ensures
        r@ == or_default(s@, d@),
{
    if s.len() == 0 {
        str_owned(d)
    } else {
        string_of(s)
    }
}

/// The command line that the install transcript shows.
pub open spec fn install_command_line(app_id: Seq<char>, remote: Option<Seq<char>>) -> Seq<char> {
    "flatpak install -y --noninteractive --verbose "@ + (match remote {
        Some(r) => r,
        None => Seq::empty(),
    }) + " "@ + app_id
}

pub fn install_command_line_text(app_id: &str, remote: &Option<String>) -> (r: String)
    ensures
        r@ == install_command_line(
            app_id@,
            match remote {
                Some(s) => Some(s@),
                None => None,
            },
        ),
{
    let mut t = str_owned("flatpak install -y --noninteractive --verbose ");
    match remote {
        Some(s) => string_append(&mut t, s.as_str()),
        None => {},
    }
    string_append(&mut t, " ");
    string_append(&mut t, app_id);
    t
}

/// The arguments of `flatpak`: install non-interactively and verbosely, from
/// the remote when one is named, the application.
pub fn install_args(app_id: &str, remote: &Option<String>) -> (r: Vec<String>)
    ensures
        string_views(r@) == seq!["install"@, "-y"@, "--noninteractive"@, "--verbose"@] + (match remote {
            Some(s) => if s@.len() > 0 {
                seq![s@]
            } else {
                Seq::empty()
            },
            None => Seq::empty(),
        }) + seq![app_id@],
{
    let mut r: Vec<String> = Vec::new();
    r.push(str_owned("install"));
    r.push(str_owned("-y"));
    r.push(str_owned("--noninteractive"));
    r.push(str_owned("--verbose"));
    let ghost head = string_views(r@);
    match remote {
        Some(s) => {
            if !s.as_str().is_empty() {
                r.push(str_owned(s.as_str()));
            }
        },
        None => {},
    }
    let ghost mid = string_views(r@);
    r.push(str_owned(app_id));
    assert(string_views(r@) == mid.push(app_id@));
    r
}

/// How a finished `flatpak install` is reported, from its exit status, its
/// exit code and its transcript.
pub open spec fn install_outcome(success: bool, code: i32, out: Seq<char>, command: Seq<char>) -> Result<Seq<char>, Seq<char>> {
    let low = lowercase(out);
    if !success {
        if contains(low, "already installed"@) || contains(low, "is already installed"@) || contains(
            low,
            "nothing to do"@,
        ) {
            Ok("Application is already installed.\n\n"@ + out)
        } else {
            Err("Installation failed (exit code: "@ + signed_decimal(code as int) + "):\n"@ + out)
        }
    } else if trim(out).len() == 0 || trim(out) == trim(transcript_header(command)) {
        Ok("Installation Complete!"@)
    } else if contains(low, "complete"@) || contains(low, "installed"@) || contains(
        low,
        "success"@,
    ) {
        Ok(out)
    } else {
        Ok("Installation completed.\n\n"@ + out)
    }
}

pub fn install_outcome_text(success: bool, code: i32, out: &str, command: &str) -> (r: Result<String, String>)
    ensures
        (match r {
            Ok(m) => Ok(m@),
            Err(e) => Err(e@),
        }) == install_outcome(success, code, out@, command@),
{
    let low = crate::text::to_lowercase(out);
    if !success {
        if str_contains(low.as_str(), "already installed") || str_contains(
            low.as_str(),
            "is already installed",
        ) || str_contains(low.as_str(), "nothing to do") {
            return Ok(cat2("Application is already installed.\n\n", out));
        }
        let c = i32_text(code);
        return Err(cat4("Installation failed (exit code: ", c.as_str(), "):\n", out));
    }
    let t = chars_of(trim_text(out).as_str());
    let header = transcript_header_text(command);
    let h = chars_of(trim_text(header.as_str()).as_str());
    if t.len() == 0 || same_text(&t, &h) {
        Ok(str_owned("Installation Complete!"))
    } else if str_contains(low.as_str(), "complete") || str_contains(low.as_str(), "installed")
        || str_contains(low.as_str(), "success") {
        Ok(str_owned(out))
    } else {
        Ok(cat2("Installation completed.\n\n", out))
    }
}

/// The name of a log file: operation and time of day.
pub open spec fn log_file_name(operation: Seq<char>, stamp: Seq<char>) -> Seq<char> {
    "flatpak_"@ + operation + "_"@ + stamp + ".log"@
}

pub fn log_file_name_text(operation: &str, stamp: &str) -> (r: String)
    ensures
        r@ == log_file_name(operation@, stamp@),
{
    let mut t = cat4("flatpak_", operation, "_", stamp);
    string_append(&mut t, ".log");
    t
}

/// The text of a Flatpak operation's log.
pub open spec fn log_content(operation: Seq<char>, time: Seq<char>, app_id: Seq<char>, remote: Option<Seq<char>>, output: Seq<char>, success: bool) -> Seq<char> {
    "=== Flatpak "@ + operation + " Log ===\n"@ + "Timestamp: "@ + time + "\n"@ + "Application ID: "@
        + app_id + "\n"@ + (match remote {
        Some(r) => "Remote: "@ + r + "\n"@,
        None => Seq::empty(),
    }) + "Status: "@ + (if success {
        "SUCCESS"@
    } else {
        "FAILED"@
    }) + "\n"@ + "\n--- Command Output ---\n"@ + output + "\n--- End of Log ---\n"@
}

pub fn log_content_text(operation: &str, time: &str, app_id: &str, remote: &Option<String>, output: &str, success: bool) -> (r: String)
    ensures
        r@ == log_content(
            operation@,
            time@,
            app_id@,
            match remote {
                Some(s) => Some(s@),
                None => None,
            },
            output@,
            success,
        ),
{
    let mut t = cat3("=== Flatpak ", operation, " Log ===\n");
    string_append(&mut t, "Timestamp: ");
    string_append(&mut t, time);
    string_append(&mut t, "\n");
    string_append(&mut t, "Application ID: ");
    string_append(&mut t, app_id);
    string_append(&mut t, "\n");
    let ghost before_remote = t@;
    match remote {
        Some(r) => {
            string_append(&mut t, "Remote: ");
            string_append(&mut t, r.as_str());
            string_append(&mut t, "\n");
        },
        None => {
            assert(t@ == before_remote + Seq::<char>::empty());
        },
    }
    string_append(&mut t, "Status: ");
    if success {
        string_append(&mut t, "SUCCESS");
    } else {
        string_append(&mut t, "FAILED");
    }
    string_append(&mut t, "\n");
    string_append(&mut t, "\n--- Command Output ---\n");
    string_append(&mut t, output);
    string_append(&mut t, "\n--- End of Log ---\n");
    t
}

/// Whether a progress report of the Flatpak install dialog says that the
/// work is done.
pub open spec fn reports_done(p: Seq<char>) -> bool {
    contains(p, "Complete"@) || contains(p, "Installed"@) || contains(p, "complete"@) || contains(
        lowercase(p),
        "success"@,
    ) || contains(p, "already installed"@)
}

pub fn reports_done_text(p: &str) -> (r: bool)
    ensures
        r == reports_done(p@),
{
    str_contains(p, "Complete") || str_contains(p, "Installed") || str_contains(p, "complete")
        || lowercase_contains(p, "success") || str_contains(p, "already installed")
}

pub enum Message {
    LoadFlatpakInfo,
    FlatpakInfoLoaded(FlatpakInfo),
    InstallFlatpak,
    InstallationProgress(String),
    InstallationComplete,
    InstallationError(String),
    Cancel,
}

/// What the dialog asks its runner to do after a message.
pub enum Action {
    Idle,
    /// Read the information of this application, from this remote if any.
    LoadFlatpakInfo(String, Option<String>),
    /// Install this application, from this remote if any.
    InstallFlatpak(String, Option<String>),
    /// Deliver `InstallationComplete` next.
    MarkComplete,
    CloseWindow,
}

pub struct FlatpakDialog {
    pub application_id: String,
    pub remote: Option<String>,
    pub flatpak_info: Option<FlatpakInfo>,
    pub is_loading: bool,
    pub is_installing: bool,
    pub is_complete: bool,
    pub installation_progress: String,
    pub terminal_output: String,
    pub show_dialog: bool,
}

pub struct FlatpakView {
    pub application_id: Seq<char>,
    pub remote: Option<Seq<char>>,
    pub flatpak_info: Option<FlatpakInfo>,
    pub is_loading: bool,
    pub is_installing: bool,
    pub is_complete: bool,
    pub installation_progress: Seq<char>,
    pub terminal_output: Seq<char>,
    pub show_dialog: bool,
}

pub open spec fn opt_view(o: Option<String>) -> Option<Seq<char>> {
    match o {
        Some(s) => Some(s@),
        None => None,
    }
}

impl View for FlatpakDialog {
    type V = FlatpakView;

    open spec fn view(&self) -> FlatpakView {
        FlatpakView {
            application_id: self.application_id@,
            remote: opt_view(self.remote),
            flatpak_info: self.flatpak_info,
            is_loading: self.is_loading,
            is_installing: self.is_installing,
            is_complete: self.is_complete,
            installation_progress: self.installation_progress@,
            terminal_output: self.terminal_output@,
            show_dialog: self.show_dialog,
        }
    }
}

/// The text that a finished installation leaves in the terminal pane.
pub open spec fn completed_terminal(t: Seq<char>) -> Seq<char> {
    if contains(t, "completed successfully"@) {
        t
    } else {
        t + "\n[OK] Installation completed successfully!"@
    }
}

/// The Flatpak install dialog after a message.
pub open spec fn flatpak_next(s: FlatpakView, m: Message) -> FlatpakView {
    match m {
        Message::LoadFlatpakInfo => FlatpakView { is_loading: true, ..s },
        Message::FlatpakInfoLoaded(info) => FlatpakView {
            is_loading: false,
            flatpak_info: Some(info),
            ..s
        },
        Message::InstallFlatpak => FlatpakView {
            is_installing: true,
            installation_progress: "Preparing installation..."@,
            terminal_output: Seq::empty(),
            ..s
        },
        Message::InstallationProgress(p) => FlatpakView {
            terminal_output: after_newline(s.terminal_output, p@),
            installation_progress: p@,
            ..s
        },
        Message::InstallationComplete => FlatpakView {
            is_installing: false,
            is_complete: true,
            installation_progress: "Installation completed successfully!"@,
            terminal_output: completed_terminal(s.terminal_output),
            ..s
        },
        Message::InstallationError(_) => FlatpakView { is_installing: false, ..s },
        Message::Cancel => s,
    }
}

/// What the Flatpak install dialog asks for after a message.
pub open spec fn flatpak_action_ok(s: FlatpakView, m: Message, a: Action) -> bool {
    match m {
        Message::LoadFlatpakInfo => a matches Action::LoadFlatpakInfo(id, r) && id@ == s.application_id
            && opt_view(r) == s.remote,
        Message::InstallFlatpak => a matches Action::InstallFlatpak(id, r) && id@ == s.application_id
            && opt_view(r) == s.remote,
        Message::InstallationProgress(p) => if reports_done(p@) {
            a is MarkComplete
        } else {
            a is Idle
        },
        Message::Cancel => a is CloseWindow,
        _ => a is Idle,
    }
}

pub fn clone_opt(o: &Option<String>) -> (r: Option<String>)
    ensures
        opt_view(r) == opt_view(*o),
{
    match o {
        Some(s) => Some(str_owned(s.as_str())),
        None => None,
    }
}

impl FlatpakDialog {
    /// A dialog for installing `application_id`, from `remote` if given,
    /// loading its information.
    pub fn new(application_id: String, remote: Option<String>) -> (r: Self)
        ensures
            r@ == (FlatpakView {
                application_id: application_id@,
                remote: opt_view(remote),
                flatpak_info: None,
                is_loading: true,
                is_installing: false,
                is_complete: false,
                installation_progress: Seq::empty(),
                terminal_output: Seq::empty(),
                show_dialog: true,
            }),
    {
        FlatpakDialog {
            application_id,
            remote,
            flatpak_info: None,
            is_loading: true,
            is_installing: false,
            is_complete: false,
            installation_progress: String::new(),
            terminal_output: String::new(),
            show_dialog: true,
        }
    }

    pub fn title(&self) -> (r: String)
        ensures
            r@ == (match self.flatpak_info {
                Some(info) => "Install "@ + info.name@ + " - Rustora"@,
                None => "Install Flatpak - Rustora"@,
            }),
    {
        match &self.flatpak_info {
            Some(info) => cat3("Install ", info.name.as_str(), " - Rustora"),
            None => str_owned("Install Flatpak - Rustora"),
        }
    }

    /// Takes in a message and says what to do next.
    pub fn update(&mut self, message: Message) -> (a: Action)
        ensures
            final(self)@ == flatpak_next(old(self)@, message),
            flatpak_action_ok(old(self)@, message, a),
    {
        match message {
            Message::LoadFlatpakInfo => {
                self.is_loading = true;
                Action::LoadFlatpakInfo(
                    str_owned(self.application_id.as_str()),
                    clone_opt(&self.remote),
                )
            },
            Message::FlatpakInfoLoaded(info) => {
                self.is_loading = false;
                self.flatpak_info = Some(info);
                Action::Idle
            },
            Message::InstallFlatpak => {
                self.is_installing = true;
                self.installation_progress = str_owned("Preparing installation...");
                self.terminal_output = String::new();
                Action::InstallFlatpak(
                    str_owned(self.application_id.as_str()),
                    clone_opt(&self.remote),
                )
            },
            Message::InstallationProgress(output) => {
                append_on_new_line(&mut self.terminal_output, output.as_str());
                let done = reports_done_text(output.as_str());
                self.installation_progress = output;
                if done {
                    Action::MarkComplete
                } else {
                    Action::Idle
                }
            },
            Message::InstallationComplete => {
                self.is_installing = false;
                self.is_complete = true;
                self.installation_progress = str_owned("Installation completed successfully!");
                if !str_contains(self.terminal_output.as_str(), "completed successfully") {
                    string_append(
                        &mut self.terminal_output,
                        "\n[OK] Installation completed successfully!",
                    );
                }
                Action::Idle
            },
            Message::InstallationError(_msg) => {
                self.is_installing = false;
                Action::Idle
            },
            Message::Cancel => Action::CloseWindow,
        }
    }
}

/// Once the Flatpak install dialog has completed, no message undoes it.
pub proof fn flatpak_completion_is_kept(s: FlatpakView, m: Message)
    requires
        s.is_complete,
    ensures
        flatpak_next(s, m).is_complete,
{
}

/// Progress reports only add to the terminal pane: what it held before stays
/// at its start.
pub proof fn flatpak_progress_keeps_terminal(s: FlatpakView, p: String)
    ensures
        flatpak_next(s, Message::InstallationProgress(p)).terminal_output.subrange(
            0,
            s.terminal_output.len() as int,
        ) == s.terminal_output,
{
    let t = flatpak_next(s, Message::InstallationProgress(p)).terminal_output;
    if s.terminal_output.len() == 0 {
        assert(t.subrange(0, 0) =~= s.terminal_output);
    } else {
        assert(t.subrange(0, s.terminal_output.len() as int) =~= s.terminal_output);
    }
}


/// The heading of the details screen, once the application's details are read.
pub open spec fn flatpak_header(s: FlatpakView) -> Option<Seq<char>> {
    match s.flatpak_info {
        Some(i) => Some("Install "@ + i.name@),
        None => None,
    }
}

/// The heading of the dependency list, shown where there are dependencies.
pub open spec fn flatpak_dependencies_heading(s: FlatpakView) -> Option<Seq<char>> {
    match s.flatpak_info {
        Some(i) => if i.dependencies.len() > 0 {
            Some(dependencies_label(i.dependencies@.len()))
        } else {
            None
        },
        None => None,
    }
}

impl FlatpakDialog {
    /// Which screen the dialog shows.
    pub fn screen(&self) -> (r: DetailsScreen)
        ensures
            r == details_screen(self@.show_dialog, self@.is_loading, self@.flatpak_info is Some),
    {
        details_screen_of(self.show_dialog, self.is_loading, self.flatpak_info.is_some())
    }

    /// The buttons under the details: Close once done, a busy Install while
    /// installing, else Cancel and Install.
    pub fn buttons(&self) -> (r: ActionButtons)
        ensures
            r == action_buttons(self@.is_complete, self@.is_installing),
    {
        action_buttons_of(self.is_complete, self.is_installing)
    }

    /// The heading of the details screen.
    pub fn header(&self) -> (r: Option<String>)
        ensures
            text_opt(r) == flatpak_header(self@),
    {
        match &self.flatpak_info {
            Some(i) => Some(cat2("Install ", i.name.as_str())),
            None => None,
        }
    }

    /// The line under the progress bar, if one is shown.
    pub fn progress_line(&self) -> (r: Option<String>)
        ensures
            text_opt(r) == progress_line(
                self@.is_complete,
                self@.is_installing,
                "Installation completed successfully!"@,
                self@.installation_progress,
            ),
    {
        progress_line_of(
            self.is_complete,
            self.is_installing,
            "Installation completed successfully!",
            self.installation_progress.as_str(),
        )
    }

    /// The heading of the dependency list, if one is shown.
    pub fn dependencies_heading(&self) -> (r: Option<String>)
        ensures
            text_opt(r) == flatpak_dependencies_heading(self@),
    {
        match &self.flatpak_info {
            Some(i) => if i.dependencies.len() > 0 {
                Some(dependencies_label_of(i.dependencies.len()))
            } else {
                None
            },
            None => None,
        }
    }

    /// Whether the terminal pane is shown: during and after the install,
    /// once it holds text.
    pub fn shows_terminal(&self) -> (r: bool)
        ensures
            r == ((self@.is_installing || self@.is_complete) && self@.terminal_output.len() > 0),
    {
        (self.is_installing || self.is_complete) && !self.terminal_output.as_str().is_empty()
    }
}


/// The label of the `k`th field in `flatpak remote-info` output.
pub open spec fn remote_label_of(k: int) -> Seq<char> {
    if k == 0 {
        "Name:"@
    } else if k == 1 {
        "Version:"@
    } else if k == 2 {
        "Branch:"@
    } else if k == 3 {
        "Arch:"@
    } else if k == 4 {
        "Summary:"@
    } else if k == 5 {
        "Description:"@
    } else if k == 6 {
        "Download size:"@
    } else {
        "Runtime:"@
    }
}

/// The `k`th field, in the order of `remote_label_of`.
pub open spec fn field_of(f: FlatpakFields, k: int) -> Seq<char> {
    if k == 0 {
        f.name
    } else if k == 1 {
        f.version
    } else if k == 2 {
        f.branch
    } else if k == 3 {
        f.arch
    } else if k == 4 {
        f.summary
    } else if k == 5 {
        f.description
    } else if k == 6 {
        f.size
    } else {
        f.runtime
    }
}

/// A line starts with at most one of the labels.
proof fn lemma_one_label(line: Seq<char>, k: int, m: int)
    requires
        0 <= k < 8,
        0 <= m < 8,
        k != m,
        starts_with(line, remote_label_of(k)),
    ensures
        !starts_with(line, remote_label_of(m)),
{
    reveal_strlit("Name:");
    reveal_strlit("Version:");
    reveal_strlit("Branch:");
    reveal_strlit("Arch:");
    reveal_strlit("Summary:");
    reveal_strlit("Description:");
    reveal_strlit("Download size:");
    reveal_strlit("Runtime:");
    lemma_starts_with_char(line, remote_label_of(k), 0);
    lemma_starts_with_char(line, remote_label_of(k), 1);
    if starts_with(line, remote_label_of(m)) {
        lemma_starts_with_char(line, remote_label_of(m), 0);
        lemma_starts_with_char(line, remote_label_of(m), 1);
    }
}

/// One line of remote-info output sets the field that it labels, to the
/// text after its colon, and leaves every other field as it was.
proof fn lemma_remote_line(f: FlatpakFields, raw: Seq<char>, k: int)
    requires
        0 <= k < 8,
    ensures
        starts_with(trim(raw), remote_label_of(k)) ==> field_of(remote_step(f, raw), k)
            == field_value(trim(raw)),
        !starts_with(trim(raw), remote_label_of(k)) ==> field_of(remote_step(f, raw), k)
            == field_of(f, k),
{
    let line = trim(raw);
    if starts_with(line, remote_label_of(k)) {
        if k != 0 {
            lemma_one_label(line, k, 0);
        }
        if k != 1 {
            lemma_one_label(line, k, 1);
        }
        if k != 2 {
            lemma_one_label(line, k, 2);
        }
        if k != 3 {
            lemma_one_label(line, k, 3);
        }
        if k != 4 {
            lemma_one_label(line, k, 4);
        }
        if k != 5 {
            lemma_one_label(line, k, 5);
        }
        if k != 6 {
            lemma_one_label(line, k, 6);
        }
        if k != 7 {
            lemma_one_label(line, k, 7);
        }
        assert(!starts_with(line, remote_label_of(0)) || k == 0);
        assert(!starts_with(line, remote_label_of(1)) || k == 1);
        assert(!starts_with(line, remote_label_of(2)) || k == 2);
        assert(!starts_with(line, remote_label_of(3)) || k == 3);
        assert(!starts_with(line, remote_label_of(4)) || k == 4);
        assert(!starts_with(line, remote_label_of(5)) || k == 5);
        assert(!starts_with(line, remote_label_of(6)) || k == 6);
        assert(!starts_with(line, remote_label_of(7)) || k == 7);
    }
}

/// Reading remote-info output, each field ends as the text after the colon
/// of the last line labelled with it: no line labelled with another field
/// changes it.
pub proof fn remote_field_is_last_labelled_line(
    app_id: Seq<char>,
    f: FlatpakFields,
    ls: Seq<Seq<char>>,
    k: int,
    i: int,
)
    requires
        0 <= k < 8,
        0 <= i < ls.len(),
        starts_with(trim(ls[i]), remote_label_of(k)),
        forall|j: int| i < j < ls.len() ==> !starts_with(#[trigger] trim(ls[j]), remote_label_of(k)),
    ensures
        field_of(scan_fields(app_id, f, ls, false), k) == field_value(trim(ls[i])),
    decreases ls.len(),
{
    let prev = scan_fields(app_id, f, ls.drop_last(), false);
    lemma_remote_line(prev, ls.last(), k);
    if i < ls.len() - 1 {
        assert(!starts_with(trim(ls[ls.len() - 1]), remote_label_of(k)));
        assert forall|j: int| i < j < ls.drop_last().len() implies !starts_with(
            #[trigger] trim(ls.drop_last()[j]),
            remote_label_of(k),
        ) by {
            assert(ls.drop_last()[j] == ls[j]);
        }
        remote_field_is_last_labelled_line(app_id, f, ls.drop_last(), k, i);
    }
}

/// Reading remote-info output without a line labelled with a field leaves
/// that field as it was.
pub proof fn remote_field_unlabelled_is_kept(app_id: Seq<char>, f: FlatpakFields, ls: Seq<Seq<char>>, k: int)
    requires
        0 <= k < 8,
        forall|j: int| 0 <= j < ls.len() ==> !starts_with(#[trigger] trim(ls[j]), remote_label_of(k)),
    ensures
        field_of(scan_fields(app_id, f, ls, false), k) == field_of(f, k),
    decreases ls.len(),
{
    if ls.len() > 0 {
        let prev = scan_fields(app_id, f, ls.drop_last(), false);
        lemma_remote_line(prev, ls.last(), k);
        assert(!starts_with(trim(ls[ls.len() - 1]), remote_label_of(k)));
        assert forall|j: int| 0 <= j < ls.drop_last().len() implies !starts_with(
            #[trigger] trim(ls.drop_last()[j]),
            remote_label_of(k),
        ) by {
            assert(ls.drop_last()[j] == ls[j]);
        }
        remote_field_unlabelled_is_kept(app_id, f, ls.drop_last(), k);
    }
}


/// The label of the `k`th field in `flatpak info` output.
pub open spec fn local_label_of(k: int) -> Seq<char> {
    if k == 6 {
        "Installed size:"@
    } else {
        remote_label_of(k)
    }
}

proof fn lemma_one_local_label(line: Seq<char>, k: int, m: int)
    requires
        0 <= k < 8,
        0 <= m < 8,
        k != m,
        starts_with(line, local_label_of(k)),
    ensures
        !starts_with(line, local_label_of(m)),
{
    reveal_strlit("Name:");
    reveal_strlit("Version:");
    reveal_strlit("Branch:");
    reveal_strlit("Arch:");
    reveal_strlit("Summary:");
    reveal_strlit("Description:");
    reveal_strlit("Installed size:");
    reveal_strlit("Runtime:");
    lemma_starts_with_char(line, local_label_of(k), 0);
    lemma_starts_with_char(line, local_label_of(k), 1);
    if starts_with(line, local_label_of(m)) {
        lemma_starts_with_char(line, local_label_of(m), 0);
        lemma_starts_with_char(line, local_label_of(m), 1);
    }
}

/// One line of info output that labels field `k` (not the name) fills it
/// when it is empty; no line changes a field that it does not label, and
/// none changes a field that already holds text.
pub proof fn local_line_fills_only_its_field(app_id: Seq<char>, f: FlatpakFields, raw: Seq<char>, k: int)
    requires
        1 <= k < 8,
    ensures
        starts_with(trim(raw), local_label_of(k)) && field_of(f, k).len() == 0 ==> field_of(
            local_step(app_id, f, raw),
            k,
        ) == field_value(trim(raw)),
        !starts_with(trim(raw), local_label_of(k)) || field_of(f, k).len() > 0 ==> field_of(
            local_step(app_id, f, raw),
            k,
        ) == field_of(f, k),
{
    let line = trim(raw);
    if starts_with(line, local_label_of(k)) {
        if k != 0 {
            lemma_one_local_label(line, k, 0);
        }
        if k != 1 {
            lemma_one_local_label(line, k, 1);
        }
        if k != 2 {
            lemma_one_local_label(line, k, 2);
        }
        if k != 3 {
            lemma_one_local_label(line, k, 3);
        }
        if k != 4 {
            lemma_one_local_label(line, k, 4);
        }
        if k != 5 {
            lemma_one_local_label(line, k, 5);
        }
        if k != 6 {
            lemma_one_local_label(line, k, 6);
        }
        if k != 7 {
            lemma_one_local_label(line, k, 7);
        }
    }
}

proof fn lemma_local_take(app_id: Seq<char>, f: FlatpakFields, ls: Seq<Seq<char>>, n: int)
    requires
        0 <= n < ls.len(),
    ensures
        scan_fields(app_id, f, ls.take(n + 1), true) == local_step(
            app_id,
            scan_fields(app_id, f, ls.take(n), true),
            ls[n],
        ),
{
    assert(ls.take(n + 1).drop_last() =~= ls.take(n));
}

proof fn lemma_local_still_empty(app_id: Seq<char>, f: FlatpakFields, ls: Seq<Seq<char>>, k: int, n: int)
    requires
        1 <= k < 8,
        0 <= n <= ls.len(),
        field_of(f, k).len() == 0,
        forall|j: int| 0 <= j < n && starts_with(trim(ls[j]), local_label_of(k)) ==> #[trigger] field_value(trim(ls[j])).len() == 0,
    ensures
        field_of(scan_fields(app_id, f, ls.take(n), true), k).len() == 0,
    decreases n,
{
    if n == 0 {
        assert(ls.take(0) =~= Seq::<Seq<char>>::empty());
    } else {
        lemma_local_still_empty(app_id, f, ls, k, n - 1);
        lemma_local_take(app_id, f, ls, n - 1);
        local_line_fills_only_its_field(app_id, scan_fields(app_id, f, ls.take(n - 1), true), ls[n - 1], k);
        if starts_with(trim(ls[n - 1]), local_label_of(k)) {
            assert(field_value(trim(ls[n - 1])).len() == 0);
        }
    }
}

proof fn lemma_local_kept(app_id: Seq<char>, f: FlatpakFields, ls: Seq<Seq<char>>, k: int, i: int, n: int)
    requires
        1 <= k < 8,
        0 <= i < n <= ls.len(),
        field_of(scan_fields(app_id, f, ls.take(i + 1), true), k).len() > 0,
    ensures
        field_of(scan_fields(app_id, f, ls.take(n), true), k) == field_of(
            scan_fields(app_id, f, ls.take(i + 1), true),
            k,
        ),
    decreases n,
{
    if n > i + 1 {
        lemma_local_kept(app_id, f, ls, k, i, n - 1);
        lemma_local_take(app_id, f, ls, n - 1);
        local_line_fills_only_its_field(app_id, scan_fields(app_id, f, ls.take(n - 1), true), ls[n - 1], k);
    }
}

/// Reading info output into an empty field, the field ends as the text after
/// the colon of the first line labelled with it that holds any text: later
/// lines, and lines labelled with other fields, leave it alone.
pub proof fn local_field_is_first_filled_line(
    app_id: Seq<char>,
    f: FlatpakFields,
    ls: Seq<Seq<char>>,
    k: int,
    i: int,
)
    requires
        1 <= k < 8,
        field_of(f, k).len() == 0,
        0 <= i < ls.len(),
        starts_with(trim(ls[i]), local_label_of(k)),
        field_value(trim(ls[i])).len() > 0,
        forall|j: int| 0 <= j < i && starts_with(trim(ls[j]), local_label_of(k)) ==> #[trigger] field_value(trim(ls[j])).len() == 0,
    ensures
        field_of(scan_fields(app_id, f, ls, true), k) == field_value(trim(ls[i])),
{
    lemma_local_still_empty(app_id, f, ls, k, i);
    lemma_local_take(app_id, f, ls, i);
    local_line_fills_only_its_field(app_id, scan_fields(app_id, f, ls.take(i), true), ls[i], k);
    lemma_local_kept(app_id, f, ls, k, i, ls.len() as int);
    assert(ls.take(ls.len() as int) =~= ls);
}

} // verus!
