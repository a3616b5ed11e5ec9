//! Updating Flatpak applications: the update command, its outcome, and the
//! dialog's state machine.
use vstd::prelude::*;
use crate::flatpak_dialog::opt_view;
use crate::text::{
    after_newline, append_on_new_line, cat2, cat3, cat4, chars_of, contains, decimal, i32_text,
    join, join_strings, lowercase, lowercase_contains, same_text, signed_decimal, str_contains,
    str_owned, string_append, string_views, to_lowercase, trim, trim_text, usize_text,
};
use crate::transcript::{transcript_header, transcript_header_text};

use crate::dialog_view::{ActionButtons, action_buttons, action_buttons_of, text_opt};

verus! {

/// An application that has an update.
pub struct FlatpakUpdateInfo {
    pub name: String,
    pub application_id: String,
    pub version: String,
    pub remote: Option<String>,
}

/// The id of the first application whose name or id, lowercased, occurs in
/// the lowercased output.
pub open spec fn matching_package(pkgs: Seq<FlatpakUpdateInfo>, low: Seq<char>) -> Option<Seq<char>>
    decreases pkgs.len(),
{
    if pkgs.len() == 0 {
        None
    } else if contains(low, lowercase(pkgs[0].name@)) || contains(
        low,
        lowercase(pkgs[0].application_id@),
    ) {
        Some(pkgs[0].application_id@)
    } else {
        matching_package(pkgs.drop_first(), low)
    }
}

fn find_matching_package(pkgs: &Vec<FlatpakUpdateInfo>, output: &str) -> (r: Option<String>)
    ensures
        opt_view(r) == matching_package(pkgs@, lowercase(output@)),
{
    let low = to_lowercase(output);
    let n = pkgs.len();
    let mut i: usize = 0;
    assert(pkgs@.subrange(0, n as int) == pkgs@);
    while i < n
        invariant
            i <= n == pkgs.len(),
            low@ == lowercase(output@),
            matching_package(pkgs@, low@) == matching_package(pkgs@.subrange(i as int, n as int), low@),
        decreases n - i,
    {
        let ghost rest = pkgs@.subrange(i as int, n as int);
        let nl = to_lowercase(pkgs[i].name.as_str());
        let il = to_lowercase(pkgs[i].application_id.as_str());
        if str_contains(low.as_str(), nl.as_str()) || str_contains(low.as_str(), il.as_str()) {
            return Some(str_owned(pkgs[i].application_id.as_str()));
        }
        assert(rest.drop_first() == pkgs@.subrange(i + 1, n as int));
        i += 1;
    }
    None
}

/// The arguments of `flatpak`: update applications non-interactively and
/// verbosely, these ones.
pub fn update_args(packages: &Vec<String>) -> (r: Vec<String>)
    ensures
        string_views(r@) == seq!["update"@, "--app"@, "-y"@, "--noninteractive"@, "--verbose"@]
            + string_views(packages@),
{
    let mut r: Vec<String> = Vec::new();
    r.push(str_owned("update"));
    r.push(str_owned("--app"));
    r.push(str_owned("-y"));
    r.push(str_owned("--noninteractive"));
    r.push(str_owned("--verbose"));
    let ghost head = string_views(r@);
    let mut i: usize = 0;
    while i < packages.len()
        invariant
            i <= packages.len(),
            string_views(r@) == head + string_views(packages@).take(i as int),
        decreases packages.len() - i,
    {
        let c = str_owned(packages[i].as_str());
        let ghost prev = string_views(r@);
        r.push(c);
        assert(string_views(r@) == prev.push(c@));
        assert(string_views(packages@).take(i + 1) == string_views(packages@).take(i as int).push(
            packages@[i as int]@,
        ));
        i += 1;
    }
    assert(string_views(packages@).take(packages.len() as int) == string_views(packages@));
    r
}

/// The command line that the update transcript shows.
pub open spec fn update_command_line(packages: Seq<Seq<char>>) -> Seq<char> {
    "flatpak update --app -y --noninteractive --verbose "@ + join(packages, " "@)
}

pub fn update_command_line_text(packages: &Vec<String>) -> (r: String)
    ensures
        r@ == update_command_line(string_views(packages@)),
{
    let j = join_strings(packages, " ");
    cat2("flatpak update --app -y --noninteractive --verbose ", j.as_str())
}

/// How a finished `flatpak update` is reported.
pub open spec fn update_outcome(success: bool, code: i32, out: Seq<char>, command: Seq<char>) -> Result<Seq<char>, Seq<char>> {
    let low = lowercase(out);
    if !success {
        if contains(low, "nothing to do"@) || contains(low, "no updates"@) {
            Ok("No updates needed.\n\n"@ + out)
        } else {
            Err("Update failed (exit code: "@ + signed_decimal(code as int) + "):\n"@ + out)
        }
    } else if trim(out).len() == 0 || trim(out) == trim(transcript_header(command)) {
        Ok("Update Complete!"@)
    } else if contains(low, "complete"@) || contains(low, "installed"@) || contains(
        low,
        "success"@,
    ) {
        Ok(out)
    } else {
        Ok("Update completed.\n\n"@ + out)
    }
}

pub fn update_outcome_text(success: bool, code: i32, out: &str, command: &str) -> (r: Result<String, String>)
    ensures
        (match r {
            Ok(m) => Ok(m@),
            Err(e) => Err(e@),
        }) == update_outcome(success, code, out@, command@),
{
    let low = to_lowercase(out);
    if !success {
        if str_contains(low.as_str(), "nothing to do") || str_contains(low.as_str(), "no updates") {
            return Ok(cat2("No updates needed.\n\n", out));
        }
        let c = i32_text(code);
        return Err(cat4("Update failed (exit code: ", c.as_str(), "):\n", out));
    }
    let t = chars_of(trim_text(out).as_str());
    let header = transcript_header_text(command);
    let h = chars_of(trim_text(header.as_str()).as_str());
    if t.len() == 0 || same_text(&t, &h) {
        Ok(str_owned("Update Complete!"))
    } else if str_contains(low.as_str(), "complete") || str_contains(low.as_str(), "installed")
        || str_contains(low.as_str(), "success") {
        Ok(str_owned(out))
    } else {
        Ok(cat2("Update completed.\n\n", out))
    }
}

/// Whether a progress report of the update dialog says that the work is done.
pub open spec fn reports_done(p: Seq<char>) -> bool {
    contains(p, "Complete"@) || contains(p, "Installed"@) || contains(p, "complete"@) || contains(
        lowercase(p),
        "success"@,
    ) || contains(p, "Nothing to do"@)
}

pub fn reports_done_text(p: &str) -> (r: bool)
    ensures
        r == reports_done(p@),
{
    str_contains(p, "Complete") || str_contains(p, "Installed") || str_contains(p, "complete")
        || lowercase_contains(p, "success") || str_contains(p, "Nothing to do")
}

pub enum Message {
    StartUpdate,
    UpdateProgress(String),
    UpdateComplete,
    UpdateError(String),
    Cancel,
}

/// What the dialog asks its runner to do after a message.
pub enum Action {
    Idle,
    /// Update the applications with these ids.
    UpdateFlatpaks(Vec<String>),
    /// Deliver `UpdateComplete` next.
    MarkComplete,
    CloseWindow,
}

pub struct FlatpakUpdateDialog {
    packages: Vec<FlatpakUpdateInfo>,
    is_updating: bool,
    is_complete: bool,
    has_error: bool,
    progress_text: String,
    terminal_output: String,
    current_package: Option<String>,
}

pub struct UpdateView {
    pub packages: Seq<FlatpakUpdateInfo>,
    pub is_updating: bool,
    pub is_complete: bool,
    pub has_error: bool,
    pub progress_text: Seq<char>,
    pub terminal_output: Seq<char>,
    pub current_package: Option<Seq<char>>,
}

impl View for FlatpakUpdateDialog {
    type V = UpdateView;

    closed spec fn view(&self) -> UpdateView {
        UpdateView {
            packages: self.packages@,
            is_updating: self.is_updating,
            is_complete: self.is_complete,
            has_error: self.has_error,
            progress_text: self.progress_text@,
            terminal_output: self.terminal_output@,
            current_package: opt_view(self.current_package),
        }
    }
}

/// The ids of the applications to update, in order.
pub open spec fn package_ids(pkgs: Seq<FlatpakUpdateInfo>) -> Seq<Seq<char>> {
    pkgs.map_values(|p: FlatpakUpdateInfo| p.application_id@)
}

/// The update dialog after a message.
pub open spec fn update_next(s: UpdateView, m: Message) -> UpdateView {
    match m {
        Message::StartUpdate => UpdateView {
            is_updating: true,
            has_error: false,
            progress_text: "Starting update..."@,
            terminal_output: Seq::empty(),
            ..s
        },
        Message::UpdateProgress(out) => UpdateView {
            terminal_output: after_newline(s.terminal_output, out@),
            progress_text: out@,
            current_package: match matching_package(s.packages, lowercase(out@)) {
                Some(id) => Some(id),
                None => s.current_package,
            },
            ..s
        },
        Message::UpdateComplete => UpdateView {
            is_updating: false,
            is_complete: true,
            current_package: None,
            progress_text: "Update completed successfully!"@,
            terminal_output: if contains(s.terminal_output, "completed successfully"@) {
                s.terminal_output
            } else {
                s.terminal_output + "\n[OK] Update completed successfully!"@
            },
            ..s
        },
        Message::UpdateError(msg) => UpdateView {
            is_updating: false,
            has_error: true,
            current_package: None,
            progress_text: "Update failed: "@ + msg@,
            terminal_output: if contains(s.terminal_output, "failed"@) {
                s.terminal_output
            } else {
                s.terminal_output + "\n[FAIL] Update failed: "@ + msg@
            },
            ..s
        },
        Message::Cancel => s,
    }
}

pub open spec fn update_action_ok(s: UpdateView, m: Message, a: Action) -> bool {
    match m {
        Message::StartUpdate => a matches Action::UpdateFlatpaks(ids) && string_views(ids@)
            == package_ids(s.packages),
        Message::UpdateProgress(p) => if reports_done(p@) {
            a is MarkComplete
        } else {
            a is Idle
        },
        Message::Cancel => a is CloseWindow,
        _ => a is Idle,
    }
}

impl FlatpakUpdateDialog {
    /// A dialog for updating `packages`, ready to start.
    pub fn new(packages: Vec<FlatpakUpdateInfo>) -> (r: Self)
        ensures
            r@ == (UpdateView {
                packages: packages@,
                is_updating: false,
                is_complete: false,
                has_error: false,
                progress_text: "Ready to update "@ + decimal(packages@.len()) + " package(s)"@,
                terminal_output: Seq::empty(),
                current_package: None,
            }),
    {
        let n = usize_text(packages.len());
        FlatpakUpdateDialog {
            packages,
            is_updating: false,
            is_complete: false,
            has_error: false,
            progress_text: cat3("Ready to update ", n.as_str(), " package(s)"),
            terminal_output: String::new(),
            current_package: None,
        }
    }

    pub fn title(&self) -> (r: String)
        ensures
            r@ == "Update Flatpak Applications - Rustora"@,
    {
        str_owned("Update Flatpak Applications - Rustora")
    }

    /// Takes in a message and says what to do next.
    pub fn update(&mut self, message: Message) -> (a: Action)
        ensures
            final(self)@ == update_next(old(self)@, message),
            update_action_ok(old(self)@, message, a),
    {
        match message {
            Message::StartUpdate => {
                self.is_updating = true;
                self.has_error = false;
                self.progress_text = str_owned("Starting update...");
                self.terminal_output = String::new();
                let mut ids: Vec<String> = Vec::new();
                let mut i: usize = 0;
                while i < self.packages.len()
                    invariant
                        i <= self.packages.len(),
                        string_views(ids@) == package_ids(self.packages@).take(i as int),
                    decreases self.packages.len() - i,
                {
                    let c = str_owned(self.packages[i].application_id.as_str());
                    let ghost prev = string_views(ids@);
                    ids.push(c);
                    assert(string_views(ids@) == prev.push(c@));
                    assert(package_ids(self.packages@).take(i + 1) == package_ids(
                        self.packages@,
                    ).take(i as int).push(self.packages@[i as int].application_id@));
                    i += 1;
                }
                assert(package_ids(self.packages@).take(self.packages.len() as int) == package_ids(
                    self.packages@,
                ));
                Action::UpdateFlatpaks(ids)
            },
            Message::UpdateProgress(output) => {
                append_on_new_line(&mut self.terminal_output, output.as_str());
                match find_matching_package(&self.packages, output.as_str()) {
                    Some(id) => {
                        self.current_package = Some(id);
                    },
                    None => {},
                }
                let done = reports_done_text(output.as_str());
                self.progress_text = output;
                if done {
                    Action::MarkComplete
                } else {
                    Action::Idle
                }
            },
            Message::UpdateComplete => {
                self.is_updating = false;
                self.is_complete = true;
                self.current_package = None;
                self.progress_text = str_owned("Update completed successfully!");
                if !str_contains(self.terminal_output.as_str(), "completed successfully") {
                    string_append(&mut self.terminal_output, "\n[OK] Update completed successfully!");
                }
                Action::Idle
            },
            Message::UpdateError(msg) => {
                self.is_updating = false;
                self.has_error = true;
                self.current_package = None;
                self.progress_text = cat2("Update failed: ", msg.as_str());
                if !str_contains(self.terminal_output.as_str(), "failed") {
                    string_append(&mut self.terminal_output, "\n[FAIL] Update failed: ");
                    string_append(&mut self.terminal_output, msg.as_str());
                }
                Action::Idle
            },
            Message::Cancel => Action::CloseWindow,
        }
    }

    /// Whether an update is running.
    pub fn is_updating(&self) -> (r: bool)
        ensures
            r == self@.is_updating,
    {
        self.is_updating
    }

    /// Whether the update finished.
    pub fn is_complete(&self) -> (r: bool)
        ensures
            r == self@.is_complete,
    {
        self.is_complete
    }

    /// Whether the update failed.
    pub fn has_error(&self) -> (r: bool)
        ensures
            r == self@.has_error,
    {
        self.has_error
    }

    /// The line that describes where the update stands.
    pub fn progress_text(&self) -> (r: String)
        ensures
            r@ == self@.progress_text,
    {
        str_owned(self.progress_text.as_str())
    }

    /// What the terminal pane shows.
    pub fn terminal_output(&self) -> (r: String)
        ensures
            r@ == self@.terminal_output,
    {
        str_owned(self.terminal_output.as_str())
    }

    /// The application that the output last mentioned, while updating.
    pub fn current_package(&self) -> (r: Option<String>)
        ensures
            opt_view(r) == self@.current_package,
    {
        crate::flatpak_dialog::clone_opt(&self.current_package)
    }
}

/// An error always ends the update: it is no longer running and it has failed.
pub proof fn update_error_ends_run(s: UpdateView, msg: String)
    ensures
        !update_next(s, Message::UpdateError(msg)).is_updating,
        update_next(s, Message::UpdateError(msg)).has_error,
        update_next(s, Message::UpdateError(msg)).current_package is None,
{
}

/// Starting an update clears an earlier failure and the terminal pane.
pub proof fn update_start_clears(s: UpdateView)
    ensures
        !update_next(s, Message::StartUpdate).has_error,
        update_next(s, Message::StartUpdate).terminal_output.len() == 0,
{
}


/// The line that says how many applications are to be updated.
pub open spec fn update_count_line(s: UpdateView) -> Seq<char> {
    decimal(s.packages.len()) + " package(s) to update"@
}

/// Whether the progress section is shown: while updating and once the
/// update has ended either way.
pub open spec fn shows_progress(s: UpdateView) -> bool {
    s.is_updating || s.is_complete || s.has_error
}

/// The line under the progress bar.
pub open spec fn update_progress_line(s: UpdateView) -> Option<Seq<char>> {
    if s.is_complete {
        Some("Update completed successfully!"@)
    } else if s.has_error {
        Some("Update failed"@)
    } else if s.is_updating {
        Some(s.progress_text)
    } else {
        None
    }
}

/// The line that names the application being updated.
pub open spec fn updating_line(s: UpdateView) -> Option<Seq<char>> {
    match s.current_package {
        Some(c) => if shows_progress(s) {
            Some("Updating: "@ + c)
        } else {
            None
        },
        None => None,
    }
}

/// Where an application comes from, as its row shows it.
pub open spec fn remote_label(p: FlatpakUpdateInfo) -> Seq<char> {
    match p.remote {
        Some(r) => r@,
        None => "local"@,
    }
}

impl FlatpakUpdateDialog {
    /// The line that says how many applications are to be updated.
    pub fn count_line(&self) -> (r: String)
        ensures
            r@ == update_count_line(self@),
    {
        let n = usize_text(self.packages.len());
        cat2(n.as_str(), " package(s) to update")
    }

    /// The buttons: Close once the update has ended either way, a busy
    /// button while updating, else Cancel and Start Update.
    pub fn buttons(&self) -> (r: ActionButtons)
        ensures
            r == action_buttons(self@.is_complete || self@.has_error, self@.is_updating),
    {
        action_buttons_of(self.is_complete || self.has_error, self.is_updating)
    }

    /// The line under the progress bar, if the progress section is shown.
    pub fn progress_line(&self) -> (r: Option<String>)
        ensures
            text_opt(r) == update_progress_line(self@),
    {
        if self.is_complete {
            Some(str_owned("Update completed successfully!"))
        } else if self.has_error {
            Some(str_owned("Update failed"))
        } else if self.is_updating {
            Some(str_owned(self.progress_text.as_str()))
        } else {
            None
        }
    }

    /// The line that names the application being updated, if one is shown.
    pub fn updating_line(&self) -> (r: Option<String>)
        ensures
            text_opt(r) == updating_line(self@),
    {
        match &self.current_package {
            Some(c) => if self.is_updating || self.is_complete || self.has_error {
                Some(cat2("Updating: ", c.as_str()))
            } else {
                None
            },
            None => None,
        }
    }

    /// Whether the row of the `i`th application is marked as being updated.
    pub fn row_is_updating(&self, i: usize) -> (r: bool)
        requires
            i < self@.packages.len(),
        ensures
            r == (self@.current_package == Some(self@.packages[i as int].application_id@)),
    {
        match &self.current_package {
            Some(c) => same_text(&chars_of(c.as_str()), &chars_of(self.packages[i].application_id.as_str())),
            None => false,
        }
    }

    /// Where the `i`th application comes from, as its row shows it.
    pub fn row_remote(&self, i: usize) -> (r: String)
        requires
            i < self@.packages.len(),
        ensures
            r@ == remote_label(self@.packages[i as int]),
    {
        match &self.packages[i].remote {
            Some(rm) => str_owned(rm.as_str()),
            None => str_owned("local"),
        }
    }
}

} // verus!
