//! Removing Flatpak applications: what `flatpak info` says of each, the
//! uninstall command, its transcript and outcome, the log, and the dialog's
//! state machine.
use vstd::prelude::*;
use crate::flatpak_dialog::{or_default, text_or};
use crate::install_dialog::{field_value, field_value_vec};
use crate::text::{lemma_starts_with_char, cat2, cat3, cat4, chars_of, clone_strings, contains, decimal, join, join_strings, lines, lines_vec, lowercase, lowercase_contains, starts_with, starts_with_str, str_contains, str_owned, string_append, string_views, trim, trim_vec, usize_text, views};
use crate::transcript::transcript_header;

use crate::dialog_view::{
    ActionButtons, DetailsScreen, action_buttons, action_buttons_of, details_screen,
    details_screen_of, progress_line, progress_line_of, text_opt,
};

verus! {

/// What the removal dialog shows of an application.
pub struct FlatpakInfo {
    pub name: String,
    pub application_id: String,
    pub version: String,
    pub size: String,
}

/// Name, version and installed size read so far.
pub struct RemoveFields {
    pub name: Seq<char>,
    pub version: Seq<char>,
    pub size: Seq<char>,
}

pub open spec fn remove_step(f: RemoveFields, raw: Seq<char>) -> RemoveFields {
    let line = trim(raw);
    if starts_with(line, "Name:"@) {
        RemoveFields { name: field_value(line), ..f }
    } else if starts_with(line, "Version:"@) {
        RemoveFields { version: field_value(line), ..f }
    } else if starts_with(line, "Installed size:"@) {
        RemoveFields { size: field_value(line), ..f }
    } else {
        f
    }
}

pub open spec fn remove_scan(app_id: Seq<char>, ls: Seq<Seq<char>>) -> RemoveFields
    decreases ls.len(),
{
    if ls.len() == 0 {
        RemoveFields { name: app_id, version: Seq::empty(), size: Seq::empty() }
    } else {
        remove_step(remove_scan(app_id, ls.drop_last()), ls.last())
    }
}

/// What the dialog shows of `app_id`, from the output of `flatpak info` when
/// that command succeeded (`None` when it failed): each field from the last
/// line that gives it, `Unknown` for what no line gives.
pub fn info_from_output(app_id: &str, stdout: Option<&str>) -> (r: FlatpakInfo)
    ensures
        r.application_id@ == app_id@,
        stdout is None ==> r.name@ == app_id@ && r.version@ == "Unknown"@ && r.size@
            == "Unknown"@,
        stdout matches Some(out) ==> ({
            let f = remove_scan(app_id@, lines(out@));
            &&& r.name@ == or_default(f.name, app_id@)
            &&& r.version@ == or_default(f.version, "Unknown"@)
            &&& r.size@ == or_default(f.size, "Unknown"@)
        }),
{
    match stdout {
        None => FlatpakInfo {
            name: str_owned(app_id),
            application_id: str_owned(app_id),
            version: str_owned("Unknown"),
            size: str_owned("Unknown"),
        },
        Some(out) => {
            let text = chars_of(out);
            let ls = lines_vec(&text);
            let ghost lsv = views(ls@);
            let mut name = chars_of(app_id);
            let mut version: Vec<char> = Vec::new();
            let mut size: Vec<char> = Vec::new();
            let mut i: usize = 0;
            assert(lsv.take(0) == Seq::<Seq<char>>::empty());
            while i < ls.len()
                invariant
                    i <= ls.len(),
                    lsv == views(ls@),
                    (RemoveFields { name: name@, version: version@, size: size@ }) == remove_scan(
                        app_id@,
                        lsv.take(i as int),
                    ),
                decreases ls.len() - i,
            {
                assert(lsv.take(i + 1).drop_last() == lsv.take(i as int));
                let line = trim_vec(&ls[i]);
                if starts_with_str(&line, "Name:") {
                    name = field_value_vec(&line);
                } else if starts_with_str(&line, "Version:") {
                    version = field_value_vec(&line);
                } else if starts_with_str(&line, "Installed size:") {
                    size = field_value_vec(&line);
                }
                i += 1;
            }
            assert(lsv.take(ls.len() as int) == lsv);
            FlatpakInfo {
                name: text_or(&name, app_id),
                application_id: str_owned(app_id),
                version: text_or(&version, "Unknown"),
                size: text_or(&size, "Unknown"),
            }
        },
    }
}

/// The command line that the removal transcript shows.
pub open spec fn remove_command_line(ids: Seq<Seq<char>>) -> Seq<char> {
    "flatpak uninstall -y --noninteractive "@ + join(ids, " "@)
}

pub fn remove_command_line_text(ids: &Vec<String>) -> (r: String)
    ensures
        r@ == remove_command_line(string_views(ids@)),
{
    let j = join_strings(ids, " ");
    cat2("flatpak uninstall -y --noninteractive ", j.as_str())
}

/// The transcript of the removal: the command, then what it printed on each
/// stream that printed anything.
pub open spec fn remove_transcript(command: Seq<char>, stdout: Seq<char>, stderr: Seq<char>) -> Seq<char> {
    transcript_header(command) + (if stdout.len() > 0 {
        "STDOUT:\n"@ + stdout + "\n"@
    } else {
        Seq::empty()
    }) + (if stderr.len() > 0 {
        "STDERR:\n"@ + stderr + "\n"@
    } else {
        Seq::empty()
    })
}

pub fn remove_transcript_text(command: &str, stdout: &str, stderr: &str) -> (r: String)
    ensures
        r@ == remove_transcript(command@, stdout@, stderr@),
{
    let mut t = cat3("Command: ", command, "\n--- Output ---\n");
    let ghost h = t@;
    if !stdout.is_empty() {
        string_append(&mut t, "STDOUT:\n");
        string_append(&mut t, stdout);
        string_append(&mut t, "\n");
    } else {
        assert(t@ == h + Seq::<char>::empty());
    }
    let ghost h2 = t@;
    if !stderr.is_empty() {
        string_append(&mut t, "STDERR:\n");
        string_append(&mut t, stderr);
        string_append(&mut t, "\n");
    } else {
        assert(t@ == h2 + Seq::<char>::empty());
    }
    t
}

/// How a finished `flatpak uninstall` is reported.
pub fn remove_outcome(success: bool, stderr: &str, stdout: &str) -> (r: Result<String, String>)
    ensures
        success ==> (r matches Ok(m) && m@ == "Removal Complete!"@),
        !success ==> (r matches Err(e) && e@ == "Removal failed: "@ + stderr@ + "\n"@ + stdout@),
{
    if success {
        Ok(str_owned("Removal Complete!"))
    } else {
        Err(cat4("Removal failed: ", stderr, "\n", stdout))
    }
}

/// The name of the removal log file.
pub fn remove_log_file_name(stamp: &str) -> (r: String)
    ensures
        r@ == "flatpak_remove_"@ + stamp@ + ".log"@,
{
    cat3("flatpak_remove_", stamp, ".log")
}

/// The text of the removal log.
pub open spec fn remove_log_content(time: Seq<char>, ids: Seq<Seq<char>>, output: Seq<char>, success: bool) -> Seq<char> {
    "=== Flatpak Remove Log ===\n"@ + "Timestamp: "@ + time + "\n"@ + "Application IDs: "@ + join(
        ids,
        ", "@,
    ) + "\n"@ + "Status: "@ + (if success {
        "SUCCESS"@
    } else {
        "FAILED"@
    }) + "\n"@ + "\n--- Command Output ---\n"@ + output + "\n--- End of Log ---\n"@
}

pub fn remove_log_content_text(time: &str, ids: &Vec<String>, output: &str, success: bool) -> (r: String)
    ensures
        r@ == remove_log_content(time@, string_views(ids@), output@, success),
{
    let mut t = str_owned("=== Flatpak Remove Log ===\n");
    string_append(&mut t, "Timestamp: ");
    string_append(&mut t, time);
    string_append(&mut t, "\n");
    string_append(&mut t, "Application IDs: ");
    let j = join_strings(ids, ", ");
    string_append(&mut t, j.as_str());
    string_append(&mut t, "\n");
    string_append(&mut t, "Status: ");
    if success {
        string_append(&mut t, "SUCCESS");
    } else {
        string_append(&mut t, "FAILED");
    }
    string_append(&mut t, "\n");
    string_append(&mut t, "\n--- Command Output ---\n");
    string_append(&mut t, output);
    string_append(&mut t, "\n--- End of Log ---\n");
    t
}

/// Whether a progress report of the removal dialog says that the work is done.
pub open spec fn reports_done(p: Seq<char>) -> bool {
    contains(p, "Complete"@) || contains(p, "Removed"@) || contains(p, "complete"@) || contains(
        lowercase(p),
        "success"@,
    )
}

pub fn reports_done_text(p: &str) -> (r: bool)
    ensures
        r == reports_done(p@),
{
    str_contains(p, "Complete") || str_contains(p, "Removed") || str_contains(p, "complete")
        || lowercase_contains(p, "success")
}

pub enum Message {
    LoadFlatpakInfo,
    FlatpakInfoLoaded(Vec<FlatpakInfo>),
    RemoveFlatpaks,
    RemovalProgress(String),
    RemovalComplete,
    RemovalError(String),
    Cancel,
}

/// What the dialog asks its runner to do after a message.
pub enum Action {
    Idle,
    /// Read what `flatpak info` says of these applications.
    LoadFlatpakInfo(Vec<String>),
    /// Uninstall these applications.
    RemoveFlatpaks(Vec<String>),
    /// Deliver `RemovalComplete` next.
    MarkComplete,
    CloseWindow,
}

pub struct FlatpakRemoveDialog {
    pub application_ids: Vec<String>,
    pub flatpak_info: Option<Vec<FlatpakInfo>>,
    pub is_loading: bool,
    pub is_removing: bool,
    pub is_complete: bool,
    pub removal_progress: String,
    pub show_dialog: bool,
}

pub struct RemoveView {
    pub application_ids: Seq<Seq<char>>,
    pub flatpak_info: Option<Seq<FlatpakInfo>>,
    pub is_loading: bool,
    pub is_removing: bool,
    pub is_complete: bool,
    pub removal_progress: Seq<char>,
    pub show_dialog: bool,
}

impl View for FlatpakRemoveDialog {
    type V = RemoveView;

    open spec fn view(&self) -> RemoveView {
        RemoveView {
            application_ids: string_views(self.application_ids@),
            flatpak_info: match self.flatpak_info {
                Some(v) => Some(v@),
                None => None,
            },
            is_loading: self.is_loading,
            is_removing: self.is_removing,
            is_complete: self.is_complete,
            removal_progress: self.removal_progress@,
            show_dialog: self.show_dialog,
        }
    }
}

/// The removal dialog after a message.
pub open spec fn remove_next(s: RemoveView, m: Message) -> RemoveView {
    match m {
        Message::LoadFlatpakInfo => RemoveView { is_loading: true, ..s },
        Message::FlatpakInfoLoaded(infos) => RemoveView {
            is_loading: false,
            flatpak_info: Some(infos@),
            ..s
        },
        Message::RemoveFlatpaks => RemoveView {
            is_removing: true,
            removal_progress: "Preparing removal..."@,
            ..s
        },
        Message::RemovalProgress(p) => RemoveView { removal_progress: p@, ..s },
        Message::RemovalComplete => RemoveView {
            is_removing: false,
            is_complete: true,
            removal_progress: "Removal completed successfully!"@,
            ..s
        },
        Message::RemovalError(_) => RemoveView { is_removing: false, ..s },
        Message::Cancel => s,
    }
}

pub open spec fn remove_action_ok(s: RemoveView, m: Message, a: Action) -> bool {
    match m {
        Message::LoadFlatpakInfo => a matches Action::LoadFlatpakInfo(ids) && string_views(ids@)
            == s.application_ids,
        Message::RemoveFlatpaks => a matches Action::RemoveFlatpaks(ids) && string_views(ids@)
            == s.application_ids,
        Message::RemovalProgress(p) => if reports_done(p@) {
            a is MarkComplete
        } else {
            a is Idle
        },
        Message::Cancel => a is CloseWindow,
        _ => a is Idle,
    }
}

impl FlatpakRemoveDialog {
    /// A dialog for removing `application_ids`, loading their information.
    pub fn new(application_ids: Vec<String>) -> (r: Self)
        ensures
            r@ == (RemoveView {
                application_ids: string_views(application_ids@),
                flatpak_info: None,
                is_loading: true,
                is_removing: false,
                is_complete: false,
                removal_progress: Seq::empty(),
                show_dialog: true,
            }),
    {
        FlatpakRemoveDialog {
            application_ids,
            flatpak_info: None,
            is_loading: true,
            is_removing: false,
            is_complete: false,
            removal_progress: String::new(),
            show_dialog: true,
        }
    }

    pub fn title(&self) -> (r: String)
        ensures
            r@ == (if self.application_ids@.len() == 1 {
                "Remove Flatpak - Rustora"@
            } else {
                "Remove "@ + decimal(self.application_ids@.len()) + " Flatpaks - Rustora"@
            }),
    {
        if self.application_ids.len() == 1 {
            str_owned("Remove Flatpak - Rustora")
        } else {
            let n = usize_text(self.application_ids.len());
            cat3("Remove ", n.as_str(), " Flatpaks - Rustora")
        }
    }

    /// Takes in a message and says what to do next.
    pub fn update(&mut self, message: Message) -> (a: Action)
        ensures
            final(self)@ == remove_next(old(self)@, message),
            remove_action_ok(old(self)@, message, a),
    {
        match message {
            Message::LoadFlatpakInfo => {
                self.is_loading = true;
                Action::LoadFlatpakInfo(clone_strings(&self.application_ids))
            },
            Message::FlatpakInfoLoaded(infos) => {
                self.is_loading = false;
                self.flatpak_info = Some(infos);
                Action::Idle
            },
            Message::RemoveFlatpaks => {
                self.is_removing = true;
                self.removal_progress = str_owned("Preparing removal...");
                Action::RemoveFlatpaks(clone_strings(&self.application_ids))
            },
            Message::RemovalProgress(progress) => {
                let done = reports_done_text(progress.as_str());
                self.removal_progress = progress;
                if done {
                    Action::MarkComplete
                } else {
                    Action::Idle
                }
            },
            Message::RemovalComplete => {
                self.is_removing = false;
                self.is_complete = true;
                self.removal_progress = str_owned("Removal completed successfully!");
                Action::Idle
            },
            Message::RemovalError(_msg) => {
                self.is_removing = false;
                Action::Idle
            },
            Message::Cancel => Action::CloseWindow,
        }
    }
}

/// Once the removal dialog has completed, no message undoes it.
pub proof fn remove_completion_is_kept(s: RemoveView, m: Message)
    requires
        s.is_complete,
    ensures
        remove_next(s, m).is_complete,
{
}


/// The heading of the details screen, once the details are read: the
/// application's name (or, without details, its id) for one application,
/// else how many there are.
pub open spec fn remove_header(s: RemoveView) -> Option<Seq<char>> {
    match s.flatpak_info {
        Some(infos) => if s.application_ids.len() == 1 {
            if infos.len() > 0 {
                Some("Remove "@ + infos[0].name@)
            } else {
                Some("Remove "@ + s.application_ids[0])
            }
        } else {
            Some("Remove "@ + decimal(s.application_ids.len()) + " Flatpaks"@)
        },
        None => None,
    }
}

impl FlatpakRemoveDialog {
    /// Which screen the dialog shows.
    pub fn screen(&self) -> (r: DetailsScreen)
        ensures
            r == details_screen(self@.show_dialog, self@.is_loading, self@.flatpak_info is Some),
    {
        details_screen_of(self.show_dialog, self.is_loading, self.flatpak_info.is_some())
    }

    /// The buttons under the details: Close once done, a busy Remove while
    /// removing, else Cancel and Remove.
    pub fn buttons(&self) -> (r: ActionButtons)
        ensures
            r == action_buttons(self@.is_complete, self@.is_removing),
    {
        action_buttons_of(self.is_complete, self.is_removing)
    }

    /// The heading of the details screen.
    pub fn header(&self) -> (r: Option<String>)
        ensures
            text_opt(r) == remove_header(self@),
    {
        match &self.flatpak_info {
            Some(infos) => if self.application_ids.len() == 1 {
                if infos.len() > 0 {
                    Some(cat2("Remove ", infos[0].name.as_str()))
                } else {
                    Some(cat2("Remove ", self.application_ids[0].as_str()))
                }
            } else {
                let n = usize_text(self.application_ids.len());
                Some(cat3("Remove ", n.as_str(), " Flatpaks"))
            },
            None => None,
        }
    }

    /// The line under the progress bar, if one is shown.
    pub fn progress_line(&self) -> (r: Option<String>)
        ensures
            text_opt(r) == progress_line(
                self@.is_complete,
                self@.is_removing,
                "Removal completed successfully!"@,
                self@.removal_progress,
            ),
    {
        progress_line_of(
            self.is_complete,
            self.is_removing,
            "Removal completed successfully!",
            self.removal_progress.as_str(),
        )
    }
}


/// The label of the `k`th field that the removal dialog reads.
pub open spec fn remove_label_of(k: int) -> Seq<char> {
    if k == 0 {
        "Name:"@
    } else if k == 1 {
        "Version:"@
    } else {
        "Installed size:"@
    }
}

/// The `k`th field, in the order of `remove_label_of`.
pub open spec fn remove_field_of(f: RemoveFields, k: int) -> Seq<char> {
    if k == 0 {
        f.name
    } else if k == 1 {
        f.version
    } else {
        f.size
    }
}

proof fn lemma_remove_line(f: RemoveFields, raw: Seq<char>, k: int)
    requires
        0 <= k < 3,
    ensures
        starts_with(trim(raw), remove_label_of(k)) ==> remove_field_of(remove_step(f, raw), k)
            == field_value(trim(raw)),
        !starts_with(trim(raw), remove_label_of(k)) ==> remove_field_of(remove_step(f, raw), k)
            == remove_field_of(f, k),
{
    let line = trim(raw);
    reveal_strlit("Name:");
    reveal_strlit("Version:");
    reveal_strlit("Installed size:");
    if starts_with(line, remove_label_of(k)) {
        lemma_starts_with_char(line, remove_label_of(k), 0);
        if starts_with(line, "Name:"@) {
            lemma_starts_with_char(line, "Name:"@, 0);
        }
        if starts_with(line, "Version:"@) {
            lemma_starts_with_char(line, "Version:"@, 0);
        }
    }
}

/// The name, version and installed size read from `flatpak info` output are
/// each the trimmed text after the colon of the last line labelled with
/// that field; lines labelled with other fields never set it.
pub proof fn remove_field_is_last_labelled_line(app_id: Seq<char>, ls: Seq<Seq<char>>, k: int, i: int)
    requires
        0 <= k < 3,
        0 <= i < ls.len(),
        starts_with(trim(ls[i]), remove_label_of(k)),
        forall|j: int| i < j < ls.len() ==> !starts_with(#[trigger] trim(ls[j]), remove_label_of(k)),
    ensures
        remove_field_of(remove_scan(app_id, ls), k) == field_value(trim(ls[i])),
    decreases ls.len(),
{
    lemma_remove_line(remove_scan(app_id, ls.drop_last()), ls.last(), k);
    if i < ls.len() - 1 {
        assert(!starts_with(trim(ls[ls.len() - 1]), remove_label_of(k)));
        assert forall|j: int| i < j < ls.drop_last().len() implies !starts_with(
            #[trigger] trim(ls.drop_last()[j]),
            remove_label_of(k),
        ) by {
            assert(ls.drop_last()[j] == ls[j]);
        }
        remove_field_is_last_labelled_line(app_id, ls.drop_last(), k, i);
    }
}

} // verus!
