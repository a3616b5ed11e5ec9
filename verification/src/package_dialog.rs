//! Removing installed packages: reading `rpm -qi` output, the outcome of the
//! removal command, and the removal dialog's state machine.
use vstd::prelude::*;
use crate::install_dialog::{description_or_summary, field_value, field_value_vec};
use crate::rpm_dialog::{lemma_one_rpm_label, rpm_label_of};
use crate::size::{format_size, size_text};
use crate::text::{
    cat2, cat3, cat4, char_is_uppercase, chars_of, clone_strings, contains, ends_with,
    ends_with_vec, is_uppercase, join_vec, lines, lines_vec, lowercase, lowercase_contains,
    parse_u64, parse_u64_vec, starts_with, starts_with_str, str_contains, str_owned, string_of,
    string_views, trim, trim_vec, usize_text, utf8_len, utf8_len_below, views,
};

use crate::dialog_view::{
    ActionButtons, DetailsScreen, action_buttons, action_buttons_of, details_screen,
    details_screen_of, progress_line, progress_line_of, text_opt,
};

verus! {

/// What the removal dialog shows of a package.
pub struct PackageInfo {
    pub name: String,
    pub version: String,
    pub release: String,
    pub arch: String,
    pub summary: String,
    pub description: String,
    pub size: String,
}

/// What has been read so far of `rpm -qi` output.
pub struct QiScan {
    pub name: Seq<char>,
    pub version: Seq<char>,
    pub release: Seq<char>,
    pub arch: Seq<char>,
    pub summary: Seq<char>,
    pub size: Seq<char>,
    pub desc: Seq<Seq<char>>,
    pub in_desc: bool,
}

/// Whether a line inside the description looks like the label of another
/// field: it starts with an uppercase letter, ends with a colon and takes
/// fewer than 20 bytes.
pub open spec fn looks_like_label(line: Seq<char>) -> bool {
    line.len() > 0 && is_uppercase(line[0]) && ends_with(line, ":"@) && utf8_len(line) < 20
}

/// The size shown for the text of a `Size` field: the bytes it counts, or
/// zero bytes where it is not a number.
pub open spec fn qi_size(field: Seq<char>) -> Seq<char> {
    match parse_u64(field) {
        Some(b) => size_text(b as nat),
        None => size_text(0),
    }
}

/// One line of `rpm -qi` output: each field line sets its field, and the
/// description collects the lines after it, skipping empty ones, until a line
/// that looks like a label.
pub open spec fn qi_step(s: QiScan, raw: Seq<char>) -> QiScan {
    let line = trim(raw);
    if starts_with(line, "Name        :"@) {
        QiScan { name: field_value(line), ..s }
    } else if starts_with(line, "Version     :"@) {
        QiScan { version: field_value(line), ..s }
    } else if starts_with(line, "Release     :"@) {
        QiScan { release: field_value(line), ..s }
    } else if starts_with(line, "Architecture:"@) {
        QiScan { arch: field_value(line), ..s }
    } else if starts_with(line, "Summary     :"@) {
        QiScan { summary: field_value(line), ..s }
    } else if starts_with(line, "Size        :"@) {
        QiScan { size: qi_size(field_value(line)), ..s }
    } else if starts_with(line, "Description :"@) {
        let d = field_value(line);
        QiScan {
            desc: if d.len() > 0 {
                s.desc.push(d)
            } else {
                s.desc
            },
            in_desc: true,
            ..s
        }
    } else if s.in_desc {
        if line.len() == 0 {
            s
        } else if looks_like_label(line) {
            QiScan { in_desc: false, ..s }
        } else {
            QiScan { desc: s.desc.push(line), ..s }
        }
    } else {
        s
    }
}

pub open spec fn qi_scan(ls: Seq<Seq<char>>) -> QiScan
    decreases ls.len(),
{
    if ls.len() == 0 {
        QiScan {
            name: Seq::empty(),
            version: Seq::empty(),
            release: Seq::empty(),
            arch: Seq::empty(),
            summary: Seq::empty(),
            size: Seq::empty(),
            desc: Seq::empty(),
            in_desc: false,
        }
    } else {
        qi_step(qi_scan(ls.drop_last()), ls.last())
    }
}

struct QiScanner {
    name: Vec<char>,
    version: Vec<char>,
    release: Vec<char>,
    arch: Vec<char>,
    summary: Vec<char>,
    size: Vec<char>,
    desc: Vec<Vec<char>>,
    in_desc: bool,
}

impl QiScanner {
    spec fn view(&self) -> QiScan {
        QiScan {
            name: self.name@,
            version: self.version@,
            release: self.release@,
            arch: self.arch@,
            summary: self.summary@,
            size: self.size@,
            desc: views(self.desc@),
            in_desc: self.in_desc,
        }
    }

    fn step(&mut self, raw: &Vec<char>)
        ensures
            final(self).view() == qi_step(old(self).view(), raw@),
    {
        let line = trim_vec(raw);
        if starts_with_str(&line, "Name        :") {
            self.name = field_value_vec(&line);
        } else if starts_with_str(&line, "Version     :") {
            self.version = field_value_vec(&line);
        } else if starts_with_str(&line, "Release     :") {
            self.release = field_value_vec(&line);
        } else if starts_with_str(&line, "Architecture:") {
            self.arch = field_value_vec(&line);
        } else if starts_with_str(&line, "Summary     :") {
            self.summary = field_value_vec(&line);
        } else if starts_with_str(&line, "Size        :") {
            let v = field_value_vec(&line);
            let bytes: u64 = match parse_u64_vec(&v) {
                Some(b) => b,
                None => 0,
            };
            let t = format_size(bytes);
            self.size = chars_of(t.as_str());
        } else if starts_with_str(&line, "Description :") {
            let d = field_value_vec(&line);
            if d.len() > 0 {
                let ghost prev = views(self.desc@);
                self.desc.push(d);
                assert(views(self.desc@) == prev.push(d@));
            }
            self.in_desc = true;
        } else if self.in_desc {
            if line.len() == 0 {
            } else if char_is_uppercase(line[0]) && ends_with_vec(&line, &chars_of(":"))
                && utf8_len_below(&line, 20) {
                self.in_desc = false;
            } else {
                let ghost prev = views(self.desc@);
                let ghost l = line@;
                self.desc.push(line);
                assert(views(self.desc@) == prev.push(l));
            }
        }
    }
}

/// What `rpm -qi` output says of an installed package. A field that no line
/// gives stays empty; the description is its lines joined by spaces, or the
/// summary where it is empty.
pub fn parse_package_info(stdout: &str) -> (r: PackageInfo)
    ensures
        ({
            let s = qi_scan(lines(stdout@));
            &&& r.name@ == s.name
            &&& r.version@ == s.version
            &&& r.release@ == s.release
            &&& r.arch@ == s.arch
            &&& r.summary@ == s.summary
            &&& r.size@ == s.size
            &&& r.description@ == description_or_summary(s.desc, s.summary)
        }),
{
    let text = chars_of(stdout);
    let ls = lines_vec(&text);
    let ghost lsv = views(ls@);
    let mut sc = QiScanner {
        name: Vec::new(),
        version: Vec::new(),
        release: Vec::new(),
        arch: Vec::new(),
        summary: Vec::new(),
        size: Vec::new(),
        desc: Vec::new(),
        in_desc: false,
    };
    assert(views(sc.desc@) == Seq::<Seq<char>>::empty());
    assert(lsv.take(0) == Seq::<Seq<char>>::empty());
    let mut i: usize = 0;
    while i < ls.len()
        invariant
            i <= ls.len(),
            lsv == views(ls@),
            sc.view() == qi_scan(lsv.take(i as int)),
        decreases ls.len() - i,
    {
        assert(lsv.take(i + 1).drop_last() == lsv.take(i as int));
        sc.step(&ls[i]);
        i += 1;
    }
    assert(lsv.take(ls.len() as int) == lsv);
    let joined = join_vec(&sc.desc, " ");
    let d = trim_vec(&joined);
    let description = if d.len() == 0 {
        string_of(&sc.summary)
    } else {
        string_of(&d)
    };
    PackageInfo {
        name: string_of(&sc.name),
        version: string_of(&sc.version),
        release: string_of(&sc.release),
        arch: string_of(&sc.arch),
        summary: string_of(&sc.summary),
        description,
        size: string_of(&sc.size),
    }
}

/// The package whose information the dialog reads: the first one named.
pub fn info_target(package_names: &Vec<String>) -> (r: Result<String, String>)
    ensures
        package_names.len() == 0 ==> (r matches Err(e) && e@ == "No packages specified"@),
        package_names.len() > 0 ==> (r matches Ok(n) && n@ == package_names@[0]@),
{
    if package_names.len() == 0 {
        Err(str_owned("No packages specified"))
    } else {
        Ok(str_owned(package_names[0].as_str()))
    }
}

/// The error when `rpm -qi` fails.
pub fn package_info_error(stderr: &str) -> (r: String)
    ensures
        r@ == "Failed to read package info: "@ + stderr@,
{
    cat2("Failed to read package info: ", stderr)
}

/// The arguments of the removal command: `pkexec` runs
/// `dnf remove -y --assumeyes` with the packages.
pub fn remove_command_args(package_names: &Vec<String>) -> (r: Vec<String>)
    ensures
        string_views(r@) == seq!["dnf"@, "remove"@, "-y"@, "--assumeyes"@] + string_views(
            package_names@,
        ),
{
    let mut r: Vec<String> = Vec::new();
    r.push(str_owned("dnf"));
    r.push(str_owned("remove"));
    r.push(str_owned("-y"));
    r.push(str_owned("--assumeyes"));
    let mut i: usize = 0;
    let ghost head = seq!["dnf"@, "remove"@, "-y"@, "--assumeyes"@];
    assert(string_views(r@) == head);
    while i < package_names.len()
        invariant
            i <= package_names.len(),
            string_views(r@) == head + string_views(package_names@).take(i as int),
        decreases package_names.len() - i,
    {
        let c = str_owned(package_names[i].as_str());
        let ghost prev = string_views(r@);
        r.push(c);
        assert(string_views(r@) == prev.push(c@));
        assert(string_views(package_names@).take(i + 1) == string_views(package_names@).take(
            i as int,
        ).push(package_names@[i as int]@));
        i += 1;
    }
    assert(string_views(package_names@).take(package_names.len() as int) == string_views(
        package_names@,
    ));
    r
}

/// The outcome of the removal command, from whether it succeeded and what it
/// printed.
pub fn removal_outcome(success: bool, stderr: &str, stdout: &str) -> (r: Result<String, String>)
    ensures
        success ==> (r matches Ok(m) && m@ == "Removal Complete!"@),
        !success ==> (r matches Err(e) && e@ == "Removal failed: "@ + stderr@ + "\n"@ + stdout@),
{
    if success {
        Ok(str_owned("Removal Complete!"))
    } else {
        Err(cat4("Removal failed: ", stderr, "\n", stdout))
    }
}

/// Whether a progress report says that the removal is done.
pub open spec fn removal_done(p: Seq<char>) -> bool {
    contains(p, "Complete"@) || contains(p, "Removed"@) || contains(p, "complete"@) || contains(
        lowercase(p),
        "success"@,
    )
}

pub fn removal_done_text(p: &str) -> (r: bool)
    ensures
        r == removal_done(p@),
{
    str_contains(p, "Complete") || str_contains(p, "Removed") || str_contains(p, "complete")
        || lowercase_contains(p, "success")
}

pub enum Message {
    LoadPackageInfo,
    PackageInfoLoaded(PackageInfo),
    RemovePackages,
    RemovalProgress(String),
    RemovalComplete,
    RemovalError(String),
    Cancel,
}

/// What the dialog asks its runner to do after a message.
pub enum Action {
    Idle,
    /// Read the information of these packages.
    LoadPackageInfo(Vec<String>),
    /// Remove these packages.
    RemovePackages(Vec<String>),
    /// Deliver `RemovalComplete` next.
    MarkComplete,
    CloseWindow,
}

pub struct PackageDialog {
    pub package_names: Vec<String>,
    pub package_info: Option<PackageInfo>,
    pub is_loading: bool,
    pub is_removing: bool,
    pub is_complete: bool,
    pub removal_progress: String,
    pub show_dialog: bool,
}

pub struct PackageView {
    pub package_names: Seq<Seq<char>>,
    pub package_info: Option<PackageInfo>,
    pub is_loading: bool,
    pub is_removing: bool,
    pub is_complete: bool,
    pub removal_progress: Seq<char>,
    pub show_dialog: bool,
}

impl View for PackageDialog {
    type V = PackageView;

    open spec fn view(&self) -> PackageView {
        PackageView {
            package_names: string_views(self.package_names@),
            package_info: self.package_info,
            is_loading: self.is_loading,
            is_removing: self.is_removing,
            is_complete: self.is_complete,
            removal_progress: self.removal_progress@,
            show_dialog: self.show_dialog,
        }
    }
}

/// The removal dialog after a message.
pub open spec fn package_next(s: PackageView, m: Message) -> PackageView {
    match m {
        Message::LoadPackageInfo => PackageView { is_loading: true, ..s },
        Message::PackageInfoLoaded(info) => PackageView {
            is_loading: false,
            package_info: Some(info),
            ..s
        },
        Message::RemovePackages => PackageView {
            is_removing: true,
            removal_progress: "Preparing removal..."@,
            ..s
        },
        Message::RemovalProgress(p) => PackageView { removal_progress: p@, ..s },
        Message::RemovalComplete => PackageView {
            is_removing: false,
            is_complete: true,
            removal_progress: "Removal completed successfully!"@,
            ..s
        },
        Message::RemovalError(_) => PackageView { is_removing: false, ..s },
        Message::Cancel => PackageView { show_dialog: false, ..s },
    }
}

/// What the removal dialog asks for after a message.
pub open spec fn package_action_ok(s: PackageView, m: Message, a: Action) -> bool {
    match m {
        Message::LoadPackageInfo => a matches Action::LoadPackageInfo(names) && string_views(names@)
            == s.package_names,
        Message::RemovePackages => a matches Action::RemovePackages(names) && string_views(names@)
            == s.package_names,
        Message::RemovalProgress(p) => if removal_done(p@) {
            a is MarkComplete
        } else {
            a is Idle
        },
        Message::Cancel => a is CloseWindow,
        _ => a is Idle,
    }
}

/// The window title: the package's name, or how many packages are removed.
pub open spec fn package_title(s: PackageView) -> Seq<char> {
    match s.package_info {
        Some(info) => if s.package_names.len() == 1 {
            "Remove "@ + info.name@ + " - Rustora"@
        } else {
            "Remove "@ + crate::text::decimal(s.package_names.len()) + " Packages - Rustora"@
        },
        None => "Remove Package - Rustora"@,
    }
}

impl PackageDialog {
    /// A dialog for removing `package_names`, loading their information.
    pub fn new(package_names: Vec<String>) -> (r: Self)
        ensures
            r@ == (PackageView {
                package_names: string_views(package_names@),
                package_info: None,
                is_loading: true,
                is_removing: false,
                is_complete: false,
                removal_progress: Seq::empty(),
                show_dialog: true,
            }),
    {
        PackageDialog {
            package_names,
            package_info: None,
            is_loading: true,
            is_removing: false,
            is_complete: false,
            removal_progress: String::new(),
            show_dialog: true,
        }
    }

    pub fn title(&self) -> (r: String)
        ensures
            r@ == package_title(self@),
    {
        match &self.package_info {
            Some(info) => if self.package_names.len() == 1 {
                cat3("Remove ", info.name.as_str(), " - Rustora")
            } else {
                let n = usize_text(self.package_names.len());
                cat3("Remove ", n.as_str(), " Packages - Rustora")
            },
            None => str_owned("Remove Package - Rustora"),
        }
    }

    /// Takes in a message and says what to do next.
    pub fn update(&mut self, message: Message) -> (a: Action)
        ensures
            final(self)@ == package_next(old(self)@, message),
            package_action_ok(old(self)@, message, a),
    {
        match message {
            Message::LoadPackageInfo => {
                self.is_loading = true;
                Action::LoadPackageInfo(clone_strings(&self.package_names))
            },
            Message::PackageInfoLoaded(info) => {
                self.is_loading = false;
                self.package_info = Some(info);
                Action::Idle
            },
            Message::RemovePackages => {
                self.is_removing = true;
                self.removal_progress = str_owned("Preparing removal...");
                Action::RemovePackages(clone_strings(&self.package_names))
            },
            Message::RemovalProgress(progress) => {
                let done = removal_done_text(progress.as_str());
                self.removal_progress = progress;
                if done {
                    Action::MarkComplete
                } else {
                    Action::Idle
                }
            },
            Message::RemovalComplete => {
                self.is_removing = false;
                self.is_complete = true;
                self.removal_progress = str_owned("Removal completed successfully!");
                Action::Idle
            },
            Message::RemovalError(_msg) => {
                self.is_removing = false;
                Action::Idle
            },
            Message::Cancel => {
                self.show_dialog = false;
                Action::CloseWindow
            },
        }
    }
}

/// Once the removal dialog has completed, no message undoes it, and the
/// packages it removes stay the ones it was opened for.
pub proof fn removal_completion_is_kept(s: PackageView, m: Message)
    ensures
        s.is_complete ==> package_next(s, m).is_complete,
        package_next(s, m).package_names == s.package_names,
{
}


/// The heading of the details screen, once the package's details are read:
/// the package's name for one package, else how many there are.
pub open spec fn removal_header(s: PackageView) -> Option<Seq<char>> {
    match s.package_info {
        Some(i) => if s.package_names.len() == 1 {
            Some("Remove "@ + i.name@)
        } else {
            Some("Remove "@ + crate::text::decimal(s.package_names.len()) + " Packages"@)
        },
        None => None,
    }
}

impl PackageDialog {
    /// Which screen the dialog shows.
    pub fn screen(&self) -> (r: DetailsScreen)
        ensures
            r == details_screen(self@.show_dialog, self@.is_loading, self@.package_info is Some),
    {
        details_screen_of(self.show_dialog, self.is_loading, self.package_info.is_some())
    }

    /// The buttons under the details: Exit once done, a busy Remove while
    /// removing, else Cancel and Remove.
    pub fn buttons(&self) -> (r: ActionButtons)
        ensures
            r == action_buttons(self@.is_complete, self@.is_removing),
    {
        action_buttons_of(self.is_complete, self.is_removing)
    }

    /// The heading of the details screen.
    pub fn header(&self) -> (r: Option<String>)
        ensures
            text_opt(r) == removal_header(self@),
    {
        match &self.package_info {
            Some(i) => if self.package_names.len() == 1 {
                Some(cat2("Remove ", i.name.as_str()))
            } else {
                let n = crate::text::usize_text(self.package_names.len());
                Some(cat3("Remove ", n.as_str(), " Packages"))
            },
            None => None,
        }
    }

    /// The line under the progress bar, if one is shown.
    pub fn progress_line(&self) -> (r: Option<String>)
        ensures
            text_opt(r) == progress_line(
                self@.is_complete,
                self@.is_removing,
                "Removal completed successfully!"@,
                self@.removal_progress,
            ),
    {
        progress_line_of(
            self.is_complete,
            self.is_removing,
            "Removal completed successfully!",
            self.removal_progress.as_str(),
        )
    }
}


/// The `k`th single-line field of a scan, in the order of `rpm_label_of`.
pub open spec fn qi_field_of(s: QiScan, k: int) -> Seq<char> {
    if k == 0 {
        s.name
    } else if k == 1 {
        s.version
    } else if k == 2 {
        s.release
    } else if k == 3 {
        s.arch
    } else {
        s.summary
    }
}

proof fn lemma_qi_line(s: QiScan, raw: Seq<char>, k: int)
    requires
        0 <= k < 5,
    ensures
        starts_with(trim(raw), rpm_label_of(k)) ==> qi_field_of(qi_step(s, raw), k) == field_value(trim(raw)),
        !starts_with(trim(raw), rpm_label_of(k)) ==> qi_field_of(qi_step(s, raw), k) == qi_field_of(s, k),
{
    let line = trim(raw);
    if starts_with(line, rpm_label_of(k)) {
        if k != 0 {
            lemma_one_rpm_label(line, k, 0);
        }
        if k != 1 {
            lemma_one_rpm_label(line, k, 1);
        }
        if k != 2 {
            lemma_one_rpm_label(line, k, 2);
        }
        if k != 3 {
            lemma_one_rpm_label(line, k, 3);
        }
        if k != 4 {
            lemma_one_rpm_label(line, k, 4);
        }
    }
}

/// Each of the name, version, release, architecture and summary read from
/// `rpm -qi` output is the trimmed text after the colon of the last line
/// labelled with that field; lines labelled with other fields never set it.
pub proof fn qi_field_is_last_labelled_line(ls: Seq<Seq<char>>, k: int, i: int)
    requires
        0 <= k < 5,
        0 <= i < ls.len(),
        starts_with(trim(ls[i]), rpm_label_of(k)),
        forall|j: int| i < j < ls.len() ==> !starts_with(#[trigger] trim(ls[j]), rpm_label_of(k)),
    ensures
        qi_field_of(qi_scan(ls), k) == field_value(trim(ls[i])),
    decreases ls.len(),
{
    lemma_qi_line(qi_scan(ls.drop_last()), ls.last(), k);
    if i < ls.len() - 1 {
        assert(!starts_with(trim(ls[ls.len() - 1]), rpm_label_of(k)));
        assert forall|j: int| i < j < ls.drop_last().len() implies !starts_with(
            #[trigger] trim(ls.drop_last()[j]),
            rpm_label_of(k),
        ) by {
            assert(ls.drop_last()[j] == ls[j]);
        }
        qi_field_is_last_labelled_line(ls.drop_last(), k, i);
    }
}

} // verus!
