//! Installing repository packages: reading `dnf info` output, and the
//! install dialog's state machine.
use vstd::prelude::*;
use crate::size::{format_size, size_text};
use crate::text::{lemma_starts_with_char, after_first, after_first_vec, before_first, before_first_vec, cat2, cat3, cat4, char_is_uppercase, chars_of, clone_strings, contains, contains_str, eq_ignore_ascii_case, eq_ignore_ascii_case_str, is_uppercase, join, join_vec, lines, lines_vec, lowercase, lowercase_contains, starts_with, starts_with_str, str_contains, str_owned, string_of, string_views, trim, trim_vec, utf8_len, utf8_len_below, views};

verus! {

/// What the install dialog shows of one package.
pub struct PackageInfo {
    pub name: String,
    pub version: String,
    pub release: String,
    pub arch: String,
    pub summary: String,
    pub description: String,
    pub size: String,
}

/// The value of a `Field : value` line: the text after the first colon, trimmed.
pub open spec fn field_value(line: Seq<char>) -> Seq<char> {
    trim(after_first(line, ':'))
}

pub fn field_value_vec(line: &Vec<char>) -> (r: Vec<char>)
    ensures
        r@ == field_value(line@),
{
    let after = after_first_vec(line, ':');
    trim_vec(&after)
}

/// What has been read so far of `dnf info` output.
pub struct DnfScan {
    pub name: Seq<char>,
    pub version: Seq<char>,
    pub release: Seq<char>,
    pub arch: Seq<char>,
    pub summary: Seq<char>,
    pub size: Seq<char>,
    pub desc: Seq<Seq<char>>,
    pub in_desc: bool,
}

/// Whether a `name: ...` line met inside a description starts another field:
/// a known field name, or a short capitalised name other than "description".
pub open spec fn ends_description(field: Seq<char>) -> bool {
    ||| starts_with(field, "URL"@)
    ||| starts_with(field, "License"@)
    ||| starts_with(field, "Vendor"@)
    ||| starts_with(field, "Source"@)
    ||| starts_with(field, "Repository"@)
    ||| starts_with(field, "Epoch"@)
    ||| (field.len() > 0 && is_uppercase(field[0]) && utf8_len(field) < 20
        && !eq_ignore_ascii_case(field, "description"@))
}

/// One line of `dnf info` output read into the scan.
pub open spec fn dnf_step(st: DnfScan, raw: Seq<char>) -> DnfScan {
    let line = trim(raw);
    let colon = contains(line, ":"@);
    if starts_with(line, "Name"@) && colon {
        DnfScan { name: field_value(line), in_desc: false, ..st }
    } else if starts_with(line, "Version"@) && colon {
        DnfScan { version: field_value(line), in_desc: false, ..st }
    } else if starts_with(line, "Release"@) && colon {
        DnfScan { release: field_value(line), in_desc: false, ..st }
    } else if starts_with(line, "Architecture"@) && colon {
        DnfScan { arch: field_value(line), in_desc: false, ..st }
    } else if starts_with(line, "Summary"@) && colon {
        DnfScan { summary: field_value(line), in_desc: false, ..st }
    } else if (starts_with(line, "Installed size"@) || starts_with(line, "Download size"@)
        || starts_with(line, "Size"@)) && colon {
        DnfScan {
            size: if starts_with(line, "Installed size"@) || st.size.len() == 0 {
                field_value(line)
            } else {
                st.size
            },
            in_desc: false,
            ..st
        }
    } else if starts_with(line, "Description"@) && colon {
        let d = field_value(line);
        DnfScan {
            desc: if d.len() > 0 {
                st.desc.push(d)
            } else {
                st.desc
            },
            in_desc: true,
            ..st
        }
    } else if st.in_desc {
        if line.len() == 0 {
            st
        } else if colon && ends_description(trim(before_first(line, ':'))) {
            DnfScan { in_desc: false, ..st }
        } else {
            DnfScan { desc: st.desc.push(line), ..st }
        }
    } else {
        st
    }
}

/// The scan of a sequence of lines, read in order.
pub open spec fn dnf_scan(ls: Seq<Seq<char>>) -> DnfScan
    decreases ls.len(),
{
    if ls.len() == 0 {
        DnfScan {
            name: Seq::empty(),
            version: Seq::empty(),
            release: Seq::empty(),
            arch: Seq::empty(),
            summary: Seq::empty(),
            size: Seq::empty(),
            desc: Seq::empty(),
            in_desc: false,
        }
    } else {
        dnf_step(dnf_scan(ls.drop_last()), ls.last())
    }
}

/// A package's description from the scanned description lines: the lines
/// joined by spaces and trimmed, or the summary when that leaves nothing.
pub open spec fn description_or_summary(desc: Seq<Seq<char>>, summary: Seq<char>) -> Seq<char> {
    let d = trim(join(desc, " "@));
    if d.len() == 0 {
        summary
    } else {
        d
    }
}

/// What `dnf info` output says of a package, before its size is shown.
pub struct DnfInfo {
    pub name: String,
    pub version: String,
    pub release: String,
    pub arch: String,
    pub summary: String,
    pub description: String,
    /// The text after the colon of the size line that counts: the first
    /// installed size, else the first download size or size.
    pub size_field: String,
}

struct DnfScanner {
    name: Vec<char>,
    version: Vec<char>,
    release: Vec<char>,
    arch: Vec<char>,
    summary: Vec<char>,
    size: Vec<char>,
    desc: Vec<Vec<char>>,
    in_desc: bool,
}

impl DnfScanner {
    spec fn view(&self) -> DnfScan {
        DnfScan {
            name: self.name@,
            version: self.version@,
            release: self.release@,
            arch: self.arch@,
            summary: self.summary@,
            size: self.size@,
            desc: views(self.desc@),
            in_desc: self.in_desc,
        }
    }

    fn ends_description_vec(field: &Vec<char>) -> (r: bool)
        ensures
            r == ends_description(field@),
    {
        if starts_with_str(field, "URL") || starts_with_str(field, "License") || starts_with_str(
            field,
            "Vendor",
        ) || starts_with_str(field, "Source") || starts_with_str(field, "Repository")
            || starts_with_str(field, "Epoch") {
            return true;
        }
        field.len() > 0 && char_is_uppercase(field[0]) && utf8_len_below(field, 20)
            && !eq_ignore_ascii_case_str(field, "description")
    }

    fn step(&mut self, raw: &Vec<char>)
        ensures
            final(self).view() == dnf_step(old(self).view(), raw@),
    {
        let line = trim_vec(raw);
        let colon = contains_str(&line, ":");
        if starts_with_str(&line, "Name") && colon {
            self.name = field_value_vec(&line);
            self.in_desc = false;
        } else if starts_with_str(&line, "Version") && colon {
            self.version = field_value_vec(&line);
            self.in_desc = false;
        } else if starts_with_str(&line, "Release") && colon {
            self.release = field_value_vec(&line);
            self.in_desc = false;
        } else if starts_with_str(&line, "Architecture") && colon {
            self.arch = field_value_vec(&line);
            self.in_desc = false;
        } else if starts_with_str(&line, "Summary") && colon {
            self.summary = field_value_vec(&line);
            self.in_desc = false;
        } else if (starts_with_str(&line, "Installed size") || starts_with_str(
            &line,
            "Download size",
        ) || starts_with_str(&line, "Size")) && colon {
            if starts_with_str(&line, "Installed size") || self.size.len() == 0 {
                self.size = field_value_vec(&line);
            }
            self.in_desc = false;
        } else if starts_with_str(&line, "Description") && colon {
            let d = field_value_vec(&line);
            if d.len() > 0 {
                let ghost prev = views(self.desc@);
                self.desc.push(d);
                assert(views(self.desc@) == prev.push(d@));
            }
            self.in_desc = true;
        } else if self.in_desc {
            if line.len() == 0 {
            } else if colon && Self::ends_description_vec(&trim_vec(&before_first_vec(&line, ':'))) {
                self.in_desc = false;
            } else {
                let ghost prev = views(self.desc@);
                let ghost l = line@;
                self.desc.push(line);
                assert(views(self.desc@) == prev.push(l));
            }
        }
    }
}

/// Reads `dnf info` output about `package_name`. A field that no line gives
/// stays empty; the name falls back to `package_name` and the description to
/// the summary.
pub fn parse_dnf_info(package_name: &str, stdout: &str) -> (r: DnfInfo)
    ensures
        ({
            let st = dnf_scan(lines(stdout@));
            &&& r.name@ == (if st.name.len() == 0 {
                package_name@
            } else {
                st.name
            })
            &&& r.version@ == st.version
            &&& r.release@ == st.release
            &&& r.arch@ == st.arch
            &&& r.summary@ == st.summary
            &&& r.description@ == description_or_summary(st.desc, st.summary)
            &&& r.size_field@ == st.size
        }),
{
    let text = chars_of(stdout);
    let ls = lines_vec(&text);
    let ghost lsv = views(ls@);
    let mut sc = DnfScanner {
        name: Vec::new(),
        version: Vec::new(),
        release: Vec::new(),
        arch: Vec::new(),
        summary: Vec::new(),
        size: Vec::new(),
        desc: Vec::new(),
        in_desc: false,
    };
    assert(views(sc.desc@) == Seq::<Seq<char>>::empty());
    assert(lsv.take(0) == Seq::<Seq<char>>::empty());
    let mut i: usize = 0;
    while i < ls.len()
        invariant
            i <= ls.len(),
            lsv == views(ls@),
            sc.view() == dnf_scan(lsv.take(i as int)),
        decreases ls.len() - i,
    {
        assert(lsv.take(i + 1).drop_last() == lsv.take(i as int));
        sc.step(&ls[i]);
        i += 1;
    }
    assert(lsv.take(ls.len() as int) == lsv);
    let name = if sc.name.len() == 0 {
        str_owned(package_name)
    } else {
        string_of(&sc.name)
    };
    let joined = join_vec(&sc.desc, " ");
    let d = trim_vec(&joined);
    let description = if d.len() == 0 {
        string_of(&sc.summary)
    } else {
        string_of(&d)
    };
    DnfInfo {
        name,
        version: string_of(&sc.version),
        release: string_of(&sc.release),
        arch: string_of(&sc.arch),
        summary: string_of(&sc.summary),
        description,
        size_field: string_of(&sc.size),
    }
}

impl DnfInfo {
    /// The package's information, with its size shown as `format_size` of
    /// `size_bytes` where the size field was read as a number of bytes, and
    /// as the size field itself where it was not.
    pub fn into_package_info(self, size_bytes: Option<u64>) -> (r: PackageInfo)
        ensures
            r.name@ == self.name@,
            r.version@ == self.version@,
            r.release@ == self.release@,
            r.arch@ == self.arch@,
            r.summary@ == self.summary@,
            r.description@ == self.description@,
            r.size@ == (match size_bytes {
                Some(b) => size_text(b as nat),
                None => self.size_field@,
            }),
    {
        let size = match size_bytes {
            Some(b) => format_size(b),
            None => self.size_field,
        };
        PackageInfo {
            name: self.name,
            version: self.version,
            release: self.release,
            arch: self.arch,
            summary: self.summary,
            description: self.description,
            size,
        }
    }
}


/// Whether a progress report of the install dialog says that the work is done.
pub open spec fn reports_done(p: Seq<char>) -> bool {
    contains(p, "Complete"@) || contains(p, "Installed"@) || contains(p, "complete"@) || contains(
        lowercase(p),
        "success"@,
    )
}

pub fn reports_done_text(p: &str) -> (r: bool)
    ensures
        r == reports_done(p@),
{
    str_contains(p, "Complete") || str_contains(p, "Installed") || str_contains(p, "complete")
        || lowercase_contains(p, "success")
}

pub enum Message {
    LoadPackageInfo,
    PackageInfoLoaded(Vec<PackageInfo>),
    InstallPackages,
    InstallationProgress(String),
    InstallationComplete,
    InstallationError(String),
    Cancel,
}

/// What the dialog asks its runner to do after a message.
pub enum Action {
    Idle,
    /// Read the information of these packages.
    LoadPackageInfo(Vec<String>),
    /// Install these packages.
    InstallPackages(Vec<String>),
    /// Deliver `InstallationComplete` next.
    MarkComplete,
    CloseWindow,
}

pub struct InstallDialog {
    pub package_names: Vec<String>,
    pub package_info: Vec<PackageInfo>,
    pub is_loading: bool,
    pub is_installing: bool,
    pub is_complete: bool,
    pub installation_progress: String,
    pub show_dialog: bool,
}

pub struct InstallView {
    pub package_names: Seq<Seq<char>>,
    pub package_info: Seq<PackageInfo>,
    pub is_loading: bool,
    pub is_installing: bool,
    pub is_complete: bool,
    pub installation_progress: Seq<char>,
    pub show_dialog: bool,
}

impl View for InstallDialog {
    type V = InstallView;

    open spec fn view(&self) -> InstallView {
        InstallView {
            package_names: string_views(self.package_names@),
            package_info: self.package_info@,
            is_loading: self.is_loading,
            is_installing: self.is_installing,
            is_complete: self.is_complete,
            installation_progress: self.installation_progress@,
            show_dialog: self.show_dialog,
        }
    }
}

/// The install dialog after a message.
pub open spec fn install_next(s: InstallView, m: Message) -> InstallView {
    match m {
        Message::LoadPackageInfo => InstallView { is_loading: true, ..s },
        Message::PackageInfoLoaded(infos) => InstallView {
            is_loading: false,
            package_info: infos@,
            ..s
        },
        Message::InstallPackages => InstallView {
            is_installing: true,
            installation_progress: "Preparing installation..."@,
            ..s
        },
        Message::InstallationProgress(p) => InstallView { installation_progress: p@, ..s },
        Message::InstallationComplete => InstallView {
            is_installing: false,
            is_complete: true,
            installation_progress: "Installation completed successfully!"@,
            ..s
        },
        Message::InstallationError(_) => InstallView { is_installing: false, ..s },
        Message::Cancel => InstallView { show_dialog: false, ..s },
    }
}

/// What the install dialog asks for after a message.
pub open spec fn install_action_ok(s: InstallView, m: Message, a: Action) -> bool {
    match m {
        Message::LoadPackageInfo => a matches Action::LoadPackageInfo(names) && string_views(names@)
            == s.package_names,
        Message::InstallPackages => a matches Action::InstallPackages(names) && string_views(names@)
            == s.package_names,
        Message::InstallationProgress(p) => if reports_done(p@) {
            a is MarkComplete
        } else {
            a is Idle
        },
        Message::Cancel => a is CloseWindow,
        _ => a is Idle,
    }
}

/// The window title for the packages read so far.
pub open spec fn install_title(s: InstallView) -> Seq<char> {
    if s.package_info.len() == 0 {
        "Install Package - Rustora"@
    } else if s.package_info.len() == 1 {
        "Install "@ + s.package_info[0].name@ + " - Rustora"@
    } else {
        "Install "@ + crate::text::decimal(s.package_info.len()) + " Packages - Rustora"@
    }
}

/// What the dialog's window shows.
#[derive(Clone, Copy, Debug, PartialEq, Eq, Structural)]
pub enum InstallScreen {
    /// The dialog is closed.
    Hidden,
    /// The package information is still being read.
    Loading,
    /// No package information could be read.
    LoadFailed,
    /// The packages, their details and the buttons.
    Details,
}

pub open spec fn install_screen(s: InstallView) -> InstallScreen {
    if !s.show_dialog {
        InstallScreen::Hidden
    } else if s.is_loading {
        InstallScreen::Loading
    } else if s.package_info.len() > 0 {
        InstallScreen::Details
    } else {
        InstallScreen::LoadFailed
    }
}

/// The buttons that the details screen offers.
#[derive(Clone, Copy, Debug, PartialEq, Eq, Structural)]
pub enum InstallButtons {
    /// Only "Close", which closes the dialog.
    Close,
    /// "Cancel", beside an "Installing..." button that does nothing.
    CancelWhileInstalling,
    /// "Cancel", and "Install", which starts the install.
    CancelOrInstall,
}

pub open spec fn install_buttons(s: InstallView) -> InstallButtons {
    if s.is_complete {
        InstallButtons::Close
    } else if s.is_installing {
        InstallButtons::CancelWhileInstalling
    } else {
        InstallButtons::CancelOrInstall
    }
}

/// The heading of the details screen.
pub open spec fn install_header(s: InstallView) -> Seq<char> {
    if s.package_info.len() == 1 {
        "Install "@ + s.package_info[0].name@
    } else {
        "Install "@ + crate::text::decimal(s.package_info.len()) + " Packages"@
    }
}

/// The line under the progress bar, shown while installing and once done.
pub open spec fn install_progress_line(s: InstallView) -> Option<Seq<char>> {
    if s.is_complete {
        Some("Installation completed successfully!"@)
    } else if s.is_installing {
        Some(s.installation_progress)
    } else {
        None
    }
}

impl InstallDialog {
    /// A dialog for installing `package_names`, loading their information.
    pub fn new(package_names: Vec<String>) -> (r: Self)
        ensures
            r@ == (InstallView {
                package_names: string_views(package_names@),
                package_info: Seq::empty(),
                is_loading: true,
                is_installing: false,
                is_complete: false,
                installation_progress: Seq::empty(),
                show_dialog: true,
            }),
    {
        InstallDialog {
            package_names,
            package_info: Vec::new(),
            is_loading: true,
            is_installing: false,
            is_complete: false,
            installation_progress: String::new(),
            show_dialog: true,
        }
    }

    pub fn title(&self) -> (r: String)
        ensures
            r@ == install_title(self@),
    {
        if self.package_info.len() == 0 {
            str_owned("Install Package - Rustora")
        } else if self.package_info.len() == 1 {
            cat3("Install ", self.package_info[0].name.as_str(), " - Rustora")
        } else {
            let n = crate::text::usize_text(self.package_info.len());
            cat3("Install ", n.as_str(), " Packages - Rustora")
        }
    }

    /// What the window shows.
    pub fn screen(&self) -> (r: InstallScreen)
        ensures
            r == install_screen(self@),
    {
        if !self.show_dialog {
            InstallScreen::Hidden
        } else if self.is_loading {
            InstallScreen::Loading
        } else if self.package_info.len() > 0 {
            InstallScreen::Details
        } else {
            InstallScreen::LoadFailed
        }
    }

    /// The buttons offered on the details screen.
    pub fn buttons(&self) -> (r: InstallButtons)
        ensures
            r == install_buttons(self@),
    {
        if self.is_complete {
            InstallButtons::Close
        } else if self.is_installing {
            InstallButtons::CancelWhileInstalling
        } else {
            InstallButtons::CancelOrInstall
        }
    }

    /// The heading of the details screen.
    pub fn header(&self) -> (r: String)
        ensures
            r@ == install_header(self@),
    {
        if self.package_info.len() == 1 {
            cat2("Install ", self.package_info[0].name.as_str())
        } else {
            let n = crate::text::usize_text(self.package_info.len());
            cat3("Install ", n.as_str(), " Packages")
        }
    }

    /// The line under the progress bar, if one is shown.
    pub fn progress_line(&self) -> (r: Option<String>)
        ensures
            match (r, install_progress_line(self@)) {
                (Some(t), Some(u)) => t@ == u,
                (None, None) => true,
                _ => false,
            },
    {
        if self.is_complete {
            Some(str_owned("Installation completed successfully!"))
        } else if self.is_installing {
            Some(str_owned(self.installation_progress.as_str()))
        } else {
            None
        }
    }

    /// Takes in a message and says what to do next.
    pub fn update(&mut self, message: Message) -> (a: Action)
        ensures
            final(self)@ == install_next(old(self)@, message),
            install_action_ok(old(self)@, message, a),
    {
        match message {
            Message::LoadPackageInfo => {
                self.is_loading = true;
                Action::LoadPackageInfo(clone_strings(&self.package_names))
            },
            Message::PackageInfoLoaded(infos) => {
                self.is_loading = false;
                self.package_info = infos;
                Action::Idle
            },
            Message::InstallPackages => {
                self.is_installing = true;
                self.installation_progress = str_owned("Preparing installation...");
                Action::InstallPackages(clone_strings(&self.package_names))
            },
            Message::InstallationProgress(progress) => {
                let done = reports_done_text(progress.as_str());
                self.installation_progress = progress;
                if done {
                    Action::MarkComplete
                } else {
                    Action::Idle
                }
            },
            Message::InstallationComplete => {
                self.is_installing = false;
                self.is_complete = true;
                self.installation_progress = str_owned("Installation completed successfully!");
                Action::Idle
            },
            Message::InstallationError(_msg) => {
                self.is_installing = false;
                Action::Idle
            },
            Message::Cancel => {
                self.show_dialog = false;
                Action::CloseWindow
            },
        }
    }
}

/// Once the install dialog has completed, no message undoes it.
pub proof fn install_completion_is_kept(s: InstallView, m: Message)
    requires
        s.is_complete,
    ensures
        install_next(s, m).is_complete,
{
}

/// The packages that the dialog asks to install are the ones it was opened for,
/// whatever messages came before.
pub proof fn install_names_are_kept(s: InstallView, m: Message)
    ensures
        install_next(s, m).package_names == s.package_names,
{
}

/// The packages that were read, in order.
pub open spec fn ok_infos(s: Seq<Result<PackageInfo, String>>) -> Seq<PackageInfo>
    decreases s.len(),
{
    if s.len() == 0 {
        Seq::empty()
    } else {
        let p = ok_infos(s.drop_last());
        match s.last() {
            Ok(v) => p.push(v),
            Err(_) => p,
        }
    }
}

/// The outcome of loading the information of several packages: the error of
/// an empty request, the packages that could be read in their order, or an
/// error when none could.
pub fn collect_package_infos(requested: usize, results: Vec<Result<PackageInfo, String>>) -> (r:
    Result<Vec<PackageInfo>, String>)
    ensures
        requested == 0 ==> (r matches Err(e) && e@ == "No packages specified"@),
        requested > 0 && ok_infos(results@).len() == 0 ==> (r matches Err(e) && e@
            == "Failed to load information for any packages"@),
        requested > 0 && ok_infos(results@).len() > 0 ==> (r matches Ok(v) && v@ == ok_infos(
            results@,
        )),
{
    if requested == 0 {
        return Err(str_owned("No packages specified"));
    }
    let ghost all = results@;
    let n = results.len();
    let mut rest = results;
    let mut items: Vec<Result<PackageInfo, String>> = Vec::new();
    while rest.len() > 0
        invariant
            n == all.len(),
            rest@.len() <= n,
            rest@ == all.subrange(0, rest@.len() as int),
            items@ == all.subrange(rest@.len() as int, n as int).reverse(),
        decreases rest.len(),
    {
        let x = rest.pop().unwrap();
        let ghost k: int = rest@.len() as int;
        items.push(x);
        assert(x == all[k]);
        assert(rest@ =~= all.subrange(0, k));
        assert(all.subrange(k, n as int) =~= seq![x] + all.subrange(k + 1, n as int));
        assert(items@ =~= all.subrange(k, n as int).reverse());
    }
    let mut infos: Vec<PackageInfo> = Vec::new();
    let mut i: usize = 0;
    while items.len() > 0
        invariant
            n == all.len(),
            i + items@.len() == n,
            items@ == all.subrange(i as int, n as int).reverse(),
            infos@ == ok_infos(all.subrange(0, i as int)),
        decreases items.len(),
    {
        let x = items.pop().unwrap();
        assert(all.subrange(i as int, n as int).reverse().last() == all[i as int]);
        assert(all.subrange(0, i + 1).drop_last() == all.subrange(0, i as int));
        match x {
            Ok(info) => {
                infos.push(info);
            },
            Err(_) => {},
        }
        i += 1;
        assert(items@ =~= all.subrange(i as int, n as int).reverse());
    }
    assert(all.subrange(0, n as int) == all);
    if infos.len() == 0 {
        Err(str_owned("Failed to load information for any packages"))
    } else {
        Ok(infos)
    }
}

/// The arguments of the install command: `pkexec` runs
/// `dnf install -y --assumeyes` with the packages.
pub fn install_command_args(package_names: &Vec<String>) -> (r: Vec<String>)
    ensures
        string_views(r@) == seq!["dnf"@, "install"@, "-y"@, "--assumeyes"@] + string_views(
            package_names@,
        ),
{
    let mut r: Vec<String> = Vec::new();
    r.push(str_owned("dnf"));
    r.push(str_owned("install"));
    r.push(str_owned("-y"));
    r.push(str_owned("--assumeyes"));
    let mut i: usize = 0;
    let ghost head = seq!["dnf"@, "install"@, "-y"@, "--assumeyes"@];
    assert(string_views(r@) == head);
    while i < package_names.len()
        invariant
            i <= package_names.len(),
            string_views(r@) == head + string_views(package_names@).take(i as int),
        decreases package_names.len() - i,
    {
        let c = str_owned(package_names[i].as_str());
        let ghost prev = string_views(r@);
        r.push(c);
        assert(string_views(r@) == prev.push(c@));
        assert(string_views(package_names@).take(i + 1) == string_views(package_names@).take(
            i as int,
        ).push(package_names@[i as int]@));
        i += 1;
    }
    assert(string_views(package_names@).take(package_names.len() as int) == string_views(
        package_names@,
    ));
    r
}

/// The outcome of the install command, from whether it succeeded and what it
/// printed.
pub fn install_outcome(success: bool, stderr: &str, stdout: &str) -> (r: Result<String, String>)
    ensures
        success ==> (r matches Ok(m) && m@ == "Installation Complete!"@),
        !success ==> (r matches Err(e) && e@ == "Installation failed: "@ + stderr@ + "\n"@
            + stdout@),
{
    if success {
        Ok(str_owned("Installation Complete!"))
    } else {
        Err(cat4("Installation failed: ", stderr, "\n", stdout))
    }
}

/// The error when `dnf info` about a package fails.
pub fn package_info_error(package_name: &str, stderr: &str) -> (r: String)
    ensures
        r@ == "Failed to read package info for "@ + package_name@ + ": "@ + stderr@,
{
    cat4("Failed to read package info for ", package_name, ": ", stderr)
}


proof fn lemma_dnf_scan_take(ls: Seq<Seq<char>>, k: int)
    requires
        0 <= k < ls.len(),
    ensures
        dnf_scan(ls.take(k + 1)) == dnf_step(dnf_scan(ls.take(k)), ls[k]),
{
    assert(ls.take(k + 1).drop_last() =~= ls.take(k));
}

/// Whether a line of `dnf info` output gives the installed size.
pub open spec fn is_installed_size_line(raw: Seq<char>) -> bool {
    starts_with(trim(raw), "Installed size"@) && contains(trim(raw), ":"@)
}

/// An installed size that has been read stays, as long as no later line
/// gives another installed size.
proof fn lemma_dnf_size_kept(ls: Seq<Seq<char>>, i: int, k: int)
    requires
        0 <= i < k <= ls.len(),
        dnf_scan(ls.take(i + 1)).size.len() > 0,
        forall|j: int| i < j < ls.len() ==> !is_installed_size_line(#[trigger] ls[j]),
    ensures
        dnf_scan(ls.take(k)).size == dnf_scan(ls.take(i + 1)).size,
    decreases k,
{
    if k > i + 1 {
        lemma_dnf_size_kept(ls, i, k - 1);
        lemma_dnf_scan_take(ls, k - 1);
        assert(!is_installed_size_line(ls[k - 1]));
    }
}

/// The installed size takes precedence: the size read from `dnf info` output
/// is the value of its last `Installed size` line where that holds a value,
/// whatever `Download size` or `Size` lines come before or after it.
pub proof fn dnf_installed_size_wins(ls: Seq<Seq<char>>, i: int)
    requires
        0 <= i < ls.len(),
        is_installed_size_line(ls[i]),
        field_value(trim(ls[i])).len() > 0,
        forall|j: int| i < j < ls.len() ==> !is_installed_size_line(#[trigger] ls[j]),
    ensures
        dnf_scan(ls).size == field_value(trim(ls[i])),
{
    lemma_dnf_scan_take(ls, i);
    let line = trim(ls[i]);
    reveal_strlit("Installed size");
    reveal_strlit("Name");
    reveal_strlit("Version");
    reveal_strlit("Release");
    reveal_strlit("Architecture");
    reveal_strlit("Summary");
    lemma_starts_with_char(line, "Installed size"@, 0);
    if starts_with(line, "Name"@) {
        lemma_starts_with_char(line, "Name"@, 0);
    }
    if starts_with(line, "Version"@) {
        lemma_starts_with_char(line, "Version"@, 0);
    }
    if starts_with(line, "Release"@) {
        lemma_starts_with_char(line, "Release"@, 0);
    }
    if starts_with(line, "Architecture"@) {
        lemma_starts_with_char(line, "Architecture"@, 0);
    }
    if starts_with(line, "Summary"@) {
        lemma_starts_with_char(line, "Summary"@, 0);
    }
    assert(dnf_scan(ls.take(i + 1)).size == field_value(line));
    lemma_dnf_size_kept(ls, i, ls.len() as int);
    assert(ls.take(ls.len() as int) =~= ls);
}


/// The label of the `k`th single-line field of `dnf info` output.
pub open spec fn dnf_label_of(k: int) -> Seq<char> {
    if k == 0 {
        "Name"@
    } else if k == 1 {
        "Version"@
    } else if k == 2 {
        "Release"@
    } else if k == 3 {
        "Architecture"@
    } else {
        "Summary"@
    }
}

/// Whether a line of `dnf info` output gives the `k`th single-line field.
pub open spec fn is_dnf_labelled(raw: Seq<char>, k: int) -> bool {
    starts_with(trim(raw), dnf_label_of(k)) && contains(trim(raw), ":"@)
}

/// The `k`th single-line field of a scan, in the order of `dnf_label_of`.
pub open spec fn dnf_field_of(st: DnfScan, k: int) -> Seq<char> {
    if k == 0 {
        st.name
    } else if k == 1 {
        st.version
    } else if k == 2 {
        st.release
    } else if k == 3 {
        st.arch
    } else {
        st.summary
    }
}

proof fn lemma_one_dnf_label(line: Seq<char>, k: int, m: int)
    requires
        0 <= k < 5,
        0 <= m < 5,
        k != m,
        starts_with(line, dnf_label_of(k)),
    ensures
        !starts_with(line, dnf_label_of(m)),
{
    reveal_strlit("Name");
    reveal_strlit("Version");
    reveal_strlit("Release");
    reveal_strlit("Architecture");
    reveal_strlit("Summary");
    lemma_starts_with_char(line, dnf_label_of(k), 0);
    if starts_with(line, dnf_label_of(m)) {
        lemma_starts_with_char(line, dnf_label_of(m), 0);
    }
}

/// One line of `dnf info` output sets the field that it labels and leaves
/// every other single-line field as it was.
proof fn lemma_dnf_line(st: DnfScan, raw: Seq<char>, k: int)
    requires
        0 <= k < 5,
    ensures
        is_dnf_labelled(raw, k) ==> dnf_field_of(dnf_step(st, raw), k) == field_value(trim(raw)),
        !is_dnf_labelled(raw, k) ==> dnf_field_of(dnf_step(st, raw), k) == dnf_field_of(st, k),
{
    let line = trim(raw);
    if starts_with(line, dnf_label_of(k)) {
        if k != 0 {
            lemma_one_dnf_label(line, k, 0);
        }
        if k != 1 {
            lemma_one_dnf_label(line, k, 1);
        }
        if k != 2 {
            lemma_one_dnf_label(line, k, 2);
        }
        if k != 3 {
            lemma_one_dnf_label(line, k, 3);
        }
        if k != 4 {
            lemma_one_dnf_label(line, k, 4);
        }
    }
}

/// Each of the name, version, release, architecture and summary read from
/// `dnf info` output is the trimmed text after the colon of the last line
/// labelled with that field; lines labelled with other fields never set it.
pub proof fn dnf_field_is_last_labelled_line(ls: Seq<Seq<char>>, k: int, i: int)
    requires
        0 <= k < 5,
        0 <= i < ls.len(),
        is_dnf_labelled(ls[i], k),
        forall|j: int| i < j < ls.len() ==> !is_dnf_labelled(#[trigger] ls[j], k),
    ensures
        dnf_field_of(dnf_scan(ls), k) == field_value(trim(ls[i])),
    decreases ls.len(),
{
    lemma_dnf_line(dnf_scan(ls.drop_last()), ls.last(), k);
    if i < ls.len() - 1 {
        assert(!is_dnf_labelled(ls[ls.len() - 1], k));
        assert forall|j: int| i < j < ls.drop_last().len() implies !is_dnf_labelled(
            #[trigger] ls.drop_last()[j],
            k,
        ) by {
            assert(ls.drop_last()[j] == ls[j]);
        }
        dnf_field_is_last_labelled_line(ls.drop_last(), k, i);
    }
}

} // verus!
