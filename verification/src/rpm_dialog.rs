//! Installing a local RPM file: reading `rpm -qip` and `rpm -qpR` output, the
//! outcome of the install command, and the dialog's state machine.
use vstd::prelude::*;
use crate::install_dialog::{field_value, field_value_vec, reports_done, reports_done_text};
use crate::size::{format_size, size_text};
use crate::text::{lemma_starts_with_char, cat2, cat3, chars_of, contains, contains_str, join, join_vec, lines, lines_vec, parse_u64, parse_u64_vec, starts_with, starts_with_str, str_contains, str_owned, string_append, string_of, string_views, trim, trim_vec, views};

use crate::dialog_view::{
    ActionButtons, DetailsScreen, action_buttons, action_buttons_of, dependencies_label,
    dependencies_label_of, details_screen, details_screen_of, progress_line, progress_line_of, text_opt,
};

verus! {

/// What the RPM install dialog shows of a package file.
pub struct RpmInfo {
    pub name: String,
    pub version: String,
    pub release: String,
    pub arch: String,
    pub summary: String,
    pub description: String,
    pub dependencies: Vec<String>,
    pub size: String,
}

/// What has been read so far of `rpm -qip` output.
pub struct RpmScan {
    pub name: Seq<char>,
    pub version: Seq<char>,
    pub release: Seq<char>,
    pub arch: Seq<char>,
    pub summary: Seq<char>,
    pub size: Seq<char>,
    pub desc: Seq<Seq<char>>,
    pub found_name: bool,
    pub found_version: bool,
    pub found_release: bool,
    pub found_arch: bool,
    pub found_summary: bool,
    pub found_size: bool,
    pub found_description: bool,
    pub in_desc: bool,
    /// Reading stopped: every field was found and the description ended.
    pub stopped: bool,
}

pub open spec fn all_found(s: RpmScan) -> bool {
    s.found_name && s.found_version && s.found_release && s.found_arch && s.found_summary
        && s.found_size && s.found_description
}

/// One line of `rpm -qip` output: the first line of each field sets it, the
/// description runs until an empty line or a line that looks like a field, and
/// once every field is found and the description has ended the rest is not read.
pub open spec fn rpm_step(s: RpmScan, raw: Seq<char>) -> RpmScan {
    let line = trim(raw);
    if s.stopped {
        s
    } else if all_found(s) && !s.in_desc {
        RpmScan { stopped: true, ..s }
    } else if starts_with(line, "Name        :"@) && !s.found_name {
        RpmScan { name: field_value(line), found_name: true, in_desc: false, ..s }
    } else if starts_with(line, "Version     :"@) && !s.found_version {
        RpmScan { version: field_value(line), found_version: true, in_desc: false, ..s }
    } else if starts_with(line, "Release     :"@) && !s.found_release {
        RpmScan { release: field_value(line), found_release: true, in_desc: false, ..s }
    } else if starts_with(line, "Architecture:"@) && !s.found_arch {
        RpmScan { arch: field_value(line), found_arch: true, in_desc: false, ..s }
    } else if starts_with(line, "Summary     :"@) && !s.found_summary {
        RpmScan { summary: field_value(line), found_summary: true, in_desc: false, ..s }
    } else if starts_with(line, "Size        :"@) && !s.found_size {
        RpmScan {
            size: match parse_u64(field_value(line)) {
                Some(b) => size_text(b as nat),
                None => s.size,
            },
            found_size: true,
            in_desc: false,
            ..s
        }
    } else if starts_with(line, "Description :"@) && !s.found_description {
        let d = field_value(line);
        RpmScan {
            desc: if d.len() > 0 {
                s.desc.push(d)
            } else {
                s.desc
            },
            found_description: true,
            in_desc: true,
            ..s
        }
    } else if s.in_desc {
        if line.len() == 0 || (contains(line, ":"@) && !starts_with(line, " "@)) {
            RpmScan { in_desc: false, ..s }
        } else {
            RpmScan { desc: s.desc.push(line), ..s }
        }
    } else {
        s
    }
}

pub open spec fn rpm_scan(ls: Seq<Seq<char>>) -> RpmScan
    decreases ls.len(),
{
    if ls.len() == 0 {
        RpmScan {
            name: Seq::empty(),
            version: Seq::empty(),
            release: Seq::empty(),
            arch: Seq::empty(),
            summary: Seq::empty(),
            size: Seq::empty(),
            desc: Seq::empty(),
            found_name: false,
            found_version: false,
            found_release: false,
            found_arch: false,
            found_summary: false,
            found_size: false,
            found_description: false,
            in_desc: false,
            stopped: false,
        }
    } else {
        rpm_step(rpm_scan(ls.drop_last()), ls.last())
    }
}

/// The trimmed lines of `ls` that are not empty, in order.
pub open spec fn nonblank_trimmed(ls: Seq<Seq<char>>) -> Seq<Seq<char>>
    decreases ls.len(),
{
    if ls.len() == 0 {
        Seq::empty()
    } else {
        let p = nonblank_trimmed(ls.drop_last());
        let t = trim(ls.last());
        if t.len() == 0 {
            p
        } else {
            p.push(t)
        }
    }
}

struct RpmScanner {
    name: Vec<char>,
    version: Vec<char>,
    release: Vec<char>,
    arch: Vec<char>,
    summary: Vec<char>,
    size: Vec<char>,
    desc: Vec<Vec<char>>,
    found_name: bool,
    found_version: bool,
    found_release: bool,
    found_arch: bool,
    found_summary: bool,
    found_size: bool,
    found_description: bool,
    in_desc: bool,
    stopped: bool,
}

impl RpmScanner {
    spec fn view(&self) -> RpmScan {
        RpmScan {
            name: self.name@,
            version: self.version@,
            release: self.release@,
            arch: self.arch@,
            summary: self.summary@,
            size: self.size@,
            desc: views(self.desc@),
            found_name: self.found_name,
            found_version: self.found_version,
            found_release: self.found_release,
            found_arch: self.found_arch,
            found_summary: self.found_summary,
            found_size: self.found_size,
            found_description: self.found_description,
            in_desc: self.in_desc,
            stopped: self.stopped,
        }
    }

    fn step(&mut self, raw: &Vec<char>)
        ensures
            final(self).view() == rpm_step(old(self).view(), raw@),
    {
        let line = trim_vec(raw);
        if self.stopped {
            return;
        }
        if self.found_name && self.found_version && self.found_release && self.found_arch
            && self.found_summary && self.found_size && self.found_description && !self.in_desc {
            self.stopped = true;
        } else if starts_with_str(&line, "Name        :") && !self.found_name {
            self.name = field_value_vec(&line);
            self.found_name = true;
            self.in_desc = false;
        } else if starts_with_str(&line, "Version     :") && !self.found_version {
            self.version = field_value_vec(&line);
            self.found_version = true;
            self.in_desc = false;
        } else if starts_with_str(&line, "Release     :") && !self.found_release {
            self.release = field_value_vec(&line);
            self.found_release = true;
            self.in_desc = false;
        } else if starts_with_str(&line, "Architecture:") && !self.found_arch {
            self.arch = field_value_vec(&line);
            self.found_arch = true;
            self.in_desc = false;
        } else if starts_with_str(&line, "Summary     :") && !self.found_summary {
            self.summary = field_value_vec(&line);
            self.found_summary = true;
            self.in_desc = false;
        } else if starts_with_str(&line, "Size        :") && !self.found_size {
            let v = field_value_vec(&line);
            match parse_u64_vec(&v) {
                Some(b) => {
                    let t = format_size(b);
                    self.size = chars_of(t.as_str());
                },
                None => {},
            }
            self.found_size = true;
            self.in_desc = false;
        } else if starts_with_str(&line, "Description :") && !self.found_description {
            let d = field_value_vec(&line);
            if d.len() > 0 {
                let ghost prev = views(self.desc@);
                self.desc.push(d);
                assert(views(self.desc@) == prev.push(d@));
            }
            self.found_description = true;
            self.in_desc = true;
        } else if self.in_desc {
            if line.len() == 0 || (contains_str(&line, ":") && !starts_with_str(&line, " ")) {
                self.in_desc = false;
            } else {
                let ghost prev = views(self.desc@);
                let ghost l = line@;
                self.desc.push(line);
                assert(views(self.desc@) == prev.push(l));
            }
        }
    }
}

/// What `rpm -qip` output, and the output of `rpm -qpR` where that command
/// succeeded, say of a package file. The description is its lines joined by
/// line feeds; the size is shown only where it is a number of bytes; the
/// dependencies are the non-empty trimmed lines of the second output.
pub fn parse_rpm_info(info_stdout: &str, deps_stdout: Option<&str>) -> (r: RpmInfo)
    ensures
        ({
            let s = rpm_scan(lines(info_stdout@));
            &&& r.name@ == s.name
            &&& r.version@ == s.version
            &&& r.release@ == s.release
            &&& r.arch@ == s.arch
            &&& r.summary@ == s.summary
            &&& r.size@ == s.size
            &&& r.description@ == (if s.desc.len() == 0 {
                Seq::empty()
            } else {
                join(s.desc, "\n"@)
            })
            &&& string_views(r.dependencies@) == (match deps_stdout {
                Some(d) => nonblank_trimmed(lines(d@)),
                None => Seq::empty(),
            })
        }),
{
    let text = chars_of(info_stdout);
    let ls = lines_vec(&text);
    let ghost lsv = views(ls@);
    let mut sc = RpmScanner {
        name: Vec::new(),
        version: Vec::new(),
        release: Vec::new(),
        arch: Vec::new(),
        summary: Vec::new(),
        size: Vec::new(),
        desc: Vec::new(),
        found_name: false,
        found_version: false,
        found_release: false,
        found_arch: false,
        found_summary: false,
        found_size: false,
        found_description: false,
        in_desc: false,
        stopped: false,
    };
    assert(views(sc.desc@) == Seq::<Seq<char>>::empty());
    assert(lsv.take(0) == Seq::<Seq<char>>::empty());
    let mut i: usize = 0;
    while i < ls.len()
        invariant
            i <= ls.len(),
            lsv == views(ls@),
            sc.view() == rpm_scan(lsv.take(i as int)),
        decreases ls.len() - i,
    {
        assert(lsv.take(i + 1).drop_last() == lsv.take(i as int));
        sc.step(&ls[i]);
        i += 1;
    }
    assert(lsv.take(ls.len() as int) == lsv);
    let description = if sc.desc.len() == 0 {
        String::new()
    } else {
        let j = join_vec(&sc.desc, "\n");
        string_of(&j)
    };
    let dependencies = match deps_stdout {
        Some(d) => dependency_lines(d),
        None => Vec::new(),
    };
    RpmInfo {
        name: string_of(&sc.name),
        version: string_of(&sc.version),
        release: string_of(&sc.release),
        arch: string_of(&sc.arch),
        summary: string_of(&sc.summary),
        description,
        dependencies,
        size: string_of(&sc.size),
    }
}

/// The non-empty trimmed lines of `out`.
pub fn dependency_lines(out: &str) -> (r: Vec<String>)
    ensures
        string_views(r@) == nonblank_trimmed(lines(out@)),
{
    let text = chars_of(out);
    let ls = lines_vec(&text);
    let ghost lsv = views(ls@);
    let mut r: Vec<String> = Vec::new();
    let mut i: usize = 0;
    assert(lsv.take(0) == Seq::<Seq<char>>::empty());
    while i < ls.len()
        invariant
            i <= ls.len(),
            lsv == views(ls@),
            string_views(r@) == nonblank_trimmed(lsv.take(i as int)),
        decreases ls.len() - i,
    {
        assert(lsv.take(i + 1).drop_last() == lsv.take(i as int));
        let t = trim_vec(&ls[i]);
        if t.len() > 0 {
            let s = string_of(&t);
            let ghost prev = string_views(r@);
            r.push(s);
            assert(string_views(r@) == prev.push(t@));
        }
        i += 1;
    }
    assert(lsv.take(ls.len() as int) == lsv);
    r
}

/// Whether the failed install's output names Debian packages.
pub open spec fn names_debian_packages(stderr: Seq<char>, stdout: Seq<char>) -> bool {
    contains(stderr, "libc6"@) || contains(stderr, "libgtk-3-0"@) || contains(stderr, "libwebkit"@)
        || contains(stderr, "libxdo"@) || contains(stdout, "libc6"@) || contains(stdout, "libgtk-3-0"@)
        || contains(stdout, "libwebkit"@) || contains(stdout, "libxdo"@)
}

pub const DEPS_HEAD: &'static str = "Installation failed due to dependency resolution issues.\n\nThis converted package contains Debian/Ubuntu package names that don't exist in Fedora.\n\nCommon Debian → Fedora package name mappings:\n• libc6 → glibc (usually already installed)\n• libgtk-3-0 → gtk3\n• libwebkit2gtk-4.1-0 → webkit2gtk4.1\n• libxdo3 → xdotool\n\nError details:\n";
pub const DEPS_MID: &'static str = "\n\n[WARN] WARNING: Package conversion cannot automatically map dependencies.\n\nRecommended solutions:\n1. Check if there's a native RPM version available (preferred)\n2. Look for Flatpak or AppImage versions of the application\n3. Manually install the Fedora equivalents of missing dependencies, then try:\ndnf install --nogpgcheck --skip-broken ";
pub const DEPS_TAIL: &'static str = "\n4. Extract the package manually and install files directly (advanced)\n5. Report the issue to the package maintainer to provide native RPM support\n\nNote: FPM conversion preserves original dependency names and cannot automatically\nmap them to Fedora package names. This is a known limitation of package conversion.";
pub const CONFLICT_HEAD: &'static str = "Installation failed due to file conflicts.\n\nConverted packages may try to claim ownership of system directories like /usr/bin, /usr/lib, etc., which are owned by the filesystem package.\n\nError details:\n";
pub const CONFLICT_TAIL: &'static str = "\n\n[WARN] WARNING: Using --allowerasing or --force could remove critical system files and break your system.\n\nRecommended solutions:\n1. Check if there's a native RPM version available (preferred)\n2. Look for Flatpak or AppImage versions of the application\n3. Manually extract and install the package contents (advanced)\n4. Report the issue to the package maintainer to provide native RPM support\n\nNote: Package conversion may have limitations depending on the source package structure.";

/// The error of a failed install: advice on dependencies when the output
/// names Debian packages or missing providers, advice on file conflicts when it
/// reports them, and the output otherwise.
pub open spec fn rpm_install_error(stderr: Seq<char>, stdout: Seq<char>, path: Seq<char>) -> Seq<char> {
    let missing = contains(stderr, "nothing provides"@) || contains(stdout, "nothing provides"@);
    let conflicts = contains(stderr, "conflicts with file"@) || contains(stdout, "conflicts with file"@);
    if names_debian_packages(stderr, stdout) || missing {
        DEPS_HEAD@ + stderr + "\n"@ + stdout + DEPS_MID@ + path + DEPS_TAIL@
    } else if conflicts {
        CONFLICT_HEAD@ + stderr + "\n"@ + stdout + CONFLICT_TAIL@
    } else {
        "Installation failed:\n"@ + stderr + "\n"@ + stdout
    }
}

/// How the install command is reported.
pub fn rpm_install_outcome(success: bool, stderr: &str, stdout: &str, path: &str) -> (r: Result<String, String>)
    ensures
        success ==> (r matches Ok(m) && m@ == "Installation Complete!"@),
        !success ==> (r matches Err(e) && e@ == rpm_install_error(stderr@, stdout@, path@)),
{
    if success {
        return Ok(str_owned("Installation Complete!"));
    }
    let debian = str_contains(stderr, "libc6") || str_contains(stderr, "libgtk-3-0") || str_contains(
        stderr,
        "libwebkit",
    ) || str_contains(stderr, "libxdo") || str_contains(stdout, "libc6") || str_contains(
        stdout,
        "libgtk-3-0",
    ) || str_contains(stdout, "libwebkit") || str_contains(stdout, "libxdo");
    let conflicts = str_contains(stderr, "conflicts with file") || str_contains(
        stdout,
        "conflicts with file",
    );
    let missing = str_contains(stderr, "nothing provides") || str_contains(
        stdout,
        "nothing provides",
    );
    if debian || missing {
        let mut t = str_owned(DEPS_HEAD);
        string_append(&mut t, stderr);
        string_append(&mut t, "\n");
        string_append(&mut t, stdout);
        string_append(&mut t, DEPS_MID);
        string_append(&mut t, path);
        string_append(&mut t, DEPS_TAIL);
        Err(t)
    } else if conflicts {
        let mut t = str_owned(CONFLICT_HEAD);
        string_append(&mut t, stderr);
        string_append(&mut t, "\n");
        string_append(&mut t, stdout);
        string_append(&mut t, CONFLICT_TAIL);
        Err(t)
    } else {
        let mut t = str_owned("Installation failed:\n");
        string_append(&mut t, stderr);
        string_append(&mut t, "\n");
        string_append(&mut t, stdout);
        Err(t)
    }
}

/// The arguments of the install command: `pkexec` runs
/// `dnf install -y --assumeyes --nogpgcheck` with the file.
pub fn rpm_install_args(path: &str) -> (r: Vec<String>)
    ensures
        string_views(r@) == seq!["dnf"@, "install"@, "-y"@, "--assumeyes"@, "--nogpgcheck"@, path@],
{
    let mut r: Vec<String> = Vec::new();
    r.push(str_owned("dnf"));
    r.push(str_owned("install"));
    r.push(str_owned("-y"));
    r.push(str_owned("--assumeyes"));
    r.push(str_owned("--nogpgcheck"));
    r.push(str_owned(path));
    assert(string_views(r@) =~= seq!["dnf"@, "install"@, "-y"@, "--assumeyes"@, "--nogpgcheck"@, path@]);
    r
}

/// The error when `rpm -qip` fails.
pub fn rpm_info_error(stderr: &str) -> (r: String)
    ensures
        r@ == "Failed to read RPM info: "@ + stderr@,
{
    cat2("Failed to read RPM info: ", stderr)
}

pub enum Message {
    LoadRpmInfo,
    RpmInfoLoaded(RpmInfo),
    InstallRpm,
    InstallationProgress(String),
    InstallationComplete,
    InstallationError(String),
    Cancel,
}

/// What the dialog asks its runner to do after a message.
pub enum Action {
    Idle,
    /// Read the package file at this path.
    LoadRpmInfo(String),
    /// Install the package file at this path.
    InstallRpm(String),
    /// Deliver `InstallationComplete` next.
    MarkComplete,
    CloseWindow,
}

pub struct RpmDialog {
    pub rpm_path: String,
    pub rpm_info: Option<RpmInfo>,
    pub is_loading: bool,
    pub is_installing: bool,
    pub is_complete: bool,
    pub installation_progress: String,
    pub show_dialog: bool,
}

pub struct RpmView {
    pub rpm_path: Seq<char>,
    pub rpm_info: Option<RpmInfo>,
    pub is_loading: bool,
    pub is_installing: bool,
    pub is_complete: bool,
    pub installation_progress: Seq<char>,
    pub show_dialog: bool,
}

impl View for RpmDialog {
    type V = RpmView;

    open spec fn view(&self) -> RpmView {
        RpmView {
            rpm_path: self.rpm_path@,
            rpm_info: self.rpm_info,
            is_loading: self.is_loading,
            is_installing: self.is_installing,
            is_complete: self.is_complete,
            installation_progress: self.installation_progress@,
            show_dialog: self.show_dialog,
        }
    }
}

/// The RPM dialog after a message. Cancel only closes the window.
pub open spec fn rpm_next(s: RpmView, m: Message) -> RpmView {
    match m {
        Message::LoadRpmInfo => RpmView { is_loading: true, ..s },
        Message::RpmInfoLoaded(info) => RpmView { is_loading: false, rpm_info: Some(info), ..s },
        Message::InstallRpm => RpmView {
            is_installing: true,
            installation_progress: "Preparing installation..."@,
            ..s
        },
        Message::InstallationProgress(p) => RpmView { installation_progress: p@, ..s },
        Message::InstallationComplete => RpmView {
            is_installing: false,
            is_complete: true,
            installation_progress: "Installation completed successfully!"@,
            ..s
        },
        Message::InstallationError(_) => RpmView { is_installing: false, ..s },
        Message::Cancel => s,
    }
}

/// What the RPM dialog asks for after a message.
pub open spec fn rpm_action_ok(s: RpmView, m: Message, a: Action) -> bool {
    match m {
        Message::LoadRpmInfo => a matches Action::LoadRpmInfo(p) && p@ == s.rpm_path,
        Message::InstallRpm => a matches Action::InstallRpm(p) && p@ == s.rpm_path,
        Message::InstallationProgress(p) => if reports_done(p@) {
            a is MarkComplete
        } else {
            a is Idle
        },
        Message::Cancel => a is CloseWindow,
        _ => a is Idle,
    }
}

/// The window title: the package's name once it is read.
pub open spec fn rpm_title(s: RpmView) -> Seq<char> {
    match s.rpm_info {
        Some(info) => "Install "@ + info.name@ + " - Rustora"@,
        None => "Install RPM Package - Rustora"@,
    }
}

impl RpmDialog {
    /// A dialog for the package file at `rpm_path`, loading its information.
    pub fn new(rpm_path: String) -> (r: Self)
        ensures
            r@ == (RpmView {
                rpm_path: rpm_path@,
                rpm_info: None,
                is_loading: true,
                is_installing: false,
                is_complete: false,
                installation_progress: Seq::empty(),
                show_dialog: true,
            }),
    {
        RpmDialog {
            rpm_path,
            rpm_info: None,
            is_loading: true,
            is_installing: false,
            is_complete: false,
            installation_progress: String::new(),
            show_dialog: true,
        }
    }

    pub fn title(&self) -> (r: String)
        ensures
            r@ == rpm_title(self@),
    {
        match &self.rpm_info {
            Some(info) => cat3("Install ", info.name.as_str(), " - Rustora"),
            None => str_owned("Install RPM Package - Rustora"),
        }
    }

    /// Takes in a message and says what to do next.
    pub fn update(&mut self, message: Message) -> (a: Action)
        ensures
            final(self)@ == rpm_next(old(self)@, message),
            rpm_action_ok(old(self)@, message, a),
    {
        match message {
            Message::LoadRpmInfo => {
                self.is_loading = true;
                Action::LoadRpmInfo(str_owned(self.rpm_path.as_str()))
            },
            Message::RpmInfoLoaded(info) => {
                self.is_loading = false;
                self.rpm_info = Some(info);
                Action::Idle
            },
            Message::InstallRpm => {
                self.is_installing = true;
                self.installation_progress = str_owned("Preparing installation...");
                Action::InstallRpm(str_owned(self.rpm_path.as_str()))
            },
            Message::InstallationProgress(progress) => {
                let done = reports_done_text(progress.as_str());
                self.installation_progress = progress;
                if done {
                    Action::MarkComplete
                } else {
                    Action::Idle
                }
            },
            Message::InstallationComplete => {
                self.is_installing = false;
                self.is_complete = true;
                self.installation_progress = str_owned("Installation completed successfully!");
                Action::Idle
            },
            Message::InstallationError(_msg) => {
                self.is_installing = false;
                Action::Idle
            },
            Message::Cancel => Action::CloseWindow,
        }
    }
}

/// Once the RPM dialog has completed, no message undoes it, and the file it
/// installs stays the one it was opened for.
pub proof fn rpm_completion_is_kept(s: RpmView, m: Message)
    ensures
        s.is_complete ==> rpm_next(s, m).is_complete,
        rpm_next(s, m).rpm_path == s.rpm_path,
{
}


/// The heading of the details screen, once the file's details are read.
pub open spec fn rpm_header(s: RpmView) -> Option<Seq<char>> {
    match s.rpm_info {
        Some(i) => Some("Install "@ + i.name@),
        None => None,
    }
}

/// The line under the heading: version, release and architecture.
pub open spec fn rpm_subtitle(s: RpmView) -> Option<Seq<char>> {
    match s.rpm_info {
        Some(i) => Some(i.version@ + " "@ + i.release@ + " ("@ + i.arch@ + ")"@),
        None => None,
    }
}

/// The heading of the dependency list, shown where there are dependencies.
pub open spec fn rpm_dependencies_heading(s: RpmView) -> Option<Seq<char>> {
    match s.rpm_info {
        Some(i) => if i.dependencies.len() > 0 {
            Some(dependencies_label(i.dependencies@.len()))
        } else {
            None
        },
        None => None,
    }
}

impl RpmDialog {
    /// Which screen the dialog shows.
    pub fn screen(&self) -> (r: DetailsScreen)
        ensures
            r == details_screen(self@.show_dialog, self@.is_loading, self@.rpm_info is Some),
    {
        details_screen_of(self.show_dialog, self.is_loading, self.rpm_info.is_some())
    }

    /// The buttons under the details: Close once done, a busy Install while
    /// installing, else Cancel and Install.
    pub fn buttons(&self) -> (r: ActionButtons)
        ensures
            r == action_buttons(self@.is_complete, self@.is_installing),
    {
        action_buttons_of(self.is_complete, self.is_installing)
    }

    /// The heading of the details screen.
    pub fn header(&self) -> (r: Option<String>)
        ensures
            text_opt(r) == rpm_header(self@),
    {
        match &self.rpm_info {
            Some(i) => Some(cat2("Install ", i.name.as_str())),
            None => None,
        }
    }

    /// The line under the heading.
    pub fn subtitle(&self) -> (r: Option<String>)
        ensures
            text_opt(r) == rpm_subtitle(self@),
    {
        match &self.rpm_info {
            Some(i) => {
                let mut t = cat3(i.version.as_str(), " ", i.release.as_str());
                string_append(&mut t, " (");
                string_append(&mut t, i.arch.as_str());
                string_append(&mut t, ")");
                Some(t)
            },
            None => None,
        }
    }

    /// The line under the progress bar, if one is shown.
    pub fn progress_line(&self) -> (r: Option<String>)
        ensures
            text_opt(r) == progress_line(
                self@.is_complete,
                self@.is_installing,
                "Installation completed successfully!"@,
                self@.installation_progress,
            ),
    {
        progress_line_of(
            self.is_complete,
            self.is_installing,
            "Installation completed successfully!",
            self.installation_progress.as_str(),
        )
    }

    /// The heading of the dependency list, if one is shown.
    pub fn dependencies_heading(&self) -> (r: Option<String>)
        ensures
            text_opt(r) == rpm_dependencies_heading(self@),
    {
        match &self.rpm_info {
            Some(i) => if i.dependencies.len() > 0 {
                Some(dependencies_label_of(i.dependencies.len()))
            } else {
                None
            },
            None => None,
        }
    }
}


proof fn lemma_rpm_scan_take(ls: Seq<Seq<char>>, k: int)
    requires
        0 <= k < ls.len(),
    ensures
        rpm_scan(ls.take(k + 1)) == rpm_step(rpm_scan(ls.take(k)), ls[k]),
{
    assert(ls.take(k + 1).drop_last() =~= ls.take(k));
}

/// Whether a line of `rpm -qip` output is the version line.
pub open spec fn is_version_line(raw: Seq<char>) -> bool {
    starts_with(trim(raw), "Version     :"@)
}

/// Whether a line of `rpm -qip` output is the release line.
pub open spec fn is_release_line(raw: Seq<char>) -> bool {
    starts_with(trim(raw), "Release     :"@)
}

/// Before the first version line the scan has no version and has not stopped.
proof fn lemma_rpm_no_version_yet(ls: Seq<Seq<char>>, k: int)
    requires
        0 <= k <= ls.len(),
        forall|j: int| 0 <= j < k ==> !is_version_line(#[trigger] ls[j]),
    ensures
        !rpm_scan(ls.take(k)).found_version,
        !rpm_scan(ls.take(k)).stopped,
        rpm_scan(ls.take(k)).version == Seq::<char>::empty(),
    decreases k,
{
    if k == 0 {
        assert(ls.take(0) =~= Seq::<Seq<char>>::empty());
    } else {
        lemma_rpm_no_version_yet(ls, k - 1);
        lemma_rpm_scan_take(ls, k - 1);
        assert(!is_version_line(ls[k - 1]));
    }
}

/// Before the first release line the scan has no release and has not stopped.
proof fn lemma_rpm_no_release_yet(ls: Seq<Seq<char>>, k: int)
    requires
        0 <= k <= ls.len(),
        forall|j: int| 0 <= j < k ==> !is_release_line(#[trigger] ls[j]),
    ensures
        !rpm_scan(ls.take(k)).found_release,
        !rpm_scan(ls.take(k)).stopped,
        rpm_scan(ls.take(k)).release == Seq::<char>::empty(),
    decreases k,
{
    if k == 0 {
        assert(ls.take(0) =~= Seq::<Seq<char>>::empty());
    } else {
        lemma_rpm_no_release_yet(ls, k - 1);
        lemma_rpm_scan_take(ls, k - 1);
        assert(!is_release_line(ls[k - 1]));
    }
}

/// Once the version is found it never changes.
proof fn lemma_rpm_version_kept(ls: Seq<Seq<char>>, i: int, k: int)
    requires
        0 <= i < k <= ls.len(),
        rpm_scan(ls.take(i + 1)).found_version,
    ensures
        rpm_scan(ls.take(k)).found_version,
        rpm_scan(ls.take(k)).version == rpm_scan(ls.take(i + 1)).version,
    decreases k,
{
    if k > i + 1 {
        lemma_rpm_version_kept(ls, i, k - 1);
        lemma_rpm_scan_take(ls, k - 1);
    }
}

/// Once the release is found it never changes.
proof fn lemma_rpm_release_kept(ls: Seq<Seq<char>>, i: int, k: int)
    requires
        0 <= i < k <= ls.len(),
        rpm_scan(ls.take(i + 1)).found_release,
    ensures
        rpm_scan(ls.take(k)).found_release,
        rpm_scan(ls.take(k)).release == rpm_scan(ls.take(i + 1)).release,
    decreases k,
{
    if k > i + 1 {
        lemma_rpm_release_kept(ls, i, k - 1);
        lemma_rpm_scan_take(ls, k - 1);
    }
}

/// The version read from `rpm -qip` output is the trimmed text after the
/// colon of its first `Version     :` line, whatever other lines surround it.
pub proof fn rpm_version_is_first_version_line(ls: Seq<Seq<char>>, i: int)
    requires
        0 <= i < ls.len(),
        is_version_line(ls[i]),
        forall|j: int| 0 <= j < i ==> !is_version_line(#[trigger] ls[j]),
    ensures
        rpm_scan(ls).version == field_value(trim(ls[i])),
{
    lemma_rpm_no_version_yet(ls, i);
    lemma_rpm_scan_take(ls, i);
    let line = trim(ls[i]);
    reveal_strlit("Version     :");
    reveal_strlit("Name        :");
    lemma_starts_with_char(line, "Version     :"@, 0);
    if starts_with(line, "Name        :"@) {
        lemma_starts_with_char(line, "Name        :"@, 0);
    }
    assert(rpm_scan(ls.take(i + 1)).version == field_value(line));
    lemma_rpm_version_kept(ls, i, ls.len() as int);
    assert(ls.take(ls.len() as int) =~= ls);
}

/// Output without a version line gives no version.
pub proof fn rpm_version_absent(ls: Seq<Seq<char>>)
    requires
        forall|j: int| 0 <= j < ls.len() ==> !is_version_line(#[trigger] ls[j]),
    ensures
        rpm_scan(ls).version == Seq::<char>::empty(),
{
    lemma_rpm_no_version_yet(ls, ls.len() as int);
    assert(ls.take(ls.len() as int) =~= ls);
}

/// The release read from `rpm -qip` output is the trimmed text after the
/// colon of its first `Release     :` line, whatever other lines surround it.
pub proof fn rpm_release_is_first_release_line(ls: Seq<Seq<char>>, i: int)
    requires
        0 <= i < ls.len(),
        is_release_line(ls[i]),
        forall|j: int| 0 <= j < i ==> !is_release_line(#[trigger] ls[j]),
    ensures
        rpm_scan(ls).release == field_value(trim(ls[i])),
{
    lemma_rpm_no_release_yet(ls, i);
    lemma_rpm_scan_take(ls, i);
    let line = trim(ls[i]);
    reveal_strlit("Release     :");
    reveal_strlit("Name        :");
    reveal_strlit("Version     :");
    lemma_starts_with_char(line, "Release     :"@, 0);
    if starts_with(line, "Name        :"@) {
        lemma_starts_with_char(line, "Name        :"@, 0);
    }
    if starts_with(line, "Version     :"@) {
        lemma_starts_with_char(line, "Version     :"@, 0);
    }
    assert(rpm_scan(ls.take(i + 1)).release == field_value(line));
    lemma_rpm_release_kept(ls, i, ls.len() as int);
    assert(ls.take(ls.len() as int) =~= ls);
}

/// Output without a release line gives no release.
pub proof fn rpm_release_absent(ls: Seq<Seq<char>>)
    requires
        forall|j: int| 0 <= j < ls.len() ==> !is_release_line(#[trigger] ls[j]),
    ensures
        rpm_scan(ls).release == Seq::<char>::empty(),
{
    lemma_rpm_no_release_yet(ls, ls.len() as int);
    assert(ls.take(ls.len() as int) =~= ls);
}


/// The label of the `k`th single-line field of `rpm -qip` output.
pub open spec fn rpm_label_of(k: int) -> Seq<char> {
    if k == 0 {
        "Name        :"@
    } else if k == 1 {
        "Version     :"@
    } else if k == 2 {
        "Release     :"@
    } else if k == 3 {
        "Architecture:"@
    } else {
        "Summary     :"@
    }
}

/// The `k`th single-line field of a scan, in the order of `rpm_label_of`.
pub open spec fn rpm_field_of(s: RpmScan, k: int) -> Seq<char> {
    if k == 0 {
        s.name
    } else if k == 1 {
        s.version
    } else if k == 2 {
        s.release
    } else if k == 3 {
        s.arch
    } else {
        s.summary
    }
}

/// Whether the scan has read the `k`th single-line field.
pub open spec fn rpm_found_of(s: RpmScan, k: int) -> bool {
    if k == 0 {
        s.found_name
    } else if k == 1 {
        s.found_version
    } else if k == 2 {
        s.found_release
    } else if k == 3 {
        s.found_arch
    } else {
        s.found_summary
    }
}

pub(crate) proof fn lemma_one_rpm_label(line: Seq<char>, k: int, m: int)
    requires
        0 <= k < 5,
        0 <= m < 5,
        k != m,
        starts_with(line, rpm_label_of(k)),
    ensures
        !starts_with(line, rpm_label_of(m)),
{
    reveal_strlit("Name        :");
    reveal_strlit("Version     :");
    reveal_strlit("Release     :");
    reveal_strlit("Architecture:");
    reveal_strlit("Summary     :");
    lemma_starts_with_char(line, rpm_label_of(k), 0);
    if starts_with(line, rpm_label_of(m)) {
        lemma_starts_with_char(line, rpm_label_of(m), 0);
    }
}

proof fn lemma_rpm_not_found_yet(ls: Seq<Seq<char>>, k: int, n: int)
    requires
        0 <= k < 5,
        0 <= n <= ls.len(),
        forall|j: int| 0 <= j < n ==> !starts_with(#[trigger] trim(ls[j]), rpm_label_of(k)),
    ensures
        !rpm_found_of(rpm_scan(ls.take(n)), k),
        !rpm_scan(ls.take(n)).stopped,
        rpm_field_of(rpm_scan(ls.take(n)), k) == Seq::<char>::empty(),
    decreases n,
{
    if n == 0 {
        assert(ls.take(0) =~= Seq::<Seq<char>>::empty());
    } else {
        lemma_rpm_not_found_yet(ls, k, n - 1);
        lemma_rpm_scan_take(ls, n - 1);
        assert(!starts_with(trim(ls[n - 1]), rpm_label_of(k)));
    }
}

proof fn lemma_rpm_field_kept(ls: Seq<Seq<char>>, k: int, i: int, n: int)
    requires
        0 <= k < 5,
        0 <= i < n <= ls.len(),
        rpm_found_of(rpm_scan(ls.take(i + 1)), k),
    ensures
        rpm_found_of(rpm_scan(ls.take(n)), k),
        rpm_field_of(rpm_scan(ls.take(n)), k) == rpm_field_of(rpm_scan(ls.take(i + 1)), k),
    decreases n,
{
    if n > i + 1 {
        lemma_rpm_field_kept(ls, k, i, n - 1);
        lemma_rpm_scan_take(ls, n - 1);
    }
}

/// Each of the name, version, release, architecture and summary read from
/// `rpm -qip` output is the trimmed text after the colon of the first line
/// labelled with that field; lines labelled with other fields never set it.
pub proof fn rpm_field_is_first_labelled_line(ls: Seq<Seq<char>>, k: int, i: int)
    requires
        0 <= k < 5,
        0 <= i < ls.len(),
        starts_with(trim(ls[i]), rpm_label_of(k)),
        forall|j: int| 0 <= j < i ==> !starts_with(#[trigger] trim(ls[j]), rpm_label_of(k)),
    ensures
        rpm_field_of(rpm_scan(ls), k) == field_value(trim(ls[i])),
{
    lemma_rpm_not_found_yet(ls, k, i);
    lemma_rpm_scan_take(ls, i);
    let line = trim(ls[i]);
    if k != 0 {
        lemma_one_rpm_label(line, k, 0);
    }
    if k != 1 {
        lemma_one_rpm_label(line, k, 1);
    }
    if k != 2 {
        lemma_one_rpm_label(line, k, 2);
    }
    if k != 3 {
        lemma_one_rpm_label(line, k, 3);
    }
    if k != 4 {
        lemma_one_rpm_label(line, k, 4);
    }
    assert(rpm_field_of(rpm_scan(ls.take(i + 1)), k) == field_value(line));
    lemma_rpm_field_kept(ls, k, i, ls.len() as int);
    assert(ls.take(ls.len() as int) =~= ls);
}

/// Output without a line labelled with one of those fields leaves it empty.
pub proof fn rpm_unlabelled_field_is_empty(ls: Seq<Seq<char>>, k: int)
    requires
        0 <= k < 5,
        forall|j: int| 0 <= j < ls.len() ==> !starts_with(#[trigger] trim(ls[j]), rpm_label_of(k)),
    ensures
        rpm_field_of(rpm_scan(ls), k) == Seq::<char>::empty(),
{
    lemma_rpm_not_found_yet(ls, k, ls.len() as int);
    assert(ls.take(ls.len() as int) =~= ls);
}

} // verus!
