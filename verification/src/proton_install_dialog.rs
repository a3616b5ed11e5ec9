//! Installing a compatibility-tool build (Proton and the like): the archive
//! format read from the file's first bytes, the checks on the download and
//! the archive, where the build goes for each launcher, and the dialog's state
//! machine.
use vstd::prelude::*;
use crate::text::{cat2, cat3, cat4, chars_of, contains, decimal, same_text, str_contains, str_owned, string_append, string_of};

verus! {

/// The archive formats that the install tells apart.
#[derive(Clone, Copy, Debug, PartialEq, Eq, Structural)]
pub enum ArchiveFormat {
    Gzip,
    Zstd,
    Xz,
    SevenZip,
    Zip,
    Unsupported,
}

pub open spec fn is_gzip(b: Seq<u8>) -> bool {
    b[0] == 0x1f && b[1] == 0x8b
}

pub open spec fn is_zstd(b: Seq<u8>) -> bool {
    b[0] == 0x28 && b[1] == 0xb5 && b[2] == 0x2f && b[3] == 0xfd
}

pub open spec fn is_xz(b: Seq<u8>) -> bool {
    b[0] == 0xfd && b[1] == 0x37 && b[2] == 0x7a && b[3] == 0x58 && b[4] == 0x5a && b[5] == 0x00
}

pub open spec fn is_7z(b: Seq<u8>) -> bool {
    b[0] == 0x37 && b[1] == 0x7a && b[2] == 0xbc && b[3] == 0xaf && b[4] == 0x27 && b[5] == 0x1c
}

pub open spec fn is_zip(b: Seq<u8>) -> bool {
    b[0] == 0x50 && b[1] == 0x4b && (b[2] == 0x03 || b[2] == 0x05 || b[2] == 0x07)
}

/// The format that an archive's first six bytes show: 7z and zip are checked
/// first, then gzip, zstd and xz.
pub open spec fn archive_format(b: Seq<u8>) -> ArchiveFormat {
    if is_7z(b) {
        ArchiveFormat::SevenZip
    } else if is_zip(b) {
        ArchiveFormat::Zip
    } else if is_gzip(b) {
        ArchiveFormat::Gzip
    } else if is_zstd(b) {
        ArchiveFormat::Zstd
    } else if is_xz(b) {
        ArchiveFormat::Xz
    } else {
        ArchiveFormat::Unsupported
    }
}

/// Tells the archive format from the first six bytes of the file.
pub fn detect_archive_format(peek: &[u8; 6]) -> (r: ArchiveFormat)
    ensures
        r == archive_format(peek@),
{
    let b = peek;
    let gzip = b[0] == 0x1f && b[1] == 0x8b;
    let zstd = b[0] == 0x28 && b[1] == 0xb5 && b[2] == 0x2f && b[3] == 0xfd;
    let xz = b[0] == 0xfd && b[1] == 0x37 && b[2] == 0x7a && b[3] == 0x58 && b[4] == 0x5a && b[5]
        == 0x00;
    let seven = b[0] == 0x37 && b[1] == 0x7a && b[2] == 0xbc && b[3] == 0xaf && b[4] == 0x27 && b[5]
        == 0x1c;
    let zip = b[0] == 0x50 && b[1] == 0x4b && (b[2] == 0x03 || b[2] == 0x05 || b[2] == 0x07);
    if seven {
        ArchiveFormat::SevenZip
    } else if zip {
        ArchiveFormat::Zip
    } else if !gzip && !zstd && !xz {
        ArchiveFormat::Unsupported
    } else if gzip {
        ArchiveFormat::Gzip
    } else if zstd {
        ArchiveFormat::Zstd
    } else {
        ArchiveFormat::Xz
    }
}

pub open spec fn hex_digit(d: nat) -> char {
    if d < 10 {
        ((d + 48) as u8) as char
    } else {
        ((d + 87) as u8) as char
    }
}

/// A byte as `{:02x}` writes it: two lowercase hexadecimal digits.
pub open spec fn hex2(b: u8) -> Seq<char> {
    seq![hex_digit(b as nat / 16), hex_digit(b as nat % 16)]
}

fn hex2_text(b: u8) -> (r: String)
    ensures
        r@ == hex2(b),
{
    let hi = b / 16;
    let lo = b % 16;
    let c1 = if hi < 10 {
        (hi + 48) as char
    } else {
        (hi + 87) as char
    };
    let c2 = if lo < 10 {
        (lo + 48) as char
    } else {
        (lo + 87) as char
    };
    let mut v: Vec<char> = Vec::new();
    v.push(c1);
    v.push(c2);
    assert(v@ =~= hex2(b));
    string_of(&v)
}

/// The error for an archive in none of the formats.
pub open spec fn unsupported_error(b: Seq<u8>) -> Seq<char> {
    "Unsupported archive format (magic bytes: "@ + hex2(b[0]) + " "@ + hex2(b[1]) + " "@ + hex2(b[2])
        + " "@ + hex2(b[3])
        + "). Expected gzip (.tar.gz), zstd (.tar.zst), xz (.tar.xz), 7z, or zip format."@
}

pub fn unsupported_error_text(peek: &[u8; 6]) -> (r: String)
    ensures
        r@ == unsupported_error(peek@),
{
    let mut t = str_owned("Unsupported archive format (magic bytes: ");
    let h0 = hex2_text(peek[0]);
    let h1 = hex2_text(peek[1]);
    let h2 = hex2_text(peek[2]);
    let h3 = hex2_text(peek[3]);
    string_append(&mut t, h0.as_str());
    string_append(&mut t, " ");
    string_append(&mut t, h1.as_str());
    string_append(&mut t, " ");
    string_append(&mut t, h2.as_str());
    string_append(&mut t, " ");
    string_append(&mut t, h3.as_str());
    string_append(
        &mut t,
        "). Expected gzip (.tar.gz), zstd (.tar.zst), xz (.tar.xz), 7z, or zip format.",
    );
    assert(t@ =~= unsupported_error(peek@));
    t
}

/// The name that errors give a tar format.
pub open spec fn format_name(f: ArchiveFormat) -> Seq<char> {
    match f {
        ArchiveFormat::Gzip => "gzip"@,
        ArchiveFormat::Zstd => "zstd"@,
        _ => "xz"@,
    }
}

/// The error of a failed unpack: a note that the archive looks corrupted
/// where the tar reader could not go through its entries.
pub open spec fn unpack_error(f: ArchiveFormat, e: Seq<char>) -> Seq<char> {
    let msg = "Failed to extract "@ + format_name(f) + " archive: "@ + e;
    if contains(msg, "failed to iterate"@) {
        "Archive appears to be corrupted or in an unsupported format. Please try downloading again. Original error: "@
            + e
    } else {
        msg
    }
}

pub fn unpack_error_text(f: ArchiveFormat, e: &str) -> (r: String)
    ensures
        r@ == unpack_error(f, e@),
{
    let name = match f {
        ArchiveFormat::Gzip => "gzip",
        ArchiveFormat::Zstd => "zstd",
        _ => "xz",
    };
    let msg = cat4("Failed to extract ", name, " archive: ", e);
    if str_contains(msg.as_str(), "failed to iterate") {
        cat2(
            "Archive appears to be corrupted or in an unsupported format. Please try downloading again. Original error: ",
            e,
        )
    } else {
        msg
    }
}

/// The check of an archive's size before it is opened.
pub open spec fn archive_size_error(len: u64) -> Option<Seq<char>> {
    if len < 100 {
        Some("Archive file is too small to be valid"@)
    } else {
        None
    }
}

pub fn check_archive_size(len: u64) -> (r: Result<(), String>)
    ensures
        match (r, archive_size_error(len)) {
            (Ok(_), None) => true,
            (Err(a), Some(b)) => a@ == b,
            _ => false,
        },
{
    if len < 100 {
        Err(str_owned("Archive file is too small to be valid"))
    } else {
        Ok(())
    }
}

/// The check of a finished download: not empty, and as long as announced
/// where a length was announced.
pub open spec fn download_error(total: u64, len: u64) -> Option<Seq<char>> {
    if len == 0 {
        Some("Downloaded file is empty"@)
    } else if total > 0 && len != total {
        Some("Downloaded file size mismatch: expected "@ + decimal(total as nat) + " bytes, got "@
            + decimal(len as nat) + " bytes"@)
    } else {
        None
    }
}

pub fn check_download(total: u64, len: u64) -> (r: Result<(), String>)
    ensures
        match (r, download_error(total, len)) {
            (Ok(_), None) => true,
            (Err(a), Some(b)) => a@ == b,
            _ => false,
        },
{
    if len == 0 {
        return Err(str_owned("Downloaded file is empty"));
    }
    if total > 0 && len != total {
        let t = string_of(&crate::text::decimal_vec(total as u128));
        let l = string_of(&crate::text::decimal_vec(len as u128));
        let mut m = cat3("Downloaded file size mismatch: expected ", t.as_str(), " bytes, got ");
        string_append(&mut m, l.as_str());
        string_append(&mut m, " bytes");
        return Err(m);
    }
    Ok(())
}

/// The file name of a build's downloaded archive.
pub fn archive_file_name(build_title: &str) -> (r: String)
    ensures
        r@ == build_title@ + ".tar.gz"@,
{
    cat2(build_title, ".tar.gz")
}

/// The name of the directory that a build is unpacked into.
pub fn extract_dir_name(build_title: &str) -> (r: String)
    ensures
        r@ == "proton_extract_"@ + build_title@,
{
    cat2("proton_extract_", build_title)
}

/// The launcher that a build goes to: the one chosen, else Steam.
pub open spec fn launcher_name(selected: Option<Seq<char>>) -> Seq<char> {
    match selected {
        Some(l) => l,
        None => "Steam"@,
    }
}

/// The places where Steam keeps compatibility tools, in the order they are
/// tried.
pub open spec fn steam_candidates(home: Seq<char>) -> Seq<Seq<char>> {
    seq![
        home + "/.steam/root/compatibilitytools.d"@,
        home + "/.local/share/Steam/compatibilitytools.d"@,
        home + "/.steam/steam/compatibilitytools.d"@,
    ]
}

pub fn steam_compat_candidates(home: &str) -> (r: Vec<String>)
    ensures
        r@.len() == 3,
        forall|i: int| 0 <= i < 3 ==> #[trigger] r@[i]@ == steam_candidates(home@)[i],
{
    let mut r: Vec<String> = Vec::new();
    r.push(cat2(home, "/.steam/root/compatibilitytools.d"));
    r.push(cat2(home, "/.local/share/Steam/compatibilitytools.d"));
    r.push(cat2(home, "/.steam/steam/compatibilitytools.d"));
    r
}

/// Where the build is installed: for Steam, the first of its places that
/// exists, else its second; for another launcher, its directory under
/// `~/.local/share`. `exists` says which of Steam's places exist.
pub open spec fn compat_dir(home: Seq<char>, selected: Option<Seq<char>>, exists: Seq<bool>) -> Seq<char> {
    let l = launcher_name(selected);
    if l == "Steam"@ {
        let c = steam_candidates(home);
        if exists.len() > 0 && exists[0] {
            c[0]
        } else if exists.len() > 1 && exists[1] {
            c[1]
        } else if exists.len() > 2 && exists[2] {
            c[2]
        } else {
            c[1]
        }
    } else {
        home + "/.local/share/"@ + l + "/compatibilitytools.d"@
    }
}

pub fn choose_compat_dir(home: &str, selected: &Option<String>, exists: &Vec<bool>) -> (r: String)
    ensures
        r@ == compat_dir(
            home@,
            match selected {
                Some(s) => Some(s@),
                None => None,
            },
            exists@,
        ),
{
    let l = match selected {
        Some(s) => s.as_str(),
        None => "Steam",
    };
    if same_text(&chars_of(l), &chars_of("Steam")) {
        let c = steam_compat_candidates(home);
        let pick: usize = if exists.len() > 0 && exists[0] {
            0
        } else if exists.len() > 1 && exists[1] {
            1
        } else if exists.len() > 2 && exists[2] {
            2
        } else {
            1
        };
        str_owned(c[pick].as_str())
    } else {
        let mut d = cat3(home, "/.local/share/", l);
        string_append(&mut d, "/compatibilitytools.d");
        d
    }
}

pub enum Message {
    StartDownload,
    DownloadComplete(Result<String, String>),
    StartExtraction,
    ExtractionComplete(Result<String, String>),
    StartInstallation,
    InstallationComplete(Result<(), String>),
    Close,
}

/// What the dialog asks its runner to do after a message.
pub enum Action {
    Idle,
    /// Download this address for this build, and report the archive's path.
    Download(String, String),
    /// Deliver this message next.
    Send(Message),
    /// Unpack this build's archive and report the directory it holds.
    Extract(String),
    /// Install this build for this launcher (Steam where none is chosen).
    Install(String, Option<String>),
    CloseWindow,
}

pub struct ProtonInstallDialog {
    runner_title: String,
    build_title: String,
    download_url: String,
    selected_launcher: Option<String>,
    runner_info: Option<String>,
    is_downloading: bool,
    is_extracting: bool,
    is_installing: bool,
    is_complete: bool,
    has_error: bool,
    terminal_output: String,
}

pub struct InstallView {
    pub runner_title: Seq<char>,
    pub build_title: Seq<char>,
    pub download_url: Seq<char>,
    pub selected_launcher: Option<Seq<char>>,
    pub runner_info: Option<Seq<char>>,
    pub is_downloading: bool,
    pub is_extracting: bool,
    pub is_installing: bool,
    pub is_complete: bool,
    pub has_error: bool,
    pub terminal_output: Seq<char>,
}

pub open spec fn opt_text(o: Option<String>) -> Option<Seq<char>> {
    match o {
        Some(s) => Some(s@),
        None => None,
    }
}

impl View for ProtonInstallDialog {
    type V = InstallView;

    closed spec fn view(&self) -> InstallView {
        InstallView {
            runner_title: self.runner_title@,
            build_title: self.build_title@,
            download_url: self.download_url@,
            selected_launcher: opt_text(self.selected_launcher),
            runner_info: opt_text(self.runner_info),
            is_downloading: self.is_downloading,
            is_extracting: self.is_extracting,
            is_installing: self.is_installing,
            is_complete: self.is_complete,
            has_error: self.has_error,
            terminal_output: self.terminal_output@,
        }
    }
}

/// The install dialog after a message: each stage adds its lines to the
/// terminal, and a stage that went well starts the next.
pub open spec fn install_next(s: InstallView, m: Message) -> InstallView {
    match m {
        Message::StartDownload => InstallView {
            is_downloading: true,
            terminal_output: "Starting download of "@ + s.runner_title + " "@ + s.build_title
                + "...\n"@ + "=====================================\n\n"@,
            ..s
        },
        Message::DownloadComplete(r) => match r {
            Ok(p) => InstallView {
                is_downloading: false,
                terminal_output: s.terminal_output + "Download complete: "@ + p@ + "\n\n"@,
                ..s
            },
            Err(e) => InstallView {
                is_downloading: false,
                has_error: true,
                terminal_output: s.terminal_output + "Download failed: "@ + e@ + "\n"@,
                ..s
            },
        },
        Message::StartExtraction => InstallView {
            is_extracting: true,
            terminal_output: s.terminal_output + "Starting extraction...\n"@,
            ..s
        },
        Message::ExtractionComplete(r) => match r {
            Ok(d) => InstallView {
                is_extracting: false,
                terminal_output: s.terminal_output + "Extraction complete: "@ + d@ + "\n\n"@,
                ..s
            },
            Err(e) => InstallView {
                is_extracting: false,
                has_error: true,
                terminal_output: s.terminal_output + "Extraction failed: "@ + e@ + "\n"@,
                ..s
            },
        },
        Message::StartInstallation => InstallView {
            is_installing: true,
            terminal_output: s.terminal_output + "Starting installation...\n"@,
            ..s
        },
        Message::InstallationComplete(r) => match r {
            Ok(_) => InstallView {
                is_installing: false,
                is_complete: true,
                terminal_output: s.terminal_output + "Installation complete!\n"@,
                ..s
            },
            Err(e) => InstallView {
                is_installing: false,
                has_error: true,
                terminal_output: s.terminal_output + "Installation failed: "@ + e@ + "\n"@,
                ..s
            },
        },
        Message::Close => s,
    }
}

pub open spec fn install_action_ok(s: InstallView, m: Message, a: Action) -> bool {
    match m {
        Message::StartDownload => a matches Action::Download(u, b) && u@ == s.download_url && b@
            == s.build_title,
        Message::DownloadComplete(r) => if r is Ok {
            a matches Action::Send(Message::StartExtraction)
        } else {
            a is Idle
        },
        Message::StartExtraction => a matches Action::Extract(b) && b@ == s.build_title,
        Message::ExtractionComplete(r) => if r is Ok {
            a matches Action::Send(Message::StartInstallation)
        } else {
            a is Idle
        },
        Message::StartInstallation => a matches Action::Install(b, l) && b@ == s.build_title
            && opt_text(l) == s.selected_launcher,
        Message::Close => a is CloseWindow,
        _ => a is Idle,
    }
}

fn clone_text(o: &Option<String>) -> (r: Option<String>)
    ensures
        opt_text(r) == opt_text(*o),
{
    match o {
        Some(s) => Some(str_owned(s.as_str())),
        None => None,
    }
}

impl ProtonInstallDialog {
    /// A dialog that installs one build; it starts with the download.
    pub fn new(runner_title: String, build_title: String, download_url: String, selected_launcher: Option<String>, runner_info: Option<String>) -> (r: Self)
        ensures
            r@ == (InstallView {
                runner_title: runner_title@,
                build_title: build_title@,
                download_url: download_url@,
                selected_launcher: opt_text(selected_launcher),
                runner_info: opt_text(runner_info),
                is_downloading: false,
                is_extracting: false,
                is_installing: false,
                is_complete: false,
                has_error: false,
                terminal_output: Seq::empty(),
            }),
    {
        ProtonInstallDialog {
            runner_title,
            build_title,
            download_url,
            selected_launcher,
            runner_info,
            is_downloading: false,
            is_extracting: false,
            is_installing: false,
            is_complete: false,
            has_error: false,
            terminal_output: String::new(),
        }
    }

    pub fn title(&self) -> (r: String)
        ensures
            r@ == "Installing "@ + self@.runner_title + " "@ + self@.build_title + " - Rustora"@,
    {
        let mut t = cat4("Installing ", self.runner_title.as_str(), " ", self.build_title.as_str());
        string_append(&mut t, " - Rustora");
        t
    }

    /// Takes in a message and says what to do next.
    pub fn update(&mut self, message: Message) -> (a: Action)
        ensures
            final(self)@ == install_next(old(self)@, message),
            install_action_ok(old(self)@, message, a),
    {
        match message {
            Message::StartDownload => {
                self.is_downloading = true;
                let mut t = cat4(
                    "Starting download of ",
                    self.runner_title.as_str(),
                    " ",
                    self.build_title.as_str(),
                );
                string_append(&mut t, "...\n");
                string_append(&mut t, "=====================================\n\n");
                self.terminal_output = t;
                Action::Download(
                    str_owned(self.download_url.as_str()),
                    str_owned(self.build_title.as_str()),
                )
            },
            Message::DownloadComplete(result) => {
                self.is_downloading = false;
                let ghost before = self.terminal_output@;
                match result {
                    Ok(p) => {
                        string_append(&mut self.terminal_output, "Download complete: ");
                        string_append(&mut self.terminal_output, p.as_str());
                        string_append(&mut self.terminal_output, "\n\n");
                        assert(self.terminal_output@ =~= before + "Download complete: "@ + p@
                            + "\n\n"@);
                        Action::Send(Message::StartExtraction)
                    },
                    Err(e) => {
                        self.has_error = true;
                        string_append(&mut self.terminal_output, "Download failed: ");
                        string_append(&mut self.terminal_output, e.as_str());
                        string_append(&mut self.terminal_output, "\n");
                        assert(self.terminal_output@ =~= before + "Download failed: "@ + e@
                            + "\n"@);
                        Action::Idle
                    },
                }
            },
            Message::StartExtraction => {
                self.is_extracting = true;
                string_append(&mut self.terminal_output, "Starting extraction...\n");
                Action::Extract(str_owned(self.build_title.as_str()))
            },
            Message::ExtractionComplete(result) => {
                self.is_extracting = false;
                let ghost before = self.terminal_output@;
                match result {
                    Ok(d) => {
                        string_append(&mut self.terminal_output, "Extraction complete: ");
                        string_append(&mut self.terminal_output, d.as_str());
                        string_append(&mut self.terminal_output, "\n\n");
                        assert(self.terminal_output@ =~= before + "Extraction complete: "@ + d@
                            + "\n\n"@);
                        Action::Send(Message::StartInstallation)
                    },
                    Err(e) => {
                        self.has_error = true;
                        string_append(&mut self.terminal_output, "Extraction failed: ");
                        string_append(&mut self.terminal_output, e.as_str());
                        string_append(&mut self.terminal_output, "\n");
                        assert(self.terminal_output@ =~= before + "Extraction failed: "@ + e@
                            + "\n"@);
                        Action::Idle
                    },
                }
            },
            Message::StartInstallation => {
                self.is_installing = true;
                string_append(&mut self.terminal_output, "Starting installation...\n");
                Action::Install(
                    str_owned(self.build_title.as_str()),
                    clone_text(&self.selected_launcher),
                )
            },
            Message::InstallationComplete(result) => {
                self.is_installing = false;
                let ghost before = self.terminal_output@;
                match result {
                    Ok(_) => {
                        self.is_complete = true;
                        string_append(&mut self.terminal_output, "Installation complete!\n");
                    },
                    Err(e) => {
                        self.has_error = true;
                        string_append(&mut self.terminal_output, "Installation failed: ");
                        string_append(&mut self.terminal_output, e.as_str());
                        string_append(&mut self.terminal_output, "\n");
                        assert(self.terminal_output@ =~= before + "Installation failed: "@ + e@
                            + "\n"@);
                    },
                }
                Action::Idle
            },
            Message::Close => Action::CloseWindow,
        }
    }

    pub fn is_downloading(&self) -> (r: bool)
        ensures
            r == self@.is_downloading,
    {
        self.is_downloading
    }

    pub fn is_extracting(&self) -> (r: bool)
        ensures
            r == self@.is_extracting,
    {
        self.is_extracting
    }

    pub fn is_installing(&self) -> (r: bool)
        ensures
            r == self@.is_installing,
    {
        self.is_installing
    }

    pub fn is_complete(&self) -> (r: bool)
        ensures
            r == self@.is_complete,
    {
        self.is_complete
    }

    pub fn has_error(&self) -> (r: bool)
        ensures
            r == self@.has_error,
    {
        self.has_error
    }

    pub fn terminal_output(&self) -> (r: &str)
        ensures
            r@ == self@.terminal_output,
    {
        self.terminal_output.as_str()
    }
}

/// The stages come in order: only a download that went well leads to the
/// extraction, and only an extraction that went well leads to the install.
pub proof fn stages_in_order(s: InstallView, m: Message, a: Action)
    requires
        install_action_ok(s, m, a),
    ensures
        a matches Action::Send(Message::StartExtraction) ==> m matches Message::DownloadComplete(Ok(_)),
        a matches Action::Send(Message::StartInstallation) ==> m matches Message::ExtractionComplete(
            Ok(_),
        ),
{
}

/// After the first message, the terminal only grows: every later stage adds
/// its lines after what was there.
pub proof fn terminal_only_grows(s: InstallView, m: Message)
    requires
        !(m is StartDownload),
    ensures
        s.terminal_output.is_prefix_of(install_next(s, m).terminal_output),
{
    let t = install_next(s, m).terminal_output;
    assert(t.subrange(0, s.terminal_output.len() as int) =~= s.terminal_output);
}

/// A file that starts with the gzip magic bytes is read as gzip: no 7z or
/// zip file starts that way.
pub proof fn gzip_is_recognised(b: Seq<u8>)
    requires
        b.len() == 6,
        b[0] == 0x1f,
        b[1] == 0x8b,
    ensures
        archive_format(b) == ArchiveFormat::Gzip,
{
}

} // verus!
