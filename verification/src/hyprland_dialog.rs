//! Installing Hyprland and what it needs: the eleven steps, what each checks
//! first, the command it runs, how that command's outcome is read, what it
//! prints, and the dialog.
use vstd::prelude::*;
use crate::stepper::{
    Action, Installer, Message, StepRun, StepView, final_marker, step_action_ok, step_finished,
    step_next, total_steps,
};
use crate::text::{
    cat2, cat3, contains, debug_code, debug_code_text, join, join_strings, lowercase,
    lowercase_contains, str_contains, str_owned, string_append, string_views, to_lowercase,
};
use crate::transcript::{auth_refused, auth_refused_code, AUTH_ERROR};

verus! {

pub const RULE: &'static str = "-------------------------------------------------------------\n";

pub const COPR_REPO: &'static str = "lions/hyprland";

pub const MISSION_CENTER_SCRIPT: &'static str = "\n        cd /tmp\n        if [ -d mission-center ]; then\n            rm -rf mission-center\n        fi\n        git clone https://gitlab.com/mission-center-devs/mission-center.git mission-center\n        cd mission-center\n        \n        if [ -f meson.build ]; then\n            meson setup build --prefix=/usr\n            meson compile -C build\n            meson install -C build\n        elif [ -f CMakeLists.txt ]; then\n            mkdir -p build\n            cd build\n            cmake .. -DCMAKE_INSTALL_PREFIX=/usr\n            make\n            make install\n        elif [ -f Makefile ]; then\n            make\n            make install\n        else\n            echo \"Unknown build system\"\n            exit 1\n        fi\n        \n        cd /tmp\n        rm -rf mission-center\n    ";

pub const DGOP_SCRIPT: &'static str = "\n        cd /tmp\n        if [ -d dgop ]; then\n            rm -rf dgop\n        fi\n        git clone https://github.com/AvengeMedia/dgop.git\n        cd dgop\n        make\n        make install\n        cd ..\n        rm -rf dgop\n    ";

/// The shell script that says whether matugen is already on the path.
pub const MATUGEN_CHECK_SCRIPT: &'static str = "\n        if command -v matugen &> /dev/null; then\n            echo \"matugen is already installed\"\n            exit 0\n        fi\n    ";

/// The packages of the package steps (4 to 8).
pub open spec fn group_packages(step: nat) -> Seq<Seq<char>> {
    if step == 3 {
        seq!["rust"@, "cargo"@, "gcc"@, "gcc-c++"@, "pkg-config"@, "openssl-devel"@, "libX11-devel"@, "libXcursor-devel"@, "libXrandr-devel"@, "libXi-devel"@, "mesa-libGL-devel"@, "fontconfig-devel"@, "freetype-devel"@, "expat-devel"@, "dnf"@, "rpm"@, "polkit"@, "zenity"@, "curl"@, "unzip"@, "fontconfig"@, "cairo-gobject"@, "cairo-gobject-devel"@, "rust-gdk4-sys+default-devel"@, "gtk4-layer-shell-devel"@, "qt5-qtgraphicaleffects"@, "qt6-qt5compat"@, "python3-pyqt6"@, "python3.11"@, "python3.11-libs"@, "libxcrypt-compat"@, "libcurl"@, "libcurl-devel"@, "apr"@, "fuse-libs"@, "golang"@, "git"@, "make"@, "meson"@, "ninja-build"@, "gtk4-devel"@, "libadwaita-devel"@]
    }
    else if step == 4 {
        seq!["hyprland"@, "hyprpicker"@, "awww"@, "xdg-desktop-portal-hyprland"@, "xdg-desktop-portal-wlr"@, "xdg-desktop-portal-gnome"@, "gnome-keyring"@]
    }
    else if step == 5 {
        seq!["brightnessctl"@, "cliphist"@, "fuzzel"@, "gnome-text-editor"@, "grim"@, "nautilus"@, "pavucontrol"@, "ptyxis"@, "slurp"@, "swappy"@, "tesseract"@, "wl-clipboard"@, "wlogout"@, "yad"@, "btop"@, "lm_sensors"@, "fuse"@, "fuse-libs"@, "gedit"@]
    }
    else if step == 6 {
        seq!["firefox"@, "obs-studio"@, "steam"@, "lutris"@, "mangohud"@, "gamescope"@]
    }
    else if step == 7 {
        seq!["qt6ct"@, "nwg-look"@, "quickshell-git"@]
    } else {
        Seq::empty()
    }
}

/// What a package step calls its packages when all are there.
pub open spec fn group_noun(step: nat) -> Seq<char> {
    if step == 3 {
        "development tools"@
    }
    else if step == 4 {
        "desktop components"@
    }
    else if step == 5 {
        "system utilities"@
    }
    else if step == 6 {
        "applications"@
    }
    else if step == 7 {
        "GUI tools"@
    } else {
        ""@
    }
}

/// What a package step's install is called in its errors.
pub open spec fn group_install_name(step: nat) -> Seq<char> {
    if step == 3 {
        "development tools"@
    }
    else if step == 4 {
        "desktop environment components"@
    }
    else if step == 5 {
        "system utilities"@
    }
    else if step == 6 {
        "applications"@
    }
    else if step == 7 {
        "GUI tools"@
    } else {
        ""@
    }
}

pub open spec fn is_package_step(step: nat) -> bool {
    3 <= step <= 7
}

fn owned_all(items: Vec<&str>) -> (r: Vec<String>)
    ensures
        string_views(r@) == items@.map_values(|s: &str| s@),
{
    let mut r: Vec<String> = Vec::new();
    let mut i: usize = 0;
    while i < items.len()
        invariant
            i <= items.len(),
            string_views(r@) == items@.map_values(|s: &str| s@).take(i as int),
        decreases items.len() - i,
    {
        let c = str_owned(items[i]);
        let ghost prev = string_views(r@);
        r.push(c);
        assert(string_views(r@) == prev.push(c@));
        assert(items@.map_values(|s: &str| s@).take(i + 1) == items@.map_values(|s: &str| s@).take(
            i as int,
        ).push(items@[i as int]@));
        i += 1;
    }
    assert(items@.map_values(|s: &str| s@).take(items.len() as int) == items@.map_values(
        |s: &str| s@,
    ));
    r
}

/// The packages of package step `step`.
pub fn group_packages_vec(step: usize) -> (r: Vec<String>)
    ensures
        string_views(r@) == group_packages(step as nat),
{
    if step == 3 {
        let r = owned_all(vec!["rust", "cargo", "gcc", "gcc-c++", "pkg-config", "openssl-devel", "libX11-devel", "libXcursor-devel", "libXrandr-devel", "libXi-devel", "mesa-libGL-devel", "fontconfig-devel", "freetype-devel", "expat-devel", "dnf", "rpm", "polkit", "zenity", "curl", "unzip", "fontconfig", "cairo-gobject", "cairo-gobject-devel", "rust-gdk4-sys+default-devel", "gtk4-layer-shell-devel", "qt5-qtgraphicaleffects", "qt6-qt5compat", "python3-pyqt6", "python3.11", "python3.11-libs", "libxcrypt-compat", "libcurl", "libcurl-devel", "apr", "fuse-libs", "golang", "git", "make", "meson", "ninja-build", "gtk4-devel", "libadwaita-devel"]);
        assert(string_views(r@) =~= group_packages(step as nat));
        r
    }
    else if step == 4 {
        let r = owned_all(vec!["hyprland", "hyprpicker", "awww", "xdg-desktop-portal-hyprland", "xdg-desktop-portal-wlr", "xdg-desktop-portal-gnome", "gnome-keyring"]);
        assert(string_views(r@) =~= group_packages(step as nat));
        r
    }
    else if step == 5 {
        let r = owned_all(vec!["brightnessctl", "cliphist", "fuzzel", "gnome-text-editor", "grim", "nautilus", "pavucontrol", "ptyxis", "slurp", "swappy", "tesseract", "wl-clipboard", "wlogout", "yad", "btop", "lm_sensors", "fuse", "fuse-libs", "gedit"]);
        assert(string_views(r@) =~= group_packages(step as nat));
        r
    }
    else if step == 6 {
        let r = owned_all(vec!["firefox", "obs-studio", "steam", "lutris", "mangohud", "gamescope"]);
        assert(string_views(r@) =~= group_packages(step as nat));
        r
    }
    else if step == 7 {
        let r = owned_all(vec!["qt6ct", "nwg-look", "quickshell-git"]);
        assert(string_views(r@) =~= group_packages(step as nat));
        r
    } else {
        Vec::new()
    }
}

fn group_noun_str(step: usize) -> (r: &'static str)
    ensures
        r@ == group_noun(step as nat),
{
    if step == 3 {
        "development tools"
    }
    else if step == 4 {
        "desktop components"
    }
    else if step == 5 {
        "system utilities"
    }
    else if step == 6 {
        "applications"
    }
    else if step == 7 {
        "GUI tools"
    } else {
        ""
    }
}

fn group_install_name_str(step: usize) -> (r: &'static str)
    ensures
        r@ == group_install_name(step as nat),
{
    if step == 3 {
        "development tools"
    }
    else if step == 4 {
        "desktop environment components"
    }
    else if step == 5 {
        "system utilities"
    }
    else if step == 6 {
        "applications"
    }
    else if step == 7 {
        "GUI tools"
    } else {
        ""
    }
}

/// The packages of `pkgs` that are not installed, in order; a package with
/// no answer counts as not installed.
pub open spec fn not_installed(pkgs: Seq<Seq<char>>, installed: Seq<bool>) -> Seq<Seq<char>>
    decreases pkgs.len(),
{
    if pkgs.len() == 0 {
        Seq::empty()
    } else {
        let rest = not_installed(pkgs.drop_last(), installed);
        let i = pkgs.len() - 1;
        if i < installed.len() && installed[i] {
            rest
        } else {
            rest.push(pkgs.last())
        }
    }
}

/// The packages of `pkgs` to install, from whether `rpm -q` found each.
pub fn packages_to_install(pkgs: &Vec<String>, installed: &Vec<bool>) -> (r: Vec<String>)
    ensures
        string_views(r@) == not_installed(string_views(pkgs@), installed@),
{
    let ghost ps = string_views(pkgs@);
    let mut r: Vec<String> = Vec::new();
    let mut i: usize = 0;
    assert(ps.take(0) =~= Seq::<Seq<char>>::empty());
    while i < pkgs.len()
        invariant
            i <= pkgs.len(),
            ps == string_views(pkgs@),
            string_views(r@) == not_installed(ps.take(i as int), installed@),
        decreases pkgs.len() - i,
    {
        assert(ps.take(i + 1).drop_last() =~= ps.take(i as int));
        assert(ps.take(i + 1).last() == pkgs@[i as int]@);
        let present = i < installed.len() && installed[i];
        if !present {
            let c = str_owned(pkgs[i].as_str());
            let ghost prev = string_views(r@);
            r.push(c);
            assert(string_views(r@) == prev.push(c@));
        }
        i += 1;
    }
    assert(ps.take(pkgs.len() as int) =~= ps);
    r
}

/// Whether `dnf copr list` output names the repository: its name, or its
/// address on copr.fedorainfracloud.org, compared in lowercase.
pub open spec fn copr_listed(success: bool, stdout: Seq<char>, repo: Seq<char>) -> bool {
    let out = lowercase(stdout);
    let r = lowercase(repo);
    success && (contains(out, r) || contains(out, "copr.fedorainfracloud.org/"@ + r))
}

pub fn copr_repo_listed(success: bool, stdout: &str, repo: &str) -> (r: bool)
    ensures
        r == copr_listed(success, stdout@, repo@),
{
    if !success {
        return false;
    }
    let out = to_lowercase(stdout);
    let low = to_lowercase(repo);
    let full = cat2("copr.fedorainfracloud.org/", low.as_str());
    str_contains(out.as_str(), low.as_str()) || str_contains(out.as_str(), full.as_str())
}

/// Whether the check script found matugen.
pub open spec fn matugen_found(success: bool, stdout: Seq<char>) -> bool {
    success && contains(stdout, "already installed"@)
}

pub fn matugen_present(success: bool, stdout: &str) -> (r: bool)
    ensures
        r == matugen_found(success, stdout@),
{
    success && str_contains(stdout, "already installed")
}

/// What the steps found out before running their command.
pub struct StepFacts {
    /// Step 2: the COPR repository is already enabled.
    pub copr_enabled: bool,
    /// Steps 4 to 8: for each of the step's packages, whether it is installed.
    pub installed: Vec<bool>,
    /// Step 11: matugen is already installed.
    pub matugen_present: bool,
}

/// The commands that the steps run.
pub enum HyprCommand {
    /// `pkexec` with these arguments; its errors call it by the name.
    Pkexec(Vec<String>, String),
    /// `cargo install matugen`, its output read line by line.
    CargoInstallMatugen,
}

/// The first lines of a step's output.
pub open spec fn step_header(step: nat, f: StepFacts, pkgs: Seq<Seq<char>>) -> Seq<char> {
    if step == 0 {
        "$ pkexec dnf update -y\n"@ + RULE@
    } else if step == 1 {
        if f.copr_enabled {
            "$ Repository "@ + COPR_REPO@ + " is already enabled\n"@ + RULE@
                + "[INFO] Skipping - repository already enabled\n"@
        } else {
            "$ pkexec dnf copr enable -y "@ + COPR_REPO@ + "\n"@ + RULE@
        }
    } else if step == 2 {
        "$ pkexec dnf makecache\n"@ + RULE@
    } else if is_package_step(step) {
        let todo = not_installed(pkgs, f.installed@);
        if todo.len() == 0 {
            "$ All "@ + group_noun(step) + " are already installed\n"@ + "(Checking for updates...)\n"@
                + RULE@
        } else {
            "$ pkexec dnf install -y "@ + join(todo, " "@) + "\n"@
                + "(Note: Already installed packages will be checked for updates, not reinstalled)\n"@
                + RULE@
        }
    } else if step == 8 {
        "$ Building and installing Mission Center from source\n"@ + RULE@
    } else if step == 9 {
        "$ Building and installing dgop from source\n"@ + RULE@
    } else {
        "$ Installing matugen via cargo\n"@ + RULE@ + if f.matugen_present {
            "[INFO] matugen is already installed!\n"@
        } else {
            Seq::empty()
        }
    }
}

/// The command that a step runs, if any.
pub open spec fn step_command_ok(step: nat, f: StepFacts, pkgs: Seq<Seq<char>>, c: Option<HyprCommand>) -> bool {
    let pk = |args: Seq<Seq<char>>, name: Seq<char>|
        c matches Some(HyprCommand::Pkexec(a, n)) && string_views(a@) == args && n@ == name;
    if step == 0 {
        pk(seq!["dnf"@, "update"@, "-y"@], "system update"@)
    } else if step == 1 {
        if f.copr_enabled {
            c is None
        } else {
            pk(
                seq!["dnf"@, "copr"@, "enable"@, "-y"@, COPR_REPO@],
                "COPR repository lions/hyprland"@,
            )
        }
    } else if step == 2 {
        pk(seq!["dnf"@, "makecache"@], "package cache update"@)
    } else if is_package_step(step) {
        let todo = not_installed(pkgs, f.installed@);
        if todo.len() == 0 {
            pk(seq!["dnf"@, "upgrade"@, "-y"@] + pkgs, group_noun(step) + " updates"@)
        } else {
            pk(seq!["dnf"@, "install"@, "-y"@] + todo, group_install_name(step))
        }
    } else if step == 8 {
        pk(seq!["sh"@, "-c"@, MISSION_CENTER_SCRIPT@], "Mission Center build and install"@)
    } else if step == 9 {
        pk(seq!["sh"@, "-c"@, DGOP_SCRIPT@], "dgop build and install"@)
    } else if step == 10 {
        if f.matugen_present {
            c is None
        } else {
            c matches Some(HyprCommand::CargoInstallMatugen)
        }
    } else {
        c is None
    }
}

/// What a step plans: its first lines and its command.
pub struct StepPlan {
    pub header: String,
    pub command: Option<HyprCommand>,
}

fn push_all(r: &mut Vec<String>, items: &Vec<String>)
    ensures
        string_views(final(r)@) == string_views(old(r)@) + string_views(items@),
{
    let ghost start = string_views(r@);
    let mut i: usize = 0;
    while i < items.len()
        invariant
            i <= items.len(),
            string_views(r@) == start + string_views(items@).take(i as int),
        decreases items.len() - i,
    {
        let c = str_owned(items[i].as_str());
        let ghost prev = string_views(r@);
        r.push(c);
        assert(string_views(r@) == prev.push(c@));
        assert(string_views(items@).take(i + 1) == string_views(items@).take(i as int).push(
            items@[i as int]@,
        ));
        i += 1;
    }
    assert(string_views(items@).take(items.len() as int) == string_views(items@));
}

/// Plans step `step` from what was found out. For a package step, `pkgs` are
/// the step's packages and `facts.installed` says which are installed.
pub fn step_plan(step: usize, facts: &StepFacts, pkgs: &Vec<String>) -> (r: StepPlan)
    ensures
        r.header@ == step_header(step as nat, *facts, string_views(pkgs@)),
        step_command_ok(step as nat, *facts, string_views(pkgs@), r.command),
{
    if step == 0 {
        let a = owned_all(vec!["dnf", "update", "-y"]);
        assert(string_views(a@) =~= seq!["dnf"@, "update"@, "-y"@]);
        StepPlan {
            header: cat2("$ pkexec dnf update -y\n", RULE),
            command: Some(HyprCommand::Pkexec(a, str_owned("system update"))),
        }
    } else if step == 1 {
        if facts.copr_enabled {
            let mut h = cat3("$ Repository ", COPR_REPO, " is already enabled\n");
            string_append(&mut h, RULE);
            string_append(&mut h, "[INFO] Skipping - repository already enabled\n");
            StepPlan { header: h, command: None }
        } else {
            let mut h = cat3("$ pkexec dnf copr enable -y ", COPR_REPO, "\n");
            string_append(&mut h, RULE);
            let a = owned_all(vec!["dnf", "copr", "enable", "-y", COPR_REPO]);
            assert(string_views(a@) =~= seq!["dnf"@, "copr"@, "enable"@, "-y"@, COPR_REPO@]);
            StepPlan {
                header: h,
                command: Some(HyprCommand::Pkexec(a, str_owned("COPR repository lions/hyprland"))),
            }
        }
    } else if step == 2 {
        let a = owned_all(vec!["dnf", "makecache"]);
        assert(string_views(a@) =~= seq!["dnf"@, "makecache"@]);
        StepPlan {
            header: cat2("$ pkexec dnf makecache\n", RULE),
            command: Some(HyprCommand::Pkexec(a, str_owned("package cache update"))),
        }
    } else if 3 <= step && step <= 7 {
        let todo = packages_to_install(pkgs, &facts.installed);
        if todo.len() == 0 {
            let mut h = cat3("$ All ", group_noun_str(step), " are already installed\n");
            string_append(&mut h, "(Checking for updates...)\n");
            string_append(&mut h, RULE);
            let mut a = owned_all(vec!["dnf", "upgrade", "-y"]);
            assert(string_views(a@) =~= seq!["dnf"@, "upgrade"@, "-y"@]);
            push_all(&mut a, pkgs);
            StepPlan {
                header: h,
                command: Some(HyprCommand::Pkexec(a, cat2(group_noun_str(step), " updates"))),
            }
        } else {
            let j = join_strings(&todo, " ");
            let mut h = cat3("$ pkexec dnf install -y ", j.as_str(), "\n");
            string_append(
                &mut h,
                "(Note: Already installed packages will be checked for updates, not reinstalled)\n",
            );
            string_append(&mut h, RULE);
            let mut a = owned_all(vec!["dnf", "install", "-y"]);
            assert(string_views(a@) =~= seq!["dnf"@, "install"@, "-y"@]);
            push_all(&mut a, &todo);
            StepPlan {
                header: h,
                command: Some(HyprCommand::Pkexec(a, str_owned(group_install_name_str(step)))),
            }
        }
    } else if step == 8 {
        let a = owned_all(vec!["sh", "-c", MISSION_CENTER_SCRIPT]);
        assert(string_views(a@) =~= seq!["sh"@, "-c"@, MISSION_CENTER_SCRIPT@]);
        StepPlan {
            header: cat2("$ Building and installing Mission Center from source\n", RULE),
            command: Some(HyprCommand::Pkexec(a, str_owned("Mission Center build and install"))),
        }
    } else if step == 9 {
        let a = owned_all(vec!["sh", "-c", DGOP_SCRIPT]);
        assert(string_views(a@) =~= seq!["sh"@, "-c"@, DGOP_SCRIPT@]);
        StepPlan {
            header: cat2("$ Building and installing dgop from source\n", RULE),
            command: Some(HyprCommand::Pkexec(a, str_owned("dgop build and install"))),
        }
    } else {
        let mut h = cat2("$ Installing matugen via cargo\n", RULE);
        if facts.matugen_present {
            string_append(&mut h, "[INFO] matugen is already installed!\n");
        }
        let command = if step == 10 && !facts.matugen_present {
            Some(HyprCommand::CargoInstallMatugen)
        } else {
            None
        };
        StepPlan { header: h, command }
    }
}

pub const REPO_NOTE: &'static str = "\n[INFO] Note: Repository was already enabled. Continuing...\n";

/// The outcome of a `pkexec` command: a refused authorisation; a failure
/// whose output says something is already installed counts as success.
pub open spec fn command_outcome(code: Option<i32>, success: bool, output: Seq<char>) -> Result<Seq<char>, Seq<char>> {
    if auth_refused(code) {
        Err(AUTH_ERROR@)
    } else if !success {
        let low = lowercase(output);
        if contains(low, "already installed"@) || contains(low, "is already installed"@) {
            Ok(output + REPO_NOTE@)
        } else {
            Err("Command failed with exit code: "@ + debug_code(code) + "\n\nOutput:\n"@ + output)
        }
    } else {
        Ok(output)
    }
}

pub open spec fn same_outcome(r: Result<String, String>, s: Result<Seq<char>, Seq<char>>) -> bool {
    match (r, s) {
        (Ok(a), Ok(b)) => a@ == b,
        (Err(a), Err(b)) => a@ == b,
        _ => false,
    }
}

pub fn command_outcome_text(code: Option<i32>, success: bool, output: String) -> (r: Result<String, String>)
    ensures
        same_outcome(r, command_outcome(code, success, output@)),
{
    if auth_refused_code(code) {
        return Err(str_owned(AUTH_ERROR));
    }
    if !success {
        if lowercase_contains(output.as_str(), "already installed") || lowercase_contains(
            output.as_str(),
            "is already installed",
        ) {
            let mut o = output;
            string_append(&mut o, REPO_NOTE);
            return Ok(o);
        }
        let d = debug_code_text(code);
        let mut m = cat3("Command failed with exit code: ", d.as_str(), "\n\nOutput:\n");
        string_append(&mut m, output.as_str());
        return Err(m);
    }
    Ok(output)
}

/// The outcome of `cargo install matugen`; a failure shows the step's
/// header with the output.
pub open spec fn matugen_outcome(code: Option<i32>, success: bool, header: Seq<char>, output: Seq<char>) -> Result<Seq<char>, Seq<char>> {
    if success {
        Ok(output)
    } else {
        Err("matugen installation failed with exit code: "@ + debug_code(code) + "\n\nOutput:\n"@
            + header + output)
    }
}

pub fn matugen_outcome_text(code: Option<i32>, success: bool, header: &str, output: String) -> (r: Result<String, String>)
    ensures
        same_outcome(r, matugen_outcome(code, success, header@, output@)),
{
    if success {
        Ok(output)
    } else {
        let d = debug_code_text(code);
        let mut m = cat3("matugen installation failed with exit code: ", d.as_str(), "\n\nOutput:\n");
        string_append(&mut m, header);
        string_append(&mut m, output.as_str());
        Err(m)
    }
}

/// The error of `cargo install matugen` that could not be started.
pub fn matugen_spawn_error(error: &str) -> (r: String)
    ensures
        r@ == "Failed to install matugen: "@ + error@,
{
    cat2("Failed to install matugen: ", error)
}

/// What a step prints after its command's output when the step went well.
pub open spec fn step_tail(step: nat, ran: bool) -> Seq<char> {
    if step == 8 {
        "\n[INFO] Mission Center installed successfully!\n"@
    } else if step == 9 {
        "\n[INFO] dgop installed successfully!\n"@
            + "[INFO] Note: For NVIDIA GPU temperature monitoring, install nvidia-utils (optional)\n"@
    } else if step == 10 && ran {
        "\n[INFO] matugen installed successfully!\n"@
    } else {
        Seq::empty()
    }
}

/// The line that closes a step's output.
pub open spec fn step_done_line(step: nat) -> Seq<char> {
    if step == 0 {
        "\n[OK] Step 1 completed: System updated\n"@
    }
    else if step == 1 {
        "\n[OK] Step 2 completed: COPR repositories enabled\n"@
    }
    else if step == 2 {
        "\n[OK] Step 3 completed: Package cache updated\n"@
    }
    else if step == 3 {
        "\n[OK] Step 4 completed: Development tools installed\n"@
    }
    else if step == 4 {
        "\n[OK] Step 5 completed: Desktop environment components installed\n"@
    }
    else if step == 5 {
        "\n[OK] Step 6 completed: System utilities installed\n"@
    }
    else if step == 6 {
        "\n[OK] Step 7 completed: Applications installed\n"@
    }
    else if step == 7 {
        "\n[OK] Step 8 completed: GUI tools installed\n"@
    }
    else if step == 8 {
        "\n[OK] Step 9 completed: Mission Center built and installed\n"@
    }
    else if step == 9 {
        "\n[OK] Step 10 completed: dgop built and installed\n"@
    }
    else if step == 10 {
        "\n[OK] Step 11 completed: matugen installed\n\n[OK] ALL STEPS COMPLETED SUCCESSFULLY!\n"@
    } else {
        ""@
    }
}

fn step_done_line_str(step: usize) -> (r: &'static str)
    ensures
        r@ == step_done_line(step as nat),
{
    if step == 0 {
        "\n[OK] Step 1 completed: System updated\n"
    }
    else if step == 1 {
        "\n[OK] Step 2 completed: COPR repositories enabled\n"
    }
    else if step == 2 {
        "\n[OK] Step 3 completed: Package cache updated\n"
    }
    else if step == 3 {
        "\n[OK] Step 4 completed: Development tools installed\n"
    }
    else if step == 4 {
        "\n[OK] Step 5 completed: Desktop environment components installed\n"
    }
    else if step == 5 {
        "\n[OK] Step 6 completed: System utilities installed\n"
    }
    else if step == 6 {
        "\n[OK] Step 7 completed: Applications installed\n"
    }
    else if step == 7 {
        "\n[OK] Step 8 completed: GUI tools installed\n"
    }
    else if step == 8 {
        "\n[OK] Step 9 completed: Mission Center built and installed\n"
    }
    else if step == 9 {
        "\n[OK] Step 10 completed: dgop built and installed\n"
    }
    else if step == 10 {
        "\n[OK] Step 11 completed: matugen installed\n\n[OK] ALL STEPS COMPLETED SUCCESSFULLY!\n"
    } else {
        ""
    }
}

/// What step 2 prints when enabling the repository failed: the step goes on.
pub open spec fn copr_warning(e: Seq<char>) -> Seq<char> {
    let low = lowercase(e);
    if contains(low, "chroot not found"@) || contains(low, "404"@) {
        "[WARN] Repository lions/hyprland not available for this Fedora version\n"@
            + "[INFO] This may mean the repository doesn't have a chroot for your Fedora release\n"@
            + "[INFO] Continuing anyway - quickshell-git may need to be installed manually if needed\n"@
    } else {
        "[WARN] Failed to enable "@ + COPR_REPO@ + ": "@ + e + "\n"@
            + "[INFO] Continuing anyway - packages may be available from other sources\n"@
    }
}

/// The result of step `step` from its header and its command's outcome
/// (`Ok` of nothing where it ran none): its output, the number the step
/// reports, and the steps finished.
pub open spec fn step_report_ok(step: nat, header: Seq<char>, ran: bool, cmd: Result<String, String>, r: Result<(String, usize, usize), String>) -> bool {
    if step >= 11 {
        r matches Err(e) && e@ == "Invalid step number"@
    } else {
        match cmd {
            Err(e) => if step == 1 {
                r matches Ok((o, n, d)) && n == 2 && d == 2 && o@ == header + copr_warning(e@)
                    + step_done_line(1)
            } else {
                r matches Err(f) && f@ == e@
            },
            Ok(out) => r matches Ok((o, n, d)) && n == step + 1 && d == step + 1 && o@ == header
                + out@ + step_tail(step, ran) + step_done_line(step),
        }
    }
}

/// Puts together the result of step `step`; `ran` tells whether it ran its
/// command.
pub fn step_report(step: usize, header: &str, ran: bool, cmd: Result<String, String>) -> (r: Result<(String, usize, usize), String>)
    ensures
        step_report_ok(step as nat, header@, ran, cmd, r),
{
    if step >= 11 {
        return Err(str_owned("Invalid step number"));
    }
    let mut t = str_owned(header);
    match cmd {
        Err(e) => {
            if step != 1 {
                return Err(e);
            }
            let low = to_lowercase(e.as_str());
            if str_contains(low.as_str(), "chroot not found") || str_contains(low.as_str(), "404") {
                string_append(&mut t, "[WARN] Repository lions/hyprland not available for this Fedora version\n");
                string_append(&mut t, "[INFO] This may mean the repository doesn't have a chroot for your Fedora release\n");
                string_append(&mut t, "[INFO] Continuing anyway - quickshell-git may need to be installed manually if needed\n");
            } else {
                string_append(&mut t, "[WARN] Failed to enable ");
                string_append(&mut t, COPR_REPO);
                string_append(&mut t, ": ");
                string_append(&mut t, e.as_str());
                string_append(&mut t, "\n");
                string_append(&mut t, "[INFO] Continuing anyway - packages may be available from other sources\n");
            }
            string_append(&mut t, step_done_line_str(step));
            assert(t@ =~= header@ + copr_warning(e@) + step_done_line(1));
            Ok((t, 2, 2))
        },
        Ok(out) => {
            string_append(&mut t, out.as_str());
            if step == 8 {
                string_append(&mut t, "\n[INFO] Mission Center installed successfully!\n");
            } else if step == 9 {
                string_append(&mut t, "\n[INFO] dgop installed successfully!\n");
                string_append(&mut t, "[INFO] Note: For NVIDIA GPU temperature monitoring, install nvidia-utils (optional)\n");
            } else if step == 10 && ran {
                string_append(&mut t, "\n[INFO] matugen installed successfully!\n");
            }
            string_append(&mut t, step_done_line_str(step));
            assert(t@ =~= header@ + out@ + step_tail(step as nat, ran) + step_done_line(step as nat));
            Ok((t, step + 1, step + 1))
        },
    }
}

/// The Hyprland installer's dialog.
pub struct HyprlandDialog {
    run: StepRun,
}

impl View for HyprlandDialog {
    type V = StepView;

    closed spec fn view(&self) -> StepView {
        self.run@
    }
}

impl HyprlandDialog {
    /// The dialog always runs the steps of its own installer.
    #[verifier::type_invariant]
    spec fn runs_own_steps(self) -> bool {
        self.run@.kind == Installer::Hyprland
    }
}

impl HyprlandDialog {
    pub fn new() -> (r: Self)
        ensures
            r@.kind == Installer::Hyprland,
            r@.is_running && !r@.is_complete && !r@.has_error,
            r@.progress_text == "Installing Hyprland & Dependencies..."@,
            r@.terminal_output.len() == 0 && r@.steps_done == 0 && r@.current_step_num == 0,
    {
        HyprlandDialog { run: StepRun::new(Installer::Hyprland) }
    }

    pub fn title(&self) -> (r: String)
        ensures
            r@ == "Hyprland Installation - Rustora"@,
    {
        str_owned("Hyprland Installation - Rustora")
    }

    /// Takes in a message and says what to do next.
    pub fn update(&mut self, message: Message) -> (a: Action)
        requires
            old(self)@.current_step_num < usize::MAX,
        ensures
            old(self)@.kind == Installer::Hyprland,
            final(self)@ == step_next(old(self)@, message),
            final(self)@.kind == Installer::Hyprland,
            step_action_ok(old(self)@, message, a),
    {
        proof {
            use_type_invariant(&*self);
        }
        let mut run = StepRun::new(Installer::Hyprland);
        std::mem::swap(&mut run, &mut self.run);
        let a = run.update(message);
        std::mem::swap(&mut run, &mut self.run);
        a
    }

    pub fn state(&self) -> (r: &StepRun)
        ensures
            r@ == self@,
            r@.kind == Installer::Hyprland,
    {
        proof {
            use_type_invariant(self);
        }
        &self.run
    }
}

/// A failure to enable the COPR repository never stops the install.
pub proof fn copr_failure_continues(header: Seq<char>, ran: bool, e: String, r: Result<(String, usize, usize), String>)
    requires
        step_report_ok(1, header, ran, Err(e), r),
    ensures
        r is Ok,
{
}

/// A package step installs exactly the packages that are missing, and only
/// when none is missing does it upgrade all of them instead.
pub proof fn package_step_installs_missing(step: nat, f: StepFacts, pkgs: Seq<Seq<char>>, c: Option<HyprCommand>)
    requires
        is_package_step(step),
        step_command_ok(step, f, pkgs, c),
    ensures
        c matches Some(HyprCommand::Pkexec(a, _)) && (if not_installed(pkgs, f.installed@).len() > 0 {
            string_views(a@) == seq!["dnf"@, "install"@, "-y"@] + not_installed(pkgs, f.installed@)
        } else {
            string_views(a@) == seq!["dnf"@, "upgrade"@, "-y"@] + pkgs
        }),
{
}

/// The last Hyprland step ends the install once it reports that it is over:
/// the dialog moves past the last step, stops running, counts as complete with
/// every step done, and asks for no further step; no step beyond the last one
/// is ever asked for.
pub proof fn hyprland_last_step_ends(s: StepView, out: String, done: usize, a: Action)
    requires
        s.kind == Installer::Hyprland,
        s.current_step_num == 10,
        step_finished(out@),
        !contains(out@, final_marker(Installer::Hyprland)),
        step_action_ok(s, Message::StepProgress(out, done), a),
    ensures
        step_next(s, Message::StepProgress(out, done)).current_step_num == 11,
        !step_next(s, Message::StepProgress(out, done)).is_running,
        step_next(s, Message::StepProgress(out, done)).is_complete,
        step_next(s, Message::StepProgress(out, done)).steps_done == total_steps(s.kind),
        total_steps(s.kind) == 11,
        a is Idle,
{
}

} // verus!
