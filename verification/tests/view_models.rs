use rustora::device_install_dialog::{
    DeviceInfo, DeviceInstallDialog, DeviceScreen, Message as DeviceMessage, PostInstallTool,
};
use rustora::dialog_view::{ActionButtons, DetailsScreen};
use rustora::flatpak_dialog::{self, FlatpakDialog};
use rustora::flatpak_remove_dialog::{self, FlatpakRemoveDialog};
use rustora::flatpak_update_dialog::{self, FlatpakUpdateDialog, FlatpakUpdateInfo};
use rustora::package_dialog::{self, PackageDialog};
use rustora::proton_changelog_dialog::{self, ChangelogScreen, ProtonChangelogDialog};
use rustora::rpm_dialog::{RpmDialog, RpmInfo};
use rustora::settings::TabVisibility;
use rustora::hyprland_dialog::HyprlandDialog;
use rustora::install_dialog::{InstallButtons, InstallDialog, InstallScreen, Message, PackageInfo};
use rustora::stepper::{Installer, Message as StepMessage};

fn info(name: &str) -> PackageInfo {
    PackageInfo {
        name: name.to_string(),
        version: String::new(),
        release: String::new(),
        arch: String::new(),
        summary: String::new(),
        description: String::new(),
        size: String::new(),
    }
}

fn nvidia() -> DeviceInfo {
    DeviceInfo {
        vendor_name: "NVIDIA".to_string(),
        device_name: "GPU".to_string(),
        driver: "nvidia".to_string(),
        driver_version: "1".to_string(),
        bus_id: "0".to_string(),
        vendor_id: "10de".to_string(),
        device_id: "1".to_string(),
        repositories: Vec::new(),
    }
}

#[test]
fn install_screen_follows_the_state() {
    let mut d = InstallDialog::new(vec!["htop".to_string()]);
    d.update(Message::LoadPackageInfo);
    assert_eq!(d.screen(), InstallScreen::Loading);
    d.update(Message::PackageInfoLoaded(Vec::new()));
    assert_eq!(d.screen(), InstallScreen::LoadFailed);
    d.update(Message::PackageInfoLoaded(vec![info("htop")]));
    assert_eq!(d.screen(), InstallScreen::Details);
    assert_eq!(d.header(), "Install htop");
    assert_eq!(d.buttons(), InstallButtons::CancelOrInstall);
    assert_eq!(d.progress_line(), None);
    d.update(Message::InstallPackages);
    assert_eq!(d.buttons(), InstallButtons::CancelWhileInstalling);
    assert_eq!(d.progress_line(), Some("Preparing installation...".to_string()));
    d.update(Message::InstallationComplete);
    assert_eq!(d.buttons(), InstallButtons::Close);
    assert_eq!(d.progress_line(), Some("Installation completed successfully!".to_string()));
    d.update(Message::Cancel);
    assert_eq!(d.screen(), InstallScreen::Hidden);
}

#[test]
fn install_header_counts_packages() {
    let mut d = InstallDialog::new(vec!["a".to_string(), "b".to_string()]);
    d.update(Message::PackageInfoLoaded(vec![info("a"), info("b")]));
    assert_eq!(d.header(), "Install 2 Packages");
}

#[test]
fn device_view_joins_post_install_output() {
    let mut d = DeviceInstallDialog::new("nv".to_string(), "echo".to_string(), nvidia(), false);
    assert_eq!(d.heading(), "Installing Driver");
    assert_eq!(d.output_label(), "Installing Output:");
    assert_eq!(d.success_message(), None);
    d.update(DeviceMessage::InstallationProgress("out".to_string()));
    assert_eq!(d.heading(), "Post-Installation Steps");
    assert_eq!(d.output_label(), "Post-Installation Output:");
    assert_eq!(d.shown_output(), "out");
    d.update(DeviceMessage::PostInstallProgress("a".to_string()));
    assert_eq!(d.shown_output(), "out\n\n=== Post-Installation Steps ===\na");
    d.update(DeviceMessage::PostInstallComplete);
    assert_eq!(d.heading(), "Installation and Post-Installation Complete");
    assert_eq!(d.output_label(), "Installation Output:");
    assert_eq!(d.shown_output(), "out\n\n=== Post-Installation Steps ===\na");
    assert_eq!(
        d.success_message(),
        Some("All post-installation steps completed successfully!".to_string())
    );
}

#[test]
fn device_view_of_a_removal() {
    let mut r = DeviceInstallDialog::new("nv".to_string(), "echo".to_string(), nvidia(), true);
    assert_eq!(r.heading(), "Removing Driver");
    r.update(DeviceMessage::InstallationProgress("out".to_string()));
    assert_eq!(r.heading(), "Removal Complete");
    assert_eq!(r.output_label(), "Removal Output:");
    assert_eq!(r.shown_output(), "out");
    assert_eq!(r.success_message(), Some("Removal completed successfully.".to_string()));
    let mut f = DeviceInstallDialog::new("nv".to_string(), "echo".to_string(), nvidia(), true);
    f.update(DeviceMessage::InstallationError("x".to_string()));
    assert_eq!(f.heading(), "Removal Failed");
    assert_eq!(f.output_label(), "Error Output:");
    assert_eq!(f.shown_output(), "Error: x");
}

#[test]
fn post_install_tool_commands() {
    assert_eq!(PostInstallTool::Akmods.args(), vec!["akmods", "--force", "--rebuild"]);
    assert_eq!(PostInstallTool::Dracut.args(), vec!["dracut", "-f", "--regenerate-all"]);
    assert_eq!(PostInstallTool::Dracut.name(), "dracut");
    assert_eq!(PostInstallTool::Akmods.start_error("denied"), "Failed to start akmods: denied");
}

#[test]
fn hyprland_dialog_runs_hyprland_steps() {
    let mut d = HyprlandDialog::new();
    assert_eq!(d.state().kind(), Installer::Hyprland);
    d.update(StepMessage::StartInstallation);
    assert_eq!(d.state().kind(), Installer::Hyprland);
}

#[test]
fn device_close_button_only_when_idle() {
    let mut d = DeviceInstallDialog::new("nv".to_string(), "echo".to_string(), nvidia(), false);
    assert_eq!(d.screen(), DeviceScreen::Running);
    assert!(!d.offers_close());
    d.update(DeviceMessage::InstallationProgress("out".to_string()));
    assert_eq!(d.screen(), DeviceScreen::Running);
    assert!(!d.offers_close());
    d.update(DeviceMessage::PostInstallComplete);
    assert_eq!(d.screen(), DeviceScreen::Succeeded);
    assert!(d.offers_close());
    let mut f = DeviceInstallDialog::new("nv".to_string(), "echo".to_string(), nvidia(), false);
    f.update(DeviceMessage::InstallationError("x".to_string()));
    assert_eq!(f.screen(), DeviceScreen::Failed);
    assert!(f.offers_close());
}

#[test]
fn ensure_tabs_lists_only_the_names() {
    let mut t = TabVisibility::new();
    t.insert("Kernel", false);
    t.ensure_tabs(&vec!["Search".to_string(), "Kernel".to_string()]);
    let mut keys: Vec<String> = t.entries().into_iter().map(|(k, _)| k).collect();
    keys.sort();
    assert_eq!(keys, vec!["Kernel".to_string(), "Search".to_string()]);
    assert!(!t.is_tab_visible("Kernel"));
    assert!(t.is_tab_visible("Search"));
}

fn flatpak_info(name: &str, deps: usize) -> flatpak_dialog::FlatpakInfo {
    flatpak_dialog::FlatpakInfo {
        name: name.to_string(),
        application_id: "org.x.App".to_string(),
        version: String::new(),
        branch: String::new(),
        arch: String::new(),
        summary: String::new(),
        description: String::new(),
        size: String::new(),
        runtime: String::new(),
        dependencies: (0..deps).map(|i| format!("d{}", i)).collect(),
    }
}

#[test]
fn flatpak_view_follows_the_state() {
    let mut d = FlatpakDialog::new("org.x.App".to_string(), None);
    d.is_loading = true;
    assert_eq!(d.screen(), DetailsScreen::Loading);
    d.is_loading = false;
    assert_eq!(d.screen(), DetailsScreen::LoadFailed);
    assert_eq!(d.header(), None);
    d.flatpak_info = Some(flatpak_info("App", 2));
    assert_eq!(d.screen(), DetailsScreen::Details);
    assert_eq!(d.header(), Some("Install App".to_string()));
    assert_eq!(d.dependencies_heading(), Some("Dependencies (2)".to_string()));
    assert_eq!(d.buttons(), ActionButtons::CancelOrStart);
    assert_eq!(d.progress_line(), None);
    d.is_installing = true;
    d.installation_progress = "Downloading".to_string();
    assert_eq!(d.buttons(), ActionButtons::CancelWhileBusy);
    assert_eq!(d.progress_line(), Some("Downloading".to_string()));
    assert!(!d.shows_terminal());
    d.terminal_output = "log".to_string();
    assert!(d.shows_terminal());
    d.is_installing = false;
    d.is_complete = true;
    assert_eq!(d.buttons(), ActionButtons::Close);
    assert_eq!(d.progress_line(), Some("Installation completed successfully!".to_string()));
    d.flatpak_info = Some(flatpak_info("App", 0));
    assert_eq!(d.dependencies_heading(), None);
    d.show_dialog = false;
    assert_eq!(d.screen(), DetailsScreen::Hidden);
}

#[test]
fn rpm_view_shows_version_line() {
    let mut d = RpmDialog::new("/tmp/x.rpm".to_string());
    d.is_loading = false;
    d.rpm_info = Some(RpmInfo {
        name: "foo".to_string(),
        version: "1.2".to_string(),
        release: "3.fc40".to_string(),
        arch: "x86_64".to_string(),
        summary: String::new(),
        description: String::new(),
        dependencies: vec!["libc".to_string()],
        size: String::new(),
    });
    assert_eq!(d.screen(), DetailsScreen::Details);
    assert_eq!(d.header(), Some("Install foo".to_string()));
    assert_eq!(d.subtitle(), Some("1.2 3.fc40 (x86_64)".to_string()));
    assert_eq!(d.dependencies_heading(), Some("Dependencies (1)".to_string()));
}

fn pkg_info(name: &str) -> package_dialog::PackageInfo {
    package_dialog::PackageInfo {
        name: name.to_string(),
        version: String::new(),
        release: String::new(),
        arch: String::new(),
        summary: String::new(),
        description: String::new(),
        size: String::new(),
    }
}

#[test]
fn removal_headers() {
    let mut one = PackageDialog::new(vec!["htop".to_string()]);
    one.is_loading = false;
    one.package_info = Some(pkg_info("htop"));
    assert_eq!(one.header(), Some("Remove htop".to_string()));
    let mut two = PackageDialog::new(vec!["a".to_string(), "b".to_string()]);
    two.is_loading = false;
    two.package_info = Some(pkg_info("a"));
    assert_eq!(two.header(), Some("Remove 2 Packages".to_string()));
    two.is_removing = true;
    two.removal_progress = "Removing a".to_string();
    assert_eq!(two.buttons(), ActionButtons::CancelWhileBusy);
    assert_eq!(two.progress_line(), Some("Removing a".to_string()));
    two.is_removing = false;
    two.is_complete = true;
    assert_eq!(two.progress_line(), Some("Removal completed successfully!".to_string()));

    let mut f = FlatpakRemoveDialog::new(vec!["org.x.App".to_string()]);
    f.is_loading = false;
    f.flatpak_info = Some(Vec::new());
    assert_eq!(f.header(), Some("Remove org.x.App".to_string()));
    f.flatpak_info = Some(vec![flatpak_remove_dialog::FlatpakInfo {
        name: "App".to_string(),
        application_id: "org.x.App".to_string(),
        version: String::new(),
        size: String::new(),
    }]);
    assert_eq!(f.header(), Some("Remove App".to_string()));
    let mut g = FlatpakRemoveDialog::new(vec!["a".to_string(), "b".to_string(), "c".to_string()]);
    g.is_loading = false;
    g.flatpak_info = Some(Vec::new());
    assert_eq!(g.header(), Some("Remove 3 Flatpaks".to_string()));
}

#[test]
fn update_view_marks_the_running_package() {
    let pkgs = vec![
        FlatpakUpdateInfo {
            name: "GIMP".to_string(),
            application_id: "org.gimp.GIMP".to_string(),
            version: "2.10".to_string(),
            remote: Some("flathub".to_string()),
        },
        FlatpakUpdateInfo {
            name: "Other".to_string(),
            application_id: "org.o.Other".to_string(),
            version: "1".to_string(),
            remote: None,
        },
    ];
    let mut d = FlatpakUpdateDialog::new(pkgs);
    assert_eq!(d.count_line(), "2 package(s) to update");
    assert_eq!(d.buttons(), ActionButtons::CancelOrStart);
    assert_eq!(d.progress_line(), None);
    assert_eq!(d.row_remote(0), "flathub");
    assert_eq!(d.row_remote(1), "local");
    d.update(flatpak_update_dialog::Message::StartUpdate);
    assert_eq!(d.buttons(), ActionButtons::CancelWhileBusy);
    d.update(flatpak_update_dialog::Message::UpdateProgress("Updating org.gimp.GIMP".to_string()));
    assert_eq!(d.progress_line(), Some("Updating org.gimp.GIMP".to_string()));
    assert_eq!(d.updating_line(), Some("Updating: org.gimp.GIMP".to_string()));
    assert!(d.row_is_updating(0));
    assert!(!d.row_is_updating(1));
    d.update(flatpak_update_dialog::Message::UpdateError("bad".to_string()));
    assert_eq!(d.progress_line(), Some("Update failed".to_string()));
    assert_eq!(d.buttons(), ActionButtons::Close);
}

#[test]
fn changelog_view_text() {
    let mut d = ProtonChangelogDialog::new(
        "GE-Proton".to_string(),
        "GE-Proton9-1".to_string(),
        "Build notes".to_string(),
        "https://github.com/a/b/releases/tag/t".to_string(),
    );
    assert_eq!(d.heading(), "GE-Proton GE-Proton9-1");
    d.update(proton_changelog_dialog::Message::LoadChangelog);
    assert_eq!(d.screen(), ChangelogScreen::Loading);
    d.update(proton_changelog_dialog::Message::ChangelogLoaded(Ok("fixes".to_string())));
    assert_eq!(d.screen(), ChangelogScreen::Changelog);
    assert_eq!(d.shown_text(), "Build notes\n\nfixes");
    let mut e = ProtonChangelogDialog::new("R".to_string(), "B".to_string(), String::new(), String::new());
    assert_eq!(e.shown_text(), "No changelog available.");
    e.update(proton_changelog_dialog::Message::ChangelogLoaded(Err("x".to_string())));
    assert_eq!(e.screen(), ChangelogScreen::Error);
}
