use rustora::app::{picked_path_of, tab_selected, toggle_theme, visible_tabs, AppTheme, Tab, TabLoad};
use rustora::dialog_design::{DialogDesign, DialogSpacing};
use rustora::proton_changelog_dialog::{
    self, changelog_from_reply, changelog_request, convert_to_github_api_url, ProtonChangelogDialog,
};
use rustora::proton_install_dialog::{
    self, check_archive_size, check_download, choose_compat_dir, detect_archive_format,
    unpack_error_text, unsupported_error_text, ArchiveFormat, ProtonInstallDialog,
};
use rustora::settings::{available_tabs, default_true, SettingsCategory, TabVisibility};

#[test]
fn github_release_pages_map_to_api() {
    assert_eq!(
        convert_to_github_api_url("https://github.com/GloriousEggroll/proton-ge-custom/releases/tag/GE-Proton9-20"),
        Some("https://api.github.com/repos/GloriousEggroll/proton-ge-custom/releases/tags/GE-Proton9-20".to_string())
    );
    assert_eq!(convert_to_github_api_url("https://github.com/u/r/releases/tag"), None);
    assert_eq!(convert_to_github_api_url("https://gitlab.com/u/r/releases/tag/x"), None);
    assert_eq!(convert_to_github_api_url("https://github.com/u/r/tags/x/y"), None);
    assert_eq!(changelog_request("https://github.com/u/r/tree/main"), None);
    assert_eq!(
        changelog_request("https://github.com/u/r/releases/tag/v1"),
        Some("https://api.github.com/repos/u/r/releases/tags/v1".to_string())
    );
}

#[test]
fn changelog_text_falls_back_to_the_page() {
    assert_eq!(changelog_from_reply("p", Some("notes".to_string())), "notes");
    let fallback = "Changelog available at:\np\n\n(Full changelog can be viewed on the GitHub release page)";
    assert_eq!(changelog_from_reply("p", Some(String::new())), fallback);
    assert_eq!(changelog_from_reply("p", None), fallback);
}

#[test]
fn changelog_dialog_states() {
    let mut d = ProtonChangelogDialog::new("Proton-GE".to_string(), "GE9".to_string(), "desc".to_string(), "url".to_string());
    assert_eq!(d.title(), "Proton-GE GE9 - Changelog - Rustora");
    assert!(d.is_loading());
    match d.update(proton_changelog_dialog::Message::LoadChangelog) {
        proton_changelog_dialog::Action::FetchChangelog(u) => assert_eq!(u, "url"),
        _ => panic!("expected a fetch"),
    }
    d.update(proton_changelog_dialog::Message::ChangelogLoaded(Err("offline".to_string())));
    assert!(!d.is_loading());
    assert_eq!(d.error(), Some("offline"));
    assert_eq!(d.changelog(), None);
}

#[test]
fn archive_formats_are_told_apart() {
    assert_eq!(detect_archive_format(&[0x1f, 0x8b, 0, 0, 0, 0]), ArchiveFormat::Gzip);
    assert_eq!(detect_archive_format(&[0x28, 0xb5, 0x2f, 0xfd, 0, 0]), ArchiveFormat::Zstd);
    assert_eq!(detect_archive_format(&[0xfd, 0x37, 0x7a, 0x58, 0x5a, 0x00]), ArchiveFormat::Xz);
    assert_eq!(detect_archive_format(&[0x37, 0x7a, 0xbc, 0xaf, 0x27, 0x1c]), ArchiveFormat::SevenZip);
    assert_eq!(detect_archive_format(&[0x50, 0x4b, 0x03, 0x04, 0, 0]), ArchiveFormat::Zip);
    assert_eq!(detect_archive_format(&[0x50, 0x4b, 0x09, 0x04, 0, 0]), ArchiveFormat::Unsupported);
    assert_eq!(
        unsupported_error_text(&[0xab, 0x0c, 0x00, 0xff, 1, 2]),
        "Unsupported archive format (magic bytes: ab 0c 00 ff). Expected gzip (.tar.gz), zstd (.tar.zst), xz (.tar.xz), 7z, or zip format."
    );
}

#[test]
fn archive_and_download_checks() {
    assert_eq!(check_archive_size(99).err().unwrap(), "Archive file is too small to be valid");
    assert!(check_archive_size(100).is_ok());
    assert_eq!(check_download(10, 0).err().unwrap(), "Downloaded file is empty");
    assert_eq!(
        check_download(10, 9).err().unwrap(),
        "Downloaded file size mismatch: expected 10 bytes, got 9 bytes"
    );
    assert!(check_download(0, 9).is_ok());
    assert!(check_download(9, 9).is_ok());
    assert_eq!(unpack_error_text(ArchiveFormat::Zstd, "bad header"), "Failed to extract zstd archive: bad header");
    assert_eq!(
        unpack_error_text(ArchiveFormat::Gzip, "failed to iterate over archive"),
        "Archive appears to be corrupted or in an unsupported format. Please try downloading again. Original error: failed to iterate over archive"
    );
}

#[test]
fn compat_directories() {
    let h = "/home/u";
    assert_eq!(choose_compat_dir(h, &None, &vec![false, false, true]), "/home/u/.steam/steam/compatibilitytools.d");
    assert_eq!(choose_compat_dir(h, &Some("Steam".to_string()), &vec![true, true, true]), "/home/u/.steam/root/compatibilitytools.d");
    assert_eq!(choose_compat_dir(h, &None, &vec![false, false, false]), "/home/u/.local/share/Steam/compatibilitytools.d");
    assert_eq!(choose_compat_dir(h, &Some("Lutris".to_string()), &Vec::new()), "/home/u/.local/share/Lutris/compatibilitytools.d");
}

#[test]
fn proton_install_stages() {
    let mut d = ProtonInstallDialog::new("GE".to_string(), "GE9".to_string(), "u".to_string(), None, None);
    assert_eq!(d.title(), "Installing GE GE9 - Rustora");
    assert!(matches!(d.update(proton_install_dialog::Message::StartDownload), proton_install_dialog::Action::Download(_, _)));
    assert!(d.is_downloading());
    assert!(matches!(
        d.update(proton_install_dialog::Message::DownloadComplete(Ok("/tmp/GE9.tar.gz".to_string()))),
        proton_install_dialog::Action::Send(proton_install_dialog::Message::StartExtraction)
    ));
    assert!(matches!(d.update(proton_install_dialog::Message::StartExtraction), proton_install_dialog::Action::Extract(b) if b == "GE9"));
    assert!(matches!(
        d.update(proton_install_dialog::Message::ExtractionComplete(Err("bad".to_string()))),
        proton_install_dialog::Action::Idle
    ));
    assert!(d.has_error());
    assert_eq!(
        d.terminal_output(),
        "Starting download of GE GE9...\n=====================================\n\nDownload complete: /tmp/GE9.tar.gz\n\nStarting extraction...\nExtraction failed: bad\n"
    );
}

#[test]
fn tab_visibility_toggles() {
    assert!(default_true());
    let mut v = TabVisibility::new();
    assert!(v.is_tab_visible("Kernel"));
    assert!(!v.toggle("Kernel"));
    assert!(v.is_tab_visible("Kernel"));
    v.ensure_tabs(&available_tabs());
    assert_eq!(v.get("FPM"), Some(true));
    assert_eq!(v.get("Tweaks"), None);
    assert!(v.toggle("Kernel"));
    assert!(!v.is_tab_visible("Kernel"));
    assert!(v.toggle("Kernel"));
    assert!(v.is_tab_visible("Kernel"));
    v.insert("Device", false);
    v.ensure_listed("Device");
    assert_eq!(v.get("Device"), Some(false));
    assert_eq!(v.entries().len(), 9);
    let _ = SettingsCategory::Tabs;
}

#[test]
fn window_tabs() {
    let mut v = TabVisibility::new();
    assert_eq!(visible_tabs(&v).len(), 10);
    v.insert("Updates", false);
    v.insert("Tweaks", false);
    let shown = visible_tabs(&v);
    assert_eq!(shown.len(), 8);
    assert_eq!(shown[1], Tab::Installed);
    assert_eq!(shown[2], Tab::Flatpak);
    assert_eq!(tab_selected(Tab::Kernel), TabLoad::KernelBranches);
    assert_eq!(tab_selected(Tab::Search), TabLoad::Nothing);
    assert_eq!(toggle_theme(toggle_theme(AppTheme::Dark)), AppTheme::Dark);
    assert_eq!(picked_path_of(true, " /tmp/a.rpm\n"), Some("/tmp/a.rpm".to_string()));
    assert_eq!(picked_path_of(true, "  \n"), None);
    assert_eq!(picked_path_of(false, "/tmp/a.rpm"), None);
    assert_eq!(DialogDesign::RADIUS, 8);
    assert_eq!(DialogSpacing::LARGE, 16);
}
