use rustora::flatpak_dialog::{
    self, install_args, install_command_line_text, install_outcome_text, log_content_text,
    log_file_name_text, FieldsReader, FlatpakDialog,
};
use rustora::flatpak_remove_dialog::{
    self, info_from_output, remove_command_line_text, remove_outcome, FlatpakRemoveDialog,
};
use rustora::flatpak_update_dialog::{
    self, update_args, update_command_line_text, update_outcome_text, FlatpakUpdateDialog,
    FlatpakUpdateInfo,
};
use rustora::transcript::{push_nonblank_line, transcript_header_text};

#[test]
fn flatpak_fields_are_read() {
    let mut r = FieldsReader::new("org.app.App");
    r.read("org.app.App", "Name: App\nVersion: 1.2\nDownload size: 5 MB\n", false);
    assert!(!r.needs_local_info());
    let info = r.finish("org.app.App");
    assert_eq!(info.name, "App");
    assert_eq!(info.version, "1.2");
    assert_eq!(info.size, "5 MB");
    assert_eq!(info.application_id, "org.app.App");

    let mut l = FieldsReader::new("org.app.App");
    assert!(l.needs_local_info());
    l.read("org.app.App", "Version: 2\nVersion: 3\nInstalled size: 9 MB\n", true);
    let info = l.finish("org.app.App");
    assert_eq!(info.version, "2");
    assert_eq!(info.size, "9 MB");
}

#[test]
fn flatpak_install_command() {
    assert_eq!(
        install_args("org.x", &Some("flathub".to_string())),
        vec!["install", "-y", "--noninteractive", "--verbose", "flathub", "org.x"]
    );
    assert_eq!(install_args("org.x", &Some(String::new())), vec!["install", "-y", "--noninteractive", "--verbose", "org.x"]);
    assert_eq!(
        install_command_line_text("org.x", &Some("flathub".to_string())),
        "flatpak install -y --noninteractive --verbose flathub org.x"
    );
}

#[test]
fn flatpak_install_outcomes() {
    assert_eq!(
        install_outcome_text(false, 1, "error: org.x is already installed", "c").ok().unwrap(),
        "Application is already installed.\n\nerror: org.x is already installed"
    );
    assert_eq!(
        install_outcome_text(false, 1, "boom", "c").err().unwrap(),
        "Installation failed (exit code: 1):\nboom"
    );
    assert_eq!(install_outcome_text(true, 0, "  ", "c").ok().unwrap(), "Installation Complete!");
    assert_eq!(install_outcome_text(true, 0, "App installed", "c").ok().unwrap(), "App installed");
    assert_eq!(install_outcome_text(true, 0, "ok", "c").ok().unwrap(), "Installation completed.\n\nok");
    assert_eq!(log_file_name_text("install", "20240101_120000"), "flatpak_install_20240101_120000.log");
    let log = log_content_text("install", "t", "org.x", &None, "out", true);
    assert_eq!(
        log,
        "=== Flatpak install Log ===\nTimestamp: t\nApplication ID: org.x\nStatus: SUCCESS\n\n--- Command Output ---\nout\n--- End of Log ---\n"
    );
}

#[test]
fn flatpak_dialog_states() {
    let mut d = FlatpakDialog::new("org.x".to_string(), None);
    match d.update(flatpak_dialog::Message::InstallFlatpak) {
        flatpak_dialog::Action::InstallFlatpak(id, remote) => {
            assert_eq!(id, "org.x");
            assert!(remote.is_none());
        }
        _ => panic!("expected an install"),
    }
    assert!(matches!(
        d.update(flatpak_dialog::Message::InstallationProgress("Installation Complete!".to_string())),
        flatpak_dialog::Action::MarkComplete
    ));
    d.update(flatpak_dialog::Message::InstallationComplete);
    assert!(d.is_complete);
    assert_eq!(d.terminal_output, "Installation Complete!\n[OK] Installation completed successfully!");
}

#[test]
fn flatpak_removal() {
    let info = info_from_output("org.y", None);
    assert_eq!(info.version, "Unknown");
    let info = info_from_output("org.y", Some("Name: Y\nVersion: 4\n"));
    assert_eq!(info.name, "Y");
    assert_eq!(info.size, "Unknown");
    assert_eq!(
        remove_command_line_text(&vec!["a".to_string(), "b".to_string()]),
        "flatpak uninstall -y --noninteractive a b"
    );
    assert!(remove_outcome(true, "", "").is_ok());
    assert!(remove_outcome(false, "e", "o").is_err());
    let mut d = FlatpakRemoveDialog::new(vec!["org.y".to_string()]);
    assert!(matches!(d.update(flatpak_remove_dialog::Message::Cancel), flatpak_remove_dialog::Action::CloseWindow));
}

#[test]
fn flatpak_updates() {
    assert_eq!(
        update_args(&vec!["org.z".to_string()]),
        vec!["update", "--app", "-y", "--noninteractive", "--verbose", "org.z"]
    );
    assert_eq!(
        update_command_line_text(&vec!["org.z".to_string()]),
        "flatpak update --app -y --noninteractive --verbose org.z"
    );
    assert_eq!(update_outcome_text(false, 1, "Nothing to do.", "c").ok().unwrap(), "No updates needed.\n\nNothing to do.");
    assert_eq!(update_outcome_text(false, 2, "x", "c").err().unwrap(), "Update failed (exit code: 2):\nx");
    let pkg = FlatpakUpdateInfo {
        name: "Zed".to_string(),
        application_id: "org.z".to_string(),
        version: "1".to_string(),
        remote: None,
    };
    let mut d = FlatpakUpdateDialog::new(vec![pkg]);
    match d.update(flatpak_update_dialog::Message::StartUpdate) {
        flatpak_update_dialog::Action::UpdateFlatpaks(ids) => assert_eq!(ids, vec!["org.z"]),
        _ => panic!("expected an update"),
    }
    d.update(flatpak_update_dialog::Message::UpdateProgress("Updating org.z".to_string()));
    assert_eq!(d.current_package(), Some("org.z".to_string()));
    d.update(flatpak_update_dialog::Message::UpdateError("net".to_string()));
    assert!(d.has_error());
    assert_eq!(d.progress_text(), "Update failed: net");
}

#[test]
fn transcript_lines() {
    let mut t = transcript_header_text("flatpak x");
    assert_eq!(t, "Command: flatpak x\n--- Output ---\n");
    push_nonblank_line(&mut t, "  ");
    push_nonblank_line(&mut t, "line");
    assert_eq!(t, "Command: flatpak x\n--- Output ---\nline\n");
}
