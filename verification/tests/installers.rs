use rustora::cachyos_kernel_dialog::{
    self, command_outcome_text, gpu_from_lspci, install_outcome_text, step_command, step_result,
    CachyosCommand, CachyosKernelDialog, InstallNotes,
};
use rustora::gaming_meta_dialog::{
    self, choose_release_asset, download_report_text, flatpak_check_text,
    flatpak_install_outcome_text, occurs_more_than_once, GamingMetaDialog, GamingNext, GamingRun,
    Release, ReleaseAsset,
};
use rustora::hyprland_dialog::{
    self, copr_repo_listed, group_packages_vec, matugen_outcome_text, packages_to_install,
    step_plan, step_report, HyprCommand, HyprlandDialog, StepFacts,
};
use rustora::hyprland_dotfiles_dialog::{self, clone_outcome_text, HyprlandDotfilesDialog};
use rustora::stepper::{get_step_progress_text, step_message, Action, Installer, Message, StepRun};

#[test]
fn step_progress_texts() {
    assert_eq!(get_step_progress_text(Installer::CachyosKernel, 0), "Step 1/8: Enabling kernel-cachyos repo...");
    assert_eq!(get_step_progress_text(Installer::CachyosKernel, 9), "Installing Cachyos Kernel...");
    assert_eq!(get_step_progress_text(Installer::Hyprland, 10), "Step 11/11: Installing matugen...");
    assert_eq!(get_step_progress_text(Installer::Hyprland, 11), "Installation complete!");
    assert_eq!(get_step_progress_text(Installer::HyprlandDotfiles, 1), "Step 2/2: Copying configuration files...");
}

#[test]
fn stepper_runs_steps_in_order() {
    let mut run = StepRun::new(Installer::HyprlandDotfiles);
    assert!(matches!(run.update(Message::StartInstallation), Action::RunStep(0, true)));
    assert_eq!(run.terminal_output(), "Starting dotfiles installation...\n=====================================\n\n");
    let a = run.update(Message::StepProgress("cloned\n[OK] Step 1 completed: Repository cloned\n".to_string(), 1));
    assert!(matches!(a, Action::RunStep(1, false)));
    assert_eq!(run.progress_text(), "Step 1/2: Cloning repository...");
    assert_eq!(run.steps_done(), 1);
    let a = run.update(Message::InstallationComplete(Ok(())));
    assert!(matches!(a, Action::Idle));
    assert!(run.is_complete());
    assert_eq!(run.steps_done(), 2);
    assert!(run.terminal_output().ends_with("\n[OK] All steps completed successfully!\n"));
}

#[test]
fn stepper_stops_on_marker_and_reports_errors() {
    let mut run = StepRun::new(Installer::CachyosKernel);
    run.update(Message::StartInstallation);
    let a = run.update(Message::StepProgress("✓ Step 8 completed\n✓ ALL STEPS COMPLETED SUCCESSFULLY!\n".to_string(), 8));
    assert!(matches!(a, Action::Idle));
    assert!(run.is_complete());
    assert_eq!(run.progress_text(), "Installation completed successfully!");

    let mut run = StepRun::new(Installer::Hyprland);
    run.update(Message::StartInstallation);
    run.update(Message::InstallationComplete(Err("denied".to_string())));
    assert!(run.has_error());
    assert_eq!(run.progress_text(), "Installation failed: denied");
    assert!(run.terminal_output().ends_with("\n[FAIL] Error: denied\n"));

    let mut run = StepRun::new(Installer::Hyprland);
    run.update(Message::StartInstallation);
    let a = run.update(Message::StepProgress("still going".to_string(), 1));
    assert!(matches!(a, Action::Idle));
    assert_eq!(run.current_step_num(), 0);
    match run.update(Message::CopyToClipboard) {
        Action::CopyToClipboard(t) => assert_eq!(t, run.terminal_output()),
        _ => panic!("expected a copy"),
    }
}

#[test]
fn step_results_become_messages() {
    let first = step_message(Installer::Hyprland, true, Ok(("o".to_string(), 1, 1)));
    assert!(matches!(first, Message::StepProgress(_, 1)));
    let done = step_message(Installer::Hyprland, false, Ok(("o".to_string(), 11, 11)));
    assert!(matches!(done, Message::InstallationComplete(Ok(()))));
    let dot = step_message(Installer::HyprlandDotfiles, false, Ok(("o".to_string(), 2, 2)));
    assert!(matches!(dot, Message::InstallationComplete(Ok(()))));
    let err = step_message(Installer::CachyosKernel, false, Err("e".to_string()));
    assert!(matches!(err, Message::InstallationComplete(Err(e)) if e == "e"));
}

#[test]
fn cachyos_dialog_and_steps() {
    let d = CachyosKernelDialog::new();
    assert_eq!(d.title(), "Cachyos Kernel Installation - Rustora");
    match step_command(2, "AMD") {
        Some(c) => {
            assert_eq!(c.args(), vec!["dnf", "install", "-y", "--allowerasing", "kernel-cachyos"]);
            assert_eq!(c.name(), "dnf install");
            assert!(c.header().starts_with("$ pkexec dnf install -y --allowerasing kernel-cachyos\n"));
        }
        None => panic!("expected a command"),
    }
    assert!(step_command(6, "AMD").is_none());
    assert!(matches!(step_command(6, "NVIDIA"), Some(CachyosCommand::RebuildModules)));
    assert!(step_command(8, "NVIDIA").is_none());

    let (text, n, done) = step_result(2, "AMD", Ok("Nothing to do.\n".to_string())).ok().unwrap();
    assert_eq!((n, done), (2, 3));
    assert!(text.ends_with("\n✓ Step 3 completed: Cachyos kernel already installed (continuing with remaining steps)\n\n"));
    let (text, _, _) = step_result(6, "Intel", Err("ignored".to_string())).ok().unwrap();
    assert!(text.contains("Intel GPU detected - skipping kernel module rebuild\n\n✓ Step 7 completed: Skipped (not NVIDIA)\n\n"));
    assert_eq!(step_result(5, "AMD", Err("grub".to_string())).err().unwrap(), "grub");
    let (last, _, _) = step_result(7, "AMD", Ok(String::new())).ok().unwrap();
    assert!(last.contains("✓ ALL STEPS COMPLETED SUCCESSFULLY!"));
    let (past, n, done) = step_result(9, "AMD", Ok("x".to_string())).ok().unwrap();
    assert_eq!((past.as_str(), n, done), ("", 9, 8));
}

#[test]
fn cachyos_command_outcomes() {
    assert_eq!(
        command_outcome_text(Some(126), false, "o".to_string()).err().unwrap(),
        "Authentication cancelled or polkit not available. Please try again."
    );
    assert_eq!(command_outcome_text(Some(2), false, "o".to_string()).err().unwrap(), "Command failed with exit code: Some(2)");
    assert_eq!(command_outcome_text(Some(0), true, "o".to_string()).ok().unwrap(), "o");

    let mut notes = InstallNotes::new();
    notes.note("Package foo is ALREADY INSTALLED.");
    assert!(notes.already_installed);
    let ok = install_outcome_text(Some(1), false, &notes, "out".to_string()).ok().unwrap();
    assert_eq!(ok, "out\nℹ️  Note: Some packages were already installed. Continuing...\n");

    let plain = InstallNotes::new();
    let err = install_outcome_text(Some(1), false, &plain, "Error: broken".to_string()).err().unwrap();
    assert_eq!(err, "Installation failed with exit code: Some(1)\n\nOutput:\nError: broken");
    let one = install_outcome_text(Some(1), false, &plain, "quiet".to_string()).ok().unwrap();
    assert!(one.ends_with("(exit code 1, but no clear errors detected). Continuing...\n"));
    let other = install_outcome_text(None, false, &plain, "quiet".to_string()).err().unwrap();
    assert_eq!(other, "Command failed with exit code: None\n\nOutput:\nquiet");
}

#[test]
fn gpu_detection_order() {
    assert_eq!(gpu_from_lspci(true, "VGA: NVIDIA Corp\nAMD Radeon"), "NVIDIA");
    assert_eq!(gpu_from_lspci(true, "VGA: Radeon RX"), "AMD");
    assert_eq!(gpu_from_lspci(true, "Intel UHD"), "Intel");
    assert_eq!(gpu_from_lspci(false, "NVIDIA"), "Unknown");
    assert_eq!(gpu_from_lspci(true, "Matrox"), "Unknown");
}

#[test]
fn hyprland_plans() {
    let d = HyprlandDialog::new();
    assert_eq!(d.title(), "Hyprland Installation - Rustora");
    let pkgs = group_packages_vec(7);
    assert_eq!(pkgs, vec!["qt6ct", "nwg-look", "quickshell-git"]);
    let facts = StepFacts { copr_enabled: false, installed: vec![true, false, true], matugen_present: false };
    let plan = step_plan(7, &facts, &pkgs);
    assert!(plan.header.starts_with("$ pkexec dnf install -y nwg-look\n(Note:"));
    match plan.command {
        Some(HyprCommand::Pkexec(a, n)) => {
            assert_eq!(a, vec!["dnf", "install", "-y", "nwg-look"]);
            assert_eq!(n, "GUI tools");
        }
        _ => panic!("expected pkexec"),
    }
    let all = StepFacts { copr_enabled: true, installed: vec![true, true, true], matugen_present: true };
    match step_plan(7, &all, &pkgs).command {
        Some(HyprCommand::Pkexec(a, n)) => {
            assert_eq!(a, vec!["dnf", "upgrade", "-y", "qt6ct", "nwg-look", "quickshell-git"]);
            assert_eq!(n, "GUI tools updates");
        }
        _ => panic!("expected pkexec"),
    }
    let copr = step_plan(1, &all, &Vec::new());
    assert!(copr.command.is_none());
    assert!(copr.header.ends_with("[INFO] Skipping - repository already enabled\n"));
    let matugen = step_plan(10, &all, &Vec::new());
    assert!(matugen.command.is_none());
    assert!(matugen.header.ends_with("[INFO] matugen is already installed!\n"));
    assert!(matches!(step_plan(10, &facts, &Vec::new()).command, Some(HyprCommand::CargoInstallMatugen)));
    assert_eq!(packages_to_install(&pkgs, &vec![true]), vec!["nwg-look", "quickshell-git"]);
}

#[test]
fn hyprland_reports() {
    let (t, n, d) = step_report(0, "H\n", true, Ok("out\n".to_string())).ok().unwrap();
    assert_eq!(t, "H\nout\n\n[OK] Step 1 completed: System updated\n");
    assert_eq!((n, d), (1, 1));
    let (t, n, _) = step_report(1, "H\n", true, Err("Error: chroot not found".to_string())).ok().unwrap();
    assert!(t.contains("[WARN] Repository lions/hyprland not available for this Fedora version\n"));
    assert_eq!(n, 2);
    let (t, _, _) = step_report(1, "H\n", true, Err("denied".to_string())).ok().unwrap();
    assert!(t.contains("[WARN] Failed to enable lions/hyprland: denied\n"));
    assert_eq!(step_report(3, "H", true, Err("bad".to_string())).err().unwrap(), "bad");
    assert_eq!(step_report(11, "H", true, Ok(String::new())).err().unwrap(), "Invalid step number");
    let (t, n, _) = step_report(10, "H\n", true, Ok("built\n".to_string())).ok().unwrap();
    assert!(t.ends_with("\n[INFO] matugen installed successfully!\n\n[OK] Step 11 completed: matugen installed\n\n[OK] ALL STEPS COMPLETED SUCCESSFULLY!\n"));
    assert_eq!(n, 11);
    assert!(copr_repo_listed(true, "Name: Copr.FedoraInfraCloud.org/Lions/Hyprland", "lions/hyprland"));
    assert!(!copr_repo_listed(false, "lions/hyprland", "lions/hyprland"));
    assert!(!copr_repo_listed(true, "other/repo", "lions/hyprland"));
    assert_eq!(
        hyprland_dialog::command_outcome_text(Some(1), false, "Package is already installed".to_string()).ok().unwrap(),
        "Package is already installed\n[INFO] Note: Repository was already enabled. Continuing...\n"
    );
    assert_eq!(
        matugen_outcome_text(Some(101), false, "H\n", "o".to_string()).err().unwrap(),
        "matugen installation failed with exit code: Some(101)\n\nOutput:\nH\no"
    );
}

#[test]
fn dotfiles_steps() {
    let d = HyprlandDotfilesDialog::new();
    assert_eq!(d.title(), "Hyprland Dotfiles Installation - Rustora");
    assert_eq!(clone_outcome_text(false, "h", "o", "fatal").err().unwrap(), "Git clone failed: fatal");
    assert_eq!(clone_outcome_text(true, "h", "o", "").ok().unwrap(), "ho");
    let (t, n, _) = hyprland_dotfiles_dialog::step_report(1, Ok("copied\n".to_string())).ok().unwrap();
    assert!(t.ends_with("[OK] ALL STEPS COMPLETED SUCCESSFULLY!\n"));
    assert_eq!(n, 2);
    assert_eq!(hyprland_dotfiles_dialog::step_report(2, Ok(String::new())).err().unwrap(), "Invalid step number");
}

#[test]
fn gaming_progress_follows_markers() {
    let mut d = GamingMetaDialog::new();
    assert_eq!(d.title(), "Gaming Meta Installation - Rustora");
    assert!(matches!(d.update(gaming_meta_dialog::Message::StartInstallation), gaming_meta_dialog::Action::RunInstall));
    d.update(gaming_meta_dialog::Message::InstallationProgress("Step 1: x\n✓ Step 1 completed: y\nStep 2: z".to_string(), 0));
    assert_eq!(d.progress_tenths(), 10);
    assert_eq!(d.progress_text(), "Step 1/7: Installing core gaming tools...");
    d.update(gaming_meta_dialog::Message::InstallationProgress("Step 3: x".to_string(), 0));
    assert_eq!(d.progress_tenths(), 21);
    d.update(gaming_meta_dialog::Message::InstallationProgress("nothing".to_string(), 5));
    assert_eq!(d.progress_tenths(), 5);
    assert_eq!(d.progress_text(), "Installing Gaming Meta...");
    d.update(gaming_meta_dialog::Message::InstallationProgress("✗ Step 2 failed ✗".to_string(), 0));
    assert!(d.has_error());
    assert_eq!(d.progress_text(), "Installation failed");
    assert!(occurs_more_than_once("a✗b✗", '✗'));
    assert!(!occurs_more_than_once("a✗b", '✗'));
}

#[test]
fn gaming_run_goes_through_seven_steps() {
    let mut run = GamingRun::start();
    assert_eq!(run.step(), 1);
    for k in 1..=6usize {
        match run.finish_step(Ok(format!("out{}\n", k)), "heroic.rpm") {
            GamingNext::RunStep(next) => assert_eq!(next, k + 1),
            _ => panic!("expected the next step"),
        }
    }
    assert_eq!(run.filename(), "heroic.rpm");
    match run.finish_step(Ok("out7\n".to_string()), "") {
        GamingNext::Finished(Ok((text, p))) => {
            assert_eq!(p, 70);
            assert!(text.contains("File: heroic.rpm\n"));
            assert!(text.contains("RPM: heroic.rpm\n"));
            assert!(text.contains("✓ ALL STEPS COMPLETED SUCCESSFULLY!\n"));
            assert!(text.ends_with("  • Heroic Games Launcher\n"));
        }
        _ => panic!("expected the end"),
    }
    let mut failing = GamingRun::start();
    assert!(matches!(failing.finish_step(Err("no".to_string()), ""), GamingNext::Finished(Err(e)) if e == "no"));
}

#[test]
fn gaming_outcomes_and_release() {
    assert!(flatpak_check_text(true, "/usr/bin/flatpak\n").ok().unwrap().ends_with("\nFlatpak is installed and available.\n"));
    assert_eq!(flatpak_check_text(false, "").err().unwrap(), "Flatpak is not installed. Please install it first.");
    assert_eq!(
        flatpak_install_outcome_text(false, Some(1), "MangoJuice", "out".to_string()).err().unwrap(),
        "Failed to install MangoJuice: Command exited with code Some(1)"
    );
    assert!(flatpak_install_outcome_text(false, Some(1), "M", "x is already installed".to_string()).ok().unwrap().ends_with("(Note: Package was already installed)\n"));
    let asset = |name: &str| ReleaseAsset {
        name: Some(name.to_string()),
        browser_download_url: Some(format!("https://x/{}", name)),
        size: Some(1572864),
    };
    let rel = Release {
        tag_name: Some("v2".to_string()),
        name: None,
        assets: Some(vec![asset("a.deb"), asset("Heroic-2.x86_64.rpm"), asset("b.x86_64.rpm")]),
    };
    let (url, file, out) = choose_release_asset(&rel).ok().unwrap();
    assert_eq!(url, "https://x/Heroic-2.x86_64.rpm");
    assert_eq!(file, "Heroic-2.x86_64.rpm");
    assert!(out.contains("Release: unknown\nTag: v2\n"));
    assert!(out.contains("Size: 1.50 MB\n"));
    let none = Release { tag_name: None, name: None, assets: None };
    assert_eq!(choose_release_asset(&none).err().unwrap(), "No assets found in release");
    let empty = Release { tag_name: None, name: None, assets: Some(vec![asset("a.deb")]) };
    assert_eq!(choose_release_asset(&empty).err().unwrap(), "No x86_64 RPM file found in release");
    let r = download_report_text("u", "/tmp/f", 3145728, Some(3145728));
    assert!(r.contains("Downloaded: 3.00 MB / 3.00 MB (100%)\n"));
    assert_eq!(
        format!("{:.2}", 1572864u64 as f64 / 1_048_576.0),
        "1.50"
    );
}
