use rustora::device_install_dialog::{
    self, is_nvidia_device, push_stderr_chunk, script_file_name_text, script_outcome_text,
    tool_outcome_text, DeviceInfo, DeviceInstallDialog, PostInstallTool,
};
use rustora::kernel_install_dialog::{self, headers_name_text, KernelInstall, KernelInstallDialog};
use rustora::maintenance_dialog::{self, task_header_text, task_outcome_text, MaintenanceDialog, MaintenanceTask};
use rustora::transcript::{OutputStream, RunAction, RunEvent};

#[test]
fn maintenance_tasks_and_commands() {
    let d = MaintenanceDialog::new(MaintenanceTask::RegenerateInitramfs);
    assert_eq!(d.get_task_title(), "Regenerate Initramfs");
    assert_eq!(d.title(), "Regenerate Initramfs - Rustora");
    assert_eq!(d.progress_text(), "Regenerating initramfs...");
    let (p, args) = d.get_task_command();
    assert_eq!(p, "pkexec");
    assert_eq!(args, vec!["dracut", "-f", "regenerate-all"]);
    let (_, args) = MaintenanceDialog::new(MaintenanceTask::RemoveOrphanedPackages).get_task_command();
    assert_eq!(args, vec!["dnf", "autoremove", "-y", "--assumeyes"]);
}

#[test]
fn maintenance_state_machine() {
    let mut d = MaintenanceDialog::new(MaintenanceTask::CleanPackageCache);
    match d.update(maintenance_dialog::Message::StartTask) {
        maintenance_dialog::Action::RunTask(p, a) => {
            assert_eq!(p, "pkexec");
            assert_eq!(a, vec!["dnf", "clean", "all"]);
        }
        _ => panic!("expected a task to run"),
    }
    assert!(d.is_running());
    d.update(maintenance_dialog::Message::TaskError("boom".to_string()));
    assert!(!d.is_running());
    assert!(d.has_error());
    assert_eq!(d.terminal_output(), "boom");
    d.update(maintenance_dialog::Message::TaskProgress("done".to_string()));
    assert!(d.is_complete());
    assert_eq!(d.terminal_output(), "done");
}

#[test]
fn maintenance_transcript_and_outcome() {
    let args = vec!["akmods".to_string(), "--force".to_string()];
    assert_eq!(task_header_text("pkexec", &args), "$ pkexec akmods --force\n--- Output ---\n");
    assert_eq!(task_outcome_text(true, Some(0), "t").ok().unwrap(), "t");
    assert_eq!(
        task_outcome_text(false, Some(3), "t").err().unwrap(),
        "Process failed (exit code: 3):\nt"
    );
    assert_eq!(
        task_outcome_text(false, None, "t").err().unwrap(),
        "Process failed (exit code: -1):\nt"
    );
}

#[test]
fn kernel_headers_name() {
    assert_eq!(headers_name_text("kernel-6.8.1"), "kernel-headers-6.8.1");
    assert_eq!(headers_name_text("linux"), "linux");
}

fn run_args(a: &RunAction) -> Vec<String> {
    match a {
        RunAction::Run(p, args) => {
            assert_eq!(p, "pkexec");
            args.clone()
        }
        _ => panic!("expected a command"),
    }
}

#[test]
fn kernel_install_runs_three_commands() {
    let (mut run, first) = KernelInstall::start("kernel-6.8");
    assert_eq!(run_args(&first), vec!["dnf", "install", "-y", "--assumeyes", "kernel-6.8"]);
    assert!(matches!(run.on_event(RunEvent::Line("ok".to_string())), RunAction::Continue));
    let second = run.on_event(RunEvent::Exited(true, Some(0)));
    assert_eq!(run_args(&second), vec!["dnf", "install", "-y", "--assumeyes", "kernel-headers-6.8"]);
    let third = run.on_event(RunEvent::Exited(false, Some(1)));
    assert_eq!(run_args(&third), vec!["grub2-mkconfig", "-o", "/boot/grub2/grub.cfg"]);
    match run.on_event(RunEvent::Exited(true, Some(0))) {
        RunAction::Finish(Ok(text)) => {
            let expected = "Kernel kernel-6.8 installed successfully!\n\n$ Installing kernel: kernel-6.8\n--- Step 1: Installing kernel package ---\nok\n\n--- Step 2: Installing kernel headers ---\n$ Installing headers: kernel-headers-6.8\nWarning: Headers installation failed (exit code: 1), but kernel is installed.\n\n--- Step 3: Rebuilding GRUB configuration ---\n$ Rebuilding GRUB configuration...\nGRUB configuration rebuilt successfully.\n";
            assert_eq!(text, expected);
        }
        _ => panic!("expected success"),
    }
    assert!(run.is_done());
    assert!(matches!(run.on_event(RunEvent::Line("late".to_string())), RunAction::Continue));
}

#[test]
fn kernel_install_failure_and_errors() {
    let (mut run, _) = KernelInstall::start("kernel-x");
    match run.on_event(RunEvent::Exited(false, None)) {
        RunAction::Finish(Err(e)) => assert_eq!(
            e,
            "Kernel installation failed (exit code: -1):\n$ Installing kernel: kernel-x\n--- Step 1: Installing kernel package ---\n"
        ),
        _ => panic!("expected failure"),
    }
    let (mut run, _) = KernelInstall::start("kernel-x");
    match run.on_event(RunEvent::ReadFailed(OutputStream::Stderr, "broken pipe".to_string())) {
        RunAction::Finish(Err(e)) => assert_eq!(e, "Error reading stderr: broken pipe"),
        _ => panic!("expected failure"),
    }
    let (mut run, _) = KernelInstall::start("kernel-x");
    match run.on_event(RunEvent::SpawnFailed("no pkexec".to_string())) {
        RunAction::Finish(Err(e)) => assert_eq!(e, "Failed to execute dnf install: no pkexec"),
        _ => panic!("expected failure"),
    }
    let (mut run, _) = KernelInstall::start("kernel-x");
    match run.on_event(RunEvent::WaitFailed("gone".to_string())) {
        RunAction::Finish(Err(e)) => assert_eq!(e, "Failed to wait for process: gone"),
        _ => panic!("expected failure"),
    }
}

#[test]
fn kernel_dialog_states() {
    let mut d = KernelInstallDialog::new("kernel-lts".to_string());
    assert_eq!(d.title(), "Installing Kernel kernel-lts - Rustora");
    assert_eq!(d.progress_text(), "Installing kernel kernel-lts...");
    match d.update(kernel_install_dialog::Message::StartTask) {
        kernel_install_dialog::Action::InstallKernel(k) => assert_eq!(k, "kernel-lts"),
        _ => panic!("expected an install"),
    }
    d.update(kernel_install_dialog::Message::TaskProgress("out".to_string()));
    assert!(d.is_complete() && !d.is_running());
}

fn device(vendor: &str, driver: &str) -> DeviceInfo {
    DeviceInfo {
        vendor_name: "V".to_string(),
        device_name: "D".to_string(),
        driver: driver.to_string(),
        driver_version: "1".to_string(),
        bus_id: "0".to_string(),
        vendor_id: vendor.to_string(),
        device_id: "1".to_string(),
        repositories: Vec::new(),
    }
}

#[test]
fn nvidia_devices_are_recognised() {
    assert!(is_nvidia_device(&device("10de", "x")));
    assert!(is_nvidia_device(&device("1002", "NVIDIA-open")));
    assert!(!is_nvidia_device(&device("1002", "amdgpu")));
}

#[test]
fn device_install_runs_post_install_for_nvidia_only() {
    let mut d = DeviceInstallDialog::new("nv".to_string(), "echo".to_string(), device("10de", "nvidia"), false);
    assert_eq!(d.title(), "Installing Driver: nv - Rustora");
    assert_eq!(d.progress_text(), "Installing driver: nv...");
    assert!(matches!(
        d.update(device_install_dialog::Message::InstallationProgress("out".to_string())),
        device_install_dialog::Action::RunTool(PostInstallTool::Akmods)
    ));
    assert!(d.is_post_install());
    assert!(matches!(
        d.update(device_install_dialog::Message::PostInstallProgress("a".to_string())),
        device_install_dialog::Action::RunTool(PostInstallTool::Dracut)
    ));
    assert_eq!(d.progress_text(), "Regenerating initramfs...");
    d.update(device_install_dialog::Message::PostInstallError("bad".to_string()));
    assert_eq!(d.post_install_output(), "a\nError: bad");

    let mut r = DeviceInstallDialog::new("nv".to_string(), "echo".to_string(), device("10de", "nvidia"), true);
    assert_eq!(r.title(), "Removing Driver: nv - Rustora");
    assert!(matches!(
        r.update(device_install_dialog::Message::InstallationProgress("out".to_string())),
        device_install_dialog::Action::Idle
    ));
    assert!(!r.is_post_install());
    r.update(device_install_dialog::Message::InstallationError("x".to_string()));
    assert_eq!(r.terminal_output(), "out\nError: x");
}

#[test]
fn device_script_outcomes() {
    assert_eq!(script_file_name_text(true, 42), "rustora_remove_42.sh");
    assert_eq!(script_file_name_text(false, 7), "rustora_install_7.sh");
    assert_eq!(script_outcome_text(true, Some(0), false, "").ok().unwrap(), "Installation completed successfully.");
    assert_eq!(script_outcome_text(true, Some(0), true, "").ok().unwrap(), "Removal completed successfully.");
    assert_eq!(script_outcome_text(true, Some(0), true, "log").ok().unwrap(), "log");
    assert_eq!(
        script_outcome_text(false, Some(2), false, "log").err().unwrap(),
        "Installation failed with exit code 2. Output:\nlog"
    );
    assert_eq!(
        tool_outcome_text(PostInstallTool::Dracut, true, Some(0), "").ok().unwrap(),
        "dracut -f --regenerate-all completed successfully."
    );
    assert_eq!(
        tool_outcome_text(PostInstallTool::Akmods, false, None, "o").err().unwrap(),
        "akmods failed with exit code -1. Output:\no"
    );
    let mut t = String::from("a\n");
    push_stderr_chunk(&mut t, "warn\n");
    push_stderr_chunk(&mut t, "");
    assert_eq!(t, "a\n[stderr] warn\n");
}
