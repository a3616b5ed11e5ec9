use rustora::install_dialog::{self, collect_package_infos, parse_dnf_info, PackageInfo};
use rustora::package_dialog::{self, info_target, parse_package_info, removal_outcome, remove_command_args};
use rustora::rpm_dialog::{dependency_lines, parse_rpm_info, rpm_install_args, rpm_install_outcome};

#[test]
fn dnf_info_is_read() {
    let out = "Name         : htop\nVersion      : 3.3.0\nRelease      : 1.fc40\nArchitecture : x86_64\nInstalled size : 400 k\nSummary      : Interactive process viewer\nDescription  : htop is an interactive\n             : text-mode process viewer.\nURL          : https://htop.dev\n";
    let info = parse_dnf_info("htop", out);
    assert_eq!(info.name, "htop");
    assert_eq!(info.version, "3.3.0");
    assert_eq!(info.release, "1.fc40");
    assert_eq!(info.arch, "x86_64");
    assert_eq!(info.summary, "Interactive process viewer");
    assert_eq!(info.size_field, "400 k");
    assert_eq!(info.description, "htop is an interactive : text-mode process viewer.");
}

#[test]
fn dnf_info_falls_back_to_name_and_summary() {
    let info = parse_dnf_info("pkg", "Summary : short\n");
    assert_eq!(info.name, "pkg");
    assert_eq!(info.description, "short");
    let p = info.into_package_info(Some(2048));
    assert_eq!(p.size, "2.00 KB");
}

#[test]
fn unparsed_size_is_kept() {
    let info = parse_dnf_info("pkg", "Size : 1.5 M\n");
    let p = info.into_package_info(None);
    assert_eq!(p.size, "1.5 M");
}

fn info(name: &str) -> PackageInfo {
    PackageInfo {
        name: name.to_string(),
        version: String::new(),
        release: String::new(),
        arch: String::new(),
        summary: String::new(),
        description: String::new(),
        size: String::new(),
    }
}

#[test]
fn package_infos_are_collected() {
    assert_eq!(collect_package_infos(0, Vec::new()).err().unwrap(), "No packages specified");
    let all_failed = collect_package_infos(2, vec![Err("a".to_string()), Err("b".to_string())]);
    assert_eq!(all_failed.err().unwrap(), "Failed to load information for any packages");
    let some = collect_package_infos(3, vec![Ok(info("a")), Err("x".to_string()), Ok(info("c"))]).ok().unwrap();
    let names: Vec<&str> = some.iter().map(|p| p.name.as_str()).collect();
    assert_eq!(names, vec!["a", "c"]);
}

#[test]
fn install_outcome_reports() {
    assert_eq!(install_dialog::install_outcome(true, "", "").ok().unwrap(), "Installation Complete!");
    assert_eq!(
        install_dialog::install_outcome(false, "bad", "out").err().unwrap(),
        "Installation failed: bad\nout"
    );
}

#[test]
fn rpm_qi_output_is_read() {
    let out = "Name        : bash\nVersion     : 5.2.26\nRelease     : 3.fc40\nArchitecture: x86_64\nSize        : 8388608\nSummary     : The GNU Bourne Again shell\nDescription :\nThe GNU Bourne Again shell (Bash) is a shell\ncompatible with sh.\n\nOther:\n";
    let p = parse_package_info(out);
    assert_eq!(p.name, "bash");
    assert_eq!(p.version, "5.2.26");
    assert_eq!(p.release, "3.fc40");
    assert_eq!(p.arch, "x86_64");
    assert_eq!(p.size, "8.00 MB");
    assert_eq!(p.summary, "The GNU Bourne Again shell");
    assert_eq!(p.description, "The GNU Bourne Again shell (Bash) is a shell compatible with sh.");
}

#[test]
fn rpm_qi_bad_size_is_zero_and_empty_description_is_summary() {
    let p = parse_package_info("Size        : lots\nSummary     : A tool\nDescription :\nLabel:\nafter\n");
    assert_eq!(p.size, "0.00 B");
    assert_eq!(p.description, "A tool");
}

#[test]
fn removal_pieces() {
    assert_eq!(info_target(&Vec::new()).err().unwrap(), "No packages specified");
    assert_eq!(info_target(&vec!["a".to_string(), "b".to_string()]).ok().unwrap(), "a");
    assert_eq!(
        remove_command_args(&vec!["x".to_string()]),
        vec!["dnf", "remove", "-y", "--assumeyes", "x"]
    );
    assert_eq!(removal_outcome(true, "", "").ok().unwrap(), "Removal Complete!");
    assert_eq!(removal_outcome(false, "e", "o").err().unwrap(), "Removal failed: e\no");
    assert_eq!(package_dialog::package_info_error("boom"), "Failed to read package info: boom");
}

#[test]
fn rpm_file_info_is_read() {
    let out = "Name        : app\nVersion     : 1.0\nRelease     : 1\nArchitecture: x86_64\nSize        : 1048576\nSummary     : An app\nDescription :\nFirst line\nSecond line\n\nName        : ignored\n";
    let info = parse_rpm_info(out, Some("libc.so.6\n  \n rpmlib(X) \n"));
    assert_eq!(info.name, "app");
    assert_eq!(info.size, "1.00 MB");
    assert_eq!(info.description, "First line\nSecond line");
    assert_eq!(info.dependencies, vec!["libc.so.6", "rpmlib(X)"]);
    let no_deps = parse_rpm_info(out, None);
    assert!(no_deps.dependencies.is_empty());
    assert_eq!(dependency_lines(""), Vec::<String>::new());
}

#[test]
fn rpm_install_error_variants() {
    assert_eq!(rpm_install_outcome(true, "", "", "/p.rpm").ok().unwrap(), "Installation Complete!");
    let deps = rpm_install_outcome(false, "nothing provides libc6", "", "/p.rpm").err().unwrap();
    assert!(deps.starts_with("Installation failed due to dependency resolution issues."));
    assert!(deps.contains("dnf install --nogpgcheck --skip-broken /p.rpm\n4."));
    let conflict = rpm_install_outcome(false, "file /usr/bin conflicts with file from package", "", "/p.rpm").err().unwrap();
    assert!(conflict.starts_with("Installation failed due to file conflicts."));
    let plain = rpm_install_outcome(false, "err", "out", "/p.rpm").err().unwrap();
    assert_eq!(plain, "Installation failed:\nerr\nout");
    assert_eq!(
        rpm_install_args("/tmp/a.rpm"),
        vec!["dnf", "install", "-y", "--assumeyes", "--nogpgcheck", "/tmp/a.rpm"]
    );
}
