use eiyah::config::ResolvedPaths;
use eiyah::doctor::{
    diagnose_dotfiles, diagnose_eiyah_symlink, diagnose_host_compatibility_values,
    diagnose_installation, diagnose_login_shell_value, diagnose_os_compatibility, report_doctor,
    run_doctor, Findings, HostFacts, Managed,
};
use eiyah::host::{Entry, Fault, FaultKind, FileKind, Reply};
use eiyah::installed::load_installed_paths;
use eiyah::system::{
    collect_system_config, command_first_line, option_display, optional_environment_string,
    os_release_value_from, parse_major_minor, parse_os_release_value, print_config, version_at_least,
    HostReport, SystemConfig,
};
use eiyah::transaction::PathIdentity;

fn text(value: &str) -> String {
    value.to_owned()
}

fn bytes(value: &str) -> Vec<u8> {
    value.as_bytes().to_vec()
}

fn missing() -> Fault {
    Fault { kind: FaultKind::NotFound, text: text("No such file or directory (os error 2)") }
}

fn entry(kind: FileKind, mode: u32) -> Result<Entry, Fault> {
    Ok(Entry { kind, mode, identity: PathIdentity { device: 1, inode: 2 } })
}

fn paths() -> ResolvedPaths {
    ResolvedPaths::from_homes(bytes("/c"), bytes("/d"), bytes("/s"), bytes("/k"))
}

fn sound() -> Managed {
    Managed {
        binary: entry(FileKind::Regular, 0o755),
        entry: Ok(bytes("/d/eiyah/bin/eiyah")),
        config: Ok(bytes("show-cad-status = true\n")),
        pixi: entry(FileKind::Regular, 0o755),
        zsh: entry(FileKind::Regular, 0o755),
        status_binary: entry(FileKind::Regular, 0o755),
        status_entry: Ok(bytes("/d/eiyah/bin/show-cad-status")),
    }
}

fn good_host() -> HostFacts {
    HostFacts {
        os: Some(text("AlmaLinux 8.10")),
        os_id: Some(text("almalinux")),
        os_version: Some(text("8.10")),
        architecture: Some(text("x86_64")),
        glibc: Some(text("glibc 2.28")),
    }
}

#[test]
fn parses_os_release_pretty_name() {
    let contents = "ID=almalinux\nPRETTY_NAME=\"AlmaLinux 8.10\"\n";
    assert_eq!(
        parse_os_release_value(contents, "PRETTY_NAME").as_deref(),
        Some("AlmaLinux 8.10")
    );
    assert_eq!(parse_os_release_value(contents, "MISSING"), None);
}

#[test]
fn treats_empty_login_shell_as_unavailable() {
    let login_shell = optional_environment_string(Some(Vec::new()));
    assert_eq!(login_shell, None);
    assert_eq!(option_display(&login_shell), "N/A");
}

#[test]
fn parses_major_minor_version() {
    assert_eq!(parse_major_minor("2.28"), Some((2, 28)));
    assert_eq!(parse_major_minor("invalid"), None);
}

#[test]
fn compares_versions_by_number() {
    assert!(version_at_least("2.28", 2, 28));
    assert!(version_at_least("3.0", 2, 28));
    assert!(!version_at_least("2.9", 2, 28));
    assert!(!version_at_least("x", 2, 28));
}

#[test]
fn diagnoses_mismatched_eiyah_symlink() {
    let mut issues = Vec::new();
    let link = Ok(bytes("/home/tester/other/bin/eiyah"));
    diagnose_eiyah_symlink(
        b"/home/tester",
        b"/home/tester/data/eiyah/bin/eiyah",
        &link,
        &mut issues,
    );
    assert_eq!(issues, ["Eiyah command link is invalid: /home/tester/.local/bin/eiyah"]);
}

#[test]
fn reports_specific_runtime_values() {
    let mut issues = Vec::new();
    diagnose_login_shell_value(&Some(bytes("/bin/bash")), &mut issues);
    diagnose_os_compatibility(
        &Some(text("Other Linux")),
        &Some(text("other")),
        &Some(text("1")),
        &mut issues,
    );
    diagnose_host_compatibility_values(
        &Some(text("aarch64")),
        &Some(text("glibc 2.17")),
        false,
        &mut issues,
    );
    assert_eq!(
        issues,
        [
            "Login shell is not csh or tcsh: /bin/bash",
            "Unsupported OS: Other Linux",
            "Unsupported architecture: aarch64",
            "Host glibc is too old: glibc 2.17",
        ]
    );
}

#[test]
fn reports_runtime_information_failures() {
    let mut issues = Vec::new();
    diagnose_os_compatibility(&None, &None, &None, &mut issues);
    diagnose_host_compatibility_values(&None, &None, false, &mut issues);
    assert_eq!(
        issues,
        [
            "OS information could not be read: /etc/os-release",
            "Architecture could not be read: uname -m",
            "Host glibc could not be read: getconf GNU_LIBC_VERSION",
        ]
    );
}

#[test]
fn reports_missing_os_compatibility_fields() {
    for (os_id, os_version) in [(None, Some(text("8.10"))), (Some(text("almalinux")), None)] {
        let mut issues = Vec::new();
        diagnose_os_compatibility(
            &Some(text("AlmaLinux 8.10")),
            &os_id,
            &os_version,
            &mut issues,
        );
        assert_eq!(issues, ["OS information could not be read: /etc/os-release"]);
    }
}

#[test]
fn reports_missing_eiyah_command_for_doctor_recovery() {
    let home = b"/home/missing";
    let lookup = load_installed_paths(home).advance(Reply::Failed(missing()));
    let reason = lookup.reason_for_report().unwrap();
    let mut issues = Vec::new();
    diagnose_installation(home, Err(reason), &mut issues);
    assert_eq!(
        issues,
        ["Eiyah installation information could not be read: Eiyah command was not found at /home/missing/.local/bin/eiyah"]
    );
}

#[test]
fn reports_doctor_results() {
    let healthy = report_doctor(&Vec::new(), false);
    assert!(healthy.healthy);
    assert_eq!(healthy.output, "Your system is ready to use Eiyah.\n");

    let ill = report_doctor(&vec![text("first"), text("second")], false);
    assert!(!ill.healthy);
    assert_eq!(ill.warnings, "Warning: first\nWarning: second\n");
    assert_eq!(ill.output, "");
}

#[test]
fn a_whole_system_has_no_issues() {
    let issues = run_doctor(Findings {
        home: Ok((
            bytes("/home/tester"),
            entry(FileKind::Directory, 0o755),
            Ok((paths(), sound())),
        )),
        shell: Some(bytes("/bin/tcsh")),
        host: good_host(),
    });
    assert_eq!(issues, Vec::<String>::new());
}

#[test]
fn each_missing_part_is_an_issue() {
    let mut managed = sound();
    managed.binary = Err(missing());
    managed.pixi = entry(FileKind::Regular, 0o644);
    managed.status_entry = Ok(bytes("/elsewhere"));
    let issues = run_doctor(Findings {
        home: Ok((bytes("/home/tester"), Err(missing()), Ok((paths(), managed)))),
        shell: Some(bytes("/bin/csh")),
        host: good_host(),
    });
    assert_eq!(issues.len(), 4);
    let mut dotfiles = Vec::new();
    diagnose_dotfiles(b"/home/tester", &Err(missing()), &mut dotfiles);
    assert_eq!(dotfiles.len(), 1);
    assert!(issues.contains(&dotfiles[0]));
}

#[test]
fn a_missing_home_is_an_issue() {
    let issues = run_doctor(Findings {
        home: Err(text("HOME is not set")),
        shell: None,
        host: good_host(),
    });
    assert!(issues.contains(&text("HOME is unavailable: HOME is not set")));
}

#[test]
fn first_lines_of_programs_are_taken() {
    assert_eq!(command_first_line(true, b"zsh 5.8\nmore\n").as_deref(), Some("zsh 5.8"));
    assert_eq!(command_first_line(false, b"zsh 5.8\n"), None);
    assert_eq!(command_first_line(true, b""), None);
    assert_eq!(os_release_value_from("ID=almalinux\n", "ID").as_deref(), Some("almalinux"));
}

#[test]
fn system_config_uses_canonical_output_format() {
    let config = SystemConfig {
        eiyah_version: text("1.2.3"),
        origin: text("https://example.invalid/eiyah"),
        eiyah_prefix: bytes("/data/eiyah"),
        eiyah_config: bytes("/config/eiyah/config.toml"),
        dotfiles: bytes("/home/tester/.dotfiles"),
        pixi_home: bytes("/data/eiyah/pixi"),
        pixi: Some(text("pixi 1")),
        zsh: None,
        login_shell: Some(text("/bin/tcsh")),
        bash: Some(text("GNU bash")),
        curl: Some(text("curl 1")),
        os: Some(text("AlmaLinux 8")),
        kernel: Some(text("kernel")),
        architecture: Some(text("x86_64")),
        host_glibc: Some(text("glibc 2.28")),
    };
    assert_eq!(
        print_config(&config),
        "EIYAH_VERSION: 1.2.3\nORIGIN: https://example.invalid/eiyah\nEIYAH_PREFIX: /data/eiyah\nEIYAH_CONFIG: /config/eiyah/config.toml\nDOTFILES: /home/tester/.dotfiles\nPIXI_HOME: /data/eiyah/pixi\n\nPixi: pixi 1\nZsh: N/A\nLogin shell: /bin/tcsh\nBash: GNU bash\nCurl: curl 1\n\nOS: AlmaLinux 8\nKernel: kernel\nArchitecture: x86_64\nHost glibc: glibc 2.28\n"
    );
}

#[test]
fn the_system_configuration_names_the_managed_places() {
    let host = HostReport {
        pixi: None,
        zsh: None,
        login_shell: None,
        bash: None,
        curl: None,
        os: None,
        kernel: None,
        architecture: None,
        host_glibc: None,
    };
    let config = collect_system_config("1.2.3", b"/home/tester", &paths(), host);
    assert_eq!(config.eiyah_version, "1.2.3");
    assert_eq!(config.origin, "https://github.com/su-ito-lab/eiyah");
    assert_eq!(config.dotfiles, b"/home/tester/.dotfiles");
    assert_eq!(config.pixi_home, b"/d/eiyah/pixi");
}
