use proxylea::trust_store::{
    check_cert, delete_cert, heard, install_cert, Answer, CertManager, Installation,
    LinuxCertManager, MacOSCertManager, Next, Platform, Query, StoreError, WindowsCertManager,
};

fn command(program: &str, arguments: &[&str]) -> Query {
    Query::Run {
        program: program.to_string(),
        arguments: arguments.iter().map(|a| a.to_string()).collect(),
    }
}

#[test]
fn windows_probe_is_certutil_verifystore() {
    let next = WindowsCertManager.is_cert_installed("root.crt", &[]);
    assert_eq!(next, Next::Ask(command("certutil", &["-verifystore", "Root", "root.crt"])));
}

#[test]
fn macos_probe_searches_the_system_keychain() {
    let next = MacOSCertManager.is_cert_installed("proxylea_cert", &[]);
    assert_eq!(
        next,
        Next::Ask(command(
            "security",
            &["find-certificate", "-a", "-c", "proxylea_cert", "/Library/Keychains/System.keychain"],
        ))
    );
}

#[test]
fn linux_probe_looks_into_the_store_directory() {
    let next = LinuxCertManager.is_cert_installed("root.crt", &[]);
    assert_eq!(
        next,
        Next::Ask(Query::Exists { path: "/usr/local/share/ca-certificates/root.crt".to_string() })
    );
}

#[test]
fn probe_answer_is_the_verdict() {
    assert_eq!(WindowsCertManager.is_cert_installed("c", &[Answer::Yes]), Next::Done(Ok(true)));
    assert_eq!(MacOSCertManager.is_cert_installed("c", &[Answer::No]), Next::Done(Ok(false)));
    assert_eq!(
        WindowsCertManager.is_cert_installed("c", &[Answer::Failed]),
        Next::Done(Err(StoreError::Unavailable))
    );
    assert_eq!(
        MacOSCertManager.is_cert_installed("c", &[Answer::Failed]),
        Next::Done(Err(StoreError::Unavailable))
    );
}

#[test]
fn linux_lookup_never_ends_in_an_error() {
    let m = LinuxCertManager;
    assert_eq!(m.is_cert_installed("c", &[Answer::Yes]), Next::Done(Ok(true)));
    assert_eq!(m.is_cert_installed("c", &[Answer::No]), Next::Done(Ok(false)));
    assert_eq!(m.is_cert_installed("c", &[Answer::Failed]), Next::Done(Ok(false)));
    assert_eq!(check_cert(Some(Platform::Linux), &[Answer::Failed]), Next::Done(Ok(false)));
}

#[test]
fn linux_install_goes_on_to_the_copy_after_a_failed_lookup() {
    let m = LinuxCertManager;
    assert_eq!(
        m.install_cert("root.crt", &[Answer::Failed]),
        Next::Ask(command("sudo", &["cp", "root.crt", "/usr/local/share/ca-certificates/"]))
    );
    assert_eq!(
        m.install_cert("root.crt", &[Answer::Failed, Answer::Yes, Answer::Yes]),
        Next::Done(Ok(Installation::Installed))
    );
    assert_eq!(
        m.install_cert("root.crt", &[Answer::Failed, Answer::No]),
        Next::Done(Err(StoreError::CopyFailed))
    );
    assert_eq!(
        m.install_cert("root.crt", &[Answer::No, Answer::Failed]),
        Next::Done(Err(StoreError::Unavailable))
    );
}

#[test]
fn a_look_at_a_path_has_two_answers() {
    let look = Query::Exists { path: "p".to_string() };
    assert_eq!(heard(&look, Answer::Yes), Answer::Yes);
    assert_eq!(heard(&look, Answer::No), Answer::No);
    assert_eq!(heard(&look, Answer::Failed), Answer::No);
    let run = command("true", &[]);
    assert_eq!(heard(&run, Answer::Yes), Answer::Yes);
    assert_eq!(heard(&run, Answer::No), Answer::No);
    assert_eq!(heard(&run, Answer::Failed), Answer::Failed);
}

#[test]
fn store_errors_say_what_failed() {
    assert_eq!(StoreError::Unsupported.message(), "Unsupported operating system");
    assert_eq!(StoreError::Unavailable.message(), "Failed to run command");
    assert_eq!(StoreError::InstallFailed.message(), "Failed to install certificate");
    assert_eq!(StoreError::DeleteFailed.message(), "Failed to delete certificate");
    assert_eq!(StoreError::CopyFailed.message(), "Failed to copy certificate");
    assert_eq!(StoreError::RemoveFailed.message(), "Failed to remove certificate file");
    assert_eq!(StoreError::RefreshFailed.message(), "Failed to update CA certificates");
}

#[test]
fn install_probes_first() {
    assert_eq!(
        WindowsCertManager.install_cert("root.crt", &[]),
        Next::Ask(command("certutil", &["-verifystore", "Root", "root.crt"]))
    );
    assert_eq!(
        LinuxCertManager.install_cert("root.crt", &[]),
        Next::Ask(Query::Exists { path: "/usr/local/share/ca-certificates/root.crt".to_string() })
    );
}

#[test]
fn macos_install_probes_by_keychain_name() {
    assert_eq!(
        MacOSCertManager.install_cert("some/path.crt", &[]),
        Next::Ask(command(
            "security",
            &["find-certificate", "-a", "-c", "proxylea_cert", "/Library/Keychains/System.keychain"],
        ))
    );
}

#[test]
fn install_stops_when_already_installed() {
    assert_eq!(
        WindowsCertManager.install_cert("root.crt", &[Answer::Yes]),
        Next::Done(Ok(Installation::AlreadyInstalled))
    );
    assert_eq!(
        MacOSCertManager.install_cert("root.crt", &[Answer::Yes]),
        Next::Done(Ok(Installation::AlreadyInstalled))
    );
    assert_eq!(
        LinuxCertManager.install_cert("root.crt", &[Answer::Yes]),
        Next::Done(Ok(Installation::AlreadyInstalled))
    );
}

#[test]
fn windows_install_runs_addstore() {
    let m = WindowsCertManager;
    assert_eq!(
        m.install_cert("root.crt", &[Answer::No]),
        Next::Ask(command("certutil", &["-addstore", "Root", "root.crt"]))
    );
    assert_eq!(
        m.install_cert("root.crt", &[Answer::No, Answer::Yes]),
        Next::Done(Ok(Installation::Installed))
    );
    assert_eq!(
        m.install_cert("root.crt", &[Answer::No, Answer::No]),
        Next::Done(Err(StoreError::InstallFailed))
    );
    assert_eq!(
        m.install_cert("root.crt", &[Answer::No, Answer::Failed]),
        Next::Done(Err(StoreError::Unavailable))
    );
}

#[test]
fn macos_install_adds_a_trusted_cert() {
    let m = MacOSCertManager;
    assert_eq!(
        m.install_cert("root.crt", &[Answer::No]),
        Next::Ask(command(
            "sudo",
            &[
                "security",
                "add-trusted-cert",
                "-d",
                "-r",
                "trustRoot",
                "-k",
                "/Library/Keychains/System.keychain",
                "root.crt",
            ],
        ))
    );
    assert_eq!(
        m.install_cert("root.crt", &[Answer::No, Answer::No]),
        Next::Done(Err(StoreError::InstallFailed))
    );
    assert_eq!(
        m.install_cert("root.crt", &[Answer::No, Answer::Yes]),
        Next::Done(Ok(Installation::Installed))
    );
}

#[test]
fn linux_install_copies_then_refreshes() {
    let m = LinuxCertManager;
    assert_eq!(
        m.install_cert("root.crt", &[Answer::No]),
        Next::Ask(command("sudo", &["cp", "root.crt", "/usr/local/share/ca-certificates/"]))
    );
    assert_eq!(
        m.install_cert("root.crt", &[Answer::No, Answer::No]),
        Next::Done(Err(StoreError::CopyFailed))
    );
    assert_eq!(
        m.install_cert("root.crt", &[Answer::No, Answer::Yes]),
        Next::Ask(command("sudo", &["update-ca-certificates"]))
    );
    assert_eq!(
        m.install_cert("root.crt", &[Answer::No, Answer::Yes, Answer::No]),
        Next::Done(Err(StoreError::RefreshFailed))
    );
    assert_eq!(
        m.install_cert("root.crt", &[Answer::No, Answer::Yes, Answer::Yes]),
        Next::Done(Ok(Installation::Installed))
    );
}

#[test]
fn install_reports_a_probe_that_cannot_run() {
    assert_eq!(
        WindowsCertManager.install_cert("root.crt", &[Answer::Failed]),
        Next::Done(Err(StoreError::Unavailable))
    );
}

#[test]
fn windows_delete_runs_delstore() {
    let m = WindowsCertManager;
    assert_eq!(
        m.delete_cert("root.crt", &[]),
        Next::Ask(command("certutil", &["-delstore", "Root", "root.crt"]))
    );
    assert_eq!(m.delete_cert("root.crt", &[Answer::Yes]), Next::Done(Ok(())));
    assert_eq!(
        m.delete_cert("root.crt", &[Answer::No]),
        Next::Done(Err(StoreError::DeleteFailed))
    );
}

#[test]
fn macos_delete_removes_by_name() {
    let m = MacOSCertManager;
    assert_eq!(
        m.delete_cert("proxylea_cert", &[]),
        Next::Ask(command(
            "sudo",
            &[
                "security",
                "delete-certificate",
                "-c",
                "proxylea_cert",
                "/Library/Keychains/System.keychain",
            ],
        ))
    );
    assert_eq!(
        m.delete_cert("proxylea_cert", &[Answer::No]),
        Next::Done(Err(StoreError::DeleteFailed))
    );
    assert_eq!(m.delete_cert("proxylea_cert", &[Answer::Yes]), Next::Done(Ok(())));
}

#[test]
fn linux_delete_removes_then_refreshes() {
    let m = LinuxCertManager;
    assert_eq!(
        m.delete_cert("root.crt", &[]),
        Next::Ask(command("sudo", &["rm", "/usr/local/share/ca-certificates/root.crt"]))
    );
    assert_eq!(
        m.delete_cert("root.crt", &[Answer::No]),
        Next::Done(Err(StoreError::RemoveFailed))
    );
    assert_eq!(
        m.delete_cert("root.crt", &[Answer::Yes]),
        Next::Ask(command("sudo", &["update-ca-certificates"]))
    );
    assert_eq!(
        m.delete_cert("root.crt", &[Answer::Yes, Answer::No]),
        Next::Done(Err(StoreError::RefreshFailed))
    );
    assert_eq!(
        m.delete_cert("root.crt", &[Answer::Yes, Answer::Failed]),
        Next::Done(Err(StoreError::Unavailable))
    );
    assert_eq!(m.delete_cert("root.crt", &[Answer::Yes, Answer::Yes]), Next::Done(Ok(())));
}

#[test]
fn answers_beyond_the_end_are_ignored() {
    assert_eq!(
        WindowsCertManager.delete_cert("root.crt", &[Answer::Yes, Answer::No, Answer::No]),
        Next::Done(Ok(()))
    );
    assert_eq!(
        LinuxCertManager.is_cert_installed("root.crt", &[Answer::No, Answer::Yes]),
        Next::Done(Ok(false))
    );
}

#[test]
fn unknown_system_is_unsupported() {
    assert_eq!(check_cert(None, &[]), Next::Done(Err(StoreError::Unsupported)));
    assert_eq!(install_cert(None, &[]), Next::Done(Err(StoreError::Unsupported)));
    assert_eq!(delete_cert(None, &[Answer::Yes]), Next::Done(Err(StoreError::Unsupported)));
}

#[test]
fn check_cert_asks_about_the_root_certificate() {
    assert_eq!(
        check_cert(Some(Platform::Windows), &[]),
        Next::Ask(command("certutil", &["-verifystore", "Root", "src/proxylea_cert.crt"]))
    );
    assert_eq!(
        check_cert(Some(Platform::MacOS), &[]),
        Next::Ask(command(
            "security",
            &["find-certificate", "-a", "-c", "proxylea_cert", "/Library/Keychains/System.keychain"],
        ))
    );
    assert_eq!(
        check_cert(Some(Platform::Linux), &[]),
        Next::Ask(Query::Exists {
            path: "/usr/local/share/ca-certificates/src/proxylea_cert.crt".to_string()
        })
    );
    assert_eq!(check_cert(Some(Platform::Linux), &[Answer::Yes]), Next::Done(Ok(true)));
    assert_eq!(check_cert(Some(Platform::Linux), &[Answer::No]), Next::Done(Ok(false)));
}

#[test]
fn install_cert_installs_the_root_certificate() {
    assert_eq!(
        install_cert(Some(Platform::Linux), &[Answer::No]),
        Next::Ask(command(
            "sudo",
            &["cp", "src/proxylea_cert.crt", "/usr/local/share/ca-certificates/"],
        ))
    );
    assert_eq!(
        install_cert(Some(Platform::Windows), &[Answer::No]),
        Next::Ask(command("certutil", &["-addstore", "Root", "src/proxylea_cert.crt"]))
    );
    assert_eq!(
        install_cert(Some(Platform::MacOS), &[Answer::No, Answer::Yes]),
        Next::Done(Ok(Installation::Installed))
    );
}

#[test]
fn delete_cert_removes_the_root_certificate() {
    assert_eq!(
        delete_cert(Some(Platform::Windows), &[]),
        Next::Ask(command("certutil", &["-delstore", "Root", "src/proxylea_cert.crt"]))
    );
    assert_eq!(
        delete_cert(Some(Platform::MacOS), &[]),
        Next::Ask(command(
            "sudo",
            &[
                "security",
                "delete-certificate",
                "-c",
                "proxylea_cert",
                "/Library/Keychains/System.keychain",
            ],
        ))
    );
    assert_eq!(
        delete_cert(Some(Platform::Linux), &[]),
        Next::Ask(command(
            "sudo",
            &["rm", "/usr/local/share/ca-certificates/src/proxylea_cert.crt"],
        ))
    );
}

fn every_run_of(length: usize) -> Vec<Vec<Answer>> {
    let choices = [Answer::Yes, Answer::No, Answer::Failed];
    let mut runs: Vec<Vec<Answer>> = vec![Vec::new()];
    for _ in 0..length {
        let mut longer = Vec::new();
        for run in &runs {
            for choice in choices {
                let mut next = run.clone();
                next.push(choice);
                longer.push(next);
            }
        }
        runs = longer;
    }
    runs
}

#[test]
fn every_operation_ends_within_three_answers() {
    for platform in [Platform::Windows, Platform::MacOS, Platform::Linux] {
        for run in every_run_of(1) {
            assert!(matches!(check_cert(Some(platform), &run), Next::Done(_)));
        }
        for run in every_run_of(2) {
            assert!(matches!(delete_cert(Some(platform), &run), Next::Done(_)));
        }
        for run in every_run_of(3) {
            assert!(matches!(install_cert(Some(platform), &run), Next::Done(_)));
        }
    }
}

#[test]
fn an_ended_operation_stays_ended() {
    for platform in [Platform::Windows, Platform::MacOS, Platform::Linux] {
        for run in every_run_of(3) {
            let ended = install_cert(Some(platform), &run);
            let mut longer = run.clone();
            longer.push(Answer::No);
            longer.push(Answer::Yes);
            assert_eq!(install_cert(Some(platform), &longer), ended);
        }
    }
}
