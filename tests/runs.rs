use sugar_installer::installer::{
    exit_code, Action, Event, InstallConfig, InstallError, Installer, Platform, Stage, BINARY_NAME,
    DOWNLOAD_URL, FALLBACK_FOLDER, HOME_DRIVE_VAR, HOME_PATH_VAR, LOCAL_APP_DATA_VAR,
};

const PREFERRED: &str = "C:\\Users\\alice\\.cargo\\bin";
const FALLBACK: &str = "C:\\Users\\alice\\AppData\\Local\\SugarCLI";

fn advance(m: Installer, e: Event) -> (Installer, Action) {
    assert!(m.accepts(&e));
    m.step(e)
}

fn environment(drive: Option<&str>, home: Option<&str>, local: Option<&str>) -> Event {
    Event::EnvironmentRead {
        home_drive: drive.map(|s| s.to_string()),
        home_path: home.map(|s| s.to_string()),
        fallback_base: local.map(|s| s.to_string()),
    }
}

fn alice() -> Event {
    environment(Some("C:"), Some("\\Users\\alice"), Some("C:\\Users\\alice\\AppData\\Local"))
}

/// Runs up to the download, with the preferred directory present or not and
/// the fallback directory present or not.
fn to_download(preferred_exists: bool, fallback_exists: bool) -> (Installer, Vec<Action>) {
    let mut seen = Vec::new();
    let (m, a) = Installer::start(Platform::Windows, InstallConfig::sugar());
    seen.push(a);
    let (m, a) = advance(m, alice());
    seen.push(a);
    let (m, a) = advance(m, Event::DirectoryChecked(preferred_exists));
    if preferred_exists {
        seen.push(a);
        return (m, seen);
    }
    seen.push(a);
    let (m, a) = advance(m, Event::DirectoryChecked(fallback_exists));
    if fallback_exists {
        seen.push(a);
        return (m, seen);
    }
    seen.push(a);
    let (m, a) = advance(m, Event::DirectoryCreated(true));
    seen.push(a);
    (m, seen)
}

fn expect_finish_ok(a: Action, dir: &str) {
    match a {
        Action::Finish(Ok(d)) => assert_eq!(d, dir),
        other => panic!("unexpected action {:?}", other),
    }
}

#[test]
fn sugar_config_values() {
    let c = InstallConfig::sugar();
    assert_eq!(c.download_url, DOWNLOAD_URL);
    assert_eq!(c.binary_name, "sugar.exe");
    assert_eq!(c.fallback_variable, "LOCALAPPDATA");
    assert_eq!(c.fallback_folder, "SugarCLI");
    assert_eq!(BINARY_NAME, "sugar.exe");
    assert_eq!(FALLBACK_FOLDER, "SugarCLI");
}

#[test]
fn start_asks_for_environment() {
    let (m, a) = Installer::start(Platform::Windows, InstallConfig::sugar());
    assert!(matches!(m.stage, Stage::ReadingEnvironment));
    match a {
        Action::ReadEnvironment { home_drive, home_path, fallback_base } => {
            assert_eq!(home_drive, HOME_DRIVE_VAR);
            assert_eq!(home_path, HOME_PATH_VAR);
            assert_eq!(fallback_base, LOCAL_APP_DATA_VAR);
            assert_eq!(home_drive, "HOMEDRIVE");
            assert_eq!(home_path, "HOMEPATH");
        }
        other => panic!("unexpected action {:?}", other),
    }
}

#[test]
fn end_to_end_fallback_created_and_registered() {
    let (m, seen) = to_download(false, false);
    match &seen[1] {
        Action::CheckDirectory { path } => assert_eq!(path, PREFERRED),
        other => panic!("unexpected action {:?}", other),
    }
    match &seen[2] {
        Action::CheckDirectory { path } => assert_eq!(path, FALLBACK),
        other => panic!("unexpected action {:?}", other),
    }
    match &seen[3] {
        Action::CreateDirectory { path } => assert_eq!(path, FALLBACK),
        other => panic!("unexpected action {:?}", other),
    }
    match &seen[4] {
        Action::Download { url } => assert_eq!(url, DOWNLOAD_URL),
        other => panic!("unexpected action {:?}", other),
    }
    let (m, a) = advance(m, Event::Downloaded(Some(vec![0x4d, 0x5a, 1, 2])));
    match a {
        Action::WriteFile { path, contents } => {
            assert_eq!(path, "C:\\Users\\alice\\AppData\\Local\\SugarCLI\\sugar.exe");
            assert_eq!(contents, vec![0x4d, 0x5a, 1, 2]);
        }
        other => panic!("unexpected action {:?}", other),
    }
    let (m, a) = advance(m, Event::FileWritten(true));
    assert!(matches!(a, Action::ReadRegistration));
    let (m, a) = advance(m, Event::RegistrationRead(Some("C:\\Windows".to_string())));
    match a {
        Action::WriteRegistration { value } => {
            assert_eq!(value, "C:\\Windows;C:\\Users\\alice\\AppData\\Local\\SugarCLI");
            assert_eq!(value.matches(FALLBACK).count(), 1);
        }
        other => panic!("unexpected action {:?}", other),
    }
    let (m, a) = advance(m, Event::RegistrationWritten(true));
    assert!(matches!(a, Action::Broadcast));
    let (m, a) = advance(m, Event::Broadcasted(false));
    assert!(matches!(m.stage, Stage::Done));
    match &a {
        Action::Finish(outcome) => assert_eq!(exit_code(outcome), 0),
        other => panic!("unexpected action {:?}", other),
    }
    expect_finish_ok(a, FALLBACK);
}

#[test]
fn preferred_dir_used_when_present() {
    let (m, seen) = to_download(true, false);
    assert_eq!(seen.len(), 3);
    assert!(seen.iter().all(|a| !matches!(a, Action::CreateDirectory { .. })));
    assert!(matches!(seen[2], Action::Download { .. }));
    let (m, a) = advance(m, Event::Downloaded(Some(vec![7])));
    match a {
        Action::WriteFile { path, .. } => assert_eq!(path, "C:\\Users\\alice\\.cargo\\bin\\sugar.exe"),
        other => panic!("unexpected action {:?}", other),
    }
    let (m, _) = advance(m, Event::FileWritten(true));
    let (m, a) = advance(m, Event::RegistrationRead(Some(format!("C:\\Windows;{}", PREFERRED))));
    assert!(matches!(a, Action::Broadcast));
    let (_, a) = advance(m, Event::Broadcasted(true));
    expect_finish_ok(a, PREFERRED);
}

#[test]
fn existing_fallback_is_not_created() {
    let (m, seen) = to_download(false, true);
    assert_eq!(seen.len(), 4);
    assert!(seen.iter().all(|a| !matches!(a, Action::CreateDirectory { .. })));
    let (_, a) = advance(m, Event::Downloaded(Some(vec![1, 2, 3])));
    match a {
        Action::WriteFile { path, .. } => assert_eq!(path, format!("{}\\sugar.exe", FALLBACK)),
        other => panic!("unexpected action {:?}", other),
    }
}

#[test]
fn second_install_leaves_registration_alone() {
    let mut registry = "C:\\Windows".to_string();
    for round in 0..2 {
        let (m, _) = to_download(false, round == 1);
        let (m, _) = advance(m, Event::Downloaded(Some(vec![9, 9])));
        let (m, _) = advance(m, Event::FileWritten(true));
        let (m, a) = advance(m, Event::RegistrationRead(Some(registry.clone())));
        let m = match a {
            Action::WriteRegistration { value } => {
                assert_eq!(round, 0);
                registry = value;
                let (m, a) = advance(m, Event::RegistrationWritten(true));
                assert!(matches!(a, Action::Broadcast));
                m
            }
            Action::Broadcast => {
                assert_eq!(round, 1);
                m
            }
            other => panic!("unexpected action {:?}", other),
        };
        let (_, a) = advance(m, Event::Broadcasted(true));
        expect_finish_ok(a, FALLBACK);
    }
    assert_eq!(registry, format!("C:\\Windows;{}", FALLBACK));
    assert_eq!(registry.matches(FALLBACK).count(), 1);
}

#[test]
fn download_failure_stops_before_writing() {
    let (m, seen) = to_download(false, false);
    assert!(seen.iter().all(|a| !matches!(a, Action::WriteFile { .. } | Action::WriteRegistration { .. })));
    let (m, a) = advance(m, Event::Downloaded(None));
    assert!(matches!(a, Action::Finish(Err(InstallError::DownloadError))));
    assert!(matches!(m.stage, Stage::Done));
    assert!(!m.accepts(&Event::FileWritten(true)));
    assert!(!m.accepts(&Event::RegistrationWritten(true)));
    if let Action::Finish(outcome) = &a {
        assert_eq!(exit_code(outcome), 1);
    }
}

#[test]
fn registration_read_failure_keeps_file() {
    let (m, _) = to_download(false, false);
    let (m, _) = advance(m, Event::Downloaded(Some(vec![5])));
    let (m, _) = advance(m, Event::FileWritten(true));
    let (m, a) = advance(m, Event::RegistrationRead(None));
    match a {
        Action::Finish(Err(InstallError::RegistrationReadWriteError(p))) => {
            assert_eq!(p, format!("{}\\sugar.exe", FALLBACK))
        }
        other => panic!("unexpected action {:?}", other),
    }
    assert!(matches!(m.stage, Stage::Done));
}

#[test]
fn registration_write_failure_keeps_file() {
    let (m, _) = to_download(true, false);
    let (m, _) = advance(m, Event::Downloaded(Some(vec![5])));
    let (m, _) = advance(m, Event::FileWritten(true));
    let (m, a) = advance(m, Event::RegistrationRead(Some("C:\\Windows".to_string())));
    assert!(matches!(a, Action::WriteRegistration { .. }));
    let (_, a) = advance(m, Event::RegistrationWritten(false));
    match a {
        Action::Finish(Err(InstallError::RegistrationReadWriteError(p))) => {
            assert_eq!(p, format!("{}\\sugar.exe", PREFERRED))
        }
        other => panic!("unexpected action {:?}", other),
    }
}

#[test]
fn unsupported_platform_finishes_at_once() {
    let (m, a) = Installer::start(Platform::Unsupported, InstallConfig::sugar());
    assert!(matches!(m.stage, Stage::Done));
    assert!(!m.accepts(&alice()));
    assert!(!m.accepts(&Event::Downloaded(Some(vec![1]))));
    match &a {
        Action::Finish(outcome) => {
            assert!(matches!(outcome, Err(InstallError::UnsupportedPlatform)));
            assert_ne!(exit_code(outcome), 0);
        }
        other => panic!("unexpected action {:?}", other),
    }
}

#[test]
fn missing_environment_variables() {
    let cases = [
        (environment(None, Some("\\Users\\alice"), Some("C:\\L")), "HOMEDRIVE"),
        (environment(None, None, None), "HOMEDRIVE"),
        (environment(Some("C:"), None, Some("C:\\L")), "HOMEPATH"),
        (environment(Some("C:"), Some("\\Users\\alice"), None), "LOCALAPPDATA"),
    ];
    for (event, name) in cases {
        let (m, _) = Installer::start(Platform::Windows, InstallConfig::sugar());
        let (m, a) = advance(m, event);
        assert!(matches!(m.stage, Stage::Done));
        match a {
            Action::Finish(Err(InstallError::MissingEnvironmentVariable(n))) => assert_eq!(n, name),
            other => panic!("unexpected action {:?}", other),
        }
    }
}

#[test]
fn configured_fallback_location() {
    let config = InstallConfig::new("https://example.com/tool.exe", "tool.exe", "ProgramFiles", "Tool");
    let (m, a) = Installer::start(Platform::Windows, config);
    assert!(matches!(a, Action::ReadEnvironment { ref fallback_base, .. } if fallback_base == "ProgramFiles"));
    let (m, _) = advance(m, environment(Some("C:"), Some("\\Users\\bob"), Some("C:\\Program Files")));
    let (m, a) = advance(m, Event::DirectoryChecked(false));
    match a {
        Action::CheckDirectory { path } => assert_eq!(path, "C:\\Program Files\\Tool"),
        other => panic!("unexpected action {:?}", other),
    }
    let (m, _) = advance(m, Event::DirectoryChecked(true));
    let (_, a) = advance(m, Event::Downloaded(Some(vec![0])));
    match a {
        Action::WriteFile { path, .. } => assert_eq!(path, "C:\\Program Files\\Tool\\tool.exe"),
        other => panic!("unexpected action {:?}", other),
    }
}

#[test]
fn directory_creation_failure() {
    let (m, _) = Installer::start(Platform::Windows, InstallConfig::sugar());
    let (m, _) = advance(m, alice());
    let (m, _) = advance(m, Event::DirectoryChecked(false));
    let (m, _) = advance(m, Event::DirectoryChecked(false));
    let (m, a) = advance(m, Event::DirectoryCreated(false));
    assert!(matches!(m.stage, Stage::Done));
    match a {
        Action::Finish(Err(InstallError::DirectoryCreationError(p))) => assert_eq!(p, FALLBACK),
        other => panic!("unexpected action {:?}", other),
    }
}

#[test]
fn file_write_failure() {
    let (m, _) = to_download(true, false);
    let (m, _) = advance(m, Event::Downloaded(Some(vec![1])));
    let (m, a) = advance(m, Event::FileWritten(false));
    assert!(matches!(m.stage, Stage::Done));
    match a {
        Action::Finish(Err(InstallError::FileWriteError(p))) => assert_eq!(p, format!("{}\\sugar.exe", PREFERRED)),
        other => panic!("unexpected action {:?}", other),
    }
}

#[test]
fn out_of_order_event_not_accepted() {
    let (m, _) = Installer::start(Platform::Windows, InstallConfig::sugar());
    assert!(!m.accepts(&Event::DirectoryChecked(true)));
    assert!(!m.accepts(&Event::Broadcasted(true)));
    let (m, _) = advance(m, alice());
    assert!(!m.accepts(&alice()));
    assert!(m.accepts(&Event::DirectoryChecked(false)));
}
