use download_supervisor::settings::{
    default_enable_thumbnails, first_run_settings, DirLookup, Settings, SettingsError,
};

fn s(text: &str) -> String {
    String::from(text)
}

#[test]
fn thumbnails_are_on_by_default() {
    assert!(default_enable_thumbnails());
}

#[test]
fn first_run_uses_the_platform_directory() {
    let settings = first_run_settings(DirLookup::Found(s("/home/alice/Downloads")))
        .expect("a directory was found");
    assert_eq!(settings.download_path, "/home/alice/Downloads");
    assert!(settings.enable_thumbnails);
}

#[test]
fn first_run_without_a_directory_is_an_error() {
    match first_run_settings(DirLookup::Unknown) {
        Err(error) => {
            assert!(matches!(error, SettingsError::NoDownloadDir));
            assert_eq!(error.message(), "Could not determine the default download directory.");
        }
        Ok(_) => panic!("no directory was found"),
    }
}

#[test]
fn first_run_with_a_path_that_is_not_text_is_an_error() {
    match first_run_settings(DirLookup::NotText) {
        Err(error) => {
            assert!(matches!(error, SettingsError::InvalidDownloadPath));
            assert_eq!(error.message(), "Default download path contains invalid characters.");
        }
        Ok(_) => panic!("the path is not text"),
    }
}

#[test]
fn settings_can_be_copied() {
    let settings = Settings { download_path: s("/data"), enable_thumbnails: false };
    let copy = settings.clone();
    assert_eq!(copy.download_path, "/data");
    assert!(!copy.enable_thumbnails);
}

#[test]
fn settings_error_messages() {
    assert_eq!(
        SettingsError::NoConfigDir.message(),
        "Could not determine the app config directory."
    );
    assert_eq!(
        SettingsError::ReadFailed(s("denied")).message(),
        "Failed to read settings file: denied"
    );
    assert_eq!(
        SettingsError::ParseFailed(s("EOF while parsing")).message(),
        "Failed to parse settings file: EOF while parsing"
    );
    assert_eq!(
        SettingsError::CreateDirFailed(s("read-only")).message(),
        "Failed to create settings directory: read-only"
    );
    assert_eq!(
        SettingsError::SerializeFailed(s("x")).message(),
        "Failed to serialize settings: x"
    );
    assert_eq!(
        SettingsError::WriteFailed(s("disk full")).message(),
        "Failed to write settings file: disk full"
    );
}
