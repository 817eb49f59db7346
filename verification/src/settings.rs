//! The settings record that a launch reads its destination directory from,
//! the record of a first run, and the errors of loading and saving it.

use vstd::prelude::*;
use vstd::string::*;

verus! {

/// The settings of the application.
#[derive(Clone, Debug)]
pub struct Settings {
    /// The directory that downloads go to.
    pub download_path: String,
    /// Whether thumbnails are fetched with playlist entries.
    pub enable_thumbnails: bool,
}

/// The settings as plain values.
pub struct SettingsView {
    pub download_path: Seq<char>,
    pub enable_thumbnails: bool,
}

impl View for Settings {
    type V = SettingsView;

    open spec fn view(&self) -> SettingsView {
        SettingsView {
            download_path: self.download_path@,
            enable_thumbnails: self.enable_thumbnails,
        }
    }
}

/// Whether thumbnails are fetched when a stored record does not say.
pub fn default_enable_thumbnails() -> (enabled: bool)
    ensures
        enabled,
{
    true
}

/// Why settings could not be loaded or saved. A `String` inside is the cause
/// as the system gave it.
#[derive(Clone, Debug)]
pub enum SettingsError {
    NoConfigDir,
    ReadFailed(String),
    ParseFailed(String),
    NoDownloadDir,
    InvalidDownloadPath,
    CreateDirFailed(String),
    SerializeFailed(String),
    WriteFailed(String),
}

/// Why settings could not be loaded or saved, as plain values.
pub enum SettingsErrorView {
    NoConfigDir,
    ReadFailed(Seq<char>),
    ParseFailed(Seq<char>),
    NoDownloadDir,
    InvalidDownloadPath,
    CreateDirFailed(Seq<char>),
    SerializeFailed(Seq<char>),
    WriteFailed(Seq<char>),
}

impl View for SettingsError {
    type V = SettingsErrorView;

    open spec fn view(&self) -> SettingsErrorView {
        match self {
            SettingsError::NoConfigDir => SettingsErrorView::NoConfigDir,
            SettingsError::ReadFailed(cause) => SettingsErrorView::ReadFailed(cause@),
            SettingsError::ParseFailed(cause) => SettingsErrorView::ParseFailed(cause@),
            SettingsError::NoDownloadDir => SettingsErrorView::NoDownloadDir,
            SettingsError::InvalidDownloadPath => SettingsErrorView::InvalidDownloadPath,
            SettingsError::CreateDirFailed(cause) => SettingsErrorView::CreateDirFailed(cause@),
            SettingsError::SerializeFailed(cause) => SettingsErrorView::SerializeFailed(cause@),
            SettingsError::WriteFailed(cause) => SettingsErrorView::WriteFailed(cause@),
        }
    }
}

/// The text of an error.
pub open spec fn settings_error_text(error: SettingsErrorView) -> Seq<char> {
    match error {
        SettingsErrorView::NoConfigDir => "Could not determine the app config directory."@,
        SettingsErrorView::ReadFailed(cause) => "Failed to read settings file: "@ + cause,
        SettingsErrorView::ParseFailed(cause) => "Failed to parse settings file: "@ + cause,
        SettingsErrorView::NoDownloadDir => "Could not determine the default download directory."@,
        SettingsErrorView::InvalidDownloadPath => "Default download path contains invalid characters."@,
        SettingsErrorView::CreateDirFailed(cause) => "Failed to create settings directory: "@
            + cause,
        SettingsErrorView::SerializeFailed(cause) => "Failed to serialize settings: "@ + cause,
        SettingsErrorView::WriteFailed(cause) => "Failed to write settings file: "@ + cause,
    }
}

impl SettingsError {
    /// The text of the error, for the caller.
    pub fn message(&self) -> (text: String)
        ensures
            text@ == settings_error_text(self@),
    {
        match self {
            SettingsError::NoConfigDir => String::from_str(
                "Could not determine the app config directory.",
            ),
            SettingsError::ReadFailed(cause) => String::from_str(
                "Failed to read settings file: ",
            ).concat(cause.as_str()),
            SettingsError::ParseFailed(cause) => String::from_str(
                "Failed to parse settings file: ",
            ).concat(cause.as_str()),
            SettingsError::NoDownloadDir => String::from_str(
                "Could not determine the default download directory.",
            ),
            SettingsError::InvalidDownloadPath => String::from_str(
                "Default download path contains invalid characters.",
            ),
            SettingsError::CreateDirFailed(cause) => String::from_str(
                "Failed to create settings directory: ",
            ).concat(cause.as_str()),
            SettingsError::SerializeFailed(cause) => String::from_str(
                "Failed to serialize settings: ",
            ).concat(cause.as_str()),
            SettingsError::WriteFailed(cause) => String::from_str(
                "Failed to write settings file: ",
            ).concat(cause.as_str()),
        }
    }
}

/// What looking for the platform's download directory gave.
#[derive(Clone, Debug)]
pub enum DirLookup {
    /// The platform names no such directory.
    Unknown,
    /// It names one, but its path is not text.
    NotText,
    /// It names this one.
    Found(String),
}

/// The record of a first run, given what looking for the platform's
/// download directory gave.
pub open spec fn first_run(lookup: DirLookup) -> Result<SettingsView, SettingsErrorView> {
    match lookup {
        DirLookup::Unknown => Err(SettingsErrorView::NoDownloadDir),
        DirLookup::NotText => Err(SettingsErrorView::InvalidDownloadPath),
        DirLookup::Found(path) => Ok(
            SettingsView { download_path: path@, enable_thumbnails: true },
        ),
    }
}

/// A loaded record or an error, as plain values.
pub open spec fn loaded(outcome: Result<Settings, SettingsError>) -> Result<
    SettingsView,
    SettingsErrorView,
> {
    match outcome {
        Ok(settings) => Ok(settings@),
        Err(error) => Err(error@),
    }
}

/// The record of a first run, given what looking for the platform's
/// download directory gave: downloads go to that directory and thumbnails
/// are on. Without such a directory there is no record.
pub fn first_run_settings(lookup: DirLookup) -> (outcome: Result<Settings, SettingsError>)
    ensures
        loaded(outcome) == first_run(lookup),
{
    match lookup {
        DirLookup::Unknown => Err(SettingsError::NoDownloadDir),
        DirLookup::NotText => Err(SettingsError::InvalidDownloadPath),
        DirLookup::Found(path) => Ok(
            Settings { download_path: path, enable_thumbnails: default_enable_thumbnails() },
        ),
    }
}

} // verus!
