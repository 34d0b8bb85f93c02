use vstd::prelude::*;

verus! {

/// Everything that can end an update attempt. No error is retried: each one is
/// fatal to the attempt and leaves the device on its current image.
#[derive(Clone, Copy, Debug, PartialEq, Eq, Structural)]
pub enum UpdateError {
    /// The release feed or an asset could not be fetched.
    Network,
    /// The release feed body is not the expected JSON document.
    JsonParse,
    /// The running version or a release tag is not a semantic version.
    VersionFormat,
    /// A redirect response carried no `Location` header.
    MissingRedirectTarget,
    /// The partition service failed while beginning, writing, finalizing or
    /// selecting the boot target.
    Flash,
    /// The boot state could not be queried or confirmed.
    Platform,
}

impl UpdateError {
    /// A short human-readable description of the error.
    pub fn describe(&self) -> (text: String)
        ensures
            text@ == (match *self {
                UpdateError::Network => "network error"@,
                UpdateError::JsonParse => "malformed release feed"@,
                UpdateError::VersionFormat => "version is not a semantic version"@,
                UpdateError::MissingRedirectTarget => "redirect without a Location header"@,
                UpdateError::Flash => "flash partition service failed"@,
                UpdateError::Platform => "boot state service failed"@,
            }),
    {
        match self {
            UpdateError::Network => "network error".to_owned(),
            UpdateError::JsonParse => "malformed release feed".to_owned(),
            UpdateError::VersionFormat => "version is not a semantic version".to_owned(),
            UpdateError::MissingRedirectTarget => "redirect without a Location header".to_owned(),
            UpdateError::Flash => "flash partition service failed".to_owned(),
            UpdateError::Platform => "boot state service failed".to_owned(),
        }
    }
}

} // verus!
