use vstd::prelude::*;

verus! {

/// Every way a workflow of this tool can fail.
///
/// The three variants that carry bytes hold the standard-error output of
/// the external tool whose non-zero exit caused the failure.
#[derive(Debug, Clone, PartialEq, Eq)]
pub enum Error {
    /// The SSH directory could not be resolved because the home-directory
    /// setting is absent from the environment.
    ConfigurationError,
    /// A key file already exists at a path that `add` would create.
    AlreadyExists,
    /// A key file expected on disk was absent when `remove` tried to
    /// delete it.
    FileNotFound,
    /// No editor could be resolved and launched for an edit step.
    EditorUnavailable,
    /// The agent add/remove tool exited with a non-zero status.
    RegistrationError(Vec<u8>),
    /// The public-key derivation tool exited with a non-zero status.
    DerivationError(Vec<u8>),
    /// The passphrase-change flow exited with a non-zero status.
    PasswordError(Vec<u8>),
}

} // verus!
