//! Typed errors for every way a credential action can fail.

use vstd::prelude::*;

verus! {

use vstd::string::StringExecFns;

/// Everything that can go wrong while performing one credential action.
///
/// The string payloads carry the diagnostic the unverified driver observed
/// (an exit status rendering, an OS error text, a parse diagnostic, the
/// offending option or index URL), so the final message can name it.
#[derive(Debug)]
pub enum CredentialError {
    /// No vault command-line tool could be started on this host.
    ToolNotFound,
    /// A vault process could not be spawned.
    SpawnFailed(String),
    /// Writing to or reading from a vault process failed.
    IoFailed(String),
    /// A vault process exited non-zero; the payload renders its status.
    CommandExit(String),
    /// The vault's unlock subcommand exited non-zero.
    SigninFailed(String),
    /// More than one vault entry matches one registry index URL.
    AmbiguousEntry(String),
    /// The vault's list output did not parse as a sequence of items.
    MalformedResponse(String),
    /// No vault entry matches the registry on a fetch or remove action.
    NotFound,
    /// The requested credential action is not implemented.
    UnsupportedOperation,
    /// A provider option that this program does not know.
    UnknownOption(String),
    /// A provider option that needs a value came last.
    MissingOptionValue(String),
    /// A positional argument was given to the provider.
    TooManyArguments,
}

impl CredentialError {
    /// The descriptive text for this error, including the underlying status
    /// or diagnostic where one was captured.
    pub fn message(&self) -> (r: String)
        ensures
            r@ == self.spec_message(),
    {
        match self {
            CredentialError::ToolNotFound => "could not find the Bitwarden CLI".to_owned(),
            CredentialError::SpawnFailed(e) => "failed to spawn `bw`: ".to_owned().concat(
                e.as_str(),
            ),
            CredentialError::IoFailed(e) => "failed to read `bw` output: ".to_owned().concat(
                e.as_str(),
            ),
            CredentialError::CommandExit(s) => "`bw` command exit error: ".to_owned().concat(
                s.as_str(),
            ),
            CredentialError::SigninFailed(s) => "failed to run `bw login`: ".to_owned().concat(
                s.as_str(),
            ),
            CredentialError::AmbiguousEntry(url) => "too many Bitwarden logins match registry `"
                .to_owned().concat(url.as_str()).concat(
                "`, consider deleting the excess entries",
            ),
            CredentialError::MalformedResponse(e) =>
                "failed to deserialize JSON from Bitwarden list: ".to_owned().concat(e.as_str()),
            CredentialError::NotFound => "no token found".to_owned(),
            CredentialError::UnsupportedOperation => "operation not supported".to_owned(),
            CredentialError::UnknownOption(s) => "unknown option ".to_owned().concat(s.as_str()),
            CredentialError::MissingOptionValue(s) => s.as_str().to_owned().concat(
                " needs an arg",
            ),
            CredentialError::TooManyArguments => "too many arguments".to_owned(),
        }
    }

    /// What [`Self::message`] returns, stated over views.
    pub open spec fn spec_message(&self) -> Seq<char> {
        match self {
            CredentialError::ToolNotFound => "could not find the Bitwarden CLI"@,
            CredentialError::SpawnFailed(e) => "failed to spawn `bw`: "@ + e@,
            CredentialError::IoFailed(e) => "failed to read `bw` output: "@ + e@,
            CredentialError::CommandExit(s) => "`bw` command exit error: "@ + s@,
            CredentialError::SigninFailed(s) => "failed to run `bw login`: "@ + s@,
            CredentialError::AmbiguousEntry(url) => "too many Bitwarden logins match registry `"@
                + url@ + "`, consider deleting the excess entries"@,
            CredentialError::MalformedResponse(e) => "failed to deserialize JSON from Bitwarden list: "@
                + e@,
            CredentialError::NotFound => "no token found"@,
            CredentialError::UnsupportedOperation => "operation not supported"@,
            CredentialError::UnknownOption(s) => "unknown option "@ + s@,
            CredentialError::MissingOptionValue(s) => s@ + " needs an arg"@,
            CredentialError::TooManyArguments => "too many arguments"@,
        }
    }
}

} // verus!
