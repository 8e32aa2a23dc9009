use vstd::prelude::*;

verus! {

/// An account's login.
#[derive(Clone, Debug, PartialEq, Eq, PartialOrd, Ord)]
pub struct Credentials {
    pub username: String,
    pub password: String,
}

/// What was found at the credentials file's path.
#[derive(Clone, Debug, PartialEq, Eq)]
pub enum CredentialsFile {
    /// The file was read and holds a login.
    Parsed(Credentials),
    /// The file was read but does not hold a login.
    Malformed,
    /// There is no file.
    Missing,
    /// The file exists but could not be read.
    Unreadable,
}

/// Why no login could be had.
#[derive(Clone, Copy, Debug, PartialEq, Eq, Structural, Hash)]
pub enum CredentialsFailure {
    Malformed,
    /// No file, and not both a username and a password were given.
    NotProvided,
    Unreadable,
}

/// What to do about the login.
#[derive(Clone, Debug, PartialEq, Eq)]
pub enum CredentialsPlan {
    /// Use the login read from the file.
    Use(Credentials),
    /// Write this login to a new file, then use it.
    Create(Credentials),
    /// Give up.
    Fail(CredentialsFailure),
}

/// Decides where the login comes from: a readable file wins; with no file, the username and
/// password given are stored, if both were given.
pub fn plan_credentials(file: CredentialsFile, username: Option<String>, password: Option<String>) -> (r:
    CredentialsPlan)
    ensures
        match file {
            CredentialsFile::Parsed(c) => r == CredentialsPlan::Use(c),
            CredentialsFile::Malformed => r == CredentialsPlan::Fail(CredentialsFailure::Malformed),
            CredentialsFile::Unreadable => r == CredentialsPlan::Fail(
                CredentialsFailure::Unreadable,
            ),
            CredentialsFile::Missing => match (username, password) {
                (Some(u), Some(p)) => r == CredentialsPlan::Create(
                    Credentials { username: u, password: p },
                ),
                _ => r == CredentialsPlan::Fail(CredentialsFailure::NotProvided),
            },
        },
{
    match file {
        CredentialsFile::Parsed(c) => CredentialsPlan::Use(c),
        CredentialsFile::Malformed => CredentialsPlan::Fail(CredentialsFailure::Malformed),
        CredentialsFile::Unreadable => CredentialsPlan::Fail(CredentialsFailure::Unreadable),
        CredentialsFile::Missing => match (username, password) {
            (Some(username), Some(password)) => CredentialsPlan::Create(
                Credentials { username, password },
            ),
            _ => CredentialsPlan::Fail(CredentialsFailure::NotProvided),
        },
    }
}

} // verus!
