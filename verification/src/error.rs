//! The errors that the library reports, and the message that goes with each.

use vstd::prelude::*;

verus! {

/// Every way in which an operation of the library can be refused.
#[derive(Debug, Clone, PartialEq, Eq)]
pub enum InqError {
    /// Neither a cookie file nor a full user/password pair was given.
    MissingRpcCredentials,
    /// `bitcoind` is on none of the searched directories.
    BitcoindNotFound,
    /// `bitcoin-cli` is on none of the searched directories.
    BitcoinCliNotFound,
    /// The process that was asked to terminate did not terminate.
    TerminationFailed(u32),
    /// Fetching the Inquisition release list did not succeed.
    ReleaseListUnavailable,
    /// No release in the list is marked as the latest one.
    LatestReleaseUnknown,
    /// The requested tag matches no release (the requested text).
    UnknownReleaseTag(String),
    /// No asset suffix is known for the host operating system and architecture.
    UnsupportedPlatform,
    /// The resolved tag has no release entry (the tag).
    ReleaseMetadataMissing(String),
    /// The release holds no asset of the expected name (the asset name).
    AssetNotFound(String),
    /// `gh release download` did not succeed.
    GhDownloadFailed,
    /// The `curl` download did not succeed.
    CurlDownloadFailed,
    /// A signet challenge was given for a chain other than signet.
    SignetChallengeRequiresSignet,
    /// `bitcoind` exited with a non-zero status.
    BitcoindFailed,
    /// No local node could be reached through the default URLs and cookie files.
    AutoDetectFailed,
}

/// The text that describes an error to a user.
pub open spec fn error_message(e: InqError) -> Seq<char> {
    match e {
        InqError::MissingRpcCredentials =>
            "provide --cookie-file, both --rpc-user and --rpc-password, or use auto-detect"@,
        InqError::BitcoindNotFound => "could not find bitcoind on PATH"@,
        InqError::BitcoinCliNotFound => "could not find bitcoin-cli on PATH"@,
        InqError::TerminationFailed(pid) => "failed to terminate process "@ + crate::text::decimal(
            pid as nat,
        ),
        InqError::ReleaseListUnavailable => "failed to fetch Inquisition release list"@,
        InqError::LatestReleaseUnknown => "could not determine latest Inquisition release"@,
        InqError::UnknownReleaseTag(tag) => "unknown Inquisition release tag: "@ + tag@,
        InqError::UnsupportedPlatform => "unsupported platform for Inquisition release assets"@,
        InqError::ReleaseMetadataMissing(tag) => "release metadata missing for "@ + tag@,
        InqError::AssetNotFound(name) => "no matching asset found for "@ + name@,
        InqError::GhDownloadFailed => "gh release download failed"@,
        InqError::CurlDownloadFailed => "curl download failed"@,
        InqError::SignetChallengeRequiresSignet =>
            "--signetchallenge is only valid with --chain=signet"@,
        InqError::BitcoindFailed => "bitcoind exited with a non-zero status"@,
        InqError::AutoDetectFailed =>
            "could not auto-detect a local Bitcoin Core node; pass --rpc-url and auth flags explicitly"@,
    }
}

impl InqError {
    /// The message of this error, as a user reads it.
    pub fn message(&self) -> (s: String)
        ensures
            s@ == error_message(*self),
    {
        match self {
            InqError::MissingRpcCredentials => String::from_str(
                "provide --cookie-file, both --rpc-user and --rpc-password, or use auto-detect",
            ),
            InqError::BitcoindNotFound => String::from_str("could not find bitcoind on PATH"),
            InqError::BitcoinCliNotFound => String::from_str("could not find bitcoin-cli on PATH"),
            InqError::TerminationFailed(pid) => {
                let mut s = String::from_str("failed to terminate process ");
                let digits = crate::text::decimal_string(*pid);
                s.append(digits.as_str());
                s
            },
            InqError::ReleaseListUnavailable => String::from_str(
                "failed to fetch Inquisition release list",
            ),
            InqError::LatestReleaseUnknown => String::from_str(
                "could not determine latest Inquisition release",
            ),
            InqError::UnknownReleaseTag(tag) => {
                let mut s = String::from_str("unknown Inquisition release tag: ");
                s.append(tag.as_str());
                s
            },
            InqError::UnsupportedPlatform => String::from_str(
                "unsupported platform for Inquisition release assets",
            ),
            InqError::ReleaseMetadataMissing(tag) => {
                let mut s = String::from_str("release metadata missing for ");
                s.append(tag.as_str());
                s
            },
            InqError::AssetNotFound(name) => {
                let mut s = String::from_str("no matching asset found for ");
                s.append(name.as_str());
                s
            },
            InqError::GhDownloadFailed => String::from_str("gh release download failed"),
            InqError::CurlDownloadFailed => String::from_str("curl download failed"),
            InqError::SignetChallengeRequiresSignet => String::from_str(
                "--signetchallenge is only valid with --chain=signet",
            ),
            InqError::BitcoindFailed => String::from_str("bitcoind exited with a non-zero status"),
            InqError::AutoDetectFailed => String::from_str(
                "could not auto-detect a local Bitcoin Core node; pass --rpc-url and auth flags explicitly",
            ),
        }
    }
}

} // verus!
