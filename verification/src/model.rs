//! The records in which the result of a file's analysis is handed around.
//!
//! They are plain data. The library puts no rule on their fields: any value
//! of a field's type is a value.

use vstd::prelude::*;

verus! {

/// The outcome of one check made on a file.
#[derive(Clone, Debug, PartialEq, Eq)]
pub struct ScanResult {
    /// The name of the check that was made.
    pub check: String,
    /// How the check ended.
    pub status: String,
    /// How grave the finding is.
    pub severity: String,
    /// The finding in words.
    pub message: String,
}

/// Three digests of one file, each as a string.
#[derive(Clone, Debug, PartialEq, Eq)]
pub struct Hashes {
    /// The MD5 digest.
    pub md5: String,
    /// The SHA-1 digest.
    pub sha1: String,
    /// The SHA-256 digest.
    pub sha256: String,
}

/// What the analysis of one file answers.
#[derive(Clone, Debug, PartialEq, Eq)]
pub struct FileResponse {
    /// The file's name.
    pub file_name: String,
    /// The file's size in bytes.
    pub file_size: u64,
    /// The file's digests.
    pub hashes: Hashes,
    /// Whether the file is held to be malicious.
    pub is_malicious: bool,
    /// The outcome of every check made, in the order in which they were made.
    pub scan_results: Vec<ScanResult>,
    /// The threat level of the file as a whole.
    pub threat_level: String,
}

} // verus!
