//! Records that the API returns.
use vstd::prelude::*;

verus! {

/// The session record returned by the account-authorization call.
#[derive(Debug)]
pub struct Authorization {
    pub account_id: String,
    pub authorization_token: String,
    pub api_url: String,
    pub download_url: String,
    pub recommended_part_size: u64,
    pub absolute_minimum_part_size: u64,
}

/// A bucket: a named storage container with a visibility type.
#[derive(Debug)]
pub struct Bucket {
    pub bucket_id: String,
    pub bucket_name: String,
    pub bucket_type: String,
}

/// Metadata of a stored file.
#[derive(Debug)]
pub struct File {
    pub file_id: String,
    pub file_name: String,
    pub content_length: u64,
    pub content_sha1: String,
    pub upload_timestamp: u64,
}

/// A single-use upload target: the URL to send one file to, and the token
/// that authorizes that one upload.
#[derive(Debug)]
pub struct UploadUrl {
    pub url: String,
    pub authorization_token: String,
}

} // verus!
