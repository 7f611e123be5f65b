//! What is known of the model file, and how a download is reported.

use crate::config::{DownloadProgress, DownloadStatus, ModelInfo, MODEL_EXPECTED_SIZE};
use vstd::prelude::*;
use vstd::string::StringExecFns;

verus! {

/// Name of the model.
pub const MODEL_NAME: &'static str = "ggml-large-v3-turbo";

/// A file of this size or less is not the model.
pub const MIN_MODEL_SIZE: u64 = 1_000_000_000;

/// Extension of the file that a download writes before it is complete.
pub const PARTIAL_EXTENSION: &'static str = "bin.tmp";

/// Reporter on the model file.
#[derive(Debug, Clone, Copy, PartialEq, Eq, Structural)]
pub struct ModelDownloader;

impl ModelDownloader {
    /// A reporter.
    pub fn new() -> (r: Self) {
        ModelDownloader
    }

    /// Tells whether the model is there: the file exists and is larger than
    /// `MIN_MODEL_SIZE`. `file_size` is the size of the file, `None` where
    /// there is none.
    pub fn is_present(&self, file_size: Option<u64>) -> (r: bool)
        ensures
            r == (file_size is Some && file_size->Some_0 > MIN_MODEL_SIZE),
    {
        match file_size {
            Some(size) => size > MIN_MODEL_SIZE,
            None => false,
        }
    }

    /// Tells whether an existing file passes for the model: it is at least
    /// `MIN_MODEL_SIZE` large.
    pub fn verify(&self, file_size: Option<u64>) -> (r: bool)
        ensures
            r == (file_size is Some && file_size->Some_0 >= MIN_MODEL_SIZE),
    {
        match file_size {
            Some(size) => size >= MIN_MODEL_SIZE,
            None => false,
        }
    }

    /// What is known of the model at `path` whose file has the size
    /// `file_size`, `None` where there is no file.
    pub fn info(&self, path: String, file_size: Option<u64>) -> (r: ModelInfo)
        ensures
            r.path == path,
            r.name@ == MODEL_NAME@,
            r.size_bytes == match file_size {
                Some(size) => size,
                None => 0,
            },
            r.verified == (file_size is Some && file_size->Some_0 > MIN_MODEL_SIZE),
    {
        let size_bytes: u64 = match file_size {
            Some(size) => size,
            None => 0,
        };
        ModelInfo {
            path,
            name: String::from_str(MODEL_NAME),
            size_bytes,
            verified: self.is_present(file_size),
        }
    }

    /// The total to report for a download: what the server announces, else
    /// the expected size of the model.
    pub fn total_size(&self, content_length: Option<u64>) -> (r: u64)
        ensures
            r == match content_length {
                Some(n) => n,
                None => MODEL_EXPECTED_SIZE,
            },
    {
        match content_length {
            Some(n) => n,
            None => MODEL_EXPECTED_SIZE,
        }
    }

    /// The report before anything is received.
    pub fn started(&self, total: u64, status: DownloadStatus) -> (r: DownloadProgress)
        ensures
            r == (DownloadProgress { downloaded: 0, total, status }),
    {
        DownloadProgress { downloaded: 0, total, status }
    }

    /// The report after `chunk_len` more bytes have been received. The count
    /// stops at the largest value.
    pub fn received(&self, before: DownloadProgress, chunk_len: usize) -> (r: DownloadProgress)
        ensures
            r.total == before.total,
            r.status == DownloadStatus::Downloading,
            r.downloaded == if before.downloaded + chunk_len > u64::MAX {
                u64::MAX
            } else {
                (before.downloaded + chunk_len) as u64
            },
            r.downloaded >= before.downloaded,
    {
        let room: u64 = u64::MAX - before.downloaded;
        let downloaded: u64 = if chunk_len as u64 > room {
            u64::MAX
        } else {
            before.downloaded + chunk_len as u64
        };
        DownloadProgress { downloaded, total: before.total, status: DownloadStatus::Downloading }
    }

    /// The report of a later stage, with the byte counts as they are.
    pub fn advanced(&self, before: DownloadProgress, status: DownloadStatus) -> (r:
        DownloadProgress)
        ensures
            r == (DownloadProgress { status, ..before }),
    {
        DownloadProgress { downloaded: before.downloaded, total: before.total, status }
    }
}

impl Default for ModelDownloader {
    fn default() -> (r: Self) {
        ModelDownloader
    }
}

} // verus!
