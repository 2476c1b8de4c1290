//! The boundary to the storage backend.
//!
//! The session engine never talks to storage itself. It says which operation
//! it needs, as a `StorageCall`; whoever runs the session performs the
//! operation and hands back what came of it, as a `StorageOutcome`.

use crate::error::StorageErrorKind;
use crate::handle_table::token_view;
use crate::protocol::response::name::{files_view, File, FileView};
use crate::try_buf::contents;
use bytes::Bytes;
use vstd::prelude::*;

verus! {

/// An operation that the session engine needs from storage.
#[derive(Debug, PartialEq)]
pub enum StorageCall {
    /// Open the object at `path` for reading.
    OpenRead { path: String },
    /// Open the object at `path` for writing.
    OpenWrite { path: String },
    /// Read up to `length` bytes from an open stream.
    ReadData { stream: String, offset: u64, length: u32 },
    /// Append `data` to an open stream.
    WriteData { stream: String, data: Bytes },
    /// Finish with a stream: flush what was written, let go of what was read.
    CloseStream { stream: String },
    /// List what lies under `prefix`: the page that `continuation_token`
    /// stands for, the first where there is none, of at most `max_results`
    /// entries.
    ListPrefix { prefix: String, continuation_token: Option<String>, max_results: u32 },
    /// Create the prefix `path`.
    CreateDir { path: String },
    /// Remove the prefix `path`.
    RemoveDir { path: String },
    /// Remove the object at `path`.
    RemoveFile { path: String },
    /// Move what is at `old_path` to `new_path`.
    Rename { old_path: String, new_path: String },
    /// Look up what is known of `path`.
    Metadata { path: String },
}

/// An operation on storage, as plain values.
pub enum StorageCallView {
    OpenRead { path: Seq<char> },
    OpenWrite { path: Seq<char> },
    ReadData { stream: Seq<char>, offset: u64, length: u32 },
    WriteData { stream: Seq<char>, data: Seq<u8> },
    CloseStream { stream: Seq<char> },
    ListPrefix { prefix: Seq<char>, continuation_token: Option<Seq<char>>, max_results: u32 },
    CreateDir { path: Seq<char> },
    RemoveDir { path: Seq<char> },
    RemoveFile { path: Seq<char> },
    Rename { old_path: Seq<char>, new_path: Seq<char> },
    Metadata { path: Seq<char> },
}

impl View for StorageCall {
    type V = StorageCallView;

    open spec fn view(&self) -> StorageCallView {
        match self {
            StorageCall::OpenRead { path } => StorageCallView::OpenRead { path: path@ },
            StorageCall::OpenWrite { path } => StorageCallView::OpenWrite { path: path@ },
            StorageCall::ReadData { stream, offset, length } => StorageCallView::ReadData {
                stream: stream@,
                offset: *offset,
                length: *length,
            },
            StorageCall::WriteData { stream, data } => StorageCallView::WriteData {
                stream: stream@,
                data: contents(*data),
            },
            StorageCall::CloseStream { stream } => StorageCallView::CloseStream {
                stream: stream@,
            },
            StorageCall::ListPrefix {
                prefix,
                continuation_token,
                max_results,
            } => StorageCallView::ListPrefix {
                prefix: prefix@,
                continuation_token: token_view(*continuation_token),
                max_results: *max_results,
            },
            StorageCall::CreateDir { path } => StorageCallView::CreateDir { path: path@ },
            StorageCall::RemoveDir { path } => StorageCallView::RemoveDir { path: path@ },
            StorageCall::RemoveFile { path } => StorageCallView::RemoveFile { path: path@ },
            StorageCall::Rename { old_path, new_path } => StorageCallView::Rename {
                old_path: old_path@,
                new_path: new_path@,
            },
            StorageCall::Metadata { path } => StorageCallView::Metadata { path: path@ },
        }
    }
}

/// What came of an operation on storage.
#[derive(Debug, PartialEq)]
pub enum StorageOutcome {
    /// The operation is done and has nothing to hand back.
    Done,
    /// A stream was opened; storage knows it by this name.
    Stream(String),
    /// Bytes were read. None at all means that the stream is at its end.
    Data(Vec<u8>),
    /// One page of a listing, and the token for the next page if there is
    /// one.
    Page { entries: Vec<File>, next_token: Option<String> },
    /// What is known of a path.
    Metadata(File),
    /// The operation failed.
    Failed(StorageErrorKind),
}

/// What came of an operation on storage, as plain values.
pub enum StorageOutcomeView {
    Done,
    Stream(Seq<char>),
    Data(Seq<u8>),
    Page { entries: Seq<FileView>, next_token: Option<Seq<char>> },
    Metadata(FileView),
    Failed(StorageErrorKind),
}

impl View for StorageOutcome {
    type V = StorageOutcomeView;

    open spec fn view(&self) -> StorageOutcomeView {
        match self {
            StorageOutcome::Done => StorageOutcomeView::Done,
            StorageOutcome::Stream(stream) => StorageOutcomeView::Stream(stream@),
            StorageOutcome::Data(data) => StorageOutcomeView::Data(data@),
            StorageOutcome::Page { entries, next_token } => StorageOutcomeView::Page {
                entries: files_view(entries@),
                next_token: token_view(*next_token),
            },
            StorageOutcome::Metadata(file) => StorageOutcomeView::Metadata(file@),
            StorageOutcome::Failed(kind) => StorageOutcomeView::Failed(*kind),
        }
    }
}

} // verus!
