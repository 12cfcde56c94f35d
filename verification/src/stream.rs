//! What is kept of an unfinished transfer so that it can go on later.

use vstd::prelude::*;

use crate::text::text_equal;

verus! {

/// How far a transfer of a file has come.
#[derive(Debug, PartialEq, Eq)]
pub struct ResumeCheckpoint<S = String> {
    pub file_name: S,
    pub file_size: u64,
    pub chunk_size: usize,
    pub next_sequence: u32,
    pub bytes_written: u64,
}

impl View for ResumeCheckpoint {
    type V = ResumeCheckpoint<Seq<char>>;

    open spec fn view(&self) -> ResumeCheckpoint<Seq<char>> {
        ResumeCheckpoint {
            file_name: self.file_name@,
            file_size: self.file_size,
            chunk_size: self.chunk_size,
            next_sequence: self.next_sequence,
            bytes_written: self.bytes_written,
        }
    }
}

/// The checkpoint of a transfer that has not begun.
pub open spec fn fresh_checkpoint(
    file_name: Seq<char>,
    file_size: u64,
    chunk_size: usize,
) -> ResumeCheckpoint<Seq<char>> {
    ResumeCheckpoint { file_name, file_size, chunk_size, next_sequence: 0, bytes_written: 0 }
}

/// A checkpoint that has come as far as given.
pub open spec fn advanced(
    checkpoint: ResumeCheckpoint<Seq<char>>,
    next_sequence: u32,
    bytes_written: u64,
) -> ResumeCheckpoint<Seq<char>> {
    ResumeCheckpoint { next_sequence, bytes_written, ..checkpoint }
}

/// Whether a checkpoint is of this file, cut into chunks of this size.
pub open spec fn belongs(
    checkpoint: ResumeCheckpoint<Seq<char>>,
    file_name: Seq<char>,
    file_size: u64,
    chunk_size: usize,
) -> bool {
    &&& checkpoint.file_name == file_name
    &&& checkpoint.file_size == file_size
    &&& checkpoint.chunk_size == chunk_size
}

impl ResumeCheckpoint {
    /// A checkpoint of a transfer that has not begun.
    pub fn new(file_name: &str, file_size: u64, chunk_size: usize) -> (checkpoint: ResumeCheckpoint)
        ensures
            checkpoint@ == fresh_checkpoint(file_name@, file_size, chunk_size),
    {
        ResumeCheckpoint {
            file_name: file_name.to_string(),
            file_size,
            chunk_size,
            next_sequence: 0,
            bytes_written: 0,
        }
    }

    /// Records how far the transfer has come.
    pub fn update(&mut self, next_sequence: u32, bytes_written: u64)
        ensures
            final(self)@ == advanced(old(self)@, next_sequence, bytes_written),
    {
        self.next_sequence = next_sequence;
        self.bytes_written = bytes_written;
    }

    /// Whether this is a checkpoint of the given file and chunk size.
    pub fn matches(&self, file_name: &str, file_size: u64, chunk_size: usize) -> (same: bool)
        ensures
            same == belongs(self@, file_name@, file_size, chunk_size),
    {
        text_equal(self.file_name.as_str(), file_name) && self.file_size == file_size
            && self.chunk_size == chunk_size
    }
}

impl Clone for ResumeCheckpoint {
    fn clone(&self) -> (copy: Self)
        ensures
            copy@ == self@,
    {
        ResumeCheckpoint {
            file_name: self.file_name.as_str().to_string(),
            file_size: self.file_size,
            chunk_size: self.chunk_size,
            next_sequence: self.next_sequence,
            bytes_written: self.bytes_written,
        }
    }
}

} // verus!
