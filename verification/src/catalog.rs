//! Torrents as the search service describes them.

use vstd::prelude::*;
use human_repr::HumanCount;
use crate::decimal::{parse_i64, parse_usize, parsed_i64, parsed_usize};

verus! {

/// What `human_repr` writes for a number of bytes: the number scaled to a
/// unit prefix, rounded, and followed by the prefix and `B`.
pub uninterp spec fn human_count_bytes_text(bytes: usize) -> Seq<char>;

/// Calls `HumanCount::human_count_bytes` of `human_repr` on the number and
/// hands back what its result displays. The text is worked out from the
/// number alone.
#[verifier::external_body]
fn human_bytes(bytes: usize) -> (r: String)
    ensures
        r@ == human_count_bytes_text(bytes),
{
    bytes.human_count_bytes().to_string()
}

/// A torrent of a search result. The service sends its numbers as text.
#[derive(Clone, Debug, PartialEq)]
pub struct Torrent {
    pub added: String,
    pub category: String,
    pub descr: Option<String>,
    pub download_count: Option<String>,
    pub id: String,
    pub info_hash: String,
    pub leechers: String,
    pub name: String,
    pub num_files: Option<String>,
    pub seeders: String,
    pub size: String,
    pub status: String,
    pub username: String,
    pub magnet: Option<String>,
}

/// The signed number that a text stands for, or zero where it stands for none.
pub open spec fn i64_or_zero(s: Seq<char>) -> i64 {
    match parsed_i64(s) {
        Some(v) => v,
        None => 0,
    }
}

/// The size that a text stands for, or zero where it stands for none.
pub open spec fn usize_or_zero(s: Seq<char>) -> usize {
    match parsed_usize(s) {
        Some(v) => v,
        None => 0,
    }
}

impl Torrent {
    /// The time at which the torrent was added, in seconds; zero where the
    /// text is no number.
    pub fn added_i64(&self) -> (r: i64)
        ensures
            r == i64_or_zero(self.added@),
    {
        match parse_i64(self.added.as_str()) {
            Some(v) => v,
            None => 0,
        }
    }

    /// The number of seeders; zero where the text is no number.
    pub fn seeders_i64(&self) -> (r: i64)
        ensures
            r == i64_or_zero(self.seeders@),
    {
        match parse_i64(self.seeders.as_str()) {
            Some(v) => v,
            None => 0,
        }
    }

    /// The number of leechers; zero where the text is no number.
    pub fn leechers_i64(&self) -> (r: i64)
        ensures
            r == i64_or_zero(self.leechers@),
    {
        match parse_i64(self.leechers.as_str()) {
            Some(v) => v,
            None => 0,
        }
    }

    /// The size in bytes; zero where the text is no number.
    pub fn size_bytes(&self) -> (r: usize)
        ensures
            r == usize_or_zero(self.size@),
    {
        match parse_usize(self.size.as_str()) {
            Some(v) => v,
            None => 0,
        }
    }

    /// The size as it is shown in the table of results.
    pub fn size_label(&self) -> (r: String)
        ensures
            r@ == human_count_bytes_text(usize_or_zero(self.size@)),
    {
        human_bytes(self.size_bytes())
    }
}

/// The details of one torrent.
#[derive(Clone, Debug, PartialEq)]
pub struct TorrentInfo {
    pub added: i64,
    pub category: u32,
    pub descr: Option<String>,
    pub download_count: Option<String>,
    pub id: u32,
    pub info_hash: String,
    pub leechers: u32,
    pub name: String,
    pub num_files: Option<u32>,
    pub seeders: u32,
    pub size: u64,
    pub status: String,
    pub username: String,
    pub magnet: Option<String>,
}

} // verus!
