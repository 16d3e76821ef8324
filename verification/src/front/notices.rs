//! The texts of the notices shown to the user.

use vstd::prelude::*;
use crate::decimal::{decimal, decimal_text};
use crate::wire::{AppError, Destination, ErrorKind};

verus! {

/// What the list of downloads says when the daemon's torrents could not be
/// had: a daemon that cannot be reached comes with advice, any other error
/// with its message alone.
pub open spec fn poll_failure_text(kind: ErrorKind, message: Seq<char>) -> Seq<char> {
    if kind == ErrorKind::TransmissionConnection {
        "Could not connect to Transmission: "@ + message
            + ". Make sure Transmission is running and remote access is enabled in Preferences > Remote."@
    } else {
        message
    }
}

/// What the settings say when the test of the connection failed.
pub open spec fn test_failure_text(kind: ErrorKind, message: Seq<char>) -> Seq<char> {
    if kind == ErrorKind::TransmissionConnection {
        "Connection failed: "@ + message
            + ". Make sure Transmission is running and remote access is enabled in Preferences \u{203a} Remote."@
    } else {
        "Connection failed: "@ + message
    }
}

/// The notice for a failed poll of the daemon.
pub fn poll_failure(e: &AppError) -> (r: String)
    ensures
        r@ == poll_failure_text(e.kind, e.message@),
{
    match e.kind {
        ErrorKind::TransmissionConnection => String::from_str(
            "Could not connect to Transmission: ",
        ).concat(e.message.as_str()).concat(
            ". Make sure Transmission is running and remote access is enabled in Preferences > Remote.",
        ),
        _ => e.message.clone(),
    }
}

/// The notice for a failed test of the connection.
pub fn test_failure(e: &AppError) -> (r: String)
    ensures
        r@ == test_failure_text(e.kind, e.message@),
{
    match e.kind {
        ErrorKind::TransmissionConnection => String::from_str("Connection failed: ").concat(
            e.message.as_str(),
        ).concat(
            ". Make sure Transmission is running and remote access is enabled in Preferences \u{203a} Remote.",
        ),
        _ => String::from_str("Connection failed: ").concat(e.message.as_str()),
    }
}

/// The notice for settings that could not be saved.
pub fn save_failure(e: &AppError) -> (r: String)
    ensures
        r@ == "Failed to save: "@ + e.message@,
{
    String::from_str("Failed to save: ").concat(e.message.as_str())
}

/// The notice for details that could not be had.
pub fn detail_failure(e: &AppError) -> (r: String)
    ensures
        r@ == "Error: "@ + e.message@,
{
    String::from_str("Error: ").concat(e.message.as_str())
}

/// The notice shown while a search runs.
pub fn searching(query: &str) -> (r: String)
    ensures
        r@ == "Searching for '"@ + query@ + "'..."@,
{
    String::from_str("Searching for '").concat(query).concat("'...")
}

/// The notice shown when a search has ended.
pub fn found(count: usize) -> (r: String)
    ensures
        r@ == "Found "@ + decimal_text(count as nat) + " results."@,
{
    String::from_str("Found ").concat(decimal(count as u64).as_str()).concat(" results.")
}

/// The notice shown while the details of a torrent are fetched.
pub fn retrieving(name: &str) -> (r: String)
    ensures
        r@ == "Retrieving details on '"@ + name@ + "'..."@,
{
    String::from_str("Retrieving details on '").concat(name).concat("'...")
}

/// The label of the button that adds a torrent to a destination.
pub fn add_label(dest: Destination) -> (r: String)
    ensures
        r@ == "Add to "@ + dest.label_text(),
{
    String::from_str("Add to ").concat(dest.label())
}

/// What the details show as the number of files: the number, or a word
/// where the service gave none.
pub fn files_text(num_files: Option<u32>) -> (r: String)
    ensures
        r@ == match num_files {
            Some(n) => decimal_text(n as nat),
            None => "unknown"@,
        },
{
    match num_files {
        Some(n) => decimal(n as u64),
        None => String::from_str("unknown"),
    }
}

/// What the details show as the number of downloads: what the service
/// sent, or a question mark where it sent nothing.
pub fn downloads_text(download_count: &Option<String>) -> (r: String)
    ensures
        r@ == match *download_count {
            Some(count) => count@,
            None => "?"@,
        },
{
    match download_count {
        Some(count) => count.clone(),
        None => String::from_str("?"),
    }
}

/// What the list of downloads says when the daemon has no torrents.
pub fn no_torrents() -> (r: &'static str)
    ensures
        r@ == "No torrents in Transmission."@,
{
    "No torrents in Transmission."
}

} // verus!
