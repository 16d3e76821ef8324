//! What is made of the files that hold the ledger and the configuration.
//!
//! The caller reads and decodes the files; a file that is absent or cannot
//! be decoded is handed over as nothing.

use vstd::prelude::*;
use crate::wire::{ConfigView, DownloadEntry, TransmissionConfig};

verus! {

/// The ledger that a read gives: what the file held, or an empty ledger
/// where no file could be read and decoded.
pub fn load_ledger(read: Option<Vec<DownloadEntry>>) -> (r: Vec<DownloadEntry>)
    ensures
        match read {
            Some(entries) => r == entries,
            None => r@.len() == 0,
        },
{
    match read {
        Some(entries) => entries,
        None => Vec::new(),
    }
}

/// The configuration that a read gives: what the file held, or, where no
/// file could be read and decoded, a daemon on this machine without
/// destination directories.
pub fn load_config(read: Option<TransmissionConfig>) -> (r: TransmissionConfig)
    ensures
        match read {
            Some(config) => r == config,
            None => r@ == (ConfigView {
                host: "localhost"@,
                port: 9091,
                username: None,
                password: None,
                movies_dir: None,
                shows_dir: None,
            }),
        },
{
    match read {
        Some(config) => config,
        None => TransmissionConfig::default(),
    }
}

} // verus!
