//! The errors of each domain, and how each is reported to the front end.
//!
//! An error keeps the text of its cause. Each converts into an [`AppError`]
//! whose kind tells the front end which remedy applies.

use vstd::prelude::*;
use crate::wire::{AppError, Destination, ErrorKind};

verus! {

/// Errors of the search and lookup service.
#[derive(Clone, Debug, PartialEq)]
pub enum PirateError {
    Search { message: String },
    Info { message: String },
}

impl PirateError {
    /// The text that describes the error.
    pub open spec fn text(self) -> Seq<char> {
        match self {
            PirateError::Search { message } => "Search failed: "@ + message@,
            PirateError::Info { message } => "Failed to get torrent info: "@ + message@,
        }
    }

    /// The text that describes the error.
    pub fn to_string(&self) -> (r: String)
        ensures
            r@ == self.text(),
    {
        match self {
            PirateError::Search { message } => String::from_str("Search failed: ").concat(
                message.as_str(),
            ),
            PirateError::Info { message } => String::from_str("Failed to get torrent info: ").concat(
                message.as_str(),
            ),
        }
    }
}

/// Errors of the exchange with the daemon.
#[derive(Clone, Debug, PartialEq)]
pub enum TransmissionError {
    /// The connection parameters do not make an address.
    InvalidUrl { url: String, source: String },
    /// The daemon could not be reached.
    Connection { message: String },
    /// The daemon answered with a failure of its own.
    Rpc { message: String },
}

impl TransmissionError {
    /// The kind under which the error is reported.
    pub open spec fn kind(self) -> ErrorKind {
        match self {
            TransmissionError::InvalidUrl { .. } => ErrorKind::InvalidUrl,
            TransmissionError::Connection { .. } => ErrorKind::TransmissionConnection,
            TransmissionError::Rpc { .. } => ErrorKind::TransmissionRpc,
        }
    }

    /// The text that describes the error.
    pub open spec fn text(self) -> Seq<char> {
        match self {
            TransmissionError::InvalidUrl { url, source } => "Invalid Transmission URL '"@ + url@
                + "': "@ + source@,
            TransmissionError::Connection { message } => "Failed to connect to Transmission: "@
                + message@,
            TransmissionError::Rpc { message } => "Transmission RPC error: "@ + message@,
        }
    }

    /// The text that describes the error.
    pub fn to_string(&self) -> (r: String)
        ensures
            r@ == self.text(),
    {
        match self {
            TransmissionError::InvalidUrl { url, source } => String::from_str(
                "Invalid Transmission URL '",
            ).concat(url.as_str()).concat("': ").concat(source.as_str()),
            TransmissionError::Connection { message } => String::from_str(
                "Failed to connect to Transmission: ",
            ).concat(message.as_str()),
            TransmissionError::Rpc { message } => String::from_str("Transmission RPC error: ").concat(
                message.as_str(),
            ),
        }
    }
}

/// Errors of writing the configuration or the ledger to disk.
#[derive(Clone, Debug, PartialEq)]
pub enum ConfigError {
    CreateDir { path: String, source: String },
    WriteFile { path: String, source: String },
    Serialize { source: String },
}

impl ConfigError {
    /// The text that describes the error.
    pub open spec fn text(self) -> Seq<char> {
        match self {
            ConfigError::CreateDir { path, source } => "Failed to create config directory '"@
                + path@ + "': "@ + source@,
            ConfigError::WriteFile { path, source } => "Failed to write config to '"@ + path@
                + "': "@ + source@,
            ConfigError::Serialize { source } => "Failed to serialize config: "@ + source@,
        }
    }

    /// The text that describes the error.
    pub fn to_string(&self) -> (r: String)
        ensures
            r@ == self.text(),
    {
        match self {
            ConfigError::CreateDir { path, source } => String::from_str(
                "Failed to create config directory '",
            ).concat(path.as_str()).concat("': ").concat(source.as_str()),
            ConfigError::WriteFile { path, source } => String::from_str(
                "Failed to write config to '",
            ).concat(path.as_str()).concat("': ").concat(source.as_str()),
            ConfigError::Serialize { source } => String::from_str(
                "Failed to serialize config: ",
            ).concat(source.as_str()),
        }
    }
}

/// Errors of copying a finished download to its destination directory.
#[derive(Clone, Debug, PartialEq)]
pub enum CopyError {
    CopySourceMissing { path: String },
    CopyNoDestDir { destination: Destination },
    CopyCreateDir { path: String, source: String },
    CopyFile { src: String, dst: String, source: String },
    CopyReadDir { path: String, source: String },
}

impl CopyError {
    /// The text that describes the error.
    pub open spec fn text(self) -> Seq<char> {
        match self {
            CopyError::CopySourceMissing { path } => "Source path '"@ + path@ + "' does not exist"@,
            CopyError::CopyNoDestDir { destination } => "No destination directory configured for "@
                + destination.label_text(),
            CopyError::CopyCreateDir { path, source } => "Failed to create directory '"@ + path@
                + "': "@ + source@,
            CopyError::CopyFile { src, dst, source } => "Failed to copy '"@ + src@ + "' to '"@ + dst@
                + "': "@ + source@,
            CopyError::CopyReadDir { path, source } => "Failed to read directory '"@ + path@
                + "': "@ + source@,
        }
    }

    /// The text that describes the error.
    pub fn to_string(&self) -> (r: String)
        ensures
            r@ == self.text(),
    {
        match self {
            CopyError::CopySourceMissing { path } => String::from_str("Source path '").concat(
                path.as_str(),
            ).concat("' does not exist"),
            CopyError::CopyNoDestDir { destination } => String::from_str(
                "No destination directory configured for ",
            ).concat(destination.label()),
            CopyError::CopyCreateDir { path, source } => String::from_str(
                "Failed to create directory '",
            ).concat(path.as_str()).concat("': ").concat(source.as_str()),
            CopyError::CopyFile { src, dst, source } => String::from_str("Failed to copy '").concat(
                src.as_str(),
            ).concat("' to '").concat(dst.as_str()).concat("': ").concat(source.as_str()),
            CopyError::CopyReadDir { path, source } => String::from_str(
                "Failed to read directory '",
            ).concat(path.as_str()).concat("': ").concat(source.as_str()),
        }
    }
}

impl From<PirateError> for AppError {
    /// A search error is reported under the search kind, with its text.
    fn from(e: PirateError) -> (r: AppError)
        ensures
            r.kind == ErrorKind::PirateSearch,
            r.message@ == e.text(),
    {
        AppError::new(ErrorKind::PirateSearch, e.to_string())
    }
}

impl vstd::std_specs::convert::FromSpecImpl<PirateError> for AppError {
    open spec fn obeys_from_spec() -> bool {
        false
    }

    open spec fn from_spec(e: PirateError) -> AppError {
        arbitrary()
    }
}

impl From<TransmissionError> for AppError {
    /// A daemon error is reported under the kind of its variant, with its text.
    fn from(e: TransmissionError) -> (r: AppError)
        ensures
            r.kind == e.kind(),
            r.message@ == e.text(),
    {
        let kind = match &e {
            TransmissionError::InvalidUrl { .. } => ErrorKind::InvalidUrl,
            TransmissionError::Connection { .. } => ErrorKind::TransmissionConnection,
            TransmissionError::Rpc { .. } => ErrorKind::TransmissionRpc,
        };
        AppError::new(kind, e.to_string())
    }
}

impl vstd::std_specs::convert::FromSpecImpl<TransmissionError> for AppError {
    open spec fn obeys_from_spec() -> bool {
        false
    }

    open spec fn from_spec(e: TransmissionError) -> AppError {
        arbitrary()
    }
}

impl From<ConfigError> for AppError {
    /// A persistence error is reported under the configuration kind, with its text.
    fn from(e: ConfigError) -> (r: AppError)
        ensures
            r.kind == ErrorKind::Config,
            r.message@ == e.text(),
    {
        AppError::new(ErrorKind::Config, e.to_string())
    }
}

impl vstd::std_specs::convert::FromSpecImpl<ConfigError> for AppError {
    open spec fn obeys_from_spec() -> bool {
        false
    }

    open spec fn from_spec(e: ConfigError) -> AppError {
        arbitrary()
    }
}

impl From<CopyError> for AppError {
    /// A copy error is reported under the copy kind, with its text.
    fn from(e: CopyError) -> (r: AppError)
        ensures
            r.kind == ErrorKind::Copy,
            r.message@ == e.text(),
    {
        AppError::new(ErrorKind::Copy, e.to_string())
    }
}

impl vstd::std_specs::convert::FromSpecImpl<CopyError> for AppError {
    open spec fn obeys_from_spec() -> bool {
        false
    }

    open spec fn from_spec(e: CopyError) -> AppError {
        arbitrary()
    }
}

} // verus!
