//! The way to the daemon: its address and credentials, the fields asked of
//! it, and the reading of its answers.

use vstd::prelude::*;
use crate::decimal::{decimal, decimal_text};
use crate::error::TransmissionError;
use crate::text::str_equal;
use crate::wire::{ConfigView, TransmissionConfig, TransmissionStatus, opt_text};

verus! {

/// A user name and a password for the daemon.
#[derive(Clone, Debug, PartialEq)]
pub struct Credentials {
    pub user: String,
    pub password: String,
}

/// Where and how to reach the daemon.
#[derive(Clone, Debug, PartialEq)]
pub struct Endpoint {
    /// The address of the daemon's control interface, which is a valid URL.
    pub address: String,
    /// The credentials to present, if any.
    pub auth: Option<Credentials>,
}

/// The address of the control interface of the daemon that a configuration
/// names.
pub open spec fn rpc_address(config: ConfigView) -> Seq<char> {
    "http://"@ + config.host + ":"@ + decimal_text(config.port as nat) + "/transmission/rpc"@
}

/// The credentials that a configuration asks for: its user name and
/// password where both are given and the user name is not empty.
pub open spec fn chosen_auth(config: ConfigView) -> Option<(Seq<char>, Seq<char>)> {
    if config.username.is_some() && config.password.is_some() && config.username.unwrap().len() > 0 {
        Some((config.username.unwrap(), config.password.unwrap()))
    } else {
        None
    }
}

/// The credentials as plain values.
pub open spec fn auth_view(auth: Option<Credentials>) -> Option<(Seq<char>, Seq<char>)> {
    match auth {
        Some(c) => Some((c.user@, c.password@)),
        None => None,
    }
}

/// What `url::Url::parse` makes of a text: nothing when the text is an
/// absolute URL, else the description of the reason for which it is refused.
pub uninterp spec fn url_parse_error(input: Seq<char>) -> Option<Seq<char>>;

/// Calls `url::Url::parse` on the text and hands back the description of the
/// error, if it gave one. The parser reads nothing but its argument, so the
/// outcome is a function of the text.
#[verifier::external_body]
fn url_fault(input: &str) -> (r: Option<String>)
    ensures
        opt_text(r) == url_parse_error(input@),
{
    match url::Url::parse(input) {
        Ok(_) => None,
        Err(e) => Some(e.to_string()),
    }
}

/// The address of the daemon's control interface.
pub fn rpc_url(config: &TransmissionConfig) -> (r: String)
    ensures
        r@ == rpc_address(config@),
{
    String::from_str("http://").concat(config.host.as_str()).concat(":").concat(
        decimal(config.port as u64).as_str(),
    ).concat("/transmission/rpc")
}

/// The credentials to present to the daemon.
pub fn credentials(config: &TransmissionConfig) -> (r: Option<Credentials>)
    ensures
        auth_view(r) == chosen_auth(config@),
{
    match &config.username {
        Some(user) => match &config.password {
            Some(password) => {
                if user.as_str().unicode_len() > 0 {
                    Some(Credentials { user: user.clone(), password: password.clone() })
                } else {
                    None
                }
            },
            None => None,
        },
        None => None,
    }
}

/// Whether `r` is what connecting gives for a configuration whose address
/// the parser judged as `fault` says: the endpoint with the address and the
/// chosen credentials when the parser found no fault, and else the invalid
/// address with the parser's reason.
pub open spec fn connects(
    config: ConfigView,
    fault: Option<Seq<char>>,
    r: Result<Endpoint, TransmissionError>,
) -> bool {
    match fault {
        None => r.is_ok() && r.unwrap().address@ == rpc_address(config) && auth_view(
            r.unwrap().auth,
        ) == chosen_auth(config),
        Some(reason) => r.is_err() && match r.unwrap_err() {
            TransmissionError::InvalidUrl { url, source } => url@ == rpc_address(config)
                && source@ == reason,
            _ => false,
        },
    }
}

/// Makes the endpoint of a configuration from the parser's judgement of its
/// address: a fault refuses the configuration as an invalid URL.
pub fn endpoint_for(config: &TransmissionConfig, fault: Option<String>) -> (r: Result<
    Endpoint,
    TransmissionError,
>)
    ensures
        connects(config@, opt_text(fault), r),
{
    let address = rpc_url(config);
    match fault {
        Some(reason) => Err(TransmissionError::InvalidUrl { url: address, source: reason }),
        None => Ok(Endpoint { address, auth: credentials(config) }),
    }
}

/// The parser's judgement of the address that a configuration gives: the
/// reason for which it is no URL, or nothing.
pub fn url_judgement(config: &TransmissionConfig) -> (r: Option<String>)
    ensures
        opt_text(r) == url_parse_error(rpc_address(config@)),
{
    let address = rpc_url(config);
    url_fault(address.as_str())
}

/// Prepares the connection to the daemon. Malformed connection parameters
/// are refused here, before any network traffic.
pub fn make_trans_client(config: &TransmissionConfig) -> (r: Result<Endpoint, TransmissionError>)
    ensures
        connects(config@, url_parse_error(rpc_address(config@)), r),
{
    let fault = url_judgement(config);
    endpoint_for(config, fault)
}

/// The status that a status code of the daemon stands for; an unknown code
/// counts as stopped.
pub open spec fn status_of(code: i64) -> TransmissionStatus {
    if code == 1 {
        TransmissionStatus::QueuedVerify
    } else if code == 2 {
        TransmissionStatus::Verifying
    } else if code == 3 {
        TransmissionStatus::QueuedDownload
    } else if code == 4 {
        TransmissionStatus::Downloading
    } else if code == 5 {
        TransmissionStatus::QueuedSeed
    } else if code == 6 {
        TransmissionStatus::Seeding
    } else {
        TransmissionStatus::Stopped
    }
}

/// Reads a status code of the daemon.
pub fn transmission_status(status: i64) -> (r: TransmissionStatus)
    ensures
        r == status_of(status),
{
    match status {
        0 => TransmissionStatus::Stopped,
        1 => TransmissionStatus::QueuedVerify,
        2 => TransmissionStatus::Verifying,
        3 => TransmissionStatus::QueuedDownload,
        4 => TransmissionStatus::Downloading,
        5 => TransmissionStatus::QueuedSeed,
        6 => TransmissionStatus::Seeding,
        _ => TransmissionStatus::Stopped,
    }
}

/// A field of a torrent that the daemon can be asked for.
#[derive(Clone, Copy, Debug, PartialEq, Eq, Structural)]
pub enum TorrentField {
    Id,
    Name,
    HashString,
    Status,
    PercentDone,
    RateDownload,
    RateUpload,
    Eta,
    SizeWhenDone,
    PeersConnected,
    PeersSendingToUs,
    PeersGettingFromUs,
    Error,
    ErrorString,
    DownloadDir,
}

/// The fields that a cycle of the background task asks for.
pub fn copy_fields() -> (r: Vec<TorrentField>)
    ensures
        r@ == seq![
            TorrentField::HashString,
            TorrentField::Name,
            TorrentField::Status,
            TorrentField::PercentDone,
            TorrentField::DownloadDir,
        ],
{
    let mut fields: Vec<TorrentField> = Vec::new();
    fields.push(TorrentField::HashString);
    fields.push(TorrentField::Name);
    fields.push(TorrentField::Status);
    fields.push(TorrentField::PercentDone);
    fields.push(TorrentField::DownloadDir);
    fields
}

/// The fields that the list of downloads asks for.
pub fn listing_fields() -> (r: Vec<TorrentField>)
    ensures
        r@ == seq![
            TorrentField::Id,
            TorrentField::Name,
            TorrentField::HashString,
            TorrentField::Status,
            TorrentField::PercentDone,
            TorrentField::RateDownload,
            TorrentField::RateUpload,
            TorrentField::Eta,
            TorrentField::SizeWhenDone,
            TorrentField::PeersConnected,
            TorrentField::PeersSendingToUs,
            TorrentField::PeersGettingFromUs,
            TorrentField::Error,
            TorrentField::ErrorString,
            TorrentField::DownloadDir,
        ],
{
    let mut fields: Vec<TorrentField> = Vec::new();
    fields.push(TorrentField::Id);
    fields.push(TorrentField::Name);
    fields.push(TorrentField::HashString);
    fields.push(TorrentField::Status);
    fields.push(TorrentField::PercentDone);
    fields.push(TorrentField::RateDownload);
    fields.push(TorrentField::RateUpload);
    fields.push(TorrentField::Eta);
    fields.push(TorrentField::SizeWhenDone);
    fields.push(TorrentField::PeersConnected);
    fields.push(TorrentField::PeersSendingToUs);
    fields.push(TorrentField::PeersGettingFromUs);
    fields.push(TorrentField::Error);
    fields.push(TorrentField::ErrorString);
    fields.push(TorrentField::DownloadDir);
    fields
}

/// The daemon marks an answer as a success with this very word.
pub open spec fn rpc_succeeded(result: Seq<char>) -> bool {
    result == "success"@
}

/// The error for a daemon that could not be reached, with the reason.
pub fn connection_failed(reason: String) -> (r: TransmissionError)
    ensures
        r matches TransmissionError::Connection { message } && message@ == reason@,
{
    TransmissionError::Connection { message: reason }
}

/// Reads the result that the daemon put into its answer: anything but a
/// success is an error that carries the daemon's own message.
pub fn check_response(result: String) -> (r: Result<(), TransmissionError>)
    ensures
        match r {
            Ok(_) => rpc_succeeded(result@),
            Err(e) => !rpc_succeeded(result@) && (e matches TransmissionError::Rpc { message }
                && message@ == result@),
        },
{
    if str_equal(result.as_str(), "success") {
        Ok(())
    } else {
        Err(TransmissionError::Rpc { message: result })
    }
}

/// What a successful test of the connection reports for a daemon of the
/// given version; a daemon that names none is reported as unknown.
pub open spec fn connected_text(version: Seq<char>) -> Seq<char> {
    "Connected to Transmission "@ + (if version.len() == 0 {
        "unknown"@
    } else {
        version
    })
}

/// Reads the daemon's answer to a test of the connection.
pub fn connection_report(result: String, version: String) -> (r: Result<String, TransmissionError>)
    ensures
        match r {
            Ok(text) => rpc_succeeded(result@) && text@ == connected_text(version@),
            Err(e) => !rpc_succeeded(result@) && (e matches TransmissionError::Rpc { message }
                && message@ == result@),
        },
{
    match check_response(result) {
        Ok(_) => {
            let shown = if version.as_str().unicode_len() == 0 {
                String::from_str("unknown")
            } else {
                version
            };
            Ok(String::from_str("Connected to Transmission ").concat(shown.as_str()))
        },
        Err(e) => Err(e),
    }
}

} // verus!
