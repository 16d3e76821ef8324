//! The values that travel between the engine and its front end.

use vstd::prelude::*;

verus! {

/// Media destination for completed downloads.
#[derive(Clone, Copy, Debug, PartialEq, Eq, Structural)]
pub enum Destination {
    Movies,
    Shows,
}

impl Default for Destination {
    fn default() -> (r: Self)
        ensures
            r == Destination::Movies,
    {
        Destination::Movies
    }
}

impl Destination {
    /// The name shown for this destination.
    pub open spec fn label_text(self) -> Seq<char> {
        match self {
            Destination::Movies => "Movies"@,
            Destination::Shows => "Shows"@,
        }
    }

    /// The destination that a numeric category code stands for: the film
    /// categories go to `Movies`, the television categories to `Shows`, and
    /// every other code has none.
    pub open spec fn of_category(cat: u32) -> Option<Destination> {
        if cat == 201 || cat == 202 || cat == 207 || cat == 209 || cat == 299 {
            Some(Destination::Movies)
        } else if cat == 205 || cat == 208 {
            Some(Destination::Shows)
        } else {
            None
        }
    }

    /// The destination that a category code written as text stands for.
    pub open spec fn of_category_text(cat: Seq<char>) -> Option<Destination> {
        if cat == "201"@ || cat == "202"@ || cat == "207"@ || cat == "209"@ || cat == "299"@ {
            Some(Destination::Movies)
        } else if cat == "205"@ || cat == "208"@ {
            Some(Destination::Shows)
        } else {
            None
        }
    }

    pub fn label(&self) -> (r: &'static str)
        ensures
            r@ == self.label_text(),
    {
        match self {
            Destination::Movies => "Movies",
            Destination::Shows => "Shows",
        }
    }

    /// Detects the destination from a category code given as text.
    pub fn from_category_str(cat: &str) -> (r: Option<Self>)
        ensures
            r == Self::of_category_text(cat@),
    {
        if crate::text::str_equal(cat, "201") || crate::text::str_equal(cat, "202")
            || crate::text::str_equal(cat, "207") || crate::text::str_equal(cat, "209")
            || crate::text::str_equal(cat, "299") {
            Some(Destination::Movies)
        } else if crate::text::str_equal(cat, "205") || crate::text::str_equal(cat, "208") {
            Some(Destination::Shows)
        } else {
            None
        }
    }

    /// Detects the destination from a numeric category code.
    pub fn from_category(cat: u32) -> (r: Option<Self>)
        ensures
            r == Self::of_category(cat),
    {
        if cat == 201 || cat == 202 || cat == 207 || cat == 209 || cat == 299 {
            Some(Destination::Movies)
        } else if cat == 205 || cat == 208 {
            Some(Destination::Shows)
        } else {
            None
        }
    }
}

/// Status of a torrent as the daemon reports it.
#[derive(Clone, Copy, Debug, PartialEq, Eq, Structural)]
pub enum TransmissionStatus {
    Stopped,
    QueuedVerify,
    Verifying,
    QueuedDownload,
    Downloading,
    QueuedSeed,
    Seeding,
}

impl Default for TransmissionStatus {
    fn default() -> (r: Self)
        ensures
            r == TransmissionStatus::Stopped,
    {
        TransmissionStatus::Stopped
    }
}

impl TransmissionStatus {
    /// The name shown for this status.
    pub open spec fn label_text(self) -> Seq<char> {
        match self {
            TransmissionStatus::Stopped => "Stopped"@,
            TransmissionStatus::QueuedVerify => "Queued (Verify)"@,
            TransmissionStatus::Verifying => "Verifying"@,
            TransmissionStatus::QueuedDownload => "Queued"@,
            TransmissionStatus::Downloading => "Downloading"@,
            TransmissionStatus::QueuedSeed => "Queued (Seed)"@,
            TransmissionStatus::Seeding => "Seeding"@,
        }
    }

    pub fn label(&self) -> (r: &'static str)
        ensures
            r@ == self.label_text(),
    {
        match self {
            TransmissionStatus::Stopped => "Stopped",
            TransmissionStatus::QueuedVerify => "Queued (Verify)",
            TransmissionStatus::Verifying => "Verifying",
            TransmissionStatus::QueuedDownload => "Queued",
            TransmissionStatus::Downloading => "Downloading",
            TransmissionStatus::QueuedSeed => "Queued (Seed)",
            TransmissionStatus::Seeding => "Seeding",
        }
    }
}

/// State of the copy operation for a download entry.
#[derive(Clone, Copy, Debug, PartialEq, Eq, Structural)]
pub enum CopyState {
    /// Not yet copied: the download is unfinished or no directory is configured.
    NotCopied,
    /// A copy is in progress.
    Copying,
    /// The files are at the destination.
    Copied,
    /// The last copy failed and will be tried again.
    Failed,
}

impl Default for CopyState {
    fn default() -> (r: Self)
        ensures
            r == CopyState::NotCopied,
    {
        CopyState::NotCopied
    }
}

impl CopyState {
    /// The mark shown for this state: nothing, an hourglass, a check mark or a cross.
    pub open spec fn indicator_text(self) -> Seq<char> {
        match self {
            CopyState::NotCopied => ""@,
            CopyState::Copying => "\u{23F3}"@,
            CopyState::Copied => "\u{2705}"@,
            CopyState::Failed => "\u{274C}"@,
        }
    }

    /// Whether an entry in this state is waiting for a copy: it has never been
    /// copied, or its last copy failed.
    pub open spec fn is_pending(self) -> bool {
        self == CopyState::NotCopied || self == CopyState::Failed
    }

    /// Indicator for display.
    pub fn indicator(&self) -> (r: &'static str)
        ensures
            r@ == self.indicator_text(),
    {
        match self {
            CopyState::NotCopied => "",
            CopyState::Copying => "\u{23F3}",
            CopyState::Copied => "\u{2705}",
            CopyState::Failed => "\u{274C}",
        }
    }

    /// Whether an entry in this state is waiting for a copy.
    pub fn pending(&self) -> (r: bool)
        ensures
            r == self.is_pending(),
    {
        match self {
            CopyState::NotCopied => true,
            CopyState::Failed => true,
            _ => false,
        }
    }
}

/// What a ledger entry holds, as plain values.
pub struct EntryView {
    pub info_hash: Seq<char>,
    pub name: Seq<char>,
    pub destination: Destination,
    pub copy_state: CopyState,
}

/// An entry in the persistent downloads ledger.
#[derive(Clone, Debug, PartialEq)]
pub struct DownloadEntry {
    pub info_hash: String,
    pub name: String,
    pub destination: Destination,
    /// State of the copy operation.
    pub copy_state: CopyState,
}

impl View for DownloadEntry {
    type V = EntryView;

    open spec fn view(&self) -> EntryView {
        EntryView {
            info_hash: self.info_hash@,
            name: self.name@,
            destination: self.destination,
            copy_state: self.copy_state,
        }
    }
}

/// What a configuration holds, as plain values.
pub struct ConfigView {
    pub host: Seq<char>,
    pub port: u16,
    pub username: Option<Seq<char>>,
    pub password: Option<Seq<char>>,
    pub movies_dir: Option<Seq<char>>,
    pub shows_dir: Option<Seq<char>>,
}

impl ConfigView {
    /// The directory recorded for a destination, if any.
    pub open spec fn dir_for(self, dest: Destination) -> Option<Seq<char>> {
        match dest {
            Destination::Movies => self.movies_dir,
            Destination::Shows => self.shows_dir,
        }
    }

    /// The directory that copies to a destination go to: the one recorded
    /// for it, unless it is missing or empty.
    pub open spec fn target_dir(self, dest: Destination) -> Option<Seq<char>> {
        match self.dir_for(dest) {
            Some(d) => if d.len() > 0 {
                Some(d)
            } else {
                None
            },
            None => None,
        }
    }
}

/// Connection parameters of the daemon and the destination directories.
#[derive(Clone, Debug, PartialEq)]
pub struct TransmissionConfig {
    pub host: String,
    pub port: u16,
    pub username: Option<String>,
    pub password: Option<String>,
    /// Destination directory for completed movie downloads.
    pub movies_dir: Option<String>,
    /// Destination directory for completed TV show downloads.
    pub shows_dir: Option<String>,
}

/// The view of an optional string.
pub open spec fn opt_text(s: Option<String>) -> Option<Seq<char>> {
    match s {
        Some(t) => Some(t@),
        None => None,
    }
}

impl View for TransmissionConfig {
    type V = ConfigView;

    open spec fn view(&self) -> ConfigView {
        ConfigView {
            host: self.host@,
            port: self.port,
            username: opt_text(self.username),
            password: opt_text(self.password),
            movies_dir: opt_text(self.movies_dir),
            shows_dir: opt_text(self.shows_dir),
        }
    }
}

impl Default for TransmissionConfig {
    /// A daemon on this machine at its usual port, without credentials and
    /// without destination directories.
    fn default() -> (r: Self)
        ensures
            r@ == (ConfigView {
                host: "localhost"@,
                port: 9091,
                username: None,
                password: None,
                movies_dir: None,
                shows_dir: None,
            }),
    {
        TransmissionConfig {
            host: String::from_str("localhost"),
            port: 9091,
            username: None,
            password: None,
            movies_dir: None,
            shows_dir: None,
        }
    }
}

impl TransmissionConfig {
    /// The directory recorded for a destination.
    pub fn dir_for(&self, dest: Destination) -> (r: Option<&str>)
        ensures
            match r {
                Some(d) => self@.dir_for(dest) == Some(d@),
                None => self@.dir_for(dest).is_none(),
            },
    {
        match dest {
            Destination::Movies => match &self.movies_dir {
                Some(d) => Some(d.as_str()),
                None => None,
            },
            Destination::Shows => match &self.shows_dir {
                Some(d) => Some(d.as_str()),
                None => None,
            },
        }
    }
}

/// Sorts errors so that the front end can branch on the kind.
#[derive(Clone, Copy, Debug, PartialEq, Eq, Structural)]
pub enum ErrorKind {
    /// Search or lookup failures.
    PirateSearch,
    /// The daemon could not be reached.
    TransmissionConnection,
    /// The daemon answered with a failure.
    TransmissionRpc,
    /// Configuration or ledger file failures.
    Config,
    /// A URL could not be parsed.
    InvalidUrl,
    /// A value could not be encoded or decoded.
    Serialization,
    /// A copy to a destination directory failed.
    Copy,
}

/// An error as it is sent to the front end.
#[derive(Clone, Debug, PartialEq)]
pub struct AppError {
    pub kind: ErrorKind,
    pub message: String,
}

impl AppError {
    pub fn new(kind: ErrorKind, message: String) -> (r: Self)
        ensures
            r.kind == kind,
            r.message@ == message@,
    {
        AppError { kind, message }
    }

    /// The text shown for this error: its message.
    pub fn to_string(&self) -> (r: String)
        ensures
            r@ == self.message@,
    {
        self.message.clone()
    }
}

} // verus!
