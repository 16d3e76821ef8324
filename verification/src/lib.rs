//! Download ledger reconciliation and background copy engine.
//!
//! The crate keeps a ledger of the downloads that are followed, reconciles
//! it with what a torrent daemon reports and with what is found in the
//! destination directories, and drives the copy of each finished download.
//! It does no file or network work itself: [`cycle`] and [`walk`] are state
//! machines that tell the caller what to do and take its reports.
//!
//! - [`wire`], [`catalog`], [`error`]: the values and the errors.
//! - [`ledger`], [`prober`], [`reconcile`], [`route`], [`listing`]: the rules
//!   on the ledger.
//! - [`daemon`], [`store`]: the way to the daemon and the files.
//! - [`cycle`], [`walk`]: one cycle of the background task, and the copy of
//!   one tree.
//! - [`front`]: the decisions of the front end.
//! - [`text`], [`decimal`]: comparison of texts, and numbers as text.

pub mod catalog;
pub mod cycle;
pub mod daemon;
pub mod decimal;
pub mod error;
pub mod front;
pub mod ledger;
pub mod listing;
pub mod prober;
pub mod reconcile;
pub mod route;
pub mod store;
pub mod text;
pub mod walk;
pub mod wire;
