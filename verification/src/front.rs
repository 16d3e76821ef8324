//! The decisions of the front end that need no screen: what a notice says,
//! what a settings form means, in which order search results are shown.

pub mod downloads;
pub mod notices;
pub mod panes;
pub mod picker;
pub mod settings;
pub mod sort;
