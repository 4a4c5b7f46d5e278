//! IronKey library: the drive, filesystem, browser, terminal and
//! application-state logic of the IronKey forensics environment.

pub mod text;
pub mod search;
pub mod detect;
pub mod smart;
pub mod units;
pub mod terminal;
pub mod devices;
pub mod drives;
pub mod io_stats;
pub mod viewer;
pub mod ops;
pub mod mount;
pub mod sorting;
pub mod listing;
pub mod app_state;
pub mod app_laws;
pub mod labels;
pub mod pty;
