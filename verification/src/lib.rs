//! Verified core of a terminal client for an online judge: the data model
//! of its API replies, the favourite-list outline navigator, the run and
//! submit result report, and the Python solution scaffold.
pub mod text;
pub mod styled;
pub mod api;
pub mod ui;
pub mod scaffold;
