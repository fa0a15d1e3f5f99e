//! Polls the status pages of climbing gyms, extracts the numbers of occupied
//! and free places from their markup and prepares one timestamped observation
//! per gym for a document store or a time-series store.
//!
//! The library holds the decisions of that pipeline and proves them with
//! Verus; reading arguments and files, talking to the network and to the
//! database are left to the program that drives it.
//!
//! - [`extract`] reads the counters of a page, in either of two forms of
//!   markup.
//! - [`observation`] holds locations and observations.
//! - [`record`] writes an observation as a BSON document and reads it back.
//! - [`fetch`] builds the address of a page and judges the answer of a server.
//! - [`scheduler`] decides when a tick runs.
//! - [`sink`] plans the calls that hand a batch to the store.
//! - [`service`] ties all of it into one state machine for a driver.
//! - [`settings`] holds the options of a run and their defaults.
//! - [`decimal`], [`timestamp`] and [`document`] are the ground they stand on.

pub mod decimal;
pub mod timestamp;
pub mod document;
pub mod extract;
pub mod observation;
pub mod record;
pub mod fetch;
pub mod scheduler;
pub mod sink;
pub mod settings;
pub mod service;
