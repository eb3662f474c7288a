//! Acquisition and normalisation of a broadcast day's playlist.
//!
//! The library resolves where a day's playlist lives, decides what a load
//! yields from what the source gave back, and annotates every clip with its
//! absolute start time and scheduling flags. Reading files, fetching over
//! HTTP and decoding JSON are done by the caller, which hands the results in
//! as plain values.
//!
//! All times are whole milliseconds.

pub mod load;
pub mod media;
pub mod playlist;
pub mod source;

pub use load::{finish_load, LoadError, Loaded, SourceOutcome};
pub use media::Media;
pub use playlist::{program_fits, Playlist, DUMMY_LEN};
pub use source::{is_remote, is_well_formed_date, source_path};
