//! Fetch-and-persist workflow for a daily astronomy picture.
//!
//! The library holds the verified core of a small utility: it validates the
//! JSON metadata of the day's picture, embeds descriptive fields into the
//! image buffer, derives the dated file name under which the image is
//! persisted, selects the newest stored image for the favorite symlink, and
//! drives the whole run as a state machine whose transitions are proved.
//! All network and filesystem traffic stays outside, in the binary that
//! feeds events to the state machine.

pub mod error;
pub mod text;
pub mod json;
pub mod config;
pub mod picture;
pub mod exif;
pub mod favorite;
pub mod pipeline;
