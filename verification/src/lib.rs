//! Calculation of MusicBrainz and FreeDB disc IDs for audio CDs, on top of
//! libdiscid: the feature flags handed to the reader, the offsets table handed
//! to `discid_put`, and the model of a read disc with its tracks.

pub mod disc;
pub mod error;
pub mod features;
pub mod put;
pub mod text;

pub use disc::{DiscId, DiscIdView, Track, TrackIter};
pub use error::{CallOutcome, DiscError};
pub use features::Features;
pub use put::PutRequest;
