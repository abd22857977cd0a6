//! A minimal UPnP/DLNA media streamer: the rules by which a render is chosen,
//! local files are mapped to URIs, and a render is told to play them.
//!
//! The library decides and computes; it does no input or output. Whoever
//! uses it searches the network, looks at the disk and serves the files, and
//! hands the library what was found.

pub mod cli;
pub mod devices;
pub mod dlna;
pub mod error;
pub mod streaming;
pub mod text;

pub use devices::{Device, Render, RenderAnswer, RenderRequest, RenderSpec, Service};
pub use dlna::{play, PlaybackAction, PlaybackEvent, PlaybackState};
pub use error::Error;
pub use streaming::{
    infer_subtitle_from_video, inferred_subtitle_path, LocalFile, MediaFile, MediaStreamingServer,
    Route,
};
