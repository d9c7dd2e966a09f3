//! Decoding of still images and animations into per-panel pixel matrices for
//! a tiled LED display made of `panel_count` panels arranged side by side,
//! each `rows` high and `cols` wide.
//!
//! The pipeline is: payload prefix stripping and base64 decoding, image or
//! animation decoding, per-frame dimension validation, geometric slicing of
//! the composite canvas into panels, pixel encoding (channel triples or one
//! packed integer per pixel), and chunked pagination over animation frames.

pub mod canvas;
pub mod chunk;
pub mod decode;
pub mod errors;
pub mod geometry;
pub mod jsonout;
pub mod payload;
pub mod pipeline;
pub mod slice;
pub mod textfmt;

pub use errors::PipelineError;
pub use geometry::PanelGeometry;
pub use pipeline::{decode_gif, decode_image, process_gif_data, process_gif_frames_chunked};
pub use slice::PixelMode;
