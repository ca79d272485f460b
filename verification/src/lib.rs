//! Shared types and verified logic for image codecs: format detection by
//! magic bytes and container brands, resource limits, decode/encode
//! policies and capabilities, pixel descriptors and format negotiation,
//! planar layouts, pixel depth and layout conversion, EXIF orientation
//! parsing, metadata, well-known ICC profile identification and the
//! ISO 21496-1 gain map metadata framing.

pub mod buffer;
pub mod capabilities;
pub mod color;
pub mod container;
pub mod convert;
pub mod cost;
pub mod descriptor;
pub mod format;
pub mod gainmap;
pub mod helpers;
pub mod icc;
pub mod info;
pub mod limits;
pub mod metadata;
pub mod negotiate;
pub mod orientation;
pub mod output;
pub mod pixel;
pub mod planar;
pub mod policy;
pub mod text;

pub use capabilities::{DecodeCapabilities, EncodeCapabilities, UnsupportedOperation};
pub use format::ImageFormat;
pub use gainmap::GainMapDirection;
pub use info::{Cicp, ContentLightLevel, ImageInfo, ImageSequence, ResolutionUnit, Supplements};
pub use limits::{LimitExceeded, ResourceLimits, ThreadingPolicy};
pub use metadata::Metadata;
pub use output::DecodeOutput;
pub use orientation::{Orientation, OrientationHint};
pub use policy::{DecodePolicy, EncodePolicy};
