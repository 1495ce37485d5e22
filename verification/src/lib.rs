//! Stores an arbitrary byte stream in the channel bytes of a square raster
//! image, and reads it back.
//!
//! The core is a deterministic byte/pixel layout: `planner` computes the
//! smallest square canvas whose channel-byte capacity holds a payload,
//! `packer` pads the payload with zero bytes to fill that canvas exactly and
//! recovers the bytes verbatim, and `codec` hands the finished pixel buffer
//! to a PNG container writer and reader. No length metadata is stored, so
//! trailing zero padding is not stripped when reading back: that is a known
//! limitation of the layout.

pub mod codec;
pub mod errors;
pub mod options;
pub mod planner;
pub mod packer;

pub use codec::{decode_image, encode_image, EncodedImage};
pub use errors::{CapacityError, CodecError, EncodingError, OptionsError};
pub use options::{ImageColor, InputFile, Mode, Options};
pub use planner::{img_dimensions, num_components};
pub use packer::{pack, pad_data, unpack};
