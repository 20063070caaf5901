//! A texture resource model: validation of raw RGBA8 uploads, readback row
//! ordering, sampler and blend-mode state, and PNG coding of pixel data.

mod codec;
mod error;
mod pixels;
mod texture;

pub use codec::{decode_image, encode_rgba8, DecodedImage};
pub use error::TextureError;
pub use pixels::{check_raw, rows_top_down, solid_rgba8};
pub use texture::{
    finish_draw, BlendMode, BlendPlan, FilterMode, ImageFormat, ImageGeneric, SamplerInfo,
    WrapMode,
};
