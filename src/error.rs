use vstd::prelude::*;

verus! {

/// The ways in which building, reading back or encoding an image can fail.
#[derive(Debug, Clone, PartialEq, Eq)]
pub enum TextureError {
    /// A dimension of zero was asked for.
    InvalidSize { width: u32, height: u32 },
    /// The pixel buffer does not hold `width * height * 4` bytes.
    SizeMismatch { width: u32, height: u32, expected: u64, actual: u64 },
    /// A decoded image is wider or taller than a texture can be.
    TooLarge { width: u32, height: u32 },
    /// A mapped readback buffer does not hold the whole texture.
    IncompleteReadback { expected: u64, actual: u64 },
    /// The codec could not decode the bytes.
    Decode(String),
    /// The codec could not encode the pixels.
    Encode(String),
}

impl TextureError {
    /// A sentence that describes the error.
    pub fn message(&self) -> String {
        match self {
            TextureError::InvalidSize { .. } => {
                "Tried to create a texture with a zero dimension; each dimension must be >0".to_owned()
            },
            TextureError::SizeMismatch { .. } => {
                "Tried to create a texture whose byte count does not match its size".to_owned()
            },
            TextureError::TooLarge { .. } => {
                "Image dimensions exceed the largest texture size".to_owned()
            },
            TextureError::IncompleteReadback { .. } => {
                "Texture readback did not yield the whole image".to_owned()
            },
            TextureError::Decode(m) => m.clone(),
            TextureError::Encode(m) => m.clone(),
        }
    }
}

} // verus!
