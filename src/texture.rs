use vstd::prelude::*;

use crate::codec::{encode_rgba8, png_encoded};
use crate::error::TextureError;
use crate::pixels::{
    flip_rows, lemma_readback_round_trip, lemma_stored_len, rgba_len, rows_top_down,
    stored_rows,
};

verus! {

/// How a texture is sampled between texel centers.
#[derive(Debug, Clone, Copy, PartialEq, Eq, Structural)]
pub enum FilterMode {
    /// Take the nearest texel.
    Nearest,
    /// Interpolate between neighbouring texels.
    Linear,
}

/// What sampling does outside the texture's edges, along one axis.
#[derive(Debug, Clone, Copy, PartialEq, Eq, Structural)]
pub enum WrapMode {
    /// Repeat the texture.
    Tile,
    /// Repeat the texture, mirrored every other time.
    Mirror,
    /// Extend the edge texels.
    Clamp,
    /// Use a border color.
    Border,
}

/// How a drawn fragment's color combines with what is already drawn.
#[derive(Debug, Clone, Copy, PartialEq, Eq, Structural)]
pub enum BlendMode {
    Add,
    Subtract,
    Alpha,
    Invert,
    Multiply,
    Replace,
    Lighten,
    Darken,
}

/// The formats in which an image can be saved.
#[derive(Debug, Clone, Copy, PartialEq, Eq, Structural)]
pub enum ImageFormat {
    /// PNG, RGBA with 8-bit channels.
    Png,
}

/// The sampling state of an image: its filter and its wrap mode on each axis.
#[derive(Debug, Clone, Copy, PartialEq, Eq, Structural)]
pub struct SamplerInfo {
    pub filter: FilterMode,
    pub wrap_x: WrapMode,
    pub wrap_y: WrapMode,
}

/// What an image is, apart from the texture it draws from.
pub struct ImageState {
    pub width: u32,
    pub height: u32,
    pub sampler_info: SamplerInfo,
    pub blend_mode: Option<BlendMode>,
}

/// The blend-mode changes that drawing an image makes to the render context:
/// the mode to switch to before the draw call, and the mode to put back after
/// it, whether or not the draw call succeeds.
#[derive(Debug, Clone, Copy, PartialEq, Eq, Structural)]
pub struct BlendPlan {
    pub switch_to: Option<BlendMode>,
    pub restore_to: Option<BlendMode>,
}

/// The blend-mode changes for drawing an image whose own mode is `image_mode`
/// while the context's active mode is `current`.
pub open spec fn blend_plan(image_mode: Option<BlendMode>, current: BlendMode) -> BlendPlan {
    match image_mode {
        Some(m) => if m != current {
            BlendPlan { switch_to: Some(m), restore_to: Some(current) }
        } else {
            BlendPlan { switch_to: None, restore_to: None }
        },
        None => BlendPlan { switch_to: None, restore_to: None },
    }
}

/// The context's active blend mode after a draw that follows `plan`, starting
/// from `current`.
pub open spec fn mode_after_draw(plan: BlendPlan, current: BlendMode) -> BlendMode {
    let during = match plan.switch_to {
        Some(m) => m,
        None => current,
    };
    match plan.restore_to {
        Some(m) => m,
        None => during,
    }
}

/// Drawing an image leaves the context's active blend mode as it was. An image
/// without a blend mode of its own does not change it at all; one with a
/// different mode switches for the draw call and switches back afterwards.
pub proof fn lemma_draw_keeps_blend_mode(image_mode: Option<BlendMode>, current: BlendMode)
    ensures
        mode_after_draw(blend_plan(image_mode, current), current) == current,
        image_mode is None ==> blend_plan(image_mode, current).switch_to is None,
        image_mode is None ==> blend_plan(image_mode, current).restore_to is None,
{
}

/// The result of a draw: the draw call's own error first, then that of putting
/// the blend mode back.
pub open spec fn draw_result<E>(drawn: Result<(), E>, restored: Option<Result<(), E>>) -> Result<(), E> {
    match drawn {
        Err(e) => Err(e),
        Ok(_) => match restored {
            Some(Err(e)) => Err(e),
            _ => Ok(()),
        },
    }
}

/// Combines the outcome of a draw call with that of putting the blend mode
/// back (`None` where it was not switched). The mode is put back even after a
/// failed draw call; the draw call's error is then the one reported.
pub fn finish_draw<E>(drawn: Result<(), E>, restored: Option<Result<(), E>>) -> (r: Result<(), E>)
    ensures
        r == draw_result(drawn, restored),
{
    match drawn {
        Err(e) => Err(e),
        Ok(()) => match restored {
            Some(Err(e)) => Err(e),
            _ => Ok(()),
        },
    }
}

/// An image: a texture of type `T` and what is needed to draw it.
///
/// Cloning an image shares its texture; the sampling state and blend mode
/// belong to each copy.
#[derive(Debug)]
pub struct ImageGeneric<T> {
    texture: T,
    sampler_info: SamplerInfo,
    blend_mode: Option<BlendMode>,
    width: u32,
    height: u32,
}

impl<T: Clone> Clone for ImageGeneric<T> {
    fn clone(&self) -> (r: Self)
        ensures
            r@ == self@,
    {
        proof {
            use_type_invariant(self);
        }
        ImageGeneric {
            texture: self.texture.clone(),
            sampler_info: self.sampler_info,
            blend_mode: self.blend_mode,
            width: self.width,
            height: self.height,
        }
    }
}

impl<T> View for ImageGeneric<T> {
    type V = ImageState;

    closed spec fn view(&self) -> ImageState {
        ImageState {
            width: self.width,
            height: self.height,
            sampler_info: self.sampler_info,
            blend_mode: self.blend_mode,
        }
    }
}

impl<T> ImageGeneric<T> {
    /// Both dimensions are nonzero and fit in 16 bits.
    #[verifier::type_invariant]
    spec fn inv(&self) -> bool {
        0 < self.width <= 65535 && 0 < self.height <= 65535
    }

    /// The texture that the image draws from.
    pub closed spec fn spec_texture(&self) -> T {
        self.texture
    }

    /// An image over a texture that was made from `width` by `height` pixels,
    /// with no blend mode of its own.
    pub fn from_texture(texture: T, sampler_info: SamplerInfo, width: u16, height: u16) -> (r: Self)
        requires
            width > 0,
            height > 0,
        ensures
            r@ == (ImageState {
                width: width as u32,
                height: height as u32,
                sampler_info,
                blend_mode: None,
            }),
            r.spec_texture() == texture,
    {
        ImageGeneric {
            texture,
            sampler_info,
            blend_mode: None,
            width: width as u32,
            height: height as u32,
        }
    }

    /// The texture that the image draws from.
    pub fn texture(&self) -> (r: &T)
        ensures
            *r == self.spec_texture(),
    {
        &self.texture
    }

    /// The width of the image in pixels.
    pub fn width(&self) -> (r: u32)
        ensures
            r == self@.width,
            0 < r <= 65535,
    {
        proof {
            use_type_invariant(self);
        }
        self.width
    }

    /// The height of the image in pixels.
    pub fn height(&self) -> (r: u32)
        ensures
            r == self@.height,
            0 < r <= 65535,
    {
        proof {
            use_type_invariant(self);
        }
        self.height
    }

    /// The width and height of the image in pixels.
    pub fn get_dimensions(&self) -> (r: (u32, u32))
        ensures
            r == (self@.width, self@.height),
    {
        (self.width, self.height)
    }

    /// The sampling state of the image.
    pub fn sampler_info(&self) -> (r: SamplerInfo)
        ensures
            r == self@.sampler_info,
    {
        self.sampler_info
    }

    /// The filter mode of the image.
    pub fn get_filter(&self) -> (r: FilterMode)
        ensures
            r == self@.sampler_info.filter,
    {
        self.sampler_info.filter
    }

    /// Sets the filter mode of the image.
    pub fn set_filter(&mut self, mode: FilterMode)
        ensures
            final(self)@ == (ImageState {
                sampler_info: SamplerInfo { filter: mode, ..old(self)@.sampler_info },
                ..old(self)@
            }),
            final(self).spec_texture() == old(self).spec_texture(),
    {
        proof {
            use_type_invariant(&*self);
        }
        self.sampler_info.filter = mode;
    }

    /// The wrap modes of the image along the X and Y axes.
    pub fn get_wrap(&self) -> (r: (WrapMode, WrapMode))
        ensures
            r == (self@.sampler_info.wrap_x, self@.sampler_info.wrap_y),
    {
        (self.sampler_info.wrap_x, self.sampler_info.wrap_y)
    }

    /// Sets the wrap modes of the image along the X and Y axes.
    pub fn set_wrap(&mut self, wrap_x: WrapMode, wrap_y: WrapMode)
        ensures
            final(self)@ == (ImageState {
                sampler_info: SamplerInfo { wrap_x, wrap_y, ..old(self)@.sampler_info },
                ..old(self)@
            }),
            final(self).spec_texture() == old(self).spec_texture(),
    {
        proof {
            use_type_invariant(&*self);
        }
        self.sampler_info.wrap_x = wrap_x;
        self.sampler_info.wrap_y = wrap_y;
    }

    /// The blend mode that the image is drawn with, if it has one of its own.
    pub fn get_blend_mode(&self) -> (r: Option<BlendMode>)
        ensures
            r == self@.blend_mode,
    {
        self.blend_mode
    }

    /// Sets the blend mode that the image is drawn with; `None` draws it with
    /// the context's active mode.
    pub fn set_blend_mode(&mut self, mode: Option<BlendMode>)
        ensures
            final(self)@ == (ImageState { blend_mode: mode, ..old(self)@ }),
            final(self).spec_texture() == old(self).spec_texture(),
    {
        proof {
            use_type_invariant(&*self);
        }
        self.blend_mode = mode;
    }

    /// The blend-mode changes for drawing the image while the context's
    /// active mode is `current`.
    pub fn plan_blend(&self, current: BlendMode) -> (r: BlendPlan)
        ensures
            r == blend_plan(self@.blend_mode, current),
    {
        match self.blend_mode {
            Some(m) => if m != current {
                BlendPlan { switch_to: Some(m), restore_to: Some(current) }
            } else {
                BlendPlan { switch_to: None, restore_to: None }
            },
            None => BlendPlan { switch_to: None, restore_to: None },
        }
    }

    /// The image's RGBA8 bytes, top row first, from the mapped contents of its
    /// texture, which hold the bottom row first. Where those contents are the
    /// stored form of an image's pixels, these pixels come back unchanged: row
    /// zero of the result is the image's top row.
    pub fn to_rgba8(&self, mapped: &[u8]) -> (r: Result<Vec<u8>, TextureError>)
        ensures
            forall|pixels: Seq<u8>|
                pixels.len() == rgba_len(self@.width as int, self@.height as int) && mapped@
                    == #[trigger] stored_rows(pixels, self@.width as nat, self@.height as nat) ==> (
                r is Ok && r->Ok_0@ == pixels),
            r is Ok <==> mapped@.len() == rgba_len(self@.width as int, self@.height as int),
            r is Ok ==> r->Ok_0@ == flip_rows(
                mapped@,
                (self@.width * 4) as nat,
                self@.height as nat,
            ),
            r is Err ==> r == Err::<Vec<u8>, TextureError>(
                TextureError::IncompleteReadback {
                    expected: rgba_len(self@.width as int, self@.height as int) as u64,
                    actual: mapped@.len() as u64,
                },
            ),
    {
        proof {
            use_type_invariant(self);
        }
        proof {
            assert forall|pixels: Seq<u8>|
                pixels.len() == rgba_len(self.width as int, self.height as int) && mapped@
                    == #[trigger] stored_rows(
                    pixels,
                    self.width as nat,
                    self.height as nat,
                ) implies mapped@.len() == rgba_len(self.width as int, self.height as int)
                && flip_rows(mapped@, (self.width * 4) as nat, self.height as nat) == pixels by {
                lemma_readback_round_trip(pixels, self.width as u16, self.height as u16);
                lemma_stored_len(pixels, self.width as u16, self.height as u16);
            }
        }
        rows_top_down(mapped, self.width as u16, self.height as u16)
    }

    /// Encodes the image, read back from the mapped contents of its texture,
    /// in the given format.
    pub fn encode(&self, format: ImageFormat, mapped: &[u8]) -> (r: Result<Vec<u8>, TextureError>)
        ensures
            mapped@.len() != rgba_len(self@.width as int, self@.height as int) ==> r == Err::<
                Vec<u8>,
                TextureError,
            >(
                TextureError::IncompleteReadback {
                    expected: rgba_len(self@.width as int, self@.height as int) as u64,
                    actual: mapped@.len() as u64,
                },
            ),
            r is Ok ==> r->Ok_0@ == png_encoded(
                flip_rows(mapped@, (self@.width * 4) as nat, self@.height as nat),
                self@.width,
                self@.height,
            ),
            mapped@.len() == rgba_len(self@.width as int, self@.height as int) ==> r is Ok,
            forall|pixels: Seq<u8>|
                pixels.len() == rgba_len(self@.width as int, self@.height as int) && mapped@
                    == #[trigger] stored_rows(pixels, self@.width as nat, self@.height as nat) ==> (
                r is Ok && r->Ok_0@ == png_encoded(pixels, self@.width, self@.height)),
            r is Err ==> r->Err_0 is IncompleteReadback,
    {
        proof {
            use_type_invariant(self);
        }
        let data = match self.to_rgba8(mapped) {
            Ok(data) => data,
            Err(e) => {
                return Err(e);
            },
        };
        assert(data@.len() == rgba_len(self.width as int, self.height as int)) by (nonlinear_arith)
            requires
                data@.len() == (self.width * 4) * self.height,
        ;
        encode_rgba8(format, &data, self.width as u16, self.height as u16)
    }
}

} // verus!
