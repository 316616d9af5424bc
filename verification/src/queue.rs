//! Planning of texture uploads through the queue. The engine checks a
//! loaded image against the metadata cache and its raw RGBA bytes, and
//! hands the application an exact write plan — table coordinates and byte
//! layout — or a typed, recoverable error. The actual queue write is
//! outside work the application performs from the plan.

use vstd::prelude::*;
use vstd::arithmetic::power2::pow2;
use vstd::pervasive::unreached;
use crate::texture_cache::TextureCacheError;
use crate::texture_cache::TextureMetadataCache;
use crate::texture_cache::TextureMetadataEntry;
use crate::texture_cache::entry_spec;
use crate::texture_cache::exp_of;
use crate::texture_cache::lemma_exp_of_agrees;
use crate::texture_cache::lemma_pow2_within_u32;
use crate::texture_cache::pow2_exponent;
use crate::texture_cache::size_supported;

verus! {

/// A texture write that cannot be planned. Both cases are recoverable at
/// the call site: the write is skipped, the renderer keeps operating.
#[derive(Clone, Debug, PartialEq, Eq)]
pub enum QueueError {
    /// The decoded image cannot yield raw RGBA8 bytes covering its pixels.
    RgbaTextureNoneBytes { path: String },
    /// The image's dimensions have no slot in the metadata cache.
    UnsupportedSize { width: u32, height: u32 },
}

/// A decoded image as the asset collaborator hands it over: pixel
/// dimensions, the raw RGBA8 bytes if the decoder could produce them, and
/// the path it was loaded from, for error reporting.
#[derive(Clone, Debug)]
pub struct LoadedTexture {
    pub width: u32,
    pub height: u32,
    pub rgba_bytes: Option<Vec<u8>>,
    pub path: String,
}

impl LoadedTexture {
    /// The decoder produced raw RGBA8 bytes, four per pixel.
    pub open spec fn has_rgba_bytes(self) -> bool {
        self.rgba_bytes matches Some(b) && b@.len() == 4 * self.width * self.height
    }
}

/// Everything the application needs to perform one texture write: the
/// cache coordinates of the target texture and its byte layout.
#[derive(Clone, Copy, Debug, PartialEq, Eq, Structural)]
pub struct TextureWritePlan {
    pub width_exp: u32,
    pub height_exp: u32,
    pub entry: TextureMetadataEntry,
}

/// A write of `texture` can be planned: its size has a cache slot and its
/// bytes are whole.
pub open spec fn texture_write_ok(max_exp: nat, texture: LoadedTexture) -> bool {
    size_supported(max_exp, texture.width, texture.height) && texture.has_rgba_bytes()
}

/// The plan of a plannable write: the cache coordinates of the image's
/// size and the byte layout stored there.
pub open spec fn texture_write_plan_of(texture: LoadedTexture) -> TextureWritePlan {
    TextureWritePlan {
        width_exp: exp_of(texture.width) as u32,
        height_exp: exp_of(texture.height) as u32,
        entry: entry_spec(exp_of(texture.width), exp_of(texture.height)),
    }
}

/// Plans the scheduled write of a loaded texture into its cache slot.
/// The size is checked first — the metadata lookup precedes the byte
/// check — so an image failing both reports `UnsupportedSize`.
pub fn plan_texture_write(cache: &TextureMetadataCache, texture: &LoadedTexture) -> (r: Result<
    TextureWritePlan,
    QueueError,
>)
    requires
        cache.wf(),
    ensures
        r is Ok <==> texture_write_ok(cache.max_exp(), *texture),
        texture_write_ok(cache.max_exp(), *texture) ==> r == Ok::<TextureWritePlan, QueueError>(
            texture_write_plan_of(*texture),
        ),
        !size_supported(cache.max_exp(), texture.width, texture.height) ==> r == Err::<
            TextureWritePlan,
            QueueError,
        >(QueueError::UnsupportedSize { width: texture.width, height: texture.height }),
        size_supported(cache.max_exp(), texture.width, texture.height)
            && !texture.has_rgba_bytes() ==> (r matches Err(
            QueueError::RgbaTextureNoneBytes { path },
        ) && path@ == texture.path@),
{
    let entry = match cache.get_or_fail(texture.width, texture.height) {
        Ok(entry) => entry,
        Err(TextureCacheError::UnsupportedSize) => {
            return Err(
                QueueError::UnsupportedSize { width: texture.width, height: texture.height },
            );
        }
    };
    proof {
        crate::texture_cache::lemma_wf_max_exp(*cache);
        let we = choose|e: nat| e <= cache.max_exp() && pow2(e) == texture.width;
        let he = choose|e: nat| e <= cache.max_exp() && pow2(e) == texture.height;
        lemma_pow2_within_u32(we);
        lemma_pow2_within_u32(he);
        assert(4 * (texture.width as int) * (texture.height as int) <= 0x1000_0000_0000_0000)
            by (nonlinear_arith)
            requires
                texture.width <= 0x2000_0000,
                texture.height <= 0x2000_0000,
        ;
    }
    let bytes_whole = match &texture.rgba_bytes {
        Some(b) => {
            let expected: u64 = 4 * (texture.width as u64) * (texture.height as u64);
            b.len() as u64 == expected
        }
        None => false,
    };
    if !bytes_whole {
        return Err(QueueError::RgbaTextureNoneBytes { path: texture.path.clone() });
    }
    let width_exp = match pow2_exponent(texture.width) {
        Some(e) => {
            proof {
                lemma_exp_of_agrees(texture.width, e as nat);
            }
            e
        }
        None => unreached(),
    };
    let height_exp = match pow2_exponent(texture.height) {
        Some(e) => {
            proof {
                lemma_exp_of_agrees(texture.height, e as nat);
            }
            e
        }
        None => unreached(),
    };
    Ok(TextureWritePlan { width_exp, height_exp, entry })
}

} // verus!
